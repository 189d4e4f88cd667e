//! Tendermint chains: blocks are numbered without gaps, the time is that of
//! the header, and every entry of the block's data counts.

use vstd::prelude::*;
use crate::chain::Chain;
use crate::db::{Block, BlockView, number_before, prev_of};

verus! {

/// What the answer to a block request says of the block.
#[derive(Debug, Clone, PartialEq, Eq)]
pub struct TendermintBlock {
    /// The header time, in seconds since the epoch.
    pub time_seconds: i64,
    /// The number of entries of the block's data.
    pub transactions: usize,
    pub hash: String,
    /// The hash of the last block id of the header, where it has one.
    pub last_block_id_hash: Option<String>,
}

#[derive(Debug, Copy, Clone, PartialEq, Eq, Structural)]
pub enum TendermintError {
    /// The header time lies before the epoch.
    TimeOutOfRange,
    /// The header names no previous block.
    NoPreviousBlockId,
}

pub fn tendermint_block_to_block(chain: Chain, response: TendermintBlock, block_number: u64) -> (converted:
    Result<Block, TendermintError>)
    ensures
        match converted {
            Ok(canonical) => {
                &&& response.time_seconds >= 0
                &&& response.last_block_id_hash matches Some(parent_hash) && canonical@
                    == (BlockView {
                    chain,
                    block_number,
                    prev_block_number: number_before(block_number),
                    timestamp: response.time_seconds as u64,
                    num_txs: response.transactions as u64,
                    hash: response.hash@,
                    parent_hash: parent_hash@,
                })
            },
            Err(error) => if response.time_seconds < 0 {
                error == TendermintError::TimeOutOfRange
            } else {
                error == TendermintError::NoPreviousBlockId && response.last_block_id_hash is None
            },
        },
{
    if response.time_seconds < 0 {
        return Err(TendermintError::TimeOutOfRange);
    }
    let parent_hash = match response.last_block_id_hash {
        Some(parent_hash) => parent_hash,
        None => return Err(TendermintError::NoPreviousBlockId),
    };
    Ok(
        Block {
            chain,
            block_number,
            prev_block_number: prev_of(block_number),
            timestamp: response.time_seconds as u64,
            num_txs: response.transactions as u64,
            hash: response.hash,
            parent_hash,
        },
    )
}

} // verus!
