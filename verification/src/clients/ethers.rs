//! Chains that speak the Ethereum JSON-RPC: blocks are numbered without
//! gaps and every transaction counts.

use vstd::prelude::*;
use crate::chain::Chain;
use crate::db::{Block, BlockView, number_before, prev_of};
use crate::hexadecimal::{encode_hex, hex_text};

verus! {

/// What a block of the node says of itself. The timestamp is a 256-bit
/// number in four words, the lowest first; the hashes are raw bytes.
#[derive(Debug, Clone, PartialEq, Eq)]
pub struct EthersBlock {
    /// `None` while the block is pending.
    pub number: Option<u64>,
    pub timestamp: [u64; 4],
    pub transactions: usize,
    /// `None` while the block is pending.
    pub hash: Option<Vec<u8>>,
    pub parent_hash: Vec<u8>,
}

#[derive(Debug, Copy, Clone, PartialEq, Eq, Structural)]
pub enum EthersError {
    /// The block has no number or no hash yet.
    PendingBlock,
    /// The timestamp is beyond 64 bits.
    TimestampOverflow,
}

/// The timestamp fits in 64 bits: only its lowest word is set.
pub open spec fn fits_u64(words: [u64; 4]) -> bool {
    words@[1] == 0 && words@[2] == 0 && words@[3] == 0
}

/// The canonical block of a block that is no longer pending.
pub fn ethers_block_to_block(chain: Chain, block: EthersBlock) -> (converted: Result<
    Block,
    EthersError,
>)
    ensures
        match converted {
            Ok(canonical) => {
                &&& block.number matches Some(number) && block.hash matches Some(hash)
                    && fits_u64(block.timestamp) && canonical@ == (BlockView {
                    chain,
                    block_number: number,
                    prev_block_number: number_before(number),
                    timestamp: block.timestamp@[0],
                    num_txs: block.transactions as u64,
                    hash: hex_text(hash@),
                    parent_hash: hex_text(block.parent_hash@),
                })
            },
            Err(error) => if block.number is None {
                error == EthersError::PendingBlock
            } else if !fits_u64(block.timestamp) {
                error == EthersError::TimestampOverflow
            } else {
                error == EthersError::PendingBlock && block.hash is None
            },
        },
{
    let block_number = match block.number {
        Some(number) => number,
        None => return Err(EthersError::PendingBlock),
    };
    if block.timestamp[1] != 0 || block.timestamp[2] != 0 || block.timestamp[3] != 0 {
        return Err(EthersError::TimestampOverflow);
    }
    let hash = match &block.hash {
        Some(hash) => encode_hex(hash),
        None => return Err(EthersError::PendingBlock),
    };
    Ok(
        Block {
            chain,
            block_number,
            prev_block_number: prev_of(block_number),
            timestamp: block.timestamp[0],
            num_txs: block.transactions as u64,
            hash,
            parent_hash: encode_hex(&block.parent_hash),
        },
    )
}

} // verus!
