//! Hedera, through a mirror node, which reports no version of its own: the
//! version of the API in the most recent block stands for it.

use vstd::prelude::*;
use vstd::string::StringExecFns;
use crate::chain::Chain;
use crate::clients::cast::{reinterpret, reinterpreted};
use crate::db::{Block, BlockView, number_before, prev_of};
use crate::text::{decimal, to_decimal};

verus! {

/// What the mirror node says of a block. The end of the block's time span
/// is given in whole seconds.
#[derive(Debug, Clone, PartialEq, Eq)]
pub struct HederaBlock {
    pub count: i64,
    pub hapi_version: String,
    pub hash: String,
    pub number: i64,
    pub previous_hash: String,
    pub timestamp_to: u64,
}

#[derive(Debug, Copy, Clone, PartialEq, Eq, Structural)]
pub enum HederaError {
    /// The mirror node lists no block at all.
    NoBlocks,
}

/// The address at which the most recent block is asked for.
pub fn most_recent_block_url(url: &str) -> (address: String)
    ensures
        address@ == url@ + "/api/v1/blocks?order=desc&limit=1"@,
{
    let mut address = url.to_owned();
    address.append("/api/v1/blocks?order=desc&limit=1");
    address
}

/// The address at which the block `block_number` is asked for.
pub fn block_url(url: &str, block_number: u64) -> (address: String)
    ensures
        address@ == url@ + "/api/v1/blocks/"@ + decimal(block_number as nat),
{
    let mut address = url.to_owned();
    address.append("/api/v1/blocks/");
    address.append(to_decimal(block_number).as_str());
    address
}

/// The version that stands for the node's: that of the API in the first of
/// the most recent blocks.
pub fn client_version(recent_blocks: &Vec<HederaBlock>) -> (version: Result<String, HederaError>)
    ensures
        match version {
            Ok(text) => recent_blocks@.len() > 0 && text@ == recent_blocks@[0].hapi_version@,
            Err(error) => recent_blocks@.len() == 0,
        },
{
    if recent_blocks.len() == 0 {
        Err(HederaError::NoBlocks)
    } else {
        Ok(recent_blocks[0].hapi_version.clone())
    }
}

/// The head of the chain: the number of the first of the most recent
/// blocks.
pub fn latest_block_number(recent_blocks: &Vec<HederaBlock>) -> (number: Result<u64, HederaError>)
    ensures
        match number {
            Ok(number) => recent_blocks@.len() > 0 && number == reinterpreted(
                recent_blocks@[0].number,
            ),
            Err(error) => recent_blocks@.len() == 0,
        },
{
    if recent_blocks.len() == 0 {
        Err(HederaError::NoBlocks)
    } else {
        Ok(reinterpret(recent_blocks[0].number))
    }
}

pub fn hedera_block_to_block(block: HederaBlock, block_number: u64) -> (canonical: Block)
    ensures
        canonical@ == (BlockView {
            chain: Chain::Hedera,
            block_number,
            prev_block_number: number_before(block_number),
            timestamp: block.timestamp_to,
            num_txs: reinterpreted(block.count),
            hash: block.hash@,
            parent_hash: block.previous_hash@,
        }),
{
    Block {
        chain: Chain::Hedera,
        block_number,
        prev_block_number: prev_of(block_number),
        timestamp: block.timestamp_to,
        num_txs: reinterpret(block.count),
        hash: block.hash,
        parent_hash: block.previous_hash,
    }
}

} // verus!
