//! PIVX, through a block explorer that reports no version of a node.

use vstd::prelude::*;
use vstd::string::StringExecFns;
use crate::chain::Chain;
use crate::db::{Block, BlockView, number_before, prev_of};
use crate::text::{decimal, to_decimal};

verus! {

/// What stands for the version of the node: the explorer's own address.
pub const CLIENT_VERSION: &'static str = "https://chainz.cryptoid.info";

/// What the explorer says of a block.
#[derive(Debug, Clone, PartialEq, Eq)]
pub struct PivxBlockInfo {
    pub hash: String,
    pub previousblockhash: String,
    /// The identifiers of the block's transactions.
    pub tx: Vec<String>,
    pub time: u64,
}

/// Where the number of blocks is asked for.
pub fn block_count_url(url: &str) -> (address: String)
    ensures
        address@ == url@ + "/pivx/api.dws?q=getblockcount"@,
{
    let mut address = url.to_owned();
    address.append("/pivx/api.dws?q=getblockcount");
    address
}

/// Where the hash of the block at `block_number` is asked for.
pub fn block_hash_url(url: &str, block_number: u64) -> (address: String)
    ensures
        address@ == url@ + "/pivx/api.dws?q=getblockhash&height="@ + decimal(block_number as nat),
{
    let mut address = url.to_owned();
    address.append("/pivx/api.dws?q=getblockhash&height=");
    address.append(to_decimal(block_number).as_str());
    address
}

/// Where the block with the hash `hash` is asked for.
pub fn block_url(url: &str, hash: &str) -> (address: String)
    ensures
        address@ == url@ + "/explorer/block.raw.dws?coin=pivx&hash="@ + hash@ + ".js"@,
{
    let mut address = url.to_owned();
    address.append("/explorer/block.raw.dws?coin=pivx&hash=");
    address.append(hash);
    address.append(".js");
    address
}

pub fn pivx_block_to_block(block_info: PivxBlockInfo, block_number: u64) -> (canonical: Block)
    ensures
        canonical@ == (BlockView {
            chain: Chain::Pivx,
            block_number,
            prev_block_number: number_before(block_number),
            timestamp: block_info.time,
            num_txs: block_info.tx@.len() as u64,
            hash: block_info.hash@,
            parent_hash: block_info.previousblockhash@,
        }),
{
    Block {
        chain: Chain::Pivx,
        block_number,
        prev_block_number: prev_of(block_number),
        timestamp: block_info.time,
        num_txs: block_info.tx.len() as u64,
        hash: block_info.hash,
        parent_hash: block_info.previousblockhash,
    }
}

} // verus!
