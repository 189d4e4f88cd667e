//! Bitcoin, through a block explorer that answers by plain addresses.

use vstd::prelude::*;
use vstd::string::{StringExecFns, StringSliceAdditionalSpecFns};
use crate::chain::Chain;
use crate::db::{Block, BlockView};
use crate::text::{decimal, decimal_u64_of, parse_u64, to_decimal};

verus! {

/// The addresses of one explorer. The base address ends where the paths
/// begin: nothing is put between the two.
#[derive(Debug, Clone, PartialEq, Eq)]
pub struct ElectrumClient {
    pub url: String,
}

/// What the explorer says of a block.
#[derive(Debug, Clone, PartialEq, Eq)]
pub struct ElectrumBlock {
    pub id: String,
    pub height: u64,
    pub version: u32,
    pub timestamp: u32,
    pub tx_count: u32,
    pub previousblockhash: String,
    pub nonce: u32,
}

impl ElectrumClient {
    pub fn new(url: &str) -> (client: ElectrumClient)
        ensures
            client.url@ == url@,
    {
        ElectrumClient { url: url.to_owned() }
    }

    /// Where the hash of the newest block is asked for.
    pub fn tip_hash_url(&self) -> (address: String)
        ensures
            address@ == self.url@ + "blocks/tip/hash"@,
    {
        let mut address = self.url.clone();
        address.append("blocks/tip/hash");
        address
    }

    /// Where the height of the newest block is asked for.
    pub fn tip_height_url(&self) -> (address: String)
        ensures
            address@ == self.url@ + "blocks/tip/height"@,
    {
        let mut address = self.url.clone();
        address.append("blocks/tip/height");
        address
    }

    /// Where the hash of the block at `block_number` is asked for.
    pub fn block_height_url(&self, block_number: u64) -> (address: String)
        ensures
            address@ == self.url@ + "block-height/"@ + decimal(block_number as nat),
    {
        let mut address = self.url.clone();
        address.append("block-height/");
        address.append(to_decimal(block_number).as_str());
        address
    }

    /// Where the block with the hash `block_hash` is asked for.
    pub fn block_url(&self, block_hash: &str) -> (address: String)
        ensures
            address@ == self.url@ + "block/"@ + block_hash@,
    {
        let mut address = self.url.clone();
        address.append("block/");
        address.append(block_hash);
        address
    }

    /// What stands for the version of the node: the version of the newest
    /// block, in decimal.
    pub fn client_version(&self, tip: &ElectrumBlock) -> (version: String)
        ensures
            version@ == decimal(tip.version as nat),
    {
        to_decimal(tip.version as u64)
    }

    /// The head of the chain, from the text that the explorer answers with.
    pub fn latest_block_number(&self, tip_height: &str) -> (number: Option<u64>)
        ensures
            number == decimal_u64_of(tip_height.spec_bytes()),
    {
        parse_u64(tip_height)
    }

    /// The canonical block of `block`, which was asked for at
    /// `block_number`; `prev_block` is the block that it names as its
    /// predecessor, whose height is the number of the predecessor.
    pub fn electrum_block_to_block(
        &self,
        block: ElectrumBlock,
        prev_block: &ElectrumBlock,
        block_number: u64,
    ) -> (canonical: Block)
        ensures
            canonical@ == (BlockView {
                chain: Chain::Bitcoin,
                block_number,
                prev_block_number: Some(prev_block.height),
                timestamp: block.timestamp as u64,
                num_txs: block.tx_count as u64,
                hash: block.id@,
                parent_hash: block.previousblockhash@,
            }),
    {
        Block {
            chain: Chain::Bitcoin,
            block_number,
            prev_block_number: Some(prev_block.height),
            timestamp: block.timestamp as u64,
            num_txs: block.tx_count as u64,
            hash: block.id,
            parent_hash: block.previousblockhash,
        }
    }
}

} // verus!
