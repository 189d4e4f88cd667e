//! The Internet Computer, through its Rosetta gateway.

use vstd::prelude::*;
use crate::chain::Chain;
use crate::db::{Block, BlockView};
use crate::json::{
    JsonError, array_len, array_len_of, as_u64, json_as_u64, member, member_of, str_member,
    str_member_of, u64_member, u64_member_of,
};

verus! {

/// The blockchain that the gateway is asked about.
pub const BLOCKCHAIN: &'static str = "Internet Computer";

/// The network that the gateway is asked about.
pub const NETWORK: &'static str = "00000000000000020101";

/// The version of the gateway, from the member `version` of the answer to
/// `/network/options`: its member `rosetta_version`.
pub fn client_version(version: &serde_json::Value) -> (read: Result<String, JsonError>)
    ensures
        match read {
            Ok(text) => str_member_of(*version, "rosetta_version") == Ok::<Seq<char>, JsonError>(
                text@,
            ),
            Err(error) => str_member_of(*version, "rosetta_version") == Err::<
                Seq<char>,
                JsonError,
            >(error),
        },
{
    str_member(version, "rosetta_version")
}

/// The head of the chain, from the member `current_block_identifier` of
/// the answer to `/network/status`: its member `index`.
pub fn latest_block_number(current_block_identifier: &serde_json::Value) -> (number: Result<
    u64,
    JsonError,
>)
    ensures
        number == u64_member_of(*current_block_identifier, "index"),
{
    u64_member(current_block_identifier, "index")
}

/// Milliseconds in a second.
pub const MILLIS_PER_SEC: u64 = 1000;

/// What the gateway says of a block, as it says it: the time counts
/// milliseconds, and the parent index is absent where the gateway gives no
/// number for it.
#[derive(Debug, Clone, PartialEq, Eq)]
pub struct RosettaBlock {
    pub index: u64,
    pub parent_index: Option<u64>,
    pub hash: String,
    pub parent_hash: String,
    pub timestamp_millis: u64,
    /// The number of elements of `transactions`.
    pub transactions: usize,
}

/// A [`RosettaBlock`] as a mathematical value.
pub struct RosettaBlockView {
    pub index: u64,
    pub parent_index: Option<u64>,
    pub hash: Seq<char>,
    pub parent_hash: Seq<char>,
    pub timestamp_millis: u64,
    pub transactions: usize,
}

impl View for RosettaBlock {
    type V = RosettaBlockView;

    open spec fn view(&self) -> RosettaBlockView {
        RosettaBlockView {
            index: self.index,
            parent_index: self.parent_index,
            hash: self.hash@,
            parent_hash: self.parent_hash@,
            timestamp_millis: self.timestamp_millis,
            transactions: self.transactions,
        }
    }
}

/// What the member `block` of the answer to `/block` says.
///
/// Number and hash stand under `block_identifier`, those of the predecessor
/// under `parent_block_identifier`; a parent index that is no number is
/// taken as absent. The members are looked for in this order: the two
/// identifiers, the index, the parent index, the hash, the parent hash, the
/// timestamp, the transactions.
pub open spec fn rosetta_block_of(block: serde_json::Value) -> Result<RosettaBlockView, JsonError> {
    match member_of(block, "block_identifier") {
        Err(error) => Err(error),
        Ok(identifier) => match member_of(block, "parent_block_identifier") {
            Err(error) => Err(error),
            Ok(parent) => match u64_member_of(identifier, "index") {
                Err(error) => Err(error),
                Ok(index) => match member_of(parent, "index") {
                    Err(error) => Err(error),
                    Ok(parent_index) => match str_member_of(identifier, "hash") {
                        Err(error) => Err(error),
                        Ok(hash) => match str_member_of(parent, "hash") {
                            Err(error) => Err(error),
                            Ok(parent_hash) => match u64_member_of(block, "timestamp") {
                                Err(error) => Err(error),
                                Ok(timestamp_millis) => match array_len_of(
                                    block,
                                    "transactions",
                                ) {
                                    Err(error) => Err(error),
                                    Ok(transactions) => Ok(
                                        RosettaBlockView {
                                            index,
                                            parent_index: json_as_u64(parent_index),
                                            hash,
                                            parent_hash,
                                            timestamp_millis,
                                            transactions: transactions as usize,
                                        },
                                    ),
                                },
                            },
                        },
                    },
                },
            },
        },
    }
}

/// Reads the member `block` of the answer to `/block`.
pub fn rosetta_block(block: &serde_json::Value) -> (read: Result<RosettaBlock, JsonError>)
    ensures
        match read {
            Ok(found) => rosetta_block_of(*block) == Ok::<RosettaBlockView, JsonError>(found@),
            Err(error) => rosetta_block_of(*block) == Err::<RosettaBlockView, JsonError>(error),
        },
{
    let identifier = match member(block, "block_identifier") {
        Ok(identifier) => identifier,
        Err(error) => return Err(error),
    };
    let parent = match member(block, "parent_block_identifier") {
        Ok(parent) => parent,
        Err(error) => return Err(error),
    };
    let index = match u64_member(identifier, "index") {
        Ok(index) => index,
        Err(error) => return Err(error),
    };
    let parent_index = match member(parent, "index") {
        Ok(parent_index) => as_u64(parent_index),
        Err(error) => return Err(error),
    };
    let hash = match str_member(identifier, "hash") {
        Ok(hash) => hash,
        Err(error) => return Err(error),
    };
    let parent_hash = match str_member(parent, "hash") {
        Ok(parent_hash) => parent_hash,
        Err(error) => return Err(error),
    };
    let timestamp_millis = match u64_member(block, "timestamp") {
        Ok(timestamp_millis) => timestamp_millis,
        Err(error) => return Err(error),
    };
    let transactions = match array_len(block, "transactions") {
        Ok(transactions) => transactions,
        Err(error) => return Err(error),
    };
    Ok(RosettaBlock { index, parent_index, hash, parent_hash, timestamp_millis, transactions })
}

/// The canonical block of what the gateway says of a block: the index is
/// the block number, the parent index the predecessor, the time is taken
/// in whole seconds, and every transaction counts.
pub open spec fn canonical_block(block: RosettaBlockView) -> BlockView {
    BlockView {
        chain: Chain::InternetComputer,
        block_number: block.index,
        prev_block_number: block.parent_index,
        timestamp: block.timestamp_millis / MILLIS_PER_SEC,
        num_txs: block.transactions as u64,
        hash: block.hash,
        parent_hash: block.parent_hash,
    }
}

pub fn rosetta_block_to_block(block: RosettaBlock) -> (canonical: Block)
    ensures
        canonical@ == canonical_block(block@),
{
    Block {
        chain: Chain::InternetComputer,
        block_number: block.index,
        prev_block_number: block.parent_index,
        timestamp: block.timestamp_millis / MILLIS_PER_SEC,
        num_txs: block.transactions as u64,
        hash: block.hash,
        parent_hash: block.parent_hash,
    }
}

/// The block that the member `block` of the answer to `/block` describes:
/// the canonical block of what it says.
pub open spec fn block_of(block: serde_json::Value) -> Result<BlockView, JsonError> {
    match rosetta_block_of(block) {
        Ok(found) => Ok(canonical_block(found)),
        Err(error) => Err(error),
    }
}

pub fn icp_block_to_block(block: &serde_json::Value) -> (converted: Result<Block, JsonError>)
    ensures
        match converted {
            Ok(canonical) => block_of(*block) == Ok::<BlockView, JsonError>(canonical@),
            Err(error) => block_of(*block) == Err::<BlockView, JsonError>(error),
        },
{
    match rosetta_block(block) {
        Ok(found) => Ok(rosetta_block_to_block(found)),
        Err(error) => Err(error),
    }
}

} // verus!
