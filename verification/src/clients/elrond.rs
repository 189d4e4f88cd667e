//! Elrond: every answer of the gateway is an envelope of data and error;
//! the canonical block is the hyperblock, and its predecessor is found by a
//! second lookup on the hash of the previous hyperblock.

use vstd::prelude::*;
use crate::chain::Chain;
use crate::db::{Block, BlockView};
use crate::json::{
    JsonError, is_null, json_is_null, member, member_of, str_member, str_member_of, u64_member,
    u64_member_of,
};

verus! {

/// The shard whose status gives the head of the chain.
pub const METABLOCK_SHARD: u32 = 4294967295;

/// What went wrong in reading an answer of the gateway.
#[derive(Debug, Clone, PartialEq, Eq)]
pub enum ElrondError {
    /// The gateway answered with an error of its own, in these words.
    Remote(String),
    /// The gateway answered with neither data nor an error.
    MissingErrorResponse,
    Json(JsonError),
}

/// An [`ElrondError`] as a mathematical value.
pub enum ElrondErrorView {
    Remote(Seq<char>),
    MissingErrorResponse,
    Json(JsonError),
}

impl View for ElrondError {
    type V = ElrondErrorView;

    open spec fn view(&self) -> ElrondErrorView {
        match *self {
            ElrondError::Remote(message) => ElrondErrorView::Remote(message@),
            ElrondError::MissingErrorResponse => ElrondErrorView::MissingErrorResponse,
            ElrondError::Json(error) => ElrondErrorView::Json(error),
        }
    }
}

/// What a hyperblock says of itself.
#[derive(Debug, Clone, PartialEq, Eq)]
pub struct Hyperblock {
    pub nonce: u64,
    pub timestamp: u64,
    pub num_txs: u64,
    pub hash: String,
    pub prev_block_hash: String,
}

/// A [`Hyperblock`] as a mathematical value.
pub struct HyperblockView {
    pub nonce: u64,
    pub timestamp: u64,
    pub num_txs: u64,
    pub hash: Seq<char>,
    pub prev_block_hash: Seq<char>,
}

impl View for Hyperblock {
    type V = HyperblockView;

    open spec fn view(&self) -> HyperblockView {
        HyperblockView {
            nonce: self.nonce,
            timestamp: self.timestamp,
            num_txs: self.num_txs,
            hash: self.hash@,
            prev_block_hash: self.prev_block_hash@,
        }
    }
}

/// The envelope is opened: data that is `null` means failure, with the
/// gateway's error where it gave one; any other data is the answer.
pub fn response_data<'a>(data: &'a serde_json::Value, error: Option<String>) -> (opened: Result<
    &'a serde_json::Value,
    ElrondError,
>)
    ensures
        match opened {
            Ok(answer) => !json_is_null(*data) && *answer == *data,
            Err(failure) => json_is_null(*data) && failure@ == match error {
                Some(message) => ElrondErrorView::Remote(message@),
                None => ElrondErrorView::MissingErrorResponse,
            },
        },
{
    if is_null(data) {
        match error {
            Some(message) => Err(ElrondError::Remote(message)),
            None => Err(ElrondError::MissingErrorResponse),
        }
    } else {
        Ok(data)
    }
}

/// The text under `outer.inner` of the data.
pub open spec fn nested_str_of(
    data: serde_json::Value,
    outer: &'static str,
    inner: &'static str,
) -> Result<Seq<char>, JsonError> {
    match member_of(data, outer) {
        Err(error) => Err(error),
        Ok(section) => str_member_of(section, inner),
    }
}

/// The number under `outer.inner` of the data.
pub open spec fn nested_u64_of(
    data: serde_json::Value,
    outer: &'static str,
    inner: &'static str,
) -> Result<u64, JsonError> {
    match member_of(data, outer) {
        Err(error) => Err(error),
        Ok(section) => u64_member_of(section, inner),
    }
}

/// The version of the node, from the data of `/network/config`: the member
/// `config.erd_latest_tag_software_version`.
pub fn client_version(data: &serde_json::Value) -> (version: Result<String, ElrondError>)
    ensures
        match version {
            Ok(text) => nested_str_of(*data, "config", "erd_latest_tag_software_version") == Ok::<
                Seq<char>,
                JsonError,
            >(text@),
            Err(failure) => match nested_str_of(
                *data,
                "config",
                "erd_latest_tag_software_version",
            ) {
                Err(cause) => failure@ == ElrondErrorView::Json(cause),
                Ok(_) => false,
            },
        },
{
    let config = match member(data, "config") {
        Ok(config) => config,
        Err(error) => return Err(ElrondError::Json(error)),
    };
    match str_member(config, "erd_latest_tag_software_version") {
        Ok(text) => Ok(text),
        Err(error) => Err(ElrondError::Json(error)),
    }
}

/// The head of the chain, from the data of `/network/status/` for the
/// metablock shard: the member `status.erd_highest_final_nonce`.
pub fn latest_block_number(data: &serde_json::Value) -> (number: Result<u64, ElrondError>)
    ensures
        match number {
            Ok(nonce) => nested_u64_of(*data, "status", "erd_highest_final_nonce") == Ok::<
                u64,
                JsonError,
            >(nonce),
            Err(failure) => match nested_u64_of(*data, "status", "erd_highest_final_nonce") {
                Err(cause) => failure@ == ElrondErrorView::Json(cause),
                Ok(_) => false,
            },
        },
{
    let status = match member(data, "status") {
        Ok(status) => status,
        Err(error) => return Err(ElrondError::Json(error)),
    };
    match u64_member(status, "erd_highest_final_nonce") {
        Ok(nonce) => Ok(nonce),
        Err(error) => Err(ElrondError::Json(error)),
    }
}

/// The hyperblock in the data of `/hyperblock/by-nonce/` or
/// `/hyperblock/by-hash/`: under `hyperblock`, the members `nonce`,
/// `timestamp`, `numTxs`, `hash` and `prevBlockHash`, looked for in this
/// order.
pub open spec fn hyperblock_of(data: serde_json::Value) -> Result<HyperblockView, JsonError> {
    match member_of(data, "hyperblock") {
        Err(error) => Err(error),
        Ok(block) => match u64_member_of(block, "nonce") {
            Err(error) => Err(error),
            Ok(nonce) => match u64_member_of(block, "timestamp") {
                Err(error) => Err(error),
                Ok(timestamp) => match u64_member_of(block, "numTxs") {
                    Err(error) => Err(error),
                    Ok(num_txs) => match str_member_of(block, "hash") {
                        Err(error) => Err(error),
                        Ok(hash) => match str_member_of(block, "prevBlockHash") {
                            Err(error) => Err(error),
                            Ok(prev_block_hash) => Ok(
                                HyperblockView { nonce, timestamp, num_txs, hash, prev_block_hash },
                            ),
                        },
                    },
                },
            },
        },
    }
}

pub fn hyperblock(data: &serde_json::Value) -> (read: Result<Hyperblock, ElrondError>)
    ensures
        match read {
            Ok(block) => hyperblock_of(*data) == Ok::<HyperblockView, JsonError>(block@),
            Err(failure) => match hyperblock_of(*data) {
                Err(cause) => failure@ == ElrondErrorView::Json(cause),
                Ok(_) => false,
            },
        },
{
    let block = match member(data, "hyperblock") {
        Ok(block) => block,
        Err(error) => return Err(ElrondError::Json(error)),
    };
    let nonce = match u64_member(block, "nonce") {
        Ok(nonce) => nonce,
        Err(error) => return Err(ElrondError::Json(error)),
    };
    let timestamp = match u64_member(block, "timestamp") {
        Ok(timestamp) => timestamp,
        Err(error) => return Err(ElrondError::Json(error)),
    };
    let num_txs = match u64_member(block, "numTxs") {
        Ok(num_txs) => num_txs,
        Err(error) => return Err(ElrondError::Json(error)),
    };
    let hash = match str_member(block, "hash") {
        Ok(hash) => hash,
        Err(error) => return Err(ElrondError::Json(error)),
    };
    let prev_block_hash = match str_member(block, "prevBlockHash") {
        Ok(prev_block_hash) => prev_block_hash,
        Err(error) => return Err(ElrondError::Json(error)),
    };
    Ok(Hyperblock { nonce, timestamp, num_txs, hash, prev_block_hash })
}

/// The number of the hyperblock in the data of `/hyperblock/by-hash/`, by
/// which the predecessor of a block is resolved: the member
/// `hyperblock.nonce`.
pub fn hyperblock_nonce(data: &serde_json::Value) -> (number: Result<u64, ElrondError>)
    ensures
        match number {
            Ok(nonce) => nested_u64_of(*data, "hyperblock", "nonce") == Ok::<u64, JsonError>(
                nonce,
            ),
            Err(failure) => match nested_u64_of(*data, "hyperblock", "nonce") {
                Err(cause) => failure@ == ElrondErrorView::Json(cause),
                Ok(_) => false,
            },
        },
{
    let block = match member(data, "hyperblock") {
        Ok(block) => block,
        Err(error) => return Err(ElrondError::Json(error)),
    };
    match u64_member(block, "nonce") {
        Ok(nonce) => Ok(nonce),
        Err(error) => Err(ElrondError::Json(error)),
    }
}

/// The canonical block of a hyperblock whose predecessor has been resolved
/// to `prev_block_number`. The block takes its number from the hyperblock
/// itself.
pub fn elrond_block_to_block(hyperblock: Hyperblock, prev_block_number: u64) -> (block: Block)
    ensures
        block@ == (BlockView {
            chain: Chain::Elrond,
            block_number: hyperblock.nonce,
            prev_block_number: Some(prev_block_number),
            timestamp: hyperblock.timestamp,
            num_txs: hyperblock.num_txs,
            hash: hyperblock.hash@,
            parent_hash: hyperblock.prev_block_hash@,
        }),
{
    Block {
        chain: Chain::Elrond,
        block_number: hyperblock.nonce,
        prev_block_number: Some(prev_block_number),
        timestamp: hyperblock.timestamp,
        num_txs: hyperblock.num_txs,
        hash: hyperblock.hash,
        parent_hash: hyperblock.prev_block_hash,
    }
}

} // verus!
