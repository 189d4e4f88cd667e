//! Algorand: the head is the last round, the hash of a block comes from the
//! node and its time and transactions from the indexer.

use vstd::prelude::*;
use vstd::string::StrSliceExecFns;
use crate::chain::Chain;
use crate::db::{Block, BlockView, number_before, prev_of};
use crate::hexadecimal::{encode_hex, hex_text};

verus! {

/// What node and indexer say of a block.
#[derive(Debug, Clone, PartialEq, Eq)]
pub struct AlgorandBlock {
    /// The hash of the block, from the node.
    pub hash: Vec<u8>,
    /// The hash of the previous block, from the indexer.
    pub previous_block_hash: Vec<u8>,
    /// The time of the block in seconds, from the indexer.
    pub timestamp: u64,
    /// The number of transactions that the indexer lists.
    pub transactions: usize,
}

pub fn algorand_block_to_block(block: AlgorandBlock, block_number: u64) -> (canonical: Block)
    ensures
        canonical@ == (BlockView {
            chain: Chain::Algorand,
            block_number,
            prev_block_number: number_before(block_number),
            timestamp: block.timestamp,
            num_txs: block.transactions as u64,
            hash: hex_text(block.hash@),
            parent_hash: hex_text(block.previous_block_hash@),
        }),
{
    Block {
        chain: Chain::Algorand,
        block_number,
        prev_block_number: prev_of(block_number),
        timestamp: block.timestamp,
        num_txs: block.transactions as u64,
        hash: encode_hex(&block.hash),
        parent_hash: encode_hex(&block.previous_block_hash),
    }
}

/// The index of the first `mark` in `text` at or after `from`, or the
/// length of the text where there is none.
pub open spec fn index_of(text: Seq<char>, mark: char, from: int) -> int
    decreases text.len() - from,
{
    if from >= text.len() {
        text.len() as int
    } else if text[from] == mark {
        from
    } else {
        index_of(text, mark, from + 1)
    }
}

/// The two addresses of a configuration entry, which are divided by a
/// semicolon: that of the node first, then that of the indexer, which ends
/// at a second semicolon if there is one. An entry without a semicolon
/// names no indexer.
pub open spec fn urls_of(urls: Seq<char>) -> Option<(Seq<char>, Seq<char>)> {
    let first = index_of(urls, ';', 0);
    if first >= urls.len() {
        None
    } else {
        Some((urls.subrange(0, first), urls.subrange(first + 1, index_of(urls, ';', first + 1))))
    }
}

proof fn lemma_index_of(text: Seq<char>, mark: char, from: int, at: int)
    requires
        0 <= from <= at <= text.len(),
        forall|i: int| from <= i < at ==> text[i] != mark,
        at < text.len() ==> text[at] == mark,
    ensures
        index_of(text, mark, from) == at,
    decreases at - from,
{
    if from < at {
        lemma_index_of(text, mark, from + 1, at);
    }
}

fn find(text: &str, mark: char, from: usize) -> (at: usize)
    requires
        from <= text@.len(),
    ensures
        at == index_of(text@, mark, from as int),
        from <= at <= text@.len(),
{
    let len = text.unicode_len();
    let mut at: usize = from;
    while at < len
        invariant
            len == text@.len(),
            from <= at <= len,
            forall|i: int| from <= i < at ==> text@[i] != mark,
        decreases len - at,
    {
        if text.get_char(at) == mark {
            proof {
                lemma_index_of(text@, mark, from as int, at as int);
            }
            return at;
        }
        at += 1;
    }
    proof {
        lemma_index_of(text@, mark, from as int, at as int);
    }
    at
}

/// Splits a configuration entry into the address of the node and that of
/// the indexer.
pub fn split_urls(urls: &str) -> (split: Option<(String, String)>)
    ensures
        match split {
            Some((algod, indexer)) => urls_of(urls@) == Some((algod@, indexer@)),
            None => urls_of(urls@) is None,
        },
{
    let first = find(urls, ';', 0);
    if first >= urls.unicode_len() {
        None
    } else {
        let second = find(urls, ';', first + 1);
        let algod = urls.substring_char(0, first);
        let indexer = urls.substring_char(first + 1, second);
        Some((algod.to_owned(), indexer.to_owned()))
    }
}

} // verus!
