//! Near: the header names the height of the predecessor, the time counts
//! nanoseconds, and the transactions are those of all chunks of the block.

use vstd::prelude::*;
use crate::chain::Chain;
use crate::db::{Block, BlockView};

verus! {

/// Nanoseconds in a second.
pub const NANOS_PER_SEC: u64 = 1_000_000_000;

/// What the header of a block says.
#[derive(Debug, Clone, PartialEq, Eq)]
pub struct NearHeader {
    pub prev_height: Option<u64>,
    pub timestamp_nanosec: u64,
    pub hash: String,
    pub prev_hash: String,
}

#[derive(Debug, Copy, Clone, PartialEq, Eq, Structural)]
pub enum NearError {
    /// The transactions of the chunks are more than can be counted.
    TxCountOverflow,
}

/// The sum of the first `count` numbers.
pub open spec fn sum_of(numbers: Seq<usize>, count: int) -> int
    decreases count,
{
    if count <= 0 {
        0
    } else {
        sum_of(numbers, count - 1) + numbers[count - 1]
    }
}

proof fn lemma_sum_grows(numbers: Seq<usize>, low: int, high: int)
    requires
        0 <= low <= high,
    ensures
        0 <= sum_of(numbers, low) <= sum_of(numbers, high),
    decreases high,
{
    if low < high {
        lemma_sum_grows(numbers, low, high - 1);
    } else if low > 0 {
        lemma_sum_grows(numbers, low - 1, low - 1);
    }
}

/// The transactions of a block, from the number of transactions of each of
/// its chunks.
pub fn count_txs(chunk_txs: &Vec<usize>) -> (total: Result<u64, NearError>)
    ensures
        match total {
            Ok(total) => total == sum_of(chunk_txs@, chunk_txs@.len() as int),
            Err(error) => sum_of(chunk_txs@, chunk_txs@.len() as int) > usize::MAX,
        },
{
    let mut num_txs: usize = 0;
    let mut at: usize = 0;
    while at < chunk_txs.len()
        invariant
            at <= chunk_txs@.len(),
            num_txs == sum_of(chunk_txs@, at as int),
        decreases chunk_txs@.len() - at,
    {
        match num_txs.checked_add(chunk_txs[at]) {
            Some(more) => {
                num_txs = more;
            },
            None => {
                proof {
                    lemma_sum_grows(chunk_txs@, at + 1, chunk_txs@.len() as int);
                }
                return Err(NearError::TxCountOverflow);
            },
        }
        at += 1;
    }
    Ok(num_txs as u64)
}

pub fn near_block_to_block(header: NearHeader, block_number: u64, num_txs: u64) -> (block: Block)
    ensures
        block@ == (BlockView {
            chain: Chain::Near,
            block_number,
            prev_block_number: header.prev_height,
            timestamp: header.timestamp_nanosec / NANOS_PER_SEC,
            num_txs,
            hash: header.hash@,
            parent_hash: header.prev_hash@,
        }),
{
    Block {
        chain: Chain::Near,
        block_number,
        prev_block_number: header.prev_height,
        timestamp: header.timestamp_nanosec / NANOS_PER_SEC,
        num_txs,
        hash: header.hash,
        parent_hash: header.prev_hash,
    }
}

} // verus!
