//! Solana: blocks are slots, which may be skipped, and only transactions of
//! users count. A transaction whose every instruction runs the vote program
//! is a vote of a validator and is left out.

use vstd::prelude::*;
use crate::chain::Chain;
use crate::db::{Block, BlockView};

verus! {

/// The address of the vote program.
pub const VOTE_PROGRAM_ID: &'static str = "Vote111111111111111111111111111111111111111";

/// What the count of user transactions reads of a transaction, be its
/// message legacy or versioned: the addresses of its accounts, and for each
/// instruction the index of the account that is its program.
#[derive(Debug, Clone, PartialEq, Eq)]
pub struct SolanaTransaction {
    pub account_keys: Vec<String>,
    pub program_id_indexes: Vec<u8>,
}

/// What a confirmed block says of itself.
#[derive(Debug, Clone, PartialEq, Eq)]
pub struct SolanaBlock {
    pub parent_slot: u64,
    pub block_time: Option<i64>,
    pub transactions: Option<Vec<SolanaTransaction>>,
    pub blockhash: String,
    pub previous_blockhash: String,
}

#[derive(Debug, Copy, Clone, PartialEq, Eq, Structural)]
pub enum SolanaError {
    /// The node does not know when the block was produced.
    BlockTimeUnavailable,
    /// The block time lies before the epoch.
    BlockTimeOutOfRange,
    /// An instruction names a program account that its transaction does not
    /// list.
    ProgramIndexOutOfRange,
}

impl SolanaTransaction {
    /// Every instruction names an account of the transaction as its program.
    pub open spec fn well_formed(&self) -> bool {
        forall|i: int|
            0 <= i < self.program_id_indexes@.len() ==> (#[trigger] self.program_id_indexes@[i])
                < self.account_keys@.len()
    }

    /// The instruction at `at` runs the vote program.
    pub open spec fn is_vote_instruction(&self, at: int) -> bool {
        self.account_keys@[self.program_id_indexes@[at] as int]@ == VOTE_PROGRAM_ID@
    }

    /// Every instruction runs the vote program.
    pub open spec fn spec_is_vote(&self) -> bool {
        forall|i: int|
            0 <= i < self.program_id_indexes@.len() ==> #[trigger] self.is_vote_instruction(i)
    }

    /// Whether the transaction is a vote; an instruction with a program
    /// index that is out of range is refused.
    pub fn is_vote(&self) -> (vote: Result<bool, SolanaError>)
        ensures
            match vote {
                Ok(vote) => self.well_formed() && vote == self.spec_is_vote(),
                Err(error) => !self.well_formed() && error == SolanaError::ProgramIndexOutOfRange,
            },
    {
        let vote_program = VOTE_PROGRAM_ID.to_owned();
        let mut all_votes = true;
        let mut at: usize = 0;
        while at < self.program_id_indexes.len()
            invariant
                at <= self.program_id_indexes@.len(),
                vote_program@ == VOTE_PROGRAM_ID@,
                forall|i: int|
                    0 <= i < at ==> (#[trigger] self.program_id_indexes@[i])
                        < self.account_keys@.len(),
                all_votes == forall|i: int| 0 <= i < at ==> #[trigger] self.is_vote_instruction(i),
            decreases self.program_id_indexes@.len() - at,
        {
            let program_id_index = self.program_id_indexes[at] as usize;
            if program_id_index >= self.account_keys.len() {
                return Err(SolanaError::ProgramIndexOutOfRange);
            }
            if !(self.account_keys[program_id_index] == vote_program) {
                assert(!self.is_vote_instruction(at as int));
                all_votes = false;
            } else {
                assert(self.is_vote_instruction(at as int));
            }
            at += 1;
        }
        Ok(all_votes)
    }
}

/// Every one of the transactions is well formed.
pub open spec fn all_well_formed(transactions: Seq<SolanaTransaction>) -> bool {
    forall|i: int| 0 <= i < transactions.len() ==> (#[trigger] transactions[i]).well_formed()
}

/// The number of transactions that are not votes.
pub open spec fn user_txs(transactions: Seq<SolanaTransaction>) -> nat
    decreases transactions.len(),
{
    if transactions.len() == 0 {
        0
    } else if transactions.last().spec_is_vote() {
        user_txs(transactions.drop_last())
    } else {
        user_txs(transactions.drop_last()) + 1
    }
}

/// Counts the transactions of users in a block; a block without a list of
/// transactions has none.
pub fn calc_user_txs(transactions: &Option<Vec<SolanaTransaction>>) -> (count: Result<
    u64,
    SolanaError,
>)
    ensures
        match *transactions {
            None => count == Ok::<u64, SolanaError>(0),
            Some(listed) => match count {
                Ok(count) => all_well_formed(listed@) && count == user_txs(listed@),
                Err(error) => !all_well_formed(listed@) && error
                    == SolanaError::ProgramIndexOutOfRange,
            },
        },
{
    match transactions {
        None => Ok(0),
        Some(listed) => {
            let mut num_user_txs: u64 = 0;
            let mut at: usize = 0;
            while at < listed.len()
                invariant
                    *transactions == Some(*listed),
                    at <= listed@.len(),
                    all_well_formed(listed@.take(at as int)),
                    num_user_txs == user_txs(listed@.take(at as int)),
                    num_user_txs <= at,
                decreases listed@.len() - at,
            {
                let ghost seen = listed@.take(at as int);
                let ghost more = listed@.take(at + 1);
                assert(more.drop_last() =~= seen);
                assert(more.last() == listed@[at as int]);
                match listed[at].is_vote() {
                    Err(error) => {
                        assert(!listed@[at as int].well_formed());
                        return Err(error);
                    },
                    Ok(vote) => {
                        if !vote {
                            num_user_txs += 1;
                        }
                    },
                }
                assert(all_well_formed(more)) by {
                    assert forall|i: int| 0 <= i < more.len() implies (#[trigger] more[i]).well_formed() by {
                        if i < at {
                            assert(seen[i].well_formed());
                        }
                    }
                }
                at += 1;
            }
            assert(listed@.take(listed@.len() as int) =~= listed@);
            Ok(num_user_txs)
        },
    }
}

/// The canonical block of a confirmed block at `slot_number`: its
/// predecessor is the parent slot, its time the block time, which must be
/// known, and its transactions those of users.
pub fn solana_block_to_block(block: SolanaBlock, slot_number: u64) -> (converted: Result<
    Block,
    SolanaError,
>)
    ensures
        match converted {
            Ok(canonical) => {
                &&& block.block_time matches Some(time) && time >= 0 && canonical@ == (BlockView {
                    chain: Chain::Solana,
                    block_number: slot_number,
                    prev_block_number: Some(block.parent_slot),
                    timestamp: time as u64,
                    num_txs: match block.transactions {
                        Some(listed) => user_txs(listed@) as u64,
                        None => 0,
                    },
                    hash: block.blockhash@,
                    parent_hash: block.previous_blockhash@,
                })
                &&& block.transactions matches Some(listed) ==> all_well_formed(listed@)
            },
            Err(error) => match block.block_time {
                None => error == SolanaError::BlockTimeUnavailable,
                Some(time) => if time < 0 {
                    error == SolanaError::BlockTimeOutOfRange
                } else {
                    &&& error == SolanaError::ProgramIndexOutOfRange
                    &&& block.transactions matches Some(listed) && !all_well_formed(listed@)
                },
            },
        },
{
    let timestamp = match block.block_time {
        None => return Err(SolanaError::BlockTimeUnavailable),
        Some(time) => {
            if time < 0 {
                return Err(SolanaError::BlockTimeOutOfRange);
            }
            time as u64
        },
    };
    let num_txs = match calc_user_txs(&block.transactions) {
        Ok(num_txs) => num_txs,
        Err(error) => return Err(error),
    };
    Ok(
        Block {
            chain: Chain::Solana,
            block_number: slot_number,
            prev_block_number: Some(block.parent_slot),
            timestamp,
            num_txs,
            hash: block.blockhash,
            parent_hash: block.previous_blockhash,
        },
    )
}

} // verus!
