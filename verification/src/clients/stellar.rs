//! Stellar: a block is a ledger, and its transactions are the successful
//! and the failed ones together.

use vstd::prelude::*;
use vstd::string::StringExecFns;
use crate::chain::Chain;
use crate::clients::cast::{reinterpret, reinterpreted};
use crate::db::{Block, BlockView, number_before, prev_of};
use crate::text::{decimal, to_decimal};

verus! {

/// What the gateway says of a ledger.
#[derive(Debug, Clone, PartialEq, Eq)]
pub struct StellarLedger {
    pub hash: String,
    pub prev_hash: String,
    /// When the ledger closed, in seconds since the epoch.
    pub closed_at: i64,
    pub successful_transaction_count: u32,
    pub failed_transaction_count: u32,
}

/// The address at which the ledger `block_number` is asked for.
pub fn ledger_url(url: &str, block_number: u64) -> (address: String)
    ensures
        address@ == url@ + "/ledgers/"@ + decimal(block_number as nat),
{
    let mut address = url.to_owned();
    address.append("/ledgers/");
    address.append(to_decimal(block_number).as_str());
    address
}

/// The head of the chain, from the latest ledger of the history.
pub fn latest_block_number(history_latest_ledger: u32) -> (number: u64)
    ensures
        number == history_latest_ledger,
{
    history_latest_ledger as u64
}

pub fn stellar_ledger_to_block(ledger: StellarLedger, block_number: u64) -> (block: Block)
    ensures
        block@ == (BlockView {
            chain: Chain::Stellar,
            block_number,
            prev_block_number: number_before(block_number),
            timestamp: reinterpreted(ledger.closed_at),
            num_txs: (ledger.successful_transaction_count + ledger.failed_transaction_count) as u64,
            hash: ledger.hash@,
            parent_hash: ledger.prev_hash@,
        }),
{
    let successful: u64 = ledger.successful_transaction_count as u64;
    let failed: u64 = ledger.failed_transaction_count as u64;
    Block {
        chain: Chain::Stellar,
        block_number,
        prev_block_number: prev_of(block_number),
        timestamp: reinterpret(ledger.closed_at),
        num_txs: successful + failed,
        hash: ledger.hash,
        parent_hash: ledger.prev_hash,
    }
}

} // verus!
