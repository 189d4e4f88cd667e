//! The records kept per chain, and where each lies in a file system.

use vstd::prelude::*;
use vstd::string::StringExecFns;
use crate::calculate::Calculation;
use crate::chain::Chain;
use crate::text::{decimal, to_decimal};

verus! {

/// The canonical, family-independent block record.
#[derive(Debug, Clone, PartialEq, Eq)]
pub struct Block {
    pub chain: Chain,
    pub block_number: u64,
    /// The logical predecessor; not always `block_number - 1`, since some
    /// chains number slots and slots may be empty.
    pub prev_block_number: Option<u64>,
    /// Seconds since the Unix epoch.
    pub timestamp: u64,
    pub num_txs: u64,
    pub hash: String,
    pub parent_hash: String,
}

/// A [`Block`] as a mathematical value: its hashes are sequences of
/// characters.
pub struct BlockView {
    pub chain: Chain,
    pub block_number: u64,
    pub prev_block_number: Option<u64>,
    pub timestamp: u64,
    pub num_txs: u64,
    pub hash: Seq<char>,
    pub parent_hash: Seq<char>,
}

impl View for Block {
    type V = BlockView;

    open spec fn view(&self) -> BlockView {
        BlockView {
            chain: self.chain,
            block_number: self.block_number,
            prev_block_number: self.prev_block_number,
            timestamp: self.timestamp,
            num_txs: self.num_txs,
            hash: self.hash@,
            parent_hash: self.parent_hash@,
        }
    }
}

/// The number before `block_number`, which block 0 does not have: the
/// predecessor on chains that number their blocks without gaps.
pub open spec fn number_before(block_number: u64) -> Option<u64> {
    if block_number > 0 {
        Some((block_number - 1) as u64)
    } else {
        None
    }
}

/// The predecessor of a block on a chain that numbers its blocks without
/// gaps.
pub fn prev_of(block_number: u64) -> (prev: Option<u64>)
    ensures
        prev == number_before(block_number),
{
    block_number.checked_sub(1)
}

impl Block {
    /// `pred` carries the hash that this block names as its parent.
    pub open spec fn links_to(&self, pred: &Block) -> bool {
        pred.hash@ == self.parent_hash@
    }
}

/// A point in time: whole seconds since the Unix epoch, and the
/// nanoseconds into the second that follows.
#[derive(Debug, Copy, Clone, PartialEq, Eq, Structural)]
pub struct UtcTime {
    pub secs: i64,
    pub nanos: u32,
}

impl UtcTime {
    /// The time in nanoseconds since the epoch.
    pub open spec fn spec_total_nanos(&self) -> int {
        self.secs * 1_000_000_000 + self.nanos
    }

    pub fn total_nanos(&self) -> (nanos: i128)
        ensures
            nanos == self.spec_total_nanos(),
    {
        let secs: i128 = self.secs as i128;
        let nanos: i128 = self.nanos as i128;
        secs * 1_000_000_000 + nanos
    }

    /// The start of the second `secs`.
    pub fn from_secs(secs: i64) -> (time: UtcTime)
        ensures
            time == (UtcTime { secs, nanos: 0 }),
    {
        UtcTime { secs, nanos: 0 }
    }
}

/// Nanoseconds in a day.
pub const NANOS_PER_DAY: i128 = 86_400_000_000_000;

/// The timing of the most recent calculation for a chain: when it began and
/// ended, and the times of the newest and the oldest block that it used.
#[derive(Debug, Copy, Clone, PartialEq, Eq, Structural)]
pub struct CalculationLog {
    pub calculating_start: UtcTime,
    pub calculating_end: UtcTime,
    pub newest_block_timestamp: UtcTime,
    pub oldest_block_timestamp: UtcTime,
}

impl CalculationLog {
    /// The log of a calculation that began at `calculating_start` and ended
    /// at `calculating_end`.
    pub fn new(calculating_start: UtcTime, calculating_end: UtcTime, calculation: &Calculation) -> (log:
        CalculationLog)
        ensures
            log == (CalculationLog {
                calculating_start,
                calculating_end,
                newest_block_timestamp: UtcTime {
                    secs: calculation.newest_block_timestamp,
                    nanos: 0,
                },
                oldest_block_timestamp: UtcTime {
                    secs: calculation.oldest_block_timestamp,
                    nanos: 0,
                },
            }),
    {
        CalculationLog {
            calculating_start,
            calculating_end,
            newest_block_timestamp: UtcTime::from_secs(calculation.newest_block_timestamp),
            oldest_block_timestamp: UtcTime::from_secs(calculation.oldest_block_timestamp),
        }
    }

    /// The data is stale: the calculation began more than a day after the
    /// newest block that it found.
    pub open spec fn spec_is_data_too_old(&self) -> bool {
        self.calculating_start.spec_total_nanos() - self.newest_block_timestamp.spec_total_nanos()
            > NANOS_PER_DAY
    }

    #[verifier::when_used_as_spec(spec_is_data_too_old)]
    pub fn is_data_too_old(&self) -> (too_old: bool)
        ensures
            too_old == self.spec_is_data_too_old(),
    {
        self.calculating_start.total_nanos() - self.newest_block_timestamp.total_nanos()
            > NANOS_PER_DAY
    }
}

/// The directory under which everything is stored.
pub const JSON_DB_DIR: &'static str = "db";

/// The directory of a chain's blocks, below the chain's own.
pub const DB_DIR_BLOCKS: &'static str = "blocks";

/// The directory of a chain's other records, below the chain's own.
pub const DB_DIR_META: &'static str = "meta";

pub const HIGHEST_BLOCK_NUMBER: &'static str = "highest_block_number";

pub const TRANSACTIONS_PER_SECOND: &'static str = "tps";

pub const CALCULATION_LOG: &'static str = "calculation_log";

/// The layout of the store in a file system: which file holds which record,
/// and under which name a record is written before it takes its place.
#[derive(Debug, Copy, Clone, PartialEq, Eq, Structural)]
pub struct JsonDb;

/// The path of the directory `sub_dir` of `chain`.
pub open spec fn dir_path(chain: Chain, sub_dir: Seq<char>) -> Seq<char> {
    JSON_DB_DIR@ + seq!['/'] + chain.spec_id() + seq!['/'] + sub_dir
}

/// The path of the record `file` in the directory `sub_dir` of `chain`.
pub open spec fn record_path(chain: Chain, sub_dir: Seq<char>, file: Seq<char>) -> Seq<char> {
    dir_path(chain, sub_dir) + seq!['/'] + file
}

/// The name under which the record at `file_path` is written before it is
/// moved into place: the path, a dot, `suffix` in decimal, and `.temp`.
pub open spec fn temp_path(file_path: Seq<char>, suffix: u32) -> Seq<char> {
    file_path + seq!['.'] + decimal(suffix as nat) + seq!['.', 't', 'e', 'm', 'p']
}

impl JsonDb {
    /// The directory `sub_dir` of `chain`, which is made before a record is
    /// written into it.
    pub fn dir(&self, chain: Chain, sub_dir: &str) -> (path: String)
        ensures
            path@ == dir_path(chain, sub_dir@),
    {
        proof {
            reveal_strlit("/");
        }
        let mut path = JSON_DB_DIR.to_owned();
        path.append("/");
        path.append(chain.id());
        path.append("/");
        path.append(sub_dir);
        assert(path@ =~= dir_path(chain, sub_dir@));
        path
    }

    /// The file of the record `file` in the directory `sub_dir` of `chain`.
    pub fn file(&self, chain: Chain, sub_dir: &str, file: &str) -> (path: String)
        ensures
            path@ == record_path(chain, sub_dir@, file@),
    {
        proof {
            reveal_strlit("/");
        }
        let mut path = self.dir(chain, sub_dir);
        path.append("/");
        path.append(file);
        assert(path@ =~= record_path(chain, sub_dir@, file@));
        path
    }

    /// The file of the block `block_number` of `chain`.
    pub fn block_file(&self, chain: Chain, block_number: u64) -> (path: String)
        ensures
            path@ == record_path(chain, DB_DIR_BLOCKS@, decimal(block_number as nat)),
    {
        let number = to_decimal(block_number);
        self.file(chain, DB_DIR_BLOCKS, number.as_str())
    }

    /// The file of the highest block number of `chain`.
    pub fn highest_block_number_file(&self, chain: Chain) -> (path: String)
        ensures
            path@ == record_path(chain, DB_DIR_META@, HIGHEST_BLOCK_NUMBER@),
    {
        self.file(chain, DB_DIR_META, HIGHEST_BLOCK_NUMBER)
    }

    /// The file of the throughput of `chain`.
    pub fn tps_file(&self, chain: Chain) -> (path: String)
        ensures
            path@ == record_path(chain, DB_DIR_META@, TRANSACTIONS_PER_SECOND@),
    {
        self.file(chain, DB_DIR_META, TRANSACTIONS_PER_SECOND)
    }

    /// The file of the calculation log of `chain`.
    pub fn calculation_log_file(&self, chain: Chain) -> (path: String)
        ensures
            path@ == record_path(chain, DB_DIR_META@, CALCULATION_LOG@),
    {
        self.file(chain, DB_DIR_META, CALCULATION_LOG)
    }

    /// The file that a record is written to before it is moved to
    /// `file_path`. It lies beside its target and is never the target
    /// itself, so that a reader of the target sees the old record or the
    /// new one and never a part of one.
    pub fn temp_file(&self, file_path: &str, suffix: u32) -> (path: String)
        ensures
            path@ == temp_path(file_path@, suffix),
            path@.len() > file_path@.len(),
            path@.take(file_path@.len() as int) == file_path@,
    {
        proof {
            reveal_strlit(".");
            reveal_strlit(".temp");
        }
        let mut path = file_path.to_owned();
        path.append(".");
        path.append(to_decimal(suffix as u64).as_str());
        path.append(".temp");
        assert(path@ =~= temp_path(file_path@, suffix));
        assert(path@.take(file_path@.len() as int) =~= file_path@);
        path
    }

    /// A fresh name for the file that a record is written to before it is
    /// moved to `file_path`: the temporary file of some suffix.
    pub fn new_temp_file(&self, file_path: &str) -> (path: String)
        ensures
            exists|suffix: u32| path@ == temp_path(file_path@, suffix),
            path@.len() > file_path@.len(),
            path@.take(file_path@.len() as int) == file_path@,
    {
        let suffix = random_suffix();
        self.temp_file(file_path, suffix)
    }
}

/// `rand::random::<u32>()`: a number from the generator of the thread.
/// Nothing is promised of it.
#[verifier::external_body]
fn random_suffix() -> u32 {
    rand::random::<u32>()
}

} // verus!
