//! Pacing and retry: how long to wait between requests, between passes and
//! between jobs, and when a failed call is tried again.

use vstd::prelude::*;
use rand::distributions::{Distribution, Uniform};
use crate::chain::Chain;

verus! {

/// The default rate to request blocks at, in ms.
pub const DEFAULT_BLOCK_PACE: u64 = 500;

/// The default time to wait between passes, in ms.
pub const DEFAULT_RESCAN_DELAY: u64 = 30000;

/// Every wait is lengthened by a random number of milliseconds below this.
pub const JITTER: u64 = 10;

/// How often a call is made before its failure is final.
pub const TRIES: u64 = 3;

/// The wait before the second call, in ms; the wait before the third is
/// twice as long.
pub const BASE_RETRY_DELAY: u64 = 500;

pub open spec fn spec_block_pace(chain: Chain) -> u64 {
    match chain {
        Chain::Arbitrum => 400,
        Chain::Bitcoin => 2000,
        Chain::Elrond => 1000,
        Chain::Optimism => 2000,
        Chain::Solana => 0,
        _ => DEFAULT_BLOCK_PACE,
    }
}

/// The pace at which blocks are requested from a chain, in ms: the least
/// time between two requests for a block.
#[verifier::when_used_as_spec(spec_block_pace)]
pub fn block_pace(chain: Chain) -> (pace: u64)
    ensures
        pace == spec_block_pace(chain),
        pace <= 2000,
{
    match chain {
        Chain::Arbitrum => 400,
        Chain::Bitcoin => 2000,
        Chain::Elrond => 1000,
        Chain::Optimism => 2000,
        // The node's own client library limits the rate.
        Chain::Solana => 0,
        _ => DEFAULT_BLOCK_PACE,
    }
}

pub open spec fn spec_rescan_delay(chain: Chain) -> u64 {
    match chain {
        Chain::Arbitrum => 5000,
        Chain::Bitcoin => 600000,
        Chain::Hedera => 10000,
        Chain::Kusama => 7000,
        Chain::Optimism => 15000,
        Chain::Pivx => 5000,
        Chain::Polkadot => 7000,
        Chain::Solana => 1000,
        _ => DEFAULT_RESCAN_DELAY,
    }
}

/// The wait between two passes over a chain, in ms: about half the time in
/// which the chain produces a block.
#[verifier::when_used_as_spec(spec_rescan_delay)]
pub fn rescan_delay(chain: Chain) -> (delay: u64)
    ensures
        delay == spec_rescan_delay(chain),
        delay <= 600000,
{
    match chain {
        Chain::Arbitrum => 5000,
        Chain::Bitcoin => 600000,
        Chain::Hedera => 10000,
        Chain::Kusama => 7000,
        Chain::Optimism => 15000,
        Chain::Pivx => 5000,
        Chain::Polkadot => 7000,
        Chain::Solana => 1000,
        _ => DEFAULT_RESCAN_DELAY,
    }
}

/// The wait before a failed job is run again, in ms.
pub fn job_error_delay() -> (delay: u64)
    ensures
        delay == 1000,
{
    1000
}

/// The wait between two rounds of calculation, in ms.
pub fn recalculate_delay() -> (delay: u64)
    ensures
        delay == 5000,
{
    5000
}

/// The wait between two rounds of removal, in ms: a day.
pub fn remove_data_delay() -> (delay: u64)
    ensures
        delay == 24 * 60 * 60 * 1000,
{
    60 * 60 * 24 * 1000
}

/// `rand::distributions::Uniform::from(low..high)`, sampled once with the
/// generator of the thread: a number of the half-open range, which must not
/// be empty. Which number comes is left open.
#[verifier::external_body]
fn sample_between(low: u64, high: u64) -> (sample: u64)
    requires
        low < high,
    ensures
        low <= sample < high,
{
    Uniform::from(low..high).sample(&mut rand::thread_rng())
}

/// A wait of `base_ms` lengthened by `jitter` milliseconds.
pub fn jittered(base_ms: u64, jitter: u64) -> (delay: u64)
    requires
        jitter < JITTER,
        base_ms + jitter <= u64::MAX,
    ensures
        delay == base_ms + jitter,
{
    base_ms + jitter
}

/// The time to sleep for a wait of `base_ms`: that wait and a random
/// jitter below [`JITTER`] on top, so that tasks do not fall into step.
pub fn delay(base_ms: u64) -> (delay: u64)
    requires
        base_ms + JITTER <= u64::MAX,
    ensures
        base_ms <= delay < base_ms + JITTER,
{
    jittered(base_ms, sample_between(0, JITTER))
}

/// The count of the calls made so far in one retried operation.
#[derive(Debug, Copy, Clone, PartialEq, Eq)]
pub struct Retry {
    try_num: u64,
}

/// What follows a call within a retried operation.
#[derive(Debug, Clone, PartialEq, Eq)]
pub enum Retried<T> {
    /// The operation is over, with this result.
    Done(T),
    /// The call is to be made again after a wait of `delay_ms`.
    Again { retry: Retry, delay_ms: u64 },
}

impl Retry {
    #[verifier::type_invariant]
    spec fn in_range(self) -> bool {
        1 <= self.try_num <= TRIES
    }

    /// The number of the call that was made last, counted from 1.
    pub closed spec fn attempt(self) -> u64 {
        self.try_num
    }

    /// Before the first call.
    pub fn new() -> (retry: Retry)
        ensures
            retry.attempt() == 1,
    {
        Retry { try_num: 1 }
    }

    /// What follows a call that did not give what was wanted: the end after
    /// the last of the [`TRIES`], else another call after a wait that grows
    /// with the count.
    fn failed<T>(self, result: T) -> (next: Retried<T>)
        ensures
            follows_failure(self, result, next),
    {
        proof {
            use_type_invariant(&self);
        }
        if self.try_num == TRIES {
            Retried::Done(result)
        } else {
            Retried::Again {
                retry: Retry { try_num: self.try_num + 1 },
                delay_ms: BASE_RETRY_DELAY * self.try_num,
            }
        }
    }
}

/// `next` is what follows when call number `retry.attempt()` has failed
/// with `result`: after the last of the [`TRIES`] the operation is over with
/// that result; before, the call is made again, as the next in count, after
/// [`BASE_RETRY_DELAY`] times the number of the call that failed.
pub open spec fn follows_failure<T>(retry: Retry, result: T, next: Retried<T>) -> bool {
    &&& 1 <= retry.attempt() <= TRIES
    &&& match next {
        Retried::Done(last) => retry.attempt() == TRIES && last == result,
        Retried::Again { retry: after, delay_ms } => {
            &&& retry.attempt() < TRIES
            &&& after.attempt() == retry.attempt() + 1
            &&& delay_ms == BASE_RETRY_DELAY * retry.attempt()
        },
    }
}

/// Takes the result of a call that is retried on error: a success ends
/// the operation, and so does the error of the last call; an earlier error
/// asks for another call.
pub fn retry_if_err<T, E>(retry: Retry, result: Result<T, E>) -> (next: Retried<Result<T, E>>)
    ensures
        result is Ok ==> next == Retried::Done(result),
        result is Err ==> follows_failure(retry, result, next),
{
    match result {
        Ok(value) => Retried::Done(Ok(value)),
        Err(error) => retry.failed(Err(error)),
    }
}

/// Takes the result of a call that is retried while it finds nothing: a
/// find ends the operation, and so does the last call, with nothing; an
/// earlier call that found nothing asks for another.
pub fn retry_if_none<T>(retry: Retry, result: Option<T>) -> (next: Retried<Option<T>>)
    ensures
        result is Some ==> next == Retried::Done(result),
        result is None ==> follows_failure(retry, result, next),
{
    match result {
        Some(value) => Retried::Done(Some(value)),
        None => retry.failed(None),
    }
}

} // verus!
