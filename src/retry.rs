//! Retrying the chapter manifest, the one rate-limited call that consumes
//! disposable accounts.

use vstd::prelude::*;
use crate::client::{CopyMangaError, RiskControlError};

verus! {

/// How many times the manifest is requested before the error is surfaced.
pub const MAX_CHAPTER_ATTEMPTS: u32 = 5;

/// The length, in seconds, of the visible cool-down after the remote
/// throttles account registration.
pub const RISK_COOLDOWN_SECS: u32 = 60;

/// How a manifest request ended.
#[derive(Debug, Clone, Copy, PartialEq, Eq, Structural)]
pub enum FetchOutcome {
    Fetched,
    /// Risk control on registering the account to fetch with.
    RegisterRiskControl,
    /// Any other failure.
    Failed,
}

/// What to do after a manifest request.
#[derive(Debug, Clone, Copy, PartialEq, Eq, Structural)]
pub enum RetryAction {
    /// Use the manifest.
    Done,
    /// Count down the cool-down, one event per second, then start over.
    CountdownThenRetry,
    /// Sleep a random 1000 to 5000 ms, then try again.
    WaitThenRetry,
    /// Surface the error.
    GiveUp,
}

/// Sorts an error of the manifest request: only risk control on `register`
/// starts the cool-down.
pub fn fetch_outcome_of(e: &CopyMangaError) -> (r: FetchOutcome)
    ensures
        r != FetchOutcome::Fetched,
        r == FetchOutcome::RegisterRiskControl <==> e matches CopyMangaError::RiskControl(RiskControlError::Register(_)),
{
    match e {
        CopyMangaError::RiskControl(RiskControlError::Register(_)) => FetchOutcome::RegisterRiskControl,
        _ => FetchOutcome::Failed,
    }
}

/// The retry state of one manifest request.
#[derive(Debug, Clone, Copy, PartialEq, Eq, Structural)]
pub struct ChapterFetchRetry {
    pub failed_attempts: u32,
}

/// The action after `outcome` when `failed` attempts have failed before.
pub open spec fn retry_action(failed: nat, outcome: FetchOutcome) -> RetryAction {
    match outcome {
        FetchOutcome::Fetched => RetryAction::Done,
        FetchOutcome::RegisterRiskControl => RetryAction::CountdownThenRetry,
        FetchOutcome::Failed => if failed + 1 < MAX_CHAPTER_ATTEMPTS {
            RetryAction::WaitThenRetry
        } else {
            RetryAction::GiveUp
        },
    }
}

impl ChapterFetchRetry {
    pub open spec fn wf(&self) -> bool {
        self.failed_attempts < MAX_CHAPTER_ATTEMPTS
    }

    /// No attempt has failed yet.
    pub fn new() -> (r: ChapterFetchRetry)
        ensures
            r.wf(),
            r.failed_attempts == 0,
    {
        ChapterFetchRetry { failed_attempts: 0 }
    }

    /// Decides what follows a request that ended in `outcome`. Only ordinary
    /// failures count towards the limit; the cool-down does not.
    pub fn on_outcome(&mut self, outcome: FetchOutcome) -> (r: RetryAction)
        requires
            old(self).wf(),
        ensures
            r == retry_action(old(self).failed_attempts as nat, outcome),
            r != RetryAction::GiveUp ==> final(self).wf(),
            final(self).failed_attempts == if outcome == FetchOutcome::Failed {
                old(self).failed_attempts + 1
            } else {
                old(self).failed_attempts as int
            },
    {
        match outcome {
            FetchOutcome::Fetched => RetryAction::Done,
            FetchOutcome::RegisterRiskControl => RetryAction::CountdownThenRetry,
            FetchOutcome::Failed => {
                self.failed_attempts = self.failed_attempts + 1;
                if self.failed_attempts < MAX_CHAPTER_ATTEMPTS {
                    RetryAction::WaitThenRetry
                } else {
                    RetryAction::GiveUp
                }
            },
        }
    }
}

/// The `retry_after` values of the cool-down events, one per second:
/// 59 down to 0.
pub fn risk_countdown() -> (r: Vec<u32>)
    ensures
        r@.len() == RISK_COOLDOWN_SECS,
        forall|i: int| 0 <= i < r@.len() ==> #[trigger] r@[i] == RISK_COOLDOWN_SECS - 1 - i,
{
    let mut r: Vec<u32> = Vec::new();
    let mut i: u32 = 1;
    while i <= RISK_COOLDOWN_SECS
        invariant
            1 <= i <= RISK_COOLDOWN_SECS + 1,
            r@.len() == i - 1,
            forall|j: int| 0 <= j < r@.len() ==> #[trigger] r@[j] == RISK_COOLDOWN_SECS - 1 - j,
        decreases RISK_COOLDOWN_SECS + 1 - i,
    {
        r.push(RISK_COOLDOWN_SECS - i);
        i += 1;
    }
    r
}

/// The wait before the next attempt for a random draw `r`: 1000 ms plus
/// `r` modulo 4000.
pub fn retry_wait_ms(r: u64) -> (ms: u64)
    ensures
        ms == 1000 + r % 4000,
        1000 <= ms < 5000,
{
    1000 + r % 4000
}

/// Relies on rand's `random`: a value drawn from the thread-local generator;
/// nothing is assumed of it.
pub assume_specification<T>[ rand::random::<T> ]() -> (r: T)
    where
        rand::distributions::Standard: rand::distributions::Distribution<T>,
;

/// A random wait before the next attempt, between 1000 and 5000 ms.
pub fn random_retry_wait_ms() -> (ms: u64)
    ensures
        1000 <= ms < 5000,
{
    retry_wait_ms(rand::random::<u64>())
}

} // verus!
