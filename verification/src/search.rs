//! The search orchestrator: attempts are processed in fixed-size batches,
//! each batch fanned out across the worker lanes, and the first match in a
//! batch wins. The parallel fan-out and the wall clock are trusted; every
//! attempt, and everything decided about a match, is verified.

use vstd::prelude::*;

use crate::clock::{clock_now, nanos_since};
use crate::config::{config_valid, mode_valid, SearchConfig};
use crate::keys::{candidate_wf, generate, Candidate};
use crate::pattern::spec_matches;
use rayon::iter::{IntoParallelIterator, ParallelIterator};

verus! {

/// How many attempts one batch holds; the batch is the unit of progress
/// reporting and bounds how much work is abandoned when a match is found.
pub const BATCH_SIZE: u64 = 1_000_000;

/// The outcome of a successful search: the matching candidate, how many
/// attempts the final batch spent, and the wall-clock time the whole search
/// took, in nanoseconds.
pub struct SearchResult {
    pub candidate: Candidate,
    pub attempts_in_final_batch: u64,
    pub elapsed_nanos: u64,
}

/// A result a search for `config` may report: a well-formed candidate for
/// the configured mode whose address satisfies the pattern, found within
/// one batch's attempt budget.
pub open spec fn result_ok(r: SearchResult, config: &SearchConfig) -> bool {
    &&& candidate_wf(r.candidate, config.generation)
    &&& spec_matches(config.pattern@, r.candidate.public_address@)
    &&& r.attempts_in_final_batch <= BATCH_SIZE
}

/// One attempt: generate a candidate and keep it only if its address
/// satisfies the pattern.
pub fn attempt(config: &SearchConfig) -> (r: Option<Candidate>)
    requires
        mode_valid(config.generation),
    ensures
        r matches Some(c) ==> candidate_wf(c, config.generation) && spec_matches(
            config.pattern@,
            c.public_address@,
        ),
{
    let c = generate(config.generation);
    if crate::pattern::matches(&config.pattern, c.public_address.as_str()) {
        Some(c)
    } else {
        None
    }
}

/// Relies on rayon's find_map_any over the batch's attempt range: every
/// attempt is one call of `attempt` above, the first reported match wins and
/// the rest of the batch is abandoned; the counter tallies how many attempts
/// started. Which attempt (if any) matches depends on the random draws, so
/// only what holds of every outcome is promised: a reported candidate is one
/// that `attempt` returned, and no more attempts started than the budget.
#[verifier::external_body]
fn find_in_batch(config: &SearchConfig, budget: u64) -> (r: (Option<Candidate>, u64))
    requires
        mode_valid(config.generation),
    ensures
        r.0 matches Some(c) ==> candidate_wf(c, config.generation) && spec_matches(
            config.pattern@,
            c.public_address@,
        ),
        r.1 <= budget,
{
    let started = std::sync::atomic::AtomicU64::new(0);
    let found = (0..budget).into_par_iter().find_map_any(|_| {
        started.fetch_add(1, std::sync::atomic::Ordering::Relaxed);
        attempt(config)
    });
    (found, started.load(std::sync::atomic::Ordering::Relaxed))
}

/// Runs the brute-force search: batches of `BATCH_SIZE` attempts are fanned
/// out across the worker lanes until a batch reports a match or `max_batches`
/// batches have been spent. A reported result always holds a well-formed
/// candidate whose address satisfies the pattern. The search space is
/// unbounded in expectation; the caller chooses how many batches to spend
/// per call and may simply call again. The lanes are the threads of the
/// ambient rayon pool, which the embedder sizes to `config.lanes`.
pub fn run_search(config: &SearchConfig, max_batches: u64) -> (r: Option<SearchResult>)
    requires
        config_valid(config),
    ensures
        r matches Some(res) ==> result_ok(res, config),
{
    let start = clock_now();
    let mut batch: u64 = 0;
    while batch < max_batches
        invariant
            config_valid(config),
        decreases max_batches - batch,
    {
        let (found, attempts) = find_in_batch(config, BATCH_SIZE);
        if let Some(c) = found {
            let elapsed = nanos_since(&start);
            return Some(
                SearchResult {
                    candidate: c,
                    attempts_in_final_batch: attempts,
                    elapsed_nanos: elapsed,
                },
            );
        }
        batch = batch + 1;
    }
    None
}

} // verus!
