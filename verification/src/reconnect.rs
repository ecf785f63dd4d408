//! Bounded reconnection.
//!
//! When the transport reports a real disconnect, the bridge retries the
//! connection a fixed number of times at a fixed interval — no backoff, no
//! jitter — and declares terminal failure once the budget is spent.  The
//! decision is captured here over the sequence of attempt outcomes; the
//! surrounding binary performs the sleeps and the reconnect calls.

use vstd::prelude::*;

verus! {

/// How many reconnection attempts are made before giving up.
pub const RECONNECT_ATTEMPT_BUDGET: u32 = 12;

/// How long to wait before each reconnection attempt, in seconds.
pub const RECONNECT_INTERVAL_SECONDS: u64 = 5;

/// How the supervision of one disconnect ended.
#[derive(Clone, Copy, PartialEq, Eq, Structural, Debug)]
pub enum ReconnectOutcome {
    /// An attempt within the budget succeeded; the connection is live again.
    Reconnected,
    /// Every attempt in the budget failed.
    Exhausted,
}

/// Whether a sequence of attempt outcomes contains a success within the
/// attempt budget.  `results[i]` is what the transport's reconnect call
/// would return on the `i`-th attempt; attempts stop at the first success,
/// so only the first success matters.
pub open spec fn spec_reconnect_success(results: Seq<bool>) -> bool {
    exists|i: int| 0 <= i < results.len() && i < RECONNECT_ATTEMPT_BUDGET && results[i]
}

/// Run the reconnection policy over the outcomes of successive attempts:
/// stop at the first success, give up once the budget is spent or no more
/// outcomes are available.
pub fn supervise(results: &Vec<bool>) -> (r: ReconnectOutcome)
    ensures
        (r is Reconnected) == spec_reconnect_success(results@),
{
    let mut attempts: usize = results.len();
    if attempts > RECONNECT_ATTEMPT_BUDGET as usize {
        attempts = RECONNECT_ATTEMPT_BUDGET as usize;
    }
    for i in 0..attempts
        invariant
            attempts <= results@.len(),
            attempts <= RECONNECT_ATTEMPT_BUDGET,
            attempts == if results@.len() < RECONNECT_ATTEMPT_BUDGET {
                results@.len() as int
            } else {
                RECONNECT_ATTEMPT_BUDGET as int
            },
            forall|j: int| 0 <= j < i ==> !results@[j],
    {
        if results[i] {
            return ReconnectOutcome::Reconnected;
        }
    }
    ReconnectOutcome::Exhausted
}

} // verus!
