//! The bounded-retry combinator.
//!
//! A failed bundle attempt is typically transient (fee competition, relay
//! routing), and every attempt rebuilds its state from scratch — fresh
//! scratch-account identities, a fresh freshness anchor, a fresh incentive
//! quote — so redoing the whole attempt is safe. [`run_with_retry`] invokes
//! an operation up to a bounded number of times, short-circuits on the
//! first success, and surfaces the last failure when every attempt failed.
//! This is the only place automatic retry occurs in the workflow.

use vstd::prelude::*;

verus! {

/// Holds when attempt `i` of `operation` can fail: some error is among its
/// permitted outcomes for that attempt.
pub open spec fn attempt_can_fail<V, E, F: Fn(u64) -> Result<V, E>>(operation: F, i: u64) -> bool {
    exists|ei: E| call_ensures(operation, (i,), Result::Err(ei))
}

/// Invokes `operation` with the attempt numbers `1`, `2`, ... up to
/// `max_attempts`, returning the first success. If every attempt fails,
/// the last failure is returned; intermediate failures are superseded by
/// the next attempt's outcome, never surfaced.
pub fn run_with_retry<V, E, F: Fn(u64) -> Result<V, E>>(max_attempts: u64, operation: F) -> (r:
    Result<V, E>)
    requires
        1 <= max_attempts,
        forall|i: u64| 1 <= i <= max_attempts ==> call_requires(operation, (i,)),
    ensures
        r matches Result::Ok(v) ==> exists|i: u64|
            1 <= i <= max_attempts && call_ensures(operation, (i,), Result::Ok(v)),
        r matches Result::Err(e) ==> call_ensures(operation, (max_attempts,), Result::Err(e))
            && forall|i: u64| 1 <= i <= max_attempts ==> #[trigger] attempt_can_fail(operation, i),
{
    let mut attempt: u64 = 1;
    loop
        invariant
            1 <= attempt <= max_attempts,
            forall|i: u64| 1 <= i <= max_attempts ==> call_requires(operation, (i,)),
            forall|i: u64| 1 <= i < attempt ==> #[trigger] attempt_can_fail(operation, i),
        decreases max_attempts - attempt,
    {
        match operation(attempt) {
            Result::Ok(v) => {
                return Result::Ok(v);
            },
            Result::Err(e) => {
                if attempt == max_attempts {
                    return Result::Err(e);
                }
            },
        }
        attempt = attempt + 1;
    }
}

/// Idempotence-of-retry law: retrying an operation that cannot fail at
/// attempt `n` (for some `n` within the bound) and whose only possible
/// success value is `v` must return `Ok(v)` — the very value a direct,
/// first-attempt-successful call yields. Earlier failed attempts leave no
/// trace in the result.
pub proof fn lemma_retry_matches_direct_success<V, E, F: Fn(u64) -> Result<V, E>>(
    operation: F,
    max_attempts: u64,
    n: u64,
    v: V,
    r: Result<V, E>,
)
    requires
        1 <= n <= max_attempts,
        // the operation cannot fail at attempt n
        forall|e: E| !call_ensures(operation, (n,), Result::Err(e)),
        // v is the only value the operation can succeed with, at any attempt
        forall|i: u64, w: V| call_ensures(operation, (i,), Result::Ok(w)) ==> w == v,
        // r is a possible result of run_with_retry(max_attempts, operation),
        // as described by its contract
        r matches Result::Ok(w) ==> exists|i: u64|
            1 <= i <= max_attempts && call_ensures(operation, (i,), Result::Ok(w)),
        r matches Result::Err(e) ==> call_ensures(operation, (max_attempts,), Result::Err(e))
            && forall|i: u64| 1 <= i <= max_attempts ==> #[trigger] attempt_can_fail(operation, i),
    ensures
        r matches Result::Ok(w) && w == v,
{
    match r {
        Result::Ok(w) => {
            let i = choose|i: u64|
                1 <= i <= max_attempts && call_ensures(operation, (i,), Result::Ok(w));
            assert(w == v);
        },
        Result::Err(e) => {
            assert(attempt_can_fail(operation, n));
            let en = choose|en: E| call_ensures(operation, (n,), Result::Err(en));
            assert(false);
        },
    }
}

} // verus!
