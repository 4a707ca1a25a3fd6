//! The engine's side of one check: what is handed to the store, and what
//! is made of the store's reply.

use vstd::prelude::*;
use crate::bucket::{
    answers, capacity, capacity_of, check_record, fits, live, record_view, refilled, step, Bucket,
    RateLimitResult,
};

verus! {

/// Seconds of idleness after which the store drops a record.
pub const IDLE_WINDOW_SECONDS: i64 = 120;

/// Why a check gave no decision.
#[derive(Debug, Clone, Copy, PartialEq, Eq, Structural)]
pub enum LimitError {
    /// The requested rate is not positive; the store was not asked.
    InvalidLimit,
    /// The store could not be reached, or did not answer in time.
    StoreUnavailable,
    /// The store answered with something that is no decision.
    StoreProtocolError,
}

/// The arguments of one invocation of the store's atomic procedure.
#[derive(Debug, Clone, PartialEq, Eq)]
pub struct StoreCall {
    pub key: String,
    pub max_tokens: i64,
    pub requests_per_minute: i64,
    /// Seconds from this call after which the idle record expires.
    pub ttl_seconds: i64,
}

/// What came back from the store, as far as the engine reads it.
#[derive(Debug, Clone, PartialEq, Eq)]
pub enum StoreOutcome {
    /// A reply made of integers.
    Reply(Vec<i64>),
    /// A reply of some other shape.
    Malformed,
    /// No reply: the connection failed or timed out.
    Unreachable,
}

/// The store key of a client's bucket.
pub open spec fn key_of(client_id: Seq<char>) -> Seq<char> {
    "ratelimit:"@ + client_id
}

/// A reply that is a decision: exactly three integers.
pub open spec fn is_decision(reply: Seq<i64>) -> bool {
    reply.len() == 3
}

/// The decision that such a reply carries: allowed where the first is one,
/// the other two as they came.
pub open spec fn decision_of(reply: Seq<i64>) -> RateLimitResult {
    RateLimitResult { allowed: reply[0] == 1, remaining: reply[1], retry_after_ms: reply[2] }
}

/// What the engine returns for each outcome of the store call.
pub open spec fn concluded(outcome: StoreOutcome) -> Result<RateLimitResult, LimitError> {
    match outcome {
        StoreOutcome::Reply(reply) => if is_decision(reply@) {
            Ok(decision_of(reply@))
        } else {
            Err(LimitError::StoreProtocolError)
        },
        StoreOutcome::Malformed => Err(LimitError::StoreProtocolError),
        StoreOutcome::Unreachable => Err(LimitError::StoreUnavailable),
    }
}

/// The store key of a client's bucket: the identity behind a fixed prefix.
pub fn bucket_key(client_id: &str) -> (key: String)
    ensures
        key@ == key_of(client_id@),
{
    let mut key = String::from_str("ratelimit:");
    key.append(client_id);
    key
}

/// Validates a check and lays out the store call for it. A rate that is
/// not positive is refused here, before the store is asked; a burst below
/// one is raised to one.
pub fn plan_check(client_id: &str, requests_per_minute: i64, burst: i64) -> (plan: Result<
    StoreCall,
    LimitError,
>)
    ensures
        requests_per_minute <= 0 ==> plan == Err::<StoreCall, LimitError>(LimitError::InvalidLimit),
        requests_per_minute > 0 ==> plan is Ok && plan->Ok_0.key@ == key_of(client_id@)
            && plan->Ok_0.max_tokens == capacity(burst as int) && plan->Ok_0.requests_per_minute
            == requests_per_minute && plan->Ok_0.ttl_seconds == 120,
{
    if requests_per_minute <= 0 {
        return Err(LimitError::InvalidLimit);
    }
    Ok(
        StoreCall {
            key: bucket_key(client_id),
            max_tokens: capacity_of(burst),
            requests_per_minute,
            ttl_seconds: IDLE_WINDOW_SECONDS,
        },
    )
}

/// Reads a reply of integers as a decision. Any other number of integers
/// than three is a protocol error.
pub fn decode_reply(reply: &Vec<i64>) -> (out: Result<RateLimitResult, LimitError>)
    ensures
        is_decision(reply@) ==> out == Ok::<RateLimitResult, LimitError>(decision_of(reply@)),
        !is_decision(reply@) ==> out == Err::<RateLimitResult, LimitError>(
            LimitError::StoreProtocolError,
        ),
{
    if reply.len() != 3 {
        return Err(LimitError::StoreProtocolError);
    }
    Ok(RateLimitResult { allowed: reply[0] == 1, remaining: reply[1], retry_after_ms: reply[2] })
}

/// Turns the outcome of the store call into the result of the check:
/// a decision, or the error that says what went wrong. Nothing is retried.
pub fn conclude(outcome: &StoreOutcome) -> (out: Result<RateLimitResult, LimitError>)
    ensures
        out == concluded(*outcome),
{
    match outcome {
        StoreOutcome::Reply(reply) => decode_reply(reply),
        StoreOutcome::Malformed => Err(LimitError::StoreProtocolError),
        StoreOutcome::Unreachable => Err(LimitError::StoreUnavailable),
    }
}

/// The result of a liveness probe: a store that did not answer is
/// unavailable.
pub fn conclude_ping(answered: bool) -> (out: Result<(), LimitError>)
    ensures
        answered ==> out == Ok::<(), LimitError>(()),
        !answered ==> out == Err::<(), LimitError>(LimitError::StoreUnavailable),
{
    if answered {
        Ok(())
    } else {
        Err(LimitError::StoreUnavailable)
    }
}

/// One whole check on a record in hand, for a store that offers
/// compare-and-swap in place of a scripted procedure: validation, then the
/// refill-and-consume step. Gives the record to write back and the
/// decision.
pub fn evaluate(record: Option<Bucket>, requests_per_minute: i64, burst: i64, now_ms: i64) -> (out:
    Result<(Bucket, RateLimitResult), LimitError>)
    ensures
        requests_per_minute <= 0 ==> out == Err::<(Bucket, RateLimitResult), LimitError>(
            LimitError::InvalidLimit,
        ),
        requests_per_minute > 0 ==> out is Ok && out->Ok_0.0@ == step(
            record_view(record),
            burst as int,
            requests_per_minute as int,
            now_ms as int,
        ) && answers(
            out->Ok_0.1,
            refilled(
                live(record_view(record), burst as int, now_ms as int),
                burst as int,
                requests_per_minute as int,
                now_ms as int,
            ),
            requests_per_minute as int,
        ) && fits(out->Ok_0.0@, burst as int),
{
    if requests_per_minute <= 0 {
        return Err(LimitError::InvalidLimit);
    }
    Ok(check_record(record, burst, requests_per_minute, now_ms))
}

} // verus!
