//! What the transport in front of the engine decides: whose bucket a
//! request counts against, which burst it asks for, and which status and
//! body answer it.

use vstd::prelude::*;
use crate::bucket::{capacity, RateLimitResult};
use crate::limiter::{key_of, plan_check, LimitError, StoreCall};

verus! {

/// Status of an admitted check and of a healthy store.
pub const STATUS_OK: u16 = 200;

/// Status of a denied check.
pub const STATUS_TOO_MANY_REQUESTS: u16 = 429;

/// Status of a check that gave no decision.
pub const STATUS_INTERNAL_ERROR: u16 = 500;

/// Status of a health probe while the store does not answer.
pub const STATUS_UNAVAILABLE: u16 = 503;

/// The body of a check request.
#[derive(Debug, Clone, Copy, PartialEq, Eq, Structural)]
pub struct CheckRequest {
    pub limit: i64,
    pub burst: Option<i64>,
}

/// The body of the answer to a check.
#[derive(Debug, Clone, Copy, PartialEq, Eq, Structural)]
pub struct CheckResponse {
    pub allowed: bool,
    pub remaining: i64,
    pub retry_after_ms: i64,
}

/// The identity a request counts against: the key the client sent, else
/// the address it came from, else the bucket shared by all who give
/// neither.
pub open spec fn client_id_of(api_key: Option<&str>, remote_addr: Option<&str>) -> Seq<char> {
    match api_key {
        Some(key) => key@,
        None => match remote_addr {
            Some(addr) => addr@,
            None => "unknown"@,
        },
    }
}

/// The burst a request asks for: its own, or its limit where it names none.
pub open spec fn burst_of(request: CheckRequest) -> int {
    match request.burst {
        Some(burst) => burst as int,
        None => request.limit as int,
    }
}

/// The status that answers each result of a check.
pub open spec fn status_of(outcome: Result<RateLimitResult, LimitError>) -> u16 {
    match outcome {
        Ok(r) => if r.allowed {
            200u16
        } else {
            429u16
        },
        Err(_) => 500u16,
    }
}

impl CheckRequest {
    /// A request for `limit` requests per minute, with or without a burst.
    pub fn new(limit: i64, burst: Option<i64>) -> (request: CheckRequest)
        ensures
            request.limit == limit,
            request.burst == burst,
    {
        CheckRequest { limit, burst }
    }

    /// The burst asked for: the limit stands in where none is named.
    pub fn effective_burst(&self) -> (burst: i64)
        ensures
            burst == burst_of(*self),
    {
        match self.burst {
            Some(burst) => burst,
            None => self.limit,
        }
    }
}

impl CheckResponse {
    /// The body that carries a decision.
    pub fn from_result(r: &RateLimitResult) -> (body: CheckResponse)
        ensures
            body.allowed == r.allowed,
            body.remaining == r.remaining,
            body.retry_after_ms == r.retry_after_ms,
    {
        CheckResponse {
            allowed: r.allowed,
            remaining: r.remaining,
            retry_after_ms: r.retry_after_ms,
        }
    }

    /// The status that goes with the body: 200 when allowed, 429 when not.
    pub fn status(&self) -> (code: u16)
        ensures
            code == if self.allowed {
                200u16
            } else {
                429u16
            },
    {
        if self.allowed {
            STATUS_OK
        } else {
            STATUS_TOO_MANY_REQUESTS
        }
    }
}

/// Picks the identity of a request. `api_key` is the client's key header
/// where it was sent and is readable text; `remote_addr` is the address
/// the request was seen to come from, where one is known.
pub fn extract_client_id(api_key: Option<&str>, remote_addr: Option<&str>) -> (id: String)
    ensures
        id@ == client_id_of(api_key, remote_addr),
{
    match api_key {
        Some(key) => String::from_str(key),
        None => match remote_addr {
            Some(addr) => String::from_str(addr),
            None => String::from_str("unknown"),
        },
    }
}

/// Lays out the store call for a request: the identity is picked, the
/// burst falls back to the limit, and a limit that is not positive is
/// refused.
pub fn plan_request(request: &CheckRequest, api_key: Option<&str>, remote_addr: Option<&str>) -> (plan:
    Result<StoreCall, LimitError>)
    ensures
        request.limit <= 0 ==> plan == Err::<StoreCall, LimitError>(LimitError::InvalidLimit),
        request.limit > 0 ==> plan is Ok && plan->Ok_0.key@ == key_of(
            client_id_of(api_key, remote_addr),
        ) && plan->Ok_0.max_tokens == capacity(burst_of(*request))
            && plan->Ok_0.requests_per_minute == request.limit && plan->Ok_0.ttl_seconds == 120,
{
    let id = extract_client_id(api_key, remote_addr);
    plan_check(id.as_str(), request.limit, request.effective_burst())
}

/// The status that answers a check: 200 when allowed, 429 when denied,
/// 500 for every failure.
pub fn check_status(outcome: &Result<RateLimitResult, LimitError>) -> (code: u16)
    ensures
        code == status_of(*outcome),
{
    match outcome {
        Ok(r) => {
            if r.allowed {
                STATUS_OK
            } else {
                STATUS_TOO_MANY_REQUESTS
            }
        },
        Err(_) => STATUS_INTERNAL_ERROR,
    }
}

/// The body of a decision, where the check gave one.
pub fn check_body(outcome: &Result<RateLimitResult, LimitError>) -> (body: Option<CheckResponse>)
    ensures
        outcome is Ok ==> body == Some(
            CheckResponse {
                allowed: outcome->Ok_0.allowed,
                remaining: outcome->Ok_0.remaining,
                retry_after_ms: outcome->Ok_0.retry_after_ms,
            },
        ),
        outcome is Err ==> body is None,
{
    match outcome {
        Ok(r) => Some(CheckResponse::from_result(r)),
        Err(_) => None,
    }
}

/// The message that answers a failed check. It is the same for every
/// error: nothing of what went wrong reaches the caller.
pub fn error_message(error: LimitError) -> (message: String)
    ensures
        message@ == "Internal server error"@,
{
    String::from_str("Internal server error")
}

/// The status of a health probe: 200 while the store answers a ping, 503
/// while it does not.
pub fn health_status(store_answers: bool) -> (code: u16)
    ensures
        code == if store_answers {
            200u16
        } else {
            503u16
        },
{
    if store_answers {
        STATUS_OK
    } else {
        STATUS_UNAVAILABLE
    }
}

/// The word a health probe reports: "ok" or "unhealthy".
pub fn health_label(store_answers: bool) -> (label: String)
    ensures
        label@ == if store_answers {
            "ok"@
        } else {
            "unhealthy"@
        },
{
    if store_answers {
        String::from_str("ok")
    } else {
        String::from_str("unhealthy")
    }
}

} // verus!
