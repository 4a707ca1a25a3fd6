use rate_limiter::bucket::{Bucket, RateLimitResult};
use rate_limiter::limiter::{
    bucket_key, conclude, conclude_ping, decode_reply, evaluate, plan_check, LimitError,
    StoreCall, StoreOutcome, IDLE_WINDOW_SECONDS,
};

#[test]
fn key_is_prefixed_identity() {
    assert_eq!(bucket_key("alice"), "ratelimit:alice");
    assert_eq!(bucket_key(""), "ratelimit:");
    assert_eq!(bucket_key("10.0.0.7"), "ratelimit:10.0.0.7");
}

#[test]
fn plan_lays_out_the_store_call() {
    assert_eq!(
        plan_check("alice", 60, 10),
        Ok(StoreCall { key: "ratelimit:alice".to_string(), max_tokens: 10, requests_per_minute: 60, ttl_seconds: 120 })
    );
    assert_eq!(
        plan_check("bob", 5, 0),
        Ok(StoreCall { key: "ratelimit:bob".to_string(), max_tokens: 1, requests_per_minute: 5, ttl_seconds: 120 })
    );
    assert_eq!(
        plan_check("bob", 5, -3),
        Ok(StoreCall { key: "ratelimit:bob".to_string(), max_tokens: 1, requests_per_minute: 5, ttl_seconds: 120 })
    );
}

#[test]
fn rate_that_is_not_positive_is_refused() {
    assert_eq!(plan_check("alice", 0, 10), Err(LimitError::InvalidLimit));
    assert_eq!(plan_check("alice", -1, 10), Err(LimitError::InvalidLimit));
    assert_eq!(evaluate(None, 0, 10, 0), Err(LimitError::InvalidLimit));
    assert_eq!(evaluate(Some(Bucket::new(5, 5)), i64::MIN, 10, 0), Err(LimitError::InvalidLimit));
}

#[test]
fn evaluate_runs_one_check() {
    assert_eq!(
        evaluate(None, 60, 10, 0),
        Ok((
            Bucket::new(540_000, 0),
            RateLimitResult { allowed: true, remaining: 9, retry_after_ms: 0 }
        ))
    );
    assert_eq!(
        evaluate(Some(Bucket::new(0, 0)), 60, 10, 250),
        Ok((
            Bucket::new(15_000, 250),
            RateLimitResult { allowed: false, remaining: 0, retry_after_ms: 750 }
        ))
    );
}

#[test]
fn reply_of_three_integers_is_a_decision() {
    assert_eq!(
        decode_reply(&vec![1, 9, 0]),
        Ok(RateLimitResult { allowed: true, remaining: 9, retry_after_ms: 0 })
    );
    assert_eq!(
        decode_reply(&vec![0, 0, 1000]),
        Ok(RateLimitResult { allowed: false, remaining: 0, retry_after_ms: 1000 })
    );
}

#[test]
fn other_replies_are_protocol_errors() {
    assert_eq!(decode_reply(&vec![]), Err(LimitError::StoreProtocolError));
    assert_eq!(decode_reply(&vec![1, 9]), Err(LimitError::StoreProtocolError));
    assert_eq!(decode_reply(&vec![1, 9, 0, 0]), Err(LimitError::StoreProtocolError));
    assert_eq!(decode_reply(&vec![1]), Err(LimitError::StoreProtocolError));
}

#[test]
fn three_integers_are_read_whatever_they_hold() {
    assert_eq!(
        decode_reply(&vec![2, 9, 0]),
        Ok(RateLimitResult { allowed: false, remaining: 9, retry_after_ms: 0 })
    );
    assert_eq!(
        decode_reply(&vec![-1, 9, 0]),
        Ok(RateLimitResult { allowed: false, remaining: 9, retry_after_ms: 0 })
    );
    assert_eq!(
        decode_reply(&vec![1, -1, 0]),
        Ok(RateLimitResult { allowed: true, remaining: -1, retry_after_ms: 0 })
    );
    assert_eq!(
        decode_reply(&vec![0, 0, -5]),
        Ok(RateLimitResult { allowed: false, remaining: 0, retry_after_ms: -5 })
    );
    assert_eq!(
        conclude(&StoreOutcome::Reply(vec![2, 0, 0])),
        Ok(RateLimitResult { allowed: false, remaining: 0, retry_after_ms: 0 })
    );
}

#[test]
fn each_outcome_has_its_result() {
    assert_eq!(
        conclude(&StoreOutcome::Reply(vec![1, 4, 0])),
        Ok(RateLimitResult { allowed: true, remaining: 4, retry_after_ms: 0 })
    );
    assert_eq!(conclude(&StoreOutcome::Reply(vec![1])), Err(LimitError::StoreProtocolError));
    assert_eq!(conclude(&StoreOutcome::Malformed), Err(LimitError::StoreProtocolError));
    assert_eq!(conclude(&StoreOutcome::Unreachable), Err(LimitError::StoreUnavailable));
}

#[test]
fn idle_window_is_two_minutes() {
    assert_eq!(IDLE_WINDOW_SECONDS, 120);
    assert_eq!(rate_limiter::bucket::IDLE_WINDOW_MS, 120_000);
}

#[test]
fn silent_store_is_unavailable() {
    assert_eq!(conclude_ping(true), Ok(()));
    assert_eq!(conclude_ping(false), Err(LimitError::StoreUnavailable));
}
