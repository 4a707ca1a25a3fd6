use rate_limiter::bucket::RateLimitResult;
use rate_limiter::limiter::{LimitError, StoreCall};
use rate_limiter::transport::{
    check_body, check_status, error_message, extract_client_id, health_label, health_status,
    plan_request, CheckRequest, CheckResponse,
};

#[test]
fn identity_prefers_key_then_address_then_unknown() {
    assert_eq!(extract_client_id(Some("k-1"), Some("10.0.0.7")), "k-1");
    assert_eq!(extract_client_id(Some("k-1"), None), "k-1");
    assert_eq!(extract_client_id(None, Some("10.0.0.7")), "10.0.0.7");
    assert_eq!(extract_client_id(None, None), "unknown");
}

#[test]
fn burst_falls_back_to_limit() {
    assert_eq!(CheckRequest::new(60, None).effective_burst(), 60);
    assert_eq!(CheckRequest::new(60, Some(5)).effective_burst(), 5);
    assert_eq!(CheckRequest::new(60, Some(0)).effective_burst(), 0);
}

#[test]
fn request_becomes_store_call() {
    assert_eq!(
        plan_request(&CheckRequest::new(60, None), Some("k-1"), Some("10.0.0.7")),
        Ok(StoreCall { key: "ratelimit:k-1".to_string(), max_tokens: 60, requests_per_minute: 60, ttl_seconds: 120 })
    );
    assert_eq!(
        plan_request(&CheckRequest::new(60, Some(0)), None, None),
        Ok(StoreCall {
            key: "ratelimit:unknown".to_string(),
            max_tokens: 1,
            requests_per_minute: 60,
            ttl_seconds: 120
        })
    );
    assert_eq!(
        plan_request(&CheckRequest::new(0, Some(5)), None, Some("10.0.0.7")),
        Err(LimitError::InvalidLimit)
    );
}

#[test]
fn status_follows_the_result() {
    let allowed = RateLimitResult { allowed: true, remaining: 2, retry_after_ms: 0 };
    let denied = RateLimitResult { allowed: false, remaining: 0, retry_after_ms: 1000 };
    assert_eq!(check_status(&Ok(allowed)), 200);
    assert_eq!(check_status(&Ok(denied)), 429);
    assert_eq!(check_status(&Err(LimitError::InvalidLimit)), 500);
    assert_eq!(check_status(&Err(LimitError::StoreUnavailable)), 500);
    assert_eq!(check_status(&Err(LimitError::StoreProtocolError)), 500);
    assert_eq!(CheckResponse::from_result(&allowed).status(), 200);
    assert_eq!(CheckResponse::from_result(&denied).status(), 429);
}

#[test]
fn body_carries_the_decision() {
    let denied = RateLimitResult { allowed: false, remaining: 0, retry_after_ms: 1000 };
    assert_eq!(
        check_body(&Ok(denied)),
        Some(CheckResponse { allowed: false, remaining: 0, retry_after_ms: 1000 })
    );
    assert_eq!(check_body(&Err(LimitError::StoreUnavailable)), None);
}

#[test]
fn errors_have_messages() {
    assert_eq!(error_message(LimitError::StoreUnavailable), "Internal server error");
    assert_eq!(error_message(LimitError::StoreProtocolError), "Internal server error");
    assert_eq!(error_message(LimitError::InvalidLimit), "Internal server error");
}

#[test]
fn health_follows_the_ping() {
    assert_eq!(health_status(true), 200);
    assert_eq!(health_status(false), 503);
    assert_eq!(health_label(true), "ok");
    assert_eq!(health_label(false), "unhealthy");
}

#[test]
fn every_failure_gets_the_same_answer() {
    let errors: Vec<LimitError> = vec![
        LimitError::InvalidLimit,
        LimitError::StoreUnavailable,
        LimitError::StoreProtocolError,
    ];
    let mut at: usize = 0;
    while at < errors.len() {
        assert_eq!(check_status(&Err(errors[at])), 500);
        assert_eq!(check_body(&Err(errors[at])), None);
        assert_eq!(error_message(errors[at]), "Internal server error");
        at += 1;
    }
}
