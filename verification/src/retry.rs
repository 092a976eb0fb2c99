//! The retry controller: categories of retryable failures, the conditions
//! that select them, backoff, and the per-URL attempt counters.

pub mod backoff;
pub mod conditions;
pub mod controller;
pub mod types;

pub use controller::{RetryConfig, RetryState};
pub use types::{
    BackoffPolicy, CategoryConfig, CategoryId, ContentRetryCondition, ParseRetryCondition,
    ParseRetryType, RequestRetryCondition, RetryCategory, RetryCondition,
};
pub use backoff::calculate_delay;
pub use conditions::{
    check_content_condition, retry_parse_condition_should_apply,
    retry_request_condition_should_apply,
};
