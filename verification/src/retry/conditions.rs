//! Deciding whether a retry condition applies to a response or to a failure.

use crate::errors::{Failure, ScraperError};
use crate::retry::types::{
    CategoryConfig, ContentRetryCondition, ParseRetryCondition, RequestRetryCondition,
    RetryCondition,
};
use crate::text::{contains_ignoring_case, occurs_ignoring_case, regex_hit, regex_matches};
use vstd::prelude::*;

verus! {

/// What a retry decision looks at: a fetched response, by its status and
/// body, or a failure raised after the fetch.
pub enum Probe {
    Response { status: u16, content: Seq<char> },
    Failure(Failure),
}

/// A pattern holds for `content` when, as a regular expression, it compiles
/// and matches; as a literal, when it occurs in the content once both are
/// lower-cased.
pub open spec fn content_condition_holds(
    condition: ContentRetryCondition,
    content: Seq<char>,
) -> bool {
    if condition.is_regex {
        regex_hit(condition.pattern@, content)
    } else {
        occurs_ignoring_case(condition.pattern@, content)
    }
}

pub open spec fn request_condition_holds(
    condition: RequestRetryCondition,
    status: u16,
    content: Seq<char>,
) -> bool {
    match condition {
        RequestRetryCondition::StatusCode(code) => code == status,
        RequestRetryCondition::Content(c) => content_condition_holds(c, content),
    }
}

/// A content condition looks at a parsing error's text; a storage condition
/// holds for a storage error of the same kind; the catch-all holds for any
/// parsing error.
pub open spec fn parse_condition_holds(condition: ParseRetryCondition, failure: Failure) -> bool {
    match condition {
        ParseRetryCondition::Content(c, _) => match failure {
            Failure::Parsing(text) => content_condition_holds(c, text),
            _ => false,
        },
        ParseRetryCondition::StorageError(expected, _) => match failure {
            Failure::Storage(kind) => expected.kind() == kind,
            _ => false,
        },
        ParseRetryCondition::ErrorWhileParsing(_) => failure is Parsing,
    }
}

/// Request conditions speak of responses only, parse conditions of failures
/// only.
pub open spec fn condition_holds(condition: RetryCondition, probe: Probe) -> bool {
    match (condition, probe) {
        (RetryCondition::Request(c), Probe::Response { status, content }) => {
            request_condition_holds(c, status, content)
        },
        (RetryCondition::Parse(c), Probe::Failure(failure)) => parse_condition_holds(c, failure),
        _ => false,
    }
}

/// Some condition of the category holds for the probe.
pub open spec fn any_condition_holds(conditions: Seq<RetryCondition>, probe: Probe) -> bool {
    exists|i: int| 0 <= i < conditions.len() && condition_holds(#[trigger] conditions[i], probe)
}

pub fn check_content_condition(condition: &ContentRetryCondition, content: &str) -> (holds: bool)
    ensures
        holds == content_condition_holds(*condition, content@),
{
    if condition.is_regex {
        regex_matches(condition.pattern.as_str(), content)
    } else {
        contains_ignoring_case(content, condition.pattern.as_str())
    }
}

pub fn retry_request_condition_should_apply(
    condition: &RequestRetryCondition,
    status: u16,
    content: &str,
) -> (applies: bool)
    ensures
        applies == request_condition_holds(*condition, status, content@),
{
    match condition {
        RequestRetryCondition::StatusCode(code) => *code == status,
        RequestRetryCondition::Content(content_condition) => check_content_condition(
            content_condition,
            content,
        ),
    }
}

pub fn retry_parse_condition_should_apply(
    condition: &ParseRetryCondition,
    error: &ScraperError,
) -> (applies: bool)
    ensures
        applies == parse_condition_holds(*condition, error.failure()),
{
    match condition {
        ParseRetryCondition::Content(content_condition, _) => match error {
            ScraperError::ParsingError(msg) => check_content_condition(
                content_condition,
                msg.as_str(),
            ),
            _ => false,
        },
        ParseRetryCondition::StorageError(expected, _) => match error {
            ScraperError::StorageError(actual) => expected.is_same_kind(actual),
            _ => false,
        },
        ParseRetryCondition::ErrorWhileParsing(_) => match error {
            ScraperError::ParsingError(_) => true,
            _ => false,
        },
    }
}

/// What a retry decision is asked about, as the caller holds it.
pub enum Observed<'a> {
    Response { status: u16, content: &'a str },
    Failure(&'a ScraperError),
}

impl<'a> View for Observed<'a> {
    type V = Probe;

    open spec fn view(&self) -> Probe {
        match *self {
            Observed::Response { status, content } => Probe::Response { status, content: content@ },
            Observed::Failure(error) => Probe::Failure(error.failure()),
        }
    }
}

/// Whether `condition` holds for what was observed.
pub fn condition_applies(condition: &RetryCondition, observed: &Observed<'_>) -> (applies: bool)
    ensures
        applies == condition_holds(*condition, observed@),
{
    match condition {
        RetryCondition::Request(c) => match observed {
            Observed::Response { status, content } => retry_request_condition_should_apply(
                c,
                *status,
                content,
            ),
            Observed::Failure(_) => false,
        },
        RetryCondition::Parse(c) => match observed {
            Observed::Response { .. } => false,
            Observed::Failure(error) => retry_parse_condition_should_apply(c, error),
        },
    }
}

/// Whether any condition of `config` holds for what was observed.
pub fn category_applies(config: &CategoryConfig, observed: &Observed<'_>) -> (applies: bool)
    ensures
        applies == any_condition_holds(config.conditions@, observed@),
{
    let mut i: usize = 0;
    while i < config.conditions.len()
        invariant
            i <= config.conditions.len(),
            forall|k: int| 0 <= k < i ==> !condition_holds(#[trigger] config.conditions@[k], observed@),
        decreases config.conditions.len() - i,
    {
        if condition_applies(&config.conditions[i], observed) {
            return true;
        }
        i += 1;
    }
    false
}

} // verus!
