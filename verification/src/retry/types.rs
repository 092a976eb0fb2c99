//! The vocabulary of the retry controller.

use crate::delay::Delay;
use crate::errors::StorageError;
use crate::table::Key;
use vstd::prelude::*;
use vstd::std_specs::cmp::PartialEqSpecImpl;
use vstd::string::StringExecFns;

verus! {

/// A text pattern: a regular expression, or a literal that is looked for
/// without regard to case.
#[derive(Debug)]
pub struct ContentRetryCondition {
    pub pattern: String,
    pub is_regex: bool,
}

impl Clone for ContentRetryCondition {
    fn clone(&self) -> (copy: Self)
        ensures
            copy == *self,
    {
        ContentRetryCondition { pattern: self.pattern.clone(), is_regex: self.is_regex }
    }
}

/// A condition on a fetched response: its status code or its body.
#[derive(Debug)]
pub enum RequestRetryCondition {
    StatusCode(u16),
    Content(ContentRetryCondition),
}

impl Clone for RequestRetryCondition {
    fn clone(&self) -> (copy: Self)
        ensures
            copy == *self,
    {
        match self {
            RequestRetryCondition::StatusCode(code) => RequestRetryCondition::StatusCode(*code),
            RequestRetryCondition::Content(c) => RequestRetryCondition::Content(c.clone()),
        }
    }
}

/// What a parse-level retry works on: the response already fetched, or a
/// fresh fetch of the same URL.
#[derive(Debug, Clone, Copy, PartialEq, Eq, Structural)]
pub enum ParseRetryType {
    SameContent,
    FetchNew,
}

/// A condition on a failure raised while parsing or persisting.
#[derive(Debug)]
pub enum ParseRetryCondition {
    /// The parsing error's text matches the pattern.
    Content(ContentRetryCondition, ParseRetryType),
    /// A storage error of the same kind as the given one.
    StorageError(StorageError, ParseRetryType),
    /// Any parsing error.
    ErrorWhileParsing(ParseRetryType),
}

impl Clone for ParseRetryCondition {
    fn clone(&self) -> (copy: Self)
        ensures
            copy == *self,
    {
        match self {
            ParseRetryCondition::Content(c, kind) => ParseRetryCondition::Content(
                c.clone(),
                *kind,
            ),
            ParseRetryCondition::StorageError(e, kind) => ParseRetryCondition::StorageError(
                e.clone(),
                *kind,
            ),
            ParseRetryCondition::ErrorWhileParsing(kind) => ParseRetryCondition::ErrorWhileParsing(
                *kind,
            ),
        }
    }
}

impl ParseRetryCondition {
    /// What a retry under this condition works on.
    pub fn retry_type(&self) -> (kind: ParseRetryType)
        ensures
            kind == match *self {
                ParseRetryCondition::Content(_, k) => k,
                ParseRetryCondition::StorageError(_, k) => k,
                ParseRetryCondition::ErrorWhileParsing(k) => k,
            },
    {
        match self {
            ParseRetryCondition::Content(_, k) => *k,
            ParseRetryCondition::StorageError(_, k) => *k,
            ParseRetryCondition::ErrorWhileParsing(k) => *k,
        }
    }
}

#[derive(Debug)]
pub enum RetryCondition {
    Request(RequestRetryCondition),
    Parse(ParseRetryCondition),
}

impl Clone for RetryCondition {
    fn clone(&self) -> (copy: Self)
        ensures
            copy == *self,
    {
        match self {
            RetryCondition::Request(c) => RetryCondition::Request(c.clone()),
            RetryCondition::Parse(c) => RetryCondition::Parse(c.clone()),
        }
    }
}

/// How the delay grows with the attempt index. The exponential factor is
/// given in thousandths: 2000 doubles the delay with each attempt.
#[derive(Debug, Clone, Copy, PartialEq, Eq, Structural)]
pub enum BackoffPolicy {
    Constant,
    Linear,
    Exponential { factor_permille: u32 },
}

/// A class of retryable failure.
#[derive(Debug, Hash)]
pub enum RetryCategory {
    RateLimit,
    ServerError,
    BotDetection,
    NotFound,
    Blacklisted,
    Authentication,
    Custom(String),
    StorageError,
    ParseError,
}

/// The identity of a [`RetryCategory`]: its variant, and for a custom
/// category the characters of its name.
pub enum CategoryId {
    RateLimit,
    ServerError,
    BotDetection,
    NotFound,
    Blacklisted,
    Authentication,
    Custom(Seq<char>),
    StorageError,
    ParseError,
}

impl View for RetryCategory {
    type V = CategoryId;

    open spec fn view(&self) -> CategoryId {
        match *self {
            RetryCategory::RateLimit => CategoryId::RateLimit,
            RetryCategory::ServerError => CategoryId::ServerError,
            RetryCategory::BotDetection => CategoryId::BotDetection,
            RetryCategory::NotFound => CategoryId::NotFound,
            RetryCategory::Blacklisted => CategoryId::Blacklisted,
            RetryCategory::Authentication => CategoryId::Authentication,
            RetryCategory::Custom(name) => CategoryId::Custom(name@),
            RetryCategory::StorageError => CategoryId::StorageError,
            RetryCategory::ParseError => CategoryId::ParseError,
        }
    }
}

impl Clone for RetryCategory {
    fn clone(&self) -> (copy: Self)
        ensures
            copy == *self,
    {
        match self {
            RetryCategory::RateLimit => RetryCategory::RateLimit,
            RetryCategory::ServerError => RetryCategory::ServerError,
            RetryCategory::BotDetection => RetryCategory::BotDetection,
            RetryCategory::NotFound => RetryCategory::NotFound,
            RetryCategory::Blacklisted => RetryCategory::Blacklisted,
            RetryCategory::Authentication => RetryCategory::Authentication,
            RetryCategory::Custom(name) => RetryCategory::Custom(name.clone()),
            RetryCategory::StorageError => RetryCategory::StorageError,
            RetryCategory::ParseError => RetryCategory::ParseError,
        }
    }
}

/// The name under which retries of a category are counted: the variant's
/// name, with a custom category's own name in quotes after it.
pub open spec fn category_label(id: CategoryId) -> Seq<char> {
    match id {
        CategoryId::RateLimit => "RateLimit"@,
        CategoryId::ServerError => "ServerError"@,
        CategoryId::BotDetection => "BotDetection"@,
        CategoryId::NotFound => "NotFound"@,
        CategoryId::Blacklisted => "Blacklisted"@,
        CategoryId::Authentication => "Authentication"@,
        CategoryId::Custom(name) => "Custom(\""@ + name + "\")"@,
        CategoryId::StorageError => "StorageError"@,
        CategoryId::ParseError => "ParseError"@,
    }
}

impl RetryCategory {
    /// The name under which retries of this category are counted.
    pub fn label(&self) -> (name: String)
        ensures
            name@ == category_label(self@),
    {
        match self {
            RetryCategory::RateLimit => "RateLimit".to_owned(),
            RetryCategory::ServerError => "ServerError".to_owned(),
            RetryCategory::BotDetection => "BotDetection".to_owned(),
            RetryCategory::NotFound => "NotFound".to_owned(),
            RetryCategory::Blacklisted => "Blacklisted".to_owned(),
            RetryCategory::Authentication => "Authentication".to_owned(),
            RetryCategory::Custom(custom) => {
                let mut name = "Custom(\"".to_owned();
                name.append(custom.as_str());
                name.append("\")");
                name
            },
            RetryCategory::StorageError => "StorageError".to_owned(),
            RetryCategory::ParseError => "ParseError".to_owned(),
        }
    }

    /// Whether `self` and `other` are the same category.
    pub fn same_as(&self, other: &RetryCategory) -> (same: bool)
        ensures
            same == (self@ == other@),
    {
        match self {
            RetryCategory::RateLimit => match other {
                RetryCategory::RateLimit => true,
                _ => false,
            },
            RetryCategory::ServerError => match other {
                RetryCategory::ServerError => true,
                _ => false,
            },
            RetryCategory::BotDetection => match other {
                RetryCategory::BotDetection => true,
                _ => false,
            },
            RetryCategory::NotFound => match other {
                RetryCategory::NotFound => true,
                _ => false,
            },
            RetryCategory::Blacklisted => match other {
                RetryCategory::Blacklisted => true,
                _ => false,
            },
            RetryCategory::Authentication => match other {
                RetryCategory::Authentication => true,
                _ => false,
            },
            RetryCategory::Custom(a) => match other {
                RetryCategory::Custom(b) => *a == *b,
                _ => false,
            },
            RetryCategory::StorageError => match other {
                RetryCategory::StorageError => true,
                _ => false,
            },
            RetryCategory::ParseError => match other {
                RetryCategory::ParseError => true,
                _ => false,
            },
        }
    }
}

impl PartialEq for RetryCategory {
    fn eq(&self, other: &Self) -> (equal: bool) {
        self.same_as(other)
    }
}

impl PartialEqSpecImpl for RetryCategory {
    open spec fn obeys_eq_spec() -> bool {
        true
    }

    open spec fn eq_spec(&self, other: &Self) -> bool {
        self@ == other@
    }
}

impl Eq for RetryCategory {

}

impl Key for RetryCategory {
    fn same_key(&self, other: &Self) -> (same: bool) {
        self.same_as(other)
    }

    fn copy_key(&self) -> (copy: Self) {
        self.clone()
    }
}

/// The retry rules of one category.
#[derive(Debug)]
pub struct CategoryConfig {
    pub max_retries: usize,
    pub initial_delay: Delay,
    pub max_delay: Delay,
    pub backoff_policy: BackoffPolicy,
    pub conditions: Vec<RetryCondition>,
}

impl Default for CategoryConfig {
    fn default() -> (config: Self)
        ensures
            config.max_retries == 3,
            config.initial_delay.nanos == 1_000_000_000,
            config.max_delay.nanos == 60_000_000_000,
            config.backoff_policy == (BackoffPolicy::Exponential { factor_permille: 2000 }),
            config.conditions@.len() == 0,
    {
        CategoryConfig {
            max_retries: 3,
            initial_delay: Delay::from_secs(1),
            max_delay: Delay::from_secs(60),
            backoff_policy: BackoffPolicy::Exponential { factor_permille: 2000 },
            conditions: Vec::new(),
        }
    }
}

impl Clone for CategoryConfig {
    fn clone(&self) -> (copy: Self)
        ensures
            copy.max_retries == self.max_retries,
            copy.initial_delay == self.initial_delay,
            copy.max_delay == self.max_delay,
            copy.backoff_policy == self.backoff_policy,
            copy.conditions@ == self.conditions@,
    {
        let mut conditions: Vec<RetryCondition> = Vec::new();
        let mut i: usize = 0;
        while i < self.conditions.len()
            invariant
                i <= self.conditions.len(),
                conditions@ == self.conditions@.subrange(0, i as int),
            decreases self.conditions.len() - i,
        {
            conditions.push(self.conditions[i].clone());
            i += 1;
        }
        CategoryConfig {
            max_retries: self.max_retries,
            initial_delay: self.initial_delay,
            max_delay: self.max_delay,
            backoff_policy: self.backoff_policy,
            conditions,
        }
    }
}

} // verus!
