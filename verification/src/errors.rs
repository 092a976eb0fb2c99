//! Error values of the engine.

use crate::http::request::HttpRequest;
use crate::retry::types::{category_label, RetryCategory};
use crate::text::{decimal, decimal_string};
use vstd::prelude::*;
use vstd::string::StringExecFns;

verus! {

/// Why a sink write failed. The text is for people; two storage errors are
/// of the same kind when their variants agree.
#[derive(Debug)]
pub enum StorageError {
    ConnectionError(String),
    OperationError(String),
    SerializationError(String),
}

impl Clone for StorageError {
    fn clone(&self) -> (copy: Self)
        ensures
            copy == *self,
    {
        match self {
            StorageError::ConnectionError(m) => StorageError::ConnectionError(m.clone()),
            StorageError::OperationError(m) => StorageError::OperationError(m.clone()),
            StorageError::SerializationError(m) => StorageError::SerializationError(m.clone()),
        }
    }
}

/// The kinds of storage error.
pub enum StorageKind {
    Connection,
    Operation,
    Serialization,
}

/// A failure as the retry conditions see it: a parsing error by its text, a
/// storage error by its kind, anything else as one.
pub enum Failure {
    Parsing(Seq<char>),
    Storage(StorageKind),
    Other,
}

impl StorageError {
    /// The kind of the error, whatever its text says.
    pub open spec fn kind(self) -> StorageKind {
        match self {
            StorageError::ConnectionError(_) => StorageKind::Connection,
            StorageError::OperationError(_) => StorageKind::Operation,
            StorageError::SerializationError(_) => StorageKind::Serialization,
        }
    }

    /// The two errors have the same kind.
    pub open spec fn same_kind(self, other: StorageError) -> bool {
        self.kind() == other.kind()
    }

    pub fn is_same_kind(&self, other: &StorageError) -> (same: bool)
        ensures
            same == self.same_kind(*other),
    {
        match (self, other) {
            (StorageError::ConnectionError(_), StorageError::ConnectionError(_)) => true,
            (StorageError::OperationError(_), StorageError::OperationError(_)) => true,
            (StorageError::SerializationError(_), StorageError::SerializationError(_)) => true,
            _ => false,
        }
    }

    /// The error as a line of text: its kind, then its text.
    pub open spec fn line(self) -> Seq<char> {
        match self {
            StorageError::ConnectionError(m) => "Connection error: "@ + m@,
            StorageError::OperationError(m) => "Operation error: "@ + m@,
            StorageError::SerializationError(m) => "Serialization error: "@ + m@,
        }
    }

    /// The error as a line of text.
    pub fn to_string(&self) -> (line: String)
        ensures
            line@ == self.line(),
    {
        match self {
            StorageError::ConnectionError(m) => "Connection error: ".to_owned().concat(
                m.as_str(),
            ),
            StorageError::OperationError(m) => "Operation error: ".to_owned().concat(m.as_str()),
            StorageError::SerializationError(m) => "Serialization error: ".to_owned().concat(
                m.as_str(),
            ),
        }
    }

    /// The text carried by the error.
    pub fn message(&self) -> (text: &String)
        ensures
            *text == match *self {
                StorageError::ConnectionError(m) => m,
                StorageError::OperationError(m) => m,
                StorageError::SerializationError(m) => m,
            },
    {
        match self {
            StorageError::ConnectionError(m) => m,
            StorageError::OperationError(m) => m,
            StorageError::SerializationError(m) => m,
        }
    }
}

/// What can go wrong between issuing a request and persisting its items.
/// Failures that come from the network, URL, file and JSON layers carry
/// their description as text.
#[derive(Debug)]
pub enum ScraperError {
    HttpError(String),
    UrlError(String),
    IoError(String),
    JsonError(String),
    ParsingError(String),
    MiddlewareError(String),
    StorageError(StorageError),
    MaxRetriesReached { category: RetryCategory, retry_count: usize, url: String },
}

/// What the fetch and parse pipeline yields: a value, or the error with the
/// request that it came from.
pub type ScraperResult<T> = Result<T, (ScraperError, Box<HttpRequest>)>;

impl ScraperError {
    /// The error as a line of text: what failed, then the details.
    pub open spec fn line(self) -> Seq<char> {
        match self {
            ScraperError::HttpError(m) => "HTTP error: "@ + m@,
            ScraperError::UrlError(m) => "URL parsing error: "@ + m@,
            ScraperError::IoError(m) => "IO error: "@ + m@,
            ScraperError::JsonError(m) => "JSON error: "@ + m@,
            ScraperError::ParsingError(m) => "Extraction error: "@ + m@,
            ScraperError::MiddlewareError(m) => "Middleware error: "@ + m@,
            ScraperError::StorageError(e) => "Storage error: "@ + e.line(),
            ScraperError::MaxRetriesReached { category, retry_count, url } => {
                "Maximum retries of "@ + decimal(retry_count as nat) + " reached for category "@
                    + category_label(category@) + " on url: "@ + url@
            },
        }
    }

    /// The error as a line of text.
    pub fn to_string(&self) -> (line: String)
        ensures
            line@ == self.line(),
    {
        match self {
            ScraperError::HttpError(m) => "HTTP error: ".to_owned().concat(m.as_str()),
            ScraperError::UrlError(m) => "URL parsing error: ".to_owned().concat(m.as_str()),
            ScraperError::IoError(m) => "IO error: ".to_owned().concat(m.as_str()),
            ScraperError::JsonError(m) => "JSON error: ".to_owned().concat(m.as_str()),
            ScraperError::ParsingError(m) => "Extraction error: ".to_owned().concat(m.as_str()),
            ScraperError::MiddlewareError(m) => "Middleware error: ".to_owned().concat(m.as_str()),
            ScraperError::StorageError(e) => "Storage error: ".to_owned().concat(
                e.to_string().as_str(),
            ),
            ScraperError::MaxRetriesReached { category, retry_count, url } => {
                let mut line = "Maximum retries of ".to_owned();
                line.append(decimal_string(*retry_count).as_str());
                line.append(" reached for category ");
                line.append(category.label().as_str());
                line.append(" on url: ");
                line.append(url.as_str());
                line
            },
        }
    }

    /// The name under which a failure is filed in an error record.
    pub fn error_type(&self) -> (name: &'static str)
        ensures
            name@ == match *self {
                ScraperError::ParsingError(_) => "parsing_error"@,
                ScraperError::StorageError(_) => "storage_error"@,
                _ => "other_error"@,
            },
    {
        match self {
            ScraperError::ParsingError(_) => "parsing_error",
            ScraperError::StorageError(_) => "storage_error",
            _ => "other_error",
        }
    }

    /// The error as the retry conditions see it.
    pub open spec fn failure(self) -> Failure {
        match self {
            ScraperError::ParsingError(text) => Failure::Parsing(text@),
            ScraperError::StorageError(error) => Failure::Storage(error.kind()),
            _ => Failure::Other,
        }
    }
}

impl Clone for ScraperError {
    fn clone(&self) -> (copy: Self)
        ensures
            copy == *self,
    {
        match self {
            ScraperError::HttpError(m) => ScraperError::HttpError(m.clone()),
            ScraperError::UrlError(m) => ScraperError::UrlError(m.clone()),
            ScraperError::IoError(m) => ScraperError::IoError(m.clone()),
            ScraperError::JsonError(m) => ScraperError::JsonError(m.clone()),
            ScraperError::ParsingError(m) => ScraperError::ParsingError(m.clone()),
            ScraperError::MiddlewareError(m) => ScraperError::MiddlewareError(m.clone()),
            ScraperError::StorageError(e) => ScraperError::StorageError(e.clone()),
            ScraperError::MaxRetriesReached { category, retry_count, url } => {
                ScraperError::MaxRetriesReached {
                    category: category.clone(),
                    retry_count: *retry_count,
                    url: url.clone(),
                }
            },
        }
    }
}

} // verus!
