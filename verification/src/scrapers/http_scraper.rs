//! Putting a response together from what came over the wire.

use crate::errors::{ScraperError, ScraperResult};
use crate::http::headers::pair_texts;
use crate::http::request::HttpRequest;
use crate::http::response::{detect_content_type, detected_type, HttpResponse};
use crate::table::Table;
use serde_json::Value;
use vstd::prelude::*;
use vstd::string::StringExecFns;
use vstd::utf8::{decode_utf8, valid_utf8};

verus! {

/// What can go wrong in the HTTP transport, each with its description.
#[derive(Debug)]
pub enum HttpScraperError {
    HttpError(String),
    InvalidHeaderName(String),
    InvalidHeaderValue(String),
    DecodingError(String),
}

impl HttpScraperError {
    /// The error as a line of text: what failed, then the description.
    pub fn to_string(&self) -> (line: String)
        ensures
            line@ == match *self {
                HttpScraperError::HttpError(m) => "HTTP client error: "@ + m@,
                HttpScraperError::InvalidHeaderName(m) => "Invalid header name: "@ + m@,
                HttpScraperError::InvalidHeaderValue(m) => "Invalid header value: "@ + m@,
                HttpScraperError::DecodingError(m) => "Failed to decode response body: "@ + m@,
            },
    {
        match self {
            HttpScraperError::HttpError(m) => "HTTP client error: ".to_owned().concat(m.as_str()),
            HttpScraperError::InvalidHeaderName(m) => "Invalid header name: ".to_owned().concat(
                m.as_str(),
            ),
            HttpScraperError::InvalidHeaderValue(m) => "Invalid header value: ".to_owned().concat(
                m.as_str(),
            ),
            HttpScraperError::DecodingError(m) => "Failed to decode response body: ".to_owned().concat(
                m.as_str(),
            ),
        }
    }

    /// The error as the pipeline reports it: a parsing error with the
    /// error's line of text.
    pub fn into_scraper_error(self) -> (error: ScraperError)
        ensures
            error matches ScraperError::ParsingError(line) && line@ == match self {
                HttpScraperError::HttpError(m) => "HTTP client error: "@ + m@,
                HttpScraperError::InvalidHeaderName(m) => "Invalid header name: "@ + m@,
                HttpScraperError::InvalidHeaderValue(m) => "Invalid header value: "@ + m@,
                HttpScraperError::DecodingError(m) => "Failed to decode response body: "@ + m@,
            },
    {
        ScraperError::ParsingError(self.to_string())
    }
}

/// Whether `reqwest::header::HeaderName::from_bytes` accepts the name.
pub uninterp spec fn header_name_accepted(name: Seq<char>) -> bool;

/// A character that may stand in a header value: a tab, or anything that
/// is neither a control character nor the delete character.
pub open spec fn is_value_char(c: char) -> bool {
    (c as u32 >= 32 && c as u32 != 127) || c as u32 == 9
}

/// A header value is accepted when all its characters may stand in one.
pub open spec fn header_value_accepted(value: Seq<char>) -> bool {
    forall|i: int| 0 <= i < value.len() ==> is_value_char(#[trigger] value[i])
}

/// Calls `reqwest::header::HeaderName::from_bytes`. Trusted: whether the
/// name is accepted depends on the name alone; a rejection comes with the
/// error's own description.
#[verifier::external_body]
fn header_name_error(name: &str) -> (error: Option<String>)
    ensures
        error.is_none() == header_name_accepted(name@),
{
    match reqwest::header::HeaderName::from_bytes(name.as_bytes()) {
        Ok(_) => None,
        Err(e) => Some(e.to_string()),
    }
}

/// Calls `reqwest::header::HeaderValue::from_str`. Trusted: the value is
/// accepted exactly when each of its bytes is a tab or is neither below 32
/// nor 127, which for text is to say that each character may stand in a
/// value; a rejection comes with the error's own description.
#[verifier::external_body]
fn header_value_error(value: &str) -> (error: Option<String>)
    ensures
        error.is_none() == header_value_accepted(value@),
{
    match reqwest::header::HeaderValue::from_str(value) {
        Ok(_) => None,
        Err(e) => Some(e.to_string()),
    }
}

/// What is wrong with a header.
pub enum HeaderFault {
    Name,
    Value,
}

/// What is wrong with the header `name: value`, the name looked at first.
pub open spec fn header_fault(name: Seq<char>, value: Seq<char>) -> Option<HeaderFault> {
    if !header_name_accepted(name) {
        Some(HeaderFault::Name)
    } else if !header_value_accepted(value) {
        Some(HeaderFault::Value)
    } else {
        None
    }
}

/// What is wrong with the first header that has something wrong with it.
pub open spec fn first_fault(headers: Seq<(Seq<char>, Seq<char>)>) -> Option<HeaderFault>
    decreases headers.len(),
{
    if headers.len() == 0 {
        None
    } else {
        match header_fault(headers[0].0, headers[0].1) {
            Some(fault) => Some(fault),
            None => first_fault(headers.drop_first()),
        }
    }
}

/// The verdict on one header, from what the checks of its name and of its
/// value said: the name's rejection comes before the value's.
pub fn header_verdict(name_error: Option<String>, value_error: Option<String>) -> (verdict: Result<
    (),
    HttpScraperError,
>)
    ensures
        verdict == match (name_error, value_error) {
            (Some(why), _) => Err::<(), HttpScraperError>(HttpScraperError::InvalidHeaderName(why)),
            (None, Some(why)) => Err(HttpScraperError::InvalidHeaderValue(why)),
            (None, None) => Ok(()),
        },
{
    match name_error {
        Some(why) => Err(HttpScraperError::InvalidHeaderName(why)),
        None => match value_error {
            Some(why) => Err(HttpScraperError::InvalidHeaderValue(why)),
            None => Ok(()),
        },
    }
}

/// Checks the headers that a transport is to send with every request, in
/// their order: the first header with a name or a value that cannot go on
/// the wire gives the error.
pub fn check_headers(headers: &Vec<(&str, &str)>) -> (checked: Result<(), HttpScraperError>)
    ensures
        match first_fault(pair_texts(headers@)) {
            None => checked is Ok,
            Some(HeaderFault::Name) => checked matches Err(HttpScraperError::InvalidHeaderName(_)),
            Some(HeaderFault::Value) => checked matches Err(HttpScraperError::InvalidHeaderValue(_)),
        },
{
    let ghost all = pair_texts(headers@);
    let mut i: usize = 0;
    assert(all.subrange(0, all.len() as int) =~= all);
    while i < headers.len()
        invariant
            i <= headers@.len(),
            all == pair_texts(headers@),
            first_fault(all.subrange(i as int, all.len() as int)) == first_fault(all),
        decreases headers@.len() - i,
    {
        let (name, value) = headers[i];
        let ghost rest = all.subrange(i as int, all.len() as int);
        assert(rest[0] == (name@, value@));
        assert(rest.drop_first() =~= all.subrange(i + 1, all.len() as int));
        match header_verdict(header_name_error(name), header_value_error(value)) {
            Ok(_) => {},
            Err(error) => {
                return Err(error);
            },
        }
        i += 1;
    }
    Ok(())
}

/// Calls `core::str::from_utf8`. Trusted: the bytes are accepted exactly
/// when they are valid UTF-8, and the text is then their decoding; a
/// rejection comes with the error's own description.
#[verifier::external_body]
fn text_of(bytes: &Vec<u8>) -> (text: Result<&str, String>)
    ensures
        text.is_ok() == valid_utf8(bytes@),
        text matches Ok(s) ==> s@ == decode_utf8(bytes@),
{
    match core::str::from_utf8(bytes) {
        Ok(s) => Ok(s),
        Err(e) => Err(e.to_string()),
    }
}

/// The response to `request` made of what was received and of the body's
/// decoding: with the decoded text, a response of the type detected from
/// headers and text, with no retries counted yet; with the reason why the
/// body could not be decoded, a parsing error that says so, with the
/// request.
pub fn assemble_response(
    request: HttpRequest,
    status: u16,
    headers: Table<String, String>,
    raw_body: Vec<u8>,
    decoded: Result<String, String>,
    timestamp: i64,
    meta: Option<Value>,
) -> (built: ScraperResult<HttpResponse>)
    ensures
        match decoded {
            Ok(text) => {
                &&& built matches Ok(response)
                &&& response.url == request.url
                &&& response.status == status
                &&& response.headers == headers
                &&& response.raw_body == raw_body
                &&& response.decoded_body == text
                &&& response.timestamp == timestamp
                &&& response.retry_count == 0
                &&& response.retry_history@.len() == 0
                &&& response.retry_history.wf()
                &&& response.meta == meta
                &&& response.response_type == detected_type(headers@, text@)
                &&& *response.from_request == request
            },
            Err(why) => {
                &&& built matches Err((error, failed))
                &&& *failed == request
                &&& error matches ScraperError::ParsingError(line)
                &&& line@ == "Failed to decode response body: "@ + why@
            },
        },
{
    match decoded {
        Ok(decoded_body) => {
            let response_type = detect_content_type(&headers, decoded_body.as_str());
            Ok(
                HttpResponse {
                    url: request.url.clone(),
                    status,
                    headers,
                    raw_body,
                    decoded_body,
                    timestamp,
                    retry_count: 0,
                    retry_history: Table::new(),
                    meta,
                    response_type,
                    from_request: Box::new(request),
                },
            )
        },
        Err(why) => Err(
            (HttpScraperError::DecodingError(why).into_scraper_error(), Box::new(request)),
        ),
    }
}

/// The response to `request` made of what was received: the body decoded
/// as UTF-8, the content type detected from headers and body, no retries
/// counted yet. A body that is not valid UTF-8 gives a parsing error, with
/// the request.
pub fn build_response(
    request: HttpRequest,
    status: u16,
    headers: Table<String, String>,
    raw_body: Vec<u8>,
    timestamp: i64,
    meta: Option<Value>,
) -> (built: ScraperResult<HttpResponse>)
    ensures
        built.is_ok() == valid_utf8(raw_body@),
        built matches Ok(response) ==> {
            &&& response.url == request.url
            &&& response.status == status
            &&& response.headers == headers
            &&& response.raw_body == raw_body
            &&& response.decoded_body@ == decode_utf8(raw_body@)
            &&& response.timestamp == timestamp
            &&& response.retry_count == 0
            &&& response.retry_history@.len() == 0
            &&& response.retry_history.wf()
            &&& response.meta == meta
            &&& response.response_type == detected_type(headers@, decode_utf8(raw_body@))
            &&& *response.from_request == request
        },
        built matches Err((error, failed)) ==> {
            &&& *failed == request
            &&& error matches ScraperError::ParsingError(line)
            &&& exists|why: Seq<char>| line@ == "Failed to decode response body: "@ + why
        },
{
    let decoded: Result<String, String> = match text_of(&raw_body) {
        Ok(text) => Ok(text.to_owned()),
        Err(why) => Err(why),
    };
    assemble_response(request, status, headers, raw_body, decoded, timestamp, meta)
}

} // verus!
