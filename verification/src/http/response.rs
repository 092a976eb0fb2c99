//! The response handed to a spider.

use crate::http::request::HttpRequest;
use crate::retry::types::RetryCategory;
use crate::table::{lookup, Table};
use crate::text::{
    chars_of, contains_chars, has_prefix, is_blank, is_blank_chars, lowercase, lowercased,
    occurs_in, starts_with_chars, trim_start_chars, trimmed_start,
};
use serde_json::Value;
use vstd::prelude::*;

verus! {

/// What kind of content a response holds.
#[derive(Debug, Clone, Copy, PartialEq, Eq, Structural)]
pub enum ResponseType {
    Html,
    Json,
    Text,
    Binary,
}

/// How the body of a response was compressed.
#[derive(Debug, Clone, Copy, PartialEq, Eq, Structural)]
pub enum ContentEncoding {
    Gzip,
    Deflate,
    Brotli,
    /// No compression.
    Identity,
}

/// A response with the request it answers. The timestamp is in
/// milliseconds since the Unix epoch.
#[derive(Debug, Clone)]
pub struct HttpResponse {
    pub url: String,
    pub status: u16,
    pub headers: Table<String, String>,
    pub raw_body: Vec<u8>,
    pub decoded_body: String,
    pub timestamp: i64,
    pub retry_count: usize,
    pub retry_history: Table<RetryCategory, usize>,
    pub meta: Option<Value>,
    pub response_type: ResponseType,
    pub from_request: Box<HttpRequest>,
}

/// The type a `Content-Type` value declares: HTML, JSON or other text by
/// the media type it names, binary for anything else.
pub open spec fn declared_type(content_type: Seq<char>) -> ResponseType {
    if occurs_in("text/html"@, content_type) {
        ResponseType::Html
    } else if occurs_in("application/json"@, content_type) {
        ResponseType::Json
    } else if occurs_in("text/"@, content_type) {
        ResponseType::Text
    } else {
        ResponseType::Binary
    }
}

/// The type guessed from a body: JSON where, after leading whitespace, it
/// opens with a brace or bracket; HTML where it opens with a doctype or an
/// `html` tag; text otherwise.
pub open spec fn sniffed_type(body: Seq<char>) -> ResponseType {
    let start = trimmed_start(body);
    if has_prefix(start, "{"@) || has_prefix(start, "["@) {
        ResponseType::Json
    } else if has_prefix(start, "<!DOCTYPE"@) || has_prefix(start, "<html"@) {
        ResponseType::Html
    } else {
        ResponseType::Text
    }
}

/// The content type of a response: what its `content-type` header declares
/// or, where that header is missing or blank, what its body looks like.
pub open spec fn detected_type(headers: Seq<(Seq<char>, String)>, body: Seq<char>) -> ResponseType {
    match lookup(headers, "content-type"@) {
        Some(value) => if is_blank(value@) {
            sniffed_type(body)
        } else {
            declared_type(value@)
        },
        None => sniffed_type(body),
    }
}

/// The compression a `content-encoding` value names, whatever its case.
pub open spec fn named_encoding(value: Seq<char>) -> ContentEncoding {
    encoding_of(lowercase(value))
}

/// The compression a lower-case `content-encoding` value names.
pub open spec fn encoding_of(lower: Seq<char>) -> ContentEncoding {
    if lower == "gzip"@ {
        ContentEncoding::Gzip
    } else if lower == "deflate"@ {
        ContentEncoding::Deflate
    } else if lower == "br"@ {
        ContentEncoding::Brotli
    } else {
        ContentEncoding::Identity
    }
}

/// The compression that the headers declare; none without the header.
pub open spec fn declared_encoding(headers: Seq<(Seq<char>, String)>) -> ContentEncoding {
    match lookup(headers, "content-encoding"@) {
        Some(value) => named_encoding(value@),
        None => ContentEncoding::Identity,
    }
}

fn type_from_header(content_type: &Vec<char>) -> (kind: ResponseType)
    ensures
        kind == declared_type(content_type@),
{
    let html = chars_of("text/html");
    let json = chars_of("application/json");
    let text = chars_of("text/");
    if contains_chars(content_type, &html) {
        ResponseType::Html
    } else if contains_chars(content_type, &json) {
        ResponseType::Json
    } else if contains_chars(content_type, &text) {
        ResponseType::Text
    } else {
        ResponseType::Binary
    }
}

fn type_from_body(body: &str) -> (kind: ResponseType)
    ensures
        kind == sniffed_type(body@),
{
    let chars = chars_of(body);
    let start = trim_start_chars(&chars);
    let brace = chars_of("{");
    let bracket = chars_of("[");
    let doctype = chars_of("<!DOCTYPE");
    let html = chars_of("<html");
    if starts_with_chars(&start, &brace) || starts_with_chars(&start, &bracket) {
        ResponseType::Json
    } else if starts_with_chars(&start, &doctype) || starts_with_chars(&start, &html) {
        ResponseType::Html
    } else {
        ResponseType::Text
    }
}

/// The content type of a response with these headers and this body.
pub fn detect_content_type(headers: &Table<String, String>, body: &str) -> (kind: ResponseType)
    ensures
        kind == detected_type(headers@, body@),
{
    let name = "content-type".to_owned();
    match headers.get(&name) {
        Some(value) => {
            let chars = chars_of(value.as_str());
            if is_blank_chars(&chars) {
                type_from_body(body)
            } else {
                type_from_header(&chars)
            }
        },
        None => type_from_body(body),
    }
}

/// The compression that a lower-case `content-encoding` value names.
pub fn encoding_named(lower: &str) -> (encoding: ContentEncoding)
    ensures
        encoding == encoding_of(lower@),
{
    let lower = lower.to_owned();
    if lower == "gzip".to_owned() {
        ContentEncoding::Gzip
    } else if lower == "deflate".to_owned() {
        ContentEncoding::Deflate
    } else if lower == "br".to_owned() {
        ContentEncoding::Brotli
    } else {
        ContentEncoding::Identity
    }
}

impl ResponseType {
    /// The name of the type in lower case.
    pub fn to_string(&self) -> (name: String)
        ensures
            name@ == match *self {
                ResponseType::Html => "html"@,
                ResponseType::Json => "json"@,
                ResponseType::Text => "text"@,
                ResponseType::Binary => "binary"@,
            },
    {
        match self {
            ResponseType::Html => "html".to_owned(),
            ResponseType::Json => "json".to_owned(),
            ResponseType::Text => "text".to_owned(),
            ResponseType::Binary => "binary".to_owned(),
        }
    }
}

impl HttpResponse {
    /// The content type of a response with these headers and this body.
    pub fn detect_content_type(&self, headers: &Table<String, String>, body: &str) -> (kind:
        ResponseType)
        ensures
            kind == detected_type(headers@, body@),
    {
        detect_content_type(headers, body)
    }

    /// The compression named by the response's `content-encoding` header.
    pub fn get_content_encoding(&self) -> (encoding: ContentEncoding)
        ensures
            encoding == declared_encoding(self.headers@),
    {
        let name = "content-encoding".to_owned();
        match self.headers.get(&name) {
            Some(value) => encoding_named(lowercased(value.as_str()).as_str()),
            None => ContentEncoding::Identity,
        }
    }
}

} // verus!
