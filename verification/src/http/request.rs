//! The request a spider asks for.

use crate::spider::SpiderCallback;
use crate::table::{merged, upsert, Table};
use serde_json::Value;
use vstd::prelude::*;

verus! {

/// A JSON value of `serde_json`. The engine carries such values for the
/// spider and never looks inside.
#[verifier::external_type_specification]
#[verifier::external_body]
pub struct ExValue(serde_json::Value);

/// The request method.
#[derive(Debug, Clone, Copy, PartialEq, Eq, Structural, Hash)]
pub enum Method {
    Get,
    Post,
    Put,
    Delete,
    Head,
    Options,
    Connect,
    Patch,
    Trace,
}

/// A request: where to fetch, how, and what the spider wants to remember
/// about it. The URL is held in its text form.
#[derive(Debug, Clone)]
pub struct HttpRequest {
    pub url: String,
    pub callback: SpiderCallback,
    pub meta: Option<Value>,
    pub depth: usize,
    pub method: Method,
    pub headers: Table<String, String>,
    pub body: Option<String>,
}

impl HttpRequest {
    /// A `GET` request without headers, body or metadata.
    pub fn new(url: String, callback: SpiderCallback, depth: usize) -> (request: Self)
        ensures
            request.url == url,
            request.callback == callback,
            request.meta is None,
            request.depth == depth,
            request.method == Method::Get,
            request.headers@.len() == 0,
            request.headers.wf(),
            request.body is None,
    {
        HttpRequest {
            url,
            callback,
            meta: None,
            depth,
            method: Method::Get,
            headers: Table::new(),
            body: None,
        }
    }

    pub fn with_method(self, method: Method) -> (request: Self)
        ensures
            request == (HttpRequest { method, ..self }),
    {
        let mut request = self;
        request.method = method;
        request
    }

    /// Sets one header; a header of the same name is replaced.
    pub fn with_header(self, key: String, value: String) -> (request: Self)
        requires
            self.headers.wf(),
        ensures
            request.headers@ == upsert(self.headers@, key@, value),
            request.headers.wf(),
            request.url == self.url,
            request.callback == self.callback,
            request.meta == self.meta,
            request.depth == self.depth,
            request.method == self.method,
            request.body == self.body,
    {
        let mut request = self;
        request.headers.insert(key, value);
        request
    }

    /// Sets every header of `headers`, replacing headers of the same names.
    pub fn with_headers(self, headers: Table<String, String>) -> (request: Self)
        requires
            self.headers.wf(),
        ensures
            request.headers@ == merged(self.headers@, headers@),
            request.headers.wf(),
            request.url == self.url,
            request.callback == self.callback,
            request.meta == self.meta,
            request.depth == self.depth,
            request.method == self.method,
            request.body == self.body,
    {
        let mut request = self;
        request.headers.extend(headers);
        request
    }

    pub fn with_body(self, body: String) -> (request: Self)
        ensures
            request == (HttpRequest { body: Some(body), ..self }),
    {
        let mut request = self;
        request.body = Some(body);
        request
    }

    pub fn with_meta(self, meta: Value) -> (request: Self)
        ensures
            request == (HttpRequest { meta: Some(meta), ..self }),
    {
        let mut request = self;
        request.meta = Some(meta);
        request
    }
}

} // verus!
