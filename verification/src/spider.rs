//! What a spider hands to the engine and gets from it.

use crate::http::headers::{pair_texts, set_headers, texts};
use crate::http::request::HttpRequest;
use crate::http::response::HttpResponse;
use crate::retry::controller::RetryConfig;
use crate::table::{merged, Table};
use serde_json::Value;
use vstd::prelude::*;

verus! {

/// Which parse branch of the spider a response is for.
#[derive(Debug, PartialEq)]
pub enum SpiderCallback {
    Bootstrap,
    ParseItem,
    ParsePagination,
    Custom(String),
}

impl Clone for SpiderCallback {
    fn clone(&self) -> (copy: Self)
        ensures
            copy == *self,
    {
        match self {
            SpiderCallback::Bootstrap => SpiderCallback::Bootstrap,
            SpiderCallback::ParseItem => SpiderCallback::ParseItem,
            SpiderCallback::ParsePagination => SpiderCallback::ParsePagination,
            SpiderCallback::Custom(name) => SpiderCallback::Custom(name.clone()),
        }
    }
}

/// Lifts start URLs to start requests: one for each, in order, at depth
/// zero, for the bootstrap callback.
pub fn start_requests_for(urls: Vec<String>) -> (requests: Vec<HttpRequest>)
    ensures
        requests@.len() == urls@.len(),
        forall|i: int|
            0 <= i < urls@.len() ==> {
                &&& (#[trigger] requests@[i]).url == urls@[i]
                &&& requests@[i].callback == SpiderCallback::Bootstrap
                &&& requests@[i].depth == 0
                &&& requests@[i].meta is None
                &&& requests@[i].method == crate::http::request::Method::Get
                &&& requests@[i].headers@.len() == 0
                &&& requests@[i].body is None
            },
{
    let mut requests: Vec<HttpRequest> = Vec::new();
    let mut i: usize = 0;
    while i < urls.len()
        invariant
            i <= urls@.len(),
            requests@.len() == i,
            forall|k: int|
                0 <= k < i ==> {
                    &&& (#[trigger] requests@[k]).url == urls@[k]
                    &&& requests@[k].callback == SpiderCallback::Bootstrap
                    &&& requests@[k].depth == 0
                    &&& requests@[k].meta is None
                    &&& requests@[k].method == crate::http::request::Method::Get
                    &&& requests@[k].headers@.len() == 0
                    &&& requests@[k].body is None
                },
        decreases urls@.len() - i,
    {
        requests.push(HttpRequest::new(urls[i].clone(), SpiderCallback::Bootstrap, 0));
        i += 1;
    }
    requests
}

/// What the spider wants done after parsing a response.
#[derive(Debug)]
pub enum ParseResult {
    /// Fetch these requests next.
    Continue(Vec<HttpRequest>),
    /// Nothing follows from this response.
    Skip,
    /// End the crawl.
    Stop,
    /// Parse the same response again after a delay.
    RetryWithSameContent(Box<HttpResponse>),
    /// Fetch the request again and parse what comes back.
    RetryWithNewContent(Box<HttpRequest>),
}

/// What the spider extracted and wants persisted.
#[derive(Debug)]
pub enum ParsedData {
    Item(Value),
    Items(Vec<Value>),
    Raw(String),
    Empty,
}

/// A response together with the parse branch it is for.
#[derive(Debug, Clone)]
pub struct SpiderResponse {
    pub response: HttpResponse,
    pub callback: SpiderCallback,
}

impl SpiderResponse {
    /// Pairs a response with the callback of the request it answers.
    pub fn for_response(response: HttpResponse) -> (paired: Self)
        ensures
            paired.response == response,
            paired.callback == response.from_request.callback,
    {
        let callback = response.from_request.callback.clone();
        SpiderResponse { response, callback }
    }
}

/// The limits and rules of one crawl.
#[derive(Debug, Clone)]
pub struct SpiderConfig {
    pub max_depth: usize,
    pub max_concurrency: usize,
    pub retry_config: RetryConfig,
    pub headers: Table<String, String>,
    pub allow_url_revisit: bool,
}

impl SpiderConfig {
    /// The tables inside are well formed.
    pub open spec fn wf(&self) -> bool {
        self.retry_config.wf() && self.headers.wf()
    }

    pub fn with_retry(self, retry_config: RetryConfig) -> (config: Self)
        ensures
            config == (SpiderConfig { retry_config, ..self }),
    {
        let mut config = self;
        config.retry_config = retry_config;
        config
    }

    /// Sets every header of `headers`, first pair first; a header of the
    /// same name is replaced.
    pub fn with_headers(self, headers: Vec<(&str, &str)>) -> (config: Self)
        requires
            self.headers.wf(),
        ensures
            config.headers.wf(),
            texts(config.headers@) == merged(texts(self.headers@), pair_texts(headers@)),
            config.max_depth == self.max_depth,
            config.max_concurrency == self.max_concurrency,
            config.retry_config == self.retry_config,
            config.allow_url_revisit == self.allow_url_revisit,
    {
        let mut config = self;
        set_headers(&mut config.headers, &headers);
        config
    }

    pub fn with_depth(self, depth: usize) -> (config: Self)
        ensures
            config == (SpiderConfig { max_depth: depth, ..self }),
    {
        let mut config = self;
        config.max_depth = depth;
        config
    }

    pub fn with_concurrency(self, concurrency: usize) -> (config: Self)
        ensures
            config == (SpiderConfig { max_concurrency: concurrency, ..self }),
    {
        let mut config = self;
        config.max_concurrency = concurrency;
        config
    }

    pub fn with_allow_url_revisit(self, allow: bool) -> (config: Self)
        ensures
            config == (SpiderConfig { allow_url_revisit: allow, ..self }),
    {
        let mut config = self;
        config.allow_url_revisit = allow;
        config
    }
}

impl Default for SpiderConfig {
    fn default() -> (config: Self)
        ensures
            config.max_depth == 2,
            config.max_concurrency == 10,
            config.retry_config.rules().len() == 0,
            config.retry_config.states().len() == 0,
            config.retry_config.within_limits(),
            config.headers@.len() == 0,
            !config.allow_url_revisit,
            config.wf(),
    {
        SpiderConfig {
            max_depth: 2,
            max_concurrency: 10,
            retry_config: RetryConfig::new(),
            headers: Table::new(),
            allow_url_revisit: false,
        }
    }
}

} // verus!
