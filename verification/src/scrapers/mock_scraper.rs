//! A transport that answers from a script.

use crate::delay::Delay;
use crate::errors::ScraperResult;
use crate::http::request::HttpRequest;
use crate::http::response::{detect_content_type, detected_type, HttpResponse};
use crate::scrapers::scraper::Scraper;
use crate::spider::SpiderConfig;
use crate::table::Table;
use vstd::prelude::*;

verus! {

/// One scripted answer: status, body, and how long the answer takes.
#[derive(Debug, Clone)]
pub struct MockResponse {
    pub status: u16,
    pub body: String,
    pub delay: Option<Delay>,
}

/// Answers every request with the next response of its script and starts
/// over when the script is through. It keeps a clock of its own, which
/// stamps the responses and moves with every wait.
#[derive(Debug, Clone)]
pub struct MockScraper {
    responses: Vec<MockResponse>,
    current_response: usize,
    now: i64,
    waited: Delay,
}

impl MockScraper {
    /// The script.
    pub closed spec fn script(&self) -> Seq<MockResponse> {
        self.responses@
    }

    /// The number of requests answered so far, wrapping around at the
    /// largest number.
    pub closed spec fn served(&self) -> usize {
        self.current_response
    }

    /// The time on the transport's clock, in milliseconds since the Unix
    /// epoch.
    pub closed spec fn clock(&self) -> i64 {
        self.now
    }

    /// The time spent waiting so far; it stops at the longest span.
    pub closed spec fn slept(&self) -> Delay {
        self.waited
    }

    /// A transport with the given script, its clock at zero.
    pub fn new(responses: Vec<MockResponse>) -> (scraper: Self)
        ensures
            scraper.script() == responses@,
            scraper.served() == 0,
            scraper.clock() == 0,
            scraper.slept().nanos == 0,
    {
        MockScraper { responses, current_response: 0, now: 0, waited: Delay::zero() }
    }

    /// The scripted response that answers the next request.
    pub open spec fn upcoming(&self) -> MockResponse
        recommends
            self.script().len() > 0,
    {
        self.script()[self.served() as int % self.script().len() as int]
    }

    /// The number of requests answered so far.
    pub fn calls(&self) -> (n: usize)
        ensures
            n == self.served(),
    {
        self.current_response
    }

    /// The time spent waiting so far.
    pub fn total_wait(&self) -> (waited: Delay)
        ensures
            waited == self.slept(),
    {
        self.waited
    }

    /// Sets the transport's clock.
    pub fn set_clock(&mut self, now: i64)
        ensures
            final(self).clock() == now,
            final(self).script() == old(self).script(),
            final(self).served() == old(self).served(),
            final(self).slept() == old(self).slept(),
    {
        self.now = now;
    }

    /// How long the next answer takes.
    pub fn next_delay(&self) -> (delay: Option<Delay>)
        requires
            self.script().len() > 0,
        ensures
            delay == self.upcoming().delay,
    {
        self.responses[self.current_response % self.responses.len()].delay
    }

    /// What answering `request` from `before` makes of the transport and
    /// gives back: the next scripted response's status and body, no headers,
    /// no retries counted, stamped with the clock, after waiting for the
    /// response's delay.
    pub open spec fn answered(
        &self,
        before: &MockScraper,
        request: HttpRequest,
        response: HttpResponse,
    ) -> bool {
        &&& self.script() == before.script()
        &&& self.served() == before.served().wrapping_add(1)
        &&& self.clock() == before.clock()
        &&& self.slept().nanos == match before.upcoming().delay {
            Some(delay) => crate::delay::clamp_u64(before.slept().nanos + delay.nanos),
            None => before.slept().nanos,
        }
        &&& response.url == request.url
        &&& response.status == before.upcoming().status
        &&& response.decoded_body@ == before.upcoming().body@
        &&& response.raw_body@ == vstd::utf8::encode_utf8(before.upcoming().body@)
        &&& response.headers@.len() == 0
        &&& response.headers.wf()
        &&& response.timestamp == before.clock()
        &&& response.retry_count == 0
        &&& response.retry_history@.len() == 0
        &&& response.retry_history.wf()
        &&& response.meta is None
        &&& response.response_type == detected_type(response.headers@, response.decoded_body@)
        &&& *response.from_request == request
    }
}

impl Scraper for MockScraper {
    /// A script with at least one response.
    open spec fn ready(&self) -> bool {
        self.script().len() > 0
    }

    fn fetch_single(&mut self, request: HttpRequest, config: &SpiderConfig) -> (fetched:
        ScraperResult<HttpResponse>)
        ensures
            fetched matches Ok(response) && final(self).answered(old(self), request, response),
    {
        let scripted = &self.responses[self.current_response % self.responses.len()];
        let decoded_body = scripted.body.clone();
        let status = scripted.status;
        if let Some(delay) = scripted.delay {
            self.waited = self.waited.saturating_add(delay);
        }
        self.current_response = self.current_response.wrapping_add(1);
        let headers: Table<String, String> = Table::new();
        let response_type = detect_content_type(&headers, decoded_body.as_str());
        let raw_body = decoded_body.as_str().as_bytes_vec();
        Ok(
            HttpResponse {
                url: request.url.clone(),
                status,
                headers,
                raw_body,
                decoded_body,
                timestamp: self.now,
                retry_count: 0,
                retry_history: Table::new(),
                meta: None,
                response_type,
                from_request: Box::new(request),
            },
        )
    }

    /// Adds `delay` to the time spent waiting.
    fn pause(&mut self, delay: Delay)
        ensures
            final(self).script() == old(self).script(),
            final(self).served() == old(self).served(),
            final(self).clock() == old(self).clock(),
            final(self).slept().nanos == crate::delay::clamp_u64(old(self).slept().nanos + delay.nanos),
    {
        self.waited = self.waited.saturating_add(delay);
    }
}

} // verus!
