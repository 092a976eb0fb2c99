//! The transport's side of the engine: one exchange at a time, and the
//! retry loop around it.
//!
//! The loop comes in two forms. `after_fetch` is a single decision, for
//! callers that fetch and wait on their own. `Scraper::fetch` is the whole
//! loop, for transports that can be called and waited for in place.

use crate::delay::Delay;
use crate::errors::{ScraperError, ScraperResult};
use crate::http::request::HttpRequest;
use crate::http::response::HttpResponse;
use crate::retry::conditions::Probe;
use crate::retry::controller::{budget, sum_counts, RetryConfig};
use crate::retry::types::{category_label, RetryCategory};
use crate::spider::SpiderConfig;
use crate::stats::StatsTracker;
use vstd::prelude::*;

verus! {

/// What to do after one exchange.
#[derive(Debug)]
pub enum FetchStep {
    /// Wait for `delay`, then issue `request` again.
    Retry { request: HttpRequest, category: RetryCategory, attempt: usize, delay: Delay },
    /// Give up: the error goes to the caller with the request.
    Failed(ScraperError, Box<HttpRequest>),
    /// The response, with its retry count and history filled in.
    Done(HttpResponse),
}

/// What a response looks like to the retry controller.
pub open spec fn probe_of(response: HttpResponse) -> Probe {
    Probe::Response { status: response.status, content: response.decoded_body@ }
}

/// The URL under which the retries for a response are counted: that of the
/// request it answers.
pub open spec fn counted_under(response: HttpResponse) -> Seq<char> {
    response.from_request.url@
}

/// The step that follows `response`, as decided by the controller `retry`
/// before the decision: without a grant the response is done and carries
/// the URL's total and counts; with a grant the request is issued again,
/// unless the granted attempt is the category's last, which ends the fetch
/// with `MaxRetriesReached`.
pub open spec fn follows(step: FetchStep, retry: RetryConfig, response: HttpResponse) -> bool {
    let url = counted_under(response);
    match retry.grant(url, probe_of(response)) {
        None => {
            &&& step matches FetchStep::Done(done)
            &&& done == (HttpResponse {
                retry_count: done.retry_count,
                retry_history: done.retry_history,
                ..response
            })
            &&& done.retry_count == retry.total(url)
            &&& done.retry_history@ == retry.counts(url)
            &&& done.retry_history.wf()
        },
        Some(granted) => if granted.attempt >= granted.max_retries {
            &&& step matches FetchStep::Failed(error, failed)
            &&& failed == response.from_request
            &&& error matches ScraperError::MaxRetriesReached { category, retry_count, url: at }
            &&& category@ == granted.category
            &&& retry_count == granted.attempt
            &&& at == response.from_request.url
        } else {
            &&& step matches FetchStep::Retry { request: again, category, attempt, delay }
            &&& again == *response.from_request
            &&& category@ == granted.category
            &&& attempt == granted.attempt
            &&& delay.nanos == granted.delay_nanos
        },
    }
}

/// What a decision does to the controller and the counters: a transport
/// error changes nothing; a response is decided on under its request's
/// URL, and a granted retry is counted under the category's label.
pub open spec fn decided_on(
    retry: RetryConfig,
    tally: crate::stats::Tally,
    before: RetryConfig,
    tally_before: crate::stats::Tally,
    fetched: ScraperResult<HttpResponse>,
) -> bool {
    match fetched {
        Err(_) => retry == before && tally == tally_before,
        Ok(response) => {
            &&& retry.decided(&before, counted_under(response), probe_of(response))
            &&& tally == match before.grant(counted_under(response), probe_of(response)) {
                Some(granted) => tally_before.with_retry(category_label(granted.category)),
                None => tally_before,
            }
        },
    }
}

/// Decides what follows the answer `fetched` to a request. A transport
/// error ends the fetch at once. A response goes to the retry controller,
/// which counts under the URL of the request that the response answers.
pub fn after_fetch(
    retry: &mut RetryConfig,
    stats: &mut StatsTracker,
    fetched: ScraperResult<HttpResponse>,
) -> (step: FetchStep)
    requires
        old(retry).wf(),
        old(stats).wf(),
    ensures
        final(retry).wf(),
        final(stats).wf(),
        old(retry).within_limits() ==> final(retry).within_limits(),
        decided_on(*final(retry), final(stats)@, *old(retry), old(stats)@, fetched),
        match fetched {
            Err((error, failed)) => step == FetchStep::Failed(error, failed),
            Ok(response) => follows(step, *old(retry), response),
        },
{
    match fetched {
        Err((error, failed)) => FetchStep::Failed(error, failed),
        Ok(response) => {
            proof {
                retry.lemma_grant(counted_under(response), probe_of(response));
            }
            let granted = retry.should_retry_request(
                response.from_request.url.as_str(),
                response.status,
                response.decoded_body.as_str(),
            );
            match granted {
                Some((category, delay)) => {
                    stats.record_retry(category.label());
                    let state = retry.get_retry_state(response.from_request.url.as_str());
                    let attempt: usize = match state.counts.get(&category) {
                        Some(n) => *n,
                        None => 0,
                    };
                    let max_retries: usize = match retry.categories().get(&category) {
                        Some(config) => config.max_retries,
                        None => 0,
                    };
                    let request = response.from_request;
                    if attempt >= max_retries {
                        let url = request.url.clone();
                        FetchStep::Failed(
                            ScraperError::MaxRetriesReached { category, retry_count: attempt, url },
                            request,
                        )
                    } else {
                        FetchStep::Retry { request: *request, category, attempt, delay }
                    }
                },
                None => {
                    let state = retry.get_retry_state(response.from_request.url.as_str());
                    let mut done = response;
                    done.retry_count = state.total_retries;
                    done.retry_history = state.counts;
                    FetchStep::Done(done)
                },
            }
        },
    }
}

/// A response that is done still answers the request it was fetched for.
pub proof fn lemma_round_trip(step: FetchStep, retry: RetryConfig, response: HttpResponse)
    requires
        follows(step, retry, response),
    ensures
        step matches FetchStep::Done(done) ==> done.from_request == response.from_request
            && done.url == response.url,
        step matches FetchStep::Retry { request: again, .. } ==> again == *response.from_request,
        step matches FetchStep::Failed(_, failed) ==> failed == response.from_request,
{
}

/// The retry count of a response that is done is the sum of its history.
pub proof fn lemma_count_is_sum(step: FetchStep, retry: RetryConfig, response: HttpResponse)
    requires
        retry.wf(),
        follows(step, retry, response),
    ensures
        step matches FetchStep::Done(done) ==> done.retry_count == sum_counts(
            done.retry_history@,
        ),
{
    retry.lemma_total(counted_under(response));
}

/// A transport that is called and waited for in place.
pub trait Scraper: Sized {
    /// Whether the transport can be asked.
    spec fn ready(&self) -> bool;

    /// One exchange, without retries. A response answers the request it
    /// was asked with, at the request's URL; an error comes back with the
    /// request.
    fn fetch_single(&mut self, request: HttpRequest, config: &SpiderConfig) -> (fetched:
        ScraperResult<HttpResponse>)
        requires
            old(self).ready(),
        ensures
            final(self).ready(),
            fetched matches Ok(response) ==> *response.from_request == request && response.url
                == request.url,
            fetched matches Err((_, failed)) ==> *failed == request,
    ;

    /// Waits for `delay`.
    fn pause(&mut self, delay: Delay)
        requires
            old(self).ready(),
        ensures
            final(self).ready(),
    ;

    /// Fetches `request`, and fetches it again for as long as the retry
    /// controller grants a retry for what came back, waiting for the
    /// granted delay before each new attempt. A transport error ends the
    /// fetch at once; the attempt that uses up a category ends it with
    /// `MaxRetriesReached`. The response that no category wants retried
    /// comes back with the URL's retry count and history.
    ///
    /// The loop ends: every retry takes one from the URL's budget.
    fn fetch(
        &mut self,
        request: HttpRequest,
        config: &mut SpiderConfig,
        stats: &mut StatsTracker,
    ) -> (fetched: ScraperResult<HttpResponse>)
        requires
            old(self).ready(),
            old(config).wf(),
            old(stats).wf(),
        ensures
            final(self).ready(),
            final(config).wf(),
            final(stats).wf(),
            final(config).max_depth == old(config).max_depth,
            final(config).max_concurrency == old(config).max_concurrency,
            final(config).allow_url_revisit == old(config).allow_url_revisit,
            final(config).headers == old(config).headers,
            final(config).retry_config.rules() == old(config).retry_config.rules(),
            old(config).retry_config.within_limits() ==> final(config).retry_config.within_limits(),
            forall|other: Seq<char>|
                other != request.url@ ==> #[trigger] final(config).retry_config.counts(other)
                    == old(config).retry_config.counts(other),
            budget(final(config).retry_config.rules(), final(config).retry_config.counts(request.url@))
                <= budget(
                old(config).retry_config.rules(),
                old(config).retry_config.counts(request.url@),
            ),
            match fetched {
                Ok(done) => {
                    &&& *done.from_request == request
                    &&& done.url == request.url
                    &&& done.retry_count == final(config).retry_config.total(request.url@)
                    &&& done.retry_history@ == final(config).retry_config.counts(request.url@)
                    &&& final(config).retry_config.grant(request.url@, probe_of(done)) is None
                },
                Err((_, failed)) => *failed == request,
            },
    {
        let ghost url = request.url@;
        let mut current = request;
        loop
            invariant
                self.ready(),
                config.wf(),
                stats.wf(),
                current == request,
                url == request.url@,
                config.max_depth == old(config).max_depth,
                config.max_concurrency == old(config).max_concurrency,
                config.allow_url_revisit == old(config).allow_url_revisit,
                config.headers == old(config).headers,
                config.retry_config.rules() == old(config).retry_config.rules(),
                old(config).retry_config.within_limits() ==> config.retry_config.within_limits(),
                forall|other: Seq<char>|
                    other != url ==> #[trigger] config.retry_config.counts(other) == old(
                        config,
                    ).retry_config.counts(other),
                budget(config.retry_config.rules(), config.retry_config.counts(url)) <= budget(
                    old(config).retry_config.rules(),
                    old(config).retry_config.counts(url),
                ),
            decreases budget(config.retry_config.rules(), config.retry_config.counts(url)),
        {
            let fetched = self.fetch_single(current, &*config);
            let ghost before = config.retry_config;
            proof {
                if let Ok(response) = &fetched {
                    before.lemma_grant(url, probe_of(*response));
                    if before.grant(url, probe_of(*response)) is Some {
                        before.lemma_grant_spends_budget(url, probe_of(*response));
                    }
                }
            }
            let step = after_fetch(&mut config.retry_config, stats, fetched);
            proof {
                assert forall|other: Seq<char>| other != url implies #[trigger]
                    config.retry_config.counts(other) == old(config).retry_config.counts(
                        other,
                    ) by {}
            }
            match step {
                FetchStep::Retry { request: again, delay, .. } => {
                    self.pause(delay);
                    current = again;
                },
                FetchStep::Failed(error, failed) => {
                    return Err((error, failed));
                },
                FetchStep::Done(done) => {
                    return Ok(done);
                },
            }
        }
    }
}

} // verus!
