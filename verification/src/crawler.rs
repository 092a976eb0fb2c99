//! The crawl scheduler as a state machine. It owns the visited set, the
//! queue of admitted work and the count of tasks in flight. The caller runs
//! the tasks: it takes work with `next_task`, fetches and parses, and hands
//! every result to `complete`.

use crate::delay::Delay;
use crate::errors::{Failure, ScraperError, ScraperResult};
use crate::http::request::HttpRequest;
use crate::http::response::HttpResponse;
use crate::retry::conditions::Probe;
use crate::retry::controller::RetryConfig;
use crate::retry::types::{category_label, RetryCategory};
use crate::scrapers::scraper::{decided_on, follows, FetchStep};
use crate::spider::{ParseResult, SpiderConfig};
use crate::stats::{ErrorType, StatsTracker, Tally};
use std::collections::VecDeque;
use vstd::hash_set::StringHashSet;
use vstd::prelude::*;

verus! {

/// What a task does: fetch a request and parse the response, or parse a
/// response that is already there.
#[derive(Debug)]
pub enum Work {
    Fetch(HttpRequest),
    Parse(HttpResponse),
}

/// How a task ended.
#[derive(Debug)]
pub enum TaskOutcome {
    /// The spider parsed the response and its items were persisted.
    Parsed(ParseResult),
    /// Fetching, parsing or persisting failed.
    Failed(ScraperError, Box<HttpRequest>),
    /// The task ended without producing an outcome.
    Lost,
}

impl TaskOutcome {
    /// The failure of which an error record is written before the outcome
    /// is handed in: a parsing or storage failure, or the spider's wish for
    /// a new fetch.
    pub open spec fn recorded(self) -> Option<(Failure, HttpRequest)> {
        match self {
            TaskOutcome::Parsed(ParseResult::RetryWithNewContent(request)) => Some(
                (Failure::Parsing(new_content_text()), *request),
            ),
            TaskOutcome::Failed(error, request) => match error {
                ScraperError::ParsingError(_) => Some((error.failure(), *request)),
                ScraperError::StorageError(_) => Some((error.failure(), *request)),
                _ => None,
            },
            _ => None,
        }
    }

    /// The failure to write an error record of, with its request, where the
    /// outcome calls for one.
    pub fn error_to_record(&self) -> (found: Option<(ScraperError, &HttpRequest)>)
        ensures
            match self.recorded() {
                Some((failure, request)) => found matches Some((error, about)) && error.failure()
                    == failure && *about == request && (self matches TaskOutcome::Failed(e, _)
                    ==> error == e),
                None => found is None,
            },
    {
        match self {
            TaskOutcome::Parsed(ParseResult::RetryWithNewContent(request)) => Some(
                (
                    ScraperError::ParsingError("Retry with new content requested".to_owned()),
                    &**request,
                ),
            ),
            TaskOutcome::Failed(error, request) => match error {
                ScraperError::ParsingError(_) => Some((error.clone(), &**request)),
                ScraperError::StorageError(_) => Some((error.clone(), &**request)),
                _ => None,
            },
            _ => None,
        }
    }
}

/// What the caller does after handing in an outcome.
#[derive(Debug)]
pub enum Reaction {
    /// Go on taking work.
    Proceed,
    /// Wait, then go on taking work; a retry has been queued.
    Pause(Delay),
    /// Tell the spider that the request has used up its retries.
    MaxRetries { category: RetryCategory, request: Box<HttpRequest> },
    /// The crawl is over; results that still arrive are dropped.
    Stop,
}

/// The scheduler's state.
pub struct CrawlState {
    /// The URLs admitted so far.
    pub visited: Set<Seq<char>>,
    /// The work admitted and not yet handed out, oldest first.
    pub queue: Seq<Work>,
    /// The number of tasks handed out and not yet completed.
    pub in_flight: nat,
    /// Whether a spider has asked to stop.
    pub stopped: bool,
    /// The URLs of the fetches handed out so far.
    pub dispatched: Set<Seq<char>>,
}

/// How many tasks may be in flight: the configured number, and one where
/// that is zero.
pub open spec fn capacity(max_concurrency: usize) -> nat {
    if max_concurrency == 0 {
        1
    } else {
        max_concurrency as nat
    }
}

/// Whether a request is let in, given the URLs visited before it: not at or
/// beyond the depth limit, and not visited where that is checked.
pub open spec fn admissible(
    request: HttpRequest,
    visited: Set<Seq<char>>,
    max_depth: usize,
    check_visited: bool,
) -> bool {
    request.depth < max_depth && !(check_visited && visited.contains(request.url@))
}

/// The requests of a batch that are let in, in their order. A request that
/// is let in counts as visited for those after it.
pub open spec fn admitted(
    requests: Seq<HttpRequest>,
    visited: Set<Seq<char>>,
    max_depth: usize,
    check_visited: bool,
) -> Seq<HttpRequest>
    decreases requests.len(),
{
    if requests.len() == 0 {
        Seq::empty()
    } else if admissible(requests[0], visited, max_depth, check_visited) {
        seq![requests[0]] + admitted(
            requests.drop_first(),
            visited.insert(requests[0].url@),
            max_depth,
            check_visited,
        )
    } else {
        admitted(requests.drop_first(), visited, max_depth, check_visited)
    }
}

/// The visited set after a batch: the set before, with the URL of every
/// request that was let in.
pub open spec fn visited_after(
    requests: Seq<HttpRequest>,
    visited: Set<Seq<char>>,
    max_depth: usize,
    check_visited: bool,
) -> Set<Seq<char>>
    decreases requests.len(),
{
    if requests.len() == 0 {
        visited
    } else if admissible(requests[0], visited, max_depth, check_visited) {
        visited_after(
            requests.drop_first(),
            visited.insert(requests[0].url@),
            max_depth,
            check_visited,
        )
    } else {
        visited_after(requests.drop_first(), visited, max_depth, check_visited)
    }
}

/// The fetches for a sequence of requests.
pub open spec fn fetches(requests: Seq<HttpRequest>) -> Seq<Work> {
    requests.map_values(|request: HttpRequest| Work::Fetch(request))
}

impl CrawlState {
    /// The state after a batch of requests has been funnelled in.
    pub open spec fn enqueue(
        self,
        requests: Seq<HttpRequest>,
        max_depth: usize,
        check_visited: bool,
    ) -> CrawlState {
        CrawlState {
            visited: visited_after(requests, self.visited, max_depth, check_visited),
            queue: self.queue + fetches(admitted(requests, self.visited, max_depth, check_visited)),
            ..self
        }
    }

    /// The state after one task has completed.
    pub open spec fn landed(self) -> CrawlState {
        CrawlState {
            in_flight: if self.in_flight > 0 {
                (self.in_flight - 1) as nat
            } else {
                0
            },
            ..self
        }
    }

    /// Every queued fetch is within the depth limit and for a visited URL;
    /// every dispatched URL is visited.
    pub open spec fn consistent(self, max_depth: usize) -> bool {
        &&& self.visited.finite()
        &&& self.dispatched.subset_of(self.visited)
        &&& forall|i: int|
            0 <= i < self.queue.len() ==> (#[trigger] self.queue[i] matches Work::Fetch(request)
                ==> request.depth < max_depth && self.visited.contains(request.url@))
    }
}

/// The scheduler.
pub struct Crawler {
    config: SpiderConfig,
    visited_urls: StringHashSet,
    ready: VecDeque<Work>,
    in_flight: usize,
    stopped: bool,
    stats: StatsTracker,
    dispatched: Ghost<Set<Seq<char>>>,
}

impl View for Crawler {
    type V = CrawlState;

    closed spec fn view(&self) -> CrawlState {
        CrawlState {
            visited: self.visited_urls@,
            queue: self.ready@,
            in_flight: self.in_flight as nat,
            stopped: self.stopped,
            dispatched: self.dispatched@,
        }
    }
}

impl Crawler {
    /// The configuration of the crawl as it stands; its retry controller
    /// changes with every decision.
    pub closed spec fn settings(&self) -> SpiderConfig {
        self.config
    }

    /// The depth at and beyond which requests are dropped.
    pub open spec fn max_depth(&self) -> usize {
        self.settings().max_depth
    }

    /// The configured number of tasks in flight.
    pub open spec fn max_concurrency(&self) -> usize {
        self.settings().max_concurrency
    }

    /// Whether a URL may be fetched more than once.
    pub open spec fn allow_url_revisit(&self) -> bool {
        self.settings().allow_url_revisit
    }

    /// The retry controller.
    pub open spec fn retry(&self) -> RetryConfig {
        self.settings().retry_config
    }

    /// The counters.
    pub closed spec fn tally(&self) -> Tally {
        self.stats@
    }

    /// The state is consistent, no more tasks are in flight than may be,
    /// and the tables inside are well formed.
    pub closed spec fn wf(&self) -> bool {
        &&& self.config.wf()
        &&& self.stats.wf()
        &&& self@.consistent(self.config.max_depth)
        &&& self.in_flight <= capacity(self.config.max_concurrency)
    }

    /// What `wf` says in terms of the state.
    pub proof fn lemma_wf(&self)
        requires
            self.wf(),
        ensures
            self@.consistent(self.max_depth()),
            self@.in_flight <= capacity(self.max_concurrency()),
            self.retry().wf(),
    {
    }

    /// Whether the limits and the headers of `self` are those of `before`.
    pub open spec fn same_limits(&self, before: &Crawler) -> bool {
        &&& self.max_depth() == before.max_depth()
        &&& self.max_concurrency() == before.max_concurrency()
        &&& self.allow_url_revisit() == before.allow_url_revisit()
        &&& self.settings().headers == before.settings().headers
    }

    /// A scheduler with nothing visited, queued or in flight.
    pub fn new(config: SpiderConfig) -> (crawler: Self)
        requires
            config.wf(),
        ensures
            crawler.wf(),
            crawler@ == (CrawlState {
                visited: Set::empty(),
                queue: Seq::empty(),
                in_flight: 0,
                stopped: false,
                dispatched: Set::empty(),
            }),
            crawler.settings() == config,
            crawler.tally() == Tally::zero(),
    {
        let crawler = Crawler {
            config,
            visited_urls: StringHashSet::new(),
            ready: VecDeque::new(),
            in_flight: 0,
            stopped: false,
            stats: StatsTracker::new(),
            dispatched: Ghost(Set::empty()),
        };
        crawler
    }

    /// The number of URLs visited.
    pub fn visited_count(&self) -> (n: usize)
        requires
            self.wf(),
        ensures
            n == self@.visited.len(),
    {
        self.visited_urls.len()
    }

    /// Whether `url` has been visited.
    pub fn is_visited(&self, url: &str) -> (yes: bool)
        ensures
            yes == self@.visited.contains(url@),
    {
        self.visited_urls.contains(url)
    }

    /// The number of tasks in flight.
    pub fn in_flight(&self) -> (n: usize)
        ensures
            n == self@.in_flight,
    {
        self.in_flight
    }

    /// The amount of work queued.
    pub fn queued(&self) -> (n: usize)
        ensures
            n == self@.queue.len(),
    {
        self.ready.len()
    }

    /// Whether a spider has asked to stop.
    pub fn is_stopped(&self) -> (yes: bool)
        ensures
            yes == self@.stopped,
    {
        self.stopped
    }

    /// Whether the crawl is over: a spider has asked to stop, or nothing is
    /// in flight and nothing is queued.
    pub fn is_finished(&self) -> (yes: bool)
        ensures
            yes == (self@.stopped || (self@.in_flight == 0 && self@.queue.len() == 0)),
    {
        self.stopped || (self.in_flight == 0 && self.ready.len() == 0)
    }

    /// The configuration of the crawl.
    pub fn config(&self) -> (config: &SpiderConfig)
        ensures
            *config == self.settings(),
            self.wf() ==> config.wf(),
    {
        &self.config
    }

    /// The counters of the crawl.
    pub fn stats(&self) -> (stats: &StatsTracker)
        ensures
            stats@ == self.tally(),
            self.wf() ==> stats.wf(),
    {
        &self.stats
    }

    /// Decides what follows the answer `fetched` to a request, with the
    /// crawl's retry controller and counters.
    pub fn after_fetch(&mut self, fetched: ScraperResult<HttpResponse>) -> (step: FetchStep)
        requires
            old(self).wf(),
        ensures
            final(self).wf(),
            final(self).same_limits(old(self)),
            final(self)@ == old(self)@,
            old(self).retry().within_limits() ==> final(self).retry().within_limits(),
            decided_on(final(self).retry(), final(self).tally(), old(self).retry(), old(self).tally(), fetched),
            match fetched {
                Err((error, failed)) => step == FetchStep::Failed(error, failed),
                Ok(response) => follows(step, old(self).retry(), response),
            },
    {
        crate::scrapers::scraper::after_fetch(&mut self.config.retry_config, &mut self.stats, fetched)
    }

    /// Counts a finished task in the crawl's counters.
    pub fn record_task(
        &mut self,
        response: &HttpResponse,
        is_parsing_successful: bool,
        duration_millis: u64,
    )
        requires
            old(self).wf(),
        ensures
            final(self).wf(),
            final(self).same_limits(old(self)),
            final(self)@ == old(self)@,
            final(self).retry() == old(self).retry(),
            final(self).tally() == old(self).tally().with_task(
                *response,
                is_parsing_successful,
                duration_millis,
            ),
    {
        self.stats.record_task(response, is_parsing_successful, duration_millis);
    }

    /// Funnels a batch of requests into the queue, in their order. A
    /// request at or beyond the depth limit is dropped. Unless this is a
    /// retry or revisits are allowed, a request for a visited URL is
    /// dropped. Every request that is let in has its URL marked visited
    /// before the next one is looked at. After a stop nothing is let in.
    pub fn process_requests(&mut self, requests: Vec<HttpRequest>, is_retry: bool)
        requires
            old(self).wf(),
        ensures
            final(self).wf(),
            final(self).same_limits(old(self)),
            final(self).retry() == old(self).retry(),
            final(self).tally() == old(self).tally(),
            final(self)@ == if old(self)@.stopped {
                old(self)@
            } else {
                old(self)@.enqueue(
                    requests@,
                    old(self).max_depth(),
                    !is_retry && !old(self).allow_url_revisit(),
                )
            },
    {
        if self.stopped {
            return ;
        }
        let check_visited = !is_retry && !self.config.allow_url_revisit;
        let max_depth = self.config.max_depth;
        let ghost batch = requests@;
        proof {
            assert(batch.subrange(0, batch.len() as int) =~= batch);
        }
        for request in it: requests
            invariant
                it.seq() == batch,
                self.wf(),
                self.config == old(self).config,
                self.stats == old(self).stats,
                self.in_flight == old(self).in_flight,
                self.stopped == old(self).stopped,
                self.dispatched == old(self).dispatched,
                !self.stopped,
                max_depth == self.config.max_depth,
                check_visited == (!is_retry && !self.config.allow_url_revisit),
                self@.queue + fetches(
                    admitted(
                        batch.subrange(it.index() as int, batch.len() as int),
                        self@.visited,
                        max_depth,
                        check_visited,
                    ),
                ) == old(self)@.queue + fetches(
                    admitted(batch, old(self)@.visited, max_depth, check_visited),
                ),
                visited_after(
                    batch.subrange(it.index() as int, batch.len() as int),
                    self@.visited,
                    max_depth,
                    check_visited,
                ) == visited_after(batch, old(self)@.visited, max_depth, check_visited),
        {
            let ghost before = *self;
            let ghost rest = batch.subrange(it.index() as int, batch.len() as int);
            let ghost later = batch.subrange(it.index() + 1, batch.len() as int);
            proof {
                assert(rest.drop_first() =~= later);
            }
            if request.depth < max_depth && !(check_visited && self.visited_urls.contains(
                request.url.as_str(),
            )) {
                let ghost url = request.url@;
                self.visited_urls.insert(request.url.clone());
                self.ready.push_back(Work::Fetch(request));
                proof {
                    let tail = admitted(later, self@.visited, max_depth, check_visited);
                    assert(fetches(seq![request] + tail) =~= seq![Work::Fetch(request)] + fetches(
                        tail,
                    ));
                    assert(self@.queue + fetches(tail) =~= before@.queue + fetches(
                        seq![request] + tail,
                    ));
                    assert forall|i: int| 0 <= i < self@.queue.len() implies (
                    #[trigger] self@.queue[i] matches Work::Fetch(r) ==> r.depth < max_depth
                        && self@.visited.contains(r.url@)) by {}
                }
            }
        }
        proof {
            assert(batch.subrange(batch.len() as int, batch.len() as int) =~= Seq::<
                HttpRequest,
            >::empty());
        }
    }

    /// Hands out the oldest queued work, if a task may start: the crawl is
    /// not stopped, fewer tasks are in flight than the capacity, and work
    /// is queued.
    pub fn next_task(&mut self) -> (work: Option<Work>)
        requires
            old(self).wf(),
        ensures
            final(self).wf(),
            final(self).same_limits(old(self)),
            final(self).retry() == old(self).retry(),
            final(self).tally() == old(self).tally(),
            match work {
                Some(task) => {
                    &&& !old(self)@.stopped
                    &&& old(self)@.in_flight < capacity(old(self).max_concurrency())
                    &&& old(self)@.queue.len() > 0
                    &&& task == old(self)@.queue[0]
                    &&& final(self)@ == (CrawlState {
                        queue: old(self)@.queue.drop_first(),
                        in_flight: old(self)@.in_flight + 1,
                        dispatched: match task {
                            Work::Fetch(request) => old(self)@.dispatched.insert(request.url@),
                            Work::Parse(_) => old(self)@.dispatched,
                        },
                        ..old(self)@
                    })
                    &&& task matches Work::Fetch(request) ==> request.depth < old(self).max_depth()
                        && old(self)@.visited.contains(request.url@)
                },
                None => {
                    &&& final(self)@ == old(self)@
                    &&& old(self)@.stopped || old(self)@.in_flight >= capacity(
                        old(self).max_concurrency(),
                    ) || old(self)@.queue.len() == 0
                },
            },
    {
        let cap: usize = if self.config.max_concurrency == 0 {
            1
        } else {
            self.config.max_concurrency
        };
        if self.stopped || self.in_flight >= cap || self.ready.len() == 0 {
            return None;
        }
        let ghost before = *self;
        let task = match self.ready.pop_front() {
            Some(task) => task,
            None => {
                return None;
            },
        };
        self.in_flight = self.in_flight + 1;
        proof {
            if let Work::Fetch(request) = &task {
                self.dispatched@ = before.dispatched@.insert(request.url@);
            }
            assert forall|i: int| 0 <= i < self@.queue.len() implies (
            #[trigger] self@.queue[i] matches Work::Fetch(r) ==> r.depth < self.config.max_depth
                && self@.visited.contains(r.url@)) by {}
        }
        Some(task)
    }
}

/// The text of the parsing error that stands for a request to parse the
/// same response again.
pub open spec fn same_content_text() -> Seq<char> {
    "Content retry requested"@
}

/// The text of the parsing error that stands for a request to fetch again.
pub open spec fn new_content_text() -> Seq<char> {
    "Retry with new content requested"@
}

impl Crawler {
    /// Nothing but the state has changed between `before` and `self`.
    pub open spec fn only_state_moved(&self, before: &Crawler) -> bool {
        self.retry() == before.retry() && self.tally() == before.tally()
    }

    /// The relation between the scheduler before and after a retry decision
    /// on `failure` for the response `response`: where the controller grants
    /// a retry, the response is queued to be parsed again and the caller
    /// pauses for the delay; where it does not, nothing follows.
    pub open spec fn reparsed(
        &self,
        before: &Crawler,
        response: HttpResponse,
        reaction: Reaction,
    ) -> bool {
        let probe = Probe::Failure(Failure::Parsing(same_content_text()));
        &&& self.retry().decided(&before.retry(), response.url@, probe)
        &&& match before.retry().grant(response.url@, probe) {
            Some(granted) => {
                &&& self@ == (CrawlState {
                    queue: before@.landed().queue.push(Work::Parse(response)),
                    ..before@.landed()
                })
                &&& reaction == Reaction::Pause(Delay { nanos: granted.delay_nanos as u64 })
            },
            None => self@ == before@.landed() && reaction == Reaction::Proceed,
        }
    }

    /// The relation between the scheduler before and after a retry decision
    /// on `failure` for `request`: where the controller grants a retry, the
    /// request is funnelled in as a retry, which skips the visited check,
    /// and the caller pauses for the delay; where it does not, nothing
    /// follows.
    pub open spec fn resubmitted(
        &self,
        before: &Crawler,
        request: HttpRequest,
        failure: Failure,
        reaction: Reaction,
    ) -> bool {
        let probe = Probe::Failure(failure);
        &&& self.retry().decided(&before.retry(), request.url@, probe)
        &&& match before.retry().grant(request.url@, probe) {
            Some(granted) => {
                &&& self@ == before@.landed().enqueue(seq![request], before.max_depth(), false)
                &&& reaction == Reaction::Pause(Delay { nanos: granted.delay_nanos as u64 })
            },
            None => self@ == before@.landed() && reaction == Reaction::Proceed,
        }
    }

    /// What handing in `outcome` does: the relation between the scheduler
    /// `before` and `self` after, and the reaction.
    pub open spec fn completes(
        &self,
        before: &Crawler,
        outcome: TaskOutcome,
        reaction: Reaction,
    ) -> bool {
        if before@.stopped {
            &&& self@ == before@.landed()
            &&& self.only_state_moved(before)
            &&& reaction == Reaction::Stop
        } else {
            match outcome {
                TaskOutcome::Parsed(ParseResult::Continue(requests)) => {
                    &&& self@ == before@.landed().enqueue(
                        requests@,
                        before.max_depth(),
                        !before.allow_url_revisit(),
                    )
                    &&& self.only_state_moved(before)
                    &&& reaction == Reaction::Proceed
                },
                TaskOutcome::Parsed(ParseResult::Skip) => {
                    &&& self@ == before@.landed()
                    &&& self.only_state_moved(before)
                    &&& reaction == Reaction::Proceed
                },
                TaskOutcome::Parsed(ParseResult::Stop) => {
                    &&& self@ == (CrawlState { stopped: true, ..before@.landed() })
                    &&& self.only_state_moved(before)
                    &&& reaction == Reaction::Stop
                },
                TaskOutcome::Parsed(ParseResult::RetryWithSameContent(response)) => {
                    &&& self.tally() == before.tally()
                    &&& self.reparsed(before, *response, reaction)
                },
                TaskOutcome::Parsed(ParseResult::RetryWithNewContent(request)) => {
                    &&& self.tally() == before.tally()
                    &&& self.resubmitted(
                        before,
                        *request,
                        Failure::Parsing(new_content_text()),
                        reaction,
                    )
                },
                TaskOutcome::Failed(error, request) => match error {
                    ScraperError::MaxRetriesReached { category, retry_count, url } => {
                        &&& self@ == before@.landed()
                        &&& self.only_state_moved(before)
                        &&& reaction == Reaction::MaxRetries { category, request }
                    },
                    ScraperError::StorageError(_) => {
                        &&& self.tally() == before.tally().with_error(ErrorType::Storage)
                        &&& self.resubmitted(before, *request, error.failure(), reaction)
                    },
                    ScraperError::ParsingError(_) => {
                        &&& self.tally() == before.tally()
                        &&& self.resubmitted(before, *request, error.failure(), reaction)
                    },
                    _ => {
                        &&& self@ == before@.landed()
                        &&& self.retry() == before.retry()
                        &&& self.tally() == before.tally().with_error(ErrorType::Unhandled)
                        &&& reaction == Reaction::Proceed
                    },
                },
                TaskOutcome::Lost => {
                    &&& self@ == before@.landed()
                    &&& self.retry() == before.retry()
                    &&& self.tally() == before.tally().with_error(ErrorType::Unhandled)
                    &&& reaction == Reaction::Proceed
                },
            }
        }
    }

    /// Asks the controller whether `error`, raised for `request`, is
    /// retried, and funnels the request in again where it is.
    fn check_and_process_retry(&mut self, request: HttpRequest, error: &ScraperError) -> (reaction:
        Reaction)
        requires
            old(self).wf(),
            !old(self)@.stopped,
        ensures
            final(self).wf(),
            final(self).same_limits(old(self)),
            final(self).tally() == old(self).tally(),
            old(self).retry().within_limits() ==> final(self).retry().within_limits(),
            ({
                let probe = Probe::Failure(error.failure());
                &&& final(self).retry().decided(&old(self).retry(), request.url@, probe)
                &&& match old(self).retry().grant(request.url@, probe) {
                    Some(granted) => {
                        &&& final(self)@ == old(self)@.enqueue(
                            seq![request],
                            old(self).max_depth(),
                            false,
                        )
                        &&& reaction == Reaction::Pause(Delay { nanos: granted.delay_nanos as u64 })
                    },
                    None => final(self)@ == old(self)@ && reaction == Reaction::Proceed,
                }
            }),
    {
        let granted = self.config.retry_config.should_retry_parse(request.url.as_str(), error);
        match granted {
            Some((_, delay)) => {
                let mut batch: Vec<HttpRequest> = Vec::new();
                batch.push(request);
                self.process_requests(batch, true);
                Reaction::Pause(delay)
            },
            None => Reaction::Proceed,
        }
    }

    /// Lands one task: one less is in flight.
    fn land(&mut self)
        requires
            old(self).wf(),
        ensures
            final(self).wf(),
            final(self).same_limits(old(self)),
            final(self).only_state_moved(old(self)),
            final(self)@ == old(self)@.landed(),
    {
        if self.in_flight > 0 {
            self.in_flight = self.in_flight - 1;
        }
    }

    /// Takes the outcome of a task and routes it. New requests are
    /// funnelled into the queue. A retry that the spider asks for, and a
    /// parsing or storage failure, go to the retry controller: a granted
    /// retry is queued and the caller is told to pause. Exhausted transport
    /// retries are passed on for the spider to handle. A stop ends the
    /// crawl. Anything else is counted as unhandled.
    pub fn complete(&mut self, outcome: TaskOutcome) -> (reaction: Reaction)
        requires
            old(self).wf(),
        ensures
            final(self).wf(),
            final(self).same_limits(old(self)),
            final(self).completes(old(self), outcome, reaction),
            old(self).retry().within_limits() ==> final(self).retry().within_limits(),
    {
        self.land();
        if self.stopped {
            return Reaction::Stop;
        }
        match outcome {
            TaskOutcome::Parsed(parse_result) => match parse_result {
                ParseResult::Continue(requests) => {
                    self.process_requests(requests, false);
                    Reaction::Proceed
                },
                ParseResult::Skip => Reaction::Proceed,
                ParseResult::Stop => {
                    self.stopped = true;
                    Reaction::Stop
                },
                ParseResult::RetryWithSameContent(response) => {
                    let error = ScraperError::ParsingError("Content retry requested".to_owned());
                    let granted = self.config.retry_config.should_retry_parse(
                        response.url.as_str(),
                        &error,
                    );
                    match granted {
                        Some((_, delay)) => {
                            self.ready.push_back(Work::Parse(*response));
                            proof {
                                assert forall|i: int| 0 <= i < self@.queue.len() implies (
                                #[trigger] self@.queue[i] matches Work::Fetch(r) ==> r.depth
                                    < self.config.max_depth && self@.visited.contains(r.url@)) by {}
                            }
                            Reaction::Pause(delay)
                        },
                        None => Reaction::Proceed,
                    }
                },
                ParseResult::RetryWithNewContent(request) => {
                    let error = ScraperError::ParsingError(
                        "Retry with new content requested".to_owned(),
                    );
                    self.check_and_process_retry(*request, &error)
                },
            },
            TaskOutcome::Failed(error, request) => match error {
                ScraperError::MaxRetriesReached { category, retry_count, url } => {
                    Reaction::MaxRetries { category, request }
                },
                ScraperError::StorageError(storage_error) => {
                    self.stats.record_error(ErrorType::Storage);
                    let error = ScraperError::StorageError(storage_error);
                    self.check_and_process_retry(*request, &error)
                },
                ScraperError::ParsingError(text) => {
                    let error = ScraperError::ParsingError(text);
                    self.check_and_process_retry(*request, &error)
                },
                _ => {
                    self.stats.record_error(ErrorType::Unhandled);
                    Reaction::Proceed
                },
            },
            TaskOutcome::Lost => {
                self.stats.record_error(ErrorType::Unhandled);
                Reaction::Proceed
            },
        }
    }
}

/// Every request that is let in lies below the depth limit.
pub proof fn lemma_admitted_below_depth(
    requests: Seq<HttpRequest>,
    visited: Set<Seq<char>>,
    max_depth: usize,
    check_visited: bool,
)
    ensures
        forall|i: int|
            0 <= i < admitted(requests, visited, max_depth, check_visited).len() ==> (
            #[trigger] admitted(requests, visited, max_depth, check_visited)[i]).depth < max_depth,
    decreases requests.len(),
{
    if requests.len() > 0 {
        if admissible(requests[0], visited, max_depth, check_visited) {
            lemma_admitted_below_depth(
                requests.drop_first(),
                visited.insert(requests[0].url@),
                max_depth,
                check_visited,
            );
        } else {
            lemma_admitted_below_depth(requests.drop_first(), visited, max_depth, check_visited);
        }
    }
}

/// With a depth limit of zero nothing is let in and nothing is marked
/// visited.
pub proof fn lemma_zero_depth_admits_nothing(
    requests: Seq<HttpRequest>,
    visited: Set<Seq<char>>,
    check_visited: bool,
)
    ensures
        admitted(requests, visited, 0, check_visited) == Seq::<HttpRequest>::empty(),
        visited_after(requests, visited, 0, check_visited) == visited,
    decreases requests.len(),
{
    if requests.len() > 0 {
        lemma_zero_depth_admits_nothing(requests.drop_first(), visited, check_visited);
    }
}

/// The requests of a batch that lie below the depth limit, in their order.
pub open spec fn below_depth(requests: Seq<HttpRequest>, max_depth: usize) -> Seq<HttpRequest> {
    requests.filter(|request: HttpRequest| request.depth < max_depth)
}

/// Where the visited check is off, what is let in does not depend on the
/// visited set: it is every request below the depth limit.
pub proof fn lemma_unchecked_admits_by_depth(
    requests: Seq<HttpRequest>,
    visited: Set<Seq<char>>,
    max_depth: usize,
)
    ensures
        admitted(requests, visited, max_depth, false) == below_depth(requests, max_depth),
    decreases requests.len(),
{
    reveal_with_fuel(Seq::filter, 3);
    if requests.len() == 0 {
    } else {
        let keep = |request: HttpRequest| request.depth < max_depth;
        let rest = requests.drop_first();
        lemma_unchecked_admits_by_depth(rest, visited, max_depth);
        lemma_unchecked_admits_by_depth(rest, visited.insert(requests[0].url@), max_depth);
        assert(requests =~= seq![requests[0]] + rest);
        Seq::filter_distributes_over_add(seq![requests[0]], rest, keep);
        assert(seq![requests[0]].filter(keep) =~= if keep(requests[0]) {
            seq![requests[0]]
        } else {
            Seq::<HttpRequest>::empty()
        });
    }
}

/// The visited set only grows with a batch, and every request that is let
/// in is in it afterwards.
pub proof fn lemma_visited_grows(
    requests: Seq<HttpRequest>,
    visited: Set<Seq<char>>,
    max_depth: usize,
    check_visited: bool,
)
    ensures
        visited.subset_of(visited_after(requests, visited, max_depth, check_visited)),
        forall|i: int|
            0 <= i < admitted(requests, visited, max_depth, check_visited).len()
                ==> visited_after(requests, visited, max_depth, check_visited).contains(
                (#[trigger] admitted(requests, visited, max_depth, check_visited)[i]).url@,
            ),
    decreases requests.len(),
{
    if requests.len() > 0 {
        let rest = requests.drop_first();
        if admissible(requests[0], visited, max_depth, check_visited) {
            let grown = visited.insert(requests[0].url@);
            lemma_visited_grows(rest, grown, max_depth, check_visited);
            let let_in = admitted(requests, visited, max_depth, check_visited);
            let tail = admitted(rest, grown, max_depth, check_visited);
            assert forall|i: int| 0 <= i < let_in.len() implies visited_after(
                requests,
                visited,
                max_depth,
                check_visited,
            ).contains((#[trigger] let_in[i]).url@) by {
                if i > 0 {
                    assert(let_in[i] == tail[i - 1]);
                }
            }
        } else {
            lemma_visited_grows(rest, visited, max_depth, check_visited);
        }
    }
}

/// Where the visited check is on, no URL is let in twice: the URLs of the
/// requests let in were not visited before and differ from one another.
pub proof fn lemma_checked_admits_once(
    requests: Seq<HttpRequest>,
    visited: Set<Seq<char>>,
    max_depth: usize,
)
    ensures
        forall|i: int|
            0 <= i < admitted(requests, visited, max_depth, true).len() ==> !visited.contains(
                (#[trigger] admitted(requests, visited, max_depth, true)[i]).url@,
            ),
        forall|i: int, j: int|
            0 <= i < j < admitted(requests, visited, max_depth, true).len() ==> (
            #[trigger] admitted(requests, visited, max_depth, true)[i]).url@ != (
            #[trigger] admitted(requests, visited, max_depth, true)[j]).url@,
    decreases requests.len(),
{
    if requests.len() > 0 {
        let rest = requests.drop_first();
        if admissible(requests[0], visited, max_depth, true) {
            let grown = visited.insert(requests[0].url@);
            lemma_checked_admits_once(rest, grown, max_depth);
            let let_in = admitted(requests, visited, max_depth, true);
            let tail = admitted(rest, grown, max_depth, true);
            assert forall|i: int| 0 <= i < let_in.len() implies !visited.contains(
                (#[trigger] let_in[i]).url@,
            ) by {
                if i > 0 {
                    assert(let_in[i] == tail[i - 1]);
                }
            }
            assert forall|i: int, j: int| 0 <= i < j < let_in.len() implies (
            #[trigger] let_in[i]).url@ != (#[trigger] let_in[j]).url@ by {
                assert(let_in[j] == tail[j - 1]);
                if i > 0 {
                    assert(let_in[i] == tail[i - 1]);
                }
            }
        } else {
            lemma_checked_admits_once(rest, visited, max_depth);
        }
    }
}

impl Crawler {
    /// At least as many URLs are visited as distinct URLs were dispatched.
    pub proof fn lemma_visited_covers_dispatched(&self)
        requires
            self.wf(),
        ensures
            self@.dispatched.finite(),
            self@.dispatched.len() <= self@.visited.len(),
    {
        self.lemma_wf();
        vstd::set_lib::lemma_len_subset(self@.dispatched, self@.visited);
    }

    /// Every queued fetch lies below the depth limit.
    pub proof fn lemma_queue_below_depth(&self, index: int)
        requires
            self.wf(),
            0 <= index < self@.queue.len(),
        ensures
            self@.queue[index] matches Work::Fetch(request) ==> request.depth < self.max_depth(),
    {
        self.lemma_wf();
    }

    /// Handing in an outcome never forgets a visit or a dispatch, never
    /// reopens a stopped crawl, and never changes the capacity.
    pub proof fn lemma_completion_keeps_history(
        &self,
        before: &Crawler,
        outcome: TaskOutcome,
        reaction: Reaction,
    )
        requires
            self.completes(before, outcome, reaction),
        ensures
            before@.visited.subset_of(self@.visited),
            self@.dispatched == before@.dispatched,
            before@.stopped ==> self@.stopped,
            self@.in_flight <= before@.in_flight,
    {
        let base = before@.landed();
        if !before@.stopped {
            match outcome {
                TaskOutcome::Parsed(ParseResult::Continue(requests)) => {
                    lemma_visited_grows(
                        requests@,
                        base.visited,
                        before.max_depth(),
                        !before.allow_url_revisit(),
                    );
                },
                TaskOutcome::Parsed(ParseResult::RetryWithNewContent(request)) => {
                    lemma_visited_grows(seq![*request], base.visited, before.max_depth(), false);
                },
                TaskOutcome::Failed(error, request) => {
                    lemma_visited_grows(seq![*request], base.visited, before.max_depth(), false);
                },
                _ => {},
            }
        }
    }

    /// With a concurrency of one, at most one task is in flight.
    pub proof fn lemma_one_at_a_time(&self)
        requires
            self.wf(),
            self.max_concurrency() == 1,
        ensures
            self@.in_flight <= 1,
    {
        self.lemma_wf();
    }
}

} // verus!
