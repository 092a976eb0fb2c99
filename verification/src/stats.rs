//! Counters of a crawl: requests, retries, bytes, response times, errors.
//! Every counter wraps around at its largest value.

use crate::delay::Delay;
use crate::http::response::HttpResponse;
use crate::retry::types::{category_label, CategoryId, RetryCategory};
use crate::table::{lookup, upsert, Table};
use std::collections::HashMap;
use vstd::prelude::*;

verus! {

/// The kind of error to count.
#[derive(Debug, Clone, Copy, PartialEq, Eq, Structural)]
pub enum ErrorType {
    Storage,
    Parsing,
    Unhandled,
}

/// What the counters hold.
pub struct Tally {
    pub total_requests: u64,
    pub successful_requests: u64,
    pub failed_requests: u64,
    pub retry_count: u64,
    pub data_downloaded: u64,
    pub total_response_time: u64,
    pub status_codes: Map<u16, u64>,
    pub retry_reasons: Seq<(Seq<char>, u64)>,
    pub storage_errors: u64,
    pub parsing_errors: u64,
    pub unhandled_errors: u64,
}

/// A request counts as successful when its status is below 400 and its
/// response was parsed.
pub open spec fn request_succeeded(status: u16, is_parsing_successful: bool) -> bool {
    status < 400 && is_parsing_successful
}

/// How often `key` was counted, zero where it has no entry.
pub open spec fn times<I>(counts: Seq<(I, u64)>, key: I) -> u64 {
    match lookup(counts, key) {
        Some(n) => n,
        None => 0,
    }
}

/// How often `status` was seen, zero where it has no entry.
pub open spec fn seen(codes: Map<u16, u64>, status: u16) -> u64 {
    if codes.contains_key(status) {
        codes[status]
    } else {
        0
    }
}

impl Tally {
    /// Nothing counted.
    pub open spec fn zero() -> Tally {
        Tally {
            total_requests: 0,
            successful_requests: 0,
            failed_requests: 0,
            retry_count: 0,
            data_downloaded: 0,
            total_response_time: 0,
            status_codes: Map::empty(),
            retry_reasons: Seq::empty(),
            storage_errors: 0,
            parsing_errors: 0,
            unhandled_errors: 0,
        }
    }

    /// The tally after one more error of the given kind.
    pub open spec fn with_error(self, error_type: ErrorType) -> Tally {
        match error_type {
            ErrorType::Storage => Tally {
                storage_errors: self.storage_errors.wrapping_add(1),
                ..self
            },
            ErrorType::Parsing => Tally {
                parsing_errors: self.parsing_errors.wrapping_add(1),
                ..self
            },
            ErrorType::Unhandled => Tally {
                unhandled_errors: self.unhandled_errors.wrapping_add(1),
                ..self
            },
        }
    }

    /// The tally after one more completed request.
    pub open spec fn with_request(
        self,
        status: u16,
        size: u64,
        duration_millis: u64,
        is_parsing_successful: bool,
    ) -> Tally {
        let ok = request_succeeded(status, is_parsing_successful);
        Tally {
            total_requests: self.total_requests.wrapping_add(1),
            successful_requests: if ok {
                self.successful_requests.wrapping_add(1)
            } else {
                self.successful_requests
            },
            failed_requests: if ok {
                self.failed_requests
            } else {
                self.failed_requests.wrapping_add(1)
            },
            status_codes: self.status_codes.insert(
                status,
                seen(self.status_codes, status).wrapping_add(1),
            ),
            data_downloaded: self.data_downloaded.wrapping_add(size),
            total_response_time: self.total_response_time.wrapping_add(duration_millis),
            ..self
        }
    }

    /// The tally after one more retry for the given reason.
    pub open spec fn with_retry(self, reason: Seq<char>) -> Tally {
        Tally {
            retry_count: self.retry_count.wrapping_add(1),
            retry_reasons: upsert(
                self.retry_reasons,
                reason,
                times(self.retry_reasons, reason).wrapping_add(1),
            ),
            ..self
        }
    }

    /// The tally after `count` more retries for the given reason.
    pub open spec fn with_retries(self, reason: Seq<char>, count: nat) -> Tally
        decreases count,
    {
        if count == 0 {
            self
        } else {
            self.with_retries(reason, (count - 1) as nat).with_retry(reason)
        }
    }
}

/// The size of a body in bytes, as the machine counts it.
pub open spec fn body_size(body: Seq<char>) -> u64 {
    (vstd::utf8::encode_utf8(body).len() as usize) as u64
}

impl Tally {
    /// The tally after the retries of a whole history, entry by entry.
    pub open spec fn with_history(self, history: Seq<(CategoryId, usize)>) -> Tally
        decreases history.len(),
    {
        if history.len() == 0 {
            self
        } else {
            self.with_history(history.drop_last()).with_retries(
                category_label(history.last().0),
                history.last().1 as nat,
            )
        }
    }

    /// The tally after a task: the retries of the response's history where
    /// it has any, a parsing error where parsing failed, and the request.
    pub open spec fn with_task(
        self,
        response: HttpResponse,
        is_parsing_successful: bool,
        duration_millis: u64,
    ) -> Tally {
        let retried = if response.retry_count > 0 {
            self.with_history(response.retry_history@)
        } else {
            self
        };
        let failed = if is_parsing_successful {
            retried
        } else {
            retried.with_error(ErrorType::Parsing)
        };
        failed.with_request(
            response.status,
            body_size(response.decoded_body@),
            duration_millis,
            is_parsing_successful,
        )
    }
}

/// A copy of the counters, with the time the crawl has taken.
#[derive(Debug)]
pub struct ScrapingStats {
    pub duration: Delay,
    pub total_requests: u64,
    pub successful_requests: u64,
    pub failed_requests: u64,
    pub retry_count: u64,
    /// Bytes of decoded bodies received.
    pub data_downloaded: u64,
    /// Sum of the response times, in milliseconds.
    pub total_response_time: u64,
    pub status_codes: HashMap<u16, u64>,
    pub retry_reasons: Table<String, u64>,
    pub storage_errors: u64,
    pub parsing_errors: u64,
    pub unhandled_errors: u64,
}

impl View for ScrapingStats {
    type V = Tally;

    open spec fn view(&self) -> Tally {
        Tally {
            total_requests: self.total_requests,
            successful_requests: self.successful_requests,
            failed_requests: self.failed_requests,
            retry_count: self.retry_count,
            data_downloaded: self.data_downloaded,
            total_response_time: self.total_response_time,
            status_codes: self.status_codes@,
            retry_reasons: self.retry_reasons@,
            storage_errors: self.storage_errors,
            parsing_errors: self.parsing_errors,
            unhandled_errors: self.unhandled_errors,
        }
    }
}

/// The counters of one crawl.
#[derive(Debug)]
pub struct StatsTracker {
    total_requests: u64,
    successful_requests: u64,
    failed_requests: u64,
    retry_count: u64,
    data_downloaded: u64,
    total_response_time: u64,
    status_codes: HashMap<u16, u64>,
    retry_reasons: Table<String, u64>,
    storage_errors: u64,
    parsing_errors: u64,
    unhandled_errors: u64,
}

impl View for StatsTracker {
    type V = Tally;

    closed spec fn view(&self) -> Tally {
        Tally {
            total_requests: self.total_requests,
            successful_requests: self.successful_requests,
            failed_requests: self.failed_requests,
            retry_count: self.retry_count,
            data_downloaded: self.data_downloaded,
            total_response_time: self.total_response_time,
            status_codes: self.status_codes@,
            retry_reasons: self.retry_reasons@,
            storage_errors: self.storage_errors,
            parsing_errors: self.parsing_errors,
            unhandled_errors: self.unhandled_errors,
        }
    }
}

impl StatsTracker {
    /// The retry reasons are distinct.
    pub closed spec fn wf(&self) -> bool {
        self.retry_reasons.wf()
    }

    /// Counters at zero.
    pub fn new() -> (stats: Self)
        ensures
            stats.wf(),
            stats@ == Tally::zero(),
    {
        StatsTracker {
            total_requests: 0,
            successful_requests: 0,
            failed_requests: 0,
            retry_count: 0,
            data_downloaded: 0,
            total_response_time: 0,
            status_codes: HashMap::new(),
            retry_reasons: Table::new(),
            storage_errors: 0,
            parsing_errors: 0,
            unhandled_errors: 0,
        }
    }

    /// Counts one error of the given kind.
    pub fn record_error(&mut self, error_type: ErrorType)
        requires
            old(self).wf(),
        ensures
            final(self).wf(),
            final(self)@ == old(self)@.with_error(error_type),
    {
        match error_type {
            ErrorType::Storage => {
                self.storage_errors = self.storage_errors.wrapping_add(1);
            },
            ErrorType::Parsing => {
                self.parsing_errors = self.parsing_errors.wrapping_add(1);
            },
            ErrorType::Unhandled => {
                self.unhandled_errors = self.unhandled_errors.wrapping_add(1);
            },
        }
    }

    /// Counts one completed request: its status, the size of its body, the
    /// time it took, and whether it succeeded.
    pub fn record_request(
        &mut self,
        status: u16,
        size: usize,
        duration_millis: u64,
        is_parsing_successful: bool,
    )
        requires
            old(self).wf(),
        ensures
            final(self).wf(),
            final(self)@ == old(self)@.with_request(
                status,
                size as u64,
                duration_millis,
                is_parsing_successful,
            ),
    {
        broadcast use vstd::std_specs::hash::group_hash_axioms;

        self.total_requests = self.total_requests.wrapping_add(1);
        if status < 400 && is_parsing_successful {
            self.successful_requests = self.successful_requests.wrapping_add(1);
        } else {
            self.failed_requests = self.failed_requests.wrapping_add(1);
        }
        let so_far: u64 = match self.status_codes.get(&status) {
            Some(n) => *n,
            None => 0,
        };
        self.status_codes.insert(status, so_far.wrapping_add(1));
        self.data_downloaded = self.data_downloaded.wrapping_add(size as u64);
        self.total_response_time = self.total_response_time.wrapping_add(duration_millis);
    }

    /// Counts one retry for the reason `category`.
    pub fn record_retry(&mut self, category: String)
        requires
            old(self).wf(),
        ensures
            final(self).wf(),
            final(self)@ == old(self)@.with_retry(category@),
    {
        self.retry_count = self.retry_count.wrapping_add(1);
        let so_far: u64 = match self.retry_reasons.get(&category) {
            Some(n) => *n,
            None => 0,
        };
        self.retry_reasons.insert(category, so_far.wrapping_add(1));
    }

    /// Counts `count` retries for the reason that `category` is counted
    /// under.
    pub fn record_retries(&mut self, category: &RetryCategory, count: usize)
        requires
            old(self).wf(),
        ensures
            final(self).wf(),
            final(self)@ == old(self)@.with_retries(category_label(category@), count as nat),
    {
        let mut done: usize = 0;
        while done < count
            invariant
                done <= count,
                self.wf(),
                self@ == old(self)@.with_retries(category_label(category@), done as nat),
            decreases count - done,
        {
            self.record_retry(category.label());
            done += 1;
        }
    }

    /// Counts a finished task: the retries that the response went through,
    /// a parsing error where parsing failed, and the request itself with
    /// the size of its decoded body in bytes.
    pub fn record_task(
        &mut self,
        response: &HttpResponse,
        is_parsing_successful: bool,
        duration_millis: u64,
    )
        requires
            old(self).wf(),
        ensures
            final(self).wf(),
            final(self)@ == old(self)@.with_task(*response, is_parsing_successful, duration_millis),
    {
        if response.retry_count > 0 {
            let history = &response.retry_history;
            let mut i: usize = 0;
            while i < history.len()
                invariant
                    i <= history@.len(),
                    self.wf(),
                    self@ == old(self)@.with_history(history@.subrange(0, i as int)),
                decreases history@.len() - i,
            {
                proof {
                    let next = history@.subrange(0, i + 1);
                    assert(next.drop_last() =~= history@.subrange(0, i as int));
                }
                self.record_retries(history.key_at(i), *history.value_at(i));
                i += 1;
            }
            assert(history@.subrange(0, i as int) =~= history@);
        }
        if !is_parsing_successful {
            self.record_error(ErrorType::Parsing);
        }
        let size = response.decoded_body.as_str().len();
        self.record_request(response.status, size, duration_millis, is_parsing_successful);
    }

    /// A copy of the counters, stamped with the time the crawl has taken.
    pub fn get_stats(&self, duration: Delay) -> (stats: ScrapingStats)
        requires
            self.wf(),
        ensures
            stats@ == self@,
            stats.duration == duration,
            stats.retry_reasons.wf(),
    {
        let mut reasons: Table<String, u64> = Table::new();
        let mut i: usize = 0;
        while i < self.retry_reasons.len()
            invariant
                i <= self.retry_reasons@.len(),
                reasons@ == self.retry_reasons@.subrange(0, i as int),
            decreases self.retry_reasons@.len() - i,
        {
            reasons.push_entry(self.retry_reasons.key_at(i).clone(), *self.retry_reasons.value_at(i));
            i += 1;
        }
        assert(reasons@ =~= self.retry_reasons@);
        ScrapingStats {
            duration,
            total_requests: self.total_requests,
            successful_requests: self.successful_requests,
            failed_requests: self.failed_requests,
            retry_count: self.retry_count,
            data_downloaded: self.data_downloaded,
            total_response_time: self.total_response_time,
            status_codes: self.status_codes.clone(),
            retry_reasons: reasons,
            storage_errors: self.storage_errors,
            parsing_errors: self.parsing_errors,
            unhandled_errors: self.unhandled_errors,
        }
    }
}

impl Default for StatsTracker {
    fn default() -> (stats: Self)
        ensures
            stats.wf(),
            stats@ == Tally::zero(),
    {
        StatsTracker::new()
    }
}

} // verus!
