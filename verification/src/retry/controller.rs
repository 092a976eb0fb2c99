//! The per-URL, per-category attempt counters and the retry decision.

use crate::delay::Delay;
use crate::errors::ScraperError;
use crate::retry::backoff::{calculate_delay, delay_nanos};
use crate::retry::conditions::{any_condition_holds, category_applies, Observed, Probe};
use crate::retry::types::{CategoryConfig, CategoryId, RetryCategory};
use crate::table::{
    distinct_keys, has_key, key_position, lemma_key_position, lemma_upsert_distinct, lookup,
    upsert, Key, Table,
};
use vstd::prelude::*;

verus! {

/// How often a category has been retried, zero where it has no entry.
pub open spec fn count_of(counts: Seq<(CategoryId, usize)>, id: CategoryId) -> nat {
    match lookup(counts, id) {
        Some(n) => n as nat,
        None => 0,
    }
}

/// The sum of all counts.
pub open spec fn sum_counts(counts: Seq<(CategoryId, usize)>) -> nat
    decreases counts.len(),
{
    if counts.len() == 0 {
        0
    } else {
        sum_counts(counts.drop_last()) + counts.last().1 as nat
    }
}

/// Replacing one count changes the sum by the difference.
pub proof fn lemma_sum_update(
    counts: Seq<(CategoryId, usize)>,
    at: int,
    entry: (CategoryId, usize),
)
    requires
        0 <= at < counts.len(),
    ensures
        sum_counts(counts.update(at, entry)) + counts[at].1 == sum_counts(counts) + entry.1,
    decreases counts.len(),
{
    let after = counts.update(at, entry);
    if at == counts.len() - 1 {
        assert(after.drop_last() =~= counts.drop_last());
    } else {
        assert(after.drop_last() =~= counts.drop_last().update(at, entry));
        lemma_sum_update(counts.drop_last(), at, entry);
    }
}

/// Counting one more retry for `id` raises the sum by one.
pub proof fn lemma_sum_after_increment(counts: Seq<(CategoryId, usize)>, id: CategoryId)
    requires
        count_of(counts, id) < usize::MAX,
    ensures
        sum_counts(upsert(counts, id, (count_of(counts, id) + 1) as usize)) == sum_counts(counts)
            + 1,
        count_of(upsert(counts, id, (count_of(counts, id) + 1) as usize), id) == count_of(
            counts,
            id,
        ) + 1,
{
    let next = (count_of(counts, id) + 1) as usize;
    let at = key_position(counts, id);
    lemma_key_position(counts, id);
    let after = upsert(counts, id, next);
    lemma_key_position(after, id);
    if at < counts.len() {
        lemma_sum_update(counts, at, (id, next));
        assert(after[at].0 == id);
    } else {
        assert(after.drop_last() =~= counts);
    }
}

/// The retries made so far for one URL.
#[derive(Debug, Clone)]
pub struct RetryState {
    pub counts: Table<RetryCategory, usize>,
    pub total_retries: usize,
}

impl RetryState {
    /// The counts have distinct categories and add up to the total.
    pub open spec fn wf(&self) -> bool {
        &&& self.counts.wf()
        &&& self.total_retries == sum_counts(self.counts@)
    }

    pub fn new() -> (state: Self)
        ensures
            state.counts@ == Seq::<(CategoryId, usize)>::empty(),
            state.total_retries == 0,
            state.wf(),
    {
        RetryState { counts: Table::new(), total_retries: 0 }
    }

    /// An independent copy of the state.
    pub fn snapshot(&self) -> (copy: Self)
        ensures
            copy.counts@ == self.counts@,
            copy.total_retries == self.total_retries,
    {
        let mut counts: Table<RetryCategory, usize> = Table::new();
        let mut i: usize = 0;
        while i < self.counts.len()
            invariant
                i <= self.counts@.len(),
                counts@ == self.counts@.subrange(0, i as int),
            decreases self.counts@.len() - i,
        {
            counts.push_entry(self.counts.key_at(i).copy_key(), *self.counts.value_at(i));
            i += 1;
        }
        RetryState { counts, total_retries: self.total_retries }
    }
}

impl Default for RetryState {
    fn default() -> (state: Self)
        ensures
            state.counts@ == Seq::<(CategoryId, usize)>::empty(),
            state.total_retries == 0,
    {
        RetryState::new()
    }
}

/// A category can take the retry: it has attempts left for the URL and one
/// of its conditions holds.
pub open spec fn eligible(
    entry: (CategoryId, CategoryConfig),
    counts: Seq<(CategoryId, usize)>,
    probe: Probe,
) -> bool {
    count_of(counts, entry.0) < entry.1.max_retries && any_condition_holds(
        entry.1.conditions@,
        probe,
    )
}

/// Index of the first category, in insertion order, that can take the retry;
/// the number of categories where none can.
pub open spec fn first_eligible(
    categories: Seq<(CategoryId, CategoryConfig)>,
    counts: Seq<(CategoryId, usize)>,
    probe: Probe,
) -> int
    decreases categories.len(),
{
    if categories.len() == 0 {
        0
    } else if eligible(categories[0], counts, probe) {
        0
    } else {
        1 + first_eligible(categories.drop_first(), counts, probe)
    }
}

/// `first_eligible` points at an eligible category that no eligible one
/// precedes, or past the end where no category is eligible.
pub proof fn lemma_first_eligible(
    categories: Seq<(CategoryId, CategoryConfig)>,
    counts: Seq<(CategoryId, usize)>,
    probe: Probe,
)
    ensures
        0 <= first_eligible(categories, counts, probe) <= categories.len(),
        first_eligible(categories, counts, probe) < categories.len() ==> eligible(
            categories[first_eligible(categories, counts, probe)],
            counts,
            probe,
        ),
        forall|j: int|
            0 <= j < first_eligible(categories, counts, probe) ==> !eligible(
                #[trigger] categories[j],
                counts,
                probe,
            ),
    decreases categories.len(),
{
    if categories.len() > 0 && !eligible(categories[0], counts, probe) {
        let rest = categories.drop_first();
        lemma_first_eligible(rest, counts, probe);
        assert forall|j: int| 0 <= j < 1 + first_eligible(rest, counts, probe) implies !eligible(
            #[trigger] categories[j],
            counts,
            probe,
        ) by {
            if j > 0 {
                assert(rest[j - 1] == categories[j]);
            }
        }
    }
}

/// The retries that a category still allows, given the counts of a URL.
pub open spec fn remaining(
    entry: (CategoryId, CategoryConfig),
    counts: Seq<(CategoryId, usize)>,
) -> nat {
    let used = count_of(counts, entry.0);
    if used < entry.1.max_retries {
        (entry.1.max_retries - used) as nat
    } else {
        0
    }
}

/// The retries that the rules still allow in all, given the counts of a
/// URL.
pub open spec fn budget(
    rules: Seq<(CategoryId, CategoryConfig)>,
    counts: Seq<(CategoryId, usize)>,
) -> nat
    decreases rules.len(),
{
    if rules.len() == 0 {
        0
    } else {
        budget(rules.drop_last(), counts) + remaining(rules.last(), counts)
    }
}

/// Counting a retry for a category that is not among the rules leaves the
/// budget as it is.
proof fn lemma_budget_untouched(
    rules: Seq<(CategoryId, CategoryConfig)>,
    counts: Seq<(CategoryId, usize)>,
    id: CategoryId,
    count: usize,
)
    requires
        distinct_keys(counts),
        !has_key(rules, id),
    ensures
        budget(rules, upsert(counts, id, count)) == budget(rules, counts),
    decreases rules.len(),
{
    if rules.len() > 0 {
        let front = rules.drop_last();
        assert(!has_key(front, id)) by {
            if has_key(front, id) {
                let i = choose|i: int| 0 <= i < front.len() && (#[trigger] front[i]).0 == id;
            }
        }
        lemma_budget_untouched(front, counts, id, count);
        lemma_upsert_distinct(counts, id, count);
    }
}

/// Counting one more retry for a category that has retries left takes one
/// from the budget.
pub proof fn lemma_budget_step(
    rules: Seq<(CategoryId, CategoryConfig)>,
    counts: Seq<(CategoryId, usize)>,
    at: int,
)
    requires
        distinct_keys(rules),
        distinct_keys(counts),
        0 <= at < rules.len(),
        count_of(counts, rules[at].0) < rules[at].1.max_retries,
    ensures
        budget(
            rules,
            upsert(counts, rules[at].0, (count_of(counts, rules[at].0) + 1) as usize),
        ) + 1 == budget(rules, counts),
    decreases rules.len(),
{
    let id = rules[at].0;
    let next = (count_of(counts, id) + 1) as usize;
    let front = rules.drop_last();
    lemma_upsert_distinct(counts, id, next);
    if at == rules.len() - 1 {
        assert(!has_key(front, id)) by {
            if has_key(front, id) {
                let i = choose|i: int| 0 <= i < front.len() && (#[trigger] front[i]).0 == id;
            }
        }
        lemma_budget_untouched(front, counts, id, next);
    } else {
        assert(distinct_keys(front)) by {
            assert forall|i: int, j: int|
                0 <= i < front.len() && 0 <= j < front.len() && i != j implies (
            #[trigger] front[i]).0 != (#[trigger] front[j]).0 by {}
        }
        lemma_budget_step(front, counts, at);
    }
}

/// The retry rules and, for every URL seen, the retries made so far.
#[derive(Debug, Clone)]
pub struct RetryConfig {
    categories: Table<RetryCategory, CategoryConfig>,
    retry_states: Table<String, RetryState>,
}

/// What the controller grants: the category that takes the retry and the
/// time to wait first.
pub struct Granted {
    pub category: CategoryId,
    pub delay_nanos: nat,
    /// The attempts that the category has made for the URL, this one
    /// included.
    pub attempt: nat,
    /// The attempts that the category allows.
    pub max_retries: usize,
}

impl RetryConfig {
    /// The categories with their rules, in insertion order.
    pub closed spec fn rules(&self) -> Seq<(CategoryId, CategoryConfig)> {
        self.categories@
    }

    /// The states by URL, in the order in which the URLs were first seen.
    pub closed spec fn states(&self) -> Seq<(Seq<char>, RetryState)> {
        self.retry_states@
    }

    /// The counts recorded for `url`; none for a URL not seen.
    pub open spec fn counts(&self, url: Seq<char>) -> Seq<(CategoryId, usize)> {
        match lookup(self.states(), url) {
            Some(state) => state.counts@,
            None => Seq::empty(),
        }
    }

    /// The number of retries recorded for `url`.
    pub open spec fn total(&self, url: Seq<char>) -> nat {
        match lookup(self.states(), url) {
            Some(state) => state.total_retries as nat,
            None => 0,
        }
    }

    /// Categories and URLs are distinct, and every URL's counts are distinct
    /// by category and add up to its total.
    pub open spec fn wf(&self) -> bool {
        &&& distinct_keys(self.rules())
        &&& distinct_keys(self.states())
        &&& forall|i: int| 0 <= i < self.states().len() ==> (#[trigger] self.states()[i]).1.wf()
    }

    /// No URL has more retries recorded in a category than the category
    /// allows.
    pub open spec fn within_limits(&self) -> bool {
        forall|url: Seq<char>, i: int|
            0 <= i < self.rules().len() ==> count_of(
                #[trigger] self.counts(url),
                (#[trigger] self.rules()[i]).0,
            ) <= self.rules()[i].1.max_retries
    }

    /// The category, by its index, that takes a retry for `url` on `probe`:
    /// the first eligible one, as long as the URL's total can still grow.
    pub open spec fn choice(&self, url: Seq<char>, probe: Probe) -> Option<int> {
        let at = first_eligible(self.rules(), self.counts(url), probe);
        if at < self.rules().len() && self.total(url) < usize::MAX {
            Some(at)
        } else {
            None
        }
    }

    /// What is granted for `url` on `probe`, if anything: the chosen
    /// category, with the delay for its attempts so far.
    pub open spec fn grant(&self, url: Seq<char>, probe: Probe) -> Option<Granted> {
        match self.choice(url, probe) {
            Some(at) => Some(
                Granted {
                    category: self.rules()[at].0,
                    delay_nanos: delay_nanos(
                        self.rules()[at].1,
                        count_of(self.counts(url), self.rules()[at].0),
                    ),
                    attempt: count_of(self.counts(url), self.rules()[at].0) + 1,
                    max_retries: self.rules()[at].1.max_retries,
                },
            ),
            None => None,
        }
    }

    /// The counts for `url` after the decision on `probe`: one more for the
    /// granted category, unchanged where nothing is granted.
    pub open spec fn counts_after(&self, url: Seq<char>, probe: Probe) -> Seq<(CategoryId, usize)> {
        match self.grant(url, probe) {
            Some(granted) => upsert(
                self.counts(url),
                granted.category,
                (count_of(self.counts(url), granted.category) + 1) as usize,
            ),
            None => self.counts(url),
        }
    }

    /// The total for `url` after the decision on `probe`.
    pub open spec fn total_after(&self, url: Seq<char>, probe: Probe) -> nat {
        match self.grant(url, probe) {
            Some(_) => self.total(url) + 1,
            None => self.total(url),
        }
    }

    /// The relation between the controller before and after a decision for
    /// `url` on `probe`: the rules stay, `url` gets the new counts and total,
    /// and no other URL changes.
    pub open spec fn decided(&self, before: &RetryConfig, url: Seq<char>, probe: Probe) -> bool {
        &&& self.rules() == before.rules()
        &&& self.counts(url) == before.counts_after(url, probe)
        &&& self.total(url) == before.total_after(url, probe)
        &&& forall|other: Seq<char>|
            other != url ==> #[trigger] self.counts(other) == before.counts(other) && self.total(
                other,
            ) == before.total(other)
    }

    pub fn new() -> (config: Self)
        ensures
            config.rules().len() == 0,
            config.states().len() == 0,
            config.wf(),
            config.within_limits(),
    {
        RetryConfig { categories: Table::new(), retry_states: Table::new() }
    }

    /// Stores the rules of `category`. A category that is present keeps its
    /// place in the order; a new one goes to the end. The counters stay, and
    /// with them the limits as long as no URL has already been retried in
    /// this category more often than the new rules allow.
    pub fn insert_category(&mut self, category: RetryCategory, config: CategoryConfig)
        requires
            old(self).wf(),
        ensures
            final(self).wf(),
            final(self).rules() == upsert(old(self).rules(), category@, config),
            final(self).states() == old(self).states(),
            (old(self).within_limits() && forall|url: Seq<char>|
                count_of(#[trigger] old(self).counts(url), category@) <= config.max_retries)
                ==> final(self).within_limits(),
    {
        let ghost before = *self;
        proof {
            lemma_upsert_distinct(self.rules(), category@, config);
            lemma_key_position(self.rules(), category@);
        }
        self.categories.insert(category, config);
        proof {
            let after = self.rules();
            let at = key_position(before.rules(), category@);
            if before.within_limits() && (forall|url: Seq<char>|
                count_of(#[trigger] before.counts(url), category@) <= config.max_retries) {
                assert forall|url: Seq<char>, i: int| 0 <= i < after.len() implies count_of(
                    #[trigger] self.counts(url),
                    (#[trigger] after[i]).0,
                ) <= after[i].1.max_retries by {
                    assert(self.counts(url) == before.counts(url));
                }
            }
        }
    }

    /// Every grant takes one from the URL's budget: a URL is granted at
    /// most as many retries as its budget holds, whatever is observed.
    pub proof fn lemma_grant_spends_budget(&self, url: Seq<char>, probe: Probe)
        requires
            self.wf(),
            self.grant(url, probe) is Some,
        ensures
            budget(self.rules(), self.counts_after(url, probe)) + 1 == budget(
                self.rules(),
                self.counts(url),
            ),
    {
        let at = first_eligible(self.rules(), self.counts(url), probe);
        lemma_first_eligible(self.rules(), self.counts(url), probe);
        self.lemma_total(url);
        lemma_budget_step(self.rules(), self.counts(url), at);
    }

    /// A URL's total is the sum of its counts, and its counts are distinct
    /// by category.
    pub proof fn lemma_total(&self, url: Seq<char>)
        requires
            self.wf(),
        ensures
            self.total(url) == sum_counts(self.counts(url)),
            distinct_keys(self.counts(url)),
    {
        lemma_key_position(self.states(), url);
        let at = key_position(self.states(), url);
        if at < self.states().len() {
            assert(self.states()[at].1.wf());
        }
    }

    /// What a grant promises: its category is one of the rules, found under
    /// its own name; the attempt it counts is within the category's limit;
    /// and the delay is within the category's maximum.
    pub proof fn lemma_grant(&self, url: Seq<char>, probe: Probe)
        requires
            self.wf(),
        ensures
            self.grant(url, probe) matches Some(g) ==> {
                &&& self.choice(url, probe) matches Some(at)
                &&& 0 <= at < self.rules().len()
                &&& lookup(self.rules(), g.category) == Some(self.rules()[at].1)
                &&& g.attempt <= g.max_retries
                &&& g.delay_nanos <= self.rules()[at].1.max_delay.nanos
                &&& g.attempt == count_of(self.counts_after(url, probe), g.category)
                &&& any_condition_holds(self.rules()[at].1.conditions@, probe)
            },
    {
        if self.grant(url, probe) is Some {
            let at = first_eligible(self.rules(), self.counts(url), probe);
            lemma_first_eligible(self.rules(), self.counts(url), probe);
            let id = self.rules()[at].0;
            lemma_key_position(self.rules(), id);
            lemma_sum_after_increment(self.counts(url), id);
        }
    }

    /// The categories with their rules, in insertion order.
    pub fn categories(&self) -> (table: &Table<RetryCategory, CategoryConfig>)
        ensures
            table@ == self.rules(),
    {
        &self.categories
    }

    /// The state recorded for `url`, taken out of the table, with the place
    /// it came from; a fresh state and the table's length for a new URL.
    fn take_state(&mut self, url: &String) -> (taken: (usize, RetryState))
        requires
            old(self).wf(),
        ensures
            final(self).wf(),
            final(self).categories == old(self).categories,
            final(self).rules() == old(self).rules(),
            taken.0 == key_position(old(self).states(), url@),
            taken.0 <= old(self).states().len(),
            final(self).states().len() == old(self).states().len(),
            taken.1.wf(),
            taken.1.counts@ == old(self).counts(url@),
            taken.1.total_retries == old(self).total(url@),
            forall|i: int|
                0 <= i < old(self).states().len() && i != taken.0 ==> final(self).states()[i]
                    == old(self).states()[i],
            taken.0 < old(self).states().len() ==> final(self).states()[taken.0 as int].0
                == url@,
    {
        let at = self.retry_states.position(url);
        proof {
            lemma_key_position(self.states(), url@);
        }
        if at < self.retry_states.len() {
            let state = self.retry_states.replace_value_at(at, RetryState::new());
            (at, state)
        } else {
            (at, RetryState::new())
        }
    }

    /// Index of the first category that can take a retry, given the counts
    /// of the URL in question; the number of categories where none can.
    fn find_category(
        &self,
        counts: &Table<RetryCategory, usize>,
        observed: &Observed<'_>,
    ) -> (at: usize)
        ensures
            at == first_eligible(self.rules(), counts@, observed@),
            at <= self.rules().len(),
    {
        let ghost probe = observed@;
        proof {
            lemma_first_eligible(self.rules(), counts@, probe);
        }
        let mut i: usize = 0;
        while i < self.categories.len()
            invariant
                i <= self.rules().len(),
                probe == observed@,
                forall|j: int|
                    0 <= j < i ==> !eligible(#[trigger] self.rules()[j], counts@, probe),
            ensures
                i <= self.rules().len(),
                forall|j: int|
                    0 <= j < i ==> !eligible(#[trigger] self.rules()[j], counts@, probe),
                i < self.rules().len() ==> eligible(self.rules()[i as int], counts@, probe),
            decreases self.rules().len() - i,
        {
            let category = self.categories.key_at(i);
            let config = self.categories.value_at(i);
            let current: usize = match counts.get(category) {
                Some(n) => *n,
                None => 0,
            };
            if current < config.max_retries && category_applies(config, observed) {
                break;
            }
            i += 1;
        }
        i
    }

    /// Puts `state` back for `url` at the place `at` it was taken from, or
    /// at the end for a new URL.
    fn put_state(&mut self, url: String, at: usize, state: RetryState)
        requires
            old(self).wf(),
            state.wf(),
            at == key_position(old(self).states(), url@),
        ensures
            final(self).wf(),
            final(self).rules() == old(self).rules(),
            final(self).counts(url@) == state.counts@,
            final(self).total(url@) == state.total_retries,
            forall|other: Seq<char>|
                other != url@ ==> #[trigger] lookup(final(self).states(), other) == lookup(
                    old(self).states(),
                    other,
                ),
    {
        let ghost before = self.states();
        proof {
            lemma_key_position(before, url@);
            lemma_upsert_distinct(before, url@, state);
        }
        if at < self.retry_states.len() {
            let _ = self.retry_states.replace_value_at(at, state);
        } else {
            self.retry_states.insert(url, state);
        }
        assert forall|j: int| 0 <= j < self.states().len() implies (
        #[trigger] self.states()[j]).1.wf() by {}
    }

    /// Decides whether what was observed for `url` is retried, and counts
    /// the retry where it is. A URL gets a state of its own with its first
    /// retry.
    fn decide(&mut self, url: &str, observed: &Observed<'_>) -> (granted: Option<
        (RetryCategory, Delay),
    >)
        requires
            old(self).wf(),
        ensures
            final(self).wf(),
            final(self).decided(old(self), url@, observed@),
            match old(self).grant(url@, observed@) {
                Some(g) => granted matches Some((category, delay)) && category@ == g.category
                    && delay.nanos == g.delay_nanos,
                None => granted is None,
            },
            old(self).within_limits() ==> final(self).within_limits(),
    {
        let key = url.to_owned();
        let ghost before = *self;
        let ghost probe = observed@;
        let (at, mut state) = self.take_state(&key);
        let ghost counts = state.counts@;
        let ghost mid = *self;
        let found = self.find_category(&state.counts, observed);
        proof {
            lemma_first_eligible(self.rules(), counts, probe);
        }
        let mut granted: Option<(RetryCategory, Delay)> = None;
        if found < self.categories.len() && state.total_retries < usize::MAX {
            let category = self.categories.key_at(found);
            let config = self.categories.value_at(found);
            let current: usize = match state.counts.get(category) {
                Some(n) => *n,
                None => 0,
            };
            proof {
                lemma_sum_after_increment(counts, category@);
            }
            let delay = calculate_delay(config, current);
            state.counts.insert(category.copy_key(), current + 1);
            state.total_retries = state.total_retries + 1;
            granted = Some((category.copy_key(), delay));
        }
        proof {
            lemma_key_position(before.states(), url@);
            lemma_key_position(mid.states(), url@);
        }
        if at < self.retry_states.len() || granted.is_some() {
            self.put_state(key, at, state);
        }
        proof {
            assert forall|other: Seq<char>| other != url@ implies #[trigger] self.counts(other)
                == before.counts(other) && self.total(other) == before.total(other) by {
                lemma_key_position(before.states(), other);
                lemma_key_position(mid.states(), other);
            }
            if before.within_limits() {
                assert forall|u: Seq<char>, k: int| 0 <= k < self.rules().len() implies count_of(
                    #[trigger] self.counts(u),
                    (#[trigger] self.rules()[k]).0,
                ) <= self.rules()[k].1.max_retries by {
                    assert(count_of(before.counts(u), before.rules()[k].0)
                        <= before.rules()[k].1.max_retries);
                    if u == url@ && granted is Some {
                        let chosen = self.rules()[found as int].0;
                        lemma_upsert_distinct(
                            counts,
                            chosen,
                            (count_of(counts, chosen) + 1) as usize,
                        );
                        lemma_sum_after_increment(counts, chosen);
                    }
                }
            }
        }
        granted
    }

    /// Whether the response with `status` and body `content` for `url` is
    /// retried: the first category, in insertion order, that has attempts
    /// left for the URL and a request condition that holds takes the retry,
    /// its count and the URL's total go up by one, and the delay is that of
    /// the attempts made before.
    pub fn should_retry_request(&mut self, url: &str, status: u16, content: &str) -> (granted:
        Option<(RetryCategory, Delay)>)
        requires
            old(self).wf(),
        ensures
            final(self).wf(),
            final(self).decided(old(self), url@, Probe::Response { status, content: content@ }),
            match old(self).grant(url@, Probe::Response { status, content: content@ }) {
                Some(g) => granted matches Some((category, delay)) && category@ == g.category
                    && delay.nanos == g.delay_nanos,
                None => granted is None,
            },
            old(self).within_limits() ==> final(self).within_limits(),
    {
        let observed = Observed::Response { status, content };
        self.decide(url, &observed)
    }

    /// `should_retry_request` under its shorter name.
    pub fn should_retry(&mut self, url: &str, status: u16, content: &str) -> (granted: Option<
        (RetryCategory, Delay),
    >)
        requires
            old(self).wf(),
        ensures
            final(self).wf(),
            final(self).decided(old(self), url@, Probe::Response { status, content: content@ }),
            match old(self).grant(url@, Probe::Response { status, content: content@ }) {
                Some(g) => granted matches Some((category, delay)) && category@ == g.category
                    && delay.nanos == g.delay_nanos,
                None => granted is None,
            },
            old(self).within_limits() ==> final(self).within_limits(),
    {
        self.should_retry_request(url, status, content)
    }

    /// Whether the failure `error` raised for `url` is retried; as
    /// `should_retry_request`, with the parse conditions.
    pub fn should_retry_parse(&mut self, url: &str, error: &ScraperError) -> (granted: Option<
        (RetryCategory, Delay),
    >)
        requires
            old(self).wf(),
        ensures
            final(self).wf(),
            final(self).decided(old(self), url@, Probe::Failure(error.failure())),
            match old(self).grant(url@, Probe::Failure(error.failure())) {
                Some(g) => granted matches Some((category, delay)) && category@ == g.category
                    && delay.nanos == g.delay_nanos,
                None => granted is None,
            },
            old(self).within_limits() ==> final(self).within_limits(),
    {
        let observed = Observed::Failure(error);
        self.decide(url, &observed)
    }

    /// A copy of the state recorded for `url`; the empty state for a URL
    /// not seen.
    pub fn get_retry_state(&self, url: &str) -> (state: RetryState)
        requires
            self.wf(),
        ensures
            state.counts@ == self.counts(url@),
            state.total_retries == self.total(url@),
            state.wf(),
    {
        let key = url.to_owned();
        let at = self.retry_states.position(&key);
        proof {
            lemma_key_position(self.states(), url@);
        }
        if at < self.retry_states.len() {
            self.retry_states.value_at(at).snapshot()
        } else {
            RetryState::new()
        }
    }
}

impl Default for RetryConfig {
    fn default() -> (config: Self)
        ensures
            config.rules().len() == 0,
            config.states().len() == 0,
            config.wf(),
            config.within_limits(),
    {
        RetryConfig::new()
    }
}

} // verus!
