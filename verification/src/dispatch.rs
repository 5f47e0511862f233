//! The bounded dispatcher: the state machine that fans N lookups out under a
//! hard cap of K simultaneous calls and collects exactly one outcome per
//! record, losing and duplicating none.
//!
//! The machine itself makes no provider call. A caller asks it what to do
//! next (`try_start`) and reports each lookup's outcome back (`complete`);
//! the machine's invariant keeps the number of in-flight lookups at or below
//! the limit at every step.

use vstd::prelude::*;
use vstd::pervasive::unreached;
use crate::address::{Address, enriched, query_string_view, valid_query};
use crate::geocoding::{GeocodingError, validate_query};

verus! {

/// Where one record stands: not yet dispatched, lookup outstanding, or
/// outcome recorded.
#[derive(Clone, Copy, PartialEq, Eq, Structural, Debug)]
pub enum SlotState {
    Pending,
    InFlight,
    Done,
}

/// How many entries of `s` equal `v`.
pub open spec fn count_state(s: Seq<SlotState>, v: SlotState) -> nat
    decreases s.len(),
{
    if s.len() == 0 {
        0
    } else {
        count_state(s.drop_last(), v) + (if s.last() == v {
            1nat
        } else {
            0nat
        })
    }
}

proof fn lemma_count_le_len(s: Seq<SlotState>, v: SlotState)
    ensures
        count_state(s, v) <= s.len(),
    decreases s.len(),
{
    if s.len() > 0 {
        lemma_count_le_len(s.drop_last(), v);
    }
}

proof fn lemma_count_parts(s: Seq<SlotState>)
    ensures
        count_state(s, SlotState::Pending) + count_state(s, SlotState::InFlight) + count_state(
            s,
            SlotState::Done,
        ) == s.len(),
    decreases s.len(),
{
    if s.len() > 0 {
        lemma_count_parts(s.drop_last());
    }
}

proof fn lemma_count_none(s: Seq<SlotState>, v: SlotState)
    requires
        forall|i: int| 0 <= i < s.len() ==> s[i] != v,
    ensures
        count_state(s, v) == 0,
    decreases s.len(),
{
    if s.len() > 0 {
        assert(forall|i: int| 0 <= i < s.drop_last().len() ==> s.drop_last()[i] != v);
        lemma_count_none(s.drop_last(), v);
    }
}

proof fn lemma_count_at_index(s: Seq<SlotState>, i: int, v: SlotState)
    requires
        0 <= i < s.len(),
        s[i] == v,
    ensures
        count_state(s, v) >= 1,
    decreases s.len(),
{
    if i < s.len() - 1 {
        lemma_count_at_index(s.drop_last(), i, v);
    }
}

proof fn lemma_count_update(s: Seq<SlotState>, i: int, x: SlotState, v: SlotState)
    requires
        0 <= i < s.len(),
    ensures
        count_state(s.update(i, x), v) + (if s[i] == v {
            1nat
        } else {
            0nat
        }) == count_state(s, v) + (if x == v {
            1nat
        } else {
            0nat
        }),
    decreases s.len(),
{
    let t = s.update(i, x);
    if i == s.len() - 1 {
        assert(t.drop_last() =~= s.drop_last());
        assert(t.last() == x);
    } else {
        assert(t.drop_last() =~= s.drop_last().update(i, x));
        assert(t.last() == s.last());
        lemma_count_update(s.drop_last(), i, x, v);
    }
}

proof fn lemma_count_pending_prefix(s: Seq<SlotState>, k: int)
    requires
        0 <= k <= s.len(),
        forall|i: int| 0 <= i < k ==> s[i] != SlotState::Pending,
        forall|i: int| k <= i < s.len() ==> s[i] == SlotState::Pending,
    ensures
        count_state(s, SlotState::Pending) == s.len() - k,
    decreases s.len(),
{
    if s.len() > 0 {
        if k == s.len() {
            lemma_count_pending_prefix(s.drop_last(), k - 1);
        } else {
            lemma_count_pending_prefix(s.drop_last(), k);
        }
    }
}

/// What the dispatcher asks its caller to do next.
#[derive(Debug)]
pub enum StartAction {
    /// A concurrency slot was taken for the record at this index: perform
    /// the provider call with this query string, then report back through
    /// `complete`.
    Started(usize, String),
    /// The record at this index cannot form a query: its `InvalidQuery`
    /// outcome was recorded here and now, and no call is to be made.
    Rejected(usize),
    /// All concurrency slots are taken: wait for some lookup to complete.
    Saturated,
    /// Every record has been dispatched: only completions remain.
    Exhausted,
}

/// The fan-out/fan-in engine for one run. `queries` is read-only for the
/// whole run; `results` collects enriched records in completion order;
/// `errors` collects one entry per failed record with the record's input
/// index.
pub struct Dispatcher {
    pub queries: Vec<Address>,
    pub limit: usize,
    pub slots: Vec<SlotState>,
    pub next: usize,
    pub in_flight: usize,
    pub results: Vec<Address>,
    pub errors: Vec<(usize, GeocodingError)>,
}

impl Dispatcher {
    /// How many records this run was given.
    pub open spec fn n(self) -> nat {
        self.queries@.len()
    }

    /// How many outcomes have been recorded so far, successes and errors
    /// together.
    pub open spec fn outcome_count(self) -> nat {
        self.results@.len() + self.errors@.len()
    }

    /// Every record has been dispatched and every lookup has drained.
    pub open spec fn finished(self) -> bool {
        self.next == self.n() && self.in_flight == 0
    }

    /// The dispatcher's invariant. Records are dispatched in input order;
    /// the in-flight counter equals the number of outstanding slots and
    /// never exceeds the limit; each slot that reached `Done` contributed
    /// exactly one outcome; every collected result carries coordinates; no
    /// record owns two error entries.
    pub open spec fn wf(self) -> bool {
        &&& self.limit >= 1
        &&& self.slots@.len() == self.n()
        &&& self.next <= self.n()
        &&& forall|i: int| 0 <= i < self.next ==> self.slots@[i] != SlotState::Pending
        &&& forall|i: int|
            self.next <= i < self.slots@.len() ==> self.slots@[i] == SlotState::Pending
        &&& self.in_flight == count_state(self.slots@, SlotState::InFlight)
        &&& self.in_flight <= self.limit
        &&& self.outcome_count() == count_state(self.slots@, SlotState::Done)
        &&& forall|j: int| 0 <= j < self.results@.len() ==> enriched(#[trigger] self.results@[j]@)
        &&& forall|j: int|
            0 <= j < self.errors@.len() ==> (#[trigger] self.errors@[j]).0 < self.n()
                && self.slots@[self.errors@[j].0 as int] == SlotState::Done
        &&& forall|j1: int, j2: int|
            0 <= j1 < j2 < self.errors@.len() ==> (#[trigger] self.errors@[j1]).0 != (
            #[trigger] self.errors@[j2]).0
    }

    /// A fresh run over the given records under the given concurrency
    /// limit: nothing dispatched, nothing in flight, nothing collected.
    pub fn new(queries: Vec<Address>, limit: usize) -> (d: Dispatcher)
        requires
            limit >= 1,
        ensures
            d.wf(),
            d.queries == queries,
            d.limit == limit,
            d.next == 0,
            d.in_flight == 0,
            d.results@.len() == 0,
            d.errors@.len() == 0,
    {
        let n = queries.len();
        let mut slots: Vec<SlotState> = Vec::new();
        let mut i: usize = 0;
        while i < n
            invariant
                i <= n,
                slots@.len() == i,
                forall|t: int| 0 <= t < i ==> slots@[t] == SlotState::Pending,
            decreases n - i,
        {
            slots.push(SlotState::Pending);
            i += 1;
        }
        proof {
            lemma_count_none(slots@, SlotState::InFlight);
            lemma_count_none(slots@, SlotState::Done);
        }
        Dispatcher {
            queries,
            limit,
            slots,
            next: 0,
            in_flight: 0,
            results: Vec::new(),
            errors: Vec::new(),
        }
    }

    /// One dispatch step. Takes the next record in input order; rejects it
    /// on the spot when it cannot form a query (recording `InvalidQuery`,
    /// taking no slot and asking for no call); otherwise takes a slot when
    /// one is free and hands the caller the query string to send. The
    /// in-flight count never exceeds the limit.
    pub fn try_start(&mut self) -> (action: StartAction)
        requires
            old(self).wf(),
        ensures
            final(self).wf(),
            final(self).queries == old(self).queries,
            final(self).limit == old(self).limit,
            match action {
                StartAction::Exhausted => *final(self) == *old(self) && old(self).next == old(self).n(),
                StartAction::Saturated => *final(self) == *old(self)
                    && old(self).in_flight == old(self).limit && old(self).next < old(self).n()
                    && valid_query(old(self).queries@[old(self).next as int]@),
                StartAction::Rejected(i) => {
                    &&& i == old(self).next
                    &&& i < old(self).n()
                    &&& !valid_query(old(self).queries@[i as int]@)
                    &&& final(self).next == old(self).next + 1
                    &&& final(self).in_flight == old(self).in_flight
                    &&& final(self).results == old(self).results
                    &&& final(self).errors@ == old(self).errors@.push(
                        (i, GeocodingError::InvalidQuery),
                    )
                    &&& final(self).slots@ == old(self).slots@.update(i as int, SlotState::Done)
                },
                StartAction::Started(i, q) => {
                    &&& i == old(self).next
                    &&& i < old(self).n()
                    &&& valid_query(old(self).queries@[i as int]@)
                    &&& q@ == query_string_view(old(self).queries@[i as int]@)
                    &&& final(self).next == old(self).next + 1
                    &&& final(self).in_flight == old(self).in_flight + 1
                    &&& final(self).results == old(self).results
                    &&& final(self).errors == old(self).errors
                    &&& final(self).slots@ == old(self).slots@.update(
                        i as int,
                        SlotState::InFlight,
                    )
                },
            },
    {
        if self.next >= self.queries.len() {
            return StartAction::Exhausted;
        }
        let i = self.next;
        if !validate_query(&self.queries[i]) {
            proof {
                lemma_count_update(self.slots@, i as int, SlotState::Done, SlotState::InFlight);
                lemma_count_update(self.slots@, i as int, SlotState::Done, SlotState::Done);
            }
            self.slots.set(i, SlotState::Done);
            self.errors.push((i, GeocodingError::InvalidQuery));
            self.next = i + 1;
            return StartAction::Rejected(i);
        }
        if self.in_flight >= self.limit {
            return StartAction::Saturated;
        }
        let q = match self.queries[i].get_address_with_site_name() {
            Some(s) => s,
            None => unreached(),
        };
        proof {
            lemma_count_update(self.slots@, i as int, SlotState::InFlight, SlotState::InFlight);
            lemma_count_update(self.slots@, i as int, SlotState::InFlight, SlotState::Done);
        }
        self.slots.set(i, SlotState::InFlight);
        self.in_flight = self.in_flight + 1;
        self.next = i + 1;
        StartAction::Started(i, q)
    }

    /// Records the outcome of the lookup started for `index`: the slot is
    /// released exactly once, a success joins the result collection (it must
    /// carry coordinates), a failure joins the error collection under the
    /// record's index. No other record's outcome is touched.
    pub fn complete(&mut self, index: usize, outcome: Result<Address, GeocodingError>)
        requires
            old(self).wf(),
            index < old(self).n(),
            old(self).slots@[index as int] == SlotState::InFlight,
            outcome matches Ok(a) ==> enriched(a@),
        ensures
            final(self).wf(),
            final(self).queries == old(self).queries,
            final(self).limit == old(self).limit,
            final(self).next == old(self).next,
            final(self).in_flight == old(self).in_flight - 1,
            final(self).slots@ == old(self).slots@.update(index as int, SlotState::Done),
            match outcome {
                Ok(a) => final(self).results@ == old(self).results@.push(a) && final(self).errors
                    == old(self).errors,
                Err(e) => final(self).errors@ == old(self).errors@.push((index, e))
                    && final(self).results == old(self).results,
            },
    {
        proof {
            lemma_count_at_index(self.slots@, index as int, SlotState::InFlight);
            lemma_count_update(self.slots@, index as int, SlotState::Done, SlotState::InFlight);
            lemma_count_update(self.slots@, index as int, SlotState::Done, SlotState::Done);
        }
        self.slots.set(index, SlotState::Done);
        self.in_flight = self.in_flight - 1;
        match outcome {
            Ok(a) => self.results.push(a),
            Err(e) => self.errors.push((index, e)),
        }
    }

    /// Whether every record's outcome has been recorded.
    pub fn is_done(&self) -> (b: bool)
        requires
            self.wf(),
        ensures
            b == (self.outcome_count() == self.n()),
    {
        let n = self.queries.len();
        proof {
            lemma_count_le_len(self.slots@, SlotState::Done);
            assert(self.outcome_count() <= n);
        }
        self.results.len() + self.errors.len() == n
    }

    /// The record at the given input index.
    pub fn query_at(&self, i: usize) -> (q: &Address)
        requires
            i < self.n(),
        ensures
            *q == self.queries@[i as int],
    {
        &self.queries[i]
    }

    /// Hands the run's collections to the caller: the results in completion
    /// order and the per-record errors.
    pub fn into_outcomes(self) -> (r: (Vec<Address>, Vec<(usize, GeocodingError)>))
        ensures
            r.0 == self.results,
            r.1 == self.errors,
    {
        (self.results, self.errors)
    }
}

/// For any N records and any limit K >= 1: a dispatcher that has drained
/// holds exactly N outcomes, and conversely a dispatcher holding N outcomes
/// has drained. At every step it holds at most N.
pub proof fn lemma_exactly_n_outcomes(d: Dispatcher)
    requires
        d.wf(),
    ensures
        d.outcome_count() <= d.n(),
        d.finished() <==> d.outcome_count() == d.n(),
{
    lemma_count_le_len(d.slots@, SlotState::Done);
    lemma_count_parts(d.slots@);
    lemma_count_pending_prefix(d.slots@, d.next as int);
}

/// No more than K lookups are ever in flight: the bound holds of every
/// reachable dispatcher state, for any N and K.
pub proof fn lemma_concurrency_bounded(d: Dispatcher)
    requires
        d.wf(),
    ensures
        d.in_flight <= d.limit,
{
}

} // verus!
