//! The run coordinator: one end-to-end execution. Drives the dispatcher
//! over every record, collects the outcomes, and applies the failure policy
//! that decides whether one failed record aborts the whole run.

use vstd::prelude::*;
use crate::address::{Address, AddressView, enriched, valid_query};
use crate::dispatch::{Dispatcher, StartAction};
use crate::geocoding::{
    GeocodingError, GeocodingErrorView, ProviderReply, ReplyView, lookup_with_reply, outcome_view,
};

verus! {

/// Whether one failed record aborts the whole run (`Strict`) or only drops
/// that record from the output (`Lenient`).
#[derive(Clone, Copy, PartialEq, Eq, Structural, Debug)]
pub enum FailurePolicy {
    Strict,
    Lenient,
}

/// The successes among the first `n` records' outcomes, in input order.
pub open spec fn successes_upto(qs: Seq<AddressView>, rs: Seq<ReplyView>, n: int) -> Seq<
    AddressView,
>
    decreases n,
{
    if n <= 0 {
        Seq::empty()
    } else {
        let pre = successes_upto(qs, rs, n - 1);
        match outcome_view(qs[n - 1], rs[n - 1]) {
            Ok(a) => pre.push(a),
            Err(_) => pre,
        }
    }
}

/// The failures among the first `n` records' outcomes, each under its
/// record's input index, in input order.
pub open spec fn failures_upto(qs: Seq<AddressView>, rs: Seq<ReplyView>, n: int) -> Seq<
    (usize, GeocodingErrorView),
>
    decreases n,
{
    if n <= 0 {
        Seq::empty()
    } else {
        let pre = failures_upto(qs, rs, n - 1);
        match outcome_view(qs[n - 1], rs[n - 1]) {
            Ok(_) => pre,
            Err(e) => pre.push((((n - 1) as usize), e)),
        }
    }
}

/// What one whole run returns: under `Strict`, the first failure when there
/// is any, else all successes; under `Lenient`, always exactly the
/// successes.
pub open spec fn run_view(
    qs: Seq<AddressView>,
    rs: Seq<ReplyView>,
    policy: FailurePolicy,
) -> Result<Seq<AddressView>, GeocodingErrorView>
    recommends
        qs.len() == rs.len(),
{
    let errs = failures_upto(qs, rs, qs.len() as int);
    if policy == FailurePolicy::Strict && errs.len() > 0 {
        Err(errs[0].1)
    } else {
        Ok(successes_upto(qs, rs, qs.len() as int))
    }
}

/// The failure-policy gate. Under `Strict` a non-empty error collection
/// fails the run with the first error collected and no output; otherwise
/// the collected results pass through unchanged.
pub fn apply_policy(
    policy: FailurePolicy,
    results: Vec<Address>,
    errors: &Vec<(usize, GeocodingError)>,
) -> (r: Result<Vec<Address>, GeocodingError>)
    ensures
        policy == FailurePolicy::Strict && errors@.len() > 0 ==> (r matches Err(e) && e
            == errors@[0].1),
        !(policy == FailurePolicy::Strict && errors@.len() > 0) ==> (r matches Ok(v) && v
            == results),
{
    match policy {
        FailurePolicy::Strict => {
            if errors.len() > 0 {
                let first = &errors[0];
                Err(first.1.clone())
            } else {
                Ok(results)
            }
        },
        FailurePolicy::Lenient => Ok(results),
    }
}

/// One whole run, decided from the records and one provider reply per
/// record. The reply vector stands for what the provider answers each
/// query; the network calls themselves happen outside. The result is a
/// function of the inputs alone, which is what makes a re-run over the same
/// input and the same replies return the identical value.
pub fn run_with_replies(
    queries: Vec<Address>,
    limit: usize,
    replies: &Vec<ProviderReply>,
    policy: FailurePolicy,
) -> (r: Result<Vec<Address>, GeocodingError>)
    requires
        limit >= 1,
        replies@.len() == queries@.len(),
    ensures
        ({
            let o = run_view(queries.deep_view(), replies.deep_view(), policy);
            match r {
                Ok(v) => o matches Ok(sv) && v.deep_view() == sv,
                Err(e) => o matches Err(ev) && e.deep_view() == ev,
            }
        }),
{
    let ghost qs = queries.deep_view();
    let ghost rs = replies.deep_view();
    let n = queries.len();
    let mut d = Dispatcher::new(queries, limit);
    loop
        invariant
            d.wf(),
            d.in_flight == 0,
            d.n() == n,
            d.next <= n,
            qs == d.queries.deep_view(),
            rs == replies.deep_view(),
            rs.len() == n,
            d.results.deep_view() == successes_upto(qs, rs, d.next as int),
            d.errors.deep_view() == failures_upto(qs, rs, d.next as int),
        ensures
            d.wf(),
            d.next == n,
            d.results.deep_view() == successes_upto(qs, rs, n as int),
            d.errors.deep_view() == failures_upto(qs, rs, n as int),
        decreases n - d.next,
    {
        let ghost pre_results = d.results.deep_view();
        let ghost pre_errors = d.errors.deep_view();
        match d.try_start() {
            StartAction::Exhausted => {
                break;
            },
            StartAction::Saturated => {
                proof {
                    assert(false);
                }
            },
            StartAction::Rejected(i) => {
                proof {
                    assert(qs[i as int] == d.queries@[i as int]@);
                    assert(d.errors.deep_view() =~= pre_errors.push(
                        (i, GeocodingErrorView::InvalidQuery),
                    ));
                }
            },
            StartAction::Started(i, _q) => {
                let out = lookup_with_reply(d.query_at(i), &replies[i]);
                let ghost out_v = out;
                proof {
                    assert(qs[i as int] == d.queries@[i as int]@);
                    assert(rs[i as int] == replies@[i as int].deep_view());
                    match out_v {
                        Ok(a) => {
                            assert(enriched(a@));
                        },
                        Err(_) => {},
                    }
                }
                d.complete(i, out);
                proof {
                    match out_v {
                        Ok(a) => {
                            assert(d.results.deep_view() =~= pre_results.push(a@));
                        },
                        Err(e) => {
                            assert(d.errors.deep_view() =~= pre_errors.push((i, e.deep_view())));
                        },
                    }
                }
            },
        }
    }
    let (results, errors) = d.into_outcomes();
    proof {
        if policy == FailurePolicy::Strict && errors@.len() > 0 {
            assert(errors.deep_view()[0] == (errors@[0].0, errors@[0].1.deep_view()));
        }
    }
    apply_policy(policy, results, &errors)
}

/// A record that cannot form a valid query yields `InvalidQuery` whatever
/// the provider would have answered: the outcome does not depend on the
/// reply, so no call need ever be made for it.
pub proof fn lemma_invalid_query_outcome(q: AddressView, rep: ReplyView)
    requires
        !valid_query(q),
    ensures
        outcome_view(q, rep) == Err::<AddressView, GeocodingErrorView>(
            GeocodingErrorView::InvalidQuery,
        ),
{
}

proof fn lemma_failure_recorded(qs: Seq<AddressView>, rs: Seq<ReplyView>, i: int, n: int)
    requires
        0 <= i < n <= qs.len(),
        qs.len() == rs.len(),
        outcome_view(qs[i], rs[i]) is Err,
    ensures
        failures_upto(qs, rs, n).len() > 0,
    decreases n,
{
    if i < n - 1 {
        lemma_failure_recorded(qs, rs, i, n - 1);
    }
}

/// In strict mode the run is all-or-nothing: if any single record's outcome
/// is a failure, the whole run fails and zero records appear in the output.
pub proof fn lemma_strict_all_or_nothing(qs: Seq<AddressView>, rs: Seq<ReplyView>, i: int)
    requires
        qs.len() == rs.len(),
        0 <= i < qs.len(),
        outcome_view(qs[i], rs[i]) is Err,
    ensures
        run_view(qs, rs, FailurePolicy::Strict) is Err,
{
    lemma_failure_recorded(qs, rs, i, qs.len() as int);
}

proof fn lemma_successes_enriched(qs: Seq<AddressView>, rs: Seq<ReplyView>, n: int)
    ensures
        forall|j: int|
            0 <= j < successes_upto(qs, rs, n).len() ==> enriched(
                #[trigger] successes_upto(qs, rs, n)[j],
            ),
    decreases n,
{
    if n > 0 {
        lemma_successes_enriched(qs, rs, n - 1);
        match outcome_view(qs[n - 1], rs[n - 1]) {
            Ok(a) => {
                assert(enriched(a));
                assert(successes_upto(qs, rs, n) == successes_upto(qs, rs, n - 1).push(a));
                assert(forall|j: int|
                    0 <= j < successes_upto(qs, rs, n - 1).len() ==> successes_upto(qs, rs, n)[j]
                        == #[trigger] successes_upto(qs, rs, n - 1)[j]);
            },
            Err(_) => {
                assert(successes_upto(qs, rs, n) == successes_upto(qs, rs, n - 1));
            },
        }
    }
}

/// In lenient mode the run always returns exactly the successful subset, in
/// input order, and every returned record carries coordinates.
pub proof fn lemma_lenient_successful_subset(qs: Seq<AddressView>, rs: Seq<ReplyView>)
    requires
        qs.len() == rs.len(),
    ensures
        run_view(qs, rs, FailurePolicy::Lenient) == Ok::<Seq<AddressView>, GeocodingErrorView>(
            successes_upto(qs, rs, qs.len() as int),
        ),
        forall|j: int|
            0 <= j < successes_upto(qs, rs, qs.len() as int).len() ==> enriched(
                #[trigger] successes_upto(qs, rs, qs.len() as int)[j],
            ),
{
    lemma_successes_enriched(qs, rs, qs.len() as int);
}

/// Re-running the pipeline on the same input against the same provider
/// replies returns the identical value: the run is a function of its inputs
/// alone.
pub proof fn lemma_rerun_identical(
    qs: Seq<AddressView>,
    rs: Seq<ReplyView>,
    policy: FailurePolicy,
    r1: Result<Seq<AddressView>, GeocodingErrorView>,
    r2: Result<Seq<AddressView>, GeocodingErrorView>,
)
    requires
        r1 == run_view(qs, rs, policy),
        r2 == run_view(qs, rs, policy),
    ensures
        r1 == r2,
{
}

} // verus!
