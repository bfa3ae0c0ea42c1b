use vstd::prelude::*;
use crate::progress::{
    after_finish, after_report, completed_of, count_true, initial, lemma_count_all,
    lemma_count_bounded, lemma_count_none, lemma_count_set_one, may_finish, may_report,
    ProgressView,
};
use crate::unit::{stepped, DownloadUnit, UnitAction, UnitEvent, UnitPhase};

verus! {

/// The counter after the units in `units` report, in that order.
pub open spec fn after_reports(p: ProgressView, units: Seq<int>) -> ProgressView
    decreases units.len(),
{
    if units.len() == 0 {
        p
    } else {
        after_report(after_reports(p, units.drop_last()), units.last())
    }
}

proof fn lemma_after_reports_open(n: nat, units: Seq<int>)
    ensures
        after_reports(initial(n), units).reported.len() == n,
        !after_reports(initial(n), units).finished,
        forall|u: int|
            0 <= u < n ==> (#[trigger] after_reports(initial(n), units).reported[u]
                == units.contains(u)),
    decreases units.len(),
{
    if units.len() > 0 {
        let prev = units.drop_last();
        lemma_after_reports_open(n, prev);
        assert forall|u: int| 0 <= u < n implies (#[trigger] after_reports(
            initial(n),
            units,
        ).reported[u] == units.contains(u)) by {
            if units.contains(u) && u != units.last() {
                let k = choose|k: int| 0 <= k < units.len() && units[k] == u;
                assert(prev[k] == u);
            }
            if prev.contains(u) {
                let k = choose|k: int| 0 <= k < prev.len() && prev[k] == u;
                assert(units[k] == u);
            }
            if u == units.last() {
                assert(units[units.len() - 1] == u);
            }
        }
    }
}

/// How many of the reports in `units`, made in that order, the counter accepts.
pub open spec fn accepted_count(p: ProgressView, units: Seq<int>) -> nat
    decreases units.len(),
{
    if units.len() == 0 {
        0
    } else {
        accepted_count(p, units.drop_last()) + if may_report(
            after_reports(p, units.drop_last()),
            units.last(),
        ) {
            1nat
        } else {
            0nat
        }
    }
}

proof fn lemma_count_is_accepted(p: ProgressView, units: Seq<int>)
    requires
        completed_of(p) <= p.reported.len(),
    ensures
        completed_of(after_reports(p, units)) == completed_of(p) + accepted_count(p, units),
    decreases units.len(),
{
    if units.len() > 0 {
        lemma_count_is_accepted(p, units.drop_last());
        law_count_within_total(p, units.drop_last());
        law_counted_at_most_once(after_reports(p, units.drop_last()), units.last());
    }
}

/// A run of `n` units starts at 0 of `n`. When each of the `n` units has
/// reported, in any order and with any repeats, the counter has accepted
/// exactly `n` reports, one per unit, and stands at `n` of `n`; the run can
/// then be closed, and once closed it accepts no further report.
pub proof fn law_all_units_complete(n: nat, units: Seq<int>)
    requires
        forall|u: int| 0 <= u < n ==> units.contains(u),
    ensures
        completed_of(initial(n)) == 0,
        accepted_count(initial(n), units) == n,
        completed_of(after_reports(initial(n), units)) == n,
        may_finish(after_reports(initial(n), units)),
        after_finish(after_reports(initial(n), units)).finished,
        forall|u: int| !may_report(#[trigger] after_finish(after_reports(initial(n), units)), u),
{
    lemma_count_none(n);
    assert(initial(n).reported =~= Seq::new(n, |i: int| false));
    lemma_count_is_accepted(initial(n), units);
    lemma_after_reports_open(n, units);
    let s = after_reports(initial(n), units).reported;
    assert forall|i: int| 0 <= i < s.len() implies #[trigger] s[i] by {
        assert(units.contains(i));
    }
    lemma_count_all(s);
}

/// A report moves the count up by one where it is accepted and leaves it
/// where it is not; the count never passes the total; and a unit that
/// reports a second time changes nothing.
pub proof fn law_counted_at_most_once(p: ProgressView, unit: int)
    requires
        completed_of(p) <= p.reported.len(),
    ensures
        completed_of(after_report(p, unit)) == completed_of(p) + if may_report(p, unit) {
            1nat
        } else {
            0nat
        },
        completed_of(after_report(p, unit)) <= p.reported.len(),
        after_report(after_report(p, unit), unit) == after_report(p, unit),
{
    if may_report(p, unit) {
        lemma_count_set_one(p.reported, unit);
        lemma_count_bounded(p.reported.update(unit, true));
    }
}

/// However many reports arrive, and in whatever order, the count never
/// exceeds the number of units.
pub proof fn law_count_within_total(p: ProgressView, units: Seq<int>)
    ensures
        completed_of(after_reports(p, units)) <= p.reported.len(),
        after_reports(p, units).reported.len() == p.reported.len(),
    decreases units.len(),
{
    if units.len() == 0 {
        lemma_count_bounded(p.reported);
    } else {
        law_count_within_total(p, units.drop_last());
        law_counted_at_most_once(after_reports(p, units.drop_last()), units.last());
    }
}

/// One unit's report neither uses up nor adds to another unit's report.
pub proof fn law_reports_independent(p: ProgressView, i: int, j: int)
    requires
        i != j,
    ensures
        may_report(after_report(p, i), j) == may_report(p, j),
{
}

/// A unit whose identifier resolves to a video with a stream, and whose
/// download succeeds, reports success under that video's title. Its steps
/// read nothing but its own request and events, so no other unit's failure
/// can change this.
pub proof fn law_resolvable_unit_succeeds(
    u0: DownloadUnit,
    title: String,
    u1: DownloadUnit,
    a1: UnitAction,
    u2: DownloadUnit,
    a2: UnitAction,
)
    requires
        u0.phase is Resolving,
        stepped(u0, UnitEvent::Resolved { title, stream_available: true }, u1, a1),
        stepped(u1, UnitEvent::Downloaded, u2, a2),
    ensures
        a2 matches UnitAction::Report { outcome } && outcome.error is None && outcome.title
            == Some(title) && outcome.identifier == u0.request.identifier,
        u2.phase is Done,
{
}

/// Whether `ev` is an answer to the action `a`.
pub open spec fn answers(a: UnitAction, ev: UnitEvent) -> bool {
    match a {
        UnitAction::Resolve { .. } => ev is Resolved || ev is ResolveFailed,
        UnitAction::Download { .. } => ev is Downloaded || ev is DownloadFailed,
        _ => false,
    }
}

/// A unit whose actions are answered reports its outcome, success or
/// failure: at once when resolution fails or finds no stream, else after the
/// download is answered. With the law below, every unit of a run makes
/// exactly one report.
pub proof fn law_unit_reaches_report(
    u0: DownloadUnit,
    a0: UnitAction,
    ev1: UnitEvent,
    u1: DownloadUnit,
    a1: UnitAction,
)
    requires
        u0.phase is Resolving,
        a0 == (UnitAction::Resolve { identifier: u0.request.identifier }),
        answers(a0, ev1),
        stepped(u0, ev1, u1, a1),
    ensures
        a1 is Report ==> u1.phase is Done,
        !(a1 is Report) ==> a1 is Download && forall|ev2: UnitEvent, u2: DownloadUnit, a2: UnitAction|
            answers(a1, ev2) && #[trigger] stepped(u1, ev2, u2, a2) ==> a2 is Report
                && u2.phase is Done,
{
}

/// A unit reports at most once: a report leaves it done, and a done unit
/// ignores every later event.
pub proof fn law_unit_reports_once(pre: DownloadUnit, ev: UnitEvent, post: DownloadUnit, a: UnitAction)
    requires
        stepped(pre, ev, post, a),
    ensures
        a is Report ==> post.phase is Done && !(pre.phase is Done),
        pre.phase is Done ==> a is Ignore && post.phase is Done,
{
}

} // verus!
