use vstd::prelude::*;
use vstd::string::StringExecFns;

verus! {

/// How many entries of `s` are set.
pub open spec fn count_true(s: Seq<bool>) -> nat
    decreases s.len(),
{
    if s.len() == 0 {
        0
    } else {
        count_true(s.drop_last()) + if s.last() {
            1nat
        } else {
            0nat
        }
    }
}

pub proof fn lemma_count_bounded(s: Seq<bool>)
    ensures
        count_true(s) <= s.len(),
    decreases s.len(),
{
    if s.len() > 0 {
        lemma_count_bounded(s.drop_last());
    }
}

pub proof fn lemma_count_none(n: nat)
    ensures
        count_true(Seq::new(n, |i: int| false)) == 0,
    decreases n,
{
    if n > 0 {
        assert(Seq::new(n, |i: int| false).drop_last() =~= Seq::new((n - 1) as nat, |i: int| false));
        lemma_count_none((n - 1) as nat);
    }
}

pub proof fn lemma_count_all(s: Seq<bool>)
    requires
        forall|i: int| 0 <= i < s.len() ==> #[trigger] s[i],
    ensures
        count_true(s) == s.len(),
    decreases s.len(),
{
    if s.len() > 0 {
        lemma_count_all(s.drop_last());
    }
}

pub proof fn lemma_count_set_one(s: Seq<bool>, i: int)
    requires
        0 <= i < s.len(),
        !s[i],
    ensures
        count_true(s.update(i, true)) == count_true(s) + 1,
    decreases s.len(),
{
    let t = s.update(i, true);
    if i < s.len() - 1 {
        assert(t.drop_last() =~= s.drop_last().update(i, true));
        lemma_count_set_one(s.drop_last(), i);
    } else {
        assert(t.drop_last() =~= s.drop_last());
    }
}

/// What a progress counter stands for: which units have reported, and
/// whether the run was closed.
pub struct ProgressView {
    pub reported: Seq<bool>,
    pub finished: bool,
}

pub open spec fn initial(total: nat) -> ProgressView {
    ProgressView { reported: Seq::new(total, |i: int| false), finished: false }
}

pub open spec fn completed_of(p: ProgressView) -> nat {
    count_true(p.reported)
}

/// A unit may report once, while the run is open.
pub open spec fn may_report(p: ProgressView, unit: int) -> bool {
    &&& !p.finished
    &&& 0 <= unit < p.reported.len()
    &&& !p.reported[unit]
}

pub open spec fn after_report(p: ProgressView, unit: int) -> ProgressView {
    if may_report(p, unit) {
        ProgressView { reported: p.reported.update(unit, true), finished: false }
    } else {
        p
    }
}

/// The run may be closed once, after every unit has reported.
pub open spec fn may_finish(p: ProgressView) -> bool {
    !p.finished && completed_of(p) == p.reported.len()
}

pub open spec fn after_finish(p: ProgressView) -> ProgressView {
    if may_finish(p) {
        ProgressView { finished: true, ..p }
    } else {
        p
    }
}

/// The counter shared by the units of one run: `total` units, each counted
/// at most once, then closed once.
pub struct ProgressState {
    reported: Vec<bool>,
    completed: usize,
    finished: bool,
}

impl View for ProgressState {
    type V = ProgressView;

    closed spec fn view(&self) -> ProgressView {
        ProgressView { reported: self.reported@, finished: self.finished }
    }
}

impl ProgressState {
    pub closed spec fn wf(&self) -> bool {
        &&& self.completed == count_true(self.reported@)
        &&& self.finished ==> self.completed == self.reported@.len()
    }

    /// A counter for `total` units, none of them finished.
    pub fn new(total: usize) -> (r: ProgressState)
        ensures
            r.wf(),
            r@ == initial(total as nat),
    {
        let mut reported: Vec<bool> = Vec::new();
        let mut i: usize = 0;
        while i < total
            invariant
                i <= total,
                reported@ == Seq::new(i as nat, |k: int| false),
            decreases total - i,
        {
            reported.push(false);
            i = i + 1;
            assert(reported@ =~= Seq::new(i as nat, |k: int| false));
        }
        proof {
            lemma_count_none(total as nat);
        }
        ProgressState { reported, completed: 0, finished: false }
    }

    pub fn total(&self) -> (r: usize)
        ensures
            r == self@.reported.len(),
    {
        self.reported.len()
    }

    pub fn completed(&self) -> (r: usize)
        requires
            self.wf(),
        ensures
            r == completed_of(self@),
            r <= self@.reported.len(),
    {
        proof {
            lemma_count_bounded(self.reported@);
        }
        self.completed
    }

    pub fn is_finished(&self) -> (r: bool)
        ensures
            r == self@.finished,
    {
        self.finished
    }

    /// Counts `unit` as finished. Returns false, and changes nothing, where
    /// the unit is out of range, has already reported, or the run is closed.
    pub fn report_completion(&mut self, unit: usize) -> (r: bool)
        requires
            old(self).wf(),
        ensures
            final(self).wf(),
            r == may_report(old(self)@, unit as int),
            final(self)@ == after_report(old(self)@, unit as int),
    {
        if self.finished || unit >= self.reported.len() || self.reported[unit] {
            return false;
        }
        proof {
            lemma_count_set_one(self.reported@, unit as int);
            lemma_count_bounded(self.reported@.update(unit as int, true));
        }
        self.reported.set(unit, true);
        self.completed = self.completed + 1;
        true
    }

    /// Closes the run. Returns false, and changes nothing, unless every unit
    /// has reported and the run is still open.
    pub fn finish(&mut self) -> (r: bool)
        requires
            old(self).wf(),
        ensures
            final(self).wf(),
            r == may_finish(old(self)@),
            final(self)@ == after_finish(old(self)@),
    {
        if self.finished || self.completed != self.reported.len() {
            return false;
        }
        self.finished = true;
        true
    }
}

/// The line printed when a run is closed.
pub fn finish_message() -> (r: String)
    ensures
        r@ == "Downloaded all videos"@,
{
    String::from_str("Downloaded all videos")
}

} // verus!
