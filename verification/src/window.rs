//! A closed time window and the progress of a probe instant through it.

use vstd::prelude::*;
use crate::rounding::round_permille;
use crate::rounding::round_permille_spec;
use crate::rounding::lemma_round_permille_full;
use crate::rounding::lemma_round_permille_half;
use crate::rounding::lemma_round_permille_zero;
use crate::time_point::TimePoint;

verus! {

/// Why a probe instant was rejected.
#[derive(Clone, Copy, PartialEq, Eq, Structural, Debug)]
pub enum TimeWindowError {
    /// The window's bounds coincide, so no progress fraction exists.
    ZeroLengthWindow,
    /// The window's end lies before its start.
    InvertedWindow,
    /// The probe lies outside the closed interval `[start, end]`.
    ProbeOutOfWindow,
}

/// A window `[start, end]` of instants, a probe instant, and the derived
/// millisecond durations and rounded progress.
///
/// The bounds are stored verbatim at construction; a zero-length or inverted
/// window is detected only when a probe is set, and rejected there with a
/// distinct error. The derived fields stay zero until the first accepted
/// probe, and always reflect the most recently accepted one.
pub struct TimeWindow {
    /// Left bound of the window.
    pub start: TimePoint,
    /// Right bound of the window.
    pub end: TimePoint,
    /// The most recently accepted probe instant; `None` before the first.
    pub probe: Option<TimePoint>,
    /// `end - start`, in milliseconds.
    pub total_millis: u64,
    /// `probe - start`, in milliseconds.
    pub passed_millis: u64,
    /// `end - probe`, in milliseconds.
    pub left_millis: u64,
    /// `passed_millis / total_millis` rounded to three decimal digits,
    /// half away from zero, scaled by 1000.
    pub percentage_permille: u64,
}

impl TimeWindow {
    /// The derived fields are consistent with the probe: zero while no probe
    /// was accepted, and otherwise exactly the durations and rounded progress
    /// of a probe lying in a forward window.
    pub open spec fn wf(self) -> bool {
        match self.probe {
            None => {
                &&& self.total_millis == 0
                &&& self.passed_millis == 0
                &&& self.left_millis == 0
                &&& self.percentage_permille == 0
            },
            Some(t) => {
                &&& self.start.millis < self.end.millis
                &&& self.start.millis <= t.millis <= self.end.millis
                &&& self.total_millis == self.end.millis - self.start.millis
                &&& self.passed_millis == t.millis - self.start.millis
                &&& self.left_millis == self.end.millis - t.millis
                &&& self.percentage_permille == round_permille_spec(
                    self.passed_millis as int,
                    self.total_millis as int,
                )
            },
        }
    }

    /// Stores the bounds verbatim, with no probe and all derived fields zero.
    pub fn new(start: TimePoint, end: TimePoint) -> (w: TimeWindow)
        ensures
            w.start == start,
            w.end == end,
            w.probe is None,
            w.total_millis == 0,
            w.passed_millis == 0,
            w.left_millis == 0,
            w.percentage_permille == 0,
            w.wf(),
    {
        TimeWindow {
            start,
            end,
            probe: None,
            total_millis: 0,
            passed_millis: 0,
            left_millis: 0,
            percentage_permille: 0,
        }
    }

    /// Stores `t` as the probe and recomputes every derived field from the
    /// bounds and `t`, or rejects `t` and leaves the window unchanged: a
    /// window whose bounds coincide or are inverted takes no probe, and a
    /// probe outside the closed interval `[start, end]` is refused.
    pub fn set_point(&mut self, t: TimePoint) -> (r: Result<(), TimeWindowError>)
        ensures
            final(self).start == old(self).start,
            final(self).end == old(self).end,
            r is Ok <==> {
                &&& old(self).start.millis < old(self).end.millis
                &&& old(self).start.millis <= t.millis <= old(self).end.millis
            },
            old(self).end.millis == old(self).start.millis ==> r == Err::<(), TimeWindowError>(
                TimeWindowError::ZeroLengthWindow,
            ),
            old(self).end.millis < old(self).start.millis ==> r == Err::<(), TimeWindowError>(
                TimeWindowError::InvertedWindow,
            ),
            old(self).start.millis < old(self).end.millis && !(old(self).start.millis <= t.millis
                <= old(self).end.millis) ==> r == Err::<(), TimeWindowError>(
                TimeWindowError::ProbeOutOfWindow,
            ),
            r is Err ==> *final(self) == *old(self),
            r is Ok ==> {
                &&& final(self).probe == Some(t)
                &&& final(self).total_millis == old(self).end.millis - old(self).start.millis
                &&& final(self).passed_millis == t.millis - old(self).start.millis
                &&& final(self).left_millis == old(self).end.millis - t.millis
                &&& final(self).percentage_permille == round_permille_spec(
                    t.millis - old(self).start.millis,
                    old(self).end.millis - old(self).start.millis,
                )
                &&& final(self).wf()
            },
            old(self).wf() ==> final(self).wf(),
    {
        let s = self.start.millis;
        let e = self.end.millis;
        if e == s {
            return Err(TimeWindowError::ZeroLengthWindow);
        }
        if e < s {
            return Err(TimeWindowError::InvertedWindow);
        }
        if t.millis < s || t.millis > e {
            return Err(TimeWindowError::ProbeOutOfWindow);
        }
        let total: u64 = ((e as i128) - (s as i128)) as u64;
        let passed: u64 = ((t.millis as i128) - (s as i128)) as u64;
        let left: u64 = ((e as i128) - (t.millis as i128)) as u64;
        self.probe = Some(t);
        self.total_millis = total;
        self.passed_millis = passed;
        self.left_millis = left;
        self.percentage_permille = round_permille(passed, total);
        Ok(())
    }
}

/// A probe at the right edge of a forward window shows the full progress,
/// 1000 per mille.
pub proof fn lemma_probe_at_end_is_full(w: TimeWindow)
    requires
        w.wf(),
        w.probe == Some(w.end),
    ensures
        w.percentage_permille == 1000,
{
    lemma_round_permille_full(w.total_millis as int);
}

/// A probe at the left edge of a forward window shows no progress,
/// 0 per mille.
pub proof fn lemma_probe_at_start_is_zero(w: TimeWindow)
    requires
        w.wf(),
        w.probe == Some(w.start),
    ensures
        w.percentage_permille == 0,
{
    lemma_round_permille_zero(w.total_millis as int);
}

/// A probe at the exact midpoint of a forward window shows half the
/// progress, 500 per mille.
pub proof fn lemma_probe_at_midpoint_is_half(w: TimeWindow, t: TimePoint)
    requires
        w.wf(),
        w.probe == Some(t),
        t.millis - w.start.millis == w.end.millis - t.millis,
    ensures
        w.percentage_permille == 500,
{
    lemma_round_permille_half(w.passed_millis as int, w.total_millis as int);
}

/// The shown progress is a function of the rounded elapsed/total ratio
/// alone: two windows whose ratios round to the same three decimal digits
/// show the same progress.
pub proof fn lemma_percentage_determined_by_rounding(w1: TimeWindow, w2: TimeWindow)
    requires
        w1.wf(),
        w2.wf(),
        w1.probe is Some,
        w2.probe is Some,
        round_permille_spec(w1.passed_millis as int, w1.total_millis as int)
            == round_permille_spec(w2.passed_millis as int, w2.total_millis as int),
    ensures
        w1.percentage_permille == w2.percentage_permille,
{
}

/// The derived fields are a function of the bounds and the probe alone:
/// setting the same probe on windows with the same bounds, in particular
/// setting it twice on one window, yields identical derived fields.
pub proof fn lemma_derived_fields_deterministic(w1: TimeWindow, w2: TimeWindow)
    requires
        w1.wf(),
        w2.wf(),
        w1.start == w2.start,
        w1.end == w2.end,
        w1.probe == w2.probe,
    ensures
        w1.total_millis == w2.total_millis,
        w1.passed_millis == w2.passed_millis,
        w1.left_millis == w2.left_millis,
        w1.percentage_permille == w2.percentage_permille,
{
}

} // verus!

