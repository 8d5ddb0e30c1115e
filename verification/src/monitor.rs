//! The threshold monitor: a state machine over periodic resource
//! samples with a hysteresis band. Crossing the high watermark fires
//! exactly one warning per excursion; the monitor re-arms only once a
//! sample drops below the low watermark. A failed sample is skipped.
//!
//! The caller (a timer loop) owns the schedule and the warning's
//! delivery; stopping the loop is how a monitor is cancelled.

use vstd::prelude::*;
use crate::events::Event;
use crate::events::warning_event;
use crate::events::warning_model;

verus! {

/// The hysteresis state machine. `triggered` is false while armed.
#[derive(Clone, Copy, PartialEq, Eq, Structural, Debug)]
pub struct Monitor {
    pub high: u64,
    pub low: u64,
    pub triggered: bool,
}

/// Whether one step of the machine fires a warning: only an armed
/// monitor seeing a sample strictly above the high watermark.
pub open spec fn fires(m: Monitor, sample: Option<u64>) -> bool {
    match sample {
        Some(s) => !m.triggered && s > m.high,
        None => false,
    }
}

/// The machine state after one sample: a firing step trips the
/// monitor, a sample strictly below the low watermark re-arms it
/// silently, anything else (including a failed sample) changes nothing.
pub open spec fn step_state(m: Monitor, sample: Option<u64>) -> Monitor {
    match sample {
        Some(s) => {
            if !m.triggered && s > m.high {
                Monitor { triggered: true, ..m }
            } else if m.triggered && s < m.low {
                Monitor { triggered: false, ..m }
            } else {
                m
            }
        },
        None => m,
    }
}

/// How many warnings a sample sequence fires from a given state.
pub open spec fn warning_count(m: Monitor, samples: Seq<Option<u64>>) -> nat
    decreases samples.len(),
{
    if samples.len() == 0 {
        0
    } else {
        (if fires(m, samples[0]) {
            1nat
        } else {
            0nat
        }) + warning_count(step_state(m, samples[0]), samples.drop_first())
    }
}

impl Monitor {
    /// The hysteresis band is non-empty: this is what rules out
    /// re-triggering oscillation around a single boundary.
    pub open spec fn wf(&self) -> bool {
        self.low < self.high
    }

    /// An armed monitor with the given watermarks; refused where the
    /// low watermark does not lie strictly below the high one.
    pub fn new(high: u64, low: u64) -> (r: Option<Monitor>)
        ensures
            r is Some <==> low < high,
            (r matches Some(m) ==> m == (Monitor { high, low, triggered: false })),
    {
        if low < high {
            Some(Monitor { high, low, triggered: false })
        } else {
            None
        }
    }

    /// Applies one sample (or one failed sampling attempt) and yields
    /// the warning event to deliver, if this very step fired.
    pub fn step(&mut self, sample: Option<u64>) -> (warning: Option<Event>)
        ensures
            *final(self) == step_state(*old(self), sample),
            warning is Some <==> fires(*old(self), sample),
            (warning matches Some(e) ==> sample matches Some(s) && e@ == warning_model(s)),
    {
        match sample {
            Some(s) => {
                if !self.triggered && s > self.high {
                    self.triggered = true;
                    Some(warning_event(s))
                } else {
                    if self.triggered && s < self.low {
                        self.triggered = false;
                    }
                    None
                }
            },
            None => None,
        }
    }
}

/// No trigger below the threshold: a sample sequence whose successful
/// samples never exceed the high watermark fires no warning at all,
/// from any starting state.
pub proof fn lemma_no_trigger_below_threshold(m: Monitor, samples: Seq<Option<u64>>)
    requires
        forall|i: int|
            0 <= i < samples.len() ==> (#[trigger] samples[i] matches Some(s) ==> s <= m.high),
    ensures
        warning_count(m, samples) == 0,
    decreases samples.len(),
{
    if samples.len() > 0 {
        let m2 = step_state(m, samples[0]);
        assert(m2.high == m.high);
        assert forall|i: int|
            0 <= i < samples.drop_first().len() implies (#[trigger] samples.drop_first()[i] matches Some(
            s,
        ) ==> s <= m2.high) by {
            assert(samples.drop_first()[i] == samples[i + 1]);
        }
        lemma_no_trigger_below_threshold(m2, samples.drop_first());
    }
}

/// Debounce: a tripped monitor fires nothing while the successful
/// samples stay at or above the low watermark — a sustained breach
/// yields no second warning until the monitor has re-armed.
pub proof fn lemma_debounce(m: Monitor, samples: Seq<Option<u64>>)
    requires
        m.triggered,
        forall|i: int|
            0 <= i < samples.len() ==> (#[trigger] samples[i] matches Some(s) ==> s >= m.low),
    ensures
        warning_count(m, samples) == 0,
    decreases samples.len(),
{
    if samples.len() > 0 {
        let m2 = step_state(m, samples[0]);
        assert(m2.triggered && m2.low == m.low);
        assert forall|i: int|
            0 <= i < samples.drop_first().len() implies (#[trigger] samples.drop_first()[i] matches Some(
            s,
        ) ==> s >= m2.low) by {
            assert(samples.drop_first()[i] == samples[i + 1]);
        }
        lemma_debounce(m2, samples.drop_first());
    }
}

/// How many successful samples lie strictly below the low watermark —
/// the only samples that can re-arm a tripped monitor.
pub open spec fn rearm_count(low: u64, samples: Seq<Option<u64>>) -> nat
    decreases samples.len(),
{
    if samples.len() == 0 {
        0
    } else {
        (match samples[0] {
            Some(s) => if s < low {
                1nat
            } else {
                0nat
            },
            None => 0nat,
        }) + rearm_count(low, samples.drop_first())
    }
}

/// At most one warning per excursion: an armed monitor fires at most
/// one more warning than there are samples strictly below the low
/// watermark — each re-arm admits at most one further warning — and a
/// tripped monitor fires at most that many.
pub proof fn lemma_one_warning_per_excursion(m: Monitor, samples: Seq<Option<u64>>)
    ensures
        m.triggered ==> warning_count(m, samples) <= rearm_count(m.low, samples),
        !m.triggered ==> warning_count(m, samples) <= 1 + rearm_count(m.low, samples),
    decreases samples.len(),
{
    if samples.len() > 0 {
        let m2 = step_state(m, samples[0]);
        assert(m2.low == m.low);
        lemma_one_warning_per_excursion(m2, samples.drop_first());
    }
}

} // verus!
