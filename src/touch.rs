//! The touch-state machine: classifies a (previous, current) pair of
//! controller states and decides what to record and what to render.
use vstd::prelude::*;

use crate::telemetry::{TelemetryRecord, TouchPoint};

verus! {

/// Raw controller value for a released panel.
pub const STATE_RELEASED: u32 = 0;

/// Raw controller value for a pressed panel.
pub const STATE_PRESSED: u32 = 1;

/// The two recognized controller states.
#[derive(Clone, Copy, Debug, PartialEq, Eq, Structural)]
pub enum TouchState {
    Released,
    Pressed,
}

/// The facial expressions the display can show.
#[derive(Clone, Copy, Debug, PartialEq, Eq, Structural)]
pub enum Expression {
    Neutral,
    Smiling,
}

/// The pair (previous state, current state), classified.
#[derive(Clone, Copy, Debug, PartialEq, Eq, Structural)]
pub enum Transition {
    Idle,
    PressEdge,
    Hold,
    ReleaseEdge,
    /// At least one of the two raw values is neither pressed nor released.
    Unrecognized,
}

/// A protocol violation: the offending (previous, current) raw pair.
#[derive(Clone, Copy, Debug, PartialEq, Eq, Structural)]
pub struct StateWarning {
    pub prev: u32,
    pub curr: u32,
}

/// One sample of the touch controller.
#[derive(Clone, Copy, Debug, PartialEq, Eq, Structural)]
pub struct TouchSample {
    pub state: u32,
    pub point: TouchPoint,
}

/// What the dispatcher does for one sample: the record to enqueue (before
/// any render), the expression to render, and the warning to log, holding
/// the offending (previous, current) pair.
#[derive(Clone, Copy, Debug, PartialEq, Eq, Structural)]
pub struct DispatchOutcome {
    pub record: Option<TelemetryRecord>,
    pub render: Option<Expression>,
    pub warning: Option<StateWarning>,
}

pub open spec fn state_of_raw(raw: u32) -> Option<TouchState> {
    if raw == STATE_RELEASED {
        Some(TouchState::Released)
    } else if raw == STATE_PRESSED {
        Some(TouchState::Pressed)
    } else {
        None
    }
}

pub open spec fn raw_of_state(s: TouchState) -> u32 {
    match s {
        TouchState::Released => STATE_RELEASED,
        TouchState::Pressed => STATE_PRESSED,
    }
}

pub open spec fn transition_of(prev: u32, curr: u32) -> Transition {
    match (state_of_raw(prev), state_of_raw(curr)) {
        (Some(TouchState::Released), Some(TouchState::Released)) => Transition::Idle,
        (Some(TouchState::Released), Some(TouchState::Pressed)) => Transition::PressEdge,
        (Some(TouchState::Pressed), Some(TouchState::Pressed)) => Transition::Hold,
        (Some(TouchState::Pressed), Some(TouchState::Released)) => Transition::ReleaseEdge,
        _ => Transition::Unrecognized,
    }
}

/// The transition table: a press edge records and smiles, a hold records,
/// a release edge renders neutral, idle does nothing, and anything else
/// only warns.
pub open spec fn outcome_of(prev: u32, curr: u32, point: TouchPoint) -> DispatchOutcome {
    match transition_of(prev, curr) {
        Transition::Idle => DispatchOutcome { record: None, render: None, warning: None },
        Transition::PressEdge => DispatchOutcome {
            record: Some(TelemetryRecord::Touch(point)),
            render: Some(Expression::Smiling),
            warning: None,
        },
        Transition::Hold => DispatchOutcome {
            record: Some(TelemetryRecord::Touch(point)),
            render: None,
            warning: None,
        },
        Transition::ReleaseEdge => DispatchOutcome {
            record: None,
            render: Some(Expression::Neutral),
            warning: None,
        },
        Transition::Unrecognized => DispatchOutcome {
            record: None,
            render: None,
            warning: Some(StateWarning { prev, curr }),
        },
    }
}

pub fn state_from_raw(raw: u32) -> (r: Option<TouchState>)
    ensures
        r == state_of_raw(raw),
{
    if raw == STATE_RELEASED {
        Some(TouchState::Released)
    } else if raw == STATE_PRESSED {
        Some(TouchState::Pressed)
    } else {
        None
    }
}

pub fn classify(prev: u32, curr: u32) -> (t: Transition)
    ensures
        t == transition_of(prev, curr),
{
    match (state_from_raw(prev), state_from_raw(curr)) {
        (Some(TouchState::Released), Some(TouchState::Released)) => Transition::Idle,
        (Some(TouchState::Released), Some(TouchState::Pressed)) => Transition::PressEdge,
        (Some(TouchState::Pressed), Some(TouchState::Pressed)) => Transition::Hold,
        (Some(TouchState::Pressed), Some(TouchState::Released)) => Transition::ReleaseEdge,
        _ => Transition::Unrecognized,
    }
}

/// Decides what one controller sample causes, given the previous and the
/// current raw state and the sampled coordinate.
pub fn dispatch(prev: u32, curr: u32, point: TouchPoint) -> (out: DispatchOutcome)
    ensures
        out == outcome_of(prev, curr, point),
{
    match classify(prev, curr) {
        Transition::Idle => DispatchOutcome { record: None, render: None, warning: None },
        Transition::PressEdge => DispatchOutcome {
            record: Some(TelemetryRecord::touch_point_from(point)),
            render: Some(Expression::Smiling),
            warning: None,
        },
        Transition::Hold => DispatchOutcome {
            record: Some(TelemetryRecord::touch_point_from(point)),
            render: None,
            warning: None,
        },
        Transition::ReleaseEdge => DispatchOutcome {
            record: None,
            render: Some(Expression::Neutral),
            warning: None,
        },
        Transition::Unrecognized => DispatchOutcome {
            record: None,
            render: None,
            warning: Some(StateWarning { prev, curr }),
        },
    }
}

/// The raw previous state after a run of samples: the state of the last
/// one, or released before any sample.
pub open spec fn previous_after(samples: Seq<TouchSample>) -> u32 {
    if samples.len() == 0 {
        STATE_RELEASED
    } else {
        samples.last().state
    }
}

/// The outcomes of dispatching a run of samples, the first against the
/// released state.
pub open spec fn outcomes_of(samples: Seq<TouchSample>) -> Seq<DispatchOutcome>
    decreases samples.len(),
{
    if samples.len() == 0 {
        seq![]
    } else {
        let rest = samples.drop_last();
        outcomes_of(rest).push(
            outcome_of(previous_after(rest), samples.last().state, samples.last().point),
        )
    }
}

/// The touch-state machine. It keeps the raw state of the previous sample
/// and nothing else.
pub struct TouchDispatcher {
    prev: u32,
}

impl TouchDispatcher {
    pub closed spec fn previous(self) -> u32 {
        self.prev
    }

    /// A dispatcher that has seen no sample: the previous state is released.
    pub fn new() -> (d: Self)
        ensures
            d.previous() == STATE_RELEASED,
    {
        TouchDispatcher { prev: STATE_RELEASED }
    }

    pub fn previous_state(&self) -> (r: u32)
        ensures
            r == self.previous(),
    {
        self.prev
    }

    /// Dispatches one sample against the previous state, then remembers the
    /// sample's state.
    pub fn on_sample(&mut self, sample: TouchSample) -> (out: DispatchOutcome)
        ensures
            out == outcome_of(old(self).previous(), sample.state, sample.point),
            final(self).previous() == sample.state,
    {
        let out = dispatch(self.prev, sample.state, sample.point);
        self.prev = sample.state;
        out
    }
}

/// Runs a fresh dispatcher over a run of samples and collects what each
/// sample caused, in order.
pub fn dispatch_samples(samples: &Vec<TouchSample>) -> (r: Vec<DispatchOutcome>)
    ensures
        r@ == outcomes_of(samples@),
{
    let mut d = TouchDispatcher::new();
    let mut r: Vec<DispatchOutcome> = Vec::new();
    let mut i: usize = 0;
    while i < samples.len()
        invariant
            i <= samples.len(),
            r@ == outcomes_of(samples@.take(i as int)),
            d.previous() == previous_after(samples@.take(i as int)),
        decreases samples.len() - i,
    {
        let out = d.on_sample(samples[i]);
        proof {
            let next = samples@.take(i as int + 1);
            assert(next.drop_last() =~= samples@.take(i as int));
            assert(next.last() == samples@[i as int]);
        }
        r.push(out);
        i = i + 1;
    }
    proof {
        assert(samples@.take(samples.len() as int) =~= samples@);
    }
    r
}

/// What the dispatcher does on a sample depends on the previous and the
/// current sample alone: two runs that end in the same two samples end in
/// the same outcome, whatever came before.
pub proof fn lemma_outcome_depends_on_last_pair(s1: Seq<TouchSample>, s2: Seq<TouchSample>)
    requires
        s1.len() >= 2,
        s2.len() >= 2,
        s1[s1.len() - 2].state == s2[s2.len() - 2].state,
        s1.last() == s2.last(),
    ensures
        outcomes_of(s1).last() == outcomes_of(s2).last(),
{
    assert(s1.drop_last().last() == s1[s1.len() - 2]);
    assert(s2.drop_last().last() == s2[s2.len() - 2]);
}

/// A raw value outside the two recognized states, on either side of the
/// pair, yields exactly one warning, holding the pair, and neither a record
/// nor a render.
pub proof fn lemma_unrecognized_only_warns(prev: u32, curr: u32, point: TouchPoint)
    requires
        state_of_raw(prev) is None || state_of_raw(curr) is None,
    ensures
        outcome_of(prev, curr, point) == (DispatchOutcome {
            record: None,
            render: None,
            warning: Some(StateWarning { prev, curr }),
        }),
{
}

} // verus!
