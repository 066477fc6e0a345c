//! The three-phase build protocol as an explicit state machine:
//! reconfigure, configure (possibly skipped by the fingerprint gate), build.

use vstd::prelude::*;

verus! {

/// The state of one build call.
#[derive(Clone, Copy, PartialEq, Eq, Debug)]
pub enum Phase {
    Unconfigured,
    Reconfiguring,
    Configuring,
    Configured,
    Building,
    Built,
    Failed,
}

/// What the driver observed while carrying the current phase out.
#[derive(Clone, Copy, PartialEq, Eq, Debug)]
pub enum PhaseEvent {
    /// The build call starts; `reconfigure` says whether reconfigure flags
    /// were set.
    Begin { reconfigure: bool },
    /// The reconfigure command finished.
    ReconfigureFinished { ok: bool },
    /// The fingerprint gate allowed the configure phase to be skipped.
    ConfigureSkipped,
    /// The configure command finished.
    ConfigureFinished { ok: bool },
    /// The make phase was entered.
    BuildStarted,
    /// The make command finished.
    BuildFinished { ok: bool },
}

/// The transition relation of the build protocol.  A failing phase, and any
/// event that the current phase does not expect, leads to the terminal
/// `Failed` state; a successful make leads to the terminal `Built` state.
pub open spec fn next_phase(p: Phase, ev: PhaseEvent) -> Phase {
    match (p, ev) {
        (Phase::Unconfigured, PhaseEvent::Begin { reconfigure }) => if reconfigure {
            Phase::Reconfiguring
        } else {
            Phase::Configuring
        },
        (Phase::Reconfiguring, PhaseEvent::ReconfigureFinished { ok }) => if ok {
            Phase::Configuring
        } else {
            Phase::Failed
        },
        (Phase::Configuring, PhaseEvent::ConfigureSkipped) => Phase::Configured,
        (Phase::Configuring, PhaseEvent::ConfigureFinished { ok }) => if ok {
            Phase::Configured
        } else {
            Phase::Failed
        },
        (Phase::Configured, PhaseEvent::BuildStarted) => Phase::Building,
        (Phase::Building, PhaseEvent::BuildFinished { ok }) => if ok {
            Phase::Built
        } else {
            Phase::Failed
        },
        _ => Phase::Failed,
    }
}

/// Whether a phase ends the protocol.
pub open spec fn is_terminal(p: Phase) -> bool {
    p is Built || p is Failed
}

/// Advances the protocol by one observed event.
pub fn step(p: Phase, ev: PhaseEvent) -> (r: Phase)
    ensures
        r == next_phase(p, ev),
{
    match (p, ev) {
        (Phase::Unconfigured, PhaseEvent::Begin { reconfigure }) => if reconfigure {
            Phase::Reconfiguring
        } else {
            Phase::Configuring
        },
        (Phase::Reconfiguring, PhaseEvent::ReconfigureFinished { ok }) => if ok {
            Phase::Configuring
        } else {
            Phase::Failed
        },
        (Phase::Configuring, PhaseEvent::ConfigureSkipped) => Phase::Configured,
        (Phase::Configuring, PhaseEvent::ConfigureFinished { ok }) => if ok {
            Phase::Configured
        } else {
            Phase::Failed
        },
        (Phase::Configured, PhaseEvent::BuildStarted) => Phase::Building,
        (Phase::Building, PhaseEvent::BuildFinished { ok }) => if ok {
            Phase::Built
        } else {
            Phase::Failed
        },
        _ => Phase::Failed,
    }
}

/// A phase reached through `Built` can only have come from a successful
/// make; the protocol never reports success out of a failed phase.
pub proof fn lemma_built_only_from_building(p: Phase, ev: PhaseEvent)
    requires
        next_phase(p, ev) is Built,
    ensures
        p is Building && ev == (PhaseEvent::BuildFinished { ok: true }),
{
}

} // verus!
