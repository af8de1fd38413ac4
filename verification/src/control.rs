//! Scheduler integration: which timer action one tick calls for, given the
//! decision predicates and the host timer's phase. Reset pre-empts split
//! within a tick; starting is decided independently, against whatever phase
//! the timer is in after the control action was applied, so that a timer can
//! be started in the same tick a prior run's state decays.

use vstd::prelude::*;
use crate::decide::should_reset;
use crate::decide::should_split;
use crate::decide::should_start;
use crate::decide::spec_should_reset;
use crate::decide::spec_should_split;
use crate::decide::spec_should_start;
use crate::derive::Watchers;
use crate::settings::Settings;

verus! {

/// The host timer's visible phase.
#[derive(Clone, Copy, PartialEq, Eq, Structural, Debug)]
pub enum TimerPhase {
    NotRunning,
    Running,
    Paused,
}

/// The control action one tick asks of a running or paused timer.
#[derive(Clone, Copy, PartialEq, Eq, Structural, Debug)]
pub enum ControlAction {
    Reset,
    Split,
    Nothing,
}

/// The control action for this tick: only a running or paused timer is
/// controlled, and a reset pre-empts a split.
pub open spec fn spec_control_action(w: Watchers, s: Settings, phase: TimerPhase) -> ControlAction {
    if phase is Running || phase is Paused {
        if spec_should_reset(w, s) {
            ControlAction::Reset
        } else if spec_should_split(w, s) {
            ControlAction::Split
        } else {
            ControlAction::Nothing
        }
    } else {
        ControlAction::Nothing
    }
}

/// Whether this tick starts the timer: only a timer that is not running is
/// started.
pub open spec fn spec_start_action(w: Watchers, s: Settings, phase: TimerPhase) -> bool {
    phase is NotRunning && spec_should_start(w, s)
}

/// Pick the control action for this tick from the watcher snapshot, the
/// configuration and the timer phase at the start of the tick.
pub fn control_action(w: &Watchers, s: &Settings, phase: TimerPhase) -> (a: ControlAction)
    ensures
        a == spec_control_action(*w, *s, phase),
{
    if phase == TimerPhase::Running || phase == TimerPhase::Paused {
        if should_reset(w, s) {
            ControlAction::Reset
        } else if should_split(w, s) {
            ControlAction::Split
        } else {
            ControlAction::Nothing
        }
    } else {
        ControlAction::Nothing
    }
}

/// Decide whether to start the timer, given the phase after the control
/// action was applied.
pub fn start_action(w: &Watchers, s: &Settings, phase: TimerPhase) -> (b: bool)
    ensures
        b == spec_start_action(*w, *s, phase),
{
    phase == TimerPhase::NotRunning && should_start(w, s)
}

/// A reset always pre-empts a split: whenever the reset predicate holds on a
/// running or paused timer, the tick's control action is the reset, whatever
/// the split predicate says.
pub proof fn lemma_reset_preempts_split(w: Watchers, s: Settings, phase: TimerPhase)
    requires
        phase is Running || phase is Paused,
        spec_should_reset(w, s),
    ensures
        spec_control_action(w, s, phase) == ControlAction::Reset,
{
}

} // verus!
