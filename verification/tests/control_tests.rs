use s3air_autosplitter::control_action;
use s3air_autosplitter::start_action;
use s3air_autosplitter::ControlAction;
use s3air_autosplitter::Settings;
use s3air_autosplitter::TimerPhase;
use s3air_autosplitter::Watcher;
use s3air_autosplitter::Watchers;
use s3air_autosplitter::Zone;
use s3air_autosplitter::SAVESLOTSTATE_INPROGRESS;
use s3air_autosplitter::STATE_LOADING;
use s3air_autosplitter::STATE_SAVESELECT;

fn pair<T>(previous: T, current: T) -> Watcher<T> {
    Watcher { previous: Some(previous), current: Some(current) }
}

/// A tick on which both the reset and the split predicate hold: a new run is
/// begun without a save while a toggled zone transition is also visible.
fn reset_and_split_tick() -> Watchers {
    Watchers {
        levelid: pair(Zone::HydrocityAct1, Zone::HydrocityAct2),
        state: pair(STATE_SAVESELECT, STATE_LOADING),
        end_of_level_flag: pair(false, false),
        game_ending_flag: pair(false, false),
        time_bonus: pair(0, 0),
        save_select: pair(0, 0),
        zone_select: pair(0, 0),
        save_slot: pair(SAVESLOTSTATE_INPROGRESS, SAVESLOTSTATE_INPROGRESS),
    }
}

#[test]
fn reset_preempts_split_in_the_same_tick() {
    let w = reset_and_split_tick();
    let s = Settings::all_enabled();
    assert_eq!(control_action(&w, &s, TimerPhase::Running), ControlAction::Reset);
    assert_eq!(control_action(&w, &s, TimerPhase::Paused), ControlAction::Reset);
}

#[test]
fn split_fires_when_no_reset_is_due() {
    let mut w = reset_and_split_tick();
    w.state = pair(STATE_LOADING, STATE_LOADING);
    let s = Settings::all_enabled();
    assert_eq!(control_action(&w, &s, TimerPhase::Running), ControlAction::Split);
}

#[test]
fn only_a_running_or_paused_timer_is_controlled() {
    let w = reset_and_split_tick();
    let s = Settings::all_enabled();
    assert_eq!(control_action(&w, &s, TimerPhase::NotRunning), ControlAction::Nothing);
}

#[test]
fn quiet_tick_asks_for_nothing() {
    let mut w = reset_and_split_tick();
    w.state = pair(STATE_LOADING, STATE_LOADING);
    w.levelid = pair(Zone::HydrocityAct2, Zone::HydrocityAct2);
    let s = Settings::all_enabled();
    assert_eq!(control_action(&w, &s, TimerPhase::Running), ControlAction::Nothing);
}

#[test]
fn only_a_stopped_timer_is_started() {
    let w = reset_and_split_tick();
    let s = Settings::all_enabled();
    assert!(start_action(&w, &s, TimerPhase::NotRunning));
    assert!(!start_action(&w, &s, TimerPhase::Running));
    assert!(!start_action(&w, &s, TimerPhase::Paused));
}
