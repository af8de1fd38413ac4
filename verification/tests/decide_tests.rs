use s3air_autosplitter::should_reset;
use s3air_autosplitter::should_split;
use s3air_autosplitter::should_start;
use s3air_autosplitter::Settings;
use s3air_autosplitter::Watcher;
use s3air_autosplitter::Watchers;
use s3air_autosplitter::Zone;
use s3air_autosplitter::SAVESLOTSTATE_INPROGRESS;
use s3air_autosplitter::SAVESLOTSTATE_NEWGAME;
use s3air_autosplitter::STATE_LOADING;
use s3air_autosplitter::STATE_SAVESELECT;

fn pair<T>(previous: T, current: T) -> Watcher<T> {
    Watcher { previous: Some(previous), current: Some(current) }
}

/// A watcher set where every quantity has two quiet samples.
fn settled() -> Watchers {
    Watchers {
        levelid: pair(Zone::AngelIslandAct2, Zone::AngelIslandAct2),
        state: pair(0, 0),
        end_of_level_flag: pair(false, false),
        game_ending_flag: pair(false, false),
        time_bonus: pair(0, 0),
        save_select: pair(0, 0),
        zone_select: pair(0, 0),
        save_slot: pair(SAVESLOTSTATE_INPROGRESS, SAVESLOTSTATE_INPROGRESS),
    }
}

#[test]
fn fresh_watchers_report_no_event() {
    let w = Watchers::new();
    let s = Settings::all_enabled();
    assert!(!should_start(&w, &s));
    assert!(!should_split(&w, &s));
    assert!(!should_reset(&w, &s));
}

#[test]
fn single_sample_reports_no_event() {
    // One observed sample but no previous value: still no event.
    let mut w = settled();
    w.state = Watcher { previous: None, current: Some(STATE_LOADING) };
    w.levelid = Watcher { previous: None, current: Some(Zone::HydrocityAct2) };
    w.save_select = Watcher { previous: None, current: Some(0) };
    let s = Settings::all_enabled();
    assert!(!should_start(&w, &s));
    assert!(!should_split(&w, &s));
    assert!(!should_reset(&w, &s));
}

#[test]
fn start_no_save_follows_its_toggle() {
    let mut w = settled();
    w.state = pair(STATE_SAVESELECT, STATE_LOADING);
    w.save_select = pair(0, 0);
    let mut s = Settings::all_enabled();
    assert!(should_start(&w, &s));
    s.start_nosave = false;
    assert!(!should_start(&w, &s));
}

#[test]
fn start_clean_save_follows_the_previous_slot_status() {
    let mut w = settled();
    w.state = pair(STATE_SAVESELECT, STATE_LOADING);
    w.save_select = pair(3, 3);
    w.zone_select = pair(0, 0);
    w.save_slot = pair(SAVESLOTSTATE_NEWGAME, SAVESLOTSTATE_INPROGRESS);
    let mut s = Settings::all_enabled();
    s.start_nosave = false;
    s.start_no_clean_save = false;
    s.start_new_game_plus = false;
    assert!(should_start(&w, &s));
    s.start_clean_save = false;
    assert!(!should_start(&w, &s));
}

#[test]
fn start_in_progress_slot_follows_its_toggle() {
    let mut w = settled();
    w.state = pair(STATE_SAVESELECT, STATE_LOADING);
    w.save_select = pair(2, 2);
    w.zone_select = pair(0, 0);
    w.save_slot = pair(SAVESLOTSTATE_INPROGRESS, SAVESLOTSTATE_INPROGRESS);
    let mut s = Settings::all_enabled();
    s.start_clean_save = false;
    s.start_new_game_plus = false;
    assert!(should_start(&w, &s));
    s.start_no_clean_save = false;
    assert!(!should_start(&w, &s));
}

#[test]
fn start_completed_slot_is_new_game_plus() {
    let mut w = settled();
    w.state = pair(STATE_SAVESELECT, STATE_LOADING);
    w.save_select = pair(1, 1);
    w.zone_select = pair(0, 0);
    w.save_slot = pair(0x01, 0x01);
    let mut s = Settings::all_enabled();
    s.start_clean_save = false;
    s.start_no_clean_save = false;
    assert!(should_start(&w, &s));
    s.start_new_game_plus = false;
    assert!(!should_start(&w, &s));
}

#[test]
fn start_needs_the_first_zone_selected() {
    let mut w = settled();
    w.state = pair(STATE_SAVESELECT, STATE_LOADING);
    w.save_select = pair(1, 1);
    w.zone_select = pair(0, 3);
    assert!(!should_start(&w, &Settings::all_enabled()));
}

#[test]
fn start_needs_a_valid_slot_selection() {
    let mut w = settled();
    w.state = pair(STATE_SAVESELECT, STATE_LOADING);
    w.save_select = pair(9, 9);
    w.zone_select = pair(0, 0);
    assert!(!should_start(&w, &Settings::all_enabled()));
}

#[test]
fn start_needs_the_save_select_to_loading_transition() {
    let mut w = settled();
    w.state = pair(STATE_LOADING, STATE_LOADING);
    w.save_select = pair(0, 0);
    assert!(!should_start(&w, &Settings::all_enabled()));
}

#[test]
fn reset_on_new_run_without_save() {
    let mut w = settled();
    w.state = pair(STATE_SAVESELECT, STATE_LOADING);
    w.save_select = pair(0, 0);
    let mut s = Settings::all_enabled();
    assert!(should_reset(&w, &s));
    s.reset = false;
    assert!(!should_reset(&w, &s));
}

#[test]
fn reset_on_slot_turning_into_new_game() {
    let mut w = settled();
    w.save_select = pair(4, 4);
    w.save_slot = pair(SAVESLOTSTATE_INPROGRESS, SAVESLOTSTATE_NEWGAME);
    let mut s = Settings::all_enabled();
    assert!(should_reset(&w, &s));
    s.reset = false;
    assert!(!should_reset(&w, &s));
}

#[test]
fn reset_needs_an_unchanged_slot_selection() {
    let mut w = settled();
    w.save_select = pair(3, 4);
    w.save_slot = pair(SAVESLOTSTATE_INPROGRESS, SAVESLOTSTATE_NEWGAME);
    assert!(!should_reset(&w, &Settings::all_enabled()));
}

#[test]
fn reset_ignores_a_slot_already_on_new_game() {
    let mut w = settled();
    w.save_select = pair(4, 4);
    w.save_slot = pair(SAVESLOTSTATE_NEWGAME, SAVESLOTSTATE_NEWGAME);
    assert!(!should_reset(&w, &Settings::all_enabled()));
}

#[test]
fn split_never_fires_on_the_first_zone() {
    let mut w = settled();
    w.levelid = pair(Zone::DoomsDay, Zone::AngelIslandAct1);
    w.game_ending_flag = pair(false, true);
    w.time_bonus = pair(5, 0);
    w.end_of_level_flag = pair(true, true);
    assert!(!should_split(&w, &Settings::all_enabled()));
}

#[test]
fn split_on_sky_sanctuary_ending() {
    let mut w = settled();
    w.levelid = pair(Zone::SkySanctuary, Zone::SkySanctuary);
    w.game_ending_flag = pair(false, true);
    let mut s = Settings::all_enabled();
    assert!(should_split(&w, &s));
    s.sky_sanctuary = false;
    assert!(!should_split(&w, &s));
}

#[test]
fn split_on_death_egg_time_bonus_drop() {
    // The end-of-run special case: the time bonus drops to exactly zero with
    // the end-of-level flag set, no zone change needed.
    let mut w = settled();
    w.levelid = pair(Zone::DeathEggAct2, Zone::DeathEggAct2);
    w.time_bonus = pair(5, 0);
    w.end_of_level_flag = pair(false, true);
    let mut s = Settings::all_enabled();
    assert!(should_split(&w, &s));
    s.death_egg_2 = false;
    assert!(!should_split(&w, &s));
}

#[test]
fn split_death_egg_rule_needs_a_nonzero_previous_bonus() {
    let mut w = settled();
    w.levelid = pair(Zone::DeathEggAct2, Zone::DeathEggAct2);
    w.time_bonus = pair(0, 0);
    w.end_of_level_flag = pair(false, true);
    assert!(!should_split(&w, &Settings::all_enabled()));
}

#[test]
fn split_on_zone_change_follows_the_previous_zone_toggle() {
    let mut w = settled();
    w.levelid = pair(Zone::HydrocityAct1, Zone::HydrocityAct2);
    let mut s = Settings::all_enabled();
    assert!(should_split(&w, &s));
    s.hydrocity_1 = false;
    assert!(!should_split(&w, &s));
    // The toggle of the zone being entered does not matter.
    s.hydrocity_1 = true;
    s.hydrocity_2 = false;
    assert!(should_split(&w, &s));
}

#[test]
fn split_leaving_the_first_zone_needs_the_end_of_level_flag() {
    let mut w = settled();
    w.levelid = pair(Zone::AngelIslandAct1, Zone::AngelIslandAct2);
    w.end_of_level_flag = pair(true, false);
    let s = Settings::all_enabled();
    assert!(should_split(&w, &s));
    // Without the flag just before the transition this was a reset to the
    // menu, not a completed level.
    w.end_of_level_flag = pair(false, false);
    assert!(!should_split(&w, &s));
}

#[test]
fn split_has_no_toggle_for_the_ending() {
    let mut w = settled();
    w.levelid = pair(Zone::Ending, Zone::DoomsDay);
    assert!(!should_split(&w, &Settings::all_enabled()));
}

#[test]
fn split_needs_a_zone_change_for_the_generic_rule() {
    let mut w = settled();
    w.levelid = pair(Zone::HydrocityAct2, Zone::HydrocityAct2);
    assert!(!should_split(&w, &Settings::all_enabled()));
}
