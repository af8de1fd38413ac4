//! The decision engine: three pure predicates over the watcher snapshot and
//! the run configuration. Each one consults only sample pairs, never raw
//! reads, and reports no event whenever a pair it consults has no previous
//! value yet.

use vstd::prelude::*;
use crate::derive::RawReads;
use crate::derive::Watchers;
use crate::derive::spec_derive;
use crate::derive::SAVESLOTSTATE_INPROGRESS;
use crate::derive::SAVESLOTSTATE_NEWGAME;
use crate::derive::STATE_LOADING;
use crate::derive::STATE_SAVESELECT;
use crate::settings::Settings;
use crate::settings::spec_zone_toggle;
use crate::zone::Zone;

verus! {

/// Whether the timer should start: the filtered state transitioned from
/// save-select to loading this tick, and the start variant selected by the
/// save-slot and zone-selection indices is enabled. Starting without a save
/// slot is governed by one toggle; starting on a valid slot from its first
/// zone is governed by a toggle chosen from the slot's previous status (in
/// progress, new game, or anything else for a completed slot).
pub open spec fn spec_should_start(w: Watchers, s: Settings) -> bool {
    match (w.state.previous, w.state.current) {
        (Some(st_old), Some(st_cur)) => if st_old == STATE_SAVESELECT && st_cur == STATE_LOADING {
            match (w.save_select.previous, w.save_select.current) {
                (Some(_), Some(ss_cur)) => if ss_cur == 0 {
                    s.start_nosave
                } else if 1 <= ss_cur && ss_cur <= 8 {
                    match (w.zone_select.previous, w.zone_select.current) {
                        (Some(_), Some(zs_cur)) => if zs_cur == 0 {
                            match (w.save_slot.previous, w.save_slot.current) {
                                (Some(slot_old), Some(_)) => if slot_old
                                    == SAVESLOTSTATE_INPROGRESS {
                                    s.start_no_clean_save
                                } else if slot_old == SAVESLOTSTATE_NEWGAME {
                                    s.start_clean_save
                                } else {
                                    s.start_new_game_plus
                                },
                                _ => false,
                            }
                        } else {
                            false
                        },
                        _ => false,
                    }
                } else {
                    false
                },
                _ => false,
            }
        } else {
            false
        },
        _ => false,
    }
}

/// Whether the timer should reset: either a new run is begun without a save
/// slot (save-select to loading with selection index 0), or the selected
/// slot, unchanged this tick, had its status turn into the new-game sentinel.
/// Both branches are gated by the single reset toggle.
pub open spec fn spec_should_reset(w: Watchers, s: Settings) -> bool {
    match (w.save_select.previous, w.save_select.current) {
        (Some(ss_old), Some(ss_cur)) => if ss_cur == 0 {
            match (w.state.previous, w.state.current) {
                (Some(st_old), Some(st_cur)) => st_old == STATE_SAVESELECT && st_cur
                    == STATE_LOADING && s.reset,
                _ => false,
            }
        } else if 1 <= ss_cur && ss_cur <= 8 && ss_old == ss_cur {
            match (w.save_slot.previous, w.save_slot.current) {
                (Some(slot_old), Some(slot_cur)) => slot_old != SAVESLOTSTATE_NEWGAME && slot_cur
                    == SAVESLOTSTATE_NEWGAME && s.reset,
                _ => false,
            }
        } else {
            false
        },
        _ => false,
    }
}

/// Whether the timer should split, in strict priority order: never while the
/// current zone is Angel Island Act 1; the alternate ending when the
/// game-ending flag turns on in Sky Sanctuary; the end-of-run time-bonus drop
/// to zero after Death Egg Act 2; otherwise a zone change whose previous
/// zone's toggle is enabled, where leaving Angel Island Act 1 also demands
/// that the end-of-level flag was set just before the transition.
pub open spec fn spec_should_split(w: Watchers, s: Settings) -> bool {
    match (w.levelid.previous, w.levelid.current) {
        (Some(act_old), Some(act_cur)) => match (
            w.game_ending_flag.previous,
            w.game_ending_flag.current,
        ) {
            (Some(ge_old), Some(ge_cur)) => if act_cur == Zone::AngelIslandAct1 {
                false
            } else if s.sky_sanctuary && act_cur == Zone::SkySanctuary && ge_cur && !ge_old {
                true
            } else {
                match (w.time_bonus.previous, w.time_bonus.current) {
                    (Some(tb_old), Some(tb_cur)) => match (
                        w.end_of_level_flag.previous,
                        w.end_of_level_flag.current,
                    ) {
                        (Some(eol_old), Some(eol_cur)) => if s.death_egg_2 && act_old
                            == Zone::DeathEggAct2 && tb_old != 0 && tb_cur == 0 && eol_cur {
                            true
                        } else {
                            act_old != act_cur && spec_zone_toggle(s, act_old) && (act_old
                                != Zone::AngelIslandAct1 || eol_old)
                        },
                        _ => false,
                    },
                    _ => false,
                }
            },
            _ => false,
        },
        _ => false,
    }
}

/// Decide whether to start the timer this tick.
pub fn should_start(w: &Watchers, s: &Settings) -> (b: bool)
    ensures
        b == spec_should_start(*w, *s),
{
    match (w.state.previous, w.state.current) {
        (Some(st_old), Some(st_cur)) => if st_old == STATE_SAVESELECT && st_cur == STATE_LOADING {
            match (w.save_select.previous, w.save_select.current) {
                (Some(_), Some(ss_cur)) => if ss_cur == 0 {
                    s.start_nosave
                } else if 1 <= ss_cur && ss_cur <= 8 {
                    match (w.zone_select.previous, w.zone_select.current) {
                        (Some(_), Some(zs_cur)) => if zs_cur == 0 {
                            match (w.save_slot.previous, w.save_slot.current) {
                                (Some(slot_old), Some(_)) => if slot_old
                                    == SAVESLOTSTATE_INPROGRESS {
                                    s.start_no_clean_save
                                } else if slot_old == SAVESLOTSTATE_NEWGAME {
                                    s.start_clean_save
                                } else {
                                    s.start_new_game_plus
                                },
                                _ => false,
                            }
                        } else {
                            false
                        },
                        _ => false,
                    }
                } else {
                    false
                },
                _ => false,
            }
        } else {
            false
        },
        _ => false,
    }
}

/// Decide whether to reset the timer this tick.
pub fn should_reset(w: &Watchers, s: &Settings) -> (b: bool)
    ensures
        b == spec_should_reset(*w, *s),
{
    match (w.save_select.previous, w.save_select.current) {
        (Some(ss_old), Some(ss_cur)) => if ss_cur == 0 {
            match (w.state.previous, w.state.current) {
                (Some(st_old), Some(st_cur)) => st_old == STATE_SAVESELECT && st_cur
                    == STATE_LOADING && s.reset,
                _ => false,
            }
        } else if 1 <= ss_cur && ss_cur <= 8 && ss_old == ss_cur {
            match (w.save_slot.previous, w.save_slot.current) {
                (Some(slot_old), Some(slot_cur)) => slot_old != SAVESLOTSTATE_NEWGAME && slot_cur
                    == SAVESLOTSTATE_NEWGAME && s.reset,
                _ => false,
            }
        } else {
            false
        },
        _ => false,
    }
}

/// Decide whether to split the timer this tick.
pub fn should_split(w: &Watchers, s: &Settings) -> (b: bool)
    ensures
        b == spec_should_split(*w, *s),
{
    match (w.levelid.previous, w.levelid.current) {
        (Some(act_old), Some(act_cur)) => match (
            w.game_ending_flag.previous,
            w.game_ending_flag.current,
        ) {
            (Some(ge_old), Some(ge_cur)) => if act_cur == Zone::AngelIslandAct1 {
                false
            } else if s.sky_sanctuary && act_cur == Zone::SkySanctuary && ge_cur && !ge_old {
                true
            } else {
                match (w.time_bonus.previous, w.time_bonus.current) {
                    (Some(tb_old), Some(tb_cur)) => match (
                        w.end_of_level_flag.previous,
                        w.end_of_level_flag.current,
                    ) {
                        (Some(eol_old), Some(eol_cur)) => if s.death_egg_2 && act_old
                            == Zone::DeathEggAct2 && tb_old != 0 && tb_cur == 0 && eol_cur {
                            true
                        } else {
                            act_old != act_cur && s.zone_toggle(act_old) && (act_old
                                != Zone::AngelIslandAct1 || eol_old)
                        },
                        _ => false,
                    },
                    _ => false,
                }
            },
            _ => false,
        },
        _ => false,
    }
}

/// A predicate reports no event while a sample pair it consults
/// unconditionally has no previous value: starting needs the filtered state
/// and the save-slot selection to have history.
pub proof fn lemma_start_needs_history(w: Watchers, s: Settings)
    requires
        w.state.previous is None || w.save_select.previous is None,
    ensures
        !spec_should_start(w, s),
{
}

/// Splitting needs the zone and the game-ending flag to have history; with
/// either previous value missing no split is reported.
pub proof fn lemma_split_needs_history(w: Watchers, s: Settings)
    requires
        w.levelid.previous is None || w.game_ending_flag.previous is None,
    ensures
        !spec_should_split(w, s),
{
}

/// Resetting needs the save-slot selection to have history; with its
/// previous value missing no reset is reported.
pub proof fn lemma_reset_needs_history(w: Watchers, s: Settings)
    requires
        w.save_select.previous is None,
    ensures
        !spec_should_reset(w, s),
{
}

/// On the first tick after attaching, when no sample pair has a previous
/// value yet, none of the three predicates reports an event.
pub proof fn lemma_no_history_no_event(w: Watchers, s: Settings)
    requires
        w.spec_no_history(),
    ensures
        !spec_should_start(w, s),
        !spec_should_split(w, s),
        !spec_should_reset(w, s),
{
}

/// The first derivation pass after attaching leaves every pair without a
/// previous value, so on that tick none of the three predicates reports an
/// event, whatever was read.
pub proof fn lemma_first_tick_reports_no_event(w: Watchers, raw: RawReads, s: Settings)
    requires
        w.spec_fresh(),
    ensures
        spec_derive(w, raw).spec_no_history(),
        !spec_should_start(spec_derive(w, raw), s),
        !spec_should_split(spec_derive(w, raw), s),
        !spec_should_reset(spec_derive(w, raw), s),
{
    lemma_no_history_no_event(spec_derive(w, raw), s);
}

/// No split is ever reported while the current zone is Angel Island Act 1,
/// regardless of every other sample and toggle.
pub proof fn lemma_no_split_on_first_zone(w: Watchers, s: Settings)
    requires
        w.levelid.current == Some(Zone::AngelIslandAct1),
    ensures
        !spec_should_split(w, s),
{
}

} // verus!
