//! One derivation pass per polling tick: the raw bytes read from the game's
//! work memory are turned into the derived observation set and pushed into
//! the watchers, always as a whole set in a fixed order.
//!
//! Reads that fail at the memory boundary are substituted with zero before
//! they reach this module, so derivation itself never fails.

use vstd::prelude::*;
use crate::watcher::Watcher;
use crate::zone::Zone;
use crate::zone::spec_zone_from_composite;
use crate::zone::zone_from_composite;

verus! {

/// Raw game-state byte while a level is being played.
pub const STATE_INGAME: u8 = 0x0C;

/// Raw game-state byte on the save-select screen.
pub const STATE_SAVESELECT: u8 = 0x4C;

/// Raw game-state byte while a level is loading.
pub const STATE_LOADING: u8 = 0x8C;

/// Save-slot status byte of a freshly created save.
pub const SAVESLOTSTATE_NEWGAME: u8 = 0x80;

/// Save-slot status byte of a save already in progress.
pub const SAVESLOTSTATE_INPROGRESS: u8 = 0x00;

/// Work-memory offset of the save-slot-selection index.
pub const OFFSET_SAVE_SELECT: u64 = 0xEF4B;

/// Work-memory offset of the raw game-state byte.
pub const OFFSET_STATE: u64 = 0xF600;

/// Work-memory offset of the first save slot's status byte.
pub const OFFSET_SAVE_SLOT_BASE: u64 = 0xE6AC;

/// Distance between consecutive save slots' status bytes.
pub const SAVE_SLOT_STRIDE: u64 = 0xA;

/// Work-memory offset of the first save slot's zone-selection index.
pub const OFFSET_ZONE_SELECT_BASE: u64 = 0xB15F;

/// Distance between consecutive save slots' zone-selection indices.
pub const ZONE_SELECT_STRIDE: u64 = 0x4A;

/// Work-memory offset of the act byte.
pub const OFFSET_ACT: u64 = 0xEE4F;

/// Work-memory offset of the zone byte.
pub const OFFSET_ZONE: u64 = 0xEE4E;

/// Work-memory offset of the level-started flag.
pub const OFFSET_LEVEL_STARTED: u64 = 0xF711;

/// Work-memory offset of the end-of-level flag.
pub const OFFSET_END_OF_LEVEL: u64 = 0xFAA8;

/// Work-memory offset of the game-ending flag.
pub const OFFSET_GAME_ENDING: u64 = 0xEF72;

/// Work-memory offset of the time-bonus counter, stored big-endian.
pub const OFFSET_TIME_BONUS: u64 = 0xF7D2;

/// The seven independently tracked quantities, each as a sample pair. They
/// are mutated only by [`derive_tick`], once per tick, as a whole set.
#[derive(Clone, Copy, Debug)]
pub struct Watchers {
    pub levelid: Watcher<Zone>,
    pub state: Watcher<u8>,
    pub end_of_level_flag: Watcher<bool>,
    pub game_ending_flag: Watcher<bool>,
    pub time_bonus: Watcher<u16>,
    pub save_select: Watcher<u8>,
    pub zone_select: Watcher<u8>,
    pub save_slot: Watcher<u8>,
}

/// The raw bytes one tick reads from work memory, already substituted with
/// zero where the read failed. `save_slot` and `zone_select` carry the bytes
/// at the per-slot offsets and are consulted only when the derivation rules
/// call for them.
#[derive(Clone, Copy, Debug)]
pub struct RawReads {
    /// Byte at [`OFFSET_STATE`].
    pub state: u8,
    /// Byte at [`OFFSET_SAVE_SELECT`].
    pub save_select: u8,
    /// Byte at [`save_slot_offset`] of the selected slot.
    pub save_slot: u8,
    /// Byte at [`zone_select_offset`] of the selected slot.
    pub zone_select: u8,
    /// Byte at [`OFFSET_ACT`].
    pub act: u8,
    /// Byte at [`OFFSET_ZONE`].
    pub zone: u8,
    /// Byte at [`OFFSET_LEVEL_STARTED`].
    pub level_started: u8,
    /// Byte at [`OFFSET_END_OF_LEVEL`].
    pub end_of_level: u8,
    /// Byte at [`OFFSET_GAME_ENDING`].
    pub game_ending: u8,
    /// High byte of the big-endian word at [`OFFSET_TIME_BONUS`].
    pub time_bonus_hi: u8,
    /// Low byte of the big-endian word at [`OFFSET_TIME_BONUS`].
    pub time_bonus_lo: u8,
}

/// The value of an optional sample, or a default where none exists yet.
pub open spec fn value_or<T>(sample: Option<T>, dflt: T) -> T {
    match sample {
        Some(v) => v,
        None => dflt,
    }
}

/// The filtered state: the raw state byte, except that the in-game value is
/// suppressed and the last meaningful state is kept instead.
pub open spec fn spec_filtered_state(w: Watchers, raw: RawReads) -> u8 {
    if raw.state != STATE_INGAME {
        raw.state
    } else {
        value_or(w.state.current, 0)
    }
}

/// The save-slot status: re-derived from the selected slot only outside the
/// in-game state and only while the selection index is in the valid range;
/// otherwise the previous value is kept.
pub open spec fn spec_derived_save_slot(w: Watchers, raw: RawReads) -> u8 {
    if raw.state != STATE_INGAME && 1 <= raw.save_select && raw.save_select <= 8 {
        raw.save_slot
    } else {
        value_or(w.save_slot.current, 0)
    }
}

/// The zone-selection index: read from the selected slot while the selection
/// index is in the valid range; otherwise the previous value is kept.
pub open spec fn spec_derived_zone_select(w: Watchers, raw: RawReads) -> u8 {
    if 1 <= raw.save_select && raw.save_select <= 8 {
        raw.zone_select
    } else {
        value_or(w.zone_select.current, 0)
    }
}

/// The current zone, looked up from the composite code with the previous
/// zone (the first playable zone before anything was observed) as fallback.
pub open spec fn spec_derived_zone(w: Watchers, raw: RawReads) -> Zone {
    spec_zone_from_composite(
        raw.act as int + raw.zone as int * 10,
        raw.level_started != 0,
        value_or(w.levelid.current, Zone::AngelIslandAct1),
    )
}

/// The time-bonus counter, normalized from its big-endian bytes.
pub open spec fn spec_time_bonus(raw: RawReads) -> u16 {
    (raw.time_bonus_hi as u16 * 256 + raw.time_bonus_lo as u16) as u16
}

impl Watchers {
    /// No quantity has been observed yet: the state right after attaching to
    /// a process.
    pub open spec fn spec_fresh(self) -> bool {
        &&& self.levelid.current is None
        &&& self.state.current is None
        &&& self.end_of_level_flag.current is None
        &&& self.game_ending_flag.current is None
        &&& self.time_bonus.current is None
        &&& self.save_select.current is None
        &&& self.zone_select.current is None
        &&& self.save_slot.current is None
        &&& self.spec_no_history()
    }

    /// No quantity has a previous value yet: the first tick after attaching.
    pub open spec fn spec_no_history(self) -> bool {
        &&& self.levelid.previous is None
        &&& self.state.previous is None
        &&& self.end_of_level_flag.previous is None
        &&& self.game_ending_flag.previous is None
        &&& self.time_bonus.previous is None
        &&& self.save_select.previous is None
        &&& self.zone_select.previous is None
        &&& self.save_slot.previous is None
    }

    /// A fresh watcher set, as created on each new process attachment.
    pub fn new() -> (w: Watchers)
        ensures
            w.spec_fresh(),
    {
        Watchers {
            levelid: Watcher::new(),
            state: Watcher::new(),
            end_of_level_flag: Watcher::new(),
            game_ending_flag: Watcher::new(),
            time_bonus: Watcher::new(),
            save_select: Watcher::new(),
            zone_select: Watcher::new(),
            save_slot: Watcher::new(),
        }
    }
}

/// The whole watcher set after one derivation pass over this tick's raw
/// bytes: every quantity is shifted exactly once, with the derivation rules
/// applied against the set as it stood before the pass.
pub open spec fn spec_derive(w: Watchers, raw: RawReads) -> Watchers {
    Watchers {
        levelid: w.levelid.spec_updated(spec_derived_zone(w, raw)),
        state: w.state.spec_updated(spec_filtered_state(w, raw)),
        end_of_level_flag: w.end_of_level_flag.spec_updated(raw.end_of_level != 0),
        game_ending_flag: w.game_ending_flag.spec_updated(raw.game_ending != 0),
        time_bonus: w.time_bonus.spec_updated(spec_time_bonus(raw)),
        save_select: w.save_select.spec_updated(raw.save_select),
        zone_select: w.zone_select.spec_updated(spec_derived_zone_select(w, raw)),
        save_slot: w.save_slot.spec_updated(spec_derived_save_slot(w, raw)),
    }
}

/// Combine the two bytes of a big-endian word into its native value.
pub fn be_word(hi: u8, lo: u8) -> (v: u16)
    ensures
        v == hi as int * 256 + lo as int,
{
    hi as u16 * 256 + lo as u16
}

/// The work-memory offset of the selected save slot's status byte.
pub fn save_slot_offset(save_select: u8) -> (o: u64)
    requires
        1 <= save_select <= 8,
    ensures
        o == OFFSET_SAVE_SLOT_BASE + SAVE_SLOT_STRIDE * (save_select - 1),
{
    OFFSET_SAVE_SLOT_BASE + SAVE_SLOT_STRIDE * (save_select as u64 - 1)
}

/// The work-memory offset of the selected save slot's zone-selection index.
pub fn zone_select_offset(save_select: u8) -> (o: u64)
    requires
        1 <= save_select <= 8,
    ensures
        o == OFFSET_ZONE_SELECT_BASE + ZONE_SELECT_STRIDE * (save_select - 1),
{
    OFFSET_ZONE_SELECT_BASE + ZONE_SELECT_STRIDE * (save_select as u64 - 1)
}

/// One full derivation pass: apply the derivation rules to the raw bytes of
/// this tick and shift every watcher once, in a fixed order.
pub fn derive_tick(watchers: &mut Watchers, raw: &RawReads)
    ensures
        *final(watchers) == spec_derive(*old(watchers), *raw),
{
    let filtered_state: u8 = if raw.state != STATE_INGAME {
        raw.state
    } else {
        match watchers.state.current {
            Some(v) => v,
            None => 0,
        }
    };
    let slot: u8 = if raw.state != STATE_INGAME && 1 <= raw.save_select && raw.save_select <= 8 {
        raw.save_slot
    } else {
        match watchers.save_slot.current {
            Some(v) => v,
            None => 0,
        }
    };
    let zone_sel: u8 = if 1 <= raw.save_select && raw.save_select <= 8 {
        raw.zone_select
    } else {
        match watchers.zone_select.current {
            Some(v) => v,
            None => 0,
        }
    };
    let prev_zone: Zone = match watchers.levelid.current {
        Some(z) => z,
        None => Zone::AngelIslandAct1,
    };
    let zone = zone_from_composite(raw.act, raw.zone, raw.level_started != 0, prev_zone);
    let time_bonus = be_word(raw.time_bonus_hi, raw.time_bonus_lo);

    watchers.levelid.update(zone);
    watchers.state.update(filtered_state);
    watchers.end_of_level_flag.update(raw.end_of_level != 0);
    watchers.game_ending_flag.update(raw.game_ending != 0);
    watchers.time_bonus.update(time_bonus);
    watchers.save_select.update(raw.save_select);
    watchers.zone_select.update(zone_sel);
    watchers.save_slot.update(slot);
}

/// Composite code 0 without the level-started flag leaves the derived zone
/// exactly as it was before the read: for that tick the zone round-trips.
pub proof fn lemma_menu_read_keeps_current_zone(w: Watchers, raw: RawReads, z: Zone)
    requires
        raw.act == 0,
        raw.zone == 0,
        raw.level_started == 0,
        w.levelid.current == Some(z),
    ensures
        spec_derived_zone(w, raw) == z,
{
}

/// Ticks that read the same act byte, zone byte and level-started flag leave
/// the derived zone where the first of them put it: the zone settles after
/// one read and repeated identical reads keep it unchanged.
pub proof fn lemma_repeated_reads_settle_zone(w: Watchers, first: RawReads, second: RawReads)
    requires
        first.act == second.act,
        first.zone == second.zone,
        first.level_started == second.level_started,
    ensures
        spec_derive(spec_derive(w, first), second).levelid.current == spec_derive(
            w,
            first,
        ).levelid.current,
{
    crate::zone::lemma_zone_derivation_idempotent(
        first.act,
        first.zone,
        first.level_started != 0,
        value_or(w.levelid.current, Zone::AngelIslandAct1),
    );
}

} // verus!
