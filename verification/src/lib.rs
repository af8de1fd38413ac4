//! State-inference engine for a speedrun autosplitter: watcher pairs that
//! remember the last two samples of each observed quantity, a per-tick state
//! derivation from raw memory bytes, and the pure decision predicates that
//! turn those samples into start, split and reset events.

mod control;
mod decide;
mod derive;
mod settings;
mod watcher;
mod zone;

pub use control::ControlAction;
pub use control::TimerPhase;
pub use control::control_action;
pub use control::lemma_reset_preempts_split;
pub use control::spec_control_action;
pub use control::spec_start_action;
pub use control::start_action;
pub use decide::lemma_first_tick_reports_no_event;
pub use decide::lemma_no_history_no_event;
pub use decide::lemma_no_split_on_first_zone;
pub use decide::lemma_reset_needs_history;
pub use decide::lemma_split_needs_history;
pub use decide::lemma_start_needs_history;
pub use decide::should_reset;
pub use decide::should_split;
pub use decide::should_start;
pub use decide::spec_should_reset;
pub use decide::spec_should_split;
pub use decide::spec_should_start;
pub use derive::RawReads;
pub use derive::Watchers;
pub use derive::be_word;
pub use derive::derive_tick;
pub use derive::lemma_menu_read_keeps_current_zone;
pub use derive::lemma_repeated_reads_settle_zone;
pub use derive::spec_derive;
pub use derive::save_slot_offset;
pub use derive::spec_derived_save_slot;
pub use derive::spec_derived_zone;
pub use derive::spec_derived_zone_select;
pub use derive::spec_filtered_state;
pub use derive::spec_time_bonus;
pub use derive::value_or;
pub use derive::zone_select_offset;
pub use derive::OFFSET_ACT;
pub use derive::OFFSET_END_OF_LEVEL;
pub use derive::OFFSET_GAME_ENDING;
pub use derive::OFFSET_LEVEL_STARTED;
pub use derive::OFFSET_SAVE_SELECT;
pub use derive::OFFSET_SAVE_SLOT_BASE;
pub use derive::OFFSET_STATE;
pub use derive::OFFSET_TIME_BONUS;
pub use derive::OFFSET_ZONE;
pub use derive::OFFSET_ZONE_SELECT_BASE;
pub use derive::SAVESLOTSTATE_INPROGRESS;
pub use derive::SAVESLOTSTATE_NEWGAME;
pub use derive::SAVE_SLOT_STRIDE;
pub use derive::STATE_INGAME;
pub use derive::STATE_LOADING;
pub use derive::STATE_SAVESELECT;
pub use derive::ZONE_SELECT_STRIDE;
pub use settings::Settings;
pub use settings::spec_zone_toggle;
pub use watcher::Watcher;
pub use zone::Zone;
pub use zone::spec_zone_from_composite;
pub use zone::zone_from_composite;
pub use zone::lemma_zone_derivation_idempotent;
pub use zone::lemma_menu_code_keeps_zone;
