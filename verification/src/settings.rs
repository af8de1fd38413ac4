//! The run configuration: one boolean enable flag per zone transition, four
//! start-variant toggles and one reset toggle. The set is immutable for the
//! duration of a run and supplied externally at startup; every flag defaults
//! to enabled.

use vstd::prelude::*;
use crate::zone::Zone;

verus! {

/// The flat configuration surface of boolean toggles.
#[derive(Clone, Copy, PartialEq, Eq, Structural, Debug)]
pub struct Settings {
    /// Start the timer when a run begins without a save slot.
    pub start_nosave: bool,
    /// Start the timer when a run begins on a fresh save slot.
    pub start_clean_save: bool,
    /// Start the timer when a run begins on a save slot already in progress.
    pub start_no_clean_save: bool,
    /// Start the timer when a run begins on a completed save slot.
    pub start_new_game_plus: bool,
    /// Reset the timer when a new run is begun.
    pub reset: bool,
    pub angel_island_1: bool,
    pub angel_island_2: bool,
    pub hydrocity_1: bool,
    pub hydrocity_2: bool,
    pub marble_garden_1: bool,
    pub marble_garden_2: bool,
    pub carnival_night_1: bool,
    pub carnival_night_2: bool,
    pub ice_cap_1: bool,
    pub ice_cap_2: bool,
    pub launch_base_1: bool,
    pub launch_base_2: bool,
    pub mushroom_hill_1: bool,
    pub mushroom_hill_2: bool,
    pub flying_battery_1: bool,
    pub flying_battery_2: bool,
    pub sandopolis_1: bool,
    pub sandopolis_2: bool,
    pub lava_reef_1: bool,
    pub lava_reef_2: bool,
    pub hidden_palace: bool,
    pub sky_sanctuary: bool,
    pub death_egg_1: bool,
    pub death_egg_2: bool,
    pub doomsday: bool,
}

/// The per-zone split toggle for a zone. The ending has no toggle of its own.
pub open spec fn spec_zone_toggle(s: Settings, z: Zone) -> bool {
    match z {
        Zone::AngelIslandAct1 => s.angel_island_1,
        Zone::AngelIslandAct2 => s.angel_island_2,
        Zone::HydrocityAct1 => s.hydrocity_1,
        Zone::HydrocityAct2 => s.hydrocity_2,
        Zone::MarbleGardenAct1 => s.marble_garden_1,
        Zone::MarbleGardenAct2 => s.marble_garden_2,
        Zone::CarnivalNightAct1 => s.carnival_night_1,
        Zone::CarnivalNightAct2 => s.carnival_night_2,
        Zone::IceCapAct1 => s.ice_cap_1,
        Zone::IceCapAct2 => s.ice_cap_2,
        Zone::LaunchBaseAct1 => s.launch_base_1,
        Zone::LaunchBaseAct2 => s.launch_base_2,
        Zone::MushroomHillAct1 => s.mushroom_hill_1,
        Zone::MushroomHillAct2 => s.mushroom_hill_2,
        Zone::FlyingBatteryAct1 => s.flying_battery_1,
        Zone::FlyingBatteryAct2 => s.flying_battery_2,
        Zone::SandopolisAct1 => s.sandopolis_1,
        Zone::SandopolisAct2 => s.sandopolis_2,
        Zone::LavaReefAct1 => s.lava_reef_1,
        Zone::LavaReefAct2 => s.lava_reef_2,
        Zone::HiddenPalace => s.hidden_palace,
        Zone::SkySanctuary => s.sky_sanctuary,
        Zone::DeathEggAct1 => s.death_egg_1,
        Zone::DeathEggAct2 => s.death_egg_2,
        Zone::DoomsDay => s.doomsday,
        Zone::Ending => false,
    }
}

impl Settings {
    /// Every toggle enabled, the default configuration.
    pub open spec fn spec_all_enabled() -> Settings {
        Settings {
            start_nosave: true,
            start_clean_save: true,
            start_no_clean_save: true,
            start_new_game_plus: true,
            reset: true,
            angel_island_1: true,
            angel_island_2: true,
            hydrocity_1: true,
            hydrocity_2: true,
            marble_garden_1: true,
            marble_garden_2: true,
            carnival_night_1: true,
            carnival_night_2: true,
            ice_cap_1: true,
            ice_cap_2: true,
            launch_base_1: true,
            launch_base_2: true,
            mushroom_hill_1: true,
            mushroom_hill_2: true,
            flying_battery_1: true,
            flying_battery_2: true,
            sandopolis_1: true,
            sandopolis_2: true,
            lava_reef_1: true,
            lava_reef_2: true,
            hidden_palace: true,
            sky_sanctuary: true,
            death_egg_1: true,
            death_egg_2: true,
            doomsday: true,
        }
    }

    /// The default configuration, with every toggle enabled.
    pub fn all_enabled() -> (s: Settings)
        ensures
            s == Settings::spec_all_enabled(),
    {
        Settings {
            start_nosave: true,
            start_clean_save: true,
            start_no_clean_save: true,
            start_new_game_plus: true,
            reset: true,
            angel_island_1: true,
            angel_island_2: true,
            hydrocity_1: true,
            hydrocity_2: true,
            marble_garden_1: true,
            marble_garden_2: true,
            carnival_night_1: true,
            carnival_night_2: true,
            ice_cap_1: true,
            ice_cap_2: true,
            launch_base_1: true,
            launch_base_2: true,
            mushroom_hill_1: true,
            mushroom_hill_2: true,
            flying_battery_1: true,
            flying_battery_2: true,
            sandopolis_1: true,
            sandopolis_2: true,
            lava_reef_1: true,
            lava_reef_2: true,
            hidden_palace: true,
            sky_sanctuary: true,
            death_egg_1: true,
            death_egg_2: true,
            doomsday: true,
        }
    }

    /// Read the per-zone split toggle for `z`.
    pub fn zone_toggle(&self, z: Zone) -> (b: bool)
        ensures
            b == spec_zone_toggle(*self, z),
    {
        match z {
            Zone::AngelIslandAct1 => self.angel_island_1,
            Zone::AngelIslandAct2 => self.angel_island_2,
            Zone::HydrocityAct1 => self.hydrocity_1,
            Zone::HydrocityAct2 => self.hydrocity_2,
            Zone::MarbleGardenAct1 => self.marble_garden_1,
            Zone::MarbleGardenAct2 => self.marble_garden_2,
            Zone::CarnivalNightAct1 => self.carnival_night_1,
            Zone::CarnivalNightAct2 => self.carnival_night_2,
            Zone::IceCapAct1 => self.ice_cap_1,
            Zone::IceCapAct2 => self.ice_cap_2,
            Zone::LaunchBaseAct1 => self.launch_base_1,
            Zone::LaunchBaseAct2 => self.launch_base_2,
            Zone::MushroomHillAct1 => self.mushroom_hill_1,
            Zone::MushroomHillAct2 => self.mushroom_hill_2,
            Zone::FlyingBatteryAct1 => self.flying_battery_1,
            Zone::FlyingBatteryAct2 => self.flying_battery_2,
            Zone::SandopolisAct1 => self.sandopolis_1,
            Zone::SandopolisAct2 => self.sandopolis_2,
            Zone::LavaReefAct1 => self.lava_reef_1,
            Zone::LavaReefAct2 => self.lava_reef_2,
            Zone::HiddenPalace => self.hidden_palace,
            Zone::SkySanctuary => self.sky_sanctuary,
            Zone::DeathEggAct1 => self.death_egg_1,
            Zone::DeathEggAct2 => self.death_egg_2,
            Zone::DoomsDay => self.doomsday,
            Zone::Ending => false,
        }
    }
}

} // verus!
