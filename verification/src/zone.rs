//! The run's discrete level identifiers and the lookup from the raw composite
//! code to a zone.
//!
//! The composite code is `act_byte + zone_byte * 10`. The table covers the 25
//! playable zones plus the ending, with the known code aliases (two codes for
//! Hidden Palace's segment pair, two for Death Egg Act 2). Code 0 is ambiguous
//! between Angel Island Act 1 and the main menu: it resolves to Angel Island
//! Act 1 only while the level-started flag is set, and otherwise keeps the
//! previous zone, so that returning to the menu after a completed zone does
//! not erase the zone a later split decision needs. Any code outside the
//! table also keeps the previous zone.

use vstd::prelude::*;

verus! {

/// A discrete level segment of the run; a pure tag compared by equality.
#[derive(Clone, Copy, PartialEq, Eq, Structural, Debug, Hash)]
pub enum Zone {
    AngelIslandAct1,
    AngelIslandAct2,
    HydrocityAct1,
    HydrocityAct2,
    MarbleGardenAct1,
    MarbleGardenAct2,
    CarnivalNightAct1,
    CarnivalNightAct2,
    IceCapAct1,
    IceCapAct2,
    LaunchBaseAct1,
    LaunchBaseAct2,
    MushroomHillAct1,
    MushroomHillAct2,
    FlyingBatteryAct1,
    FlyingBatteryAct2,
    SandopolisAct1,
    SandopolisAct2,
    LavaReefAct1,
    LavaReefAct2,
    HiddenPalace,
    SkySanctuary,
    DeathEggAct1,
    DeathEggAct2,
    DoomsDay,
    Ending,
}

/// The zone that a composite code denotes, given whether the level-started
/// flag is set and which zone was current before the read.
pub open spec fn spec_zone_from_composite(composite: int, level_started: bool, prev: Zone) -> Zone {
    if composite == 0 {
        if level_started { Zone::AngelIslandAct1 } else { prev }
    } else if composite == 1 {
        Zone::AngelIslandAct2
    } else if composite == 10 {
        Zone::HydrocityAct1
    } else if composite == 11 {
        Zone::HydrocityAct2
    } else if composite == 20 {
        Zone::MarbleGardenAct1
    } else if composite == 21 {
        Zone::MarbleGardenAct2
    } else if composite == 30 {
        Zone::CarnivalNightAct1
    } else if composite == 31 {
        Zone::CarnivalNightAct2
    } else if composite == 40 {
        Zone::FlyingBatteryAct1
    } else if composite == 41 {
        Zone::FlyingBatteryAct2
    } else if composite == 50 {
        Zone::IceCapAct1
    } else if composite == 51 {
        Zone::IceCapAct2
    } else if composite == 60 {
        Zone::LaunchBaseAct1
    } else if composite == 61 {
        Zone::LaunchBaseAct2
    } else if composite == 70 {
        Zone::MushroomHillAct1
    } else if composite == 71 {
        Zone::MushroomHillAct2
    } else if composite == 80 {
        Zone::SandopolisAct1
    } else if composite == 81 {
        Zone::SandopolisAct2
    } else if composite == 90 {
        Zone::LavaReefAct1
    } else if composite == 91 || composite == 220 {
        Zone::LavaReefAct2
    } else if composite == 221 {
        Zone::HiddenPalace
    } else if composite == 100 || composite == 101 {
        Zone::SkySanctuary
    } else if composite == 110 {
        Zone::DeathEggAct1
    } else if composite == 111 || composite == 230 {
        Zone::DeathEggAct2
    } else if composite == 120 {
        Zone::DoomsDay
    } else if composite == 131 {
        Zone::Ending
    } else {
        prev
    }
}

/// Look the zone up from the two raw bytes. The composite code is computed
/// without wrapping, so every pair of bytes gets the documented lookup.
pub fn zone_from_composite(act_byte: u8, zone_byte: u8, level_started: bool, prev: Zone) -> (z:
    Zone)
    ensures
        z == spec_zone_from_composite(
            act_byte as int + zone_byte as int * 10,
            level_started,
            prev,
        ),
{
    let composite: u16 = act_byte as u16 + zone_byte as u16 * 10;
    match composite {
        0 => if level_started {
            Zone::AngelIslandAct1
        } else {
            prev
        },
        1 => Zone::AngelIslandAct2,
        10 => Zone::HydrocityAct1,
        11 => Zone::HydrocityAct2,
        20 => Zone::MarbleGardenAct1,
        21 => Zone::MarbleGardenAct2,
        30 => Zone::CarnivalNightAct1,
        31 => Zone::CarnivalNightAct2,
        40 => Zone::FlyingBatteryAct1,
        41 => Zone::FlyingBatteryAct2,
        50 => Zone::IceCapAct1,
        51 => Zone::IceCapAct2,
        60 => Zone::LaunchBaseAct1,
        61 => Zone::LaunchBaseAct2,
        70 => Zone::MushroomHillAct1,
        71 => Zone::MushroomHillAct2,
        80 => Zone::SandopolisAct1,
        81 => Zone::SandopolisAct2,
        90 => Zone::LavaReefAct1,
        91 | 220 => Zone::LavaReefAct2,
        221 => Zone::HiddenPalace,
        100 | 101 => Zone::SkySanctuary,
        110 => Zone::DeathEggAct1,
        111 | 230 => Zone::DeathEggAct2,
        120 => Zone::DoomsDay,
        131 => Zone::Ending,
        _ => prev,
    }
}

/// Deriving the zone from the same raw bytes twice gives, the second time,
/// exactly what the first derivation produced: repeated identical reads leave
/// the derived zone unchanged once it has settled.
pub proof fn lemma_zone_derivation_idempotent(
    act_byte: u8,
    zone_byte: u8,
    level_started: bool,
    prev: Zone,
)
    ensures
        spec_zone_from_composite(
            act_byte as int + zone_byte as int * 10,
            level_started,
            spec_zone_from_composite(act_byte as int + zone_byte as int * 10, level_started, prev),
        ) == spec_zone_from_composite(
            act_byte as int + zone_byte as int * 10,
            level_started,
            prev,
        ),
{
}

/// Composite code 0 without the level-started flag keeps whatever zone was
/// current before the read: the menu never erases a finished zone.
pub proof fn lemma_menu_code_keeps_zone(prev: Zone)
    ensures
        spec_zone_from_composite(0, false, prev) == prev,
{
}

} // verus!
