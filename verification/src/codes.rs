//! The enum codec: total mappings from 8-bit codes to the two game versions
//! and to the named underground rooms, with a silent default for every code
//! outside the documented ranges.

use vstd::prelude::*;

verus! {

/// Which of the two paired game versions the engine simulates.
#[derive(Clone, Copy, PartialEq, Eq, Structural, Debug)]
pub enum Version {
    Primary,
    Secondary,
}

/// The named underground rooms. `TyphloCavern` doubles as the designed
/// fallback for every code outside `2..=18`: unrecognized codes are not an
/// error, they resolve to this baseline room.
#[derive(Clone, Copy, PartialEq, Eq, Structural, Debug)]
pub enum RoomType {
    SpaciousCave,
    GrasslandCave,
    FountainspringCave,
    RockyCave,
    VolcanicCave,
    SwampyCave,
    DazzlingCave,
    WhiteoutCave,
    IcyCave,
    RiverbankCave,
    SandsearCave,
    StillWaterCavern,
    SunlitCavern,
    BigBluffCavern,
    StargleamCavern,
    GlacialCavern,
    BogsunkCavern,
    TyphloCavern,
}

/// Code `2` selects the primary version; every other 8-bit code selects the
/// secondary one.
pub open spec fn version_spec(code: u8) -> Version {
    if code == 2 {
        Version::Primary
    } else {
        Version::Secondary
    }
}

/// Codes `2..=18` select the seventeen named rooms in table order; every
/// other code falls back to the default cavern.
pub open spec fn room_spec(code: u8) -> RoomType {
    match code {
        2 => RoomType::SpaciousCave,
        3 => RoomType::GrasslandCave,
        4 => RoomType::FountainspringCave,
        5 => RoomType::RockyCave,
        6 => RoomType::VolcanicCave,
        7 => RoomType::SwampyCave,
        8 => RoomType::DazzlingCave,
        9 => RoomType::WhiteoutCave,
        10 => RoomType::IcyCave,
        11 => RoomType::RiverbankCave,
        12 => RoomType::SandsearCave,
        13 => RoomType::StillWaterCavern,
        14 => RoomType::SunlitCavern,
        15 => RoomType::BigBluffCavern,
        16 => RoomType::StargleamCavern,
        17 => RoomType::GlacialCavern,
        18 => RoomType::BogsunkCavern,
        _ => RoomType::TyphloCavern,
    }
}

/// Decodes a version code. Total: no code is rejected.
pub fn version_of(code: u8) -> (v: Version)
    ensures
        v == version_spec(code),
{
    match code {
        2 => Version::Primary,
        _ => Version::Secondary,
    }
}

/// Decodes a room code. Total: no code is rejected.
pub fn room_of(code: u8) -> (r: RoomType)
    ensures
        r == room_spec(code),
{
    match code {
        2 => RoomType::SpaciousCave,
        3 => RoomType::GrasslandCave,
        4 => RoomType::FountainspringCave,
        5 => RoomType::RockyCave,
        6 => RoomType::VolcanicCave,
        7 => RoomType::SwampyCave,
        8 => RoomType::DazzlingCave,
        9 => RoomType::WhiteoutCave,
        10 => RoomType::IcyCave,
        11 => RoomType::RiverbankCave,
        12 => RoomType::SandsearCave,
        13 => RoomType::StillWaterCavern,
        14 => RoomType::SunlitCavern,
        15 => RoomType::BigBluffCavern,
        16 => RoomType::StargleamCavern,
        17 => RoomType::GlacialCavern,
        18 => RoomType::BogsunkCavern,
        _ => RoomType::TyphloCavern,
    }
}

/// Law: the room mapping is total and collision-free. Codes `2..=18` hit
/// seventeen distinct named rooms, none of which is the default cavern, and
/// every code outside `2..=18` resolves to the default cavern.
pub proof fn lemma_room_codes(a: u8, b: u8)
    ensures
        2 <= a <= 18 && 2 <= b <= 18 && a != b ==> room_spec(a) != room_spec(b),
        2 <= a <= 18 ==> room_spec(a) != RoomType::TyphloCavern,
        !(2 <= a <= 18) ==> room_spec(a) == RoomType::TyphloCavern,
{
}

/// Law: the version mapping is total, with `2` the one primary code.
pub proof fn lemma_version_codes(a: u8)
    ensures
        a == 2 <==> version_spec(a) == Version::Primary,
        a != 2 <==> version_spec(a) == Version::Secondary,
{
}

} // verus!
