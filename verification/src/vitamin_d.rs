//! Vitamin D from the sun: the tables behind the recommendation. The
//! ultraviolet index and the latitude are real numbers; what is decided
//! here depends only on the band each of them falls in.

use vstd::prelude::*;

verus! {

/// The skin type assumed where none is given (Fitzpatrick scale).
pub const DEFAULT_SKIN_TYPE: u8 = 4;

/// Fewest minutes of sun that are recommended.
pub const MIN_SUN_MINUTES: u32 = 10;

/// Most minutes of sun that are recommended.
pub const MAX_SUN_MINUTES: u32 = 120;

/// The band of the ultraviolet index.
#[derive(Clone, Copy, Debug, PartialEq, Eq, Structural)]
pub enum UvBand {
    /// Below 2.
    Below2,
    /// From 2, below 3.
    Below3,
    /// From 3, below 4.
    Below4,
    /// From 4, below 5.
    Below5,
    /// 5 and above.
    From5,
}

/// The band of the latitude.
#[derive(Clone, Copy, Debug, PartialEq, Eq, Structural)]
pub enum LatitudeBand {
    /// Above 45 degrees.
    Above45,
    /// Above 35 and up to 45 degrees.
    Above35,
    /// Up to 35 degrees.
    Lower,
}

/// Which note goes with the recommendation.
#[derive(Clone, Copy, Debug, PartialEq, Eq, Structural)]
pub enum UvNote {
    VeryLow,
    Moderate,
    Good,
}

/// The skin type used: the given one, or the default.
pub fn skin_type_or_default(skin_type: Option<u8>) -> (skin: u8)
    ensures
        skin == match skin_type {
            Some(skin) => skin,
            None => DEFAULT_SKIN_TYPE,
        },
{
    match skin_type {
        Some(skin) => skin,
        None => DEFAULT_SKIN_TYPE,
    }
}

/// Minutes to the minimal erythemal dose at index 6, by skin type; an
/// unknown type counts as type 4.
pub open spec fn base_med_minutes_of(skin: int) -> int {
    if skin == 1 {
        10
    } else if skin == 2 {
        15
    } else if skin == 3 {
        20
    } else if skin == 4 {
        30
    } else if skin == 5 {
        45
    } else if skin == 6 {
        60
    } else {
        30
    }
}

/// Minutes to the minimal erythemal dose at index 6.
pub fn base_med_minutes(skin: u8) -> (minutes: u32)
    ensures
        minutes == base_med_minutes_of(skin as int),
{
    match skin {
        1 => 10,
        2 => 15,
        3 => 20,
        4 => 30,
        5 => 45,
        6 => 60,
        _ => 30,
    }
}

/// The minutes recommended, kept between `MIN_SUN_MINUTES` and
/// `MAX_SUN_MINUTES`.
pub fn clamp_minutes(adjusted: u32) -> (minutes: u32)
    ensures
        minutes == if adjusted < MIN_SUN_MINUTES {
            MIN_SUN_MINUTES
        } else if adjusted > MAX_SUN_MINUTES {
            MAX_SUN_MINUTES
        } else {
            adjusted
        },
{
    if adjusted < MIN_SUN_MINUTES {
        MIN_SUN_MINUTES
    } else if adjusted > MAX_SUN_MINUTES {
        MAX_SUN_MINUTES
    } else {
        adjusted
    }
}

/// The hours of the day with the best sun. Far north the window is narrow
/// all year; between 35 and 45 degrees it follows the season; further south
/// it is wide all year.
pub open spec fn best_window_of(latitude: LatitudeBand, month: int) -> Seq<char> {
    match latitude {
        LatitudeBand::Above45 => "11:30 - 13:30"@,
        LatitudeBand::Above35 => if month == 11 || month == 12 || month == 1 || month == 2 {
            "11:00 - 14:00"@
        } else if month == 3 || month == 4 || month == 9 || month == 10 {
            "11:00 - 15:00"@
        } else {
            "10:00 - 16:00"@
        },
        LatitudeBand::Lower => "10:00 - 16:00"@,
    }
}

/// The hours of the day with the best sun.
pub fn best_window(latitude: LatitudeBand, month: u32) -> (window: &'static str)
    ensures
        window@ == best_window_of(latitude, month as int),
{
    match latitude {
        LatitudeBand::Above45 => "11:30 - 13:30",
        LatitudeBand::Above35 => {
            if month == 11 || month == 12 || month == 1 || month == 2 {
                "11:00 - 14:00"
            } else if month == 3 || month == 4 || month == 9 || month == 10 {
                "11:00 - 15:00"
            } else {
                "10:00 - 16:00"
            }
        },
        LatitudeBand::Lower => "10:00 - 16:00",
    }
}

/// International units of vitamin D3 to supplement per day. Below index 3
/// the sun gives little, below 5 it helps, from 5 on it suffices for
/// lighter skin; darker skin needs more throughout.
pub open spec fn d3_supplement_of(uv: UvBand, skin: int) -> int {
    match uv {
        UvBand::Below2 | UvBand::Below3 => if 1 <= skin <= 2 {
            2000
        } else if 3 <= skin <= 4 {
            3000
        } else {
            4000
        },
        UvBand::Below4 | UvBand::Below5 => if 1 <= skin <= 2 {
            1000
        } else if 3 <= skin <= 4 {
            2000
        } else {
            3000
        },
        UvBand::From5 => if 1 <= skin <= 3 {
            0
        } else {
            1000
        },
    }
}

/// International units of vitamin D3 to supplement per day.
pub fn d3_supplement(uv: UvBand, skin: u8) -> (units: u32)
    ensures
        units == d3_supplement_of(uv, skin as int),
{
    match uv {
        UvBand::Below2 | UvBand::Below3 => {
            if 1 <= skin && skin <= 2 {
                2000
            } else if 3 <= skin && skin <= 4 {
                3000
            } else {
                4000
            }
        },
        UvBand::Below4 | UvBand::Below5 => {
            if 1 <= skin && skin <= 2 {
                1000
            } else if 3 <= skin && skin <= 4 {
                2000
            } else {
                3000
            }
        },
        UvBand::From5 => {
            if 1 <= skin && skin <= 3 {
                0
            } else {
                1000
            }
        },
    }
}

/// Which note goes with an index: very low below 2, moderate below 4, good
/// from 4 on.
pub fn uv_note(uv: UvBand) -> (note: UvNote)
    ensures
        note == match uv {
            UvBand::Below2 => UvNote::VeryLow,
            UvBand::Below3 => UvNote::Moderate,
            UvBand::Below4 => UvNote::Moderate,
            UvBand::Below5 => UvNote::Good,
            UvBand::From5 => UvNote::Good,
        },
{
    match uv {
        UvBand::Below2 => UvNote::VeryLow,
        UvBand::Below3 | UvBand::Below4 => UvNote::Moderate,
        UvBand::Below5 | UvBand::From5 => UvNote::Good,
    }
}

} // verus!
