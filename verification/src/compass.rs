//! Wind direction on the sixteen-point compass rose.
//!
//! A bearing is a whole number of hundredths of a degree, measured clockwise
//! from true north. Each of the sixteen points owns a sector of 22.5 degrees
//! centred on it, so north owns the bearings from 348.75 degrees up to, but
//! not including, 11.25 degrees.

use vstd::prelude::*;

verus! {

/// A full turn, in hundredths of a degree.
pub const FULL_TURN: i64 = 36000;

/// The width of one sector, 22.5 degrees, in hundredths of a degree.
pub const SECTOR_WIDTH: i64 = 2250;

/// Half the width of a sector, 11.25 degrees, in hundredths of a degree.
pub const HALF_SECTOR: i64 = 1125;

/// The text printed when the reading carries no wind bearing.
pub open spec fn no_direction() -> Seq<char> {
    "-"@
}

/// The number of the sector that holds `bearing`: 0 for north, counting
/// clockwise up to 15 for north-north-west. The bearing is shifted by half a
/// sector and reduced to a single turn (never negative) before it is divided,
/// so bearings just below a full turn fall back to north and a negative
/// bearing is read counter-clockwise from north.
pub open spec fn sector_of(bearing: int) -> int {
    ((bearing + HALF_SECTOR) % (FULL_TURN as int)) / (SECTOR_WIDTH as int)
}

/// The name of the compass point with the given sector number.
pub open spec fn point_name(sector: int) -> Seq<char> {
    if sector == 0 {
        "N"@
    } else if sector == 1 {
        "NNE"@
    } else if sector == 2 {
        "NE"@
    } else if sector == 3 {
        "ENE"@
    } else if sector == 4 {
        "E"@
    } else if sector == 5 {
        "ESE"@
    } else if sector == 6 {
        "SE"@
    } else if sector == 7 {
        "SSE"@
    } else if sector == 8 {
        "S"@
    } else if sector == 9 {
        "SSW"@
    } else if sector == 10 {
        "SW"@
    } else if sector == 11 {
        "WSW"@
    } else if sector == 12 {
        "W"@
    } else if sector == 13 {
        "WNW"@
    } else if sector == 14 {
        "NW"@
    } else {
        "NNW"@
    }
}

/// The direction text for an optional bearing: the name of its compass point,
/// or the placeholder when there is none.
pub open spec fn direction_text(bearing: Option<i32>) -> Seq<char> {
    match bearing {
        Some(b) => point_name(sector_of(b as int)),
        None => no_direction(),
    }
}

/// Computes the sector number of a bearing given in hundredths of a degree.
pub fn compass_sector(bearing: i32) -> (sector: usize)
    ensures
        sector == sector_of(bearing as int),
        sector < 16,
{
    let shifted: i64 = bearing as i64 + HALF_SECTOR;
    // The remainder of a negative number is negative or zero: wrap it back
    // into the turn.
    let remainder: i64 = shifted % FULL_TURN;
    let within_turn: i64 = if remainder < 0 {
        remainder + FULL_TURN
    } else {
        remainder
    };
    (within_turn / SECTOR_WIDTH) as usize
}

/// The name of the compass point with sector number `sector`.
pub fn compass_point(sector: usize) -> (name: &'static str)
    requires
        sector < 16,
    ensures
        name@ == point_name(sector as int),
{
    if sector == 0 {
        "N"
    } else if sector == 1 {
        "NNE"
    } else if sector == 2 {
        "NE"
    } else if sector == 3 {
        "ENE"
    } else if sector == 4 {
        "E"
    } else if sector == 5 {
        "ESE"
    } else if sector == 6 {
        "SE"
    } else if sector == 7 {
        "SSE"
    } else if sector == 8 {
        "S"
    } else if sector == 9 {
        "SSW"
    } else if sector == 10 {
        "SW"
    } else if sector == 11 {
        "WSW"
    } else if sector == 12 {
        "W"
    } else if sector == 13 {
        "WNW"
    } else if sector == 14 {
        "NW"
    } else {
        "NNW"
    }
}

/// The compass point from which a wind of the given bearing (hundredths of a
/// degree) blows.
pub fn get_wind_direction(bearing: i32) -> (name: &'static str)
    ensures
        name@ == point_name(sector_of(bearing as int)),
{
    compass_point(compass_sector(bearing))
}

/// The direction text for a reading: the compass point of its bearing, or
/// `-` when the provider sent no bearing.
pub fn wind_direction_label(bearing: Option<i32>) -> (name: &'static str)
    ensures
        name@ == direction_text(bearing),
{
    match bearing {
        Some(b) => get_wind_direction(b),
        None => "-",
    }
}

/// Every bearing falls in one of the sixteen sectors.
pub proof fn lemma_sector_in_range(bearing: int)
    ensures
        0 <= sector_of(bearing) < 16,
{
}

/// Bearings that differ by whole turns share a sector.
pub proof fn lemma_sector_periodic(bearing: int, turns: int)
    ensures
        sector_of(bearing + turns * FULL_TURN) == sector_of(bearing),
{
    assert((bearing + HALF_SECTOR + turns * 36000) % 36000 == (bearing + HALF_SECTOR) % 36000) by {
        vstd::arithmetic::div_mod::lemma_mod_multiples_vanish(turns, bearing + HALF_SECTOR, 36000);
    }
}

/// North owns the end of one turn and the start of the next: from 348.75
/// degrees through a full turn up to, but not including, 371.25 degrees.
pub proof fn lemma_north_spans_the_turn(bearing: int)
    requires
        FULL_TURN - HALF_SECTOR <= bearing < FULL_TURN + HALF_SECTOR,
    ensures
        sector_of(bearing) == 0,
{
}

/// Sector `k` holds exactly the bearings within half a sector of its centre
/// `k * 22.5` degrees: the lower edge belongs to it, the upper edge to the
/// next sector.
pub proof fn lemma_sector_centred(k: int, offset: int)
    requires
        0 <= k < 16,
        -HALF_SECTOR <= offset < HALF_SECTOR,
    ensures
        sector_of(k * SECTOR_WIDTH + offset) == k,
{
}

} // verus!
