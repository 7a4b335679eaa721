//! Temperature and wind-speed conversions in fixed point.
//!
//! Readings arrive in hundredths of their unit (hundredths of a kelvin,
//! hundredths of a metre per second). Converted values leave in thousandths
//! (thousandths of a degree, thousandths of a kilometre per hour): at that
//! resolution the factors 9/5 and 3.6 yield whole numbers, so nothing is
//! rounded before a value is rendered.

use vstd::prelude::*;

verus! {

/// 273.15 K, the zero of the Celsius scale, in hundredths of a kelvin.
pub const CELSIUS_ZERO: i32 = 27315;

/// The temperature `centikelvin` (hundredths of a kelvin) on the Celsius
/// scale, in thousandths of a degree: `k - 273.15`.
pub open spec fn celsius_of(centikelvin: int) -> int {
    (centikelvin - CELSIUS_ZERO) * 10
}

/// The temperature `centikelvin` (hundredths of a kelvin) on the Fahrenheit
/// scale, in thousandths of a degree: `(k - 273.15) * 9 / 5 + 32`.
pub open spec fn fahrenheit_of(centikelvin: int) -> int {
    (centikelvin - CELSIUS_ZERO) * 18 + 32000
}

/// The speed `centimeters_per_second` (hundredths of a metre per second) in
/// thousandths of a kilometre per hour: `mps * 3.6`.
pub open spec fn kmh_of(centimeters_per_second: int) -> int {
    centimeters_per_second * 36
}

/// The temperature in the unit that the display mode selects.
pub open spec fn displayed_temperature(centikelvin: int, fahrenheit: bool) -> int {
    if fahrenheit {
        fahrenheit_of(centikelvin)
    } else {
        celsius_of(centikelvin)
    }
}

/// The unit suffix that the display mode selects.
pub open spec fn unit_label(fahrenheit: bool) -> Seq<char> {
    if fahrenheit {
        "°F"@
    } else {
        "°C"@
    }
}

/// Converts hundredths of a kelvin to thousandths of a degree Celsius.
pub fn kelvin_to_celsius(centikelvin: i32) -> (millidegrees: i64)
    ensures
        millidegrees == celsius_of(centikelvin as int),
{
    (centikelvin as i64 - CELSIUS_ZERO as i64) * 10
}

/// Converts hundredths of a kelvin to thousandths of a degree Fahrenheit.
pub fn kelvin_to_fahrenheit(centikelvin: i32) -> (millidegrees: i64)
    ensures
        millidegrees == fahrenheit_of(centikelvin as int),
{
    (centikelvin as i64 - CELSIUS_ZERO as i64) * 18 + 32000
}

/// Converts hundredths of a metre per second to thousandths of a kilometre
/// per hour.
pub fn meters_per_second_to_kmh(centimeters_per_second: i32) -> (thousandths_kmh: i64)
    ensures
        thousandths_kmh == kmh_of(centimeters_per_second as int),
{
    centimeters_per_second as i64 * 36
}

/// Converts a temperature for display: Fahrenheit when `fahrenheit` is set,
/// Celsius otherwise.
pub fn display_temperature(centikelvin: i32, fahrenheit: bool) -> (millidegrees: i64)
    ensures
        millidegrees == displayed_temperature(centikelvin as int, fahrenheit),
{
    if fahrenheit {
        kelvin_to_fahrenheit(centikelvin)
    } else {
        kelvin_to_celsius(centikelvin)
    }
}

/// The suffix printed after a temperature: `°F` in Fahrenheit mode, `°C`
/// otherwise.
pub fn temperature_unit(fahrenheit: bool) -> (label: &'static str)
    ensures
        label@ == unit_label(fahrenheit),
{
    if fahrenheit {
        "°F"
    } else {
        "°C"
    }
}

/// Fahrenheit is Celsius scaled by 9/5 and shifted by 32 degrees, with no
/// remainder at this resolution.
pub proof fn lemma_fahrenheit_from_celsius(centikelvin: int)
    ensures
        5 * (fahrenheit_of(centikelvin) - 32000) == 9 * celsius_of(centikelvin),
        celsius_of(centikelvin) % 5 == 0,
        fahrenheit_of(centikelvin) == celsius_of(centikelvin) * 9 / 5 + 32000,
{
}

} // verus!
