use weather_report::units::{
    display_temperature, kelvin_to_celsius, kelvin_to_fahrenheit, meters_per_second_to_kmh,
    temperature_unit, CELSIUS_ZERO,
};

#[test]
fn celsius_zero_is_273_15_kelvin() {
    assert_eq!(CELSIUS_ZERO, 27315);
    assert_eq!(kelvin_to_celsius(27315), 0);
}

#[test]
fn celsius_subtracts_273_15() {
    assert_eq!(kelvin_to_celsius(28815), 15_000);
    assert_eq!(kelvin_to_celsius(26315), -10_000);
    assert_eq!(kelvin_to_celsius(0), -273_150);
    assert_eq!(kelvin_to_celsius(27316), 10);
    assert_eq!(kelvin_to_celsius(37315), 100_000);
}

#[test]
fn celsius_matches_the_formula_over_a_range() {
    let mut k: i32 = -50_000;
    while k <= 100_000 {
        assert_eq!(kelvin_to_celsius(k), (k as i64 - 27315) * 10);
        k += 137;
    }
}

#[test]
fn fahrenheit_scales_and_shifts() {
    assert_eq!(kelvin_to_fahrenheit(27315), 32_000);
    assert_eq!(kelvin_to_fahrenheit(28815), 59_000);
    assert_eq!(kelvin_to_fahrenheit(37315), 212_000);
    assert_eq!(kelvin_to_fahrenheit(26315), 14_000);
    assert_eq!(kelvin_to_fahrenheit(0), -459_670);
    assert_eq!(kelvin_to_fahrenheit(27316), 32_018);
    // -40 is the same on both scales.
    assert_eq!(kelvin_to_fahrenheit(23315), -40_000);
    assert_eq!(kelvin_to_celsius(23315), -40_000);
}

#[test]
fn fahrenheit_is_nine_fifths_of_celsius_plus_32() {
    let mut k: i32 = -50_000;
    while k <= 100_000 {
        let c = kelvin_to_celsius(k);
        let f = kelvin_to_fahrenheit(k);
        assert_eq!(c % 5, 0);
        assert_eq!(f, c * 9 / 5 + 32_000);
        assert_eq!(5 * (f - 32_000), 9 * c);
        k += 251;
    }
}

#[test]
fn conversions_accept_every_reading() {
    assert_eq!(kelvin_to_celsius(i32::MAX), (i32::MAX as i64 - 27315) * 10);
    assert_eq!(kelvin_to_celsius(i32::MIN), (i32::MIN as i64 - 27315) * 10);
    assert_eq!(kelvin_to_fahrenheit(i32::MAX), (i32::MAX as i64 - 27315) * 18 + 32_000);
    assert_eq!(kelvin_to_fahrenheit(i32::MIN), (i32::MIN as i64 - 27315) * 18 + 32_000);
    assert_eq!(meters_per_second_to_kmh(i32::MAX), i32::MAX as i64 * 36);
    assert_eq!(meters_per_second_to_kmh(i32::MIN), i32::MIN as i64 * 36);
}

#[test]
fn still_air_has_no_speed() {
    assert_eq!(meters_per_second_to_kmh(0), 0);
}

#[test]
fn ten_meters_per_second_is_36_kmh() {
    assert_eq!(meters_per_second_to_kmh(1000), 36_000);
}

#[test]
fn wind_speed_is_scaled_by_3_6() {
    assert_eq!(meters_per_second_to_kmh(500), 18_000);
    assert_eq!(meters_per_second_to_kmh(1), 36);
    assert_eq!(meters_per_second_to_kmh(277), 9_972);
    assert_eq!(meters_per_second_to_kmh(-100), -3_600);
}

#[test]
fn display_mode_selects_the_scale() {
    assert_eq!(display_temperature(28815, false), 15_000);
    assert_eq!(display_temperature(28815, true), 59_000);
    assert_eq!(display_temperature(26315, false), kelvin_to_celsius(26315));
    assert_eq!(display_temperature(26315, true), kelvin_to_fahrenheit(26315));
}

#[test]
fn display_mode_selects_the_unit() {
    assert_eq!(temperature_unit(false), "°C");
    assert_eq!(temperature_unit(true), "°F");
}
