use weather_report::category::{get_weather_emoji, symbol_for_category};

#[test]
fn clear_sky_in_any_letter_case() {
    assert_eq!(get_weather_emoji("Clear"), "☀️");
    assert_eq!(get_weather_emoji("clear"), "☀️");
    assert_eq!(get_weather_emoji("CLEAR"), "☀️");
    assert_eq!(get_weather_emoji("cLeAr"), "☀️");
}

#[test]
fn mist_and_fog_share_a_symbol() {
    assert_eq!(get_weather_emoji("Mist"), "🌫️");
    assert_eq!(get_weather_emoji("Fog"), "🌫️");
    assert_eq!(get_weather_emoji("Mist"), get_weather_emoji("Fog"));
}

#[test]
fn unknown_category_falls_back_to_the_thermometer() {
    assert_eq!(get_weather_emoji("tornado"), "🌡️");
    assert_eq!(get_weather_emoji("Tornado"), "🌡️");
    assert_eq!(get_weather_emoji(""), "🌡️");
    assert_eq!(get_weather_emoji("clear "), "🌡️");
    assert_eq!(get_weather_emoji(" clear"), "🌡️");
    assert_eq!(get_weather_emoji("clea"), "🌡️");
    assert_eq!(get_weather_emoji("clears"), "🌡️");
    assert_eq!(get_weather_emoji("haze"), "🌡️");
}

#[test]
fn every_category_of_the_table() {
    assert_eq!(get_weather_emoji("Clear"), "☀️");
    assert_eq!(get_weather_emoji("Clouds"), "☁️");
    assert_eq!(get_weather_emoji("Rain"), "🌧️");
    assert_eq!(get_weather_emoji("Snow"), "❄️");
    assert_eq!(get_weather_emoji("Thunderstorm"), "⛈️");
    assert_eq!(get_weather_emoji("Drizzle"), "🌦️");
    assert_eq!(get_weather_emoji("Mist"), "🌫️");
    assert_eq!(get_weather_emoji("Fog"), "🌫️");
}

#[test]
fn symbols_are_two_code_points() {
    for name in ["clear", "clouds", "rain", "snow", "thunderstorm", "drizzle", "mist", "fog", "other"] {
        let symbol = symbol_for_category(name);
        assert_eq!(symbol.chars().count(), 2);
        assert_eq!(symbol.chars().nth(1), Some('\u{fe0f}'));
    }
    assert_eq!(symbol_for_category("clear").chars().next(), Some('\u{2600}'));
    assert_eq!(symbol_for_category("other").chars().next(), Some('\u{1f321}'));
}

#[test]
fn lookup_of_a_lower_case_name_is_exact() {
    assert_eq!(symbol_for_category("clear"), "☀️");
    assert_eq!(symbol_for_category("clouds"), "☁️");
    assert_eq!(symbol_for_category("rain"), "🌧️");
    assert_eq!(symbol_for_category("snow"), "❄️");
    assert_eq!(symbol_for_category("thunderstorm"), "⛈️");
    assert_eq!(symbol_for_category("drizzle"), "🌦️");
    assert_eq!(symbol_for_category("mist"), "🌫️");
    assert_eq!(symbol_for_category("fog"), "🌫️");
    assert_eq!(symbol_for_category("tornado"), "🌡️");
}

#[test]
fn lookup_does_not_fold_the_case_itself() {
    // The table holds lower-case names only: folding happens before the lookup.
    assert_eq!(symbol_for_category("Clear"), "🌡️");
    assert_eq!(symbol_for_category("FOG"), "🌡️");
    assert_eq!(get_weather_emoji("FOG"), "🌫️");
}

#[test]
fn names_of_equal_length_are_told_apart() {
    // `rain`, `snow` and `mist` have four letters each; `clouds` has as many as `cloudy`.
    assert_eq!(symbol_for_category("raim"), "🌡️");
    assert_eq!(symbol_for_category("snot"), "🌡️");
    assert_eq!(symbol_for_category("cloudy"), "🌡️");
    assert_eq!(symbol_for_category("mast"), "🌡️");
}

#[test]
fn letters_beyond_ascii_do_not_match() {
    assert_eq!(get_weather_emoji("cl\u{e9}ar"), "🌡️");
    assert_eq!(get_weather_emoji("DR\u{130}ZZLE"), "🌡️");
    assert_eq!(get_weather_emoji("\u{1f327}"), "🌡️");
}
