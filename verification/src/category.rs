//! The symbol shown beside a weather category.
//!
//! The provider names the kind of weather in free text. The name is folded to
//! lower case and looked up; a name that the table does not hold gets the
//! thermometer, so every text has a symbol.

use vstd::prelude::*;

verus! {

/// The lower-case form of `text` as `str::to_lowercase` computes it, by the
/// Unicode case mappings that the standard library carries.
pub uninterp spec fn lowercase_of(text: Seq<char>) -> Seq<char>;

/// The symbol for a category name that is already in lower case.
pub open spec fn symbol_of(category: Seq<char>) -> Seq<char> {
    if category == "clear"@ {
        "☀️"@
    } else if category == "clouds"@ {
        "☁️"@
    } else if category == "rain"@ {
        "🌧️"@
    } else if category == "snow"@ {
        "❄️"@
    } else if category == "thunderstorm"@ {
        "⛈️"@
    } else if category == "drizzle"@ {
        "🌦️"@
    } else if category == "mist"@ {
        "🌫️"@
    } else if category == "fog"@ {
        "🌫️"@
    } else {
        "🌡️"@
    }
}

/// Folds `text` to lower case with `str::to_lowercase` of the standard
/// library. Nothing is claimed of the result but that it is the value of
/// [`lowercase_of`] at `text`: the same text always folds to the same text.
#[verifier::external_body]
fn lowercase(text: &str) -> (lowered: String)
    ensures
        lowered@ == lowercase_of(text@),
{
    text.to_lowercase()
}

/// Whether two texts hold the same characters.
fn same_text(left: &str, right: &str) -> (same: bool)
    ensures
        same == (left@ == right@),
{
    let length: usize = left.unicode_len();
    if length != right.unicode_len() {
        return false;
    }
    let mut at: usize = 0;
    while at < length
        invariant
            length == left@.len(),
            length == right@.len(),
            at <= length,
            forall|i: int| 0 <= i < at ==> left@[i] == right@[i],
        decreases length - at,
    {
        if left.get_char(at) != right.get_char(at) {
            return false;
        }
        at += 1;
    }
    assert(left@ =~= right@);
    true
}

/// The symbol for a category name in lower case: the exact names `clear`,
/// `clouds`, `rain`, `snow`, `thunderstorm`, `drizzle`, `mist` and `fog` have
/// their own (mist and fog share one); any other text gets the thermometer.
pub fn symbol_for_category(category: &str) -> (symbol: &'static str)
    ensures
        symbol@ == symbol_of(category@),
{
    if same_text(category, "clear") {
        "☀️"
    } else if same_text(category, "clouds") {
        "☁️"
    } else if same_text(category, "rain") {
        "🌧️"
    } else if same_text(category, "snow") {
        "❄️"
    } else if same_text(category, "thunderstorm") {
        "⛈️"
    } else if same_text(category, "drizzle") {
        "🌦️"
    } else if same_text(category, "mist") {
        "🌫️"
    } else if same_text(category, "fog") {
        "🌫️"
    } else {
        "🌡️"
    }
}

/// The symbol for the provider's category text, whatever its letter case.
pub fn get_weather_emoji(weather_main: &str) -> (symbol: &'static str)
    ensures
        symbol@ == symbol_of(lowercase_of(weather_main@)),
{
    let lowered = lowercase(weather_main);
    symbol_for_category(lowered.as_str())
}

} // verus!
