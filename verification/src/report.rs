//! The report: a provider reading laid out as lines of tinted text.
//!
//! A report says what is printed and in which tint; printing and colouring
//! are left to the caller. Each line is a sequence of spans, and a span is a
//! text with one tint. Printing the spans of a line one after another, and
//! the lines below each other, gives the report.

use vstd::prelude::*;

use crate::category::{get_weather_emoji, lowercase_of, symbol_of};
use crate::clock::{format_timestamp, is_calendar_instant, is_local_clock};
use crate::compass::{direction_text, wind_direction_label};
use crate::decimal::{
    format_integer, format_magnitude, format_one_decimal, integer_text, magnitude_text,
    one_decimal_text, sign_of, sign_prefix,
};
use crate::error::WeatherError;
use crate::units::{
    display_temperature, displayed_temperature, kmh_of, meters_per_second_to_kmh,
    temperature_unit, unit_label,
};

verus! {

/// One weather condition of a reading.
#[derive(Debug, Clone, PartialEq, Eq)]
pub struct Condition {
    /// The provider's description, such as `overcast clouds`.
    pub description: String,
    /// The provider's category, such as `Clouds`.
    pub category: String,
}

/// One response of the provider.
#[derive(Debug, Clone, PartialEq, Eq)]
pub struct WeatherReading {
    /// The name of the place.
    pub location_name: String,
    /// The temperature, in hundredths of a kelvin.
    pub temperature: i32,
    /// The temperature as it is felt, in hundredths of a kelvin.
    pub feels_like: i32,
    /// The day's highest temperature, in hundredths of a kelvin.
    pub temp_max: i32,
    /// The day's lowest temperature, in hundredths of a kelvin.
    pub temp_min: i32,
    /// The relative humidity in percent; it is shown as it comes.
    pub humidity_percent: i32,
    /// The conditions in the provider's order; only the first is shown.
    pub conditions: Vec<Condition>,
    /// The wind speed, in hundredths of a metre per second.
    pub wind_speed: i32,
    /// The bearing from which the wind blows, in hundredths of a degree, when
    /// the provider has one.
    pub wind_bearing: Option<i32>,
    /// The instant of sunrise, in seconds since the start of 1970 in UTC.
    pub sunrise: i64,
    /// The instant of sunset, in seconds since the start of 1970 in UTC.
    pub sunset: i64,
}

/// How a span is to be shown.
#[derive(Debug, Clone, Copy, PartialEq, Eq, Structural)]
pub enum Tint {
    /// The terminal's own colour.
    Plain,
    /// Bold and underlined, for the heading.
    Heading,
    /// Bright blue, for the place.
    BrightBlue,
    /// Bright yellow, for the description and the times of the sun.
    BrightYellow,
    /// Bright green, for temperatures.
    BrightGreen,
    /// Bright cyan, for the humidity.
    BrightCyan,
    /// Bright magenta, for the wind.
    BrightMagenta,
}

/// A text shown in one tint.
#[derive(Debug, Clone, PartialEq, Eq)]
pub struct Span {
    /// The characters to print.
    pub text: String,
    /// The tint to print them in.
    pub tint: Tint,
}

/// One line of a report.
#[derive(Debug, Clone, PartialEq, Eq)]
pub struct Line {
    /// The spans of the line, from left to right.
    pub spans: Vec<Span>,
}

/// A whole report.
#[derive(Debug, Clone, PartialEq, Eq)]
pub struct Report {
    /// The lines of the report, from top to bottom.
    pub lines: Vec<Line>,
}

/// What a span says: its characters and its tint.
pub ghost struct Piece {
    pub text: Seq<char>,
    pub tint: Tint,
}

impl View for Span {
    type V = Piece;

    open spec fn view(&self) -> Piece {
        Piece { text: self.text@, tint: self.tint }
    }
}

impl View for Line {
    type V = Seq<Piece>;

    open spec fn view(&self) -> Seq<Piece> {
        self.spans@.map_values(|span: Span| span@)
    }
}

impl View for Report {
    type V = Seq<Seq<Piece>>;

    open spec fn view(&self) -> Seq<Seq<Piece>> {
        self.lines@.map_values(|line: Line| line@)
    }
}

/// A piece in the terminal's own colour.
pub open spec fn plain(text: Seq<char>) -> Piece {
    Piece { text, tint: Tint::Plain }
}

/// A piece in the given tint.
pub open spec fn tinted(text: Seq<char>, tint: Tint) -> Piece {
    Piece { text, tint }
}

/// The description that a report shows: that of the first condition, or the
/// empty text when the provider sent none.
pub open spec fn shown_description(conditions: Seq<Condition>) -> Seq<char> {
    if conditions.len() > 0 {
        conditions[0].description@
    } else {
        ""@
    }
}

/// The category that a report shows: that of the first condition, or the
/// empty text when the provider sent none.
pub open spec fn shown_category(conditions: Seq<Condition>) -> Seq<char> {
    if conditions.len() > 0 {
        conditions[0].category@
    } else {
        ""@
    }
}

/// The heading of a report.
pub open spec fn heading_line() -> Seq<Piece> {
    seq![tinted("Current Weather"@, Tint::Heading)]
}

/// The line that names the place.
pub open spec fn location_line(name: Seq<char>) -> Seq<Piece> {
    seq![plain("🌍 Location: "@), tinted(name, Tint::BrightBlue)]
}

/// The line that shows the condition: the symbol of its category, whatever
/// the letter case, and its description.
pub open spec fn weather_line(category: Seq<char>, description: Seq<char>) -> Seq<Piece> {
    seq![
        plain(symbol_of(lowercase_of(category))),
        plain("  Weather: "@),
        tinted(description, Tint::BrightYellow),
    ]
}

/// A temperature of `thousandths` of a degree: the sign, untinted, then the
/// magnitude with one decimal, then the unit.
pub open spec fn temperature_pieces(thousandths: int, unit: Seq<char>) -> Seq<Piece> {
    seq![
        plain(sign_of(thousandths)),
        tinted(magnitude_text(thousandths), Tint::BrightGreen),
        plain(unit),
    ]
}

/// The line that shows the temperature.
pub open spec fn temperature_line(thousandths: int, unit: Seq<char>) -> Seq<Piece> {
    seq![plain("🌡️  Temperature: "@)] + temperature_pieces(thousandths, unit)
}

/// The line that shows the temperature as it is felt.
pub open spec fn feels_like_line(thousandths: int, unit: Seq<char>) -> Seq<Piece> {
    seq![plain("🤔 Feels like: "@)] + temperature_pieces(thousandths, unit)
}

/// The line that shows the day's highest and lowest temperature.
pub open spec fn high_low_line(high: int, low: int, unit: Seq<char>) -> Seq<Piece> {
    seq![plain("🌡️  Today's High/Low: "@)] + temperature_pieces(high, unit) + seq![plain("/"@)]
        + temperature_pieces(low, unit)
}

/// The line that shows the humidity.
pub open spec fn humidity_line(percent: int) -> Seq<Piece> {
    seq![plain("💧 Humidity: "@), tinted(integer_text(percent), Tint::BrightCyan), plain("%"@)]
}

/// The line that shows the wind: its speed in thousandths of a kilometre per
/// hour, with one decimal, and the direction it blows from.
pub open spec fn wind_line(thousandths_kmh: int, direction: Seq<char>) -> Seq<Piece> {
    seq![
        plain("🌪️  Wind: "@),
        tinted(one_decimal_text(thousandths_kmh), Tint::BrightMagenta),
        plain(" km/h from "@),
        tinted(direction, Tint::BrightMagenta),
    ]
}

/// The line that shows the time of sunrise.
pub open spec fn sunrise_line(clock: Seq<char>) -> Seq<Piece> {
    seq![plain("🌅 Sunrise: "@), tinted(clock, Tint::BrightYellow)]
}

/// The line that shows the time of sunset.
pub open spec fn sunset_line(clock: Seq<char>) -> Seq<Piece> {
    seq![plain("🌇 Sunset: "@), tinted(clock, Tint::BrightYellow)]
}

/// The report of a reading: an empty line, the heading, ten lines of values
/// and a closing empty line. All four temperatures are shown in the unit
/// that `fahrenheit` selects.
#[verifier::opaque]
pub open spec fn report_of(
    reading: WeatherReading,
    fahrenheit: bool,
    sunrise_clock: Seq<char>,
    sunset_clock: Seq<char>,
) -> Seq<Seq<Piece>> {
    let unit = unit_label(fahrenheit);
    seq![
        Seq::<Piece>::empty(),
        heading_line(),
        location_line(reading.location_name@),
        weather_line(shown_category(reading.conditions@), shown_description(reading.conditions@)),
        temperature_line(displayed_temperature(reading.temperature as int, fahrenheit), unit),
        feels_like_line(displayed_temperature(reading.feels_like as int, fahrenheit), unit),
        high_low_line(
            displayed_temperature(reading.temp_max as int, fahrenheit),
            displayed_temperature(reading.temp_min as int, fahrenheit),
            unit,
        ),
        humidity_line(reading.humidity_percent as int),
        wind_line(kmh_of(reading.wind_speed as int), direction_text(reading.wind_bearing)),
        sunrise_line(sunrise_clock),
        sunset_line(sunset_clock),
        Seq::<Piece>::empty(),
    ]
}

/// The three temperature lines of a report show their four temperatures in
/// the scale that the display mode selects, each followed by the unit of that
/// scale.
pub proof fn lemma_report_uses_one_unit(
    reading: WeatherReading,
    fahrenheit: bool,
    sunrise_clock: Seq<char>,
    sunset_clock: Seq<char>,
)
    ensures
        ({
            let report = report_of(reading, fahrenheit, sunrise_clock, sunset_clock);
            let unit = unit_label(fahrenheit);
            let shown = |centikelvin: i32| displayed_temperature(centikelvin as int, fahrenheit);
            &&& report.len() == 12
            &&& report[4] == temperature_line(shown(reading.temperature), unit)
            &&& report[5] == feels_like_line(shown(reading.feels_like), unit)
            &&& report[6] == high_low_line(shown(reading.temp_max), shown(reading.temp_min), unit)
            &&& report[4][3].text == unit
            &&& report[5][3].text == unit
            &&& report[6][3].text == unit
            &&& report[6][7].text == unit
        }),
{
    reveal(report_of);
}

/// The description and the category of the condition that a report shows:
/// those of the first condition, or two empty texts when there is none.
pub fn primary_condition<'a>(conditions: &'a Vec<Condition>) -> (shown: (&'a str, &'a str))
    ensures
        shown.0@ == shown_description(conditions@),
        shown.1@ == shown_category(conditions@),
{
    if conditions.len() > 0 {
        (conditions[0].description.as_str(), conditions[0].category.as_str())
    } else {
        ("", "")
    }
}

/// A span of `text` in the terminal's own colour.
fn plain_span(text: &str) -> (span: Span)
    ensures
        span@ == plain(text@),
{
    Span { text: String::from_str(text), tint: Tint::Plain }
}

/// A span of `text` in the given tint.
fn tinted_span(text: String, tint: Tint) -> (span: Span)
    ensures
        span@ == tinted(text@, tint),
{
    Span { text, tint }
}

/// A line of two spans: a label and a tinted value.
fn labelled_line(label: &str, value: String, tint: Tint) -> (line: Line)
    ensures
        line@ == seq![plain(label@), tinted(value@, tint)],
{
    let mut spans: Vec<Span> = Vec::new();
    spans.push(plain_span(label));
    spans.push(tinted_span(value, tint));
    let line = Line { spans };
    assert(line@ =~= seq![plain(label@), tinted(value@, tint)]);
    line
}

/// Appends the three spans of a temperature to `spans`.
fn push_temperature(spans: &mut Vec<Span>, thousandths: i64, unit: &str)
    ensures
        final(spans)@.map_values(|span: Span| span@) == old(spans)@.map_values(|span: Span| span@)
            + temperature_pieces(thousandths as int, unit@),
{
    spans.push(plain_span(sign_prefix(thousandths)));
    spans.push(tinted_span(format_magnitude(thousandths), Tint::BrightGreen));
    spans.push(plain_span(unit));
    assert(spans@.map_values(|span: Span| span@) =~= old(spans)@.map_values(|span: Span| span@)
        + temperature_pieces(thousandths as int, unit@));
}

/// A line of a label and one temperature.
fn temperature_row(label: &str, thousandths: i64, unit: &str) -> (line: Line)
    ensures
        line@ == seq![plain(label@)] + temperature_pieces(thousandths as int, unit@),
{
    let mut spans: Vec<Span> = Vec::new();
    spans.push(plain_span(label));
    assert(spans@.map_values(|span: Span| span@) =~= seq![plain(label@)]);
    push_temperature(&mut spans, thousandths, unit);
    Line { spans }
}

/// The line of the day's highest and lowest temperature.
fn high_low_row(high: i64, low: i64, unit: &str) -> (line: Line)
    ensures
        line@ == high_low_line(high as int, low as int, unit@),
{
    let mut spans: Vec<Span> = Vec::new();
    spans.push(plain_span("🌡️  Today's High/Low: "));
    assert(spans@.map_values(|span: Span| span@) =~= seq![plain("🌡️  Today's High/Low: "@)]);
    push_temperature(&mut spans, high, unit);
    let ghost before = spans@.map_values(|span: Span| span@);
    spans.push(plain_span("/"));
    assert(spans@.map_values(|span: Span| span@) =~= before + seq![plain("/"@)]);
    push_temperature(&mut spans, low, unit);
    Line { spans }
}

/// The line of the condition.
fn weather_row(category: &str, description: &str) -> (line: Line)
    ensures
        line@ == weather_line(category@, description@),
{
    let mut spans: Vec<Span> = Vec::new();
    spans.push(plain_span(get_weather_emoji(category)));
    spans.push(plain_span("  Weather: "));
    spans.push(tinted_span(String::from_str(description), Tint::BrightYellow));
    let line = Line { spans };
    assert(line@ =~= weather_line(category@, description@));
    line
}

/// The line of the humidity.
fn humidity_row(percent: i32) -> (line: Line)
    ensures
        line@ == humidity_line(percent as int),
{
    let mut spans: Vec<Span> = Vec::new();
    spans.push(plain_span("💧 Humidity: "));
    spans.push(tinted_span(format_integer(percent as i64), Tint::BrightCyan));
    spans.push(plain_span("%"));
    let line = Line { spans };
    assert(line@ =~= humidity_line(percent as int));
    line
}

/// The line of the wind.
fn wind_row(thousandths_kmh: i64, direction: &str) -> (line: Line)
    ensures
        line@ == wind_line(thousandths_kmh as int, direction@),
{
    let mut spans: Vec<Span> = Vec::new();
    spans.push(plain_span("🌪️  Wind: "));
    spans.push(tinted_span(format_one_decimal(thousandths_kmh), Tint::BrightMagenta));
    spans.push(plain_span(" km/h from "));
    spans.push(tinted_span(String::from_str(direction), Tint::BrightMagenta));
    let line = Line { spans };
    assert(line@ =~= wind_line(thousandths_kmh as int, direction@));
    line
}

/// A line without spans.
fn empty_line() -> (line: Line)
    ensures
        line@ == Seq::<Piece>::empty(),
{
    let line = Line { spans: Vec::new() };
    assert(line@ =~= Seq::<Piece>::empty());
    line
}

/// The line of the heading.
fn heading_row() -> (line: Line)
    ensures
        line@ == heading_line(),
{
    let mut spans: Vec<Span> = Vec::new();
    spans.push(tinted_span(String::from_str("Current Weather"), Tint::Heading));
    let line = Line { spans };
    assert(line@ =~= heading_line());
    line
}

/// Lays out the report of `reading`, with temperatures in Fahrenheit when
/// `fahrenheit` is set and in Celsius otherwise, and with the given clock
/// texts for sunrise and sunset.
pub fn render_report(
    reading: &WeatherReading,
    fahrenheit: bool,
    sunrise_clock: &str,
    sunset_clock: &str,
) -> (report: Report)
    ensures
        report@ == report_of(*reading, fahrenheit, sunrise_clock@, sunset_clock@),
{
    let unit = temperature_unit(fahrenheit);
    let shown = primary_condition(&reading.conditions);
    let mut lines: Vec<Line> = Vec::new();
    lines.push(empty_line());
    lines.push(heading_row());
    lines.push(
        labelled_line("🌍 Location: ", reading.location_name.clone(), Tint::BrightBlue),
    );
    lines.push(weather_row(shown.1, shown.0));
    lines.push(
        temperature_row("🌡️  Temperature: ", display_temperature(reading.temperature, fahrenheit), unit),
    );
    lines.push(
        temperature_row("🤔 Feels like: ", display_temperature(reading.feels_like, fahrenheit), unit),
    );
    lines.push(
        high_low_row(
            display_temperature(reading.temp_max, fahrenheit),
            display_temperature(reading.temp_min, fahrenheit),
            unit,
        ),
    );
    lines.push(humidity_row(reading.humidity_percent));
    lines.push(
        wind_row(
            meters_per_second_to_kmh(reading.wind_speed),
            wind_direction_label(reading.wind_bearing),
        ),
    );
    lines.push(labelled_line("🌅 Sunrise: ", String::from_str(sunrise_clock), Tint::BrightYellow));
    lines.push(labelled_line("🌇 Sunset: ", String::from_str(sunset_clock), Tint::BrightYellow));
    lines.push(empty_line());
    let report = Report { lines };
    proof {
        reveal(report_of);
    }
    assert(report@ =~= report_of(*reading, fahrenheit, sunrise_clock@, sunset_clock@));
    report
}

/// Whether both times of the sun in `reading` are instants of the calendar.
pub open spec fn has_valid_times(reading: WeatherReading) -> bool {
    is_calendar_instant(reading.sunrise as int) && is_calendar_instant(reading.sunset as int)
}

/// The error for a reading whose times cannot both be shown: it names the
/// sunrise if that is at fault, else the sunset.
pub open spec fn invalid_time_of(reading: WeatherReading) -> WeatherError {
    if !is_calendar_instant(reading.sunrise as int) {
        WeatherError::InvalidTimestamp(reading.sunrise)
    } else {
        WeatherError::InvalidTimestamp(reading.sunset)
    }
}

/// Whether `report` is the report of `reading` with the given clock texts,
/// each of them the time of day of its instant in some zone.
pub open spec fn is_local_report(
    report: Seq<Seq<Piece>>,
    reading: WeatherReading,
    fahrenheit: bool,
    sunrise_clock: Seq<char>,
    sunset_clock: Seq<char>,
) -> bool {
    &&& is_local_clock(sunrise_clock, reading.sunrise as int)
    &&& is_local_clock(sunset_clock, reading.sunset as int)
    &&& report == report_of(reading, fahrenheit, sunrise_clock, sunset_clock)
}

/// Lays out the report of `reading` with sunrise and sunset in the local
/// time of this process. It fails, with no part of a report, exactly when
/// one of the two is not an instant of the calendar. The local zone decides
/// the offset of each; whatever it is, the report is the one laid out with
/// the time of day that the instant has at that offset.
pub fn current_weather_report(reading: &WeatherReading, fahrenheit: bool) -> (outcome: Result<
    Report,
    WeatherError,
>)
    ensures
        outcome is Ok <==> has_valid_times(*reading),
        outcome matches Err(error) ==> error == invalid_time_of(*reading),
        outcome matches Ok(report) ==> exists|sunrise_clock: Seq<char>, sunset_clock: Seq<char>|
            #[trigger] is_local_report(report@, *reading, fahrenheit, sunrise_clock, sunset_clock),
{
    let sunrise_clock = match format_timestamp(reading.sunrise) {
        Some(clock) => clock,
        None => {
            return Err(WeatherError::InvalidTimestamp(reading.sunrise));
        },
    };
    let sunset_clock = match format_timestamp(reading.sunset) {
        Some(clock) => clock,
        None => {
            return Err(WeatherError::InvalidTimestamp(reading.sunset));
        },
    };
    let report = render_report(reading, fahrenheit, sunrise_clock.as_str(), sunset_clock.as_str());
    assert(is_local_report(report@, *reading, fahrenheit, sunrise_clock@, sunset_clock@));
    let outcome: Result<Report, WeatherError> = Ok(report);
    // What the outcome carries is the report laid out above.
    assert(outcome->Ok_0@ == report@);
    outcome
}

} // verus!
