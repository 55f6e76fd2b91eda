//! Weather conditions: their icons, their colours, and the colour frame of
//! the screensaver.

use vstd::prelude::*;
use crate::config::{glyph_in, glyph_of};
use crate::text::{decimal, push_char, push_decimal, push_str, str_eq};

verus! {

/// The icon name shown for a weather condition.
pub open spec fn weather_icon_name(condition: Seq<char>) -> Option<Seq<char>> {
    if condition == "clear-night"@ {
        Some("weather-night"@)
    } else if condition == "cloudy"@ {
        Some("weather-cloudy"@)
    } else if condition == "exceptional"@ {
        Some("alert-circle-outline"@)
    } else if condition == "fog"@ {
        Some("weather-fog"@)
    } else if condition == "hail"@ {
        Some("weather-hail"@)
    } else if condition == "lightning-rainy"@ {
        Some("weather-lightning-rainy"@)
    } else if condition == "partlycloudy"@ {
        Some("weather-partly-cloudy"@)
    } else if condition == "pouring"@ {
        Some("weather-pouring"@)
    } else if condition == "rainy"@ {
        Some("weather-rainy"@)
    } else if condition == "snowy"@ {
        Some("weather-snowy"@)
    } else if condition == "snowy-rainy"@ {
        Some("weather-snowy-rainy"@)
    } else if condition == "sunny"@ {
        Some("weather-sunny"@)
    } else if condition == "windy"@ {
        Some("weather-windy"@)
    } else if condition == "windy-variant"@ {
        Some("weather-windy-variant"@)
    } else {
        None
    }
}

/// The colour that a weather condition gives its icon on the screensaver.
pub open spec fn weather_color(condition: Seq<char>) -> Option<u32> {
    if condition == "partlycloudy"@ {
        Some(35957u32)
    } else if condition == "windy"@ {
        Some(35957u32)
    } else if condition == "clear-night"@ {
        Some(35957u32)
    } else if condition == "windy-variant"@ {
        Some(35957u32)
    } else if condition == "cloudy"@ {
        Some(31728u32)
    } else if condition == "exceptional"@ {
        Some(63488u32)
    } else if condition == "fog"@ {
        Some(21130u32)
    } else if condition == "hail"@ {
        Some(65535u32)
    } else if condition == "snowy"@ {
        Some(65535u32)
    } else if condition == "lightning"@ {
        Some(65120u32)
    } else if condition == "lightning-rainy"@ {
        Some(50400u32)
    } else if condition == "pouring"@ {
        Some(249u32)
    } else if condition == "rainy"@ {
        Some(33759u32)
    } else if condition == "snowy-rainy"@ {
        Some(44479u32)
    } else if condition == "sunny"@ {
        Some(63469u32)
    } else {
        None
    }
}

/// The number of colour slots of the screensaver.
pub const SCREENSAVER_SLOTS: usize = 22;

/// The name of each colour slot of the screensaver, in protocol order.
pub open spec fn slot_name(i: int) -> Seq<char> {
    if i == 0 {
        "background"@
    } else if i == 1 {
        "time"@
    } else if i == 2 {
        "timeAMPM"@
    } else if i == 3 {
        "date"@
    } else if i == 4 {
        "tMainIcon"@
    } else if i == 5 {
        "tMainText"@
    } else if i == 6 {
        "tForecast1"@
    } else if i == 7 {
        "tForecast2"@
    } else if i == 8 {
        "tForecast3"@
    } else if i == 9 {
        "tForecast4"@
    } else if i == 10 {
        "tF1Icon"@
    } else if i == 11 {
        "tF2Icon"@
    } else if i == 12 {
        "tF3Icon"@
    } else if i == 13 {
        "tF4Icon"@
    } else if i == 14 {
        "tForecast1Val"@
    } else if i == 15 {
        "tForecast2Val"@
    } else if i == 16 {
        "tForecast3Val"@
    } else if i == 17 {
        "tForecast4Val"@
    } else if i == 18 {
        "bar"@
    } else if i == 19 {
        "tMRIcon"@
    } else if i == 20 {
        "tMR"@
    } else {
        "tTimeAdd"@
    }
}

/// The default colour of each slot: black background, white elsewhere.
pub open spec fn slot_default(i: int) -> u32 {
    if i == 0 { 0 } else { 65535 }
}

/// The slots whose colour follows a weather condition: the main icon and
/// the four forecast icons.
pub open spec fn is_icon_slot(i: int) -> bool {
    i == 4 || (10 <= i && i <= 13)
}

/// The glyph for a weather condition, or the null character when the
/// condition or its icon is unknown.
pub open spec fn weather_glyph(icons: Seq<(String, char)>, condition: Seq<char>) -> char {
    match weather_icon_name(condition) {
        Some(name) => glyph_in(icons, name),
        None => '\0',
    }
}

/// Slot names and conditions as values.
pub open spec fn pair_views(pairs: Seq<(String, String)>) -> Seq<(Seq<char>, Seq<char>)> {
    pairs.map_values(|p: (String, String)| (p.0@, p.1@))
}

/// The first condition, from position `i` on, given for the slot `key`.
pub open spec fn condition_from(pairs: Seq<(Seq<char>, Seq<char>)>, key: Seq<char>, i: int) -> Option<
    Seq<char>,
>
    decreases pairs.len() - i,
{
    if i < 0 || i >= pairs.len() {
        None
    } else if pairs[i].0 == key {
        Some(pairs[i].1)
    } else {
        condition_from(pairs, key, i + 1)
    }
}

/// The colour of slot `i` given the conditions of the icon slots.
pub open spec fn slot_color(pairs: Seq<(Seq<char>, Seq<char>)>, i: int) -> u32 {
    if is_icon_slot(i) {
        match condition_from(pairs, slot_name(i), 0) {
            Some(c) => match weather_color(c) {
                Some(color) => color,
                None => slot_default(i),
            },
            None => slot_default(i),
        }
    } else {
        slot_default(i)
    }
}

/// The first `n` colour fields, each `~` followed by the colour.
pub open spec fn color_fields(pairs: Seq<(Seq<char>, Seq<char>)>, n: int) -> Seq<char>
    decreases n,
{
    if n <= 0 {
        Seq::empty()
    } else {
        color_fields(pairs, n - 1) + seq!['~'] + decimal(slot_color(pairs, n - 1) as nat)
    }
}

/// The colour frame: `color` and the colour of each of the 22 slots.
pub open spec fn color_frame(pairs: Seq<(Seq<char>, Seq<char>)>) -> Seq<char> {
    "color"@ + color_fields(pairs, SCREENSAVER_SLOTS as int)
}

fn weather_icon_name_exec(condition: &str) -> (r: Option<&'static str>)
    ensures
        r matches Some(n) ==> weather_icon_name(condition@) == Some(n@),
        r is None ==> weather_icon_name(condition@) is None,
{
    if str_eq(condition, "clear-night") {
        Some("weather-night")
    } else if str_eq(condition, "cloudy") {
        Some("weather-cloudy")
    } else if str_eq(condition, "exceptional") {
        Some("alert-circle-outline")
    } else if str_eq(condition, "fog") {
        Some("weather-fog")
    } else if str_eq(condition, "hail") {
        Some("weather-hail")
    } else if str_eq(condition, "lightning-rainy") {
        Some("weather-lightning-rainy")
    } else if str_eq(condition, "partlycloudy") {
        Some("weather-partly-cloudy")
    } else if str_eq(condition, "pouring") {
        Some("weather-pouring")
    } else if str_eq(condition, "rainy") {
        Some("weather-rainy")
    } else if str_eq(condition, "snowy") {
        Some("weather-snowy")
    } else if str_eq(condition, "snowy-rainy") {
        Some("weather-snowy-rainy")
    } else if str_eq(condition, "sunny") {
        Some("weather-sunny")
    } else if str_eq(condition, "windy") {
        Some("weather-windy")
    } else if str_eq(condition, "windy-variant") {
        Some("weather-windy-variant")
    } else {
        None
    }
}

fn weather_color_exec(condition: &str) -> (r: Option<u32>)
    ensures
        r == weather_color(condition@),
{
    if str_eq(condition, "partlycloudy") {
        Some(35957)
    } else if str_eq(condition, "windy") {
        Some(35957)
    } else if str_eq(condition, "clear-night") {
        Some(35957)
    } else if str_eq(condition, "windy-variant") {
        Some(35957)
    } else if str_eq(condition, "cloudy") {
        Some(31728)
    } else if str_eq(condition, "exceptional") {
        Some(63488)
    } else if str_eq(condition, "fog") {
        Some(21130)
    } else if str_eq(condition, "hail") {
        Some(65535)
    } else if str_eq(condition, "snowy") {
        Some(65535)
    } else if str_eq(condition, "lightning") {
        Some(65120)
    } else if str_eq(condition, "lightning-rainy") {
        Some(50400)
    } else if str_eq(condition, "pouring") {
        Some(249)
    } else if str_eq(condition, "rainy") {
        Some(33759)
    } else if str_eq(condition, "snowy-rainy") {
        Some(44479)
    } else if str_eq(condition, "sunny") {
        Some(63469)
    } else {
        None
    }
}

fn slot_name_exec(i: usize) -> (r: &'static str)
    ensures
        r@ == slot_name(i as int),
{
    match i {
        0 => "background",
        1 => "time",
        2 => "timeAMPM",
        3 => "date",
        4 => "tMainIcon",
        5 => "tMainText",
        6 => "tForecast1",
        7 => "tForecast2",
        8 => "tForecast3",
        9 => "tForecast4",
        10 => "tF1Icon",
        11 => "tF2Icon",
        12 => "tF3Icon",
        13 => "tF4Icon",
        14 => "tForecast1Val",
        15 => "tForecast2Val",
        16 => "tForecast3Val",
        17 => "tForecast4Val",
        18 => "bar",
        19 => "tMRIcon",
        20 => "tMR",
        _ => "tTimeAdd",
    }
}

/// The glyph for a weather condition, or the null character when the
/// condition or its icon is unknown.
pub fn get_weather_icon(state: String, icons: &Vec<(String, char)>) -> (r: char)
    ensures
        r == weather_glyph(icons@, state@),
{
    match weather_icon_name_exec(state.as_str()) {
        Some(name) => glyph_of(icons, name),
        None => '\0',
    }
}

fn condition_for<'a>(pairs: &'a Vec<(String, String)>, key: &str) -> (r: Option<&'a String>)
    ensures
        r matches Some(c) ==> condition_from(pair_views(pairs@), key@, 0) == Some(c@),
        r is None ==> condition_from(pair_views(pairs@), key@, 0) is None,
{
    let mut i: usize = 0;
    while i < pairs.len()
        invariant
            i <= pairs@.len(),
            condition_from(pair_views(pairs@), key@, 0) == condition_from(pair_views(pairs@), key@, i as int),
        decreases pairs.len() - i,
    {
        if str_eq(pairs[i].0.as_str(), key) {
            return Some(&pairs[i].1);
        }
        i += 1;
    }
    None
}

/// The colour frame of the screensaver. `icons` gives, for slot names such
/// as `tMainIcon` or `tF1Icon`, the weather condition shown there; each of
/// the five icon slots takes the colour of its condition when that colour is
/// known, every other slot keeps its default.
pub fn get_screensaver_color_output(icons: &Vec<(String, String)>) -> (r: String)
    ensures
        r@ == color_frame(pair_views(icons@)),
{
    let mut out = String::new();
    push_str(&mut out, "color");
    let mut i: usize = 0;
    while i < SCREENSAVER_SLOTS
        invariant
            i <= SCREENSAVER_SLOTS,
            out@ == "color"@ + color_fields(pair_views(icons@), i as int),
        decreases SCREENSAVER_SLOTS - i,
    {
        let mut color: u32 = if i == 0 { 0 } else { 65535 };
        if i == 4 || (10 <= i && i <= 13) {
            match condition_for(icons, slot_name_exec(i)) {
                Some(c) => match weather_color_exec(c.as_str()) {
                    Some(known) => color = known,
                    None => {},
                },
                None => {},
            }
        }
        assert(color == slot_color(pair_views(icons@), i as int));
        let ghost before = out@;
        push_char(&mut out, '~');
        push_decimal(&mut out, color as u64);
        assert(out@ =~= "color"@ + color_fields(pair_views(icons@), i + 1));
        i += 1;
    }
    out
}

} // verus!
