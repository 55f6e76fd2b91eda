//! The screensaver's sensor frames, computed from event data alone.

use vstd::prelude::*;
use crate::clock::{rfc3339_weekday, weekday_name, weekday_name_exec, weekday_of_rfc3339};
use crate::config::{glyph_in, glyph_of, Config, Entity};
use crate::events::{push_tenths, tenths_text, Tenths, WeatherEvent, WeatherForecast};
use crate::parsing::{group_text, group_text_exec, regex_captures, regex_groups};
use crate::state::{opt_text, text_or_empty};
use crate::text::{push_char, push_str};
use crate::weather::{color_frame, get_screensaver_color_output, get_weather_icon, pair_views, weather_glyph};

verus! {

/// The icon name of the room thermometer.
pub open spec fn thermometer_icon() -> Seq<char> {
    "home-thermometer-outline"@
}

/// `temperature~<glyph>~<value>°C`
pub open spec fn temperature_frame_text(icons: Seq<(String, char)>, temp: Seq<char>) -> Seq<char> {
    "temperature~"@ + seq![glyph_in(icons, thermometer_icon())] + "~"@ + temp + "°C"@
}

/// The pattern that finds the state of a sensor entity in an event text,
/// in either shape.
pub open spec fn sensor_pattern(entity: Seq<char>) -> Seq<char> {
    "\\B\""@ + entity + "\":\\{[\"\\+\":\\{]*\"s\":\"(.*?)\"\\B"@
}

/// The state of a sensor entity found in an event text, if the text holds one.
pub open spec fn sensor_reading(raw: Seq<char>, entity: Seq<char>) -> Option<Seq<char>> {
    match regex_captures(sensor_pattern(entity), raw) {
        Some(g) => Some(group_text(g, 1)),
        None => None,
    }
}

/// The pattern that finds the state of a sensor entity in an event text.
pub fn sensor_pattern_exec(entity: &str) -> (r: String)
    ensures
        r@ == sensor_pattern(entity@),
{
    let mut p = String::new();
    push_str(&mut p, "\\B\"");
    push_str(&mut p, entity);
    push_str(&mut p, "\":\\{[\"\\+\":\\{]*\"s\":\"(.*?)\"\\B");
    p
}

/// The state of a sensor entity found in an event text.
pub fn sensor_reading_exec(raw: &str, entity: &str) -> (r: Option<String>)
    ensures
        opt_text(r) == sensor_reading(raw@, entity@),
{
    let pattern = sensor_pattern_exec(entity);
    match regex_groups(pattern.as_str(), raw) {
        Some(g) => Some(group_text_exec(&g, 1)),
        None => None,
    }
}

/// The room temperature frame for a sensor reading.
pub fn temperature_frame(config: &Config, temp: &str) -> (r: String)
    ensures
        r@ == temperature_frame_text(config.icons@, temp@),
{
    let mut r = String::new();
    push_str(&mut r, "temperature~");
    push_char(&mut r, glyph_of(&config.icons, "home-thermometer-outline"));
    push_str(&mut r, "~");
    push_str(&mut r, temp);
    push_str(&mut r, "°C");
    r
}

/// The room temperature frame for the sensor entity's reading in an event
/// text; `None` when the text holds no reading of it.
pub fn get_room_temperature(config: &Config, value: &String, temp_sensor: Entity) -> (r: Option<String>)
    ensures
        opt_text(r) == match sensor_reading(value@, temp_sensor.entity@) {
            Some(t) => Some(temperature_frame_text(config.icons@, t)),
            None => None,
        },
{
    match sensor_reading_exec(value.as_str(), temp_sensor.entity.as_str()) {
        Some(t) => Some(temperature_frame(config, t.as_str())),
        None => None,
    }
}

/// A temperature with one decimal, `-99.9` when missing.
pub open spec fn temp_or_missing(t: Option<Tenths>) -> Seq<char> {
    tenths_text(
        match t {
            Some(x) => x.value as int,
            None => -999,
        },
    )
}

fn push_temp(s: &mut String, t: Option<Tenths>)
    ensures
        final(s)@ == old(s)@ + temp_or_missing(t),
{
    match t {
        Some(x) => push_tenths(s, x),
        None => push_tenths(s, Tenths { value: -999 }),
    }
}

/// `<weekday>~<glyph>~<high>°C~<low>°C~` for one forecast day.
pub open spec fn forecast_group(icons: Seq<(String, char)>, f: WeatherForecast, weekday: u8) -> Seq<char> {
    weekday_name(weekday) + "~"@ + seq![weather_glyph(icons, text_or_empty(f.condition))] + "~"@
        + temp_or_missing(f.temperature) + "°C~"@ + temp_or_missing(f.templow) + "°C~"@
}

/// The groups of the first `n` forecast days.
pub open spec fn forecast_groups(icons: Seq<(String, char)>, fs: Seq<WeatherForecast>, wds: Seq<u8>, n: int) -> Seq<char>
    decreases n,
{
    if n <= 0 {
        Seq::empty()
    } else {
        forecast_groups(icons, fs, wds, n - 1) + forecast_group(icons, fs[n - 1], wds[n - 1])
    }
}

/// The number of forecast days a weather frame shows.
pub const FORECAST_DAYS: usize = 4;

/// `weatherUpdate~<glyph>~<temp>°C~` and the groups of the first four days.
pub open spec fn update_frame(icons: Seq<(String, char)>, w: WeatherEvent, wds: Seq<u8>) -> Seq<char> {
    "weatherUpdate~"@ + seq![weather_glyph(icons, text_or_empty(w.state))] + "~"@ + temp_or_missing(
        w.data.unwrap().temperature,
    ) + "°C~"@ + forecast_groups(icons, w.data.unwrap().forecast@, wds, FORECAST_DAYS as int)
}

/// The conditions that colour the icon slots: the current one and those of
/// the first four forecast days.
pub open spec fn weather_color_pairs(w: WeatherEvent) -> Seq<(Seq<char>, Seq<char>)> {
    let fs = w.data.unwrap().forecast@;
    seq![
        ("tMainIcon"@, text_or_empty(w.state)),
        ("tF1Icon"@, text_or_empty(fs[0].condition)),
        ("tF2Icon"@, text_or_empty(fs[1].condition)),
        ("tF3Icon"@, text_or_empty(fs[2].condition)),
        ("tF4Icon"@, text_or_empty(fs[3].condition)),
    ]
}

/// The weather shows: attributes with at least four forecast days.
pub open spec fn has_forecast(w: WeatherEvent) -> bool {
    w.data is Some && w.data.unwrap().forecast@.len() >= FORECAST_DAYS
}

fn push_forecast_group(s: &mut String, icons: &Vec<(String, char)>, f: &WeatherForecast, weekday: u8)
    ensures
        final(s)@ == old(s)@ + forecast_group(icons@, *f, weekday),
{
    let ghost start = s@;
    push_str(s, weekday_name_exec(weekday));
    push_str(s, "~");
    push_char(s, get_weather_icon(clone_text(&f.condition), icons));
    push_str(s, "~");
    push_temp(s, f.temperature);
    push_str(s, "°C~");
    push_temp(s, f.templow);
    push_str(s, "°C~");
    assert(s@ =~= start + forecast_group(icons@, *f, weekday));
}

/// The colour frame and the update frame of a weather reading, given the
/// weekdays of its first four forecast days; `None` without four days.
pub open spec fn weather_frames_text(icons: Seq<(String, char)>, w: WeatherEvent, wds: Seq<u8>) -> Option<(Seq<char>, Seq<char>)> {
    if has_forecast(w) && wds.len() >= FORECAST_DAYS {
        Some((color_frame(weather_color_pairs(w)), update_frame(icons, w, wds)))
    } else {
        None
    }
}

/// The weekday of a forecast day, from its date-time.
pub open spec fn forecast_weekday(f: WeatherForecast) -> Option<u8> {
    match f.datetime {
        Some(d) => rfc3339_weekday(d@),
        None => None,
    }
}

/// The weekdays of the first four forecast days, if all four can be read.
pub open spec fn forecast_weekdays(w: WeatherEvent) -> Option<Seq<u8>> {
    if has_forecast(w) {
        let fs = w.data.unwrap().forecast@;
        if forecast_weekday(fs[0]) is Some && forecast_weekday(fs[1]) is Some && forecast_weekday(fs[2]) is Some
            && forecast_weekday(fs[3]) is Some {
            Some(seq![
                forecast_weekday(fs[0]).unwrap(),
                forecast_weekday(fs[1]).unwrap(),
                forecast_weekday(fs[2]).unwrap(),
                forecast_weekday(fs[3]).unwrap(),
            ])
        } else {
            None
        }
    } else {
        None
    }
}

/// The colour and update frames of a weather reading; `None` when it has
/// fewer than four forecast days or a day whose date-time does not read.
pub open spec fn weather_translation(icons: Seq<(String, char)>, w: WeatherEvent) -> Option<(Seq<char>, Seq<char>)> {
    match forecast_weekdays(w) {
        Some(wds) => weather_frames_text(icons, w, wds),
        None => None,
    }
}

pub open spec fn frames_view(r: Option<(String, String)>) -> Option<(Seq<char>, Seq<char>)> {
    match r {
        Some(p) => Some((p.0@, p.1@)),
        None => None,
    }
}

fn clone_text(o: &Option<String>) -> (r: String)
    ensures
        r@ == text_or_empty(*o),
{
    match o {
        Some(s) => s.clone(),
        None => String::new(),
    }
}

/// The colour frame and the update frame of a weather reading, given the
/// weekdays (counted from Monday as 0) of its forecast days in order.
pub fn weather_frames(config: &Config, weather: &WeatherEvent, weekdays: &Vec<u8>) -> (r: Option<(String, String)>)
    ensures
        frames_view(r) == weather_frames_text(config.icons@, *weather, weekdays@),
{
    let data = match &weather.data {
        Some(d) => d,
        None => return None,
    };
    if data.forecast.len() < FORECAST_DAYS || weekdays.len() < FORECAST_DAYS {
        return None;
    }
    let mut pairs: Vec<(String, String)> = Vec::new();
    pairs.push(("tMainIcon".to_owned(), clone_text(&weather.state)));
    pairs.push(("tF1Icon".to_owned(), clone_text(&data.forecast[0].condition)));
    pairs.push(("tF2Icon".to_owned(), clone_text(&data.forecast[1].condition)));
    pairs.push(("tF3Icon".to_owned(), clone_text(&data.forecast[2].condition)));
    pairs.push(("tF4Icon".to_owned(), clone_text(&data.forecast[3].condition)));
    assert(pair_views(pairs@) =~= weather_color_pairs(*weather));
    let color = get_screensaver_color_output(&pairs);

    let mut update = String::new();
    push_str(&mut update, "weatherUpdate~");
    push_char(&mut update, get_weather_icon(clone_text(&weather.state), &config.icons));
    push_str(&mut update, "~");
    push_temp(&mut update, data.temperature);
    push_str(&mut update, "°C~");
    let ghost head = update@;
    let mut i: usize = 0;
    while i < FORECAST_DAYS
        invariant
            i <= FORECAST_DAYS,
            data.forecast@.len() >= FORECAST_DAYS,
            weekdays@.len() >= FORECAST_DAYS,
            update@ == head + forecast_groups(config.icons@, data.forecast@, weekdays@, i as int),
        decreases FORECAST_DAYS - i,
    {
        let ghost before = update@;
        push_forecast_group(&mut update, &config.icons, &data.forecast[i], weekdays[i]);
        i += 1;
        assert(forecast_groups(config.icons@, data.forecast@, weekdays@, i as int)
            == forecast_groups(config.icons@, data.forecast@, weekdays@, i - 1)
            + forecast_group(config.icons@, data.forecast@[i - 1], weekdays@[i - 1]));
        assert(update@ =~= head + forecast_groups(config.icons@, data.forecast@, weekdays@, i as int));
    }
    Some((color, update))
}

/// The weekday of a forecast day, from its date-time.
fn forecast_weekday_exec(f: &WeatherForecast) -> (r: Option<u8>)
    ensures
        r == forecast_weekday(*f),
{
    match &f.datetime {
        Some(d) => weekday_of_rfc3339(d.as_str()),
        None => None,
    }
}

/// The colour frame and the update frame of a weather reading; `None` when
/// it has fewer than four forecast days or one of their date-times does not
/// read as RFC 3339.
pub fn get_weather_and_colors(config: &Config, weather: &WeatherEvent) -> (r: Option<(String, String)>)
    ensures
        frames_view(r) == weather_translation(config.icons@, *weather),
{
    let data = match &weather.data {
        Some(d) => d,
        None => return None,
    };
    if data.forecast.len() < FORECAST_DAYS {
        return None;
    }
    let mut weekdays: Vec<u8> = Vec::new();
    let mut i: usize = 0;
    while i < FORECAST_DAYS
        invariant
            i <= FORECAST_DAYS,
            data.forecast@.len() >= FORECAST_DAYS,
            weather.data == Some(*data),
            weekdays@.len() == i,
            forall|k: int| 0 <= k < i ==> forecast_weekday(data.forecast@[k]) == Some(#[trigger] weekdays@[k]),
        decreases FORECAST_DAYS - i,
    {
        match forecast_weekday_exec(&data.forecast[i]) {
            Some(d) => weekdays.push(d),
            None => return None,
        }
        i += 1;
    }
    assert(forecast_weekdays(*weather) == Some(weekdays@)) by {
        assert(weekdays@ =~= seq![weekdays@[0], weekdays@[1], weekdays@[2], weekdays@[3]]);
    }
    weather_frames(config, weather, &weekdays)
}

} // verus!
