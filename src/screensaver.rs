//! The screensaver's sensor and weather events.

use vstd::prelude::*;
use crate::cards::Card;
use crate::config::{entity_in_cards, Config, Device, Entity};
use crate::events::{is_flat_shape, is_flat_shape_exec, is_placeholder, is_placeholder_exec, Event, RootEvent, WeatherEvent};
use crate::pages::{get_weather_and_colors as weather_and_colors, sensor_reading, sensor_reading_exec, temperature_frame, temperature_frame_text, weather_translation};
use crate::state::{DeviceState, DeviceStateView, DeviceStore, WeatherCache, merged_into};

verus! {

/// An update that touches the temperature only.
pub open spec fn temp_only(t: Seq<char>) -> DeviceStateView {
    DeviceStateView { temp: Some(t), humidity: None, iaq: None, page: None, alarm: None }
}

/// The temperature reading an event brings for a device: the device has an
/// entity named `temperatureSensor` and the event text holds its state.
pub open spec fn temperature_signal(device: Device, raw: Seq<char>) -> Option<Seq<char>> {
    match entity_in_cards(device.card_views(), "temperatureSensor"@) {
        Some(e) => sensor_reading(raw, e.entity@),
        None => None,
    }
}

/// The weather reading an event brings for a device: the device has an
/// entity named `weather`, the event reports it, its value is no
/// placeholder, and it reads as weather in the shape the event text shows.
pub open spec fn weather_signal(device: Device, raw: Seq<char>, event: Event) -> Option<WeatherEvent> {
    match entity_in_cards(device.card_views(), "weather"@) {
        Some(e) => match event.value_of(e.entity@) {
            Some(v) => if is_placeholder(v.text@) {
                None
            } else if is_flat_shape(raw, e.entity@) {
                v.flat_weather
            } else {
                v.nested_weather
            },
            None => None,
        },
        None => None,
    }
}

/// `messages` grew by `added`, each frame tagged with `card`.
pub open spec fn appended(old: Seq<(Card, String)>, new: Seq<(Card, String)>, card: Card, added: Seq<Seq<char>>) -> bool {
    &&& new.len() == old.len() + added.len()
    &&& new.subrange(0, old.len() as int) == old
    &&& forall|k: int| 0 <= k < added.len() ==> (#[trigger] new[old.len() + k]).0 == card && new[old.len() + k].1@ == added[k]
}

/// Sensor and weather events of the screensaver.
pub struct Screensaver {}

impl Screensaver {
    /// Translates the room temperature of a hub event for device
    /// `device_id`: stores the reading and appends the temperature frame,
    /// tagged with the screensaver. Leaves both untouched when the event
    /// holds no reading.
    pub fn process_temperature_sensor(
        config: &Config,
        value: &str,
        device_id: &str,
        device: &Device,
        store: &mut DeviceStore,
        messages: &mut Vec<(Card, String)>,
    )
        ensures
            match temperature_signal(*device, value@) {
                None => *final(store) == *old(store) && final(messages)@ == old(messages)@,
                Some(t) => {
                    &&& merged_into(*old(store), *final(store), device_id@, temp_only(t))
                    &&& appended(old(messages)@, final(messages)@, Card::Screensaver, seq![temperature_frame_text(config.icons@, t)])
                },
            },
    {
        match device.get_entity_by_name("temperatureSensor") {
            Some(sensor) => {
                let frames = Screensaver::get_room_temperature(config, value, &sensor, device_id, store);
                if frames.len() == 1 {
                    let ghost before = messages@;
                    let frame = frames[0].clone();
                    messages.push((Card::Screensaver, frame));
                    assert(messages@.subrange(0, before.len() as int) =~= before);
                }
            },
            None => {},
        }
    }

    /// Stores the sensor's reading found in the event text for `device_id`
    /// and returns its temperature frame; returns nothing and stores nothing
    /// when the text holds no reading.
    pub fn get_room_temperature(
        config: &Config,
        value: &str,
        temp_sensor: &Entity,
        device_id: &str,
    store: &mut DeviceStore,
    ) -> (r: Vec<String>)
        ensures
            match sensor_reading(value@, temp_sensor.entity@) {
                None => *final(store) == *old(store) && r@.len() == 0,
                Some(t) => {
                    &&& merged_into(*old(store), *final(store), device_id@, temp_only(t))
                    &&& r@.len() == 1
                    &&& r@[0]@ == temperature_frame_text(config.icons@, t)
                },
            },
    {
        match sensor_reading_exec(value, temp_sensor.entity.as_str()) {
            Some(t) => {
                let frame = temperature_frame(config, t.as_str());
                let mut change = DeviceState::empty();
                change.temp = Some(t);
                DeviceState::read_process_overwrite(store, device_id, change);
                let mut r: Vec<String> = Vec::new();
                r.push(frame);
                r
            },
            None => Vec::new(),
        }
    }

    /// Translates the weather of a hub event for a device: on a reading with
    /// four readable forecast days, caches the update and colour frames and
    /// appends both, in that order, tagged with the screensaver. Leaves the
    /// cache and the frames untouched otherwise.
    pub fn process_weather(
        config: &Config,
        device: &Device,
        value: &str,
        json: &RootEvent,
        cache: &mut WeatherCache,
        messages: &mut Vec<(Card, String)>,
    )
        ensures
            match weather_signal(*device, value@, json.event) {
                None => final(cache)@ == old(cache)@ && final(messages)@ == old(messages)@,
                Some(w) => match weather_translation(config.icons@, w) {
                    None => final(cache)@ == old(cache)@ && final(messages)@ == old(messages)@,
                    Some((color, update)) => {
                        &&& final(cache)@ == (Some(update), Some(color))
                        &&& appended(old(messages)@, final(messages)@, Card::Screensaver, seq![update, color])
                    },
                },
            },
    {
        let weather = match device.get_entity_by_name("weather") {
            Some(e) => e,
            None => return,
        };
        let v = match json.event.get(weather.entity.as_str()) {
            Some(v) => v,
            None => return,
        };
        if is_placeholder_exec(v.text.as_str()) {
            return;
        }
        let chosen = if is_flat_shape_exec(value, weather.entity.as_str()) {
            &v.flat_weather
        } else {
            &v.nested_weather
        };
        match chosen {
            Some(w) => {
                let frames = Screensaver::get_weather_and_colors(config, w, cache);
                if frames.len() == 2 {
                    let ghost before = messages@;
                    messages.push((Card::Screensaver, frames[0].clone()));
                    messages.push((Card::Screensaver, frames[1].clone()));
                    assert(messages@.subrange(0, before.len() as int) =~= before);
                }
            },
            None => {},
        }
    }

    /// The update and colour frames of a weather reading, in that order,
    /// which also replace the cached ones; nothing, with the cache left as it
    /// was, when the reading has fewer than four readable forecast days.
    pub fn get_weather_and_colors(config: &Config, weather: &WeatherEvent, cache: &mut WeatherCache) -> (r: Vec<String>)
        ensures
            match weather_translation(config.icons@, *weather) {
                None => final(cache)@ == old(cache)@ && r@.len() == 0,
                Some((color, update)) => {
                    &&& final(cache)@ == (Some(update), Some(color))
                    &&& r@.len() == 2
                    &&& r@[0]@ == update
                    &&& r@[1]@ == color
                },
            },
    {
        match weather_and_colors(config, weather) {
            Some((color, update)) => {
                cache.update = Some(update.clone());
                cache.color = Some(color.clone());
                let mut r: Vec<String> = Vec::new();
                r.push(update);
                r.push(color);
                r
            },
            None => Vec::new(),
        }
    }
}

} // verus!
