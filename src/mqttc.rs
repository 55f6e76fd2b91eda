//! The panel side of the gateway: panel events in, frames out.

use vstd::prelude::*;
use crate::alarm::{alarm_frame, alarm_only, alarm_signal, alarm_update_of, Alarm};
use crate::cards::{card_of_name, Card};
use crate::clock::{local_now, LocalTime, LOCAL_OFFSET_SECONDS};
use crate::command::{executes, frames_of, page_for_card, time_frame_text, Command, Page};
use crate::config::{adjacent_card, lemma_device_index_found, shown_cards, Config};
use crate::events::RootEvent;
use crate::pages::{temperature_frame_text, weather_translation};
use crate::parsing::{group_text, group_text_exec, groups_view, json_field, json_field_text, regex_captures, regex_groups};
use crate::screensaver::{appended, temp_only, temperature_signal, weather_signal, Screensaver};
use crate::state::{empty_update, merge_state, DeviceState, DeviceStateView, DeviceStore, WeatherCache, opt_text};
use crate::text::{push_decimal2, push_str, starts_with, str_eq, str_starts_with};

verus! {

/// The pattern of a button that pages to the next or previous card.
pub open spec fn button_pattern() -> Seq<char> {
    "event,buttonPress2,(.*?),(bNext|bPrev)"@
}

/// The request that panel event tokens (a JSON string, quotes included)
/// make, given the groups of `button_pattern` in them: startup, sleep and
/// leaving the screensaver by their prefixes; otherwise a paging button
/// leads to the card next to the named one among the device's shown cards.
pub open spec fn uplink_request(
    config: Config,
    device_id: Seq<char>,
    tokens: Seq<char>,
    captures: Option<Seq<Option<Seq<char>>>>,
) -> Option<Page> {
    if starts_with(tokens, "\"event,startup,"@) {
        Some(Page::Startup)
    } else if starts_with(tokens, "\"event,sleepReached,"@) {
        Some(Page::Screensaver)
    } else if starts_with(tokens, "\"event,buttonPress2,screensaver,bExit,"@) {
        Some(Page::ExistScreensaver)
    } else {
        match (captures, config.device(device_id)) {
            (Some(g), Some(d)) => match adjacent_card(
                shown_cards(d.card_views()),
                group_text(g, 1),
                group_text(g, 2) == "bNext"@,
            ) {
                Some(c) => match card_of_name(c.type_) {
                    Some(card) => Some(page_for_card(card)),
                    None => None,
                },
                None => None,
            },
            _ => None,
        }
    }
}

/// The request that a panel payload makes: the tokens are the JSON text of
/// its `CustomRecv` field.
pub open spec fn uplink_page(config: Config, device_id: Seq<char>, payload: Seq<char>) -> Option<Page> {
    match json_field_text(payload, "CustomRecv"@) {
        Some(t) => uplink_request(config, device_id, t, regex_captures(button_pattern(), t)),
        None => None,
    }
}

/// What a panel payload does at time `now`: nothing when it makes no
/// request, else what the request does.
pub open spec fn handles_uplink(
    config: Config,
    device_id: Seq<char>,
    payload: Seq<char>,
    before: DeviceStore,
    after: DeviceStore,
    cache: (Option<Seq<char>>, Option<Seq<char>>),
    now: LocalTime,
    frames: Seq<Seq<char>>,
) -> bool {
    match uplink_page(config, device_id, payload) {
        None => after == before && frames.len() == 0,
        Some(p) => executes(config, device_id, before, after, cache, p, now, frames),
    }
}

/// The request made by panel event tokens, given the groups that the
/// paging-button pattern found in them.
pub fn request_for_tokens(
    config: &Config,
    device_id: &str,
    tokens: &str,
    captures: &Option<Vec<Option<String>>>,
) -> (r: Option<Page>)
    ensures
        r == uplink_request(*config, device_id@, tokens@, groups_view(*captures)),
{
    if str_starts_with(tokens, "\"event,startup,") {
        Some(Page::Startup)
    } else if str_starts_with(tokens, "\"event,sleepReached,") {
        Some(Page::Screensaver)
    } else if str_starts_with(tokens, "\"event,buttonPress2,screensaver,bExit,") {
        Some(Page::ExistScreensaver)
    } else {
        let g = match captures {
            Some(g) => g,
            None => return None,
        };
        if config.get_device(device_id).is_none() {
            return None;
        }
        let card = group_text_exec(g, 1);
        let button = group_text_exec(g, 2);
        let forward = str_eq(button.as_str(), "bNext");
        match config.get_adjacent_card(device_id, card.as_str(), forward) {
            Some(c) => match Card::parse(c.type_.as_str()) {
                Some(target) => Some(Page::from_card(target)),
                None => None,
            },
            None => None,
        }
    }
}

/// Handles a panel payload of device `device_id` at time `now` and returns
/// the frames to send back.
pub fn commands_matching_at(
    config: &Config,
    store: &mut DeviceStore,
    cache: &WeatherCache,
    device_id: &str,
    payload: &str,
    now: &LocalTime,
) -> (r: Vec<String>)
    ensures
        handles_uplink(*config, device_id@, payload@, *old(store), *final(store), cache@, *now, frames_of(r@)),
{
    let tokens = match json_field(payload, "CustomRecv") {
        Some(t) => t,
        None => return Vec::new(),
    };
    let captures = regex_groups("event,buttonPress2,(.*?),(bNext|bPrev)", tokens.as_str());
    match request_for_tokens(config, device_id, tokens.as_str(), &captures) {
        Some(page) => Command::new(config, device_id).execute_at(store, cache, page, now),
        None => Vec::new(),
    }
}

/// Handles a panel payload of device `device_id` at the current local time.
pub fn commands_matching(
    config: &Config,
    store: &mut DeviceStore,
    cache: &WeatherCache,
    device_id: &str,
    payload: &str,
) -> (r: Vec<String>)
    ensures
        exists|now: LocalTime| now.wf() && handles_uplink(*config, device_id@, payload@, *old(store), *final(store), cache@, now, frames_of(r@)),
{
    let now = local_now(LOCAL_OFFSET_SECONDS);
    commands_matching_at(config, store, cache, device_id, payload, &now)
}

/// The first device, from position `i` on, whose panel publishes on `topic`.
pub open spec fn uplink_device_from(config: Config, topic: Seq<char>, i: int) -> Option<int>
    decreases config.devices@.len() - i,
{
    if i < 0 || i >= config.devices@.len() {
        None
    } else if config.devices@[i].1.mqtt.tx_topic@ == topic {
        Some(i)
    } else {
        uplink_device_from(config, topic, i + 1)
    }
}

/// The key of the first device whose panel publishes its events on `topic`.
pub fn uplink_device(config: &Config, topic: &str) -> (r: Option<String>)
    ensures
        opt_text(r) == match uplink_device_from(*config, topic@, 0) {
            Some(i) => Some(config.devices@[i].0@),
            None => None,
        },
{
    let mut i: usize = 0;
    while i < config.devices.len()
        invariant
            i <= config.devices@.len(),
            uplink_device_from(*config, topic@, 0) == uplink_device_from(*config, topic@, i as int),
        decreases config.devices.len() - i,
    {
        if str_eq(config.devices[i].1.mqtt.tx_topic.as_str(), topic) {
            return Some(config.devices[i].0.clone());
        }
        i += 1;
    }
    None
}

/// The topic on which device `device_id` receives its frames.
pub fn downlink_topic(config: &Config, device_id: &str) -> (r: Option<String>)
    ensures
        opt_text(r) == match config.device(device_id@) {
            Some(d) => Some(d.mqtt.rx_topic@),
            None => None,
        },
{
    match config.get_device(device_id) {
        Some(d) => Some(d.mqtt.rx_topic.clone()),
        None => None,
    }
}

proof fn lemma_uplink_device_found(config: Config, topic: Seq<char>, i: int)
    requires
        0 <= i,
        uplink_device_from(config, topic, i) is Some,
    ensures
        uplink_device_from(config, topic, i) matches Some(k) && i <= k < config.devices@.len()
            && config.devices@[k].1.mqtt.tx_topic@ == topic,
    decreases config.devices@.len() - i,
{
    if i < config.devices@.len() && config.devices@[i].1.mqtt.tx_topic@ != topic {
        lemma_uplink_device_found(config, topic, i + 1);
    }
}

/// Handles a message that arrived on `topic`: when it is the event topic
/// of a configured device, runs the payload as that device's request (at
/// the current local time) and returns the device's frame topic with the
/// frames to publish there; `None`, changing nothing, for any other topic.
pub fn handle_uplink_message(
    config: &Config,
    store: &mut DeviceStore,
    cache: &WeatherCache,
    topic: &str,
    payload: &str,
) -> (r: Option<(String, Vec<String>)>)
    ensures
        match uplink_device_from(*config, topic@, 0) {
            None => r is None && *final(store) == *old(store),
            Some(i) => {
                let id = config.devices@[i].0@;
                &&& r matches Some((t, _)) && t@ == config.device(id).unwrap().mqtt.rx_topic@
                &&& exists|now: LocalTime| now.wf() && handles_uplink(*config, id, payload@, *old(store), *final(store), cache@, now, frames_of(r.unwrap().1@))
            },
        },
{
    let device_id = match uplink_device(config, topic) {
        Some(d) => d,
        None => return None,
    };
    proof {
        lemma_uplink_device_found(*config, topic@, 0);
        let i = uplink_device_from(*config, topic@, 0).unwrap();
        lemma_device_index_found(config.devices@, device_id@, i, 0);
    }
    let downlink = match downlink_topic(config, device_id.as_str()) {
        Some(t) => t,
        None => return None,
    };
    let frames = commands_matching(config, store, cache, device_id.as_str(), payload);
    Some((downlink, frames))
}

/// `time~HH:MM~`, the clock frame sent to every panel periodically.
pub open spec fn time_update_text(now: LocalTime) -> Seq<char> {
    time_frame_text(now) + "~"@
}

/// The clock frame sent to every panel periodically.
pub fn time_update_frame(now: &LocalTime) -> (r: String)
    ensures
        r@ == time_update_text(*now),
{
    let mut r = String::new();
    push_str(&mut r, "time~");
    push_decimal2(&mut r, now.hour as u64);
    push_str(&mut r, ":");
    push_decimal2(&mut r, now.minute as u64);
    push_str(&mut r, "~");
    r
}

/// The clock frame for the current local time.
pub fn periodic_time_frame() -> (r: String)
    ensures
        exists|now: LocalTime| now.wf() && r@ == time_update_text(now),
{
    let now = local_now(LOCAL_OFFSET_SECONDS);
    time_update_frame(&now)
}

/// The seconds between two clock frames.
pub const TIME_UPDATE_SECONDS: u64 = 10;

/// Frames with their card.
pub open spec fn tagged(card: Card, frames: Seq<Seq<char>>) -> Seq<(Card, Seq<char>)> {
    frames.map_values(|f: Seq<char>| (card, f))
}

pub open spec fn message_views(m: Seq<(Card, String)>) -> Seq<(Card, Seq<char>)> {
    m.map_values(|x: (Card, String)| (x.0, x.1@))
}

/// The frames tagged with `page`, in order.
pub open spec fn for_page(m: Seq<(Card, Seq<char>)>, page: Card) -> Seq<Seq<char>>
    decreases m.len(),
{
    if m.len() == 0 {
        Seq::empty()
    } else if m.last().0 == page {
        for_page(m.drop_last(), page).push(m.last().1)
    } else {
        for_page(m.drop_last(), page)
    }
}

/// The tagged frames that a hub event yields for a device: temperature,
/// weather update and colour (screensaver), then the alarm update (alarm
/// card, rendered from the state `after` the event).
pub open spec fn hub_messages(config: Config, device_id: Seq<char>, raw: Seq<char>, event: RootEvent, after: DeviceStore) -> Seq<(Card, Seq<char>)> {
    let d = config.device(device_id).unwrap();
    tagged(
        Card::Screensaver,
        match temperature_signal(d, raw) {
            Some(t) => seq![temperature_frame_text(config.icons@, t)],
            None => Seq::empty(),
        },
    ) + tagged(
        Card::Screensaver,
        match weather_signal(d, raw, event.event) {
            Some(w) => match weather_translation(config.icons@, w) {
                Some((color, update)) => seq![update, color],
                None => Seq::empty(),
            },
            None => Seq::empty(),
        },
    ) + tagged(
        Card::CardAlarm,
        match alarm_signal(d, raw, event.event) {
            Some(_) => seq![alarm_frame(config.icons@, after.state_of(device_id).alarm.unwrap())],
            None => Seq::empty(),
        },
    )
}

/// The update a hub event makes to a device's temperature.
pub open spec fn hub_temp_update(config: Config, device_id: Seq<char>, raw: Seq<char>) -> DeviceStateView {
    match temperature_signal(config.device(device_id).unwrap(), raw) {
        Some(t) => temp_only(t),
        None => empty_update(),
    }
}

/// The update a hub event makes to a device's alarm.
pub open spec fn hub_alarm_update(config: Config, device_id: Seq<char>, raw: Seq<char>, event: RootEvent) -> DeviceStateView {
    match alarm_signal(config.device(device_id).unwrap(), raw, event.event) {
        Some((entity, ev)) => alarm_only(alarm_update_of(config.icons@, entity, ev)),
        None => empty_update(),
    }
}

/// The weather cache after a hub event.
pub open spec fn hub_cache(
    config: Config,
    device_id: Seq<char>,
    raw: Seq<char>,
    event: RootEvent,
    before: (Option<Seq<char>>, Option<Seq<char>>),
) -> (Option<Seq<char>>, Option<Seq<char>>) {
    match weather_signal(config.device(device_id).unwrap(), raw, event.event) {
        Some(w) => match weather_translation(config.icons@, w) {
            Some((color, update)) => (Some(update), Some(color)),
            None => before,
        },
        None => before,
    }
}

/// What a hub event does for device `device_id`: nothing for an unknown
/// device; else the temperature and then the alarm reading are merged into
/// its state, the weather frames replace the cached ones, and the frames
/// returned are those tagged with the page the device showed before.
pub open spec fn handles_hub_event(
    config: Config,
    device_id: Seq<char>,
    raw: Seq<char>,
    event: RootEvent,
    before: DeviceStore,
    after: DeviceStore,
    cache_before: (Option<Seq<char>>, Option<Seq<char>>),
    cache_after: (Option<Seq<char>>, Option<Seq<char>>),
    frames: Seq<Seq<char>>,
) -> bool {
    match config.device(device_id) {
        None => after == before && cache_after == cache_before && frames.len() == 0,
        Some(d) => {
            let page = crate::command::current_page(before.state_of(device_id)).current;
            &&& after.state_of(device_id) == merge_state(
                merge_state(before.state_of(device_id), hub_temp_update(config, device_id, raw)),
                hub_alarm_update(config, device_id, raw, event),
            )
            &&& forall|other: Seq<char>| other != device_id ==> #[trigger] after.state_of(other) == before.state_of(other)
            &&& cache_after == hub_cache(config, device_id, raw, event, cache_before)
            &&& frames == for_page(hub_messages(config, device_id, raw, event, after), page)
        },
    }
}

/// Merging an update that changes nothing keeps the state.
proof fn lemma_merge_empty(s: DeviceStateView)
    ensures
        merge_state(s, empty_update()) == s,
{
}

proof fn lemma_appended_views(old: Seq<(Card, String)>, new: Seq<(Card, String)>, card: Card, added: Seq<Seq<char>>)
    requires
        appended(old, new, card, added),
    ensures
        message_views(new) == message_views(old) + tagged(card, added),
{
    assert forall|k: int| 0 <= k < new.len() implies #[trigger] message_views(new)[k] == (message_views(old) + tagged(card, added))[k] by {
        if k < old.len() {
            assert(new[k] == new.subrange(0, old.len() as int)[k]);
        } else {
            assert(new[old.len() + (k - old.len())].0 == card);
        }
    }
    assert(message_views(new) =~= message_views(old) + tagged(card, added));
}

/// The frames of `messages` tagged with `page`, in order.
pub fn frames_for_page(messages: &Vec<(Card, String)>, page: Card) -> (r: Vec<String>)
    ensures
        frames_of(r@) == for_page(message_views(messages@), page),
{
    let mut r: Vec<String> = Vec::new();
    let mut i: usize = 0;
    while i < messages.len()
        invariant
            i <= messages@.len(),
            frames_of(r@) == for_page(message_views(messages@.subrange(0, i as int)), page),
        decreases messages.len() - i,
    {
        assert(message_views(messages@.subrange(0, i + 1)).drop_last() =~= message_views(messages@.subrange(0, i as int)));
        let ghost before = r@;
        if messages[i].0 == page {
            r.push(messages[i].1.clone());
            assert(frames_of(r@) =~= frames_of(before).push(messages@[i as int].1@));
        }
        i += 1;
    }
    assert(messages@.subrange(0, i as int) =~= messages@);
    r
}

/// Translates a hub event for device `device_id`: the room temperature,
/// the weather and the alarm, in that order. Every reading is stored, but
/// only the frames of the page the device shows are returned; the others
/// are dropped, not queued, and a later visit to their card renders it from
/// the stored state.
pub fn parse_hass_event(
    config: &Config,
    store: &mut DeviceStore,
    cache: &mut WeatherCache,
    device_id: &str,
    value: &str,
    json: &RootEvent,
) -> (r: Vec<String>)
    ensures
        handles_hub_event(*config, device_id@, value@, *json, *old(store), *final(store), old(cache)@, final(cache)@, frames_of(r@)),
{
    let device = match config.get_device(device_id) {
        Some(d) => d,
        None => return Vec::new(),
    };
    let state = DeviceState::get_state(store, device_id);
    let page = match state.page {
        Some(p) => p.current,
        None => Card::Screensaver,
    };
    let ghost s0 = *store;
    let mut messages: Vec<(Card, String)> = Vec::new();
    Screensaver::process_temperature_sensor(config, value, device_id, device, store, &mut messages);
    let ghost s1 = *store;
    let ghost m1 = messages@;
    Screensaver::process_weather(config, device, value, json, cache, &mut messages);
    let ghost m2 = messages@;
    Alarm::process_alarm_data(config, value, device_id, device, json, store, &mut messages);
    proof {
        let d = config.device(device_id@).unwrap();
        let icons = config.icons@;
        let t_frames = match temperature_signal(d, value@) {
            Some(t) => seq![temperature_frame_text(icons, t)],
            None => Seq::<Seq<char>>::empty(),
        };
        let w_frames = match weather_signal(d, value@, json.event) {
            Some(w) => match weather_translation(icons, w) {
                Some((color, update)) => seq![update, color],
                None => Seq::<Seq<char>>::empty(),
            },
            None => Seq::<Seq<char>>::empty(),
        };
        let a_frames = match alarm_signal(d, value@, json.event) {
            Some(_) => seq![alarm_frame(icons, store.state_of(device_id@).alarm.unwrap())],
            None => Seq::<Seq<char>>::empty(),
        };
        if temperature_signal(d, value@) is Some {
            lemma_appended_views(Seq::empty(), m1, Card::Screensaver, t_frames);
        } else {
            assert(m1 =~= Seq::<(Card, String)>::empty());
        }
        assert(message_views(m1) =~= tagged(Card::Screensaver, t_frames));
        if weather_signal(d, value@, json.event) matches Some(w) && weather_translation(icons, w) is Some {
            lemma_appended_views(m1, m2, Card::Screensaver, w_frames);
        } else {
            assert(message_views(m2) =~= message_views(m1) + tagged(Card::Screensaver, w_frames));
        }
        if alarm_signal(d, value@, json.event) is Some {
            assert(appended(m2, messages@, Card::CardAlarm, a_frames));
            lemma_appended_views(m2, messages@, Card::CardAlarm, a_frames);
        } else {
            assert(message_views(messages@) =~= message_views(m2) + tagged(Card::CardAlarm, a_frames));
        }
        assert(message_views(messages@) =~= hub_messages(*config, device_id@, value@, *json, *store));
        lemma_merge_empty(s0.state_of(device_id@));
        lemma_merge_empty(s1.state_of(device_id@));
        assert(page == crate::command::current_page(s0.state_of(device_id@)).current);
    }
    frames_for_page(&messages, page)
}

} // verus!
