//! The alarm panel: its icon table, its entity-update frame, and the
//! translation of alarm events.

use vstd::prelude::*;
use crate::cards::Card;
use crate::config::{glyph_in, glyph_of, Config, Device, entity_in_cards};
use crate::events::{AlarmEvent, RootEvent, Event, is_flat_shape, is_flat_shape_exec, is_placeholder, is_placeholder_exec};
use crate::state::{AlarmState, AlarmStateView, DeviceState, DeviceStateView, DeviceStore, merged_into, text_or_empty};
use crate::text::{decimal, push_char, push_decimal, push_str, str_eq};

verus! {

/// For an alarm state: the icon name, its colour, and whether it flashes.
pub open spec fn alarm_look(state: Seq<char>) -> Option<(Seq<char>, u32, bool)> {
    if state == "disarmed"@ {
        Some(("shield-off"@, 3334u32, false))
    } else if state == "armed_home"@ {
        Some(("shield-home"@, 55907u32, false))
    } else if state == "armed_away"@ {
        Some(("shield-lock"@, 55907u32, false))
    } else if state == "armed_night"@ {
        Some(("weather-night"@, 55907u32, false))
    } else if state == "armed_vacation"@ {
        Some(("shield-airplane"@, 55907u32, false))
    } else if state == "pending"@ || state == "arming"@ {
        Some(("shield"@, 62848u32, true))
    } else if state == "triggered"@ {
        Some(("bell-ring"@, 55907u32, true))
    } else {
        None
    }
}

/// The glyph (as text) and colour shown for an alarm state; empty and 0 for
/// an unknown state.
pub open spec fn alarm_icon(icons: Seq<(String, char)>, state: Seq<char>) -> (Seq<char>, u32) {
    match alarm_look(state) {
        Some((name, color, _)) => (seq![glyph_in(icons, name)], color),
        None => (Seq::empty(), 0),
    }
}

/// The keypad is offered for every known state, except when disarmed with
/// arming explicitly needing no code.
pub open spec fn numkey_enabled(a: AlarmStateView) -> bool {
    alarm_look(a.state) is Some && !(a.state == "disarmed"@ && a.code_arm_required == Some(false))
}

/// The icon flashes while arming, pending or triggered.
pub open spec fn flashing(state: Seq<char>) -> bool {
    match alarm_look(state) {
        Some((_, _, f)) => f,
        None => false,
    }
}

pub open spec fn flag(b: bool) -> Seq<char> {
    if b { "enable"@ } else { "disable"@ }
}

/// `entityUpd~<entity>~1|1~<modes>~<glyph>~<colour>~<numkey>~<flashing>~`
pub open spec fn alarm_frame(icons: Seq<(String, char)>, a: AlarmStateView) -> Seq<char> {
    let icon = alarm_icon(icons, a.state);
    "entityUpd~"@ + a.entity + "~1|1~"@ + a.supported_mode + "~"@ + icon.0 + "~"@ + decimal(
        icon.1 as nat,
    ) + "~"@ + flag(numkey_enabled(a)) + "~"@ + flag(flashing(a.state)) + "~"@
}

fn alarm_look_exec(state: &str) -> (r: Option<(&'static str, u32, bool)>)
    ensures
        r matches Some(l) ==> alarm_look(state@) == Some((l.0@, l.1, l.2)),
        r is None ==> alarm_look(state@) is None,
{
    if str_eq(state, "disarmed") {
        Some(("shield-off", 3334, false))
    } else if str_eq(state, "armed_home") {
        Some(("shield-home", 55907, false))
    } else if str_eq(state, "armed_away") {
        Some(("shield-lock", 55907, false))
    } else if str_eq(state, "armed_night") {
        Some(("weather-night", 55907, false))
    } else if str_eq(state, "armed_vacation") {
        Some(("shield-airplane", 55907, false))
    } else if str_eq(state, "pending") || str_eq(state, "arming") {
        Some(("shield", 62848, true))
    } else if str_eq(state, "triggered") {
        Some(("bell-ring", 55907, true))
    } else {
        None
    }
}

/// The glyph (as text) and colour shown for an alarm state.
pub fn alarm_icon_exec(icons: &Vec<(String, char)>, state: &str) -> (r: (String, u32))
    ensures
        (r.0@, r.1) == alarm_icon(icons@, state@),
{
    match alarm_look_exec(state) {
        Some((name, color, _)) => {
            let mut glyph = String::new();
            push_char(&mut glyph, glyph_of(icons, name));
            (glyph, color)
        },
        None => (String::new(), 0),
    }
}

fn push_flag(s: &mut String, b: bool)
    ensures
        final(s)@ == old(s)@ + flag(b),
{
    if b {
        push_str(s, "enable");
    } else {
        push_str(s, "disable");
    }
}

/// The entity-update frame of the alarm card for a stored alarm state.
pub fn alarm_update_frame(icons: &Vec<(String, char)>, alarm: &AlarmState) -> (r: String)
    ensures
        r@ == alarm_frame(icons@, alarm@),
{
    let look = alarm_look_exec(alarm.state.as_str());
    let icon = alarm_icon_exec(icons, alarm.state.as_str());
    let numkey = match look {
        Some(_) => !(str_eq(alarm.state.as_str(), "disarmed") && alarm.code_arm_required
            == Some(false)),
        None => false,
    };
    let flash = match look {
        Some(l) => l.2,
        None => false,
    };
    let mut r = String::new();
    push_str(&mut r, "entityUpd~");
    push_str(&mut r, alarm.entity.as_str());
    push_str(&mut r, "~1|1~");
    push_str(&mut r, alarm.supported_mode.as_str());
    push_str(&mut r, "~");
    push_str(&mut r, icon.0.as_str());
    push_str(&mut r, "~");
    push_decimal(&mut r, icon.1 as u64);
    push_str(&mut r, "~");
    push_flag(&mut r, numkey);
    push_str(&mut r, "~");
    push_flag(&mut r, flash);
    push_str(&mut r, "~");
    r
}

/// Appends `label` to the `~`-joined list `acc` when `on`.
pub open spec fn add_mode(acc: Seq<char>, on: bool, label: Seq<char>) -> Seq<char> {
    if !on {
        acc
    } else if acc.len() == 0 {
        label
    } else {
        acc + seq!['~'] + label
    }
}

/// The arming modes that the feature bits of an alarm panel allow, as
/// `label~code` pairs joined by `~`.
pub open spec fn modes_text(bits: u32) -> Seq<char> {
    let a = add_mode(Seq::empty(), bits & 1 != 0, "Arm Home~arm_home"@);
    let b = add_mode(a, bits & 2 != 0, "Arm Away~arm_away"@);
    let c = add_mode(b, bits & 4 != 0, "Arm Night~arm_night"@);
    add_mode(c, bits & 32 != 0, "Arm Vacation~arm_vacation"@)
}

fn push_mode(acc: &mut String, on: bool, label: &str)
    ensures
        final(acc)@ == add_mode(old(acc)@, on, label@),
{
    if on {
        if acc.as_str().is_empty() {
            push_str(acc, label);
            assert(acc@ =~= label@);
        } else {
            push_char(acc, '~');
            push_str(acc, label);
        }
    }
}

/// The arming modes that the feature bits allow.
pub fn modes_text_exec(bits: u32) -> (r: String)
    ensures
        r@ == modes_text(bits),
{
    let mut r = String::new();
    push_mode(&mut r, bits & 1 != 0, "Arm Home~arm_home");
    push_mode(&mut r, bits & 2 != 0, "Arm Away~arm_away");
    push_mode(&mut r, bits & 4 != 0, "Arm Night~arm_night");
    push_mode(&mut r, bits & 32 != 0, "Arm Vacation~arm_vacation");
    r
}

/// The alarm update that an alarm event of entity `entity` makes: modes,
/// code requirement and entity only when the event has attributes; the
/// state (empty when absent) and its icon always.
pub open spec fn alarm_update_of(icons: Seq<(String, char)>, entity: Seq<char>, ev: AlarmEvent) -> AlarmStateView {
    let state = text_or_empty(ev.state);
    AlarmStateView {
        state: state,
        supported_mode: match ev.data {
            Some(d) => modes_text(match d.supported_features { Some(b) => b, None => 0 }),
            None => Seq::empty(),
        },
        code_arm_required: match ev.data {
            Some(d) => Some(d.code_arm_required == Some(true)),
            None => None,
        },
        entity: if ev.data is Some { entity } else { Seq::empty() },
        icon: alarm_icon(icons, state),
    }
}

/// An update that touches the alarm only.
pub open spec fn alarm_only(a: AlarmStateView) -> DeviceStateView {
    DeviceStateView { temp: None, humidity: None, iaq: None, page: None, alarm: Some(a) }
}

/// The alarm reading an event brings for a device: the device has an entity
/// named `alarm`, the event reports it, its value is no placeholder, and it
/// reads as an alarm in the shape that the event text shows.
pub open spec fn alarm_signal(device: Device, raw: Seq<char>, event: Event) -> Option<(Seq<char>, AlarmEvent)> {
    match entity_in_cards(device.card_views(), "alarm"@) {
        Some(e) => match event.value_of(e.entity@) {
            Some(v) => if is_placeholder(v.text@) {
                None
            } else {
                let chosen = if is_flat_shape(raw, e.entity@) { v.flat_alarm } else { v.nested_alarm };
                match chosen {
                    Some(a) => Some((e.entity@, a)),
                    None => None,
                }
            },
            None => None,
        },
        None => None,
    }
}

/// Alarm events and the alarm card's update frame.
pub struct Alarm {}

impl Alarm {
    /// Translates the alarm reading of a hub event for device `device_id`:
    /// merges it into the device's alarm state and appends the alarm card's
    /// update frame, tagged with the alarm card. Leaves both untouched when
    /// the event brings no alarm reading.
    pub fn process_alarm_data(
        config: &Config,
        value: &str,
        device_id: &str,
        device: &Device,
        json: &RootEvent,
        store: &mut DeviceStore,
        messages: &mut Vec<(Card, String)>,
    )
        ensures
            match alarm_signal(*device, value@, json.event) {
                None => *final(store) == *old(store) && final(messages)@ == old(messages)@,
                Some((entity, ev)) => {
                    let update = alarm_update_of(config.icons@, entity, ev);
                    &&& merged_into(*old(store), *final(store), device_id@, alarm_only(update))
                    &&& final(messages)@.len() == old(messages)@.len() + 1
                    &&& final(messages)@.subrange(0, old(messages)@.len() as int) == old(messages)@
                    &&& final(messages)@.last().0 == Card::CardAlarm
                    &&& final(messages)@.last().1@ == alarm_frame(
                        config.icons@,
                        final(store).state_of(device_id@).alarm.unwrap(),
                    )
                },
            },
    {
        let alarm = match device.get_entity_by_name("alarm") {
            Some(e) => e,
            None => return,
        };
        let v = match json.event.get(alarm.entity.as_str()) {
            Some(v) => v,
            None => return,
        };
        if is_placeholder_exec(v.text.as_str()) {
            return;
        }
        let chosen = if is_flat_shape_exec(value, alarm.entity.as_str()) {
            &v.flat_alarm
        } else {
            &v.nested_alarm
        };
        match chosen {
            Some(ev) => {
                let frame = Alarm::get_alarm(config, device_id, alarm.entity.as_str(), ev, store);
                messages.push((Card::CardAlarm, frame));
            },
            None => {},
        }
    }

    /// Merges the alarm update of `ev` into the state of `device_id` and
    /// renders the update frame from the merged alarm.
    fn get_alarm(
        config: &Config,
        device_id: &str,
        entity: &str,
        ev: &AlarmEvent,
        store: &mut DeviceStore,
    ) -> (r: String)
        ensures
            merged_into(*old(store), *final(store), device_id@, alarm_only(alarm_update_of(config.icons@, entity@, *ev))),
            final(store).state_of(device_id@).alarm is Some,
            r@ == alarm_frame(config.icons@, final(store).state_of(device_id@).alarm.unwrap()),
    {
        let state = match &ev.state {
            Some(s) => s.clone(),
            None => String::new(),
        };
        let icon = alarm_icon_exec(&config.icons, state.as_str());
        let update = match &ev.data {
            Some(d) => AlarmState {
                state,
                supported_mode: modes_text_exec(
                    match d.supported_features {
                        Some(b) => b,
                        None => 0,
                    },
                ),
                code_arm_required: Some(d.code_arm_required == Some(true)),
                entity: entity.to_owned(),
                icon,
            },
            None => AlarmState {
                state,
                supported_mode: String::new(),
                code_arm_required: None,
                entity: String::new(),
                icon,
            },
        };
        let mut change = DeviceState::empty();
        change.alarm = Some(update);
        DeviceState::read_process_overwrite(store, device_id, change);
        let stored = DeviceState::get_state(store, device_id);
        match &stored.alarm {
            Some(a) => alarm_update_frame(&config.icons, a),
            None => String::new(),
        }
    }
}

} // verus!
