//! Properties that relate the gateway's operations, proved from their contracts.

use vstd::prelude::*;
use crate::alarm::{alarm_signal, alarm_update_of, alarm_only};
use crate::cards::{card_of_name, Card};
use crate::clock::LocalTime;
use crate::command::current_page;
use crate::config::{shown_cards, CardsView, Config};
use crate::events::{RootEvent, WeatherEvent};
use crate::mqttc::{for_page, handles_hub_event, handles_uplink, hub_messages, tagged};
use crate::pages::{forecast_group, forecast_groups, forecast_weekday, has_forecast, temp_or_missing, weather_translation, FORECAST_DAYS};
use crate::state::{AlarmStateView, DeviceStore, merged_into, text_or_empty};
use crate::text::decimal;
use crate::weather::{color_fields, slot_color, weather_glyph, SCREENSAVER_SLOTS};

verus! {

/// The cards a panel pages through never include the screensaver, however
/// the case of its type is written.
pub proof fn law_shown_cards_exclude_screensaver(cs: Seq<CardsView>)
    ensures
        forall|i: int| 0 <= i < shown_cards(cs).len() ==> card_of_name((#[trigger] shown_cards(cs)[i]).type_) != Some(Card::Screensaver),
    decreases cs.len(),
{
    if cs.len() > 0 {
        law_shown_cards_exclude_screensaver(cs.drop_last());
    }
}

/// A panel payload for a device that the configuration does not hold
/// yields no frame and changes no state.
pub proof fn law_unknown_device_gets_no_frames(
    config: Config,
    device_id: Seq<char>,
    payload: Seq<char>,
    before: DeviceStore,
    after: DeviceStore,
    cache: (Option<Seq<char>>, Option<Seq<char>>),
    now: LocalTime,
    frames: Seq<Seq<char>>,
)
    requires
        config.device(device_id) is None,
        handles_uplink(config, device_id, payload, before, after, cache, now, frames),
    ensures
        frames.len() == 0,
        after == before,
{
}

/// A weather reading with fewer than four forecast days yields no frame,
/// so the weather cache keeps its frames.
pub proof fn law_short_forecast_yields_nothing(icons: Seq<(String, char)>, w: WeatherEvent)
    requires
        w.data is None || w.data.unwrap().forecast@.len() < FORECAST_DAYS,
    ensures
        weather_translation(icons, w) is None,
{
}

/// A weather reading with at least four forecast days whose date-times all
/// read as RFC 3339 always yields its frames, so `law_weather_frames_shape`
/// applies to it.
pub proof fn law_full_forecast_translates(icons: Seq<(String, char)>, w: WeatherEvent)
    requires
        has_forecast(w),
        forall|k: int| 0 <= k < FORECAST_DAYS ==> (#[trigger] forecast_weekday(w.data.unwrap().forecast@[k])) is Some,
    ensures
        weather_translation(icons, w) is Some,
{
    let fs = w.data.unwrap().forecast@;
    assert(forecast_weekday(fs[0]) is Some);
    assert(forecast_weekday(fs[1]) is Some);
    assert(forecast_weekday(fs[2]) is Some);
    assert(forecast_weekday(fs[3]) is Some);
}

/// `~` and the decimal colour of each of `cs`, in order.
pub open spec fn tilde_fields(cs: Seq<u32>) -> Seq<char>
    decreases cs.len(),
{
    if cs.len() == 0 {
        Seq::empty()
    } else {
        tilde_fields(cs.drop_last()) + seq!['~'] + decimal(cs.last() as nat)
    }
}

proof fn lemma_color_fields(pairs: Seq<(Seq<char>, Seq<char>)>, cs: Seq<u32>, n: int)
    requires
        0 <= n <= cs.len(),
        forall|i: int| 0 <= i < cs.len() ==> cs[i] == slot_color(pairs, i),
    ensures
        color_fields(pairs, n) == tilde_fields(cs.take(n)),
    decreases n,
{
    if n > 0 {
        lemma_color_fields(pairs, cs, n - 1);
        assert(cs.take(n).drop_last() =~= cs.take(n - 1));
    }
}

/// A weather reading that translates gives an update frame made of its
/// head and exactly four per-day groups, and a colour frame made of
/// `color` and exactly 22 colour fields.
pub proof fn law_weather_frames_shape(icons: Seq<(String, char)>, w: WeatherEvent, color: Seq<char>, update: Seq<char>)
    requires
        weather_translation(icons, w) == Some((color, update)),
    ensures
        exists|cs: Seq<u32>| cs.len() == SCREENSAVER_SLOTS && color == "color"@ + tilde_fields(cs),
        exists|wds: Seq<u8>| wds.len() == FORECAST_DAYS && update == #[trigger] four_day_update(icons, w, wds),
{
    let pairs = crate::pages::weather_color_pairs(w);
    let cs = Seq::new(SCREENSAVER_SLOTS as nat, |i: int| slot_color(pairs, i));
    lemma_color_fields(pairs, cs, SCREENSAVER_SLOTS as int);
    assert(cs.take(SCREENSAVER_SLOTS as int) =~= cs);
    assert(color == "color"@ + tilde_fields(cs));
    let wds = crate::pages::forecast_weekdays(w).unwrap();
    let fs = w.data.unwrap().forecast@;
    assert(forecast_groups(icons, fs, wds, 0) == Seq::<char>::empty());
    assert(forecast_groups(icons, fs, wds, 1) == forecast_groups(icons, fs, wds, 0) + forecast_group(icons, fs[0], wds[0]));
    assert(forecast_groups(icons, fs, wds, 1) =~= forecast_group(icons, fs[0], wds[0]));
    assert(forecast_groups(icons, fs, wds, 2) == forecast_groups(icons, fs, wds, 1) + forecast_group(icons, fs[1], wds[1]));
    assert(forecast_groups(icons, fs, wds, 3) == forecast_groups(icons, fs, wds, 2) + forecast_group(icons, fs[2], wds[2]));
    assert(forecast_groups(icons, fs, wds, 4) == forecast_groups(icons, fs, wds, 3) + forecast_group(icons, fs[3], wds[3]));
    assert(forecast_groups(icons, fs, wds, 4) =~= forecast_group(icons, fs[0], wds[0]) + forecast_group(icons, fs[1], wds[1])
        + forecast_group(icons, fs[2], wds[2]) + forecast_group(icons, fs[3], wds[3]));
    assert(update =~= four_day_update(icons, w, wds));
}

/// An update frame: its head, then one group for each of the first four
/// forecast days, each group `<weekday>~<glyph>~<high>°C~<low>°C~`.
pub open spec fn four_day_update(icons: Seq<(String, char)>, w: WeatherEvent, wds: Seq<u8>) -> Seq<char> {
    let fs = w.data.unwrap().forecast@;
    "weatherUpdate~"@ + seq![weather_glyph(icons, text_or_empty(w.state))] + "~"@
        + temp_or_missing(w.data.unwrap().temperature) + "°C~"@
        + forecast_group(icons, fs[0], wds[0]) + forecast_group(icons, fs[1], wds[1])
        + forecast_group(icons, fs[2], wds[2]) + forecast_group(icons, fs[3], wds[3])
}

proof fn lemma_for_page_tagged(m: Seq<(Card, Seq<char>)>, card: Card, f: Seq<Seq<char>>, page: Card)
    ensures
        for_page(m + tagged(card, f), page) == for_page(m, page) + if card == page { f } else { Seq::empty() },
    decreases f.len(),
{
    if f.len() == 0 {
        assert(m + tagged(card, f) =~= m);
        assert(for_page(m, page) + Seq::<Seq<char>>::empty() =~= for_page(m, page));
    } else {
        lemma_for_page_tagged(m, card, f.drop_last(), page);
        assert((m + tagged(card, f)).drop_last() =~= m + tagged(card, f.drop_last()));
        if card == page {
            assert(for_page(m, page) + f =~= (for_page(m, page) + f.drop_last()).push(f.last()));
        } else {
            assert(for_page(m, page) + Seq::<Seq<char>>::empty() =~= for_page(m, page));
        }
    }
}

/// While a device shows the screensaver, a hub event's alarm frame is held
/// back, yet its alarm reading is stored: the frames returned are the
/// screensaver's alone, and the stored alarm takes every non-empty field of
/// the reading.
pub proof fn law_hidden_alarm_is_stored(
    config: Config,
    device_id: Seq<char>,
    raw: Seq<char>,
    event: RootEvent,
    before: DeviceStore,
    after: DeviceStore,
    cache_before: (Option<Seq<char>>, Option<Seq<char>>),
    cache_after: (Option<Seq<char>>, Option<Seq<char>>),
    frames: Seq<Seq<char>>,
)
    requires
        config.device(device_id) is Some,
        current_page(before.state_of(device_id)).current == Card::Screensaver,
        alarm_signal(config.device(device_id).unwrap(), raw, event.event) is Some,
        handles_hub_event(config, device_id, raw, event, before, after, cache_before, cache_after, frames),
    ensures
        frames == for_page(
            hub_messages(config, device_id, raw, event, after).take(
                hub_messages(config, device_id, raw, event, after).len() - 1,
            ),
            Card::Screensaver,
        ),
        ({
            let (entity, ev) = alarm_signal(config.device(device_id).unwrap(), raw, event.event).unwrap();
            let update = alarm_update_of(config.icons@, entity, ev);
            &&& after.state_of(device_id).alarm is Some
            &&& update.state.len() > 0 ==> after.state_of(device_id).alarm.unwrap().state == update.state
            &&& update.supported_mode.len() > 0 ==> after.state_of(device_id).alarm.unwrap().supported_mode == update.supported_mode
            &&& update.entity.len() > 0 ==> after.state_of(device_id).alarm.unwrap().entity == update.entity
        }),
{
    let m = hub_messages(config, device_id, raw, event, after);
    let d = config.device(device_id).unwrap();
    let a_frames = seq![crate::alarm::alarm_frame(config.icons@, after.state_of(device_id).alarm.unwrap())];
    let prefix = m.take(m.len() - 1);
    assert(m =~= prefix + tagged(Card::CardAlarm, a_frames));
    lemma_for_page_tagged(prefix, Card::CardAlarm, a_frames, Card::Screensaver);
    assert(for_page(prefix, Card::Screensaver) + Seq::<Seq<char>>::empty() =~= for_page(prefix, Card::Screensaver));
}

/// An alarm update that sets the state only.
pub open spec fn alarm_state_only(state: Seq<char>) -> AlarmStateView {
    AlarmStateView {
        state: state,
        supported_mode: Seq::empty(),
        code_arm_required: None,
        entity: Seq::empty(),
        icon: (Seq::empty(), 0),
    }
}

/// An alarm update that sets the icon only.
pub open spec fn alarm_icon_only(icon: (Seq<char>, u32)) -> AlarmStateView {
    AlarmStateView {
        state: Seq::empty(),
        supported_mode: Seq::empty(),
        code_arm_required: None,
        entity: Seq::empty(),
        icon: icon,
    }
}

/// Merging an alarm state and then an alarm icon leaves both stored: the
/// merge is field by field, not a replacement of the whole alarm.
pub proof fn law_alarm_fields_merge(
    s0: DeviceStore,
    s1: DeviceStore,
    s2: DeviceStore,
    id: Seq<char>,
    state: Seq<char>,
    icon: (Seq<char>, u32),
)
    requires
        state.len() > 0,
        icon.0.len() > 0,
        merged_into(s0, s1, id, alarm_only(alarm_state_only(state))),
        merged_into(s1, s2, id, alarm_only(alarm_icon_only(icon))),
    ensures
        s2.state_of(id).alarm matches Some(a) && a.state == state && a.icon == icon,
{
}

} // verus!
