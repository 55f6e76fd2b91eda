//! Page navigation of a panel and the frames that render each page.

use vstd::prelude::*;
use crate::alarm::{alarm_frame, alarm_update_frame};
use crate::cards::{card_name, card_of_name, Card};
use crate::clock::{date_text, format_date, local_now, LocalTime, LOCAL_OFFSET_SECONDS};
use crate::config::{card_of_type, glyph_in, glyph_of, shown_cards, CardsView, Config, Device, Entity};
use crate::pages::{temperature_frame, temperature_frame_text};
use crate::state::{default_page, DeviceState, DeviceStateView, DeviceStore, WeatherCache, merged_into, text_or_empty};
use crate::state::Page as Shown;
use crate::text::{decimal, decimal2, eq_ignoring_ascii_case, eq_ignoring_ascii_case_exec, push_decimal, push_decimal2, push_char, push_str};

verus! {

/// A page request from a panel.
#[derive(Clone, Copy, Debug, PartialEq, Eq, Structural)]
pub enum Page {
    Screensaver,
    Startup,
    ExistScreensaver,
    CardAlarm,
    CardQR,
    CardThermo,
    CardHome,
}

/// The request named `s`, ignoring ASCII case.
pub open spec fn page_of_name(s: Seq<char>) -> Option<Page> {
    if eq_ignoring_ascii_case(s, "screensaver"@) {
        Some(Page::Screensaver)
    } else if eq_ignoring_ascii_case(s, "startup"@) {
        Some(Page::Startup)
    } else if eq_ignoring_ascii_case(s, "existScreensaver"@) {
        Some(Page::ExistScreensaver)
    } else if eq_ignoring_ascii_case(s, "cardAlarm"@) {
        Some(Page::CardAlarm)
    } else if eq_ignoring_ascii_case(s, "cardQR"@) {
        Some(Page::CardQR)
    } else if eq_ignoring_ascii_case(s, "cardThermo"@) {
        Some(Page::CardThermo)
    } else if eq_ignoring_ascii_case(s, "cardHome"@) {
        Some(Page::CardHome)
    } else {
        None
    }
}

/// The request that shows a card.
pub open spec fn page_for_card(c: Card) -> Page {
    match c {
        Card::Screensaver => Page::Screensaver,
        Card::CardQR => Page::CardQR,
        Card::CardAlarm => Page::CardAlarm,
        Card::CardThermo => Page::CardThermo,
        Card::CardHome => Page::CardHome,
    }
}

impl Page {
    /// Reads a request name, ignoring ASCII case; `None` for an unknown name.
    pub fn parse(value: &str) -> (r: Option<Page>)
        ensures
            r == page_of_name(value@),
    {
        if eq_ignoring_ascii_case_exec(value, "screensaver") {
            Some(Page::Screensaver)
        } else if eq_ignoring_ascii_case_exec(value, "startup") {
            Some(Page::Startup)
        } else if eq_ignoring_ascii_case_exec(value, "existScreensaver") {
            Some(Page::ExistScreensaver)
        } else if eq_ignoring_ascii_case_exec(value, "cardAlarm") {
            Some(Page::CardAlarm)
        } else if eq_ignoring_ascii_case_exec(value, "cardQR") {
            Some(Page::CardQR)
        } else if eq_ignoring_ascii_case_exec(value, "cardThermo") {
            Some(Page::CardThermo)
        } else if eq_ignoring_ascii_case_exec(value, "cardHome") {
            Some(Page::CardHome)
        } else {
            None
        }
    }

    /// The request that shows a card.
    pub fn from_card(c: Card) -> (r: Page)
        ensures
            r == page_for_card(c),
    {
        match c {
            Card::Screensaver => Page::Screensaver,
            Card::CardQR => Page::CardQR,
            Card::CardAlarm => Page::CardAlarm,
            Card::CardThermo => Page::CardThermo,
            Card::CardHome => Page::CardHome,
        }
    }
}

/// The page a device shows, the default page when none is stored.
pub open spec fn current_page(st: DeviceStateView) -> Shown {
    match st.page {
        Some(p) => p,
        None => default_page(),
    }
}

/// The card a request leads to from the shown page: the screensaver for
/// startup and sleep; when leaving the screensaver, the first shown card if
/// nothing was shown before (the screensaver if the device has no card, no
/// transition if its type is unknown), else the previous page; the named
/// card otherwise.
pub open spec fn target_card(device: Device, page: Shown, request: Page) -> Option<Card> {
    match request {
        Page::Screensaver | Page::Startup => Some(Card::Screensaver),
        Page::ExistScreensaver => if page.current == Card::Screensaver && page.previous == Card::Screensaver {
            let shown = shown_cards(device.card_views());
            if shown.len() == 0 {
                Some(Card::Screensaver)
            } else {
                card_of_name(shown[0].type_)
            }
        } else {
            Some(page.previous)
        },
        Page::CardAlarm => Some(Card::CardAlarm),
        Page::CardQR => Some(Card::CardQR),
        Page::CardThermo => Some(Card::CardThermo),
        Page::CardHome => Some(Card::CardHome),
    }
}

/// An update that touches the page only.
pub open spec fn page_only(p: Shown) -> DeviceStateView {
    DeviceStateView { temp: None, humidity: None, iaq: None, page: Some(p), alarm: None }
}

/// The page after rendering `target` from `from`.
pub open spec fn moved(from: Shown, target: Card) -> Shown {
    Shown { current: target, previous: from.current }
}

/// The strftime pattern of the screensaver's date.
pub open spec fn date_pattern() -> Seq<char> {
    "%A, %d. %B %Y"@
}

/// `time~HH:MM`
pub open spec fn time_frame_text(now: LocalTime) -> Seq<char> {
    "time~"@ + decimal2(now.hour as nat) + ":"@ + decimal2(now.minute as nat)
}

/// `date~<weekday>, <day>. <month> <year>`
pub open spec fn date_frame_text(now: LocalTime) -> Seq<char> {
    "date~"@ + match date_text(date_pattern(), now.year, now.month, now.day) {
        Some(t) => t,
        None => Seq::empty(),
    }
}

pub open spec fn opt_frame(o: Option<Seq<char>>) -> Seq<Seq<char>> {
    match o {
        Some(f) => seq![f],
        None => Seq::empty(),
    }
}

/// The screensaver's frames: clock, date, timeout, dimming, page type, room
/// temperature, then the cached weather update and colour frames.
pub open spec fn screensaver_frames(
    config: Config,
    device: Device,
    st: DeviceStateView,
    cache: (Option<Seq<char>>, Option<Seq<char>>),
    now: LocalTime,
) -> Seq<Seq<char>> {
    seq![
        "X"@,
        time_frame_text(now),
        date_frame_text(now),
        "timeout~"@ + decimal(device.config.timeout_to_screensaver as nat),
        "dimmode~10~100~6371"@,
        "pageType~screensaver"@,
        temperature_frame_text(
            config.icons@,
            match st.temp {
                Some(t) => t,
                None => Seq::empty(),
            },
        ),
    ] + opt_frame(cache.0) + opt_frame(cache.1)
}

/// The alarm card's frames: its page type, and its update frame when an
/// alarm state is known.
pub open spec fn alarm_page_frames(config: Config, st: DeviceStateView) -> Seq<Seq<char>> {
    seq!["pageType~cardAlarm"@] + match st.alarm {
        Some(a) => seq![alarm_frame(config.icons@, a)],
        None => Seq::empty(),
    }
}

/// `<entity>~<glyph>~17299~<name>` for entity `k` of a card, with empty
/// texts for a missing entity.
pub open spec fn entity_fields(icons: Seq<(String, char)>, es: Seq<Entity>, k: int) -> Seq<char> {
    if 0 <= k < es.len() {
        es[k].entity@ + "~"@ + seq![glyph_in(icons, text_or_empty(es[k].icon))] + "~17299~"@ + text_or_empty(es[k].name)
    } else {
        "~"@ + seq![glyph_in(icons, Seq::empty())] + "~17299~"@
    }
}

/// The update frame of a configured card with two text entities.
pub open spec fn card_update_text(icons: Seq<(String, char)>, c: CardsView) -> Seq<char> {
    "entityUpd~"@ + (match c.title { Some(t) => t, None => Seq::empty() }) + "~1|1~"@
        + (match c.data { Some(d) => d, None => Seq::empty() }) + "~text~"@ + entity_fields(icons, c.entities, 0)
        + "~text~"@ + entity_fields(icons, c.entities, 1)
}

/// A generic card's frames: its page type, and its update frame when the
/// device configures a card of that type.
pub open spec fn card_frames(config: Config, device: Device, card: Card) -> Seq<Seq<char>> {
    seq!["pageType~"@ + card_name(card)] + match card_of_type(device.card_views(), card_name(card)) {
        Some(c) => seq![card_update_text(config.icons@, c)],
        None => Seq::empty(),
    }
}

/// The frames that render `card` from the committed state `st`.
pub open spec fn render(
    config: Config,
    device: Device,
    st: DeviceStateView,
    cache: (Option<Seq<char>>, Option<Seq<char>>),
    card: Card,
    now: LocalTime,
) -> Seq<Seq<char>> {
    match card {
        Card::Screensaver => screensaver_frames(config, device, st, cache, now),
        Card::CardAlarm => alarm_page_frames(config, st),
        _ => card_frames(config, device, card),
    }
}

pub open spec fn frames_of(r: Seq<String>) -> Seq<Seq<char>> {
    r.map_values(|s: String| s@)
}

/// What a request does at time `now`: nothing for an unknown device or a
/// request without transition; otherwise it commits the target page
/// (previous page := current page, current page := target) and yields the
/// frames that render the target from the committed state.
pub open spec fn executes(
    config: Config,
    device_id: Seq<char>,
    before: DeviceStore,
    after: DeviceStore,
    cache: (Option<Seq<char>>, Option<Seq<char>>),
    request: Page,
    now: LocalTime,
    frames: Seq<Seq<char>>,
) -> bool {
    match config.device(device_id) {
        None => after == before && frames.len() == 0,
        Some(d) => match target_card(d, current_page(before.state_of(device_id)), request) {
            None => after == before && frames.len() == 0,
            Some(t) => {
                &&& merged_into(before, after, device_id, page_only(moved(current_page(before.state_of(device_id)), t)))
                &&& frames == render(config, d, after.state_of(device_id), cache, t, now)
            },
        },
    }
}

fn opt_text_clone(o: &Option<String>) -> (r: String)
    ensures
        r@ == text_or_empty(*o),
{
    match o {
        Some(s) => s.clone(),
        None => String::new(),
    }
}

fn push_entity_fields(s: &mut String, icons: &Vec<(String, char)>, es: &Vec<Entity>, k: usize)
    ensures
        final(s)@ == old(s)@ + entity_fields(icons@, es@, k as int),
{
    let ghost start = s@;
    if k < es.len() {
        push_str(s, es[k].entity.as_str());
        push_str(s, "~");
        let icon = opt_text_clone(&es[k].icon);
        push_char(s, glyph_of(icons, icon.as_str()));
        push_str(s, "~17299~");
        let name = opt_text_clone(&es[k].name);
        push_str(s, name.as_str());
    } else {
        push_str(s, "~");
        let none = String::new();
        push_char(s, glyph_of(icons, none.as_str()));
        push_str(s, "~17299~");
    }
    assert(s@ =~= start + entity_fields(icons@, es@, k as int));
}

/// A panel request bound to a configuration and a device.
pub struct Command<'a> {
    pub config: &'a Config,
    pub device_id: &'a str,
}

impl<'a> Command<'a> {
    pub fn new(config: &'a Config, device_id: &'a str) -> (r: Command<'a>)
        ensures
            r.config == config,
            r.device_id == device_id,
    {
        Command { config, device_id }
    }

    /// Runs a request at the current local time; see `execute_at`.
    pub fn execute(&self, store: &mut DeviceStore, cache: &WeatherCache, page: Page) -> (r: Vec<String>)
        ensures
            exists|now: LocalTime| now.wf() && executes(*self.config, self.device_id@, *old(store), *final(store), cache@, page, now, frames_of(r@)),
    {
        let now = local_now(LOCAL_OFFSET_SECONDS);
        self.execute_at(store, cache, page, &now)
    }

    /// Runs a request at time `now`: resolves the target card, commits it
    /// as the device's page, and renders it. An unknown device, or a request
    /// without transition, yields no frame and changes nothing.
    pub fn execute_at(&self, store: &mut DeviceStore, cache: &WeatherCache, page: Page, now: &LocalTime) -> (r: Vec<String>)
        ensures
            executes(*self.config, self.device_id@, *old(store), *final(store), cache@, page, *now, frames_of(r@)),
    {
        let device = match self.config.get_device(self.device_id) {
            Some(d) => d,
            None => return Vec::new(),
        };
        let state = DeviceState::get_state(store, self.device_id);
        let shown = match state.page {
            Some(p) => p,
            None => Shown::default(),
        };
        let target = match self.resolve(device, shown, page) {
            Some(t) => t,
            None => return Vec::new(),
        };
        let mut change = DeviceState::empty();
        change.page = Some(Shown { current: target, previous: shown.current });
        DeviceState::read_process_overwrite(store, self.device_id, change);
        match target {
            Card::Screensaver => self.screensaver(device, store, cache, now),
            Card::CardAlarm => self.card_alarm(store),
            _ => self.qr_code(device, target),
        }
    }

    /// The card a request leads to from the shown page.
    pub fn resolve(&self, device: &Device, shown: Shown, page: Page) -> (r: Option<Card>)
        ensures
            r == target_card(*device, shown, page),
    {
        match page {
            Page::Screensaver | Page::Startup => Some(Card::Screensaver),
            Page::ExistScreensaver => {
                if shown.current == Card::Screensaver && shown.previous == Card::Screensaver {
                    let cards = device.get_cards();
                    if cards.len() == 0 {
                        Some(Card::Screensaver)
                    } else {
                        proof {
                            assert(crate::config::card_views(cards@)[0] == cards@[0]@);
                        }
                        Card::parse(cards[0].type_.as_str())
                    }
                } else {
                    Some(shown.previous)
                }
            },
            Page::CardAlarm => Some(Card::CardAlarm),
            Page::CardQR => Some(Card::CardQR),
            Page::CardThermo => Some(Card::CardThermo),
            Page::CardHome => Some(Card::CardHome),
        }
    }

    /// The alarm card's frames from the stored state.
    fn card_alarm(&self, store: &DeviceStore) -> (r: Vec<String>)
        ensures
            frames_of(r@) == alarm_page_frames(*self.config, store.state_of(self.device_id@)),
    {
        let state = DeviceState::get_state(store, self.device_id);
        let mut r: Vec<String> = Vec::new();
        r.push("pageType~cardAlarm".to_owned());
        match &state.alarm {
            Some(a) => r.push(alarm_update_frame(&self.config.icons, a)),
            None => {},
        }
        assert(frames_of(r@) =~= alarm_page_frames(*self.config, store.state_of(self.device_id@)));
        r
    }

    /// The screensaver's frames from the stored state and the weather cache.
    fn screensaver(&self, device: &Device, store: &DeviceStore, cache: &WeatherCache, now: &LocalTime) -> (r: Vec<String>)
        ensures
            frames_of(r@) == screensaver_frames(*self.config, *device, store.state_of(self.device_id@), cache@, *now),
    {
        let state = DeviceState::get_state(store, self.device_id);
        let mut time = String::new();
        push_str(&mut time, "time~");
        push_decimal2(&mut time, now.hour as u64);
        push_str(&mut time, ":");
        push_decimal2(&mut time, now.minute as u64);
        let mut date = String::new();
        push_str(&mut date, "date~");
        match format_date("%A, %d. %B %Y", now.year, now.month, now.day) {
            Some(t) => push_str(&mut date, t.as_str()),
            None => {},
        }
        let mut timeout = String::new();
        push_str(&mut timeout, "timeout~");
        push_decimal(&mut timeout, device.config.timeout_to_screensaver as u64);
        let temp = opt_text_clone(&state.temp);
        let mut r: Vec<String> = Vec::new();
        r.push("X".to_owned());
        r.push(time);
        r.push(date);
        r.push(timeout);
        r.push("dimmode~10~100~6371".to_owned());
        r.push("pageType~screensaver".to_owned());
        r.push(temperature_frame(self.config, temp.as_str()));
        match &cache.update {
            Some(u) => r.push(u.clone()),
            None => {},
        }
        match &cache.color {
            Some(c) => r.push(c.clone()),
            None => {},
        }
        assert(frames_of(r@) =~= screensaver_frames(*self.config, *device, store.state_of(self.device_id@), cache@, *now));
        r
    }

    /// A generic card's frames: its page type and, when configured, its
    /// update frame from the card's first two entities.
    fn qr_code(&self, device: &Device, card: Card) -> (r: Vec<String>)
        ensures
            frames_of(r@) == card_frames(*self.config, *device, card),
    {
        let mut page = String::new();
        push_str(&mut page, "pageType~");
        push_str(&mut page, card.as_str());
        let mut r: Vec<String> = Vec::new();
        r.push(page);
        match crate::config::card_index(&device.cards, card.as_str()) {
            Some(i) => {
                let c = &device.cards[i];
                proof {
                    assert(crate::config::card_views(device.cards@)[i as int] == c@);
                }
                let mut u = String::new();
                push_str(&mut u, "entityUpd~");
                let title = opt_text_clone(&c.title);
                push_str(&mut u, title.as_str());
                push_str(&mut u, "~1|1~");
                let data = opt_text_clone(&c.data);
                push_str(&mut u, data.as_str());
                push_str(&mut u, "~text~");
                push_entity_fields(&mut u, &self.config.icons, &c.entities, 0);
                push_str(&mut u, "~text~");
                push_entity_fields(&mut u, &self.config.icons, &c.entities, 1);
                r.push(u);
            },
            None => {},
        }
        assert(frames_of(r@) =~= card_frames(*self.config, *device, card));
        r
    }
}

} // verus!
