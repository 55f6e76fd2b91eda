//! Per-device state with field-level merging, and the shared weather cache.

use vstd::prelude::*;
use crate::cards::Card;
use crate::config::clone_opt_string;
use crate::text::str_eq;

verus! {

/// The page a device shows and the one it showed before.
#[derive(Clone, Copy, Debug, PartialEq, Eq, Structural)]
pub struct Page {
    pub current: Card,
    pub previous: Card,
}

/// The page of a device that has shown nothing yet.
pub open spec fn default_page() -> Page {
    Page { current: Card::Screensaver, previous: Card::Screensaver }
}

impl Default for Page {
    fn default() -> (r: Page)
        ensures
            r == default_page(),
    {
        Page { current: Card::Screensaver, previous: Card::Screensaver }
    }
}

/// What is known of a device's alarm panel. The supported modes are
/// `label~code` pairs joined by `~`; `icon` is a glyph and a colour.
#[derive(Debug)]
pub struct AlarmState {
    pub state: String,
    pub supported_mode: String,
    pub code_arm_required: Option<bool>,
    pub entity: String,
    pub icon: (String, u32),
}

pub struct AlarmStateView {
    pub state: Seq<char>,
    pub supported_mode: Seq<char>,
    pub code_arm_required: Option<bool>,
    pub entity: Seq<char>,
    pub icon: (Seq<char>, u32),
}

impl View for AlarmState {
    type V = AlarmStateView;

    open spec fn view(&self) -> AlarmStateView {
        AlarmStateView {
            state: self.state@,
            supported_mode: self.supported_mode@,
            code_arm_required: self.code_arm_required,
            entity: self.entity@,
            icon: (self.icon.0@, self.icon.1),
        }
    }
}

impl Clone for AlarmState {
    fn clone(&self) -> (r: AlarmState)
        ensures
            r@ == self@,
    {
        AlarmState {
            state: self.state.clone(),
            supported_mode: self.supported_mode.clone(),
            code_arm_required: self.code_arm_required,
            entity: self.entity.clone(),
            icon: (self.icon.0.clone(), self.icon.1),
        }
    }
}

/// What the gateway keeps of one device. `None` in a field means unknown,
/// or, in an update, "leave as it is".
#[derive(Debug)]
pub struct DeviceState {
    pub temp: Option<String>,
    pub humidity: Option<String>,
    pub iaq: Option<String>,
    pub page: Option<Page>,
    pub alarm: Option<AlarmState>,
}

pub struct DeviceStateView {
    pub temp: Option<Seq<char>>,
    pub humidity: Option<Seq<char>>,
    pub iaq: Option<Seq<char>>,
    pub page: Option<Page>,
    pub alarm: Option<AlarmStateView>,
}

pub open spec fn opt_text(o: Option<String>) -> Option<Seq<char>> {
    match o {
        Some(s) => Some(s@),
        None => None,
    }
}

impl View for DeviceState {
    type V = DeviceStateView;

    open spec fn view(&self) -> DeviceStateView {
        DeviceStateView {
            temp: opt_text(self.temp),
            humidity: opt_text(self.humidity),
            iaq: opt_text(self.iaq),
            page: self.page,
            alarm: match self.alarm {
                Some(a) => Some(a@),
                None => None,
            },
        }
    }
}

impl Clone for DeviceState {
    fn clone(&self) -> (r: DeviceState)
        ensures
            r@ == self@,
    {
        DeviceState {
            temp: clone_opt_string(&self.temp),
            humidity: clone_opt_string(&self.humidity),
            iaq: clone_opt_string(&self.iaq),
            page: self.page,
            alarm: match &self.alarm {
                Some(a) => Some(a.clone()),
                None => None,
            },
        }
    }
}

/// The state of a device that nothing was written for: only the default page.
pub open spec fn fresh_state() -> DeviceStateView {
    DeviceStateView { temp: None, humidity: None, iaq: None, page: Some(default_page()), alarm: None }
}

/// An update that changes nothing.
pub open spec fn empty_update() -> DeviceStateView {
    DeviceStateView { temp: None, humidity: None, iaq: None, page: None, alarm: None }
}

/// Each field of the update that is non-empty replaces the stored one.
pub open spec fn merge_alarm(stored: AlarmStateView, update: AlarmStateView) -> AlarmStateView {
    AlarmStateView {
        state: if update.state.len() > 0 { update.state } else { stored.state },
        supported_mode: if update.supported_mode.len() > 0 {
            update.supported_mode
        } else {
            stored.supported_mode
        },
        code_arm_required: if update.code_arm_required is Some {
            update.code_arm_required
        } else {
            stored.code_arm_required
        },
        entity: if update.entity.len() > 0 { update.entity } else { stored.entity },
        icon: if update.icon.0.len() > 0 { update.icon } else { stored.icon },
    }
}

pub open spec fn merge_opt<T>(stored: Option<T>, update: Option<T>) -> Option<T> {
    if update is Some { update } else { stored }
}

/// Field-level merge: each field present in the update replaces the stored
/// one; an alarm update merges field by field into a stored alarm.
pub open spec fn merge_state(stored: DeviceStateView, update: DeviceStateView) -> DeviceStateView {
    DeviceStateView {
        temp: merge_opt(stored.temp, update.temp),
        humidity: merge_opt(stored.humidity, update.humidity),
        iaq: merge_opt(stored.iaq, update.iaq),
        page: merge_opt(stored.page, update.page),
        alarm: match (stored.alarm, update.alarm) {
            (Some(s), Some(u)) => Some(merge_alarm(s, u)),
            (None, Some(u)) => Some(u),
            (_, None) => stored.alarm,
        },
    }
}

/// `new` is `old` with `update` merged into the state of `id` and every
/// other device left as it was.
pub open spec fn merged_into(old: DeviceStore, new: DeviceStore, id: Seq<char>, update: DeviceStateView) -> bool {
    &&& new.state_of(id) == merge_state(old.state_of(id), update)
    &&& forall|other: Seq<char>| other != id ==> #[trigger] new.state_of(other) == old.state_of(other)
}

/// The text of an optional string, empty when absent.
pub open spec fn text_or_empty(o: Option<String>) -> Seq<char> {
    match o {
        Some(s) => s@,
        None => Seq::empty(),
    }
}

impl AlarmState {
    fn update_from(&mut self, other: AlarmState)
        ensures
            final(self)@ == merge_alarm(old(self)@, other@),
    {
        if !other.state.as_str().is_empty() {
            self.state = other.state;
        }
        if !other.supported_mode.as_str().is_empty() {
            self.supported_mode = other.supported_mode;
        }
        if other.code_arm_required.is_some() {
            self.code_arm_required = other.code_arm_required;
        }
        if !other.icon.0.as_str().is_empty() {
            self.icon = other.icon;
        }
        if !other.entity.as_str().is_empty() {
            self.entity = other.entity;
        }
    }
}

impl DeviceState {
    /// A state with every field unknown.
    pub fn empty() -> (r: DeviceState)
        ensures
            r@ == empty_update(),
    {
        DeviceState { temp: None, humidity: None, iaq: None, page: None, alarm: None }
    }

    /// Merges `other` into `self`, field by field.
    pub fn update_from(&mut self, other: DeviceState)
        ensures
            final(self)@ == merge_state(old(self)@, other@),
    {
        if other.temp.is_some() {
            self.temp = other.temp;
        }
        if other.humidity.is_some() {
            self.humidity = other.humidity;
        }
        if other.iaq.is_some() {
            self.iaq = other.iaq;
        }
        if other.page.is_some() {
            self.page = other.page;
        }
        match other.alarm {
            Some(alarm) => {
                match &mut self.alarm {
                    Some(stored) => stored.update_from(alarm),
                    None => self.alarm = Some(alarm),
                }
            },
            None => {},
        }
    }

    /// Merges `new_state` into the record of device `key`, creating the
    /// record with the default page first when there is none.
    pub fn read_process_overwrite(store: &mut DeviceStore, key: &str, new_state: DeviceState)
        ensures
            merged_into(*old(store), *final(store), key@, new_state@),
    {
        store.merge_update(key, new_state)
    }

    /// The stored state of device `id`, or the fresh state when there is none.
    pub fn get_state(store: &DeviceStore, id: &str) -> (r: DeviceState)
        ensures
            r@ == store.state_of(id@),
    {
        store.get(id)
    }
}

/// The first record, from position `i` on, of device `id`.
pub open spec fn record_from(rs: Seq<(String, DeviceState)>, id: Seq<char>, i: int) -> Option<int>
    decreases rs.len() - i,
{
    if i < 0 || i >= rs.len() {
        None
    } else if rs[i].0@ == id {
        Some(i)
    } else {
        record_from(rs, id, i + 1)
    }
}

proof fn lemma_record_from_bounds(rs: Seq<(String, DeviceState)>, id: Seq<char>, i: int)
    ensures
        record_from(rs, id, i) matches Some(k) ==> i <= k < rs.len() && rs[k].0@ == id && forall|
            j: int,
        | i <= j < k ==> rs[j].0@ != id,
    decreases rs.len() - i,
{
    if 0 <= i < rs.len() && rs[i].0@ != id {
        lemma_record_from_bounds(rs, id, i + 1);
    }
}

proof fn lemma_record_from_same_keys(
    a: Seq<(String, DeviceState)>,
    b: Seq<(String, DeviceState)>,
    id: Seq<char>,
    i: int,
)
    requires
        a.len() == b.len(),
        forall|k: int| 0 <= k < a.len() ==> a[k].0@ == b[k].0@,
    ensures
        record_from(a, id, i) == record_from(b, id, i),
    decreases a.len() - i,
{
    if 0 <= i < a.len() {
        lemma_record_from_same_keys(a, b, id, i + 1);
    }
}

proof fn lemma_record_from_push(
    a: Seq<(String, DeviceState)>,
    x: (String, DeviceState),
    id: Seq<char>,
    i: int,
)
    requires
        0 <= i <= a.len(),
    ensures
        record_from(a.push(x), id, i) == match record_from(a, id, i) {
            Some(k) => Some(k),
            None => if x.0@ == id {
                Some(a.len() as int)
            } else {
                None
            },
        },
    decreases a.len() - i,
{
    assert(a.push(x)[a.len() as int] == x);
    if i < a.len() {
        assert(a.push(x)[i] == a[i]);
        lemma_record_from_push(a, x, id, i + 1);
    } else {
        assert(record_from(a.push(x), id, i + 1) is None);
    }
}

/// The states of all devices that something was written for.
pub struct DeviceStore {
    records: Vec<(String, DeviceState)>,
}

impl DeviceStore {
    /// The state of device `id`: its record, or the fresh state.
    pub closed spec fn state_of(&self, id: Seq<char>) -> DeviceStateView {
        match record_from(self.records@, id, 0) {
            Some(i) => self.records@[i].1@,
            None => fresh_state(),
        }
    }

    /// A store that holds no record.
    pub fn new() -> (r: DeviceStore)
        ensures
            forall|id: Seq<char>| #[trigger] r.state_of(id) == fresh_state(),
    {
        DeviceStore { records: Vec::new() }
    }

    fn find(&self, id: &str) -> (r: Option<usize>)
        ensures
            r matches Some(i) ==> i < self.records@.len() && record_from(self.records@, id@, 0)
                == Some(i as int),
            r is None ==> record_from(self.records@, id@, 0) is None,
    {
        let mut i: usize = 0;
        while i < self.records.len()
            invariant
                i <= self.records@.len(),
                record_from(self.records@, id@, 0) == record_from(self.records@, id@, i as int),
            decreases self.records.len() - i,
        {
            if str_eq(self.records[i].0.as_str(), id) {
                return Some(i);
            }
            i += 1;
        }
        None
    }

    /// The state of device `id`, or the fresh state when nothing was written for it.
    pub fn get(&self, id: &str) -> (r: DeviceState)
        ensures
            r@ == self.state_of(id@),
    {
        match self.find(id) {
            Some(i) => self.records[i].1.clone(),
            None => DeviceState {
                temp: None,
                humidity: None,
                iaq: None,
                page: Some(Page::default()),
                alarm: None,
            },
        }
    }

    /// Reads the state of device `key` (the fresh state if there is none),
    /// merges `update` into it field by field, and writes it back.
    pub fn merge_update(&mut self, key: &str, update: DeviceState)
        ensures
            merged_into(*old(self), *final(self), key@, update@),
    {
        let mut current = self.get(key);
        current.update_from(update);
        match self.find(key) {
            Some(i) => {
                let ghost before = self.records@;
                proof {
                    lemma_record_from_bounds(before, key@, 0);
                }
                self.records.set(i, (key.to_owned(), current));
                proof {
                    lemma_record_from_same_keys(before, self.records@, key@, 0);
                    assert forall|other: Seq<char>| other != key@ implies #[trigger] self.state_of(
                        other,
                    ) == old(self).state_of(other) by {
                        lemma_record_from_same_keys(before, self.records@, other, 0);
                        lemma_record_from_bounds(before, other, 0);
                    }
                }
            },
            None => {
                let ghost before = self.records@;
                self.records.push((key.to_owned(), current));
                proof {
                    lemma_record_from_push(before, self.records@.last(), key@, 0);
                    assert forall|other: Seq<char>| other != key@ implies #[trigger] self.state_of(
                        other,
                    ) == old(self).state_of(other) by {
                        lemma_record_from_push(before, self.records@.last(), other, 0);
                        lemma_record_from_bounds(before, other, 0);
                    }
                }
            },
        }
    }
}

/// The latest rendered weather frames, shared by all devices.
pub struct WeatherCache {
    pub update: Option<String>,
    pub color: Option<String>,
}

impl View for WeatherCache {
    /// The update frame and the colour frame, when stored.
    type V = (Option<Seq<char>>, Option<Seq<char>>);

    open spec fn view(&self) -> (Option<Seq<char>>, Option<Seq<char>>) {
        (opt_text(self.update), opt_text(self.color))
    }
}

impl WeatherCache {
    /// A cache that holds no frame yet.
    pub fn new() -> (r: WeatherCache)
        ensures
            r@ == (None::<Seq<char>>, None::<Seq<char>>),
    {
        WeatherCache { update: None, color: None }
    }
}

} // verus!
