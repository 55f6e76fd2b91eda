//! Hub events as the gateway reads them: for each entity of an event, its
//! serialized value and its readings in the two shapes the hub sends.

use vstd::prelude::*;
use crate::text::{contains, decimal, digit, digit_char, push_char, push_decimal, push_str, str_contains, str_eq};

verus! {

/// A temperature in tenths of a degree.
#[derive(Clone, Copy, Debug, PartialEq, Eq, Structural)]
pub struct Tenths {
    pub value: i32,
}

/// The temperature with one decimal: `21.5`, `-0.5`.
pub open spec fn tenths_text(t: int) -> Seq<char> {
    let a = if t < 0 { -t } else { t };
    (if t < 0 { seq!['-'] } else { Seq::empty() }) + decimal((a / 10) as nat) + seq!['.', digit_char((a % 10) as nat)]
}

/// Appends the temperature with one decimal.
pub fn push_tenths(s: &mut String, t: Tenths)
    ensures
        final(s)@ == old(s)@ + tenths_text(t.value as int),
{
    let v = t.value as i64;
    let a: u64 = if v < 0 { (-v) as u64 } else { v as u64 };
    let ghost start = s@;
    if v < 0 {
        push_char(s, '-');
    }
    let ghost signed = s@;
    push_decimal(s, a / 10);
    push_char(s, '.');
    push_char(s, digit(a % 10));
    assert(s@ =~= start + tenths_text(t.value as int));
}

/// One day of a weather forecast.
#[derive(Debug)]
pub struct WeatherForecast {
    pub datetime: Option<String>,
    pub condition: Option<String>,
    pub temperature: Option<Tenths>,
    pub templow: Option<Tenths>,
}

/// The attributes of a weather entity.
#[derive(Debug)]
pub struct WeatherEventData {
    pub temperature: Option<Tenths>,
    pub forecast: Vec<WeatherForecast>,
}

/// A weather entity's state and attributes.
#[derive(Debug)]
pub struct WeatherEvent {
    pub state: Option<String>,
    pub data: Option<WeatherEventData>,
}

/// The attributes of an alarm panel entity.
#[derive(Clone, Copy, Debug, PartialEq, Eq, Structural)]
pub struct AlarmEventData {
    pub supported_features: Option<u32>,
    pub code_arm_required: Option<bool>,
}

/// An alarm panel entity's state and attributes.
#[derive(Debug)]
pub struct AlarmEvent {
    pub state: Option<String>,
    pub data: Option<AlarmEventData>,
}

/// The value of one entity in an event: its JSON text, and its reading as
/// a weather entity and as an alarm entity in the flat shape (`{"s":..}`)
/// and in the nested shape (`{"+":{"s":..}}`), each `None` where the value
/// does not have that form.
#[derive(Debug)]
pub struct EntityValue {
    pub text: String,
    pub flat_weather: Option<WeatherEvent>,
    pub nested_weather: Option<WeatherEvent>,
    pub flat_alarm: Option<AlarmEvent>,
    pub nested_alarm: Option<AlarmEvent>,
}

/// The entities that an event reports, by entity id.
#[derive(Debug)]
pub struct Event {
    pub entities: Vec<(String, EntityValue)>,
}

/// A hub message carrying an event for one subscription.
#[derive(Debug)]
pub struct RootEvent {
    pub id: i32,
    pub type_: String,
    pub event: Event,
}

/// An entity value that a restarted hub restored without a reading, or that
/// the hub marks unavailable.
pub open spec fn is_placeholder(text: Seq<char>) -> bool {
    contains(text, "\"a\":{\"restored\":true"@) || contains(text, "s\":\"unavailable"@)
}

/// Whether an entity value is a placeholder without a reading.
pub fn is_placeholder_exec(text: &str) -> (r: bool)
    ensures
        r == is_placeholder(text@),
{
    str_contains(text, "\"a\":{\"restored\":true") || str_contains(text, "s\":\"unavailable")
}

/// The event carries the entity's value in the flat shape: its id is
/// followed directly by a state field.
pub open spec fn is_flat_shape(raw: Seq<char>, entity: Seq<char>) -> bool {
    contains(raw, entity + "\":{\"s"@)
}

/// Whether the event text carries the entity's value in the flat shape.
pub fn is_flat_shape_exec(raw: &str, entity: &str) -> (r: bool)
    ensures
        r == is_flat_shape(raw@, entity@),
{
    let mut marker = entity.to_owned();
    push_str(&mut marker, "\":{\"s");
    str_contains(raw, marker.as_str())
}

/// The first entry, from position `i` on, for entity `id`.
pub open spec fn entity_index_from(es: Seq<(String, EntityValue)>, id: Seq<char>, i: int) -> Option<
    int,
>
    decreases es.len() - i,
{
    if i < 0 || i >= es.len() {
        None
    } else if es[i].0@ == id {
        Some(i)
    } else {
        entity_index_from(es, id, i + 1)
    }
}

impl Event {
    /// The value reported for entity `id`.
    pub open spec fn value_of(&self, id: Seq<char>) -> Option<EntityValue> {
        match entity_index_from(self.entities@, id, 0) {
            Some(i) => Some(self.entities@[i].1),
            None => None,
        }
    }

    /// The value reported for entity `id`.
    pub fn get(&self, id: &str) -> (r: Option<&EntityValue>)
        ensures
            r matches Some(v) ==> self.value_of(id@) == Some(*v),
            r is None ==> self.value_of(id@) is None,
    {
        let mut i: usize = 0;
        while i < self.entities.len()
            invariant
                i <= self.entities@.len(),
                entity_index_from(self.entities@, id@, 0) == entity_index_from(
                    self.entities@,
                    id@,
                    i as int,
                ),
            decreases self.entities.len() - i,
        {
            if str_eq(self.entities[i].0.as_str(), id) {
                return Some(&self.entities[i].1);
            }
            i += 1;
        }
        None
    }
}

} // verus!
