//! The hub side of the gateway: session messages, event routing, and the
//! reconnect decisions of the session supervisor.

use vstd::prelude::*;
use crate::config::{entity_ids, Config};
use crate::parsing::{json_field, json_field_text};
use crate::state::opt_text;
use crate::text::{contains, decimal, push_decimal, push_str, str_contains, str_eq};

verus! {

/// The quoted and escaped form in which Rust's `Debug` writes a string.
pub uninterp spec fn debug_quoted(s: Seq<char>) -> Seq<char>;

/// Relies on the `Debug` formatting of `str`: the string in double quotes,
/// with quotes, backslashes and control characters escaped.
#[verifier::external_body]
fn debug_str(s: &str) -> (r: String)
    ensures
        r@ == debug_quoted(s@),
{
    format!("{:?}", s)
}

/// The first `n` ids, quoted and separated by `, `.
pub open spec fn quoted_items(ids: Seq<Seq<char>>, n: int) -> Seq<char>
    decreases n,
{
    if n <= 0 {
        Seq::empty()
    } else if n == 1 {
        debug_quoted(ids[0])
    } else {
        quoted_items(ids, n - 1) + ", "@ + debug_quoted(ids[n - 1])
    }
}

/// `{ "type": "auth", "access_token": "<token>" }`
pub open spec fn auth_text(token: Seq<char>) -> Seq<char> {
    "{ \"type\": \"auth\", \"access_token\": \""@ + token + "\" }"@
}

/// `{ "id": <id>, "type": "subscribe_entities", "entity_ids": [...] }`
pub open spec fn subscribe_text(id: nat, ids: Seq<Seq<char>>) -> Seq<char> {
    "{ \"id\": "@ + decimal(id) + ", \"type\": \"subscribe_entities\", \"entity_ids\": ["@
        + quoted_items(ids, ids.len() as int) + "] }"@
}

/// The authentication message of a hub session.
pub fn auth_message(config: &Config) -> (r: String)
    ensures
        r@ == auth_text(config.connectivity.hass.token@),
{
    let mut r = String::new();
    push_str(&mut r, "{ \"type\": \"auth\", \"access_token\": \"");
    push_str(&mut r, config.connectivity.hass.token.as_str());
    push_str(&mut r, "\" }");
    r
}

/// The message that subscribes to state changes of `ids` under `id`.
pub fn subscribe_message(id: u64, ids: &Vec<String>) -> (r: String)
    ensures
        r@ == subscribe_text(id as nat, ids@.map_values(|s: String| s@)),
{
    let ghost views = ids@.map_values(|s: String| s@);
    let mut r = String::new();
    push_str(&mut r, "{ \"id\": ");
    push_decimal(&mut r, id);
    push_str(&mut r, ", \"type\": \"subscribe_entities\", \"entity_ids\": [");
    let ghost head = r@;
    let mut i: usize = 0;
    while i < ids.len()
        invariant
            i <= ids@.len(),
            views == ids@.map_values(|s: String| s@),
            r@ == head + quoted_items(views, i as int),
        decreases ids.len() - i,
    {
        if i > 0 {
            push_str(&mut r, ", ");
        }
        let q = debug_str(ids[i].as_str());
        push_str(&mut r, q.as_str());
        i += 1;
        assert(r@ =~= head + quoted_items(views, i as int));
    }
    push_str(&mut r, "] }");
    r
}

/// A subscription of one device: its id, the device, and its message.
pub struct Subscription {
    pub id: u64,
    pub device_id: String,
    pub message: String,
}

/// The subscriptions of a session: one per device in key order, with ids
/// counting from 1, each for all entities on the device's cards.
pub open spec fn subscribes(config: Config, subs: Seq<Subscription>) -> bool {
    &&& subs.len() == config.devices@.len()
    &&& forall|k: int| 0 <= k < subs.len() ==> {
        &&& (#[trigger] subs[k]).id == k + 1
        &&& subs[k].device_id@ == config.devices@[k].0@
        &&& subs[k].message@ == subscribe_text((k + 1) as nat, entity_ids(config.devices@[k].1.card_views()))
    }
}

/// The subscriptions of a session.
pub fn subscriptions(config: &Config) -> (r: Vec<Subscription>)
    ensures
        subscribes(*config, r@),
{
    let entities = config.get_entities();
    let mut r: Vec<Subscription> = Vec::new();
    let mut k: usize = 0;
    while k < entities.len()
        invariant
            k <= entities@.len(),
            entities@.len() == config.devices@.len(),
            forall|j: int| 0 <= j < entities@.len() ==> {
                &&& (#[trigger] entities@[j]).0@ == config.devices@[j].0@
                &&& entities@[j].1@.map_values(|s: String| s@) == entity_ids(config.devices@[j].1.card_views())
            },
            r@.len() == k,
            forall|j: int| 0 <= j < k ==> {
                &&& (#[trigger] r@[j]).id == j + 1
                &&& r@[j].device_id@ == config.devices@[j].0@
                &&& r@[j].message@ == subscribe_text((j + 1) as nat, entity_ids(config.devices@[j].1.card_views()))
            },
        decreases entities.len() - k,
    {
        let id = k as u64 + 1;
        let message = subscribe_message(id, &entities[k].1);
        r.push(Subscription { id, device_id: entities[k].0.clone(), message });
        k += 1;
    }
    r
}

/// The first subscription, from position `i` on, whose id reads `id_text`.
pub open spec fn subscription_from(subs: Seq<Subscription>, id_text: Seq<char>, i: int) -> Option<int>
    decreases subs.len() - i,
{
    if i < 0 || i >= subs.len() {
        None
    } else if decimal(subs[i].id as nat) == id_text {
        Some(i)
    } else {
        subscription_from(subs, id_text, i + 1)
    }
}

/// The device of the subscription whose id is written `id_text`.
pub open spec fn device_for_id_text(subs: Seq<Subscription>, id_text: Seq<char>) -> Option<Seq<char>> {
    match subscription_from(subs, id_text, 0) {
        Some(i) => Some(subs[i].device_id@),
        None => None,
    }
}

/// The device that a hub message concerns: an event whose `id` field is
/// the id of one of the subscriptions.
pub open spec fn routed_device(subs: Seq<Subscription>, message: Seq<char>) -> Option<Seq<char>> {
    if contains(message, "\"type\":\"event\""@) {
        match json_field_text(message, "id"@) {
            Some(t) => device_for_id_text(subs, t),
            None => None,
        }
    } else {
        None
    }
}

/// The device of the subscription whose id is written `id_text`.
pub fn device_for_id(subs: &Vec<Subscription>, id_text: &str) -> (r: Option<String>)
    ensures
        opt_text(r) == device_for_id_text(subs@, id_text@),
{
    let mut i: usize = 0;
    while i < subs.len()
        invariant
            i <= subs@.len(),
            subscription_from(subs@, id_text@, 0) == subscription_from(subs@, id_text@, i as int),
        decreases subs.len() - i,
    {
        let mut id = String::new();
        push_decimal(&mut id, subs[i].id);
        if str_eq(id.as_str(), id_text) {
            return Some(subs[i].device_id.clone());
        }
        i += 1;
    }
    None
}

/// The device that a hub message concerns, if it is an event of one of the
/// subscriptions.
pub fn route_event(subs: &Vec<Subscription>, message: &str) -> (r: Option<String>)
    ensures
        opt_text(r) == routed_device(subs@, message@),
{
    if !str_contains(message, "\"type\":\"event\"") {
        return None;
    }
    match json_field(message, "id") {
        Some(t) => device_for_id(subs, t.as_str()),
        None => None,
    }
}

/// The seconds the supervisor waits before connecting again.
pub const RECONNECT_DELAY_SECONDS: u64 = 5;

/// Where a hub session stands.
#[derive(Clone, Copy, Debug, PartialEq, Eq, Structural)]
pub enum SessionState {
    Connecting,
    Live,
    Stopped,
}

/// What happened to the session.
#[derive(Clone, Copy, Debug, PartialEq, Eq, Structural)]
pub enum SessionEvent {
    Connected,
    ConnectFailed,
    Closed,
    Failed,
}

/// What the supervisor does next.
#[derive(Clone, Copy, Debug, PartialEq, Eq, Structural)]
pub enum SessionAction {
    /// Authenticate, subscribe, and read events.
    Subscribe,
    /// Keep reading events.
    Continue,
    /// Wait the reconnect delay, then connect again.
    RetryAfterDelay,
    /// End the session for good.
    Stop,
}

/// The supervisor's decision: a shutdown request ends the session from any
/// state; a new connection is subscribed; a failed connection attempt, a
/// closed or failed session is retried after the delay.
pub open spec fn session_next(state: SessionState, event: SessionEvent, shutdown: bool) -> (SessionState, SessionAction) {
    if shutdown || state == SessionState::Stopped {
        (SessionState::Stopped, SessionAction::Stop)
    } else {
        match event {
            SessionEvent::Connected => if state == SessionState::Connecting {
                (SessionState::Live, SessionAction::Subscribe)
            } else {
                (SessionState::Live, SessionAction::Continue)
            },
            SessionEvent::ConnectFailed | SessionEvent::Closed | SessionEvent::Failed => (
                SessionState::Connecting,
                SessionAction::RetryAfterDelay,
            ),
        }
    }
}

/// The supervisor's next state and action.
pub fn session_step(state: SessionState, event: SessionEvent, shutdown: bool) -> (r: (SessionState, SessionAction))
    ensures
        r == session_next(state, event, shutdown),
{
    if shutdown || state == SessionState::Stopped {
        (SessionState::Stopped, SessionAction::Stop)
    } else {
        match event {
            SessionEvent::Connected => if state == SessionState::Connecting {
                (SessionState::Live, SessionAction::Subscribe)
            } else {
                (SessionState::Live, SessionAction::Continue)
            },
            _ => (SessionState::Connecting, SessionAction::RetryAfterDelay),
        }
    }
}

} // verus!
