//! Device configuration and the queries the gateway makes on it.

use vstd::prelude::*;
use crate::cards::{card_of_name, Card};
use crate::text::{chars_of, eq_ignoring_ascii_case_exec, str_eq};

verus! {

/// One panel device.
#[derive(Debug)]
pub struct Device {
    pub module: String,
    pub id: String,
    pub mqtt: Mqtt,
    pub model: Model,
    pub config: DeviceConfig,
    pub cards: Vec<Cards>,
}

/// Hardware model of a panel.
#[derive(Clone, Copy, Debug, PartialEq, Eq, Structural)]
pub enum Model {
    EU,
    US,
}

/// The topics of one device: `rx_topic` carries frames to the panel,
/// `tx_topic` carries the panel's events.
#[derive(Clone, Debug)]
pub struct Mqtt {
    pub rx_topic: String,
    pub tx_topic: String,
}

/// Display settings of one device.
#[derive(Clone, Debug)]
pub struct DeviceConfig {
    pub timeout_to_screensaver: u16,
    pub screensaver_brightness: Vec<BrightnessScheduler>,
    pub locale: String,
    pub timezone: String,
}

/// A brightness level from a time of day on.
#[derive(Clone, Debug)]
pub struct BrightnessScheduler {
    pub time: String,
    pub value: u16,
}

/// A configured card and the entities it shows.
#[derive(Debug)]
pub struct Cards {
    pub type_: String,
    pub title: Option<String>,
    pub data: Option<String>,
    pub entities: Vec<Entity>,
}

/// A hub entity shown on a card.
#[derive(Debug)]
pub struct Entity {
    pub entity: String,
    pub name: Option<String>,
    pub icon: Option<String>,
}

/// Broker connection settings.
#[derive(Clone, Debug)]
pub struct MqttClient {
    pub type_: String,
    pub id: String,
    pub host: String,
    pub port: u16,
    pub user: String,
    pub password: String,
}

/// Hub connection settings.
#[derive(Clone, Debug)]
pub struct Hass {
    pub type_: String,
    pub host: String,
    pub port: u16,
    pub token: String,
}

/// Both connections.
#[derive(Clone, Debug)]
pub struct Connectivity {
    pub mqtt: MqttClient,
    pub hass: Hass,
}

/// The whole configuration: devices keyed by id, and the glyph of each
/// icon name. A well-formed configuration (`wf`) holds each key once, in
/// key order, as a map read from the configuration files does.
#[derive(Debug)]
pub struct Config {
    pub connectivity: Connectivity,
    pub devices: Vec<(String, Device)>,
    pub icons: Vec<(String, char)>,
}

/// A card as a value: its type, texts and entities.
pub struct CardsView {
    pub type_: Seq<char>,
    pub title: Option<Seq<char>>,
    pub data: Option<Seq<char>>,
    pub entities: Seq<Entity>,
}

pub open spec fn opt_view(o: Option<String>) -> Option<Seq<char>> {
    match o {
        Some(s) => Some(s@),
        None => None,
    }
}

impl View for Cards {
    type V = CardsView;

    open spec fn view(&self) -> CardsView {
        CardsView {
            type_: self.type_@,
            title: opt_view(self.title),
            data: opt_view(self.data),
            entities: self.entities@,
        }
    }
}

/// The views of a sequence of cards.
pub open spec fn card_views(cs: Seq<Cards>) -> Seq<CardsView> {
    cs.map_values(|c: Cards| c@)
}

pub fn clone_opt_string(o: &Option<String>) -> (r: Option<String>)
    ensures
        r == *o,
{
    match o {
        Some(s) => Some(s.clone()),
        None => None,
    }
}

impl Clone for Entity {
    fn clone(&self) -> (r: Entity)
        ensures
            r == *self,
    {
        Entity {
            entity: self.entity.clone(),
            name: clone_opt_string(&self.name),
            icon: clone_opt_string(&self.icon),
        }
    }
}

impl Clone for Cards {
    fn clone(&self) -> (r: Cards)
        ensures
            r@ == self@,
    {
        let mut entities: Vec<Entity> = Vec::new();
        let mut i: usize = 0;
        while i < self.entities.len()
            invariant
                i <= self.entities@.len(),
                entities@ == self.entities@.subrange(0, i as int),
            decreases self.entities.len() - i,
        {
            entities.push(self.entities[i].clone());
            i += 1;
            assert(entities@ =~= self.entities@.subrange(0, i as int));
        }
        assert(entities@ =~= self.entities@);
        Cards {
            type_: self.type_.clone(),
            title: clone_opt_string(&self.title),
            data: clone_opt_string(&self.data),
            entities,
        }
    }
}

/// The entity carries the given display name.
pub open spec fn name_is(e: Entity, name: Seq<char>) -> bool {
    e.name matches Some(n) && n@ == name
}

/// The first entity of `es`, from position `i` on, with the given name.
pub open spec fn entity_named_from(es: Seq<Entity>, name: Seq<char>, i: int) -> Option<Entity>
    decreases es.len() - i,
{
    if i < 0 || i >= es.len() {
        None
    } else if name_is(es[i], name) {
        Some(es[i])
    } else {
        entity_named_from(es, name, i + 1)
    }
}

/// The first entity with the given name in the first card, from position
/// `i` on, that has one.
pub open spec fn entity_in_cards_from(cs: Seq<CardsView>, name: Seq<char>, i: int) -> Option<Entity>
    decreases cs.len() - i,
{
    if i < 0 || i >= cs.len() {
        None
    } else {
        match entity_named_from(cs[i].entities, name, 0) {
            Some(e) => Some(e),
            None => entity_in_cards_from(cs, name, i + 1),
        }
    }
}

/// The entity with the given name among all the cards, in card order.
pub open spec fn entity_in_cards(cs: Seq<CardsView>, name: Seq<char>) -> Option<Entity> {
    entity_in_cards_from(cs, name, 0)
}

/// The first card, from position `i` on, of the given type.
pub open spec fn card_index_from(cs: Seq<CardsView>, type_: Seq<char>, i: int) -> Option<int>
    decreases cs.len() - i,
{
    if i < 0 || i >= cs.len() {
        None
    } else if cs[i].type_ == type_ {
        Some(i)
    } else {
        card_index_from(cs, type_, i + 1)
    }
}

/// The first card of the given type.
pub open spec fn card_of_type(cs: Seq<CardsView>, type_: Seq<char>) -> Option<CardsView> {
    match card_index_from(cs, type_, 0) {
        Some(i) => Some(cs[i]),
        None => None,
    }
}

/// The card type names the screensaver, in any ASCII case.
pub open spec fn is_screensaver_type(type_: Seq<char>) -> bool {
    card_of_name(type_) == Some(Card::Screensaver)
}

/// The cards that a panel pages through: all but the screensaver, in order.
/// A card type is read ignoring ASCII case, as card names are.
pub open spec fn shown_cards(cs: Seq<CardsView>) -> Seq<CardsView>
    decreases cs.len(),
{
    if cs.len() == 0 {
        Seq::empty()
    } else {
        let rest = shown_cards(cs.drop_last());
        if is_screensaver_type(cs.last().type_) {
            rest
        } else {
            rest.push(cs.last())
        }
    }
}

/// Position of the card next to position `i` among `n` cards, wrapping.
pub open spec fn adjacent_index(i: int, n: int, forward: bool) -> int {
    if forward {
        (i + 1) % n
    } else if i == 0 {
        n - 1
    } else {
        i - 1
    }
}

/// The card next to the first card of type `type_` among `cs`, wrapping
/// at both ends; `None` if no card has that type.
pub open spec fn adjacent_card(cs: Seq<CardsView>, type_: Seq<char>, forward: bool) -> Option<
    CardsView,
> {
    match card_index_from(cs, type_, 0) {
        Some(i) => Some(cs[adjacent_index(i, cs.len() as int, forward)]),
        None => None,
    }
}

/// The ids of all entities on the cards, card by card.
pub open spec fn entity_ids(cs: Seq<CardsView>) -> Seq<Seq<char>>
    decreases cs.len(),
{
    if cs.len() == 0 {
        Seq::empty()
    } else {
        entity_ids(cs.drop_last()) + cs.last().entities.map_values(|e: Entity| e.entity@)
    }
}

/// The first device, from position `i` on, with key `id`.
pub open spec fn device_index_from(ds: Seq<(String, Device)>, id: Seq<char>, i: int) -> Option<int>
    decreases ds.len() - i,
{
    if i < 0 || i >= ds.len() {
        None
    } else if ds[i].0@ == id {
        Some(i)
    } else {
        device_index_from(ds, id, i + 1)
    }
}

/// A key present at or after position `j` is found from `j` on.
pub(crate) proof fn lemma_device_index_found(ds: Seq<(String, Device)>, id: Seq<char>, i: int, j: int)
    requires
        0 <= j <= i < ds.len(),
        ds[i].0@ == id,
    ensures
        device_index_from(ds, id, j) is Some,
    decreases i - j,
{
    if j < i && ds[j].0@ != id {
        lemma_device_index_found(ds, id, i, j + 1);
    }
}

/// The first icon, from position `i` on, with the given name.
pub open spec fn icon_from(icons: Seq<(String, char)>, name: Seq<char>, i: int) -> Option<char>
    decreases icons.len() - i,
{
    if i < 0 || i >= icons.len() {
        None
    } else if icons[i].0@ == name {
        Some(icons[i].1)
    } else {
        icon_from(icons, name, i + 1)
    }
}

/// The glyph for an icon name in an icon table, or the null character when
/// the table has none.
pub open spec fn glyph_in(icons: Seq<(String, char)>, name: Seq<char>) -> char {
    match icon_from(icons, name, 0) {
        Some(c) => c,
        None => '\0',
    }
}

/// Key `a` sorts before key `b`: character by character, a proper prefix
/// first, as `String` orders.
pub open spec fn key_before(a: Seq<char>, b: Seq<char>) -> bool
    decreases a.len(),
{
    if a.len() == 0 {
        b.len() > 0
    } else if b.len() == 0 {
        false
    } else if a[0] != b[0] {
        (a[0] as u32) < (b[0] as u32)
    } else {
        key_before(a.drop_first(), b.drop_first())
    }
}

/// Each key sorts before the next one.
pub open spec fn keys_in_order<V>(s: Seq<(String, V)>) -> bool {
    forall|i: int| 0 <= i < s.len() - 1 ==> key_before(#[trigger] s[i].0@, s[i + 1].0@)
}

/// No key occurs twice.
pub open spec fn keys_unique<V>(s: Seq<(String, V)>) -> bool {
    forall|i: int, j: int| 0 <= i < j < s.len() ==> #[trigger] s[i].0@ != #[trigger] s[j].0@
}

/// Whether key `a` sorts before key `b`.
pub fn key_before_exec(a: &str, b: &str) -> (r: bool)
    ensures
        r == key_before(a@, b@),
{
    let av = chars_of(a);
    let bv = chars_of(b);
    let mut i: usize = 0;
    assert(a@.skip(0) =~= a@);
    assert(b@.skip(0) =~= b@);
    while i < av.len() && i < bv.len()
        invariant
            av@ == a@,
            bv@ == b@,
            i <= av@.len(),
            i <= bv@.len(),
            key_before(a@, b@) == key_before(a@.skip(i as int), b@.skip(i as int)),
        decreases av.len() - i,
    {
        assert(a@.skip(i as int).drop_first() =~= a@.skip(i + 1));
        assert(b@.skip(i as int).drop_first() =~= b@.skip(i + 1));
        if av[i] != bv[i] {
            return (av[i] as u32) < (bv[i] as u32);
        }
        i += 1;
    }
    i == av.len() && i < bv.len()
}

/// Whether the keys of `v` are unique and in key order.
pub fn keys_well_formed<V>(v: &Vec<(String, V)>) -> (r: bool)
    ensures
        r == (keys_in_order(v@) && keys_unique(v@)),
{
    let n = v.len();
    let mut i: usize = 0;
    while n > 0 && i < n - 1
        invariant
            n == v@.len(),
            i <= n,
            forall|k: int| 0 <= k < i && k < n - 1 ==> key_before(#[trigger] v@[k].0@, v@[k + 1].0@),
        decreases n - i,
    {
        if !key_before_exec(v[i].0.as_str(), v[i + 1].0.as_str()) {
            return false;
        }
        i += 1;
    }
    let mut a: usize = 0;
    while a < n
        invariant
            n == v@.len(),
            keys_in_order(v@),
            forall|x: int, y: int| 0 <= x < a && x < y < n ==> #[trigger] v@[x].0@ != #[trigger] v@[y].0@,
        decreases n - a,
    {
        let mut b: usize = a + 1;
        while b < n
            invariant
                n == v@.len(),
                a < n,
                a < b <= n,
                forall|x: int, y: int| 0 <= x < a && x < y < n ==> #[trigger] v@[x].0@ != #[trigger] v@[y].0@,
                forall|y: int| a < y < b ==> v@[a as int].0@ != #[trigger] v@[y].0@,
            decreases n - b,
        {
            if str_eq(v[a].0.as_str(), v[b].0.as_str()) {
                return false;
            }
            b += 1;
        }
        a += 1;
    }
    true
}

/// With unique keys, the icon found for a name is the one under that key.
pub proof fn lemma_icon_by_key(icons: Seq<(String, char)>, i: int, j: int)
    requires
        keys_unique(icons),
        0 <= j <= i < icons.len(),
    ensures
        icon_from(icons, icons[i].0@, j) == Some(icons[i].1),
    decreases i - j,
{
    if j < i {
        assert(icons[j].0@ != icons[i].0@);
        lemma_icon_by_key(icons, i, j + 1);
    }
}

/// With unique keys, the device found for a key is the one under that key.
pub proof fn lemma_device_by_key(ds: Seq<(String, Device)>, i: int, j: int)
    requires
        keys_unique(ds),
        0 <= j <= i < ds.len(),
    ensures
        device_index_from(ds, ds[i].0@, j) == Some(i),
    decreases i - j,
{
    if j < i {
        assert(ds[j].0@ != ds[i].0@);
        lemma_device_by_key(ds, i, j + 1);
    }
}

/// The glyph for an icon name in an icon table, or the null character.
/// With unique names it is the glyph listed under that name.
pub fn glyph_of(icons: &Vec<(String, char)>, name: &str) -> (r: char)
    ensures
        r == glyph_in(icons@, name@),
        keys_unique(icons@) ==> forall|i: int| 0 <= i < icons@.len() && #[trigger] icons@[i].0@ == name@ ==> r == icons@[i].1,
{
    proof {
        if keys_unique(icons@) {
            assert forall|i: int| 0 <= i < icons@.len() && #[trigger] icons@[i].0@ == name@ implies glyph_in(icons@, name@) == icons@[i].1 by {
                lemma_icon_by_key(icons@, i, 0);
            }
        }
    }
    let mut i: usize = 0;
    while i < icons.len()
        invariant
            i <= icons@.len(),
            icon_from(icons@, name@, 0) == icon_from(icons@, name@, i as int),
        decreases icons.len() - i,
    {
        if str_eq(icons[i].0.as_str(), name) {
            return icons[i].1;
        }
        i += 1;
    }
    '\0'
}

impl Device {
    /// The device's cards as values.
    pub open spec fn card_views(&self) -> Seq<CardsView> {
        card_views(self.cards@)
    }

    /// The first entity with the given display name, searching the cards in order.
    pub fn get_entity_by_name(&self, name: &str) -> (r: Option<Entity>)
        ensures
            r == entity_in_cards(self.card_views(), name@),
    {
        let mut i: usize = 0;
        while i < self.cards.len()
            invariant
                i <= self.cards@.len(),
                entity_in_cards(self.card_views(), name@) == entity_in_cards_from(
                    self.card_views(),
                    name@,
                    i as int,
                ),
            decreases self.cards.len() - i,
        {
            let found = entity_named(&self.cards[i].entities, name);
            if found.is_some() {
                return found;
            }
            i += 1;
        }
        None
    }

    /// The cards a panel pages through: every card but the screensaver,
    /// whose type is recognised in any ASCII case.
    pub fn get_cards(&self) -> (r: Vec<Cards>)
        ensures
            card_views(r@) == shown_cards(self.card_views()),
    {
        let mut r: Vec<Cards> = Vec::new();
        let mut i: usize = 0;
        while i < self.cards.len()
            invariant
                i <= self.cards@.len(),
                card_views(r@) == shown_cards(self.card_views().subrange(0, i as int)),
            decreases self.cards.len() - i,
        {
            let ghost before = r@;
            assert(self.card_views().subrange(0, i + 1).drop_last() =~= self.card_views().subrange(
                0,
                i as int,
            ));
            if !eq_ignoring_ascii_case_exec(self.cards[i].type_.as_str(), "screensaver") {
                r.push(self.cards[i].clone());
                assert(card_views(r@) =~= card_views(before).push(self.cards@[i as int]@));
            }
            i += 1;
        }
        assert(self.card_views().subrange(0, i as int) =~= self.card_views());
        r
    }
}

/// The first entity of `es` with the given display name.
pub fn entity_named(es: &Vec<Entity>, name: &str) -> (r: Option<Entity>)
    ensures
        r == entity_named_from(es@, name@, 0),
{
    let mut i: usize = 0;
    while i < es.len()
        invariant
            i <= es@.len(),
            entity_named_from(es@, name@, 0) == entity_named_from(es@, name@, i as int),
        decreases es.len() - i,
    {
        let hit = match &es[i].name {
            Some(n) => str_eq(n.as_str(), name),
            None => false,
        };
        if hit {
            return Some(es[i].clone());
        }
        i += 1;
    }
    None
}

/// Position of the first card of type `type_`.
pub fn card_index(cs: &Vec<Cards>, type_: &str) -> (r: Option<usize>)
    ensures
        r matches Some(i) ==> i < cs@.len() && card_index_from(card_views(cs@), type_@, 0) == Some(
            i as int,
        ),
        r is None ==> card_index_from(card_views(cs@), type_@, 0) is None,
{
    let mut i: usize = 0;
    while i < cs.len()
        invariant
            i <= cs@.len(),
            card_index_from(card_views(cs@), type_@, 0) == card_index_from(
                card_views(cs@),
                type_@,
                i as int,
            ),
        decreases cs.len() - i,
    {
        if str_eq(cs[i].type_.as_str(), type_) {
            return Some(i);
        }
        i += 1;
    }
    None
}

impl Config {
    /// Device ids and icon names each occur once, in key order.
    pub open spec fn wf(&self) -> bool {
        &&& keys_in_order(self.devices@)
        &&& keys_unique(self.devices@)
        &&& keys_in_order(self.icons@)
        &&& keys_unique(self.icons@)
    }

    /// Whether device ids and icon names each occur once, in key order.
    pub fn is_well_formed(&self) -> (r: bool)
        ensures
            r == self.wf(),
    {
        keys_well_formed(&self.devices) && keys_well_formed(&self.icons)
    }

    /// The device with key `id`.
    pub open spec fn device(&self, id: Seq<char>) -> Option<Device> {
        match device_index_from(self.devices@, id, 0) {
            Some(i) => Some(self.devices@[i].1),
            None => None,
        }
    }

    /// Position of the device with key `id`.
    pub fn device_index(&self, id: &str) -> (r: Option<usize>)
        ensures
            r matches Some(i) ==> i < self.devices@.len() && device_index_from(self.devices@, id@, 0)
                == Some(i as int),
            r is None ==> device_index_from(self.devices@, id@, 0) is None,
    {
        let mut i: usize = 0;
        while i < self.devices.len()
            invariant
                i <= self.devices@.len(),
                device_index_from(self.devices@, id@, 0) == device_index_from(
                    self.devices@,
                    id@,
                    i as int,
                ),
            decreases self.devices.len() - i,
        {
            if str_eq(self.devices[i].0.as_str(), id) {
                return Some(i);
            }
            i += 1;
        }
        None
    }

    /// The device with key `id`.
    pub fn get_device(&self, id: &str) -> (r: Option<&Device>)
        ensures
            r matches Some(d) ==> self.device(id@) == Some(*d),
            r is None ==> self.device(id@) is None,
            self.wf() ==> forall|i: int| 0 <= i < self.devices@.len() && #[trigger] self.devices@[i].0@ == id@
                ==> r == Some(&self.devices@[i].1),
    {
        proof {
            if self.wf() {
                assert forall|i: int| 0 <= i < self.devices@.len() && #[trigger] self.devices@[i].0@ == id@ implies self.device(id@) == Some(self.devices@[i].1) by {
                    lemma_device_by_key(self.devices@, i, 0);
                }
            }
        }
        match self.device_index(id) {
            Some(i) => Some(&self.devices[i].1),
            None => None,
        }
    }

    /// For each device, in key order, the ids of all entities on its cards.
    pub fn get_entities(&self) -> (r: Vec<(String, Vec<String>)>)
        ensures
            r@.len() == self.devices@.len(),
            forall|k: int|
                0 <= k < r@.len() ==> {
                    &&& (#[trigger] r@[k]).0@ == self.devices@[k].0@
                    &&& r@[k].1@.map_values(|s: String| s@) == entity_ids(
                        self.devices@[k].1.card_views(),
                    )
                },
    {
        let mut r: Vec<(String, Vec<String>)> = Vec::new();
        let mut k: usize = 0;
        while k < self.devices.len()
            invariant
                k <= self.devices@.len(),
                r@.len() == k,
                forall|j: int|
                    0 <= j < k ==> {
                        &&& (#[trigger] r@[j]).0@ == self.devices@[j].0@
                        &&& r@[j].1@.map_values(|s: String| s@) == entity_ids(
                            self.devices@[j].1.card_views(),
                        )
                    },
            decreases self.devices.len() - k,
        {
            let ids = device_entity_ids(&self.devices[k].1);
            r.push((self.devices[k].0.clone(), ids));
            k += 1;
        }
        r
    }

    /// The first entity with the given display name on the device with key `device_id`.
    pub fn get_entity_by_name(&self, device_id: &str, name: &str) -> (r: Option<Entity>)
        ensures
            r == match self.device(device_id@) {
                Some(d) => entity_in_cards(d.card_views(), name@),
                None => None,
            },
    {
        match self.get_device(device_id) {
            Some(d) => d.get_entity_by_name(name),
            None => None,
        }
    }

    /// The first card of type `card` on the device with key `device_id`.
    pub fn get_card_by_name(&self, device_id: &str, card: &str) -> (r: Option<Cards>)
        ensures
            r is Some == (self.device(device_id@) matches Some(d) && card_of_type(
                d.card_views(),
                card@,
            ) is Some),
            r matches Some(c) ==> Some(c@) == card_of_type(
                self.device(device_id@).unwrap().card_views(),
                card@,
            ),
    {
        match self.get_device(device_id) {
            Some(d) => match card_index(&d.cards, card) {
                Some(i) => Some(d.cards[i].clone()),
                None => None,
            },
            None => None,
        }
    }

    /// The entity with the given display name on the first card of type
    /// `card` of the device with key `device_id`.
    pub fn get_entity_by_name_and_by_card(&self, device_id: &str, card: &str, name: &str) -> (r:
        Option<Entity>)
        ensures
            r == match self.device(device_id@) {
                Some(d) => match card_of_type(d.card_views(), card@) {
                    Some(c) => entity_named_from(c.entities, name@, 0),
                    None => None,
                },
                None => None,
            },
    {
        match self.get_card_by_name(device_id, card) {
            Some(c) => entity_named(&c.entities, name),
            None => None,
        }
    }

    /// The card next to the card of type `card` among the device's shown
    /// cards: the following one when `forward`, else the preceding one,
    /// wrapping at both ends.
    pub fn get_adjacent_card(&self, device_id: &str, card: &str, forward: bool) -> (r: Option<
        Cards,
    >)
        ensures
            r is Some == (self.device(device_id@) matches Some(d) && adjacent_card(
                shown_cards(d.card_views()),
                card@,
                forward,
            ) is Some),
            r matches Some(c) ==> Some(c@) == adjacent_card(
                shown_cards(self.device(device_id@).unwrap().card_views()),
                card@,
                forward,
            ),
    {
        match self.get_device(device_id) {
            Some(d) => {
                let shown = d.get_cards();
                match card_index(&shown, card) {
                    Some(i) => {
                        proof {
                            assert(card_views(shown@).len() == shown@.len());
                        }
                        let n = shown.len();
                        let j = if forward {
                            (i + 1) % n
                        } else if i == 0 {
                            n - 1
                        } else {
                            i - 1
                        };
                        Some(shown[j].clone())
                    },
                    None => None,
                }
            },
            None => None,
        }
    }
}

/// The ids of all entities on the device's cards, card by card.
pub fn device_entity_ids(d: &Device) -> (r: Vec<String>)
    ensures
        r@.map_values(|s: String| s@) == entity_ids(d.card_views()),
{
    let mut r: Vec<String> = Vec::new();
    let mut i: usize = 0;
    while i < d.cards.len()
        invariant
            i <= d.cards@.len(),
            r@.map_values(|s: String| s@) == entity_ids(d.card_views().subrange(0, i as int)),
        decreases d.cards.len() - i,
    {
        let es = &d.cards[i].entities;
        let ghost base = r@.map_values(|s: String| s@);
        let mut j: usize = 0;
        while j < es.len()
            invariant
                j <= es@.len(),
                es@ == d.cards@[i as int].entities@,
                r@.map_values(|s: String| s@) == base + es@.subrange(0, j as int).map_values(
                    |e: Entity| e.entity@,
                ),
            decreases es.len() - j,
        {
            let ghost prev = r@;
            r.push(es[j].entity.clone());
            assert(es@.subrange(0, j + 1) =~= es@.subrange(0, j as int).push(es@[j as int]));
            assert(r@ =~= prev.push(es@[j as int].entity));
            assert(r@.map_values(|s: String| s@) =~= prev.map_values(|s: String| s@).push(
                es@[j as int].entity@,
            ));
            j += 1;
            assert(r@.map_values(|s: String| s@) =~= base + es@.subrange(0, j as int).map_values(
                |e: Entity| e.entity@,
            ));
        }
        assert(d.card_views().subrange(0, i + 1).drop_last() =~= d.card_views().subrange(
            0,
            i as int,
        ));
        assert(es@.subrange(0, j as int) =~= es@);
        i += 1;
    }
    assert(d.card_views().subrange(0, i as int) =~= d.card_views());
    r
}

} // verus!
