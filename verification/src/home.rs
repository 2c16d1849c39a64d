//! The home page: the configured screens with their rooms, and what each room's
//! card says of the devices in it.
use crate::activity_buttons::activity_from;
use crate::connections::{is_listed, listed, parts, split, Power};
use crate::model::{Activity, Config, Device, Icon, Integration, Room, Scene};
use crate::text::{decimal, number, same};
use vstd::prelude::*;

verus! {

/// An activity as the home page's strip shows it.
#[derive(Debug)]
pub struct LiveActivity {
    pub kind: i32,
    pub title: String,
    pub source: String,
    pub place: String,
}

/// A room's card.
#[derive(Debug)]
pub struct RoomRow {
    pub name: String,
    pub devices: String,
    pub detail: String,
    pub active_count: i32,
    /// 1 where something is on, 0 where all is off, -1 where that is unknown.
    pub power_state: i32,
    pub icon: Icon,
    pub status_known: bool,
    pub idle: bool,
    pub offline: bool,
    pub dimmed: bool,
    pub glyph: i32,
}

/// One page of the home page.
#[derive(Debug)]
pub struct Area {
    /// The configured screen, or nothing for the page of all rooms.
    pub id: Option<String>,
    pub name: String,
    /// The place of the configured screen whose shortcut keys the page has.
    pub shortcuts: Option<usize>,
    pub activities: Vec<LiveActivity>,
    pub activity_ids: Vec<String>,
    pub rooms: Vec<RoomRow>,
    pub room_ids: Vec<String>,
    /// The names of the scenes.
    pub scenes: Vec<String>,
    pub scene_ids: Vec<String>,
}

/// The glyph of an icon.
pub open spec fn glyph_of(icon: Icon) -> int {
    match icon {
        Icon::Sofa => 0,
        Icon::Bed => 1,
        Icon::CookingPot => 2,
        Icon::BookOpen => 3,
        Icon::DoorOpen => 4,
        Icon::Car => 5,
        Icon::Trees => 6,
        Icon::Lamp => 7,
        Icon::Tv => 8,
        Icon::Other(_) => 9,
    }
}

/// The glyph of an icon.
pub fn glyph(icon: Icon) -> (r: i32)
    ensures
        r == glyph_of(icon),
{
    match icon {
        Icon::Sofa => 0,
        Icon::Bed => 1,
        Icon::CookingPot => 2,
        Icon::BookOpen => 3,
        Icon::DoorOpen => 4,
        Icon::Car => 5,
        Icon::Trees => 6,
        Icon::Lamp => 7,
        Icon::Tv => 8,
        Icon::Other(_) => 9,
    }
}

/// A room's card before anything has been read.
pub open spec fn fresh_card(room: Room) -> RoomRow {
    RoomRow {
        name: room.name,
        devices: room.summary,
        detail: room.detail,
        active_count: 0,
        power_state: -1i32,
        icon: room.icon,
        status_known: false,
        idle: true,
        offline: false,
        dimmed: false,
        glyph: glyph_of(room.icon) as i32,
    }
}

fn card(room: &Room) -> (r: RoomRow)
    ensures
        r == fresh_card(*room),
{
    RoomRow {
        name: room.name.clone(),
        devices: room.summary.clone(),
        detail: room.detail.clone(),
        active_count: 0,
        power_state: -1,
        icon: room.icon,
        status_known: false,
        idle: true,
        offline: false,
        dimmed: false,
        glyph: glyph(room.icon),
    }
}

/// The rooms that are named and exist, at or after a place.
pub open spec fn rooms_from(config: Config, ids: Seq<String>, i: int) -> Seq<Room>
    decreases ids.len() - i,
{
    if i < 0 || i >= ids.len() {
        Seq::empty()
    } else {
        match config.spec_room(ids[i]@) {
            Some(room) => seq![room] + rooms_from(config, ids, i + 1),
            None => rooms_from(config, ids, i + 1),
        }
    }
}

/// The activities that are named and exist, at or after a place.
pub open spec fn activities_named(config: Config, ids: Seq<String>, i: int) -> Seq<Activity>
    decreases ids.len() - i,
{
    if i < 0 || i >= ids.len() {
        Seq::empty()
    } else {
        match activity_from(config.activities@, ids[i]@, 0) {
            Some(activity) => seq![activity] + activities_named(config, ids, i + 1),
            None => activities_named(config, ids, i + 1),
        }
    }
}

/// The first scene of that name at or after a place.
pub open spec fn scene_from(scenes: Seq<Scene>, id: Seq<char>, i: int) -> Option<Scene>
    decreases scenes.len() - i,
{
    if i < 0 || i >= scenes.len() {
        None
    } else if scenes[i].id@ == id {
        Some(scenes[i])
    } else {
        scene_from(scenes, id, i + 1)
    }
}

/// The names of the scenes that are named and exist, at or after a place.
pub open spec fn scene_names(config: Config, ids: Seq<String>, i: int) -> Seq<String>
    decreases ids.len() - i,
{
    if i < 0 || i >= ids.len() {
        Seq::empty()
    } else {
        match scene_from(config.scenes@, ids[i]@, 0) {
            Some(scene) => seq![scene.name] + scene_names(config, ids, i + 1),
            None => scene_names(config, ids, i + 1),
        }
    }
}

/// What an activity's strip says.
pub open spec fn live(config: Config, activity: Activity, shown: LiveActivity) -> bool {
    &&& shown.kind == activity.glyph
    &&& shown.title == activity.name
    &&& shown.source@ == (match activity.source {
        Some(id) => match config.spec_device(id@) {
            Some(d) => d.name@,
            None => "Choose a source"@,
        },
        None => "Choose a source"@,
    })
    &&& shown.place@ == (match config.spec_room(activity.room@) {
        Some(room) => room.name@,
        None => ""@,
    })
}

fn live_activity(config: &Config, activity: &Activity) -> (r: LiveActivity)
    ensures
        live(*config, *activity, r),
{
    let source = match &activity.source {
        Some(id) => match config.device(id.as_str()) {
            Some(d) => d.name.as_str(),
            None => "Choose a source",
        },
        None => "Choose a source",
    };
    let place = match config.room(activity.room.as_str()) {
        Some(room) => room.name.as_str(),
        None => "",
    };
    LiveActivity {
        kind: activity.glyph,
        title: activity.name.clone(),
        source: source.to_owned(),
        place: place.to_owned(),
    }
}

/// Whether a page lists what is named for it, as far as it exists.
pub open spec fn lists(
    area: Area,
    config: Config,
    rooms: Seq<String>,
    scenes: Seq<String>,
    activities: Seq<String>,
) -> bool {
    let found = rooms_from(config, rooms, 0);
    let named = activities_named(config, activities, 0);
    &&& area.room_ids@ == found.map_values(|room: Room| room.id)
    &&& area.rooms@ == found.map_values(|room: Room| fresh_card(room))
    &&& area.scenes@ == scene_names(config, scenes, 0)
    &&& area.scene_ids@ == scenes
    &&& area.activity_ids@ == activities
    &&& area.activities@.len() == named.len()
    &&& forall|k: int|
        0 <= k < named.len() ==> live(config, named[k], #[trigger] area.activities@[k])
}

fn copy_texts(texts: &Vec<String>) -> (r: Vec<String>)
    ensures
        r@ == texts@,
{
    let mut out: Vec<String> = Vec::new();
    let mut i: usize = 0;
    while i < texts.len()
        invariant
            i <= texts.len(),
            out@ == texts@.take(i as int),
        decreases texts.len() - i,
    {
        out.push(texts[i].clone());
        assert(out@ =~= texts@.take(i + 1));
        i = i + 1;
    }
    assert(texts@.take(texts@.len() as int) =~= texts@);
    out
}

fn find_activity<'a>(config: &'a Config, id: &str) -> (r: Option<&'a Activity>)
    ensures
        match r {
            Some(a) => activity_from(config.activities@, id@, 0) == Some(*a),
            None => activity_from(config.activities@, id@, 0) is None,
        },
{
    let mut i: usize = 0;
    while i < config.activities.len()
        invariant
            i <= config.activities.len(),
            activity_from(config.activities@, id@, 0) == activity_from(
                config.activities@,
                id@,
                i as int,
            ),
        decreases config.activities.len() - i,
    {
        if same(config.activities[i].id.as_str(), id) {
            return Some(&config.activities[i]);
        }
        i = i + 1;
    }
    None
}

fn find_scene<'a>(config: &'a Config, id: &str) -> (r: Option<&'a Scene>)
    ensures
        match r {
            Some(s) => scene_from(config.scenes@, id@, 0) == Some(*s),
            None => scene_from(config.scenes@, id@, 0) is None,
        },
{
    let mut i: usize = 0;
    while i < config.scenes.len()
        invariant
            i <= config.scenes.len(),
            scene_from(config.scenes@, id@, 0) == scene_from(config.scenes@, id@, i as int),
        decreases config.scenes.len() - i,
    {
        if same(config.scenes[i].id.as_str(), id) {
            return Some(&config.scenes[i]);
        }
        i = i + 1;
    }
    None
}

/// A page that lists what is named for it, as far as it exists.
fn make(
    config: &Config,
    id: Option<String>,
    name: String,
    shortcuts: Option<usize>,
    rooms: &Vec<String>,
    scenes: &Vec<String>,
    activities: &Vec<String>,
) -> (r: Area)
    ensures
        r.id == id,
        r.name == name,
        r.shortcuts == shortcuts,
        lists(r, *config, rooms@, scenes@, activities@),
{
    let ghost found = rooms_from(*config, rooms@, 0);
    let mut room_ids: Vec<String> = Vec::new();
    let mut cards: Vec<RoomRow> = Vec::new();
    let ghost mut seen: Seq<Room> = Seq::empty();
    let mut i: usize = 0;
    assert(seen + found =~= found);
    assert(room_ids@ =~= seen.map_values(|room: Room| room.id));
    assert(cards@ =~= seen.map_values(|room: Room| fresh_card(room)));
    while i < rooms.len()
        invariant
            i <= rooms.len(),
            found == rooms_from(*config, rooms@, 0),
            seen + rooms_from(*config, rooms@, i as int) == found,
            room_ids@ == seen.map_values(|room: Room| room.id),
            cards@ == seen.map_values(|room: Room| fresh_card(room)),
        decreases rooms.len() - i,
    {
        match config.room(rooms[i].as_str()) {
            Some(room) => {
                room_ids.push(room.id.clone());
                cards.push(card(room));
                proof {
                    let before = seen;
                    seen = seen.push(*room);
                    assert(before + rooms_from(*config, rooms@, i as int) =~= seen + rooms_from(
                        *config,
                        rooms@,
                        i + 1,
                    ));
                    assert(room_ids@ =~= seen.map_values(|room: Room| room.id));
                    assert(cards@ =~= seen.map_values(|room: Room| fresh_card(room)));
                }
            },
            None => {},
        }
        i = i + 1;
    }
    assert(seen + Seq::<Room>::empty() =~= seen);
    let ghost named = activities_named(*config, activities@, 0);
    let mut strip: Vec<LiveActivity> = Vec::new();
    let ghost mut met: Seq<Activity> = Seq::empty();
    let mut k: usize = 0;
    assert(met + named =~= named);
    while k < activities.len()
        invariant
            k <= activities.len(),
            named == activities_named(*config, activities@, 0),
            met + activities_named(*config, activities@, k as int) == named,
            strip@.len() == met.len(),
            forall|m: int|
                0 <= m < met.len() ==> live(*config, met[m], #[trigger] strip@[m]),
        decreases activities.len() - k,
    {
        match find_activity(config, activities[k].as_str()) {
            Some(activity) => {
                strip.push(live_activity(config, activity));
                proof {
                    let before = met;
                    met = met.push(*activity);
                    assert(before + activities_named(*config, activities@, k as int) =~= met
                        + activities_named(*config, activities@, k + 1));
                }
            },
            None => {},
        }
        k = k + 1;
    }
    assert(met + Seq::<Activity>::empty() =~= met);
    let mut names: Vec<String> = Vec::new();
    let mut n: usize = 0;
    assert(names@ + scene_names(*config, scenes@, 0) =~= scene_names(*config, scenes@, 0));
    while n < scenes.len()
        invariant
            n <= scenes.len(),
            names@ + scene_names(*config, scenes@, n as int) == scene_names(*config, scenes@, 0),
        decreases scenes.len() - n,
    {
        match find_scene(config, scenes[n].as_str()) {
            Some(scene) => {
                let ghost before = names@;
                names.push(scene.name.clone());
                assert(before + scene_names(*config, scenes@, n as int) =~= names@ + scene_names(
                    *config,
                    scenes@,
                    n + 1,
                ));
            },
            None => {},
        }
        n = n + 1;
    }
    assert(names@ + Seq::<String>::empty() =~= names@);
    Area {
        id,
        name,
        shortcuts,
        activities: strip,
        activity_ids: copy_texts(activities),
        rooms: cards,
        room_ids,
        scenes: names,
        scene_ids: copy_texts(scenes),
    }
}

/// Whether a page is a configured screen's.
pub open spec fn is_screen(area: Area, config: Config, i: int) -> bool {
    let screen = config.areas@[i];
    &&& area.id == Some(screen.id)
    &&& area.name == screen.name
    &&& area.shortcuts == Some(i as usize)
    &&& lists(area, config, screen.rooms@, screen.scenes@, screen.activities@)
}

/// Whether a page is the one of all rooms, which has every room, scene and
/// activity and no shortcut.
pub open spec fn is_all_rooms(area: Area, config: Config) -> bool {
    &&& area.id is None
    &&& area.name@ == "ALL ROOMS"@
    &&& area.shortcuts is None
    &&& lists(
        area,
        config,
        config.rooms@.map_values(|room: Room| room.id),
        config.scenes@.map_values(|scene: Scene| scene.id),
        config.activities@.map_values(|activity: Activity| activity.id),
    )
}

/// Whether pages are the home page's: the configured screens in their order,
/// then all rooms.
pub open spec fn is_projected(areas: Seq<Area>, config: Config) -> bool {
    &&& areas.len() == config.areas@.len() + 1
    &&& forall|i: int|
        0 <= i < config.areas@.len() ==> is_screen(#[trigger] areas[i], config, i)
    &&& is_all_rooms(areas[config.areas@.len() as int], config)
}

/// The home page's pages: the configured screens in their order, then all rooms.
pub fn project(config: &Config) -> (r: Vec<Area>)
    ensures
        is_projected(r@, *config),
{
    let mut areas: Vec<Area> = Vec::new();
    let mut i: usize = 0;
    while i < config.areas.len()
        invariant
            i <= config.areas.len(),
            areas@.len() == i,
            forall|k: int| 0 <= k < i ==> is_screen(#[trigger] areas@[k], *config, k),
        decreases config.areas.len() - i,
    {
        let screen = &config.areas[i];
        areas.push(
            make(
                config,
                Some(screen.id.clone()),
                screen.name.clone(),
                Some(i),
                &screen.rooms,
                &screen.scenes,
                &screen.activities,
            ),
        );
        i = i + 1;
    }
    let rooms = room_ids(config);
    let scenes = scene_ids(config);
    let activities = activity_ids(config);
    areas.push(
        make(config, None, "ALL ROOMS".to_owned(), None, &rooms, &scenes, &activities),
    );
    areas
}

fn room_ids(config: &Config) -> (r: Vec<String>)
    ensures
        r@ == config.rooms@.map_values(|room: Room| room.id),
{
    let mut out: Vec<String> = Vec::new();
    let mut i: usize = 0;
    while i < config.rooms.len()
        invariant
            i <= config.rooms.len(),
            out@.len() == i,
            forall|k: int| 0 <= k < i ==> #[trigger] out@[k] == config.rooms@[k].id,
        decreases config.rooms.len() - i,
    {
        out.push(config.rooms[i].id.clone());
        i = i + 1;
    }
    assert(out@ =~= config.rooms@.map_values(|room: Room| room.id));
    out
}

fn scene_ids(config: &Config) -> (r: Vec<String>)
    ensures
        r@ == config.scenes@.map_values(|scene: Scene| scene.id),
{
    let mut out: Vec<String> = Vec::new();
    let mut i: usize = 0;
    while i < config.scenes.len()
        invariant
            i <= config.scenes.len(),
            out@.len() == i,
            forall|k: int| 0 <= k < i ==> #[trigger] out@[k] == config.scenes@[k].id,
        decreases config.scenes.len() - i,
    {
        out.push(config.scenes[i].id.clone());
        i = i + 1;
    }
    assert(out@ =~= config.scenes@.map_values(|scene: Scene| scene.id));
    out
}

fn activity_ids(config: &Config) -> (r: Vec<String>)
    ensures
        r@ == config.activities@.map_values(|activity: Activity| activity.id),
{
    let mut out: Vec<String> = Vec::new();
    let mut i: usize = 0;
    while i < config.activities.len()
        invariant
            i <= config.activities.len(),
            out@.len() == i,
            forall|k: int| 0 <= k < i ==> #[trigger] out@[k] == config.activities@[k].id,
        decreases config.activities.len() - i,
    {
        out.push(config.activities[i].id.clone());
        i = i + 1;
    }
    assert(out@ =~= config.activities@.map_values(|activity: Activity| activity.id));
    out
}

proof fn own_room(rooms: Seq<Room>, k: int, i: int)
    requires
        0 <= i <= k < rooms.len(),
    ensures
        crate::model::room_from(rooms, rooms[k].id@, i) matches Some(found) && found.id@
            == rooms[k].id@,
    decreases rooms.len() - i,
{
    if rooms[i].id@ != rooms[k].id@ {
        own_room(rooms, k, i + 1);
    }
}

proof fn every_id_is_listed(config: Config, i: int)
    requires
        0 <= i <= config.rooms@.len(),
    ensures
        ({
            let ids = config.rooms@.map_values(|room: Room| room.id);
            let found = rooms_from(config, ids, i);
            &&& found.len() == config.rooms@.len() - i
            &&& forall|k: int|
                0 <= k < found.len() ==> (#[trigger] found[k]).id@ == config.rooms@[i + k].id@
        }),
    decreases config.rooms@.len() - i,
{
    let ids = config.rooms@.map_values(|room: Room| room.id);
    if i < config.rooms@.len() {
        own_room(config.rooms@, i, 0);
        every_id_is_listed(config, i + 1);
        let tail = rooms_from(config, ids, i + 1);
        let found = rooms_from(config, ids, i);
        let room = config.spec_room(ids[i]@)->0;
        assert(found =~= seq![room] + tail);
        assert forall|k: int| 0 <= k < found.len() implies (#[trigger] found[k]).id@
            == config.rooms@[i + k].id@ by {
            if k > 0 {
                assert(found[k] == tail[k - 1]);
            }
        }
    }
}

/// Every room can be reached whatever screens are configured: the page of all
/// rooms lists each of them, in order.
pub proof fn every_room_is_reachable(area: Area, config: Config)
    requires
        is_all_rooms(area, config),
    ensures
        area.room_ids@.len() == config.rooms@.len(),
        area.rooms@.len() == config.rooms@.len(),
        forall|k: int|
            0 <= k < config.rooms@.len() ==> (#[trigger] area.room_ids@[k])@ == config.rooms@[k].id@,
{
    every_id_is_listed(config, 0);
}

/// The home screen as the configuration in force has it, under its serial: none
/// where there is no configuration, where it is the one that is shown already,
/// and where its accent is no colour.
pub fn read(previous: &str, snapshot: Option<(u64, &Config)>, accent: Option<[u8; 3]>) -> (r: Option<
    (String, Vec<Area>, [u8; 3]),
>)
    ensures
        match (snapshot, accent) {
            (Some((serial, config)), Some(rgb)) => if decimal(serial as nat) == previous@ {
                r is None
            } else {
                &&& r matches Some((shown, areas, colour))
                &&& shown@ == decimal(serial as nat)
                &&& is_projected(areas@, *config)
                &&& colour == rgb
            },
            _ => r is None,
        },
{
    match (snapshot, accent) {
        (Some((serial, config)), Some(rgb)) => {
            let raw = number(serial);
            if same(raw.as_str(), previous) {
                None
            } else {
                Some((raw, project(config), rgb))
            }
        },
        _ => None,
    }
}

/// Both accents from a saved colour: the colour itself, and its recessed tint
/// over the page's background.
pub fn accent_tint(rgb: [u8; 3]) -> (r: [u8; 3])
    ensures
        r[0] == (rgb[0] * 15 + 21 * 85) / 100,
        r[1] == (rgb[1] * 15 + 19 * 85) / 100,
        r[2] == (rgb[2] * 15 + 15 * 85) / 100,
{
    [
        ((rgb[0] as u16 * 15 + 21 * 85) / 100) as u8,
        ((rgb[1] as u16 * 15 + 19 * 85) / 100) as u8,
        ((rgb[2] as u16 * 15 + 15 * 85) / 100) as u8,
    ]
}

/// One device's part in its room's card.
#[derive(Clone, Copy, PartialEq, Eq, Structural, Debug)]
pub struct Reading {
    pub on: Option<bool>,
    /// A light's percentage.
    pub bright: Option<u8>,
    /// The connection behind the device failed its last read.
    pub lost: bool,
}

impl Default for Reading {
    fn default() -> (r: Reading)
        ensures
            r == (Reading { on: None, bright: None, lost: false }),
    {
        Reading { on: None, bright: None, lost: false }
    }
}

/// What a room's card says of its devices.
#[derive(Clone, Copy, PartialEq, Eq, Structural, Debug)]
pub struct RoomState {
    pub power: i32,
    pub on: i32,
    pub known: bool,
    pub dimmed: bool,
    pub offline: bool,
}

impl RoomState {
    /// A room that nothing has answered for.
    pub open spec fn silent() -> RoomState {
        RoomState { power: -1i32, on: 0, known: false, dimmed: false, offline: false }
    }
}

impl Default for RoomState {
    fn default() -> (r: RoomState)
        ensures
            r == RoomState::silent(),
    {
        RoomState { power: -1i32, on: 0, known: false, dimmed: false, offline: false }
    }
}

/// Whether some device of a room is on.
pub open spec fn some_on(states: Seq<Option<bool>>) -> bool {
    exists|k: int| 0 <= k < states.len() && #[trigger] states[k] == Some(true)
}

/// A room's power: 1 where something is on, 0 where every device says that it
/// is off, and -1 where that is not known.
pub open spec fn power_of(states: Seq<Option<bool>>) -> int {
    if some_on(states) {
        1
    } else if states.len() > 0 && forall|k: int|
        0 <= k < states.len() ==> #[trigger] states[k] == Some(false) {
        0
    } else {
        -1
    }
}

/// A room's power.
pub fn room_power(states: &Vec<Option<bool>>) -> (r: i32)
    ensures
        r == power_of(states@),
{
    let mut unknown = false;
    let mut i: usize = 0;
    while i < states.len()
        invariant
            i <= states.len(),
            forall|k: int| 0 <= k < i ==> #[trigger] states@[k] != Some(true),
            unknown == exists|k: int| 0 <= k < i && #[trigger] states@[k] is None,
        decreases states.len() - i,
    {
        match states[i] {
            Some(true) => {
                assert(states@[i as int] == Some(true));
                return 1;
            },
            Some(false) => {},
            None => {
                unknown = true;
                assert(states@[i as int] is None);
            },
        }
        i = i + 1;
    }
    if states.len() > 0 && !unknown {
        assert forall|k: int| 0 <= k < states@.len() implies #[trigger] states@[k] == Some(
            false,
        ) by {
            assert(!(states@[k] is None));
        }
        0
    } else {
        if unknown {
            let ghost k = choose|k: int| 0 <= k < states@.len() && #[trigger] states@[k] is None;
            assert(states@[k] != Some(false));
        }
        -1
    }
}

/// How many of the readings before a place say that the device is on.
pub open spec fn lit_before(readings: Seq<Reading>, n: int) -> nat
    decreases n,
{
    if n <= 0 || n > readings.len() {
        0
    } else {
        lit_before(readings, n - 1) + if readings[n - 1].on == Some(true) {
            1nat
        } else {
            0nat
        }
    }
}

/// Whether a lit light reports its level.
pub open spec fn level_reported(readings: Seq<Reading>) -> bool {
    exists|k: int|
        0 <= k < readings.len() && (#[trigger] readings[k]).on == Some(true)
            && readings[k].bright is Some
}

/// Whether every lit light that reports its level is below half.
pub open spec fn all_below_half(readings: Seq<Reading>) -> bool {
    forall|k: int|
        0 <= k < readings.len() && (#[trigger] readings[k]).on == Some(true) ==> (
        readings[k].bright matches Some(b) ==> b < 50)
}

/// What the card says: how many devices are on among those that answered, dim
/// only where a level says so, and offline only where a connection failed and
/// nothing else can speak for the room.
pub open spec fn state_of(readings: Seq<Reading>) -> RoomState {
    let known = exists|k: int| 0 <= k < readings.len() && (#[trigger] readings[k]).on is Some;
    let offline = !known && exists|k: int|
        0 <= k < readings.len() && (#[trigger] readings[k]).lost;
    RoomState {
        power: power_of(readings.map_values(|r: Reading| r.on)) as i32,
        on: lit_before(readings, readings.len() as int) as i32,
        known: known || offline,
        dimmed: level_reported(readings) && all_below_half(readings),
        offline,
    }
}

/// What a room's card says of its devices.
pub fn room_state(readings: &Vec<Reading>) -> (r: RoomState)
    requires
        readings@.len() <= i32::MAX,
    ensures
        r == state_of(readings@),
{
    let mut states: Vec<Option<bool>> = Vec::new();
    let mut on: i32 = 0;
    let mut known = false;
    let mut lost = false;
    let mut level = false;
    let mut below = true;
    let mut i: usize = 0;
    while i < readings.len()
        invariant
            i <= readings@.len() <= i32::MAX,
            on == lit_before(readings@, i as int),
            on <= i,
            states@.len() == i,
            forall|k: int| 0 <= k < i ==> #[trigger] states@[k] == readings@[k].on,
            known == exists|k: int| 0 <= k < i && (#[trigger] readings@[k]).on is Some,
            lost == exists|k: int| 0 <= k < i && (#[trigger] readings@[k]).lost,
            level == exists|k: int|
                0 <= k < i && (#[trigger] readings@[k]).on == Some(true)
                    && readings@[k].bright is Some,
            below == forall|k: int|
                0 <= k < i && (#[trigger] readings@[k]).on == Some(true) ==> (
                readings@[k].bright matches Some(b) ==> b < 50),
        decreases readings.len() - i,
    {
        let reading: Reading = readings[i];
        states.push(reading.on);
        if reading.on.is_some() {
            known = true;
        }
        if reading.lost {
            lost = true;
        }
        if reading.on == Some(true) {
            on = on + 1;
            match reading.bright {
                Some(b) => {
                    level = true;
                    if b >= 50 {
                        below = false;
                    }
                },
                None => {},
            }
        }
        i = i + 1;
    }
    assert(states@ =~= readings@.map_values(|r: Reading| r.on));
    let offline = !known && lost;
    RoomState {
        power: room_power(&states),
        on,
        known: known || offline,
        dimmed: level && below,
        offline,
    }
}

proof fn lit_after_insert(readings: Seq<Reading>, at: int, reading: Reading, n: int)
    requires
        0 <= at <= readings.len(),
        reading.on is None,
        0 <= n <= readings.len(),
    ensures
        n <= at ==> lit_before(readings.insert(at, reading), n) == lit_before(readings, n),
        n >= at ==> lit_before(readings.insert(at, reading), n + 1) == lit_before(readings, n),
    decreases n,
{
    let more = readings.insert(at, reading);
    if n > 0 {
        lit_after_insert(readings, at, reading, n - 1);
        if n <= at {
            assert(more[n - 1] == readings[n - 1]);
        }
        if n > at {
            assert(more[n] == readings[n - 1]);
        }
    }
    if n == at {
        assert(more[at] == reading);
    }
}

/// A device that nothing answered for is left out, and never counted as off: the
/// rest of the card stays as it is without it, and only the power is no longer
/// known to be off.
pub proof fn a_device_without_an_answer_is_left_out(
    readings: Seq<Reading>,
    at: int,
    reading: Reading,
)
    requires
        0 <= at <= readings.len() < i32::MAX,
        reading.on is None,
        !reading.lost,
    ensures
        ({
            let before = state_of(readings);
            let after = state_of(readings.insert(at, reading));
            &&& after.on == before.on
            &&& after.known == before.known
            &&& after.dimmed == before.dimmed
            &&& after.offline == before.offline
            &&& after.power == if before.power == 1 {
                1int
            } else {
                -1int
            }
        }),
{
    let more = readings.insert(at, reading);
    lit_after_insert(readings, at, reading, readings.len() as int);
    // Where a reading went, and where it came from.
    let there = |k: int|
        if k < at {
            k
        } else {
            k + 1
        };
    assert forall|k: int| 0 <= k < readings.len() implies more[there(k)] == #[trigger] readings[k] by {
    }
    let back = |k: int|
        if k < at {
            k
        } else {
            k - 1
        };
    assert forall|k: int| 0 <= k < more.len() && k != at implies readings[back(k)] == (
    #[trigger] more[k]) && 0 <= back(k) < readings.len() by {
    }
    assert(more[at] == reading);
    let on = readings.map_values(|r: Reading| r.on);
    let on_more = more.map_values(|r: Reading| r.on);
    assert(on_more[at] is None);
    assert(some_on(on) == some_on(on_more)) by {
        if some_on(on) {
            let k = choose|k: int| 0 <= k < on.len() && #[trigger] on[k] == Some(true);
            assert(more[there(k)] == readings[k]);
            assert(on_more[there(k)] == Some(true));
        }
        if some_on(on_more) {
            let k = choose|k: int| 0 <= k < on_more.len() && #[trigger] on_more[k] == Some(true);
            assert(readings[back(k)] == more[k]);
            assert(on[back(k)] == Some(true));
        }
    }
    assert(level_reported(readings) == level_reported(more)) by {
        if level_reported(readings) {
            let k = choose|k: int|
                0 <= k < readings.len() && (#[trigger] readings[k]).on == Some(true)
                    && readings[k].bright is Some;
            assert(more[there(k)] == readings[k]);
        }
        if level_reported(more) {
            let k = choose|k: int|
                0 <= k < more.len() && (#[trigger] more[k]).on == Some(true)
                    && more[k].bright is Some;
            assert(readings[back(k)] == more[k]);
        }
    }
    assert(all_below_half(readings) == all_below_half(more)) by {
        if all_below_half(readings) {
            assert forall|k: int|
                0 <= k < more.len() && (#[trigger] more[k]).on == Some(true) implies (
            more[k].bright matches Some(b) ==> b < 50) by {
                assert(readings[back(k)] == more[k]);
            }
        }
        if all_below_half(more) {
            assert forall|k: int|
                0 <= k < readings.len() && (#[trigger] readings[k]).on == Some(true) implies (
            readings[k].bright matches Some(b) ==> b < 50) by {
                assert(more[there(k)] == readings[k]);
            }
        }
    }
    let known = |s: Seq<Reading>| exists|k: int| 0 <= k < s.len() && (#[trigger] s[k]).on is Some;
    assert(known(readings) == known(more)) by {
        if known(readings) {
            let k = choose|k: int| 0 <= k < readings.len() && (#[trigger] readings[k]).on is Some;
            assert(more[there(k)] == readings[k]);
        }
        if known(more) {
            let k = choose|k: int| 0 <= k < more.len() && (#[trigger] more[k]).on is Some;
            assert(readings[back(k)] == more[k]);
        }
    }
    let gone = |s: Seq<Reading>| exists|k: int| 0 <= k < s.len() && (#[trigger] s[k]).lost;
    assert(gone(readings) == gone(more)) by {
        if gone(readings) {
            let k = choose|k: int| 0 <= k < readings.len() && (#[trigger] readings[k]).lost;
            assert(more[there(k)] == readings[k]);
        }
        if gone(more) {
            let k = choose|k: int| 0 <= k < more.len() && (#[trigger] more[k]).lost;
            assert(readings[back(k)] == more[k]);
        }
    }
}

/// Whether the connection behind a reading failed its last read.
pub fn lost(failed: &Vec<String>, key: &str) -> (r: bool)
    ensures
        r == listed(failed@, parts(key@).0),
{
    is_listed(failed, split(key).0)
}

/// Where a device's state is read.
#[derive(Debug)]
pub enum Source {
    Hue(String),
    Ha(String),
    Unknown,
}

/// Where a device's state is read.
pub open spec fn source_of(device: Device) -> Source {
    match device.integration {
        Some(Integration::Hue { light_id }) => Source::Hue(light_id),
        Some(Integration::HomeAssistant { entity_id }) => Source::Ha(entity_id),
        _ => Source::Unknown,
    }
}

/// What a pass over all rooms needs of the configuration.
#[derive(Debug)]
pub struct Plan {
    pub has_hue: bool,
    /// The entities to ask for, each once.
    pub ha_ids: Vec<String>,
    pub rooms: Vec<(String, Vec<Source>)>,
}

/// Whether some room has a Hue light.
pub open spec fn has_hue_before(rooms: Seq<Room>, n: int) -> bool {
    exists|i: int, k: int|
        0 <= i < n && 0 <= k < rooms[i].devices@.len() && source_of(
            #[trigger] rooms[i].devices@[k],
        ) is Hue
}

/// Whether an entity is some device's, in the rooms before a place.
pub open spec fn entity_before(rooms: Seq<Room>, n: int, id: Seq<char>) -> bool {
    exists|i: int, k: int|
        0 <= i < n && 0 <= k < rooms[i].devices@.len() && (source_of(
            #[trigger] rooms[i].devices@[k],
        ) matches Source::Ha(entity) && entity@ == id)
}

/// The entities to ask for once the first `n` devices of a room are added to
/// those of the rooms before it: each where it occurs first.
pub open spec fn ids_in_devices(devices: Seq<Device>, n: int, before: Seq<String>) -> Seq<String>
    decreases n,
{
    if n <= 0 || n > devices.len() {
        before
    } else {
        let ids = ids_in_devices(devices, n - 1, before);
        match source_of(devices[n - 1]) {
            Source::Ha(entity) => if listed(ids, entity@) {
                ids
            } else {
                ids.push(entity)
            },
            _ => ids,
        }
    }
}

/// The entities to ask for in the first `n` rooms, each where it occurs first.
pub open spec fn ids_in_rooms(rooms: Seq<Room>, n: int) -> Seq<String>
    decreases n,
{
    if n <= 0 || n > rooms.len() {
        Seq::empty()
    } else {
        let devices = rooms[n - 1].devices@;
        ids_in_devices(devices, devices.len() as int, ids_in_rooms(rooms, n - 1))
    }
}

/// Whether each text occurs once.
pub open spec fn distinct(texts: Seq<String>) -> bool {
    forall|a: int, b: int|
        0 <= a < b < texts.len() ==> (#[trigger] texts[a])@ != (#[trigger] texts[b])@
}

fn device_source(device: &Device) -> (r: Source)
    ensures
        r == source_of(*device),
{
    match &device.integration {
        Some(Integration::Hue { light_id }) => Source::Hue(light_id.clone()),
        Some(Integration::HomeAssistant { entity_id }) => Source::Ha(entity_id.clone()),
        _ => Source::Unknown,
    }
}

fn room_sources(room: &Room) -> (r: Vec<Source>)
    ensures
        r@ == room.devices@.map_values(|d: Device| source_of(d)),
{
    let mut out: Vec<Source> = Vec::new();
    let mut i: usize = 0;
    while i < room.devices.len()
        invariant
            i <= room.devices.len(),
            out@.len() == i,
            forall|k: int| 0 <= k < i ==> #[trigger] out@[k] == source_of(room.devices@[k]),
        decreases room.devices.len() - i,
    {
        out.push(device_source(&room.devices[i]));
        i = i + 1;
    }
    assert(out@ =~= room.devices@.map_values(|d: Device| source_of(d)));
    out
}

proof fn pushed_listed(texts: Seq<String>, text: String, other: Seq<char>)
    ensures
        listed(texts.push(text), other) == (listed(texts, other) || text@ == other),
{
    let all = texts.push(text);
    if listed(texts, other) {
        let k = choose|k: int| 0 <= k < texts.len() && (#[trigger] texts[k])@ == other;
        assert(all[k]@ == other);
    }
    if text@ == other {
        assert(all[texts.len() as int]@ == other);
    }
    if listed(all, other) {
        let k = choose|k: int| 0 <= k < all.len() && (#[trigger] all[k])@ == other;
        if k < texts.len() {
            assert(texts[k]@ == other);
        }
    }
}

impl Plan {
    /// Resolve every device of the configuration once.
    pub fn build(config: &Config) -> (r: Plan)
        ensures
            r.has_hue == has_hue_before(config.rooms@, config.rooms@.len() as int),
            r.ha_ids@ == ids_in_rooms(config.rooms@, config.rooms@.len() as int),
            distinct(r.ha_ids@),
            forall|id: Seq<char>| #[trigger]
                listed(r.ha_ids@, id) == entity_before(config.rooms@, config.rooms@.len() as int, id),
            r.rooms@.len() == config.rooms@.len(),
            forall|i: int|
                0 <= i < config.rooms@.len() ==> {
                    &&& (#[trigger] r.rooms@[i]).0 == config.rooms@[i].id
                    &&& r.rooms@[i].1@ == config.rooms@[i].devices@.map_values(
                        |d: Device| source_of(d),
                    )
                },
    {
        let mut has_hue = false;
        let mut ha_ids: Vec<String> = Vec::new();
        let mut rooms: Vec<(String, Vec<Source>)> = Vec::new();
        let ghost all = config.rooms@;
        let mut i: usize = 0;
        while i < config.rooms.len()
            invariant
                i <= config.rooms.len(),
                all == config.rooms@,
                has_hue == has_hue_before(all, i as int),
                ha_ids@ == ids_in_rooms(all, i as int),
                distinct(ha_ids@),
                forall|id: Seq<char>| #[trigger]
                    listed(ha_ids@, id) == entity_before(all, i as int, id),
                rooms@.len() == i,
                forall|k: int|
                    0 <= k < i ==> {
                        &&& (#[trigger] rooms@[k]).0 == all[k].id
                        &&& rooms@[k].1@ == all[k].devices@.map_values(|d: Device| source_of(d))
                    },
            decreases config.rooms.len() - i,
        {
            let room = &config.rooms[i];
            let ghost started = ha_ids@;
            let ghost was = has_hue;
            let mut k: usize = 0;
            while k < room.devices.len()
                invariant
                    i < config.rooms.len(),
                    all == config.rooms@,
                    *room == all[i as int],
                    k <= room.devices.len(),
                    started == ids_in_rooms(all, i as int),
                    ha_ids@ == ids_in_devices(room.devices@, k as int, started),
                    was == has_hue_before(all, i as int),
                    forall|id: Seq<char>| #[trigger]
                        listed(started, id) == entity_before(all, i as int, id),
                    has_hue == (was || exists|m: int|
                        0 <= m < k && source_of(#[trigger] room.devices@[m]) is Hue),
                    distinct(ha_ids@),
                    forall|id: Seq<char>| #[trigger]
                        listed(ha_ids@, id) == (listed(started, id) || exists|m: int|
                            0 <= m < k && (source_of(#[trigger] room.devices@[m]) matches Source::Ha(
                                entity,
                            ) && entity@ == id)),
                decreases room.devices.len() - k,
            {
                let ghost before = ha_ids@;
                match &room.devices[k].integration {
                    Some(Integration::Hue { .. }) => {
                        has_hue = true;
                        assert(source_of(room.devices@[k as int]) is Hue);
                    },
                    Some(Integration::HomeAssistant { entity_id }) => {
                        if !is_listed(&ha_ids, entity_id.as_str()) {
                            ha_ids.push(entity_id.clone());
                            proof {
                                assert forall|a: int, b: int|
                                    0 <= a < b < ha_ids@.len() implies (#[trigger] ha_ids@[a])@ != (
                                #[trigger] ha_ids@[b])@ by {
                                    if b == before.len() {
                                        assert(before[a]@ != entity_id@);
                                    }
                                }
                            }
                        }
                        proof {
                            assert forall|id: Seq<char>| #[trigger]
                                listed(ha_ids@, id) == (listed(before, id) || entity_id@ == id) by {
                                if ha_ids@ != before {
                                    pushed_listed(before, *entity_id, id);
                                }
                            }
                            assert(source_of(room.devices@[k as int]) == Source::Ha(*entity_id));
                        }
                    },
                    _ => {},
                }
                proof {
                    assert forall|id: Seq<char>| #[trigger]
                        listed(ha_ids@, id) == (listed(started, id) || exists|m: int|
                            0 <= m < k + 1 && (source_of(
                                #[trigger] room.devices@[m],
                            ) matches Source::Ha(entity) && entity@ == id)) by {
                        let there = |m: int|
                            source_of(room.devices@[m]) matches Source::Ha(entity) && entity@ == id;
                        if exists|m: int|
                            0 <= m < k && (source_of(#[trigger] room.devices@[m]) matches Source::Ha(
                                entity,
                            ) && entity@ == id) {
                            let m = choose|m: int|
                                0 <= m < k && (source_of(
                                    #[trigger] room.devices@[m],
                                ) matches Source::Ha(entity) && entity@ == id);
                            assert(0 <= m < k + 1 && there(m));
                        }
                        assert(listed(before, id) == (listed(started, id) || exists|m: int|
                            0 <= m < k && (source_of(#[trigger] room.devices@[m]) matches Source::Ha(
                                entity,
                            ) && entity@ == id)));
                        if there(k as int) {
                            assert(source_of(room.devices@[k as int]) is Ha);
                        }
                    }
                }
                k = k + 1;
            }
            rooms.push((room.id.clone(), room_sources(room)));
            proof {
                next_room(all, i as int);
                assert forall|id: Seq<char>| #[trigger]
                    listed(ha_ids@, id) == entity_before(all, i + 1, id) by {
                    next_room_entity(all, i as int, id);
                    assert(listed(started, id) == entity_before(all, i as int, id));
                }
            }
            i = i + 1;
        }
        Plan { has_hue, ha_ids, rooms }
    }
}

proof fn next_room(rooms: Seq<Room>, n: int)
    requires
        0 <= n < rooms.len(),
    ensures
        has_hue_before(rooms, n + 1) == (has_hue_before(rooms, n) || exists|m: int|
            0 <= m < rooms[n].devices@.len() && source_of(#[trigger] rooms[n].devices@[m]) is Hue),
{
    if has_hue_before(rooms, n + 1) && !has_hue_before(rooms, n) {
        let (i, k) = choose|i: int, k: int|
            0 <= i < n + 1 && 0 <= k < rooms[i].devices@.len() && source_of(
                #[trigger] rooms[i].devices@[k],
            ) is Hue;
        assert(i == n);
    }
}

proof fn next_room_entity(rooms: Seq<Room>, n: int, id: Seq<char>)
    requires
        0 <= n < rooms.len(),
    ensures
        entity_before(rooms, n + 1, id) == (entity_before(rooms, n, id) || exists|m: int|
            0 <= m < rooms[n].devices@.len() && (source_of(
                #[trigger] rooms[n].devices@[m],
            ) matches Source::Ha(entity) && entity@ == id)),
{
    if entity_before(rooms, n + 1, id) && !entity_before(rooms, n, id) {
        let (i, k) = choose|i: int, k: int|
            0 <= i < n + 1 && 0 <= k < rooms[i].devices@.len() && (source_of(
                #[trigger] rooms[i].devices@[k],
            ) matches Source::Ha(entity) && entity@ == id);
        assert(i == n);
    }
}

/// The last state that is reported under a name, among the first `n`.
pub open spec fn power_before(states: Seq<Power>, id: Seq<char>, n: int) -> Option<Power>
    decreases n,
{
    if n <= 0 || n > states.len() {
        None
    } else if states[n - 1].entity_id@ == id {
        Some(states[n - 1])
    } else {
        power_before(states, id, n - 1)
    }
}

/// What a device adds to its room's card.
pub open spec fn reading_for(states: Seq<Power>, failed: Seq<String>, id: Seq<char>) -> Reading {
    let lost = listed(failed, parts(id).0);
    match power_before(states, id, states.len() as int) {
        Some(p) => Reading { on: p.on, bright: p.brightness_percent, lost },
        None => Reading { on: None, bright: None, lost },
    }
}

/// What a device adds to its room's card.
pub fn reading(states: &Vec<Power>, failed: &Vec<String>, id: &str) -> (r: Reading)
    ensures
        r == reading_for(states@, failed@, id@),
{
    let lost = lost(failed, id);
    let mut n: usize = states.len();
    while n > 0
        invariant
            n <= states@.len(),
            power_before(states@, id@, states@.len() as int) == power_before(
                states@,
                id@,
                n as int,
            ),
            lost == listed(failed@, parts(id@).0),
        decreases n,
    {
        if same(states[n - 1].entity_id.as_str(), id) {
            return Reading {
                on: states[n - 1].on,
                bright: states[n - 1].brightness_percent,
                lost,
            };
        }
        n = n - 1;
    }
    Reading { on: None, bright: None, lost }
}

/// What was read of every connection.
#[derive(Debug)]
pub struct Observed {
    pub hue: Vec<Power>,
    pub hue_failed: Vec<String>,
    pub home_assistant: Vec<Power>,
    pub home_assistant_failed: Vec<String>,
}

/// What a device adds to its room's card. Nothing is said of one that cannot be
/// read.
pub open spec fn source_reading(observed: Observed, source: Source) -> Reading {
    match source {
        Source::Hue(id) => reading_for(observed.hue@, observed.hue_failed@, id@),
        Source::Ha(id) => reading_for(
            observed.home_assistant@,
            observed.home_assistant_failed@,
            id@,
        ),
        Source::Unknown => Reading { on: None, bright: None, lost: false },
    }
}

/// What a room's card counts of its devices.
pub open spec fn counted(sources: Seq<Source>, observed: Observed) -> RoomState {
    state_of(sources.map_values(|s: Source| source_reading(observed, s)))
}

impl Plan {
    /// Whether Home Assistant is asked again.
    pub open spec fn is_due(self, elapsed_ms: int) -> bool {
        self.ha_ids@.len() > 0 && elapsed_ms >= 5000
    }

    /// Whether Home Assistant is asked in a pass: where there is anything to ask
    /// for, and not more than once in five seconds.
    pub fn asks_home_assistant(&self, elapsed_ms: u64) -> (r: bool)
        ensures
            r == (self.ha_ids@.len() > 0 && elapsed_ms >= 5000),
            r == self.is_due(elapsed_ms as int),
    {
        self.ha_ids.len() > 0 && elapsed_ms >= 5000
    }

    /// What every room's card says, given what was read.
    pub fn states(&self, observed: &Observed) -> (r: Vec<(String, RoomState)>)
        requires
            forall|i: int|
                0 <= i < self.rooms@.len() ==> (#[trigger] self.rooms@[i]).1@.len() <= i32::MAX,
        ensures
            r@.len() == self.rooms@.len(),
            forall|i: int|
                0 <= i < self.rooms@.len() ==> {
                    &&& (#[trigger] r@[i]).0 == self.rooms@[i].0
                    &&& r@[i].1 == state_of(
                        self.rooms@[i].1@.map_values(|s: Source| source_reading(*observed, s)),
                    )
                    &&& r@[i].1 == counted(self.rooms@[i].1@, *observed)
                },
    {
        let mut out: Vec<(String, RoomState)> = Vec::new();
        let mut i: usize = 0;
        while i < self.rooms.len()
            invariant
                i <= self.rooms.len(),
                out@.len() == i,
                forall|k: int|
                    0 <= k < self.rooms@.len() ==> (#[trigger] self.rooms@[k]).1@.len() <= i32::MAX,
                forall|k: int|
                    0 <= k < i ==> {
                        &&& (#[trigger] out@[k]).0 == self.rooms@[k].0
                        &&& out@[k].1 == state_of(
                            self.rooms@[k].1@.map_values(|s: Source| source_reading(*observed, s)),
                        )
                    },
            decreases self.rooms.len() - i,
        {
            let sources = &self.rooms[i].1;
            assert(self.rooms@[i as int].1@.len() <= i32::MAX);
            let mut readings: Vec<Reading> = Vec::new();
            let mut k: usize = 0;
            while k < sources.len()
                invariant
                    k <= sources.len(),
                    readings@.len() == k,
                    forall|m: int|
                        0 <= m < k ==> #[trigger] readings@[m] == source_reading(
                            *observed,
                            sources@[m],
                        ),
                decreases sources.len() - k,
            {
                let one = match &sources[k] {
                    Source::Hue(id) => reading(&observed.hue, &observed.hue_failed, id.as_str()),
                    Source::Ha(id) => reading(
                        &observed.home_assistant,
                        &observed.home_assistant_failed,
                        id.as_str(),
                    ),
                    Source::Unknown => Reading { on: None, bright: None, lost: false },
                };
                readings.push(one);
                k = k + 1;
            }
            assert(readings@ =~= sources@.map_values(|s: Source| source_reading(*observed, s)));
            out.push((self.rooms[i].0.clone(), room_state(&readings)));
            i = i + 1;
        }
        out
    }
}

/// The last state that is known of a room, among the first `n`.
pub open spec fn latest_before(latest: Seq<(String, RoomState)>, id: Seq<char>, n: int) -> RoomState
    decreases n,
{
    if n <= 0 || n > latest.len() {
        RoomState::silent()
    } else if latest[n - 1].0@ == id {
        latest[n - 1].1
    } else {
        latest_before(latest, id, n - 1)
    }
}

/// What is known of a room.
pub open spec fn known_of(latest: Seq<(String, RoomState)>, id: Seq<char>) -> RoomState {
    latest_before(latest, id, latest.len() as int)
}

fn known_state(latest: &Vec<(String, RoomState)>, id: &str) -> (r: RoomState)
    ensures
        r == known_of(latest@, id@),
{
    let mut n: usize = latest.len();
    while n > 0
        invariant
            n <= latest@.len(),
            known_of(latest@, id@) == latest_before(latest@, id@, n as int),
        decreases n,
    {
        if same(latest[n - 1].0.as_str(), id) {
            return latest[n - 1].1;
        }
        n = n - 1;
    }
    RoomState::default()
}

/// A card with what is known of its room.
pub open spec fn card_with(row: RoomRow, s: RoomState) -> RoomRow {
    RoomRow {
        power_state: s.power,
        active_count: s.on,
        status_known: s.known,
        idle: s.on == 0,
        offline: s.offline,
        dimmed: s.dimmed,
        ..row
    }
}

fn write_card(row: &mut RoomRow, s: RoomState) -> (r: bool)
    ensures
        *final(row) == card_with(*old(row), s),
        r == (*final(row) != *old(row)),
{
    let changed = row.power_state != s.power || row.active_count != s.on || row.status_known
        != s.known || row.idle != (s.on == 0) || row.offline != s.offline || row.dimmed != s.dimmed;
    row.power_state = s.power;
    row.active_count = s.on;
    row.status_known = s.known;
    row.idle = s.on == 0;
    row.offline = s.offline;
    row.dimmed = s.dimmed;
    changed
}

/// Whether a page is another with what is known of its rooms, and nothing else
/// changed.
pub open spec fn area_with(before: Area, after: Area, latest: Seq<(String, RoomState)>) -> bool {
    &&& after == (Area { rooms: after.rooms, ..before })
    &&& after.rooms@.len() == before.rooms@.len()
    &&& forall|k: int|
        0 <= k < before.rooms@.len() ==> #[trigger] after.rooms@[k] == if k
            < before.room_ids@.len() {
            card_with(before.rooms@[k], known_of(latest, before.room_ids@[k]@))
        } else {
            before.rooms@[k]
        }
}

/// The places where cards changed, in order.
pub open spec fn changed_before(before: Seq<RoomRow>, after: Seq<RoomRow>, n: int) -> Seq<usize>
    decreases n,
{
    if n <= 0 {
        Seq::empty()
    } else if before[n - 1] != after[n - 1] {
        changed_before(before, after, n - 1).push((n - 1) as usize)
    } else {
        changed_before(before, after, n - 1)
    }
}

proof fn changed_same(before: Seq<RoomRow>, a: Seq<RoomRow>, b: Seq<RoomRow>, n: int)
    requires
        n <= before.len(),
        a.len() == b.len() == before.len(),
        forall|k: int| 0 <= k < n ==> #[trigger] a[k] == b[k],
    ensures
        changed_before(before, a, n) == changed_before(before, b, n),
    decreases n,
{
    if n > 0 {
        changed_same(before, a, b, n - 1);
    }
}

fn write_area(area: &mut Area, latest: &Vec<(String, RoomState)>) -> (r: Vec<usize>)
    ensures
        area_with(*old(area), *final(area), latest@),
        r@ == changed_before(
            old(area).rooms@,
            final(area).rooms@,
            if old(area).room_ids@.len() < old(area).rooms@.len() {
                old(area).room_ids@.len() as int
            } else {
                old(area).rooms@.len() as int
            },
        ),
{
    let mut changed: Vec<usize> = Vec::new();
    let mut i: usize = 0;
    while i < area.rooms.len() && i < area.room_ids.len()
        invariant
            i <= area.rooms@.len(),
            i <= area.room_ids@.len(),
            *area == (Area { rooms: area.rooms, ..*old(area) }),
            area.rooms@.len() == old(area).rooms@.len(),
            forall|k: int|
                0 <= k < i ==> #[trigger] area.rooms@[k] == card_with(
                    old(area).rooms@[k],
                    known_of(latest@, old(area).room_ids@[k]@),
                ),
            forall|k: int|
                i <= k < area.rooms@.len() ==> #[trigger] area.rooms@[k] == old(area).rooms@[k],
            changed@ == changed_before(old(area).rooms@, area.rooms@, i as int),
        decreases area.rooms.len() - i,
    {
        let s: RoomState = known_state(latest, area.room_ids[i].as_str());
        let ghost prior = area.rooms@;
        if write_card(&mut area.rooms[i], s) {
            changed.push(i);
        }
        proof {
            changed_same(old(area).rooms@, prior, area.rooms@, i as int);
        }
        i = i + 1;
    }
    changed
}

/// What the rooms' cards show.
#[derive(Debug)]
pub struct RoomMonitor {
    pub latest: Vec<(String, RoomState)>,
    /// The page that the cards were last written for.
    pub shown: usize,
}

impl RoomMonitor {
    /// Nothing has been read, and no page has been shown.
    pub fn new() -> (r: RoomMonitor)
        ensures
            r.latest@.len() == 0,
            r.shown == usize::MAX,
    {
        RoomMonitor { latest: Vec::new(), shown: usize::MAX }
    }

    /// Write what is known into every card, and say which cards of the page that
    /// is shown have changed. Where nothing has arrived and the page is the
    /// same, nothing is done.
    pub fn poll(
        &mut self,
        arrived: Option<Vec<(String, RoomState)>>,
        areas: &mut Vec<Area>,
        current: usize,
    ) -> (r: Vec<usize>)
        ensures
            final(areas)@.len() == old(areas)@.len(),
            if arrived is None && current == old(self).shown {
                &&& r@.len() == 0
                &&& final(areas)@ == old(areas)@
                &&& *final(self) == *old(self)
            } else {
                &&& final(self).shown == current
                &&& final(self).latest == (match arrived {
                    Some(latest) => latest,
                    None => old(self).latest,
                })
                &&& forall|i: int|
                    0 <= i < old(areas)@.len() ==> area_with(
                        old(areas)@[i],
                        #[trigger] final(areas)@[i],
                        final(self).latest@,
                    )
                &&& if current < old(areas)@.len() {
                    r@ == changed_before(
                        old(areas)@[current as int].rooms@,
                        final(areas)@[current as int].rooms@,
                        if old(areas)@[current as int].room_ids@.len() < old(
                            areas,
                        )@[current as int].rooms@.len() {
                            old(areas)@[current as int].room_ids@.len() as int
                        } else {
                            old(areas)@[current as int].rooms@.len() as int
                        },
                    )
                } else {
                    r@.len() == 0
                }
            },
    {
        let mut changed: Vec<usize> = Vec::new();
        match arrived {
            Some(latest) => {
                self.latest = latest;
            },
            None => {
                if current == self.shown {
                    assert(areas@ == old(areas)@);
                    return changed;
                }
            },
        }
        self.shown = current;
        let mut i: usize = 0;
        while i < areas.len()
            invariant
                i <= areas@.len(),
                areas@.len() == old(areas)@.len(),
                self.shown == current,
                self.latest == (match arrived {
                    Some(latest) => latest,
                    None => old(self).latest,
                }),
                forall|k: int|
                    0 <= k < i ==> area_with(
                        old(areas)@[k],
                        #[trigger] areas@[k],
                        self.latest@,
                    ),
                forall|k: int| i <= k < areas@.len() ==> #[trigger] areas@[k] == old(areas)@[k],
                i <= current ==> changed@.len() == 0,
                i > current ==> changed@ == changed_before(
                    old(areas)@[current as int].rooms@,
                    areas@[current as int].rooms@,
                    if old(areas)@[current as int].room_ids@.len() < old(
                        areas,
                    )@[current as int].rooms@.len() {
                        old(areas)@[current as int].room_ids@.len() as int
                    } else {
                        old(areas)@[current as int].rooms@.len() as int
                    },
                ),
            decreases areas.len() - i,
        {
            let rows = write_area(&mut areas[i], &self.latest);
            if i == current {
                changed = rows;
            }
            i = i + 1;
        }
        changed
    }
}

/// Nothing is claimed of a room that nothing has answered for, and a device that
/// does not answer is never counted as off.
pub proof fn an_unread_device_is_never_off(readings: Seq<Reading>)
    ensures
        (forall|k: int| 0 <= k < readings.len() ==> (#[trigger] readings[k]).on is None)
            ==> state_of(readings).power == -1 && state_of(readings).on == 0,
        (exists|k: int| 0 <= k < readings.len() && (#[trigger] readings[k]).on is None)
            ==> state_of(readings).power != 0,
        state_of(readings).offline ==> state_of(readings).on == 0 && state_of(readings).power
            != 1,
{
    let states = readings.map_values(|r: Reading| r.on);
    if exists|k: int| 0 <= k < readings.len() && (#[trigger] readings[k]).on is None {
        let k = choose|k: int| 0 <= k < readings.len() && (#[trigger] readings[k]).on is None;
        assert(states[k] is None);
    }
    if forall|k: int| 0 <= k < readings.len() ==> (#[trigger] readings[k]).on is None {
        assert forall|k: int| 0 <= k < states.len() implies #[trigger] states[k] is None by {
            assert(readings[k].on is None);
        }
        none_lit(readings, readings.len() as int);
    }
}

proof fn none_lit(readings: Seq<Reading>, n: int)
    requires
        0 <= n <= readings.len(),
        forall|k: int| 0 <= k < readings.len() ==> (#[trigger] readings[k]).on is None,
    ensures
        lit_before(readings, n) == 0,
    decreases n,
{
    if n > 0 {
        none_lit(readings, n - 1);
    }
}

/// One device more in a room adds one to what is on just where it is on, and
/// leaves what is known of the others.
pub proof fn a_device_counts_once(readings: Seq<Reading>, reading: Reading)
    requires
        readings.len() < i32::MAX,
    ensures
        ({
            let before = state_of(readings);
            let after = state_of(readings.push(reading));
            &&& reading.on == Some(true) ==> after.on == before.on + 1
            &&& reading.on != Some(true) ==> after.on == before.on
            &&& reading.on == Some(true) ==> after.power == 1 && after.known && !after.offline
            &&& reading.on == Some(false) ==> after.known && !after.offline
            &&& before.power == 1 ==> after.power == 1
        }),
        state_of(Seq::<Reading>::empty()).on == 0,
{
    let more = readings.push(reading);
    lit_before_of_a_prefix(readings, reading, readings.len() as int);
    lit_is_bounded(readings, readings.len() as int);
    assert(more[readings.len() as int] == reading);
    let a = readings.map_values(|r: Reading| r.on);
    let b = more.map_values(|r: Reading| r.on);
    assert(b[readings.len() as int] == reading.on);
    if some_on(a) {
        let k = choose|k: int| 0 <= k < a.len() && #[trigger] a[k] == Some(true);
        assert(b[k] == Some(true));
    }
}

proof fn lit_before_of_a_prefix(readings: Seq<Reading>, reading: Reading, n: int)
    requires
        0 <= n <= readings.len(),
    ensures
        lit_before(readings.push(reading), n) == lit_before(readings, n),
    decreases n,
{
    if n > 0 {
        lit_before_of_a_prefix(readings, reading, n - 1);
    }
}

proof fn lit_is_bounded(readings: Seq<Reading>, n: int)
    requires
        0 <= n <= readings.len(),
    ensures
        lit_before(readings, n) <= n,
    decreases n,
{
    if n > 0 {
        lit_is_bounded(readings, n - 1);
    }
}

/// A room is on where a device of it is, off where all of them said that they
/// are, and otherwise nothing is said; it is dimmed where the devices that are on
/// and have a level are all below half; and it is offline where none of them
/// answered and a connection was lost.
pub proof fn a_card_says_what_its_devices_said(readings: Seq<Reading>)
    ensures
        ({
            let s = state_of(readings);
            let on = exists|k: int|
                0 <= k < readings.len() && (#[trigger] readings[k]).on == Some(true);
            let answered = exists|k: int|
                0 <= k < readings.len() && (#[trigger] readings[k]).on is Some;
            let off = readings.len() > 0 && forall|k: int|
                0 <= k < readings.len() ==> (#[trigger] readings[k]).on == Some(false);
            let cut = exists|k: int| 0 <= k < readings.len() && (#[trigger] readings[k]).lost;
            let bright = exists|k: int|
                0 <= k < readings.len() && (#[trigger] readings[k]).on == Some(true) && (
                readings[k].bright matches Some(b) && b >= 50);
            let level = exists|k: int|
                0 <= k < readings.len() && (#[trigger] readings[k]).on == Some(true)
                    && readings[k].bright is Some;
            &&& s.power == 1 <==> on
            &&& s.power == 0 <==> off
            &&& s.power == -1 <==> !on && !off
            &&& s.offline <==> !answered && cut
            &&& s.known <==> answered || cut
            &&& s.dimmed <==> level && !bright
        }),
{
    let a = readings.map_values(|r: Reading| r.on);
    assert(forall|k: int| 0 <= k < readings.len() ==> a[k] == (#[trigger] readings[k]).on);
    if some_on(a) {
        let k = choose|k: int| 0 <= k < a.len() && #[trigger] a[k] == Some(true);
        assert(readings[k].on == Some(true));
    }
    if exists|k: int| 0 <= k < readings.len() && (#[trigger] readings[k]).on == Some(true) {
        let k = choose|k: int|
            0 <= k < readings.len() && (#[trigger] readings[k]).on == Some(true);
        assert(a[k] == Some(true));
    }
    if readings.len() > 0 && forall|k: int|
        0 <= k < a.len() ==> #[trigger] a[k] == Some(false) {
        assert forall|k: int| 0 <= k < readings.len() implies (#[trigger] readings[k]).on == Some(
            false,
        ) by {
            assert(a[k] == Some(false));
        }
        assert(readings[0].on == Some(false));
    }
    if readings.len() > 0 && forall|k: int|
        0 <= k < readings.len() ==> (#[trigger] readings[k]).on == Some(false) {
        assert(forall|k: int| 0 <= k < a.len() ==> #[trigger] a[k] == Some(false));
        assert(readings[0].on == Some(false));
    }
}

/// What is known of an entity is what was reported of it last, and whether its
/// own connection was lost.
pub proof fn a_device_reads_what_was_reported_of_it(
    states: Seq<Power>,
    failed: Seq<String>,
    id: Seq<char>,
    k: int,
)
    ensures
        0 <= k < states.len() && states[k].entity_id@ == id && (forall|j: int|
            k < j < states.len() ==> (#[trigger] states[j]).entity_id@ != id) ==> reading_for(
            states,
            failed,
            id,
        ).on == states[k].on && reading_for(states, failed, id).bright
            == states[k].brightness_percent,
        (forall|j: int| 0 <= j < states.len() ==> (#[trigger] states[j]).entity_id@ != id)
            ==> reading_for(states, failed, id).on is None && reading_for(
            states,
            failed,
            id,
        ).bright is None,
        reading_for(states, failed, id).lost <==> listed(failed, parts(id).0),
{
    if 0 <= k < states.len() && states[k].entity_id@ == id && (forall|j: int|
        k < j < states.len() ==> (#[trigger] states[j]).entity_id@ != id) {
        the_last_report_counts(states, id, k, states.len() as int);
    }
    if forall|j: int| 0 <= j < states.len() ==> (#[trigger] states[j]).entity_id@ != id {
        no_report_counts(states, id, states.len() as int);
    }
}

proof fn the_last_report_counts(states: Seq<Power>, id: Seq<char>, k: int, n: int)
    requires
        0 <= k < n <= states.len(),
        states[k].entity_id@ == id,
        forall|j: int| k < j < n ==> (#[trigger] states[j]).entity_id@ != id,
    ensures
        power_before(states, id, n) == Some(states[k]),
    decreases n,
{
    if n - 1 > k {
        the_last_report_counts(states, id, k, n - 1);
    }
}

proof fn no_report_counts(states: Seq<Power>, id: Seq<char>, n: int)
    requires
        0 <= n <= states.len(),
        forall|j: int| 0 <= j < n ==> (#[trigger] states[j]).entity_id@ != id,
    ensures
        power_before(states, id, n) is None,
    decreases n,
{
    if n > 0 {
        no_report_counts(states, id, n - 1);
    }
}

/// A Home Assistant device that is reported as on is counted on its room's card,
/// whatever the Hue bridges say; a Hue lamp that is, whatever Home Assistant says.
pub proof fn a_reported_device_is_counted(
    sources: Seq<Source>,
    observed: Observed,
    k: int,
    j: int,
)
    requires
        0 <= k < sources.len() <= i32::MAX,
        match sources[k] {
            Source::Ha(id) => {
                &&& 0 <= j < observed.home_assistant@.len()
                &&& observed.home_assistant@[j].entity_id@ == id@
                &&& observed.home_assistant@[j].on == Some(true)
                &&& forall|i: int|
                    j < i < observed.home_assistant@.len() ==> (
                    #[trigger] observed.home_assistant@[i]).entity_id@ != id@
            },
            Source::Hue(id) => {
                &&& 0 <= j < observed.hue@.len()
                &&& observed.hue@[j].entity_id@ == id@
                &&& observed.hue@[j].on == Some(true)
                &&& forall|i: int|
                    j < i < observed.hue@.len() ==> (#[trigger] observed.hue@[i]).entity_id@ != id@
            },
            Source::Unknown => false,
        },
    ensures
        counted(sources, observed).power == 1,
        counted(sources, observed).on >= 1,
        counted(sources, observed).known,
        !counted(sources, observed).offline,
{
    let readings = sources.map_values(|s: Source| source_reading(observed, s));
    match sources[k] {
        Source::Ha(id) => {
            let failed = observed.home_assistant_failed@;
            a_device_reads_what_was_reported_of_it(observed.home_assistant@, failed, id@, j);
        },
        Source::Hue(id) => {
            a_device_reads_what_was_reported_of_it(observed.hue@, observed.hue_failed@, id@, j);
        },
        Source::Unknown => {},
    }
    assert(readings[k].on == Some(true));
    a_card_says_what_its_devices_said(readings);
    a_lit_device_is_counted(readings, k, readings.len() as int);
    lit_is_bounded(readings, readings.len() as int);
}

proof fn a_lit_device_is_counted(readings: Seq<Reading>, k: int, n: int)
    requires
        0 <= k < n <= readings.len(),
        readings[k].on == Some(true),
    ensures
        lit_before(readings, n) >= 1,
    decreases n,
{
    if n - 1 > k {
        a_lit_device_is_counted(readings, k, n - 1);
    }
}

/// A card depends on nothing but the providers of its own devices: one without
/// Hue devices on no bridge, one without Home Assistant's on no server.
pub proof fn a_card_depends_on_its_own_providers(
    sources: Seq<Source>,
    one: Observed,
    other: Observed,
)
    ensures
        (forall|k: int| 0 <= k < sources.len() ==> !((#[trigger] sources[k]) is Hue))
            && one.home_assistant == other.home_assistant && one.home_assistant_failed
            == other.home_assistant_failed ==> counted(sources, one) == counted(sources, other),
        (forall|k: int| 0 <= k < sources.len() ==> !((#[trigger] sources[k]) is Ha)) && one.hue
            == other.hue && one.hue_failed == other.hue_failed ==> counted(sources, one)
            == counted(sources, other),
        (forall|k: int| 0 <= k < sources.len() ==> (#[trigger] sources[k]) is Unknown) ==> counted(
            sources,
            one,
        ) == (RoomState { power: -1i32, on: 0, known: false, dimmed: false, offline: false }),
{
    let a = sources.map_values(|s: Source| source_reading(one, s));
    let b = sources.map_values(|s: Source| source_reading(other, s));
    if (forall|k: int| 0 <= k < sources.len() ==> !((#[trigger] sources[k]) is Hue))
        && one.home_assistant == other.home_assistant && one.home_assistant_failed
        == other.home_assistant_failed {
        assert(a =~= b);
    }
    if (forall|k: int| 0 <= k < sources.len() ==> !((#[trigger] sources[k]) is Ha)) && one.hue
        == other.hue && one.hue_failed == other.hue_failed {
        assert(a =~= b);
    }
    if forall|k: int| 0 <= k < sources.len() ==> (#[trigger] sources[k]) is Unknown {
        assert(forall|k: int| 0 <= k < a.len() ==> (#[trigger] a[k]).on is None && !a[k].lost);
        an_unread_device_is_never_off(a);
        a_card_says_what_its_devices_said(a);
    }
}

/// A room whose only word is that a connection was lost is offline.
pub proof fn a_lost_connection_takes_its_room_offline(
    sources: Seq<Source>,
    observed: Observed,
    k: int,
)
    requires
        0 <= k < sources.len(),
        observed.hue@.len() == 0 && observed.home_assistant@.len() == 0,
        match sources[k] {
            Source::Ha(id) => listed(observed.home_assistant_failed@, parts(id@).0),
            Source::Hue(id) => listed(observed.hue_failed@, parts(id@).0),
            Source::Unknown => false,
        },
    ensures
        counted(sources, observed).offline,
        counted(sources, observed).known,
        counted(sources, observed).on == 0,
        counted(sources, observed).power == -1,
{
    let readings = sources.map_values(|s: Source| source_reading(observed, s));
    assert(readings[k].lost);
    assert(forall|i: int| 0 <= i < readings.len() ==> (#[trigger] readings[i]).on is None);
    an_unread_device_is_never_off(readings);
    a_card_says_what_its_devices_said(readings);
}

/// A device is read from the provider that drives it, under its own name there.
pub proof fn a_device_is_read_from_its_own_provider(device: Device)
    ensures
        match device.integration {
            Some(Integration::Hue { light_id }) => source_of(device) == Source::Hue(light_id),
            Some(Integration::HomeAssistant { entity_id }) => source_of(device) == Source::Ha(
                entity_id,
            ),
            _ => source_of(device) is Unknown,
        },
{
}

/// A card shows the state that was counted, and keeps what it says of the room.
pub proof fn a_card_shows_the_counted_state(row: RoomRow, s: RoomState)
    ensures
        ({
            let card = card_with(row, s);
            &&& card.power_state == s.power
            &&& card.active_count == s.on
            &&& card.status_known == s.known
            &&& card.offline == s.offline
            &&& card.dimmed == s.dimmed
            &&& card.idle <==> s.on == 0
            &&& card.name == row.name && card.devices == row.devices && card.detail == row.detail
            &&& card.icon == row.icon && card.glyph == row.glyph
        }),
{
}

/// A card that nothing was read for yet says nothing of its devices.
pub proof fn a_fresh_card_claims_nothing(room: Room)
    ensures
        ({
            let card = fresh_card(room);
            &&& card.name == room.name && card.devices == room.summary && card.detail == room.detail
            &&& card.icon == room.icon && card.glyph == glyph_of(room.icon)
            &&& card.active_count == 0 && card.power_state == -1 && card.idle
            &&& !card.status_known && !card.offline && !card.dimmed
        }),
{
}

/// The state of a room is the last that was handed over for it, and silence for a
/// room that has none.
pub proof fn the_last_state_of_a_room_counts(
    latest: Seq<(String, RoomState)>,
    id: Seq<char>,
    k: int,
)
    ensures
        0 <= k < latest.len() && latest[k].0@ == id && (forall|j: int|
            k < j < latest.len() ==> (#[trigger] latest[j]).0@ != id) ==> known_of(latest, id)
            == latest[k].1,
        (forall|j: int| 0 <= j < latest.len() ==> (#[trigger] latest[j]).0@ != id) ==> known_of(
            latest,
            id,
        ) == (RoomState { power: -1i32, on: 0, known: false, dimmed: false, offline: false }),
{
    if 0 <= k < latest.len() && latest[k].0@ == id && (forall|j: int|
        k < j < latest.len() ==> (#[trigger] latest[j]).0@ != id) {
        the_last_state_before(latest, id, k, latest.len() as int);
    }
    if forall|j: int| 0 <= j < latest.len() ==> (#[trigger] latest[j]).0@ != id {
        no_state_before(latest, id, latest.len() as int);
    }
}

proof fn the_last_state_before(latest: Seq<(String, RoomState)>, id: Seq<char>, k: int, n: int)
    requires
        0 <= k < n <= latest.len(),
        latest[k].0@ == id,
        forall|j: int| k < j < n ==> (#[trigger] latest[j]).0@ != id,
    ensures
        latest_before(latest, id, n) == latest[k].1,
    decreases n,
{
    if n - 1 > k {
        the_last_state_before(latest, id, k, n - 1);
    }
}

proof fn no_state_before(latest: Seq<(String, RoomState)>, id: Seq<char>, n: int)
    requires
        0 <= n <= latest.len(),
        forall|j: int| 0 <= j < n ==> (#[trigger] latest[j]).0@ != id,
    ensures
        latest_before(latest, id, n) == RoomState::silent(),
    decreases n,
{
    if n > 0 {
        no_state_before(latest, id, n - 1);
    }
}

/// Exactly the cards that changed are drawn again, in their order.
pub proof fn only_changed_cards_are_drawn(
    before: Seq<RoomRow>,
    after: Seq<RoomRow>,
    n: int,
    k: usize,
)
    requires
        0 <= n <= before.len() <= usize::MAX,
        before.len() == after.len(),
    ensures
        changed_before(before, after, n).contains(k) <==> k < n && before[k as int]
            != after[k as int],
        changed_before(before, after, n).len() <= n,
    decreases n,
{
    if n > 0 {
        only_changed_cards_are_drawn(before, after, n - 1, k);
        let rest = changed_before(before, after, n - 1);
        if before[n - 1] != after[n - 1] {
            let all = rest.push((n - 1) as usize);
            assert(all[rest.len() as int] == (n - 1) as usize);
            if rest.contains(k) {
                let i = choose|i: int| 0 <= i < rest.len() && rest[i] == k;
                assert(all[i] == k);
            }
            if all.contains(k) {
                let i = choose|i: int| 0 <= i < all.len() && all[i] == k;
                if i < rest.len() {
                    assert(rest[i] == k);
                }
            }
        }
    }
}

/// A screen shows its own rooms, those of the configuration that it names, in its
/// own order, each with a fresh card; a name without a room is left out.
pub proof fn a_screen_lists_its_own_rooms(config: Config, ids: Seq<String>, i: int)
    requires
        0 <= i,
    ensures
        rooms_from(config, ids, i).len() <= if i < ids.len() {
            ids.len() - i
        } else {
            0
        },
        (forall|k: int| i <= k < ids.len() ==> config.spec_room((#[trigger] ids[k])@) is Some)
            ==> {
            &&& i <= ids.len() ==> rooms_from(config, ids, i).len() == ids.len() - i
            &&& forall|k: int|
                i <= k < ids.len() ==> Some(#[trigger] rooms_from(config, ids, i)[k - i])
                    == config.spec_room(ids[k]@)
        },
    decreases ids.len() - i,
{
    if i < ids.len() {
        a_screen_lists_its_own_rooms(config, ids, i + 1);
        if forall|k: int| i <= k < ids.len() ==> config.spec_room((#[trigger] ids[k])@) is Some {
            assert(config.spec_room(ids[i]@) is Some);
            let rest = rooms_from(config, ids, i + 1);
            assert(rooms_from(config, ids, i) =~= seq![config.spec_room(ids[i]@)->0] + rest);
            assert forall|k: int| i <= k < ids.len() implies Some(
                #[trigger] rooms_from(config, ids, i)[k - i],
            ) == config.spec_room(ids[k]@) by {
                if k > i {
                    assert(rooms_from(config, ids, i)[k - i] == rest[k - (i + 1)]);
                }
            }
        }
    }
}

/// What an activity's card says: its own name and kind, the device it plays from,
/// and the room it is in.
pub proof fn an_activitys_card_names_its_source_and_room(
    config: Config,
    activity: Activity,
    shown: LiveActivity,
    source: String,
)
    requires
        live(config, activity, shown),
    ensures
        shown.title == activity.name && shown.kind == activity.glyph,
        activity.source is None ==> shown.source@ == "Choose a source"@,
        activity.source == Some(source) ==> match config.spec_device(source@) {
            Some(device) => shown.source@ == device.name@,
            None => shown.source@ == "Choose a source"@,
        },
        match config.spec_room(activity.room@) {
            Some(room) => shown.place@ == room.name@,
            None => shown.place@.len() == 0,
        },
{
    reveal_strlit("");
}

/// Each kind of room has a glyph of its own, and what has none shares one.
pub proof fn each_icon_has_its_own_glyph(a: Icon, b: Icon)
    ensures
        glyph_of(a) == glyph_of(b) <==> a == b || a is Other && b is Other,
        0 <= glyph_of(a) <= 9,
        glyph_of(a) == 9 <==> a is Other,
        glyph_of(Icon::Sofa) == 0 && glyph_of(Icon::Bed) == 1 && glyph_of(Icon::CookingPot) == 2,
        glyph_of(Icon::BookOpen) == 3 && glyph_of(Icon::DoorOpen) == 4 && glyph_of(Icon::Car) == 5,
        glyph_of(Icon::Trees) == 6 && glyph_of(Icon::Lamp) == 7 && glyph_of(Icon::Tv) == 8,
{
}

/// The last screen is that of all rooms, whatever the others are.
pub proof fn the_last_screen_lists_all_rooms(areas: Seq<Area>, config: Config)
    requires
        is_projected(areas, config),
    ensures
        areas.len() == config.areas@.len() + 1,
        areas.last().name@ == "ALL ROOMS"@ && areas.last().id is None,
        areas.last().room_ids@.len() == config.rooms@.len(),
        forall|i: int|
            0 <= i < config.areas@.len() ==> (#[trigger] areas[i]).name == config.areas@[i].name
                && areas[i].id == Some(config.areas@[i].id),
{
    every_room_is_reachable(areas.last(), config);
    assert forall|i: int| 0 <= i < config.areas@.len() implies (#[trigger] areas[i]).name
        == config.areas@[i].name && areas[i].id == Some(config.areas@[i].id) by {
        assert(is_screen(areas[i], config, i));
    }
}

/// A screen shows its own scenes and activities, by their names.
pub proof fn a_screen_lists_its_own_scenes(config: Config, ids: Seq<String>, i: int)
    requires
        0 <= i < ids.len(),
    ensures
        match scene_from(config.scenes@, ids[i]@, 0) {
            Some(scene) => scene_names(config, ids, i) == seq![scene.name] + scene_names(
                config,
                ids,
                i + 1,
            ),
            None => scene_names(config, ids, i) == scene_names(config, ids, i + 1),
        },
        match activity_from(config.activities@, ids[i]@, 0) {
            Some(activity) => activities_named(config, ids, i) == seq![activity]
                + activities_named(config, ids, i + 1),
            None => activities_named(config, ids, i) == activities_named(config, ids, i + 1),
        },
{
}

/// A scene is found by its id: the first.
pub proof fn a_scene_is_found_by_its_id(scenes: Seq<Scene>, id: Seq<char>, i: int)
    requires
        0 <= i,
    ensures
        match scene_from(scenes, id, i) {
            Some(scene) => scene.id@ == id && exists|k: int|
                i <= k < scenes.len() && #[trigger] scenes[k] == scene,
            None => forall|k: int| i <= k < scenes.len() ==> (#[trigger] scenes[k]).id@ != id,
        },
    decreases scenes.len() - i,
{
    if i < scenes.len() && scenes[i].id@ != id {
        a_scene_is_found_by_its_id(scenes, id, i + 1);
    }
}

/// Home Assistant is asked every five seconds, and only for something.
pub proof fn home_assistant_is_asked_every_five_seconds(plan: Plan, elapsed_ms: int)
    ensures
        plan.ha_ids@.len() == 0 ==> !plan.is_due(elapsed_ms),
        elapsed_ms < 5000 ==> !plan.is_due(elapsed_ms),
        plan.ha_ids@.len() > 0 && elapsed_ms >= 5000 ==> plan.is_due(elapsed_ms),
{
}

/// What is asked for is what the rooms' devices are: every entity of Home
/// Assistant, and nothing that no device is; and the bridge just where a room has
/// a lamp of it.
pub proof fn what_is_asked_is_what_the_rooms_have(rooms: Seq<Room>, i: int, k: int, id: Seq<char>)
    requires
        0 <= i < rooms.len(),
        0 <= k < rooms[i].devices@.len(),
    ensures
        ({
            let device = rooms[i].devices@[k];
            let n = rooms.len() as int;
            &&& device.integration matches Some(Integration::HomeAssistant { entity_id })
                ==> entity_before(rooms, n, entity_id@)
            &&& device.integration matches Some(Integration::Hue { light_id }) ==> has_hue_before(
                rooms,
                n,
            )
        }),
        entity_before(rooms, rooms.len() as int, id) ==> exists|a: int, b: int|
            0 <= a < rooms.len() && 0 <= b < rooms[a].devices@.len() && ((
            #[trigger] rooms[a].devices@[b]).integration matches Some(
                Integration::HomeAssistant { entity_id },
            ) && entity_id@ == id),
        has_hue_before(rooms, rooms.len() as int) ==> exists|a: int, b: int|
            0 <= a < rooms.len() && 0 <= b < rooms[a].devices@.len() && (
            #[trigger] rooms[a].devices@[b]).integration is Some
                && rooms[a].devices@[b].integration->0 is Hue,
{
    let device = rooms[i].devices@[k];
    let n = rooms.len() as int;
    let source = source_of(rooms[i].devices@[k]);
    if entity_before(rooms, n, id) {
        let (a, b) = choose|a: int, b: int|
            0 <= a < n && 0 <= b < rooms[a].devices@.len() && (source_of(
                #[trigger] rooms[a].devices@[b],
            ) matches Source::Ha(entity) && entity@ == id);
        assert(rooms[a].devices@[b].integration matches Some(
            Integration::HomeAssistant { entity_id },
        ) && entity_id@ == id);
    }
    if has_hue_before(rooms, n) {
        let (a, b) = choose|a: int, b: int|
            0 <= a < n && 0 <= b < rooms[a].devices@.len() && source_of(
                #[trigger] rooms[a].devices@[b],
            ) is Hue;
        assert(rooms[a].devices@[b].integration->0 is Hue);
    }
}

} // verus!
