//! A room's list: its rows, what a row's keys do, and the adjustments that are
//! queued for its devices.
use crate::connections::{parts, split, Missing};
use crate::device_state::{cover_row, light_row, DeviceState, Light};
use crate::light_screen::{controls, has_controls, Declared};
use crate::model::{
    Activity, ChildComponent, ChildSnapshot, Config, Connection, Device, Icon, Integration,
    Provider, TypedAction,
};
use crate::text::{after, begins, first_of, same, split_once, starts_with, strip_prefix};
use crate::volume::PluginStatus;
use std::collections::VecDeque;
use vstd::prelude::*;

verus! {

/// How many of the activities at or after a place belong to a room.
pub open spec fn activities_from(activities: Seq<Activity>, room: Seq<char>, i: int) -> nat
    decreases activities.len() - i,
{
    if i < 0 || i >= activities.len() {
        0
    } else {
        (if activities[i].room@ == room {
            1nat
        } else {
            0nat
        }) + activities_from(activities, room, i + 1)
    }
}

/// How many activity rows are pinned above a room's devices.
pub fn activity_rows(config: &Config, room: &str) -> (r: usize)
    ensures
        r == activities_from(config.activities@, room@, 0),
        r <= config.activities@.len(),
{
    let mut n: usize = 0;
    let mut i: usize = 0;
    while i < config.activities.len()
        invariant
            i <= config.activities.len(),
            n <= i,
            n + activities_from(config.activities@, room@, i as int) == activities_from(
                config.activities@,
                room@,
                0,
            ),
        decreases config.activities.len() - i,
    {
        if same(config.activities[i].room.as_str(), room) {
            n = n + 1;
        }
        i = i + 1;
    }
    n
}

/// The device on a row of a room's list: rows follow the room's own order after
/// the pinned activities.
pub open spec fn row_device(config: Config, room: Seq<char>, row: int) -> Option<Device> {
    let index = row - activities_from(config.activities@, room, 0);
    match config.spec_room(room) {
        Some(r) => if 0 <= index < r.devices@.len() {
            Some(r.devices@[index])
        } else {
            None
        },
        None => None,
    }
}

/// The device on a row of a room's list, if the row is a device.
pub fn device_at<'a>(config: &'a Config, room: &str, row: usize) -> (r: Option<&'a Device>)
    ensures
        match r {
            Some(d) => row_device(*config, room@, row as int) == Some(*d),
            None => row_device(*config, room@, row as int) is None,
        },
{
    let pinned: usize = activity_rows(config, room);
    match config.room(room) {
        Some(r) => if row >= pinned && row - pinned < r.devices.len() {
            Some(&r.devices[row - pinned])
        } else {
            None
        },
        None => None,
    }
}

/// The place of the first device of that name, at or after a place.
pub open spec fn place_from(devices: Seq<Device>, id: Seq<char>, i: int) -> Option<int>
    decreases devices.len() - i,
{
    if i < 0 || i >= devices.len() {
        None
    } else if devices[i].id@ == id {
        Some(i)
    } else {
        place_from(devices, id, i + 1)
    }
}

/// The row that a device sits on in its room's list.
pub open spec fn device_row(config: Config, room: Seq<char>, device: Seq<char>) -> Option<int> {
    match config.spec_room(room) {
        Some(r) => match place_from(r.devices@, device, 0) {
            Some(place) => Some(activities_from(config.activities@, room, 0) + place),
            None => None,
        },
        None => None,
    }
}

/// The row that a device sits on in its room's list.
pub fn row_of_device(config: &Config, room: &str, device: &str) -> (r: Option<usize>)
    requires
        forall|i: int|
            0 <= i < config.rooms@.len() ==> config.activities@.len() + (
            #[trigger] config.rooms@[i]).devices@.len() <= usize::MAX,
    ensures
        match r {
            Some(row) => device_row(*config, room@, device@) == Some(row as int),
            None => device_row(*config, room@, device@) is None,
        },
{
    let pinned: usize = activity_rows(config, room);
    match config.room(room) {
        Some(r) => {
            proof {
                room_is_listed(config.rooms@, room@, 0);
            }
            let mut i: usize = 0;
            while i < r.devices.len()
                invariant
                    i <= r.devices.len(),
                    config.spec_room(room@) == Some(*r),
                    pinned == activities_from(config.activities@, room@, 0),
                    pinned + r.devices.len() <= usize::MAX,
                    place_from(r.devices@, device@, 0) == place_from(r.devices@, device@, i as int),
                decreases r.devices.len() - i,
            {
                if same(r.devices[i].id.as_str(), device) {
                    return Some(pinned + i);
                }
                i = i + 1;
            }
            None
        },
        None => None,
    }
}

/// A room that is found is one of the rooms.
pub proof fn room_is_listed(rooms: Seq<crate::model::Room>, id: Seq<char>, i: int)
    requires
        0 <= i,
    ensures
        crate::model::room_from(rooms, id, i) matches Some(r) ==> exists|k: int|
            0 <= k < rooms.len() && #[trigger] rooms[k] == r && r.id@ == id,
    decreases rooms.len() - i,
{
    if i < rooms.len() {
        if rooms[i].id@ != id {
            room_is_listed(rooms, id, i + 1);
        }
    }
}

proof fn place_is_first(devices: Seq<Device>, id: Seq<char>, i: int)
    requires
        0 <= i,
    ensures
        place_from(devices, id, i) matches Some(k) ==> i <= k < devices.len() && devices[k].id@
            == id,
    decreases devices.len() - i,
{
    if i < devices.len() && devices[i].id@ != id {
        place_is_first(devices, id, i + 1);
    }
}

/// The row that a device sits on shows a device of that name.
pub proof fn a_devices_row_shows_it(config: Config, room: Seq<char>, device: Seq<char>)
    ensures
        device_row(config, room, device) matches Some(row) ==> row_device(
            config,
            room,
            row,
        ) matches Some(d) && d.id@ == device,
{
    if let Some(r) = config.spec_room(room) {
        place_is_first(r.devices@, device, 0);
    }
}

/// The row ids of packaged children begin with this.
pub const PLUGIN_PREFIX: &'static str = "plugin:";

/// A Home Assistant row's domain. A packaged child's own name may look like an
/// entity, and has none.
pub open spec fn domain(id: Seq<char>) -> Seq<char> {
    let raw = parts(id).1;
    let n = first_of(raw, '.');
    if begins(id, PLUGIN_PREFIX@) || n >= raw.len() {
        Seq::empty()
    } else {
        raw.subrange(0, n as int)
    }
}

/// A Home Assistant row's domain, or nothing for any other row.
pub fn ha_domain(id: &str) -> (r: &str)
    ensures
        r@ == domain(id@),
{
    proof {
        reveal_strlit("");
    }
    assert(""@ =~= Seq::<char>::empty());
    if starts_with(id, PLUGIN_PREFIX) {
        return "";
    }
    match split_once(split(id).1, '.') {
        Some((head, _)) => head,
        None => "",
    }
}

/// A row that is one child of a packaged connection.
#[derive(Debug)]
pub struct PluginRow {
    pub connection: String,
    pub resource: String,
    /// Drawn and driven as a blind rather than as a lamp.
    pub cover: bool,
    pub snapshot: ChildSnapshot,
}

impl PluginRow {
    /// The row's id.
    pub open spec fn spec_id(self) -> Seq<char> {
        PLUGIN_PREFIX@ + self.connection@ + "/"@ + self.resource@
    }

    /// The row's id.
    pub fn id(&self) -> (r: String)
        ensures
            r@ == self.spec_id(),
    {
        let mut s = PLUGIN_PREFIX.to_owned();
        s.append(self.connection.as_str());
        s.append("/");
        s.append(self.resource.as_str());
        s
    }

    /// The same row again.
    pub fn copy(&self) -> (r: PluginRow)
        ensures
            r == *self,
    {
        PluginRow {
            connection: self.connection.clone(),
            resource: self.resource.clone(),
            cover: self.cover,
            snapshot: self.snapshot,
        }
    }

    /// What one status says of this child: nothing at all where the status is
    /// silent about it.
    pub open spec fn reads(self, name: Seq<char>, status: PluginStatus, reading: Option<
        DeviceState,
    >) -> bool {
        if self.cover {
            match status.cover {
                None => reading is None,
                Some(state) => {
                    &&& reading matches Some(DeviceState::Cover(c))
                    &&& c.name@ == name
                    &&& crate::device_state::chars_of(c.state) == (match state.open {
                        Some(true) => Some("open"@),
                        Some(false) => Some("closed"@),
                        None => None,
                    })
                    &&& c.position_percent == state.position
                    &&& c.can_open && c.can_close
                    &&& c.can_set_position == (self.snapshot.cover matches Some(t) && t.position)
                    &&& c.can_stop == (self.snapshot.cover matches Some(t) && t.stop)
                },
            }
        } else {
            match status.light {
                None => reading is None,
                Some(state) => {
                    &&& reading matches Some(DeviceState::Light(l))
                    &&& l.name@ == name
                    &&& l.on == state.on
                    &&& l.brightness_percent == state.brightness
                    &&& l.dimmable == (self.snapshot.light matches Some(t) && t.dimmable)
                    &&& l.mirek_range == (match self.snapshot.light {
                        Some(t) => t.mirek,
                        None => None,
                    })
                    &&& l.mirek == (match (l.mirek_range, state.mirek) {
                        (Some((cool, warm)), Some(mirek)) => if cool <= mirek <= warm {
                            Some(mirek)
                        } else {
                            None
                        },
                        _ => None,
                    })
                },
            }
        }
    }

    /// What one status says of this child.
    pub fn state(&self, name: &str, status: &PluginStatus) -> (r: Option<DeviceState>)
        ensures
            self.reads(name@, *status, r),
    {
        if self.cover {
            match &status.cover {
                Some(state) => Some(
                    DeviceState::Cover(cover_row(name, self.snapshot.cover.as_ref(), state)),
                ),
                None => None,
            }
        } else {
            match &status.light {
                Some(state) => Some(
                    DeviceState::Light(light_row(name, self.snapshot.light.as_ref(), state)),
                ),
                None => None,
            }
        }
    }

    /// The action that sets a level.
    pub open spec fn spec_level(self, percent: u8) -> TypedAction {
        if self.cover {
            TypedAction::SetCover { position: percent }
        } else {
            TypedAction::SetLight { brightness: Some(percent), mirek: None }
        }
    }

    /// The typed action that a level on this row means.
    pub fn level(&self, percent: u8) -> (r: TypedAction)
        ensures
            r == self.spec_level(percent),
            r == if self.cover {
                TypedAction::SetCover { position: percent }
            } else {
                TypedAction::SetLight { brightness: Some(percent), mirek: None }
            },
    {
        if self.cover {
            TypedAction::SetCover { position: percent }
        } else {
            TypedAction::SetLight { brightness: Some(percent), mirek: None }
        }
    }
}

/// Which built-in control a packaged child is drawn with: the kind that its
/// connection declares, else what the child saved about itself.
pub open spec fn component_of(device: Device, child: ChildSnapshot) -> ChildComponent {
    match device.component {
        Some(component) => component,
        None => if child.cover is Some {
            ChildComponent::Cover
        } else if child.climate {
            ChildComponent::Climate
        } else {
            ChildComponent::Light
        },
    }
}

/// Which built-in control a packaged child is drawn with.
pub fn child_component(device: &Device, child: &ChildSnapshot) -> (r: ChildComponent)
    ensures
        r == component_of(*device, *child),
{
    match device.component {
        Some(component) => component,
        None => if child.cover.is_some() {
            ChildComponent::Cover
        } else if child.climate {
            ChildComponent::Climate
        } else {
            ChildComponent::Light
        },
    }
}

/// The room row that a packaged light or blind is drawn as.
pub open spec fn packaged_row(device: Device) -> Option<PluginRow> {
    match device.integration {
        Some(Integration::Plugin { connection_id, resource_id, child: Some(child), .. }) => {
            let component = component_of(device, child);
            if component == ChildComponent::Light || component == ChildComponent::Cover {
                Some(
                    PluginRow {
                        connection: connection_id,
                        resource: resource_id,
                        cover: component == ChildComponent::Cover,
                        snapshot: child,
                    },
                )
            } else {
                None
            }
        },
        _ => None,
    }
}

/// The room row that a packaged light or blind is drawn as; a thermostat and a
/// scene have none.
pub fn plugin_row(device: &Device) -> (r: Option<PluginRow>)
    ensures
        r == packaged_row(*device),
{
    match &device.integration {
        Some(Integration::Plugin { connection_id, resource_id, child, .. }) => match child {
            Some(child) => {
                let cover = match child_component(device, child) {
                    ChildComponent::Light => false,
                    ChildComponent::Cover => true,
                    _ => return None,
                };
                Some(
                    PluginRow {
                        connection: connection_id.clone(),
                        resource: resource_id.clone(),
                        cover,
                        snapshot: *child,
                    },
                )
            },
            None => None,
        },
        _ => None,
    }
}

/// Whether a packaged device gets the generic packaged control screen.
pub fn opens_packaged_screen(device: &Device) -> (r: bool)
    ensures
        r == (packaged_row(*device) is None),
{
    plugin_row(device).is_none()
}

/// One row of a room's list.
#[derive(Debug)]
pub struct Entry {
    pub icon: Icon,
    pub name: String,
    pub id: String,
    pub state: Option<DeviceState>,
    pub hue: bool,
    pub matter: bool,
    /// One child of a packaged connection.
    pub plugin: Option<PluginRow>,
    /// A speaker that the physical keys drive from the list.
    pub media: bool,
    /// A pinned activity: its glyph and its caption.
    pub activity: Option<(i32, String)>,
    /// The last status read said that the connection is not paired.
    pub unpaired: bool,
}

/// A row, as mathematical values.
#[verifier::ext_equal]
pub struct Row {
    pub icon: Icon,
    pub name: Seq<char>,
    pub id: Seq<char>,
    pub state: Option<DeviceState>,
    pub hue: bool,
    pub matter: bool,
    pub plugin: Option<PluginRow>,
    pub media: bool,
    pub activity: Option<(i32, Seq<char>)>,
    pub unpaired: bool,
}

impl View for Entry {
    type V = Row;

    open spec fn view(&self) -> Row {
        Row {
            icon: self.icon,
            name: self.name@,
            id: self.id@,
            state: self.state,
            hue: self.hue,
            matter: self.matter,
            plugin: self.plugin,
            media: self.media,
            activity: match self.activity {
                Some((glyph, caption)) => Some((glyph, caption@)),
                None => None,
            },
            unpaired: self.unpaired,
        }
    }
}

/// The rows, as mathematical values.
pub open spec fn rows_of(entries: Seq<Entry>) -> Seq<Row> {
    entries.map_values(|e: Entry| e@)
}

/// A row that nothing has been read for.
pub open spec fn fresh_row(icon: Icon, name: Seq<char>, id: Seq<char>) -> Row {
    Row {
        icon,
        name,
        id,
        state: None,
        hue: false,
        matter: false,
        plugin: None,
        media: false,
        activity: None,
        unpaired: false,
    }
}

fn fresh_entry(icon: Icon, name: &String, id: String) -> (r: Entry)
    ensures
        r@ == fresh_row(icon, name@, id@),
{
    Entry {
        icon,
        name: name.clone(),
        id,
        state: None,
        hue: false,
        matter: false,
        plugin: None,
        media: false,
        activity: None,
        unpaired: false,
    }
}

fn joined(prefix: &str, rest: &str) -> (r: String)
    ensures
        r@ == prefix@ + rest@,
{
    let mut s = prefix.to_owned();
    s.append(rest);
    s
}

/// Whether a domain is one that a room lists.
pub open spec fn listed_domain(d: Seq<char>) -> bool {
    d == "light"@ || d == "cover"@ || d == "climate"@
}

/// A device's row: a packaged child is one like any other, an entity and a lamp
/// are drawn as what they are, and everything else is a device with a screen.
pub open spec fn device_entry(d: Device) -> Row {
    let other = Row {
        media: d.integration matches Some(i) && i is Sonos,
        ..fresh_row(d.icon, d.name@, "device:"@ + d.id@)
    };
    match packaged_row(d) {
        Some(row) => Row { plugin: Some(row), ..fresh_row(d.icon, d.name@, row.spec_id()) },
        None => match d.integration {
            Some(Integration::HomeAssistant { entity_id }) => if listed_domain(domain(entity_id@)) {
                fresh_row(d.icon, d.name@, entity_id@)
            } else {
                other
            },
            Some(Integration::Hue { light_id }) => if begins(light_id@, "scene:"@) {
                other
            } else {
                Row { hue: true, ..fresh_row(d.icon, d.name@, "hue:"@ + light_id@) }
            },
            Some(Integration::Matter { device }) => Row {
                matter: true,
                ..fresh_row(d.icon, d.name@, "matter:"@ + device@)
            },
            _ => other,
        },
    }
}

fn entry_of_device(d: &Device) -> (r: Entry)
    ensures
        r@ == device_entry(*d),
{
    match plugin_row(d) {
        Some(row) => {
            let mut e = fresh_entry(d.icon, &d.name, row.id());
            e.plugin = Some(row);
            return e;
        },
        None => {},
    }
    let mut media = false;
    match &d.integration {
        Some(Integration::HomeAssistant { entity_id }) => {
            let domain = ha_domain(entity_id.as_str());
            if same(domain, "light") || same(domain, "cover") || same(domain, "climate") {
                return fresh_entry(d.icon, &d.name, entity_id.clone());
            }
        },
        Some(Integration::Hue { light_id }) => {
            if !starts_with(light_id.as_str(), "scene:") {
                let mut e = fresh_entry(d.icon, &d.name, joined("hue:", light_id.as_str()));
                e.hue = true;
                return e;
            }
        },
        Some(Integration::Matter { device }) => {
            let mut e = fresh_entry(d.icon, &d.name, joined("matter:", device.as_str()));
            e.matter = true;
            return e;
        },
        Some(Integration::Sonos { .. }) => {
            media = true;
        },
        _ => {},
    }
    let mut e = fresh_entry(d.icon, &d.name, joined("device:", d.id.as_str()));
    e.media = media;
    e
}

/// The source device and the room of an activity, as its strip names them.
pub open spec fn caption(config: Config, activity: Activity) -> Seq<char> {
    let source = match activity.source {
        Some(id) => match config.spec_device(id@) {
            Some(d) => d.name@,
            None => "Choose a source"@,
        },
        None => "Choose a source"@,
    };
    let place = match config.spec_room(activity.room@) {
        Some(r) => r.name@,
        None => ""@,
    };
    source + " · "@ + place
}

/// The source device and the room of an activity, as its strip names them.
pub fn activity_caption(config: &Config, activity: &Activity) -> (r: String)
    ensures
        r@ == caption(*config, *activity),
{
    let source = match &activity.source {
        Some(id) => match config.device(id.as_str()) {
            Some(d) => d.name.as_str(),
            None => "Choose a source",
        },
        None => "Choose a source",
    };
    let place = match config.room(activity.room.as_str()) {
        Some(r) => r.name.as_str(),
        None => "",
    };
    let mut s = source.to_owned();
    s.append(" · ");
    s.append(place);
    s
}

/// A pinned activity's row.
pub open spec fn activity_entry(config: Config, activity: Activity) -> Row {
    Row {
        activity: Some((activity.glyph, caption(config, activity))),
        ..fresh_row(Icon::Tv, activity.name@, "activity:"@ + activity.id@)
    }
}

fn entry_of_activity(config: &Config, activity: &Activity) -> (r: Entry)
    ensures
        r@ == activity_entry(*config, *activity),
{
    let mut e = fresh_entry(Icon::Tv, &activity.name, joined("activity:", activity.id.as_str()));
    e.activity = Some((activity.glyph, activity_caption(config, activity)));
    e
}

/// The rows of a room's activities, at or after a place.
pub open spec fn activity_entries(config: Config, room: Seq<char>, i: int) -> Seq<Row>
    decreases config.activities@.len() - i,
{
    if i < 0 || i >= config.activities@.len() {
        Seq::empty()
    } else if config.activities@[i].room@ == room {
        seq![activity_entry(config, config.activities@[i])] + activity_entries(config, room, i + 1)
    } else {
        activity_entries(config, room, i + 1)
    }
}

/// A room's list: its activities pinned above its devices.
pub open spec fn room_rows(config: Config, room: crate::model::Room) -> Seq<Row> {
    activity_entries(config, room.id@, 0) + room.devices@.map_values(|d: Device| device_entry(d))
}

/// What is said where a room's list cannot be made.
#[derive(Clone, Copy, PartialEq, Eq, Structural, Debug)]
pub enum ListError {
    Unreadable,
    RoomRemoved,
}

impl ListError {
    /// The sentence that the user reads.
    pub open spec fn spec_text(self) -> Seq<char> {
        match self {
            ListError::Unreadable => "Cannot read your rooms"@,
            ListError::RoomRemoved => "This room was removed; return home to reload"@,
        }
    }

    /// The sentence that the user reads.
    pub fn text(&self) -> (r: &'static str)
        ensures
            r@ == self.spec_text(),
    {
        match self {
            ListError::Unreadable => "Cannot read your rooms",
            ListError::RoomRemoved => "This room was removed; return home to reload",
        }
    }
}

/// A room's list, before anything has been read.
pub fn configured_in(config: &Config, room: &str) -> (r: Result<Vec<Entry>, ListError>)
    ensures
        match config.spec_room(room@) {
            Some(found) => r matches Ok(entries) && rows_of(entries@) == room_rows(*config, found),
            None => r == Err::<Vec<Entry>, ListError>(ListError::RoomRemoved),
        },
{
    let found = match config.room(room) {
        Some(found) => found,
        None => return Err(ListError::RoomRemoved),
    };
    let mut out: Vec<Entry> = Vec::new();
    let ghost pinned = activity_entries(*config, found.id@, 0);
    let mut i: usize = 0;
    assert(rows_of(out@) + pinned =~= pinned);
    while i < config.activities.len()
        invariant
            i <= config.activities.len(),
            pinned == activity_entries(*config, found.id@, 0),
            rows_of(out@) + activity_entries(*config, found.id@, i as int) == pinned,
        decreases config.activities.len() - i,
    {
        if same(config.activities[i].room.as_str(), found.id.as_str()) {
            let ghost before = out@;
            out.push(entry_of_activity(config, &config.activities[i]));
            assert(rows_of(out@) =~= rows_of(before).push(
                activity_entry(*config, config.activities@[i as int]),
            ));
            assert(rows_of(before) + activity_entries(*config, found.id@, i as int) =~= rows_of(
                out@,
            ) + activity_entries(*config, found.id@, i + 1));
        }
        i = i + 1;
    }
    assert(rows_of(out@) + Seq::<Row>::empty() =~= rows_of(out@));
    let ghost devices = found.devices@.map_values(|d: Device| device_entry(d));
    let mut k: usize = 0;
    assert(pinned + devices.take(0) =~= pinned);
    while k < found.devices.len()
        invariant
            k <= found.devices.len(),
            devices == found.devices@.map_values(|d: Device| device_entry(d)),
            rows_of(out@) == pinned + devices.take(k as int),
        decreases found.devices.len() - k,
    {
        let ghost before = out@;
        out.push(entry_of_device(&found.devices[k]));
        assert(rows_of(out@) =~= rows_of(before).push(device_entry(found.devices@[k as int])));
        assert(devices.take(k + 1) =~= devices.take(k as int).push(devices[k as int]));
        assert(rows_of(before).push(devices[k as int]) =~= pinned + devices.take(k + 1));
        k = k + 1;
    }
    assert(devices.take(found.devices@.len() as int) =~= devices);
    Ok(out)
}

/// A room's list as the saved configuration has it.
pub fn configured(config: Option<&Config>, room: &str) -> (r: Result<Vec<Entry>, ListError>)
    ensures
        match config {
            None => r == Err::<Vec<Entry>, ListError>(ListError::Unreadable),
            Some(c) => match c.spec_room(room@) {
                Some(found) => r matches Ok(entries) && rows_of(entries@) == room_rows(*c, found),
                None => r == Err::<Vec<Entry>, ListError>(ListError::RoomRemoved),
            },
        },
{
    match config {
        Some(c) => configured_in(c, room),
        None => Err(ListError::Unreadable),
    }
}

proof fn pinned_count(config: Config, room: Seq<char>, i: int)
    requires
        0 <= i,
    ensures
        activity_entries(config, room, i).len() == activities_from(config.activities@, room, i),
    decreases config.activities@.len() - i,
{
    if i < config.activities@.len() {
        pinned_count(config, room, i + 1);
    }
}

/// A room's list and its devices agree: the row that a place stands for shows
/// the device that the place names, and no other row of the list is a device's.
pub proof fn rows_follow_the_rooms_own_order(config: Config, room: Seq<char>, row: int)
    requires
        config.spec_room(room) is Some,
        0 <= row,
    ensures
        match row_device(config, room, row) {
            Some(d) => row < room_rows(config, config.spec_room(room)->0).len() && room_rows(
                config,
                config.spec_room(room)->0,
            )[row] == device_entry(d),
            None => row < room_rows(config, config.spec_room(room)->0).len() ==> row
                < activities_from(config.activities@, room, 0),
        },
{
    let found = config.spec_room(room)->0;
    room_is_listed(config.rooms@, room, 0);
    pinned_count(config, found.id@, 0);
}

/// The sentence of a device whose client has moved to a package.
pub open spec fn package_needed(config: Config, device: Seq<char>) -> Option<String> {
    match config.spec_device(device) {
        Some(d) => match d.integration {
            Some(Integration::Legacy { needs_package }) => Some(needs_package),
            _ => None,
        },
        None => None,
    }
}

/// What a row says, and OK on it toasts, where its device's client has moved to
/// a package that is not installed yet.
pub fn needs_package(config: &Config, device: &str) -> (r: Option<String>)
    ensures
        r == package_needed(*config, device@),
{
    match config.device(device) {
        Some(d) => match &d.integration {
            Some(Integration::Legacy { needs_package }) => Some(needs_package.clone()),
            _ => None,
        },
        None => None,
    }
}

/// A text without any of the prefixes that it begins with, one after another.
pub open spec fn bare(s: Seq<char>, prefix: Seq<char>) -> Seq<char>
    decreases s.len(),
{
    if prefix.len() > 0 && begins(s, prefix) {
        bare(after(s, prefix.len()), prefix)
    } else {
        s
    }
}

/// A row id without its "device:".
pub fn bare_device(id: &str) -> (r: &str)
    ensures
        r@ == bare(id@, "device:"@),
    decreases id@.len(),
{
    proof {
        reveal_strlit("device:");
    }
    match strip_prefix(id, "device:") {
        Some(rest) => bare_device(rest),
        None => id,
    }
}

/// The second line of a device row that opens a screen.
pub open spec fn device_detail(config: Option<Config>, id: Seq<char>) -> Seq<char> {
    match config {
        Some(c) => match package_needed(c, bare(id, "device:"@)) {
            Some(sentence) => sentence@,
            None => "Press OK for controls"@,
        },
        None => "Press OK for controls"@,
    }
}

/// The second line of a device row that opens a screen.
pub fn device_row_detail(config: Option<&Config>, id: &str) -> (r: String)
    ensures
        r@ == device_detail(crate::connections::given(config), id@),
{
    match config {
        Some(c) => match needs_package(c, bare_device(id)) {
            Some(sentence) => sentence,
            None => "Press OK for controls".to_owned(),
        },
        None => "Press OK for controls".to_owned(),
    }
}

/// What a row is before any reading: a packaged child declared it, an entity
/// has its domain, and everything else is drawn as a lamp.
pub open spec fn declared_of(row: Row) -> Declared {
    match row.plugin {
        Some(p) => Declared {
            cover: p.cover,
            can_stop: p.snapshot.cover matches Some(t) && t.stop,
            dimmable: p.snapshot.light matches Some(t) && t.dimmable,
            mirek: match p.snapshot.light {
                Some(t) => t.mirek,
                None => None,
            },
        },
        None => Declared {
            cover: domain(row.id) == "cover"@,
            can_stop: false,
            dimmable: false,
            mirek: None,
        },
    }
}

/// What a row is before any reading.
pub fn declared(entry: &Entry) -> (r: Declared)
    ensures
        r == declared_of(entry@),
{
    match &entry.plugin {
        Some(p) => Declared {
            cover: p.cover,
            can_stop: match p.snapshot.cover {
                Some(t) => t.stop,
                None => false,
            },
            dimmable: match p.snapshot.light {
                Some(t) => t.dimmable,
                None => false,
            },
            mirek: match p.snapshot.light {
                Some(t) => t.mirek,
                None => None,
            },
        },
        None => Declared {
            cover: same(ha_domain(entry.id.as_str()), "cover"),
            can_stop: false,
            dimmable: false,
            mirek: None,
        },
    }
}

/// Whether OK on a row opens its control screen rather than switching it: a
/// packaged child says so in its declaration, the rest in their readings.
pub open spec fn opens(row: Row) -> bool {
    match row.plugin {
        Some(p) => if p.cover {
            p.snapshot.cover matches Some(t) && (t.position || t.stop)
        } else {
            p.snapshot.light matches Some(t) && (t.dimmable || t.mirek is Some)
        },
        None => row.state matches Some(s) && controls(s),
    }
}

/// Whether OK on a row opens its control screen rather than switching it.
pub fn opens_screen(entry: &Entry) -> (r: bool)
    ensures
        r == opens(entry@),
{
    match &entry.plugin {
        Some(p) => if p.cover {
            match p.snapshot.cover {
                Some(t) => t.position || t.stop,
                None => false,
            }
        } else {
            match p.snapshot.light {
                Some(t) => t.dimmable || t.mirek.is_some(),
                None => false,
            }
        },
        None => match &entry.state {
            Some(s) => has_controls(s),
            None => false,
        },
    }
}

/// Whether OK on a row opens a screen of any kind, which its chevron promises.
pub open spec fn promises_a_screen(config: Option<Config>, row: Row) -> bool {
    if row.activity is Some {
        false
    } else if begins(row.id, "device:"@) {
        config matches Some(c) ==> package_needed(c, after(row.id, "device:"@.len())) is None
    } else {
        opens(row)
    }
}

/// Whether OK on a row opens a screen of any kind. A device that waits for its
/// package has none to open.
pub fn row_opens_a_screen(config: Option<&Config>, entry: &Entry) -> (r: bool)
    ensures
        r == promises_a_screen(crate::connections::given(config), entry@),
{
    if entry.activity.is_some() {
        return false;
    }
    match strip_prefix(entry.id.as_str(), "device:") {
        Some(device) => match config {
            Some(c) => needs_package(c, device).is_none(),
            None => true,
        },
        None => opens_screen(entry),
    }
}

/// The first connection of a kind at or after a place.
pub open spec fn provider_from(connections: Seq<Connection>, provider: Provider, i: int) -> Option<
    Connection,
>
    decreases connections.len() - i,
{
    if i < 0 || i >= connections.len() {
        None
    } else if connections[i].provider == provider {
        Some(connections[i])
    } else {
        provider_from(connections, provider, i + 1)
    }
}

fn first_of_provider(config: &Config, provider: Provider) -> (r: Option<String>)
    ensures
        match provider_from(config.connections@, provider, 0) {
            Some(c) => r == Some(c.id),
            None => r is None,
        },
{
    let mut i: usize = 0;
    while i < config.connections.len()
        invariant
            i <= config.connections.len(),
            provider_from(config.connections@, provider, 0) == provider_from(
                config.connections@,
                provider,
                i as int,
            ),
        decreases config.connections.len() - i,
    {
        if config.connections[i].provider == provider {
            return Some(config.connections[i].id.clone());
        }
        i = i + 1;
    }
    None
}

/// The televisions whose screen is reached through a connection.
pub open spec fn tv_provider(integration: Integration) -> Option<Provider> {
    match integration {
        Integration::WebOs => Some(Provider::WebOs),
        Integration::AndroidTv => Some(Provider::AndroidTv),
        Integration::AppleTv => Some(Provider::AppleTv),
        Integration::Tizen => Some(Provider::Tizen),
        _ => None,
    }
}

/// What a device's own control screen is reached through: infrared or Bluetooth
/// where it has no network, a speaker's or a package's own, or a television's
/// connection, which is the device's own where it names one.
pub open spec fn screen_target(config: Config, id: Seq<char>) -> Option<Seq<char>> {
    match config.spec_device(id) {
        None => None,
        Some(d) => if d.network is None && d.ir {
            Some("ir:"@ + id)
        } else if d.network is None && d.bluetooth is Some {
            Some("bt:"@ + id)
        } else {
            match d.integration {
                None => None,
                Some(Integration::Sonos { .. }) => Some("sonos:"@ + id),
                Some(Integration::Plugin { .. }) => if packaged_row(d) is None {
                    Some("plugin:"@ + id)
                } else {
                    None
                },
                Some(integration) => match tv_provider(integration) {
                    None => None,
                    Some(provider) => match d.connection {
                        Some(connection) => Some(connection@),
                        None => match provider_from(config.connections@, provider, 0) {
                            Some(c) => Some(c.id@),
                            None => None,
                        },
                    },
                },
            }
        },
    }
}

/// What a device's own control screen is reached through.
pub fn tv_connection(config: &Config, id: &str) -> (r: Option<String>)
    ensures
        match r {
            Some(target) => screen_target(*config, id@) == Some(target@),
            None => screen_target(*config, id@) is None,
        },
{
    let d = match config.device(id) {
        Some(d) => d,
        None => return None,
    };
    if d.network.is_none() {
        if d.ir {
            return Some(joined("ir:", id));
        }
        if d.bluetooth.is_some() {
            return Some(joined("bt:", id));
        }
    }
    let provider = match &d.integration {
        None => return None,
        Some(integration) => match integration {
            Integration::Sonos { .. } => return Some(joined("sonos:", id)),
            Integration::Plugin { .. } => {
                return if opens_packaged_screen(d) {
                    Some(joined("plugin:", id))
                } else {
                    None
                };
            },
            Integration::WebOs => Provider::WebOs,
            Integration::AndroidTv => Provider::AndroidTv,
            Integration::AppleTv => Provider::AppleTv,
            Integration::Tizen => Provider::Tizen,
            _ => return None,
        },
    };
    match &d.connection {
        Some(connection) => Some(connection.clone()),
        None => first_of_provider(config, provider),
    }
}

/// Whether a light that OK switches goes on: the opposite of what it says it is.
pub fn toggle_command(light: &Light) -> (r: Result<bool, Missing>)
    ensures
        r matches Ok(sent) ==> light.on is Some && Some(sent) != light.on,
        r is Err <==> light.on is None,
        r == match light.on {
            Some(on) => Ok(!on),
            None => Err(Missing::LightUnavailable),
        },
{
    match light.on {
        Some(on) => Ok(!on),
        None => Err(Missing::LightUnavailable),
    }
}

/// The place of a row's target in a queue, at or after a place.
pub open spec fn target_from<T>(queue: Seq<(String, T)>, id: Seq<char>, i: int) -> Option<int>
    decreases queue.len() - i,
{
    if i < 0 || i >= queue.len() {
        None
    } else if queue[i].0@ == id {
        Some(i)
    } else {
        target_from(queue, id, i + 1)
    }
}

/// The place of a row's target in a queue.
pub fn target_place<T>(queue: &VecDeque<(String, T)>, id: &str) -> (r: Option<usize>)
    ensures
        match r {
            Some(k) => target_from(queue@, id@, 0) == Some(k as int) && k < queue@.len()
                && queue@[k as int].0@ == id@,
            None => target_from(queue@, id@, 0) is None,
        },
{
    let mut i: usize = 0;
    while i < queue.len()
        invariant
            i <= queue@.len(),
            target_from(queue@, id@, 0) == target_from(queue@, id@, i as int),
        decreases queue.len() - i,
    {
        if same(queue[i].0.as_str(), id) {
            return Some(i);
        }
        i = i + 1;
    }
    None
}

/// A queue with a row's target set: in its place where the row already waits,
/// at the end where it does not.
pub open spec fn with_target<T>(queue: Seq<(String, T)>, id: String, value: T) -> Seq<(String, T)> {
    match target_from(queue, id@, 0) {
        Some(k) => queue.update(k, (queue[k].0, value)),
        None => queue.push((id, value)),
    }
}

/// Keep only the latest unsent target of each row, in the rows' order.
pub fn queue_level<T>(queue: &mut VecDeque<(String, T)>, id: String, value: T)
    ensures
        final(queue)@ == with_target(old(queue)@, id, value),
{
    match target_place(queue, id.as_str()) {
        Some(k) => {
            match queue.remove(k) {
                Some((name, _)) => {
                    queue.insert(k, (name, value));
                    assert(queue@ =~= old(queue)@.update(k as int, (name, value)));
                },
                None => {},
            }
        },
        None => {
            queue.push_back((id, value));
        },
    }
}

/// A queue with an unsent target put back at its head, unless a newer one for
/// the same row is already waiting.
pub open spec fn with_target_back<T>(queue: Seq<(String, T)>, id: String, value: T) -> Seq<
    (String, T),
> {
    match target_from(queue, id@, 0) {
        Some(_) => queue,
        None => seq![(id, value)] + queue,
    }
}

/// Put an unsent target back at the head of the queue, unless a newer one for
/// the same row is already waiting.
pub fn requeue_level<T>(queue: &mut VecDeque<(String, T)>, id: String, value: T)
    ensures
        final(queue)@ == with_target_back(old(queue)@, id, value),
{
    if target_place(queue, id.as_str()).is_none() {
        queue.push_front((id, value));
    }
}

/// Whether each row waits at most once.
pub open spec fn one_per_row<T>(queue: Seq<(String, T)>) -> bool {
    forall|i: int, j: int|
        0 <= i < j < queue.len() ==> (#[trigger] queue[i]).0@ != (#[trigger] queue[j]).0@
}

/// What a place says of the rows of a queue.
pub proof fn target_place_is_first<T>(queue: Seq<(String, T)>, id: Seq<char>, i: int)
    requires
        0 <= i,
    ensures
        match target_from(queue, id, i) {
            Some(k) => i <= k < queue.len() && queue[k].0@ == id,
            None => forall|k: int| i <= k < queue.len() ==> (#[trigger] queue[k]).0@ != id,
        },
    decreases queue.len() - i,
{
    if i < queue.len() && queue[i].0@ != id {
        target_place_is_first(queue, id, i + 1);
    }
}

/// A held key never builds a backlog: each row waits at most once, with its
/// latest target, and the other rows keep their places and their targets.
pub proof fn only_the_latest_target_waits<T>(queue: Seq<(String, T)>, id: String, value: T)
    requires
        one_per_row(queue),
    ensures
        one_per_row(with_target(queue, id, value)),
        exists|k: int|
            0 <= k < with_target(queue, id, value).len() && (#[trigger] with_target(
                queue,
                id,
                value,
            )[k]).0@ == id@ && with_target(queue, id, value)[k].1 == value,
        forall|k: int|
            0 <= k < queue.len() && (#[trigger] queue[k]).0@ != id@ ==> with_target(
                queue,
                id,
                value,
            )[k] == queue[k],
{
    target_place_is_first(queue, id@, 0);
    let after = with_target(queue, id, value);
    match target_from(queue, id@, 0) {
        Some(k) => {
            assert(after[k].0@ == id@);
        },
        None => {
            assert(after[queue.len() as int].0@ == id@);
        },
    }
}

/// A target that could not be sent loses to a newer one for its row, and else
/// goes first; either way each row waits at most once.
pub proof fn a_newer_target_wins<T>(queue: Seq<(String, T)>, id: String, value: T)
    requires
        one_per_row(queue),
    ensures
        one_per_row(with_target_back(queue, id, value)),
        (exists|k: int| 0 <= k < queue.len() && (#[trigger] queue[k]).0@ == id@)
            ==> with_target_back(queue, id, value) == queue,
        (forall|k: int| 0 <= k < queue.len() ==> (#[trigger] queue[k]).0@ != id@)
            ==> with_target_back(queue, id, value) == seq![(id, value)] + queue,
{
    target_place_is_first(queue, id@, 0);
    let after = with_target_back(queue, id, value);
    if target_from(queue, id@, 0) is None {
        assert forall|i: int, j: int| 0 <= i < j < after.len() implies (#[trigger] after[i]).0@ != (
        #[trigger] after[j]).0@ by {
            if i > 0 {
                assert(after[i] == queue[i - 1]);
            }
            assert(after[j] == queue[j - 1]);
        }
    }
}

/// A row of a room shows its own device: under its name and icon, driven by its
/// own provider, and by an id that leads back to it. What no list can drive has a
/// row with a screen of its own.
pub proof fn a_row_is_driven_by_its_own_provider(device: Device)
    requires
        packaged_row(device) is None,
    ensures
        ({
            let row = device_entry(device);
            &&& row.name == device.name@ && row.icon == device.icon
            &&& row.state is None && row.activity is None && row.plugin is None && !row.unpaired
            &&& match device.integration {
                Some(Integration::Hue { light_id }) => if begins(light_id@, "scene:"@) {
                    row.id == "device:"@ + device.id@ && !row.hue && !row.matter
                } else {
                    row.id == "hue:"@ + light_id@ && row.hue && !row.matter
                },
                Some(Integration::Matter { device: node }) => row.id == "matter:"@ + node@
                    && row.matter && !row.hue,
                Some(Integration::HomeAssistant { entity_id }) => {
                    let kind = domain(entity_id@);
                    &&& !row.hue && !row.matter
                    &&& row.id == if kind == "light"@ || kind == "cover"@ || kind == "climate"@ {
                        entity_id@
                    } else {
                        "device:"@ + device.id@
                    }
                },
                _ => row.id == "device:"@ + device.id@ && !row.hue && !row.matter,
            }
            &&& row.media <==> (device.integration matches Some(i) && i is Sonos)
        }),
{
}

/// A packaged lamp or blind has a row by its connection and its name there; what
/// it is, is what its connection declares, else what it saved of itself, and a
/// lamp where it saved nothing. Nothing else of a package has such a row.
pub proof fn a_packaged_child_is_what_it_is_declared_to_be(device: Device)
    ensures
        match device.integration {
            Some(Integration::Plugin { connection_id, resource_id, child: Some(child), .. }) => {
                let cover = device.component == Some(ChildComponent::Cover)
                    || device.component is None && child.cover is Some;
                let lamp = device.component == Some(ChildComponent::Light)
                    || device.component is None && child.cover is None && !child.climate;
                match packaged_row(device) {
                    Some(row) => {
                        &&& cover || lamp
                        &&& row.cover <==> cover
                        &&& row.connection == connection_id && row.resource == resource_id
                        &&& row.snapshot == child
                        &&& device_entry(device).plugin == Some(row)
                        &&& device_entry(device).id == "plugin:"@ + connection_id@ + "/"@
                            + resource_id@
                        &&& device_entry(device).name == device.name@
                        &&& device_entry(device).icon == device.icon
                    },
                    None => !cover && !lamp,
                }
            },
            _ => packaged_row(device) is None,
        },
{
}

/// The rows of a room are its pinned activities and then its devices, one for
/// each, in their order.
pub proof fn a_room_lists_its_activities_and_then_its_devices(
    config: Config,
    room: crate::model::Room,
    k: int,
)
    requires
        0 <= k < room.devices@.len(),
    ensures
        ({
            let rows = room_rows(config, room);
            let pinned = rows.len() - room.devices@.len();
            &&& pinned == activities_from(config.activities@, room.id@, 0)
            &&& rows[pinned + k] == device_entry(room.devices@[k])
            &&& forall|i: int|
                0 <= i < pinned ==> (#[trigger] rows[i]).activity is Some && rows[i].plugin is None
        }),
{
    pinned_rows_are_activities(config, room.id@, 0);
}

proof fn pinned_rows_are_activities(config: Config, room: Seq<char>, i: int)
    requires
        0 <= i,
    ensures
        activity_entries(config, room, i).len() == activities_from(config.activities@, room, i),
        forall|k: int|
            0 <= k < activity_entries(config, room, i).len() ==> (#[trigger] activity_entries(
                config,
                room,
                i,
            )[k]).activity is Some && activity_entries(config, room, i)[k].plugin is None,
    decreases config.activities@.len() - i,
{
    if i < config.activities@.len() {
        pinned_rows_are_activities(config, room, i + 1);
        if config.activities@[i].room@ == room {
            let rest = activity_entries(config, room, i + 1);
            let all = activity_entries(config, room, i);
            assert(all =~= seq![activity_entry(config, config.activities@[i])] + rest);
            assert forall|k: int| 0 <= k < all.len() implies (#[trigger] all[k]).activity is Some
                && all[k].plugin is None by {
                if k > 0 {
                    assert(all[k] == rest[k - 1]);
                }
            }
        }
    }
}

/// One activity more that is pinned to a room is one row more above its devices,
/// and one that is pinned elsewhere is none.
pub proof fn a_pinned_activity_is_one_row(activities: Seq<Activity>, room: Seq<char>, i: int)
    requires
        0 <= i < activities.len(),
    ensures
        activities[i].room@ == room ==> activities_from(activities, room, i) == 1
            + activities_from(activities, room, i + 1),
        activities[i].room@ != room ==> activities_from(activities, room, i) == activities_from(
            activities,
            room,
            i + 1,
        ),
{
}

/// An activity's row: its own name and kind, the device it plays from and its
/// room, and an id that leads back to it.
pub proof fn an_activitys_row_names_its_source_and_room(
    config: Config,
    activity: Activity,
    source: String,
)
    ensures
        ({
            let row = activity_entry(config, activity);
            let place = match config.spec_room(activity.room@) {
                Some(room) => room.name@,
                None => Seq::empty(),
            };
            &&& row.id == "activity:"@ + activity.id@ && row.name == activity.name@
            &&& row.plugin is None && row.state is None && !row.hue && !row.matter && !row.media
            &&& row.activity matches Some((glyph, line)) && glyph == activity.glyph && {
                &&& activity.source is None ==> line == "Choose a source"@ + " · "@ + place
                &&& activity.source == Some(source) ==> match config.spec_device(source@) {
                    Some(device) => line == device.name@ + " · "@ + place,
                    None => line == "Choose a source"@ + " · "@ + place,
                }
            }
        }),
{
    reveal_strlit("");
    assert(""@ =~= Seq::<char>::empty());
}

/// What OK on a row opens a screen for: a packaged child by what it declares, and
/// any other by what it reads.
pub proof fn a_screen_opens_where_there_are_controls(row: Row)
    ensures
        row.plugin is None && row.state is None ==> !opens(row),
        row.plugin is None ==> (row.state matches Some(DeviceState::Light(light)) ==> (opens(row)
            <==> light.dimmable || light.mirek_range is Some)),
        row.plugin is None ==> (row.state matches Some(DeviceState::Cover(cover)) ==> (opens(row)
            <==> cover.can_set_position || cover.can_stop)),
        row.plugin is None ==> (row.state matches Some(DeviceState::Climate(_)) ==> !opens(row)),
        row.plugin matches Some(p) ==> (p.cover ==> (opens(row) <==> (
        p.snapshot.cover matches Some(t) && (t.position || t.stop)))),
        row.plugin matches Some(p) ==> (!p.cover ==> (opens(row) <==> (
        p.snapshot.light matches Some(t) && (t.dimmable || t.mirek is Some)))),
{
}

/// What a row is before it was read: a packaged child what it declared, a Home
/// Assistant blind a blind, and anything else a plain lamp.
pub proof fn a_row_is_drawn_as_what_it_declares(row: Row)
    ensures
        ({
            let d = declared_of(row);
            match row.plugin {
                None => {
                    &&& d.cover <==> domain(row.id) == "cover"@
                    &&& !d.can_stop && !d.dimmable && d.mirek is None
                },
                Some(p) => {
                    &&& d.cover == p.cover
                    &&& d.can_stop <==> (p.snapshot.cover matches Some(t) && t.stop)
                    &&& d.dimmable <==> (p.snapshot.light matches Some(t) && t.dimmable)
                    &&& p.snapshot.light matches Some(t) ==> d.mirek == t.mirek
                    &&& p.snapshot.light is None ==> d.mirek is None
                },
            }
        }),
{
}

/// The chevron stands on no activity, on a device's row unless it waits for its
/// package, and on any other row that opens a screen. A device that waits says so
/// on its line instead.
pub proof fn a_device_that_waits_for_its_package_says_so(
    config: Config,
    row: Row,
    device: Seq<char>,
)
    requires
        row.id == "device:"@ + device,
        !begins(device, "device:"@),
    ensures
        row.activity is Some ==> !promises_a_screen(Some(config), row),
        row.activity is None ==> match config.spec_device(device) {
            Some(found) => match found.integration {
                Some(Integration::Legacy { needs_package }) => {
                    &&& !promises_a_screen(Some(config), row)
                    &&& device_detail(Some(config), row.id) == needs_package@
                },
                _ => {
                    &&& promises_a_screen(Some(config), row)
                    &&& device_detail(Some(config), row.id) == "Press OK for controls"@
                },
            },
            None => {
                &&& promises_a_screen(Some(config), row)
                &&& device_detail(Some(config), row.id) == "Press OK for controls"@
            },
        },
{
    reveal_strlit("device:");
    assert(row.id.subrange(0, 7) =~= "device:"@);
    assert(row.id.subrange(7, row.id.len() as int) =~= device);
    reveal_with_fuel(bare, 3);
}

/// Which screen a device opens: infrared or Bluetooth where it has no network, a
/// speaker's and a package's by the device, and a television's by its own
/// connection, else by the first of its kind. A lamp or a blind of a package opens
/// none.
pub proof fn a_device_opens_its_own_screen(config: Config, id: Seq<char>)
    requires
        config.spec_device(id) is Some,
    ensures
        ({
            let device = config.spec_device(id)->0;
            let target = screen_target(config, id);
            if device.network is None && device.ir {
                target == Some("ir:"@ + id)
            } else if device.network is None && device.bluetooth is Some {
                target == Some("bt:"@ + id)
            } else {
                let own = |provider: Provider|
                    match (device.connection, provider_from(config.connections@, provider, 0)) {
                        (Some(connection), _) => target == Some(connection@),
                        (None, Some(first)) => target == Some(first.id@),
                        (None, None) => target is None,
                    };
                match device.integration {
                    Some(Integration::Sonos { .. }) => target == Some("sonos:"@ + id),
                    Some(Integration::Plugin { .. }) => if packaged_row(device) is None {
                        target == Some("plugin:"@ + id)
                    } else {
                        target is None
                    },
                    Some(Integration::WebOs) => own(Provider::WebOs),
                    Some(Integration::AndroidTv) => own(Provider::AndroidTv),
                    Some(Integration::AppleTv) => own(Provider::AppleTv),
                    Some(Integration::Tizen) => own(Provider::Tizen),
                    _ => target is None,
                }
            }
        }),
{
}

/// The first connection of a kind is of that kind, and none comes before it.
pub proof fn the_first_connection_of_a_kind(
    connections: Seq<Connection>,
    provider: Provider,
    i: int,
)
    requires
        0 <= i,
    ensures
        match provider_from(connections, provider, i) {
            Some(found) => exists|k: int|
                i <= k < connections.len() && #[trigger] connections[k] == found && found.provider
                    == provider && forall|j: int|
                    i <= j < k ==> (#[trigger] connections[j]).provider != provider,
            None => forall|j: int|
                i <= j < connections.len() ==> (#[trigger] connections[j]).provider != provider,
        },
    decreases connections.len() - i,
{
    if i < connections.len() {
        if connections[i].provider == provider {
            assert(connections[i] == provider_from(connections, provider, i)->0);
        } else {
            the_first_connection_of_a_kind(connections, provider, i + 1);
            if provider_from(connections, provider, i) is Some {
                let found = provider_from(connections, provider, i)->0;
                let k = choose|k: int|
                    i + 1 <= k < connections.len() && #[trigger] connections[k] == found
                        && found.provider == provider && forall|j: int|
                        i + 1 <= j < k ==> (#[trigger] connections[j]).provider != provider;
                assert(connections[k] == found);
            }
        }
    }
}

/// The kind of a Home Assistant entity is what stands before its point, whatever
/// its connection; a packaged child has none.
pub proof fn an_entitys_kind_stands_before_its_point(
    connection: Seq<char>,
    kind: Seq<char>,
    name: Seq<char>,
)
    requires
        !connection.contains('/') && !kind.contains('/') && !kind.contains('.')
            && !name.contains('/'),
        connection.len() > 0,
        !begins(connection + "/"@ + (kind + "."@ + name), PLUGIN_PREFIX@),
    ensures
        domain(connection + "/"@ + (kind + "."@ + name)) == kind,
{
    let raw = kind + "."@ + name;
    crate::connections::a_scoped_name_splits_back(connection, raw);
    reveal_strlit(".");
    the_point_ends_the_kind(kind, "."@ + name);
    assert(raw =~= kind + ("."@ + name));
    assert(raw.subrange(0, kind.len() as int) =~= kind);
}

proof fn the_point_ends_the_kind(kind: Seq<char>, rest: Seq<char>)
    requires
        !kind.contains('.'),
        rest.len() > 0,
        rest[0] == '.',
    ensures
        first_of(kind + rest, '.') == kind.len(),
    decreases kind.len(),
{
    if kind.len() == 0 {
        assert(kind + rest =~= rest);
    } else {
        let tail = kind.subrange(1, kind.len() as int);
        assert(kind[0] != '.');
        assert forall|i: int| 0 <= i < tail.len() implies tail[i] != '.' by {
            assert(kind[i + 1] != '.');
        }
        the_point_ends_the_kind(tail, rest);
        assert((kind + rest).subrange(1, (kind + rest).len() as int) =~= tail + rest);
        assert((kind + rest)[0] == kind[0]);
    }
}

/// The words of a list that cannot be shown.
pub proof fn a_list_that_cannot_be_shown_says_why()
    ensures
        ListError::Unreadable.spec_text() == "Cannot read your rooms"@,
        ListError::RoomRemoved.spec_text() == "This room was removed; return home to reload"@,
{
}

/// A level is a blind's position or a lamp's brightness, and never a colour.
pub proof fn a_level_is_sent_as_what_the_row_is(row: PluginRow, percent: u8)
    ensures
        row.cover ==> row.spec_level(percent) == (TypedAction::SetCover { position: percent }),
        !row.cover ==> row.spec_level(percent) == (TypedAction::SetLight {
            brightness: Some(percent),
            mirek: None,
        }),
{
}

} // verus!
