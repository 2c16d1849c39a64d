//! What the remote is configured with and what its devices report, as plain
//! values: the part of each that the decisions in this crate read.
use crate::commands::Binding;
use crate::text::same;
use vstd::prelude::*;

verus! {

/// The picture a room or a device is drawn with.
#[derive(Clone, Copy, PartialEq, Eq, Structural, Debug)]
pub enum Icon {
    Sofa,
    Bed,
    CookingPot,
    BookOpen,
    DoorOpen,
    Car,
    Trees,
    Lamp,
    Tv,
    /// Any other picture, by its place in the catalogue of pictures.
    Other(u32),
}

/// What a light declares that it can do.
#[derive(Clone, Copy, PartialEq, Eq, Debug)]
pub struct LightTraits {
    pub dimmable: bool,
    /// The coolest and the warmest colour temperature, in mirek.
    pub mirek: Option<(u16, u16)>,
    pub color: bool,
}

/// What a blind declares that it can do.
#[derive(Clone, Copy, PartialEq, Eq, Structural, Debug)]
pub struct CoverTraits {
    pub position: bool,
    pub stop: bool,
}

/// What a child of a packaged connection saved about itself.
#[derive(Clone, Copy, PartialEq, Eq, Debug)]
pub struct ChildSnapshot {
    pub light: Option<LightTraits>,
    pub cover: Option<CoverTraits>,
    /// Whether the child saved thermostat traits.
    pub climate: bool,
}

/// Which built-in control a child is drawn with.
#[derive(Clone, Copy, PartialEq, Eq, Structural, Debug)]
pub enum ChildComponent {
    Light,
    Cover,
    Climate,
    Scene,
    Camera,
}

/// What a light reports.
#[derive(Clone, Copy, PartialEq, Eq, Structural, Debug)]
pub struct LightState {
    pub on: Option<bool>,
    pub brightness: Option<u8>,
    pub mirek: Option<u16>,
}

/// What a blind reports.
#[derive(Clone, Copy, PartialEq, Eq, Structural, Debug)]
pub struct CoverState {
    pub open: Option<bool>,
    pub position: Option<u8>,
}

/// A typed action that a package declares.
#[derive(Clone, Copy, PartialEq, Eq, Structural, Debug)]
pub enum ActionSchema {
    SetVolumeDb { min_tenths: i16, max_tenths: i16, step_tenths: u16 },
    Other,
}

/// A typed action that is sent to a package.
#[derive(Clone, Copy, PartialEq, Eq, Structural, Debug)]
pub enum TypedAction {
    SetVolumeDb { tenths: i16 },
    SetLight { brightness: Option<u8>, mirek: Option<u16> },
    SetCover { position: u8 },
}

/// Where a device is reached.
#[derive(Clone, Copy, PartialEq, Eq, Structural, Debug)]
pub enum Transport {
    Ip,
    Ir,
    Bluetooth,
}

/// The kinds of connection that the remote knows.
#[derive(Clone, Copy, PartialEq, Eq, Structural, Debug)]
pub enum Provider {
    HomeAssistant,
    Hue,
    Matter,
    Sonos,
    Kodi,
    WebOs,
    AndroidTv,
    AppleTv,
    Tizen,
    UnifiProtect,
    Plugin,
    Other,
}

/// A device's integration with its connection filled in.
#[derive(Debug)]
pub enum Integration {
    HomeAssistant { entity_id: String },
    Hue { light_id: String },
    Matter { device: String },
    Sonos { host: String },
    Kodi { host: String, port: u16 },
    WebOs,
    AndroidTv,
    AppleTv,
    Tizen,
    UnifiProtect { camera: String },
    Plugin {
        connection_id: String,
        resource_id: String,
        child: Option<ChildSnapshot>,
        actions: Vec<ActionSchema>,
    },
    /// A client that has moved to a package which is not installed yet: the
    /// sentence that says which.
    Legacy { needs_package: String },
    Other,
}

/// A pairing of the remote with a device over Bluetooth.
#[derive(Debug)]
pub struct Bond {
    /// Empty for a pairing that was made before addresses were kept.
    pub address: String,
}

/// Whether a device takes a command, and whether a held key repeats it.
#[derive(Clone, Copy, PartialEq, Eq, Structural, Debug)]
pub struct RowKey {
    pub supported: bool,
    pub repeats: bool,
}

/// What a device's row can do with the volume, mute and power keys.
#[derive(Clone, Copy, PartialEq, Eq, Structural, Debug)]
pub struct RowKeys {
    pub volume_up: RowKey,
    pub volume_down: RowKey,
    pub mute: RowKey,
    /// Whether the device takes a power toggle, power on and power off.
    pub toggle: bool,
    pub power_on: bool,
    pub power_off: bool,
    /// Whether a held power key repeats.
    pub power_repeats: bool,
}

#[derive(Debug)]
pub struct Device {
    pub id: String,
    pub name: String,
    pub icon: Icon,
    /// The connection that the device names, where it names one.
    pub connection: Option<String>,
    /// The device's integration, where its connection still exists.
    pub integration: Option<Integration>,
    /// The same for commands over the network, where the device takes any.
    pub network: Option<Integration>,
    /// A text that is the same for two devices of one integration, for those
    /// that name no connection.
    pub identity: Option<String>,
    /// How the connection declares that this child is drawn.
    pub component: Option<ChildComponent>,
    /// Whether a set of infrared codes is assigned.
    pub ir: bool,
    pub bluetooth: Option<Bond>,
    /// Whether the device is switched from its row.
    pub can_toggle: bool,
    /// Whether the device has a player screen, and whether it has any screen.
    pub player: bool,
    pub has_screen: bool,
    pub keys: RowKeys,
}

#[derive(Debug)]
pub struct Room {
    pub id: String,
    pub name: String,
    pub icon: Icon,
    /// What the room's card says of its devices, short and long.
    pub summary: String,
    pub detail: String,
    pub devices: Vec<Device>,
}

/// A tile of an activity's own page.
#[derive(Debug)]
pub struct Widget {
    pub label: String,
    pub icon: Option<Icon>,
    pub action: crate::commands::Action,
}

/// One of an activity's own pages.
#[derive(Debug)]
pub struct ActivityPage {
    pub title: String,
    pub widgets: Vec<Widget>,
}

#[derive(Debug)]
pub struct Activity {
    pub id: String,
    pub name: String,
    pub room: String,
    pub source: Option<String>,
    /// The glyph that stands for the kind of activity.
    pub glyph: i32,
    pub buttons: Vec<Binding>,
    pub pages: Vec<ActivityPage>,
}

#[derive(Debug)]
pub struct Scene {
    pub id: String,
    pub name: String,
    pub rooms: Vec<String>,
}

#[derive(Debug)]
pub struct Connection {
    pub id: String,
    pub name: String,
    pub provider: Provider,
}

/// A screen of the home page: the rooms, scenes and activities that it lists.
#[derive(Debug)]
pub struct Screen {
    pub id: String,
    pub name: String,
    pub rooms: Vec<String>,
    pub scenes: Vec<String>,
    pub activities: Vec<String>,
}

#[derive(Debug)]
pub struct Config {
    pub areas: Vec<Screen>,
    pub connections: Vec<Connection>,
    pub rooms: Vec<Room>,
    pub activities: Vec<Activity>,
    pub scenes: Vec<Scene>,
}

/// The first device of that name in a room, at or after a place.
pub open spec fn device_from(devices: Seq<Device>, id: Seq<char>, i: int) -> Option<Device>
    decreases devices.len() - i,
{
    if i < 0 || i >= devices.len() {
        None
    } else if devices[i].id@ == id {
        Some(devices[i])
    } else {
        device_from(devices, id, i + 1)
    }
}

/// The first device of that name in the rooms at or after a place.
pub open spec fn device_in_rooms(rooms: Seq<Room>, id: Seq<char>, i: int) -> Option<Device>
    decreases rooms.len() - i,
{
    if i < 0 || i >= rooms.len() {
        None
    } else {
        match device_from(rooms[i].devices@, id, 0) {
            Some(d) => Some(d),
            None => device_in_rooms(rooms, id, i + 1),
        }
    }
}

/// The first room of that name at or after a place.
pub open spec fn room_from(rooms: Seq<Room>, id: Seq<char>, i: int) -> Option<Room>
    decreases rooms.len() - i,
{
    if i < 0 || i >= rooms.len() {
        None
    } else if rooms[i].id@ == id {
        Some(rooms[i])
    } else {
        room_from(rooms, id, i + 1)
    }
}

/// The first connection of that name at or after a place.
pub open spec fn connection_from(connections: Seq<Connection>, id: Seq<char>, i: int) -> Option<
    Connection,
>
    decreases connections.len() - i,
{
    if i < 0 || i >= connections.len() {
        None
    } else if connections[i].id@ == id {
        Some(connections[i])
    } else {
        connection_from(connections, id, i + 1)
    }
}

/// The first device of that name in a room.
pub fn device_of<'a>(devices: &'a Vec<Device>, id: &str) -> (r: Option<&'a Device>)
    ensures
        match r {
            Some(d) => device_from(devices@, id@, 0) == Some(*d),
            None => device_from(devices@, id@, 0) is None,
        },
{
    let mut i: usize = 0;
    while i < devices.len()
        invariant
            i <= devices.len(),
            device_from(devices@, id@, 0) == device_from(devices@, id@, i as int),
        decreases devices.len() - i,
    {
        if same(devices[i].id.as_str(), id) {
            return Some(&devices[i]);
        }
        i = i + 1;
    }
    None
}

impl Config {
    /// The device of that name: the first, walking the rooms in order.
    pub open spec fn spec_device(self, id: Seq<char>) -> Option<Device> {
        device_in_rooms(self.rooms@, id, 0)
    }

    /// The room of that name.
    pub open spec fn spec_room(self, id: Seq<char>) -> Option<Room> {
        room_from(self.rooms@, id, 0)
    }

    /// The connection of that name.
    pub open spec fn spec_connection(self, id: Seq<char>) -> Option<Connection> {
        connection_from(self.connections@, id, 0)
    }

    /// The device of that name: the first, walking the rooms in order.
    pub fn device(&self, id: &str) -> (r: Option<&Device>)
        ensures
            match r {
                Some(d) => self.spec_device(id@) == Some(*d),
                None => self.spec_device(id@) is None,
            },
    {
        let mut i: usize = 0;
        while i < self.rooms.len()
            invariant
                i <= self.rooms.len(),
                self.spec_device(id@) == device_in_rooms(self.rooms@, id@, i as int),
            decreases self.rooms.len() - i,
        {
            let found = device_of(&self.rooms[i].devices, id);
            if found.is_some() {
                return found;
            }
            i = i + 1;
        }
        None
    }

    /// The room of that name.
    pub fn room(&self, id: &str) -> (r: Option<&Room>)
        ensures
            match r {
                Some(room) => self.spec_room(id@) == Some(*room),
                None => self.spec_room(id@) is None,
            },
    {
        let mut i: usize = 0;
        while i < self.rooms.len()
            invariant
                i <= self.rooms.len(),
                self.spec_room(id@) == room_from(self.rooms@, id@, i as int),
            decreases self.rooms.len() - i,
        {
            if same(self.rooms[i].id.as_str(), id) {
                return Some(&self.rooms[i]);
            }
            i = i + 1;
        }
        None
    }

    /// The connection of that name.
    pub fn connection(&self, id: &str) -> (r: Option<&Connection>)
        ensures
            match r {
                Some(c) => self.spec_connection(id@) == Some(*c),
                None => self.spec_connection(id@) is None,
            },
    {
        let mut i: usize = 0;
        while i < self.connections.len()
            invariant
                i <= self.connections.len(),
                self.spec_connection(id@) == connection_from(self.connections@, id@, i as int),
            decreases self.connections.len() - i,
        {
            if same(self.connections[i].id.as_str(), id) {
                return Some(&self.connections[i]);
            }
            i = i + 1;
        }
        None
    }
}

/// A device is found by its id, in the first room that has it.
pub proof fn a_device_is_found_by_its_id(devices: Seq<Device>, id: Seq<char>, i: int)
    requires
        0 <= i,
    ensures
        match device_from(devices, id, i) {
            Some(d) => d.id@ == id && exists|k: int|
                i <= k < devices.len() && #[trigger] devices[k] == d,
            None => forall|k: int| i <= k < devices.len() ==> (#[trigger] devices[k]).id@ != id,
        },
    decreases devices.len() - i,
{
    if i < devices.len() && devices[i].id@ != id {
        a_device_is_found_by_its_id(devices, id, i + 1);
    }
}

/// A device is found in whichever room it is in.
pub proof fn a_device_is_found_in_any_room(rooms: Seq<Room>, id: Seq<char>, i: int)
    requires
        0 <= i,
    ensures
        match device_in_rooms(rooms, id, i) {
            Some(d) => d.id@ == id,
            None => forall|k: int|
                i <= k < rooms.len() ==> device_from((#[trigger] rooms[k]).devices@, id, 0) is None,
        },
    decreases rooms.len() - i,
{
    if i < rooms.len() {
        a_device_is_found_by_its_id(rooms[i].devices@, id, 0);
        a_device_is_found_in_any_room(rooms, id, i + 1);
    }
}

/// A room is found by its id: the first.
pub proof fn a_room_is_found_by_its_id(rooms: Seq<Room>, id: Seq<char>, i: int)
    requires
        0 <= i,
    ensures
        match room_from(rooms, id, i) {
            Some(r) => r.id@ == id && exists|k: int|
                i <= k < rooms.len() && #[trigger] rooms[k] == r,
            None => forall|k: int| i <= k < rooms.len() ==> (#[trigger] rooms[k]).id@ != id,
        },
    decreases rooms.len() - i,
{
    if i < rooms.len() && rooms[i].id@ != id {
        a_room_is_found_by_its_id(rooms, id, i + 1);
    }
}

/// A connection is found by its id: the first.
pub proof fn a_connection_is_found_by_its_id(
    connections: Seq<Connection>,
    id: Seq<char>,
    i: int,
)
    requires
        0 <= i,
    ensures
        match connection_from(connections, id, i) {
            Some(c) => c.id@ == id && exists|k: int|
                i <= k < connections.len() && #[trigger] connections[k] == c,
            None => forall|k: int|
                i <= k < connections.len() ==> (#[trigger] connections[k]).id@ != id,
        },
    decreases connections.len() - i,
{
    if i < connections.len() && connections[i].id@ != id {
        a_connection_is_found_by_its_id(connections, id, i + 1);
    }
}

} // verus!
