//! The open room: its rows, its control screen, and the adjustments on their
//! way to its devices.
//!
//! The controller decides and remembers; the caller draws, and hands each
//! [`Job`] to the one worker. A job goes out only where the worker has room for
//! it, and [`Controller::sent`] is told whether it had.
use crate::commands::Reason;
use crate::connections::{given, is_listed, listed};
use crate::device_state::{
    brightness_after, brightness_step, cover_step, position_after, DeviceState, Refusal,
};
use crate::light_screen::{
    mirek_after, mirek_step, picture, range_wf, view_of, LightView, Picture,
};
use crate::light_work::{Adjustment, CoverButton};
use crate::lights::{
    a_newer_target_wins, bare, bare_device, configured, declared, declared_of, device_at,
    device_detail, device_row_detail, domain, ha_domain, needs_package, one_per_row,
    only_the_latest_target_waits, opens, opens_screen, package_needed, promises_a_screen,
    queue_level, requeue_level, room_rows, row_device, row_opens_a_screen, rows_of, screen_target,
    target_from, target_place, target_place_is_first, tv_connection, with_target,
    with_target_back, Entry, ListError, Row,
};
use crate::model::{Config, Device, Integration, Scene};
use crate::num::{clamp, clamped, later, later_than, next_generation, sign, signum, wrapped};
use crate::state_cache::{
    elapsed, fresh_from, others_from, since, with_reading, without_from, without_hue_from,
    StateCache,
};
use crate::text::{begins, decimal, number, same, starts_with};
use std::collections::VecDeque;
use vstd::prelude::*;

verus! {

/// How long a write may be out before the control screen says so.
pub const UPDATING_AFTER_MS: u64 = 1500;

/// How long a blind's requested position stands for where it is.
pub const TRAVEL_MS: u64 = 10_000;

/// How long the level card stays up.
pub const CARD_MS: u64 = 1000;

/// The least time between two adjustments.
pub const SEND_EVERY_MS: u64 = 100;

/// How many keys may wait for their infrared check.
pub const IR_WAITING: usize = 32;

/// The commands that a row's keys are tried as by infrared.
#[derive(Clone, Copy, PartialEq, Eq, Structural, Debug)]
pub enum IrFunction {
    VolumeUp,
    VolumeDown,
    Toggle,
}

impl IrFunction {
    /// The command's word.
    pub open spec fn spec_name(self) -> Seq<char> {
        match self {
            IrFunction::VolumeUp => "volume-up"@,
            IrFunction::VolumeDown => "volume-down"@,
            IrFunction::Toggle => "toggle"@,
        }
    }

    /// The command's word.
    pub fn name(&self) -> (r: &'static str)
        ensures
            r@ == self.spec_name(),
    {
        match self {
            IrFunction::VolumeUp => "volume-up",
            IrFunction::VolumeDown => "volume-down",
            IrFunction::Toggle => "toggle",
        }
    }
}

/// What the open control screen asks for.
#[derive(Clone, Copy, PartialEq, Eq, Structural, Debug)]
pub enum ScreenWord {
    Close,
    Home,
    Button,
    Level,
    Warmth,
    Toggle,
    Cover,
    Unknown,
}

/// What a word of the control screen asks for.
pub open spec fn screen_word_of(name: Seq<char>) -> ScreenWord {
    if name == "close"@ {
        ScreenWord::Close
    } else if name == "home"@ {
        ScreenWord::Home
    } else if name == "button"@ {
        ScreenWord::Button
    } else if name == "level"@ {
        ScreenWord::Level
    } else if name == "warmth"@ {
        ScreenWord::Warmth
    } else if name == "toggle"@ {
        ScreenWord::Toggle
    } else if name == "cover"@ {
        ScreenWord::Cover
    } else {
        ScreenWord::Unknown
    }
}

/// What a word of the control screen asks for.
pub fn screen_word(name: &str) -> (r: ScreenWord)
    ensures
        r == screen_word_of(name@),
{
    if same(name, "close") {
        ScreenWord::Close
    } else if same(name, "home") {
        ScreenWord::Home
    } else if same(name, "button") {
        ScreenWord::Button
    } else if same(name, "level") {
        ScreenWord::Level
    } else if same(name, "warmth") {
        ScreenWord::Warmth
    } else if same(name, "toggle") {
        ScreenWord::Toggle
    } else if same(name, "cover") {
        ScreenWord::Cover
    } else {
        ScreenWord::Unknown
    }
}

/// Something that the user did. The physical ones are tried by infrared first.
#[derive(Debug)]
pub enum Input {
    PhysicalPick { row: usize, repeat: bool },
    PhysicalLevel { row: usize, delta: i32, repeat: bool },
    PhysicalPower { row: usize, repeat: bool },
    Open(String),
    Pick(usize),
    Power(usize),
    Brightness { row: usize, delta: i32 },
    Back,
    Screen { word: ScreenWord, index: i32 },
}

/// A key that is tried by infrared, and what it does where infrared does not
/// take it.
#[derive(Debug)]
pub struct IrJob {
    pub device: String,
    pub function: IrFunction,
    pub repeat: bool,
    /// The configuration that the key was pressed under.
    pub version: u64,
    pub resume: Input,
}

/// What the worker is asked.
#[derive(Debug)]
pub enum Operation {
    Ir(IrJob),
    /// Read every row.
    List,
    Adjust { id: String, adjustment: Adjustment },
}

#[derive(Debug)]
pub struct Job {
    pub generation: u64,
    pub room: String,
    pub operation: Operation,
}

/// What the worker answers.
#[derive(Debug)]
pub enum Reply {
    IrChecked { handled: bool, resume: Input },
    List(Vec<Entry>),
    State(DeviceState),
    /// Nothing was sent and nothing is wrong.
    Busy,
    Failed(Reason),
}

/// What occupies the one operation slot.
#[derive(Debug)]
pub enum Claim {
    Row(String),
    Ir,
}

/// A line that the list or the control screen shows.
#[derive(Debug)]
pub enum Line {
    Empty,
    Checking,
    CheckingLight,
    ConnectionBusy,
    CannotStop,
    StillSending,
    NoControls,
    AddDevices,
    Refused(Refusal),
    List(ListError),
}

impl Line {
    /// The text of the line.
    pub open spec fn spec_text(self) -> Seq<char> {
        match self {
            Line::Empty => ""@,
            Line::Checking => "Checking this device’s status. Try again in a moment."@,
            Line::CheckingLight => "Checking this light's status. Try again in a moment."@,
            Line::ConnectionBusy => "Connection busy. Press OK again in a moment."@,
            Line::CannotStop => "This blind cannot be stopped part way."@,
            Line::StillSending => "Still sending the last one."@,
            Line::NoControls => "Controls for this device are not available yet."@,
            Line::AddDevices => "Add devices to this room in the web editor."@,
            Line::Refused(refusal) => refusal.spec_text(),
            Line::List(error) => error.spec_text(),
        }
    }

    /// The text of the line.
    pub fn text(&self) -> (r: &'static str)
        ensures
            r@ == self.spec_text(),
    {
        match self {
            Line::Empty => "",
            Line::Checking => "Checking this device’s status. Try again in a moment.",
            Line::CheckingLight => "Checking this light's status. Try again in a moment.",
            Line::ConnectionBusy => "Connection busy. Press OK again in a moment.",
            Line::CannotStop => "This blind cannot be stopped part way.",
            Line::StillSending => "Still sending the last one.",
            Line::NoControls => "Controls for this device are not available yet.",
            Line::AddDevices => "Add devices to this room in the web editor.",
            Line::Refused(refusal) => refusal.text(),
            Line::List(error) => error.text(),
        }
    }
}

/// What the caller shows or opens.
#[derive(Debug)]
pub enum Effect {
    /// The line over the list.
    Detail(Line),
    /// The line on the control screen.
    ScreenDetail(Line),
    /// Both lines, in the words of what failed.
    Failed(Reason),
    HideCard,
    /// The level card over the list, under its [`card_label`].
    Card { name: String, cover: bool, percent: u8 },
    /// The thermostat screen, or one step of the thermostat where there is one.
    Thermostat { device: Option<String>, row: String, name: String, step: Option<i32> },
    OpenActivity { row: String },
    OpenCamera { row: String, name: String },
    OpenPlayer { row: String },
    OpenTv { row: String, name: String },
    OpenScreen,
    CloseScreen { home: bool },
    /// Draw the control screen.
    Draw,
    /// The list of a room, under its [`heading`].
    ShowList { room: String },
    LeaveList,
    /// Draw the rows; from scratch where `reset` says so.
    UpdateRows { reset: bool },
    FocusList,
}

/// What a card's level is called.
pub open spec fn label_of(cover: bool) -> Seq<char> {
    if cover {
        "Open position"@
    } else {
        "Brightness"@
    }
}

/// What the level card calls its level.
pub fn card_label(cover: bool) -> (r: &'static str)
    ensures
        r@ == label_of(cover),
        r@ == if cover {
            "Open position"@
        } else {
            "Brightness"@
        },
{
    if cover {
        "Open position"
    } else {
        "Brightness"
    }
}

/// What stands over a room's list.
#[derive(Debug)]
pub struct Heading {
    pub title: String,
    /// The room's scene, or how many it has.
    pub scene_label: String,
    pub scenes: usize,
}

/// The names of a room's scenes, at or after a place.
pub open spec fn scenes_in(scenes: Seq<Scene>, room: Seq<char>, i: int) -> Seq<String>
    decreases scenes.len() - i,
{
    if i < 0 || i >= scenes.len() {
        Seq::empty()
    } else if listed(scenes[i].rooms@, room) {
        seq![scenes[i].name] + scenes_in(scenes, room, i + 1)
    } else {
        scenes_in(scenes, room, i + 1)
    }
}

/// Whether a heading is that of a room with these scenes.
pub open spec fn heads(config: Option<Config>, room: Seq<char>, heading: Heading) -> bool {
    let names = match config {
        Some(c) => scenes_in(c.scenes@, room, 0),
        None => Seq::empty(),
    };
    &&& heading.title@ == (match config {
        Some(c) => match c.spec_room(room) {
            Some(found) => found.name@,
            None => "Room"@,
        },
        None => "Room"@,
    })
    &&& heading.scenes == names.len()
    &&& heading.scene_label@ == if names.len() == 1 {
        names[0]@
    } else {
        decimal(names.len()) + " scenes"@
    }
}

/// What stands over a room's list: its name, and the scenes that it has.
pub fn heading(config: Option<&Config>, room: &str) -> (r: Heading)
    ensures
        heads(given(config), room@, r),
{
    let mut names: Vec<String> = Vec::new();
    let mut title = "Room".to_owned();
    match config {
        Some(c) => {
            match c.room(room) {
                Some(found) => {
                    title = found.name.clone();
                },
                None => {},
            }
            let mut i: usize = 0;
            assert(names@ + scenes_in(c.scenes@, room@, 0) =~= scenes_in(c.scenes@, room@, 0));
            while i < c.scenes.len()
                invariant
                    i <= c.scenes.len(),
                    names@ + scenes_in(c.scenes@, room@, i as int) == scenes_in(
                        c.scenes@,
                        room@,
                        0,
                    ),
                decreases c.scenes.len() - i,
            {
                let ghost before = names@;
                if is_listed(&c.scenes[i].rooms, room) {
                    names.push(c.scenes[i].name.clone());
                    assert(names@ + scenes_in(c.scenes@, room@, i + 1) =~= before + scenes_in(
                        c.scenes@,
                        room@,
                        i as int,
                    ));
                }
                i = i + 1;
            }
            assert(names@ =~= scenes_in(c.scenes@, room@, 0));
        },
        None => {},
    }
    let scenes: usize = names.len();
    let scene_label = if scenes == 1 {
        names[0].clone()
    } else {
        let mut s = number(scenes as u64);
        s.append(" scenes");
        s
    };
    Heading { title, scene_label, scenes }
}

/// What follows something that happened: the effects, then the job, then the
/// effects after it.
#[derive(Debug)]
pub struct Step {
    pub effects: Vec<Effect>,
    pub send: Option<Job>,
    pub after: Vec<Effect>,
}

/// The same, as mathematical values.
#[verifier::ext_equal]
pub struct Outcome {
    pub effects: Seq<Effect>,
    pub send: Option<Job>,
    pub after: Seq<Effect>,
}

impl View for Step {
    type V = Outcome;

    open spec fn view(&self) -> Outcome {
        Outcome { effects: self.effects@, send: self.send, after: self.after@ }
    }
}

/// The open room and what is on its way to it.
#[derive(Debug)]
pub struct Controller {
    pub input: VecDeque<Input>,
    pub ir_pending: VecDeque<IrJob>,
    pub generation: u64,
    pub room: Option<String>,
    pub entries: Vec<Entry>,
    pub cache: StateCache,
    pub busy: Option<Claim>,
    /// When the operation that `busy` names went out.
    pub busy_since: Option<u64>,
    pub refreshing: bool,
    pub last_refresh: u64,
    pub brightness_pending: VecDeque<(String, u8)>,
    /// Where each blind was last sent, and when.
    pub position_targets: Vec<(String, u64, u8)>,
    pub brightness_flight: Option<(String, u8)>,
    pub brightness_until: Option<u64>,
    pub last_brightness_send: u64,
    pub mirek_pending: VecDeque<(String, u16)>,
    pub mirek_flight: Option<(String, u16)>,
    /// The row whose control screen is open.
    pub screen: Option<String>,
    pub screen_button: i32,
    pub notice: Option<String>,
}

/// The same, as mathematical values.
#[verifier::ext_equal]
pub struct Room {
    pub input: Seq<Input>,
    pub ir_pending: Seq<IrJob>,
    pub generation: u64,
    pub room: Option<String>,
    pub entries: Seq<Entry>,
    pub readings: Seq<(u64, DeviceState)>,
    pub busy: Option<Claim>,
    pub busy_since: Option<u64>,
    pub refreshing: bool,
    pub last_refresh: u64,
    pub levels: Seq<(String, u8)>,
    pub targets: Seq<(String, u64, u8)>,
    pub level_flight: Option<(String, u8)>,
    pub card_until: Option<u64>,
    pub last_send: u64,
    pub colours: Seq<(String, u16)>,
    pub colour_flight: Option<(String, u16)>,
    pub screen: Option<String>,
    pub screen_button: i32,
    pub notice: Option<String>,
}

impl View for Controller {
    type V = Room;

    open spec fn view(&self) -> Room {
        Room {
            input: self.input@,
            ir_pending: self.ir_pending@,
            generation: self.generation,
            room: self.room,
            entries: self.entries@,
            readings: self.cache.readings@,
            busy: self.busy,
            busy_since: self.busy_since,
            refreshing: self.refreshing,
            last_refresh: self.last_refresh,
            levels: self.brightness_pending@,
            targets: self.position_targets@,
            level_flight: self.brightness_flight,
            card_until: self.brightness_until,
            last_send: self.last_brightness_send,
            colours: self.mirek_pending@,
            colour_flight: self.mirek_flight,
            screen: self.screen,
            screen_button: self.screen_button,
            notice: self.notice,
        }
    }
}

/// Whether a reading's colour range runs from cool to warm.
pub open spec fn reading_wf(state: DeviceState) -> bool {
    state matches DeviceState::Light(light) ==> range_wf(light.mirek_range)
}

/// The same of a row's reading, where it has one.
pub open spec fn entry_wf(e: Entry) -> bool {
    e.state matches Some(s) ==> reading_wf(s)
}

/// The same of every row.
pub open spec fn entries_wf(entries: Seq<Entry>) -> bool {
    forall|k: int| 0 <= k < entries.len() ==> entry_wf(#[trigger] entries[k])
}

/// The same of every reading that is remembered.
pub open spec fn readings_wf(readings: Seq<(u64, DeviceState)>) -> bool {
    forall|k: int| 0 <= k < readings.len() ==> reading_wf((#[trigger] readings[k]).1)
}

/// A queue without its head.
pub open spec fn rest<T>(queue: Seq<T>) -> Seq<T> {
    if queue.len() > 0 {
        queue.subrange(1, queue.len() as int)
    } else {
        queue
    }
}

/// Whether a reading's colour range runs from cool to warm.
pub fn reading_ok(state: &DeviceState) -> (r: bool)
    ensures
        r == reading_wf(*state),
{
    match state {
        DeviceState::Light(light) => match light.mirek_range {
            Some((cool, warm)) => cool <= warm,
            None => true,
        },
        _ => true,
    }
}

/// The place of the row of that id, at or after a place.
pub open spec fn entry_place(entries: Seq<Entry>, id: Seq<char>, i: int) -> Option<int>
    decreases entries.len() - i,
{
    if i < 0 || i >= entries.len() {
        None
    } else if entries[i].id@ == id {
        Some(i)
    } else {
        entry_place(entries, id, i + 1)
    }
}

/// The blinds' targets without one row's, at or after a place.
pub open spec fn targets_without(targets: Seq<(String, u64, u8)>, id: Seq<char>, i: int) -> Seq<
    (String, u64, u8),
>
    decreases targets.len() - i,
{
    if i < 0 || i >= targets.len() {
        Seq::empty()
    } else if targets[i].0@ != id {
        seq![targets[i]] + targets_without(targets, id, i + 1)
    } else {
        targets_without(targets, id, i + 1)
    }
}

/// Where a blind was last sent, while that is recent, at or after a place.
pub open spec fn travelling(targets: Seq<(String, u64, u8)>, id: Seq<char>, now: u64, i: int) -> Option<
    u8,
>
    decreases targets.len() - i,
{
    if i < 0 || i >= targets.len() {
        None
    } else if targets[i].0@ == id {
        if elapsed(now, targets[i].1) < TRAVEL_MS {
            Some(targets[i].2)
        } else {
            None
        }
    } else {
        travelling(targets, id, now, i + 1)
    }
}

/// A queue without one row's targets, at or after a place.
pub open spec fn queue_without<T>(queue: Seq<(String, T)>, id: Seq<char>, i: int) -> Seq<(String, T)>
    decreases queue.len() - i,
{
    if i < 0 || i >= queue.len() {
        Seq::empty()
    } else if queue[i].0@ != id {
        seq![queue[i]] + queue_without(queue, id, i + 1)
    } else {
        queue_without(queue, id, i + 1)
    }
}

/// The rows with a new reading in those that it is filed under.
pub open spec fn with_state(entries: Seq<Entry>, state: DeviceState) -> Seq<Entry> {
    entries.map_values(
        |e: Entry| if e.id@ == state.spec_id()@ {
            Entry { state: Some(state), ..e }
        } else {
            e
        },
    )
}

/// What is remembered of the rows once a list has come in: each reading under
/// its row, and nothing of a row without one.
pub open spec fn list_readings(readings: Seq<(u64, DeviceState)>, entries: Seq<Entry>, now: u64, n: int) -> Seq<
    (u64, DeviceState),
>
    decreases n,
{
    if n <= 0 || n > entries.len() {
        readings
    } else {
        let before = list_readings(readings, entries, now, n - 1);
        match entries[n - 1].state {
            Some(s) => with_reading(before, s, now),
            None => without_from(before, entries[n - 1].id@, 0),
        }
    }
}

/// Whether a list shows other rows than another, or in another order.
pub open spec fn other_rows(a: Seq<Entry>, b: Seq<Entry>) -> bool {
    a.len() != b.len() || exists|k: int| 0 <= k < a.len() && (#[trigger] a[k]).id@ != b[k].id@
}

/// Whether infrared is tried before a row is switched: lamps and blinds whose
/// row is not a device's.
pub open spec fn switches(e: Entry) -> bool {
    e.hue || domain(e.id@) == "light"@ || domain(e.id@) == "cover"@
}

/// Whether the power key switches a row: not an activity, nor a device with a
/// screen of its own, nor a thermostat.
pub open spec fn takes_power(e: Entry) -> bool {
    e.activity is None && !begins(e.id@, "device:"@) && domain(e.id@) != "climate"@
}

/// A step that does nothing.
pub open spec fn nothing() -> Outcome {
    Outcome { effects: Seq::empty(), send: None, after: Seq::empty() }
}

/// A step with effects alone.
pub open spec fn shows(effects: Seq<Effect>) -> Outcome {
    Outcome { effects, send: None, after: Seq::empty() }
}

/// What a device row opens: a camera, a player, a television's screen, a notice
/// that a package is missing, or nothing.
pub open spec fn device_opens(config: Option<Config>, e: Entry) -> (Option<String>, Seq<Effect>) {
    let id = bare(e.id@, "device:"@);
    match config {
        None => (None, seq![Effect::Detail(Line::NoControls)]),
        Some(c) => match c.spec_device(id) {
            None => (None, seq![Effect::Detail(Line::NoControls)]),
            Some(d) => if d.integration matches Some(i) && i is UnifiProtect {
                (None, seq![Effect::OpenCamera { row: e.id, name: e.name }])
            } else if d.integration is Some && d.player {
                (None, seq![Effect::OpenPlayer { row: e.id }])
            } else if screen_target(c, id) is Some {
                (None, seq![Effect::OpenTv { row: e.id, name: e.name }])
            } else {
                match package_needed(c, id) {
                    Some(sentence) => (Some(sentence), Seq::empty()),
                    None => (None, seq![Effect::Detail(Line::NoControls)]),
                }
            },
        },
    }
}

impl Room {
    /// What every step keeps: readings with usable ranges, at most one target
    /// waiting for each row, and a control screen only over an open room.
    pub open spec fn wf(self) -> bool {
        &&& entries_wf(self.entries)
        &&& readings_wf(self.readings)
        &&& one_per_row(self.levels)
        &&& one_per_row(self.colours)
        &&& self.screen is Some ==> self.room is Some
    }

    /// No adjustment is waiting or out.
    pub open spec fn cleared(self) -> Room {
        Room {
            levels: Seq::empty(),
            colours: Seq::empty(),
            ir_pending: Seq::empty(),
            targets: Seq::empty(),
            level_flight: None,
            colour_flight: None,
            card_until: None,
            ..self
        }
    }

    /// The operation slot is taken.
    pub open spec fn claimed(self, claim: Claim, now: u64) -> Room {
        Room { busy: Some(claim), busy_since: Some(now), ..self }
    }

    /// The operation slot is free.
    pub open spec fn released(self) -> Room {
        Room { busy: None, busy_since: None, ..self }
    }

    /// The level that a row is driven towards: what waits, else what is out,
    /// else where a blind was lately sent.
    pub open spec fn pending_level(self, id: Seq<char>, now: u64) -> Option<u8> {
        match target_from(self.levels, id, 0) {
            Some(k) => Some(self.levels[k].1),
            None => match self.level_flight {
                Some((row, percent)) => if row@ == id {
                    Some(percent)
                } else {
                    travelling(self.targets, id, now, 0)
                },
                None => travelling(self.targets, id, now, 0),
            },
        }
    }

    /// The colour temperature that a row is driven towards.
    pub open spec fn pending_mirek(self, id: Seq<char>) -> Option<u16> {
        match target_from(self.colours, id, 0) {
            Some(k) => Some(self.colours[k].1),
            None => match self.colour_flight {
                Some((row, mirek)) => if row@ == id {
                    Some(mirek)
                } else {
                    None
                },
                None => None,
            },
        }
    }

    /// The device on a row of the open room.
    pub open spec fn device_on(self, config: Option<Config>, row: int) -> Option<Device> {
        match (self.room, config) {
            (Some(room), Some(c)) => row_device(c, room@, row),
            _ => None,
        }
    }

    /// A key waits for infrared where its device has codes, and goes on at once
    /// where it has none.
    pub open spec fn intercepted(
        self,
        config: Option<Config>,
        version: u64,
        row: int,
        function: IrFunction,
        repeat: bool,
        resume: Input,
    ) -> Room {
        match self.device_on(config, row) {
            Some(d) => if d.ir {
                if self.ir_pending.len() < IR_WAITING {
                    Room {
                        ir_pending: self.ir_pending.push(
                            IrJob { device: d.id, function, repeat, version, resume },
                        ),
                        ..self
                    }
                } else {
                    self
                }
            } else {
                Room { input: seq![resume] + self.input, ..self }
            },
            None => Room { input: seq![resume] + self.input, ..self },
        }
    }

    /// A row is switched: its blind's target no longer stands, and the worker is
    /// asked.
    pub open spec fn toggles(self, id: String) -> (Room, Outcome) {
        (
            Room { targets: targets_without(self.targets, id@, 0), ..self },
            Outcome {
                effects: Seq::empty(),
                send: Some(
                    Job {
                        generation: wrapped(self.generation),
                        room: self.room->0,
                        operation: Operation::Adjust { id, adjustment: Adjustment::Toggle },
                    },
                ),
                after: Seq::empty(),
            },
        )
    }

    /// Whether a row may be switched now: one operation at a time, and none
    /// while a level waits.
    pub open spec fn may_switch(self) -> bool {
        self.room is Some && self.busy is None && self.levels.len() == 0
    }

    /// The level that a key leaves a row at, or why it adjusts nothing.
    pub open spec fn level_after(self, e: Entry, delta: int, now: u64) -> Option<Result<int, Refusal>> {
        match e.state {
            Some(DeviceState::Light(light)) => Some(
                brightness_after(light, self.pending_level(e.id@, now), delta),
            ),
            Some(DeviceState::Cover(cover)) => Some(
                position_after(cover, self.pending_level(e.id@, now), delta),
            ),
            _ => None,
        }
    }

    /// A level key on a row: its target joins the queue and is shown at once. A
    /// thermostat takes the key itself, and a row without a reading none.
    pub open spec fn adjusts(self, config: Option<Config>, row: int, delta: int, now: u64) -> (
        Room,
        Outcome,
    ) {
        if row >= self.entries.len() {
            (self, nothing())
        } else {
            let e = self.entries[row];
            if domain(e.id@) == "climate"@ {
                (
                    self,
                    shows(
                        seq![
                            Effect::Thermostat {
                                device: match self.device_on(config, row) {
                                    Some(d) => Some(d.id),
                                    None => None,
                                },
                                row: e.id,
                                name: e.name,
                                step: Some(sign(delta) as i32),
                            },
                        ],
                    ),
                )
            } else if e.state is None {
                (self, shows(seq![Effect::Detail(Line::Checking)]))
            } else {
                match self.level_after(e, delta, now) {
                    None => (self, nothing()),
                    Some(Err(refusal)) => (
                        self,
                        shows(
                            seq![
                                Effect::Detail(Line::Refused(refusal)),
                                Effect::ScreenDetail(Line::Refused(refusal)),
                            ],
                        ),
                    ),
                    Some(Ok(level)) => {
                        let percent = level as u8;
                        let cover = e.state matches Some(DeviceState::Cover(_));
                        let card = self.screen is None;
                        (
                            Room {
                                levels: with_target(self.levels, e.id, percent),
                                targets: if cover {
                                    targets_without(self.targets, e.id@, 0).push(
                                        (e.id, now, percent),
                                    )
                                } else {
                                    self.targets
                                },
                                card_until: if card {
                                    Some(later(now, CARD_MS))
                                } else {
                                    self.card_until
                                },
                                ..self
                            },
                            shows(
                                (if card {
                                    seq![Effect::Card { name: e.name, cover, percent }]
                                } else {
                                    Seq::empty()
                                }) + seq![
                                    Effect::Detail(Line::Empty),
                                    Effect::ScreenDetail(Line::Empty),
                                ],
                            ),
                        )
                    },
                }
            }
        }
    }

    /// A colour key on a row.
    pub open spec fn tunes(self, row: int, delta: int) -> (Room, Seq<Effect>) {
        if row >= self.entries.len() {
            (self, Seq::empty())
        } else {
            let e = self.entries[row];
            match e.state {
                Some(DeviceState::Light(light)) => match mirek_after(
                    light,
                    self.pending_mirek(e.id@),
                    delta,
                ) {
                    Ok(mirek) => (
                        Room { colours: with_target(self.colours, e.id, mirek as u16), ..self },
                        seq![Effect::ScreenDetail(Line::Empty)],
                    ),
                    Err(refusal) => (self, seq![Effect::ScreenDetail(Line::Refused(refusal))]),
                },
                _ => (self, seq![Effect::ScreenDetail(Line::CheckingLight)]),
            }
        }
    }

    /// The place of the row whose control screen is open.
    pub open spec fn screen_row(self) -> Option<int> {
        match self.screen {
            Some(id) => entry_place(self.entries, id@, 0),
            None => None,
        }
    }

    /// The control screen is closed.
    pub open spec fn closed(self) -> Room {
        Room { screen: None, ..self }
    }

    /// A blind's button. Stop is sent only to a blind that has one.
    pub open spec fn moves_cover(self, row: int, button: int) -> (Room, Outcome) {
        if row >= self.entries.len() {
            (self, nothing())
        } else {
            let e = self.entries[row];
            let command = if button == 0 {
                CoverButton::Open
            } else if button == 1 {
                CoverButton::Stop
            } else {
                CoverButton::Close
            };
            let stops = (e.state matches Some(DeviceState::Cover(cover)) && cover.can_stop) || (
            e.plugin matches Some(p) && p.snapshot.cover matches Some(t) && t.stop);
            if command == CoverButton::Stop && !stops {
                (self, shows(seq![Effect::ScreenDetail(Line::CannotStop)]))
            } else if self.room is None {
                (self, nothing())
            } else if self.busy is Some {
                (self, shows(seq![Effect::ScreenDetail(Line::StillSending)]))
            } else {
                (
                    Room { targets: targets_without(self.targets, e.id@, 0), ..self },
                    Outcome {
                        effects: Seq::empty(),
                        send: Some(
                            Job {
                                generation: wrapped(self.generation),
                                room: self.room->0,
                                operation: Operation::Adjust {
                                    id: e.id,
                                    adjustment: Adjustment::Cover(command),
                                },
                            },
                        ),
                        after: Seq::empty(),
                    },
                )
            }
        }
    }

    /// Something that the open control screen asked for. A row that has left the
    /// room takes its screen with it.
    pub open spec fn screen_acts(self, config: Option<Config>, word: ScreenWord, index: i32, now: u64) -> (
        Room,
        Outcome,
    ) {
        match self.screen_row() {
            None => (self.closed(), shows(seq![Effect::CloseScreen { home: false }])),
            Some(row) => {
                let e = self.entries[row];
                match word {
                    ScreenWord::Close => (
                        self.closed(),
                        shows(seq![Effect::CloseScreen { home: false }]),
                    ),
                    ScreenWord::Home => (
                        self.closed(),
                        shows(seq![Effect::CloseScreen { home: true }]),
                    ),
                    ScreenWord::Button => drawn(
                        (
                            if Room::screen_cover(e) {
                                Room {
                                    screen_button: clamped(self.screen_button + index, 0, 2) as i32,
                                    ..self
                                }
                            } else {
                                self
                            },
                            nothing(),
                        ),
                    ),
                    ScreenWord::Level => drawn(
                        self.adjusts(config, row, sign(index as int) * 5, now),
                    ),
                    ScreenWord::Warmth => drawn(
                        if Room::screen_tunable(e) {
                            let (next, effects) = self.tunes(row, index as int);
                            (next, shows(effects))
                        } else {
                            (self, nothing())
                        },
                    ),
                    ScreenWord::Toggle => drawn(
                        if self.busy is None && self.levels.len() == 0 {
                            self.toggles(e.id)
                        } else {
                            (self, nothing())
                        },
                    ),
                    ScreenWord::Cover => drawn(
                        (Room { screen_button: clamped(index as int, 0, 2) as i32, ..self })
                            .moves_cover(row, index as int),
                    ),
                    ScreenWord::Unknown => drawn((self, nothing())),
                }
            },
        }
    }

    /// OK on a row: a thermostat, an activity and a device open what they have;
    /// a row with more than on and off opens its control screen; any other is
    /// switched.
    pub open spec fn picks(self, config: Option<Config>, row: int) -> (Room, Outcome) {
        if !self.may_switch() || row >= self.entries.len() {
            (self, nothing())
        } else {
            let e = self.entries[row];
            if domain(e.id@) == "climate"@ {
                (
                    self.cleared(),
                    shows(
                        seq![
                            Effect::HideCard,
                            Effect::Thermostat {
                                device: match self.device_on(config, row) {
                                    Some(d) => Some(d.id),
                                    None => None,
                                },
                                row: e.id,
                                name: e.name,
                                step: None,
                            },
                        ],
                    ),
                )
            } else if begins(e.id@, "activity:"@) {
                (self, shows(seq![Effect::OpenActivity { row: e.id }]))
            } else if begins(e.id@, "device:"@) {
                let (notice, effects) = device_opens(config, e);
                (
                    Room {
                        notice: if notice is Some {
                            notice
                        } else {
                            self.notice
                        },
                        ..self
                    },
                    shows(effects),
                )
            } else if opens(e@) {
                (
                    Room { screen: Some(e.id), screen_button: 0, ..self },
                    shows(seq![Effect::OpenScreen]),
                )
            } else {
                self.toggles(e.id)
            }
        }
    }

    /// The power key on a row.
    pub open spec fn powers(self, row: int) -> (Room, Outcome) {
        if !self.may_switch() || row >= self.entries.len() || !takes_power(self.entries[row]) {
            (self, nothing())
        } else {
            self.toggles(self.entries[row].id)
        }
    }

    /// The list is left: what was waiting is forgotten, and what is still out
    /// becomes stale.
    pub open spec fn left(self) -> (Room, Outcome) {
        (
            Room {
                screen: None,
                generation: wrapped(self.generation),
                room: None,
                refreshing: false,
                ..self.cleared().released()
            },
            shows(seq![Effect::HideCard, Effect::LeaveList]),
        )
    }

    /// A room is opened: with the rows that are configured, each with its
    /// reading where that is fresh, while the worker reads them again.
    pub open spec fn opened(
        self,
        config: Option<Config>,
        room: String,
        now: u64,
        next: Room,
        out: Outcome,
    ) -> bool {
        let base = Room {
            generation: wrapped(self.generation),
            room: Some(room),
            ..self.cleared().released()
        };
        let first = seq![
            Effect::HideCard,
            Effect::ShowList { room },
            Effect::Detail(Line::Empty),
        ];
        let last = seq![Effect::UpdateRows { reset: true }, Effect::FocusList];
        let rows = match config {
            Some(c) => match c.spec_room(room@) {
                Some(found) => Ok(room_rows(c, found)),
                None => Err(ListError::RoomRemoved),
            },
            None => Err(ListError::Unreadable),
        };
        match rows {
            Ok(rows) => {
                &&& next == (Room { entries: next.entries, last_refresh: now, ..base })
                &&& next.entries.len() == rows.len()
                &&& forall|k: int|
                    0 <= k < rows.len() ==> (#[trigger] next.entries[k])@ == (Row {
                        state: fresh_from(self.readings, rows[k].id, now, 0),
                        ..rows[k]
                    })
                &&& out == (Outcome {
                    effects: first,
                    send: Some(
                        Job { generation: base.generation, room, operation: Operation::List },
                    ),
                    after: (if rows.len() == 0 {
                        seq![Effect::Detail(Line::AddDevices)]
                    } else {
                        Seq::empty()
                    }) + last,
                })
            },
            Err(error) => {
                &&& next == (Room { entries: Seq::empty(), refreshing: false, ..base })
                &&& out == (Outcome {
                    effects: first.push(Effect::Detail(Line::List(error))),
                    send: None,
                    after: last,
                })
            },
        }
    }

    /// What an input does to a room that it has been taken from.
    pub open spec fn inputs(
        self,
        input: Input,
        config: Option<Config>,
        version: u64,
        now: u64,
        next: Room,
        out: Outcome,
    ) -> bool {
        match input {
            Input::PhysicalLevel { row, delta, repeat } => {
                &&& out == nothing()
                &&& next == self.intercepted(
                    config,
                    version,
                    row as int,
                    if delta > 0 {
                        IrFunction::VolumeUp
                    } else {
                        IrFunction::VolumeDown
                    },
                    repeat,
                    Input::Brightness { row, delta },
                )
            },
            Input::PhysicalPick { row, repeat } => {
                &&& out == nothing()
                &&& next == if row < self.entries.len() && switches(self.entries[row as int]) {
                    self.intercepted(
                        config,
                        version,
                        row as int,
                        IrFunction::Toggle,
                        repeat,
                        Input::Pick(row),
                    )
                } else {
                    Room { input: seq![Input::Pick(row)] + self.input, ..self }
                }
            },
            Input::PhysicalPower { row, repeat } => {
                &&& out == nothing()
                &&& next == if row < self.entries.len() && switches(self.entries[row as int]) {
                    self.intercepted(
                        config,
                        version,
                        row as int,
                        IrFunction::Toggle,
                        repeat,
                        Input::Power(row),
                    )
                } else {
                    Room { input: seq![Input::Power(row)] + self.input, ..self }
                }
            },
            Input::Power(row) => (next, out) == self.powers(row as int),
            Input::Open(room) => self.opened(config, room, now, next, out),
            Input::Back => (next, out) == self.left(),
            Input::Brightness { row, delta } => (next, out) == if self.room is Some {
                self.adjusts(config, row as int, delta as int, now)
            } else {
                (self, nothing())
            },
            Input::Pick(row) => (next, out) == self.picks(config, row as int),
            Input::Screen { word, index } => (next, out) == self.screen_acts(
                config,
                word,
                index,
                now,
            ),
        }
    }

    /// The worker took a job.
    pub open spec fn accepted(self, job: Job, now: u64) -> (Room, Seq<Effect>) {
        let next = Room { generation: job.generation, ..self };
        match job.operation {
            Operation::Ir(_) => (next.claimed(Claim::Ir, now), Seq::empty()),
            Operation::List => (Room { refreshing: true, ..self }, Seq::empty()),
            Operation::Adjust { id, adjustment } => {
                let taken = next.claimed(Claim::Row(id), now);
                match adjustment {
                    Adjustment::Toggle => (
                        Room { refreshing: false, ..taken },
                        seq![Effect::Detail(Line::Empty), Effect::UpdateRows { reset: false }],
                    ),
                    Adjustment::Cover(_) => (
                        Room { refreshing: false, ..taken },
                        seq![Effect::ScreenDetail(Line::Empty)],
                    ),
                    Adjustment::Brightness(percent) => (
                        Room {
                            level_flight: Some((id, percent)),
                            levels: rest(self.levels),
                            last_send: now,
                            ..taken
                        },
                        Seq::empty(),
                    ),
                    Adjustment::Mirek(mirek) => (
                        Room {
                            colour_flight: Some((id, mirek)),
                            colours: rest(self.colours),
                            last_send: now,
                            ..taken
                        },
                        Seq::empty(),
                    ),
                }
            },
        }
    }

    /// The worker had no room for a job.
    pub open spec fn declined(self, job: Job) -> (Room, Seq<Effect>) {
        match job.operation {
            Operation::Ir(work) => (
                Room { ir_pending: seq![work] + self.ir_pending, ..self },
                Seq::empty(),
            ),
            Operation::List => (Room { refreshing: false, ..self }, Seq::empty()),
            Operation::Adjust { adjustment, .. } => (
                self,
                if adjustment == Adjustment::Toggle {
                    seq![Effect::Detail(Line::ConnectionBusy)]
                } else {
                    Seq::empty()
                },
            ),
        }
    }

    /// What an answer of the worker does. One for a room or an operation that is
    /// no longer current does nothing.
    pub open spec fn receives(self, generation: u64, reply: Reply, now: u64) -> (Room, Seq<Effect>) {
        if generation != self.generation || self.room is None {
            (self, Seq::empty())
        } else {
            let base = Room {
                last_refresh: now,
                refreshing: false,
                level_flight: None,
                colour_flight: None,
                ..self.released()
            };
            match reply {
                Reply::IrChecked { handled, resume } => (
                    if handled {
                        base
                    } else {
                        Room { input: seq![resume] + base.input, ..base }
                    },
                    seq![Effect::Detail(Line::Empty)],
                ),
                Reply::List(entries) => (
                    Room {
                        readings: list_readings(
                            base.readings,
                            entries@,
                            now,
                            entries@.len() as int,
                        ),
                        entries: entries@,
                        ..base
                    },
                    seq![Effect::UpdateRows { reset: other_rows(self.entries, entries@) }],
                ),
                Reply::Busy => (
                    Room {
                        levels: match self.level_flight {
                            Some((id, percent)) => with_target_back(self.levels, id, percent),
                            None => self.levels,
                        },
                        colours: match self.colour_flight {
                            Some((id, mirek)) => with_target_back(self.colours, id, mirek),
                            None => self.colours,
                        },
                        last_send: now,
                        ..base
                    },
                    seq![Effect::UpdateRows { reset: false }],
                ),
                Reply::State(state) => (
                    Room {
                        readings: with_reading(base.readings, state, now),
                        entries: with_state(base.entries, state),
                        ..base
                    },
                    seq![Effect::UpdateRows { reset: false }, Effect::Detail(Line::Empty)],
                ),
                Reply::Failed(reason) => (
                    Room {
                        levels: match self.level_flight {
                            Some((id, _)) => queue_without(self.levels, id@, 0),
                            None => self.levels,
                        },
                        targets: match self.level_flight {
                            Some((id, _)) => targets_without(self.targets, id@, 0),
                            None => self.targets,
                        },
                        colours: match self.colour_flight {
                            Some((id, _)) => queue_without(self.colours, id@, 0),
                            None => self.colours,
                        },
                        ..base
                    },
                    (if self.level_flight is Some {
                        seq![Effect::HideCard]
                    } else {
                        Seq::empty()
                    }) + seq![Effect::Failed(reason), Effect::UpdateRows { reset: false }],
                ),
            }
        }
    }

    /// Whether the next key that waits for infrared may go out.
    pub open spec fn ir_due(self) -> bool {
        self.input.len() == 0 && self.busy is None && !self.refreshing && self.room is Some
            && self.ir_pending.len() > 0
    }

    /// The next adjustment, where one may go out: a level first, else a colour
    /// temperature.
    pub open spec fn adjustment_due(self, now: u64) -> Option<Operation> {
        if self.busy is Some || self.refreshing || elapsed(now, self.last_send) < SEND_EVERY_MS
            || self.room is None {
            None
        } else if self.levels.len() > 0 {
            Some(
                Operation::Adjust {
                    id: self.levels[0].0,
                    adjustment: Adjustment::Brightness(self.levels[0].1),
                },
            )
        } else if self.colours.len() > 0 {
            Some(
                Operation::Adjust {
                    id: self.colours[0].0,
                    adjustment: Adjustment::Mirek(self.colours[0].1),
                },
            )
        } else {
            None
        }
    }

    /// Whether the rows are read again: a room of Hue lights alone twice a
    /// second, any other every five.
    pub open spec fn refresh_due(self, now: u64) -> bool {
        &&& self.room is Some
        &&& self.levels.len() == 0
        &&& self.ir_pending.len() == 0
        &&& self.busy is None
        &&& !self.refreshing
        &&& elapsed(now, self.last_refresh) > if forall|k: int|
            0 <= k < self.entries.len() ==> (#[trigger] self.entries[k]).hue {
            500u64
        } else {
            5000u64
        }
    }

    /// Whether the open screen of a row says that a write is taking its time.
    pub open spec fn screen_updating(self, id: Seq<char>, now: u64) -> bool {
        &&& self.busy matches Some(Claim::Row(row))
        &&& row@ == id
        &&& self.busy_since matches Some(at)
        &&& elapsed(now, at) >= UPDATING_AFTER_MS
    }

    /// Whether the open screen is a blind.
    pub open spec fn screen_cover(e: Entry) -> bool {
        e.state matches Some(DeviceState::Cover(_)) || declared_of(e@).cover
    }

    /// Whether the open screen has a colour temperature at all.
    pub open spec fn screen_tunable(e: Entry) -> bool {
        match e.state {
            Some(DeviceState::Light(light)) => light.mirek_range is Some,
            Some(_) => false,
            None => !declared_of(e@).cover && declared_of(e@).mirek is Some,
        }
    }
}

/// A step that ends with the control screen drawn.
pub open spec fn drawn(step: (Room, Outcome)) -> (Room, Outcome) {
    (step.0, Outcome { after: step.1.after.push(Effect::Draw), ..step.1 })
}

fn no_step() -> (r: Step)
    ensures
        r@ == nothing(),
{
    Step { effects: Vec::new(), send: None, after: Vec::new() }
}

fn one_effect(effect: Effect) -> (r: Step)
    ensures
        r@ == shows(seq![effect]),
{
    let mut effects: Vec<Effect> = Vec::new();
    effects.push(effect);
    Step { effects, send: None, after: Vec::new() }
}

fn two_effects(a: Effect, b: Effect) -> (r: Step)
    ensures
        r@ == shows(seq![a, b]),
{
    let mut effects: Vec<Effect> = Vec::new();
    effects.push(a);
    effects.push(b);
    Step { effects, send: None, after: Vec::new() }
}

/// A queue without one row's targets.
fn drop_row<T: Copy>(queue: &VecDeque<(String, T)>, id: &str) -> (r: VecDeque<(String, T)>)
    ensures
        r@ == queue_without(queue@, id@, 0),
{
    let mut out: VecDeque<(String, T)> = VecDeque::new();
    let mut i: usize = 0;
    assert(out@ + queue_without(queue@, id@, 0) =~= queue_without(queue@, id@, 0));
    while i < queue.len()
        invariant
            i <= queue@.len(),
            out@ + queue_without(queue@, id@, i as int) == queue_without(queue@, id@, 0),
        decreases queue.len() - i,
    {
        if !same(queue[i].0.as_str(), id) {
            let ghost before = out@;
            out.push_back((queue[i].0.clone(), queue[i].1));
            assert(before + queue_without(queue@, id@, i as int) =~= out@ + queue_without(
                queue@,
                id@,
                i + 1,
            ));
        }
        i = i + 1;
    }
    assert(out@ + Seq::<(String, T)>::empty() =~= out@);
    out
}

fn drop_target(targets: &Vec<(String, u64, u8)>, id: &str) -> (r: Vec<(String, u64, u8)>)
    ensures
        r@ == targets_without(targets@, id@, 0),
{
    let mut out: Vec<(String, u64, u8)> = Vec::new();
    let mut i: usize = 0;
    assert(out@ + targets_without(targets@, id@, 0) =~= targets_without(targets@, id@, 0));
    while i < targets.len()
        invariant
            i <= targets@.len(),
            out@ + targets_without(targets@, id@, i as int) == targets_without(targets@, id@, 0),
        decreases targets.len() - i,
    {
        if !same(targets[i].0.as_str(), id) {
            let ghost before = out@;
            out.push((targets[i].0.clone(), targets[i].1, targets[i].2));
            assert(before + targets_without(targets@, id@, i as int) =~= out@ + targets_without(
                targets@,
                id@,
                i + 1,
            ));
        }
        i = i + 1;
    }
    assert(out@ + Seq::<(String, u64, u8)>::empty() =~= out@);
    out
}

fn in_cover(e: &Entry) -> (r: bool)
    ensures
        r == (e.state matches Some(DeviceState::Cover(_))),
{
    match &e.state {
        Some(DeviceState::Cover(_)) => true,
        _ => false,
    }
}

fn is_switch(e: &Entry) -> (r: bool)
    ensures
        r == switches(*e),
{
    e.hue || same(ha_domain(e.id.as_str()), "light") || same(ha_domain(e.id.as_str()), "cover")
}

fn opened_device(config: Option<&Config>, e: &Entry) -> (r: (Option<String>, Vec<Effect>))
    ensures
        (r.0, r.1@) == device_opens(given(config), *e),
{
    let mut effects: Vec<Effect> = Vec::new();
    let id = bare_device(e.id.as_str());
    match config {
        Some(c) => match c.device(id) {
            Some(d) => {
                let camera = match &d.integration {
                    Some(Integration::UnifiProtect { .. }) => true,
                    _ => false,
                };
                if camera {
                    effects.push(Effect::OpenCamera { row: e.id.clone(), name: e.name.clone() });
                    return (None, effects);
                }
                if d.integration.is_some() && d.player {
                    effects.push(Effect::OpenPlayer { row: e.id.clone() });
                    return (None, effects);
                }
                if tv_connection(c, id).is_some() {
                    effects.push(Effect::OpenTv { row: e.id.clone(), name: e.name.clone() });
                    return (None, effects);
                }
                match needs_package(c, id) {
                    Some(sentence) => (Some(sentence), effects),
                    None => {
                        effects.push(Effect::Detail(Line::NoControls));
                        (None, effects)
                    },
                }
            },
            None => {
                effects.push(Effect::Detail(Line::NoControls));
                (None, effects)
            },
        },
        None => {
            effects.push(Effect::Detail(Line::NoControls));
            (None, effects)
        },
    }
}

fn differ(a: &Vec<Entry>, b: &Vec<Entry>) -> (r: bool)
    ensures
        r == other_rows(a@, b@),
{
    if a.len() != b.len() {
        return true;
    }
    let mut i: usize = 0;
    while i < a.len()
        invariant
            i <= a.len(),
            a@.len() == b@.len(),
            forall|k: int| 0 <= k < i ==> (#[trigger] a@[k]).id@ == b@[k].id@,
        decreases a.len() - i,
    {
        if !same(a[i].id.as_str(), b[i].id.as_str()) {
            return true;
        }
        i = i + 1;
    }
    false
}

fn set_state(e: &mut Entry, state: DeviceState)
    ensures
        *final(e) == (Entry { state: Some(state), ..*old(e) }),
{
    e.state = Some(state);
}

fn set_reading(e: &mut Entry, state: Option<DeviceState>)
    ensures
        *final(e) == (Entry { state, ..*old(e) }),
{
    e.state = state;
}

proof fn fresh_is_wf(readings: Seq<(u64, DeviceState)>, id: Seq<char>, now: u64, i: int)
    requires
        0 <= i,
        readings_wf(readings),
    ensures
        fresh_from(readings, id, now, i) matches Some(s) ==> reading_wf(s),
    decreases readings.len() - i,
{
    if i < readings.len() {
        fresh_is_wf(readings, id, now, i + 1);
    }
}

proof fn joined_wf(reading: (u64, DeviceState), rest: Seq<(u64, DeviceState)>)
    requires
        reading_wf(reading.1),
        readings_wf(rest),
    ensures
        readings_wf(seq![reading] + rest),
{
    let joined = seq![reading] + rest;
    assert forall|k: int| 0 <= k < joined.len() implies reading_wf((#[trigger] joined[k]).1) by {
        if k > 0 {
            assert(joined[k] == rest[k - 1]);
        }
    }
}

proof fn kept_wf(readings: Seq<(u64, DeviceState)>, id: Seq<char>, now: u64, i: int)
    requires
        0 <= i,
        readings_wf(readings),
    ensures
        readings_wf(others_from(readings, id, now, i)),
        readings_wf(without_from(readings, id, i)),
        readings_wf(without_hue_from(readings, i)),
    decreases readings.len() - i,
{
    if i < readings.len() {
        kept_wf(readings, id, now, i + 1);
        joined_wf(readings[i], others_from(readings, id, now, i + 1));
        joined_wf(readings[i], without_from(readings, id, i + 1));
        joined_wf(readings[i], without_hue_from(readings, i + 1));
    }
}

proof fn with_reading_wf(readings: Seq<(u64, DeviceState)>, state: DeviceState, now: u64)
    requires
        reading_wf(state),
        readings_wf(readings),
    ensures
        readings_wf(with_reading(readings, state, now)),
{
    kept_wf(readings, state.spec_id()@, now, 0);
}

proof fn adjusting_keeps(room: Room, config: Option<Config>, row: int, delta: int, now: u64)
    requires
        room.wf(),
        0 <= row,
    ensures
        room.adjusts(config, row, delta, now).0.wf(),
{
    if row < room.entries.len() {
        if let Some(Ok(level)) = room.level_after(room.entries[row], delta, now) {
            only_the_latest_target_waits(room.levels, room.entries[row].id, level as u8);
        }
    }
}

proof fn tuning_keeps(room: Room, row: int, delta: int)
    requires
        room.wf(),
        0 <= row,
    ensures
        room.tunes(row, delta).0.wf(),
{
    if row < room.entries.len() {
        let e = room.entries[row];
        if let Some(DeviceState::Light(light)) = e.state {
            if let Ok(mirek) = mirek_after(light, room.pending_mirek(e.id@), delta) {
                only_the_latest_target_waits(room.colours, e.id, mirek as u16);
            }
        }
    }
}

proof fn rest_keeps<T>(queue: Seq<(String, T)>)
    requires
        one_per_row(queue),
    ensures
        one_per_row(rest(queue)),
{
    let after = rest(queue);
    if queue.len() > 0 {
        assert forall|i: int, j: int| 0 <= i < j < after.len() implies (#[trigger] after[i]).0@ != (
        #[trigger] after[j]).0@ by {
            assert(after[i] == queue[i + 1]);
            assert(after[j] == queue[j + 1]);
        }
    }
}

proof fn without_is_among<T>(queue: Seq<(String, T)>, id: Seq<char>, i: int, k: int)
    requires
        0 <= i,
        0 <= k < queue_without(queue, id, i).len(),
    ensures
        exists|m: int|
            i <= m < queue.len() && #[trigger] queue[m] == queue_without(queue, id, i)[k],
    decreases queue.len() - i,
{
    if i < queue.len() {
        if queue[i].0@ != id {
            let tail = queue_without(queue, id, i + 1);
            assert(queue_without(queue, id, i) =~= seq![queue[i]] + tail);
            if k > 0 {
                without_is_among(queue, id, i + 1, k - 1);
            } else {
                assert(queue[i] == queue_without(queue, id, i)[0]);
            }
        } else {
            without_is_among(queue, id, i + 1, k);
        }
    }
}

proof fn without_keeps<T>(queue: Seq<(String, T)>, id: Seq<char>, i: int)
    requires
        0 <= i,
        one_per_row(queue),
    ensures
        one_per_row(queue_without(queue, id, i)),
    decreases queue.len() - i,
{
    if i < queue.len() {
        without_keeps(queue, id, i + 1);
        let tail = queue_without(queue, id, i + 1);
        if queue[i].0@ != id {
            let whole = queue_without(queue, id, i);
            assert(whole =~= seq![queue[i]] + tail);
            assert forall|a: int, b: int| 0 <= a < b < whole.len() implies (#[trigger] whole[a]).0@
                != (#[trigger] whole[b]).0@ by {
                assert(whole[b] == tail[b - 1]);
                if a > 0 {
                    assert(whole[a] == tail[a - 1]);
                } else {
                    without_is_among(queue, id, i + 1, b - 1);
                    let m = choose|m: int|
                        i + 1 <= m < queue.len() && #[trigger] queue[m] == tail[b - 1];
                    assert(queue[i].0@ != queue[m].0@);
                }
            }
        }
    }
}

proof fn list_readings_wf(readings: Seq<(u64, DeviceState)>, entries: Seq<Entry>, now: u64, n: int)
    requires
        readings_wf(readings),
        entries_wf(entries),
        0 <= n <= entries.len(),
    ensures
        readings_wf(list_readings(readings, entries, now, n)),
    decreases n,
{
    if n > 0 {
        list_readings_wf(readings, entries, now, n - 1);
        let before = list_readings(readings, entries, now, n - 1);
        assert(entry_wf(entries[n - 1]));
        match entries[n - 1].state {
            Some(s) => {
                with_reading_wf(before, s, now);
            },
            None => {
                kept_wf(before, entries[n - 1].id@, now, 0);
            },
        }
    }
}

/// Whether an answer's readings have usable ranges.
pub open spec fn reply_wf(reply: Reply) -> bool {
    match reply {
        Reply::List(entries) => entries_wf(entries@),
        Reply::State(state) => reading_wf(state),
        _ => true,
    }
}

proof fn receiving_keeps(room: Room, generation: u64, reply: Reply, now: u64)
    requires
        room.wf(),
        reply_wf(reply),
    ensures
        room.receives(generation, reply, now).0.wf(),
{
    match reply {
        Reply::List(entries) => {
            list_readings_wf(room.readings, entries@, now, entries@.len() as int);
        },
        Reply::Busy => {
            if let Some((id, percent)) = room.level_flight {
                a_newer_target_wins(room.levels, id, percent);
            }
            if let Some((id, mirek)) = room.colour_flight {
                a_newer_target_wins(room.colours, id, mirek);
            }
        },
        Reply::State(state) => {
            with_reading_wf(room.readings, state, now);
            let next = with_state(room.entries, state);
            assert forall|k: int| 0 <= k < next.len() implies entry_wf(#[trigger] next[k]) by {
                assert(entry_wf(room.entries[k]));
            }
        },
        Reply::Failed(_) => {
            if let Some((id, _)) = room.level_flight {
                without_keeps(room.levels, id@, 0);
            }
            if let Some((id, _)) = room.colour_flight {
                without_keeps(room.colours, id@, 0);
            }
        },
        _ => {},
    }
}

impl Controller {
    /// No room is open.
    pub fn new(now: u64) -> (r: Controller)
        ensures
            r@ == (Room {
                input: Seq::empty(),
                ir_pending: Seq::empty(),
                generation: 0,
                room: None,
                entries: Seq::empty(),
                readings: Seq::empty(),
                busy: None,
                busy_since: None,
                refreshing: false,
                last_refresh: now,
                levels: Seq::empty(),
                targets: Seq::empty(),
                level_flight: None,
                card_until: None,
                last_send: if now >= 1000 {
                    (now - 1000) as u64
                } else {
                    0
                },
                colours: Seq::empty(),
                colour_flight: None,
                screen: None,
                screen_button: 0,
                notice: None,
            }),
            r@.wf(),
    {
        Controller {
            input: VecDeque::new(),
            ir_pending: VecDeque::new(),
            generation: 0,
            room: None,
            entries: Vec::new(),
            cache: StateCache::new(),
            busy: None,
            busy_since: None,
            refreshing: false,
            last_refresh: now,
            brightness_pending: VecDeque::new(),
            position_targets: Vec::new(),
            brightness_flight: None,
            brightness_until: None,
            last_brightness_send: if now >= 1000 {
                now - 1000
            } else {
                0
            },
            mirek_pending: VecDeque::new(),
            mirek_flight: None,
            screen: None,
            screen_button: 0,
            notice: None,
        }
    }

    /// Forget every adjustment that is waiting or out.
    pub fn clear_brightness(&mut self)
        ensures
            final(self)@ == old(self)@.cleared(),
    {
        self.brightness_pending = VecDeque::new();
        self.mirek_pending = VecDeque::new();
        self.ir_pending = VecDeque::new();
        self.position_targets = Vec::new();
        self.brightness_flight = None;
        self.mirek_flight = None;
        self.brightness_until = None;
    }

    /// After a sleep the lights are read anew, and at once.
    pub fn wake(&mut self, now: u64)
        requires
            old(self)@.wf(),
        ensures
            final(self)@ == (Room {
                readings: without_hue_from(old(self)@.readings, 0),
                last_refresh: if now >= 5000 {
                    (now - 5000) as u64
                } else {
                    0
                },
                ..old(self)@
            }),
            final(self)@.wf(),
    {
        proof {
            kept_wf(self.cache.readings@, Seq::empty(), now, 0);
        }
        self.cache.forget_hue();
        self.last_refresh = if now >= 5000 {
            now - 5000
        } else {
            0
        };
    }

    /// Something that the user did.
    pub fn push(&mut self, input: Input)
        ensures
            final(self)@ == (Room { input: old(self)@.input.push(input), ..old(self)@ }),
    {
        self.input.push_back(input);
    }

    /// Whether a room is about to open or close.
    pub fn navigation_pending(&self) -> (r: bool)
        ensures
            r == exists|k: int|
                0 <= k < self@.input.len() && ((#[trigger] self@.input[k]) is Open
                    || self@.input[k] is Back),
    {
        let mut i: usize = 0;
        while i < self.input.len()
            invariant
                i <= self.input@.len(),
                forall|k: int|
                    0 <= k < i ==> !((#[trigger] self@.input[k]) is Open || self@.input[k] is Back),
            decreases self.input.len() - i,
        {
            match &self.input[i] {
                Input::Open(_) => {
                    assert(self@.input[i as int] is Open);
                    return true;
                },
                Input::Back => {
                    assert(self@.input[i as int] is Back);
                    return true;
                },
                _ => {},
            }
            i = i + 1;
        }
        false
    }

    /// The toast that a press asked for, once.
    pub fn take_notice(&mut self) -> (r: Option<String>)
        ensures
            r == old(self).notice,
            final(self)@ == (Room { notice: None, ..old(self)@ }),
    {
        self.notice.take()
    }

    /// Whether the level card has been up long enough; it then comes down.
    pub fn card_due(&mut self, now: u64) -> (r: bool)
        ensures
            r == (old(self).brightness_until matches Some(until) && now >= until),
            final(self)@ == (Room {
                card_until: if r {
                    None
                } else {
                    old(self).brightness_until
                },
                ..old(self)@
            }),
    {
        match self.brightness_until {
            Some(until) => if now >= until {
                self.brightness_until = None;
                true
            } else {
                false
            },
            None => false,
        }
    }

    /// While a device is being paired, nothing here is wanted.
    pub fn pairing(&mut self)
        ensures
            final(self)@ == (Room { input: Seq::empty(), ..old(self)@.cleared() }),
    {
        self.input = VecDeque::new();
        self.clear_brightness();
    }

    fn claim(&mut self, claim: Claim, now: u64)
        ensures
            final(self)@ == old(self)@.claimed(claim, now),
    {
        self.busy = Some(claim);
        self.busy_since = Some(now);
    }

    fn release(&mut self)
        ensures
            final(self)@ == old(self)@.released(),
    {
        self.busy = None;
        self.busy_since = None;
    }

    /// The level that a row is driven towards.
    pub fn pending_level(&self, id: &str, now: u64) -> (r: Option<u8>)
        ensures
            r == self@.pending_level(id@, now),
    {
        match target_place(&self.brightness_pending, id) {
            Some(k) => {
                return Some(self.brightness_pending[k].1);
            },
            None => {},
        }
        match &self.brightness_flight {
            Some((row, percent)) => {
                if same(row.as_str(), id) {
                    return Some(*percent);
                }
            },
            None => {},
        }
        let mut i: usize = 0;
        while i < self.position_targets.len()
            invariant
                i <= self.position_targets@.len(),
                self@.pending_level(id@, now) == travelling(
                    self.position_targets@,
                    id@,
                    now,
                    i as int,
                ),
            decreases self.position_targets.len() - i,
        {
            if same(self.position_targets[i].0.as_str(), id) {
                return if since(now, self.position_targets[i].1) < TRAVEL_MS {
                    Some(self.position_targets[i].2)
                } else {
                    None
                };
            }
            i = i + 1;
        }
        None
    }

    /// The colour temperature that a row is driven towards.
    pub fn pending_mirek(&self, id: &str) -> (r: Option<u16>)
        ensures
            r == self@.pending_mirek(id@),
    {
        match target_place(&self.mirek_pending, id) {
            Some(k) => {
                return Some(self.mirek_pending[k].1);
            },
            None => {},
        }
        match &self.mirek_flight {
            Some((row, mirek)) => if same(row.as_str(), id) {
                Some(*mirek)
            } else {
                None
            },
            None => None,
        }
    }

    /// The id of the device on a row of the open room.
    fn device_on(&self, config: Option<&Config>, row: usize) -> (r: Option<String>)
        ensures
            r == match self@.device_on(given(config), row as int) {
                Some(d) => Some(d.id),
                None => None,
            },
    {
        match (&self.room, config) {
            (Some(room), Some(c)) => match device_at(c, room.as_str(), row) {
                Some(d) => Some(d.id.clone()),
                None => None,
            },
            _ => None,
        }
    }

    fn intercept_ir(
        &mut self,
        config: Option<&Config>,
        version: u64,
        row: usize,
        function: IrFunction,
        repeat: bool,
        resume: Input,
    )
        ensures
            final(self)@ == old(self)@.intercepted(
                given(config),
                version,
                row as int,
                function,
                repeat,
                resume,
            ),
    {
        let device: Option<String> = match (&self.room, config) {
            (Some(room), Some(c)) => match device_at(c, room.as_str(), row) {
                Some(d) => if d.ir {
                    Some(d.id.clone())
                } else {
                    None
                },
                None => None,
            },
            _ => None,
        };
        match device {
            Some(device) => {
                if self.ir_pending.len() < IR_WAITING {
                    self.ir_pending.push_back(IrJob { device, function, repeat, version, resume });
                }
            },
            None => {
                self.input.push_front(resume);
            },
        }
    }

    fn toggle_row(&mut self, id: String) -> (r: Step)
        requires
            old(self).room is Some,
        ensures
            (final(self)@, r@) == old(self)@.toggles(id),
    {
        self.position_targets = drop_target(&self.position_targets, id.as_str());
        let room = match &self.room {
            Some(room) => room.clone(),
            None => return no_step(),
        };
        Step {
            effects: Vec::new(),
            send: Some(
                Job {
                    generation: next_generation(self.generation),
                    room,
                    operation: Operation::Adjust { id, adjustment: Adjustment::Toggle },
                },
            ),
            after: Vec::new(),
        }
    }

    /// A level key on a row.
    fn adjust_brightness(&mut self, config: Option<&Config>, row: usize, delta: i32, now: u64) -> (r:
        Step)
        requires
            old(self)@.wf(),
        ensures
            (final(self)@, r@) == old(self)@.adjusts(given(config), row as int, delta as int, now),
            final(self)@.wf(),
    {
        proof {
            adjusting_keeps(self@, given(config), row as int, delta as int, now);
        }
        if row >= self.entries.len() {
            return no_step();
        }
        let e = &self.entries[row];
        if same(ha_domain(e.id.as_str()), "climate") {
            return one_effect(
                Effect::Thermostat {
                    device: self.device_on(config, row),
                    row: e.id.clone(),
                    name: e.name.clone(),
                    step: Some(signum(delta)),
                },
            );
        }
        let target = self.pending_level(e.id.as_str(), now);
        let result = match &e.state {
            None => {
                return one_effect(Effect::Detail(Line::Checking));
            },
            Some(DeviceState::Light(light)) => brightness_step(light, target, delta),
            Some(DeviceState::Cover(cover)) => cover_step(cover, target, delta),
            Some(DeviceState::Climate(_)) => {
                return no_step();
            },
        };
        match result {
            Err(refusal) => two_effects(
                Effect::Detail(Line::Refused(refusal)),
                Effect::ScreenDetail(Line::Refused(refusal)),
            ),
            Ok(percent) => {
                let id = e.id.clone();
                let name = e.name.clone();
                let cover = in_cover(e);
                queue_level(&mut self.brightness_pending, id.clone(), percent);
                if cover {
                    let mut targets = drop_target(&self.position_targets, id.as_str());
                    targets.push((id, now, percent));
                    self.position_targets = targets;
                }
                let mut effects: Vec<Effect> = Vec::new();
                if self.screen.is_none() {
                    effects.push(Effect::Card { name, cover, percent });
                    self.brightness_until = Some(later_than(now, CARD_MS));
                }
                effects.push(Effect::Detail(Line::Empty));
                effects.push(Effect::ScreenDetail(Line::Empty));
                Step { effects, send: None, after: Vec::new() }
            },
        }
    }

    /// A colour key on a row.
    fn adjust_mirek(&mut self, row: usize, delta: i32) -> (r: Vec<Effect>)
        requires
            old(self)@.wf(),
        ensures
            (final(self)@, r@) == old(self)@.tunes(row as int, delta as int),
            final(self)@.wf(),
    {
        proof {
            tuning_keeps(self@, row as int, delta as int);
        }
        let mut effects: Vec<Effect> = Vec::new();
        if row >= self.entries.len() {
            return effects;
        }
        let e = &self.entries[row];
        proof {
            assert(entry_wf(self@.entries[row as int]));
        }
        match &e.state {
            Some(DeviceState::Light(light)) => {
                let target = self.pending_mirek(e.id.as_str());
                match mirek_step(light, target, delta) {
                    Ok(mirek) => {
                        let id = e.id.clone();
                        queue_level(&mut self.mirek_pending, id, mirek);
                        effects.push(Effect::ScreenDetail(Line::Empty));
                    },
                    Err(refusal) => {
                        effects.push(Effect::ScreenDetail(Line::Refused(refusal)));
                    },
                }
            },
            _ => {
                effects.push(Effect::ScreenDetail(Line::CheckingLight));
            },
        }
        effects
    }

    /// The place of the row whose control screen is open.
    pub fn screen_row(&self) -> (r: Option<usize>)
        ensures
            match r {
                Some(k) => self@.screen_row() == Some(k as int) && k < self.entries@.len(),
                None => self@.screen_row() is None,
            },
    {
        let id = match &self.screen {
            Some(id) => id,
            None => return None,
        };
        let mut i: usize = 0;
        while i < self.entries.len()
            invariant
                i <= self.entries@.len(),
                self.screen == Some(*id),
                self@.screen_row() == entry_place(self.entries@, id@, i as int),
            decreases self.entries.len() - i,
        {
            if same(self.entries[i].id.as_str(), id.as_str()) {
                return Some(i);
            }
            i = i + 1;
        }
        None
    }

    /// A blind's button.
    fn send_cover(&mut self, row: usize, button: i32) -> (r: Step)
        ensures
            (final(self)@, r@) == old(self)@.moves_cover(row as int, button as int),
    {
        if row >= self.entries.len() {
            return no_step();
        }
        let e = &self.entries[row];
        let command = if button == 0 {
            CoverButton::Open
        } else if button == 1 {
            CoverButton::Stop
        } else {
            CoverButton::Close
        };
        let read_stop = match &e.state {
            Some(DeviceState::Cover(cover)) => cover.can_stop,
            _ => false,
        };
        let declared_stop = match &e.plugin {
            Some(p) => match p.snapshot.cover {
                Some(t) => t.stop,
                None => false,
            },
            None => false,
        };
        if command == CoverButton::Stop && !read_stop && !declared_stop {
            return one_effect(Effect::ScreenDetail(Line::CannotStop));
        }
        let room = match &self.room {
            Some(room) => room.clone(),
            None => return no_step(),
        };
        if self.busy.is_some() {
            return one_effect(Effect::ScreenDetail(Line::StillSending));
        }
        let id = e.id.clone();
        self.position_targets = drop_target(&self.position_targets, id.as_str());
        Step {
            effects: Vec::new(),
            send: Some(
                Job {
                    generation: next_generation(self.generation),
                    room,
                    operation: Operation::Adjust { id, adjustment: Adjustment::Cover(command) },
                },
            ),
            after: Vec::new(),
        }
    }

    /// Whether the open screen is a blind.
    fn cover_screen(e: &Entry) -> (r: bool)
        ensures
            r == Room::screen_cover(*e),
    {
        in_cover(e) || declared(e).cover
    }

    /// Whether the open screen has a colour temperature at all.
    fn tunable_screen(e: &Entry) -> (r: bool)
        ensures
            r == Room::screen_tunable(*e),
    {
        match &e.state {
            Some(DeviceState::Light(light)) => light.mirek_range.is_some(),
            Some(_) => false,
            None => {
                let declared = declared(e);
                !declared.cover && declared.mirek.is_some()
            },
        }
    }

    /// Something that the open control screen asked for.
    pub fn screen_action(&mut self, config: Option<&Config>, word: ScreenWord, index: i32, now: u64) -> (r:
        Step)
        requires
            old(self)@.wf(),
        ensures
            (final(self)@, r@) == old(self)@.screen_acts(given(config), word, index, now),
            final(self)@.wf(),
    {
        let row = match self.screen_row() {
            Some(row) => row,
            None => {
                self.screen = None;
                return one_effect(Effect::CloseScreen { home: false });
            },
        };
        let mut step = match word {
            ScreenWord::Close => {
                self.screen = None;
                return one_effect(Effect::CloseScreen { home: false });
            },
            ScreenWord::Home => {
                self.screen = None;
                return one_effect(Effect::CloseScreen { home: true });
            },
            ScreenWord::Button => {
                if Controller::cover_screen(&self.entries[row]) {
                    self.screen_button = clamp(
                        self.screen_button as i64 + index as i64,
                        0,
                        2,
                    ) as i32;
                }
                no_step()
            },
            ScreenWord::Level => {
                let delta: i32 = if index > 0 {
                    5
                } else if index < 0 {
                    -5
                } else {
                    0
                };
                assert(delta == sign(index as int) * 5);
                self.adjust_brightness(config, row, delta, now)
            },
            ScreenWord::Warmth => {
                if Controller::tunable_screen(&self.entries[row]) {
                    let effects = self.adjust_mirek(row, index);
                    Step { effects, send: None, after: Vec::new() }
                } else {
                    no_step()
                }
            },
            ScreenWord::Toggle => {
                if self.busy.is_none() && self.brightness_pending.len() == 0 {
                    let id = self.entries[row].id.clone();
                    self.toggle_row(id)
                } else {
                    no_step()
                }
            },
            ScreenWord::Cover => {
                self.screen_button = clamp(index as i64, 0, 2) as i32;
                self.send_cover(row, index)
            },
            ScreenWord::Unknown => no_step(),
        };
        step.after.push(Effect::Draw);
        step
    }

    /// OK on a row.
    fn pick(&mut self, config: Option<&Config>, row: usize) -> (r: Step)
        requires
            old(self)@.wf(),
        ensures
            (final(self)@, r@) == old(self)@.picks(given(config), row as int),
            final(self)@.wf(),
    {
        if self.room.is_none() || self.busy.is_some() || self.brightness_pending.len() != 0 || row
            >= self.entries.len() {
            return no_step();
        }
        let e = &self.entries[row];
        if same(ha_domain(e.id.as_str()), "climate") {
            let effect = Effect::Thermostat {
                device: self.device_on(config, row),
                row: e.id.clone(),
                name: e.name.clone(),
                step: None,
            };
            self.clear_brightness();
            return two_effects(Effect::HideCard, effect);
        }
        if starts_with(e.id.as_str(), "activity:") {
            return one_effect(Effect::OpenActivity { row: e.id.clone() });
        }
        if starts_with(e.id.as_str(), "device:") {
            let (notice, effects) = opened_device(config, e);
            if notice.is_some() {
                self.notice = notice;
            }
            return Step { effects, send: None, after: Vec::new() };
        }
        if opens_screen(e) {
            let id = e.id.clone();
            self.screen = Some(id);
            self.screen_button = 0;
            return one_effect(Effect::OpenScreen);
        }
        let id = e.id.clone();
        self.toggle_row(id)
    }

    /// The power key on a row.
    fn power(&mut self, row: usize) -> (r: Step)
        ensures
            (final(self)@, r@) == old(self)@.powers(row as int),
    {
        if self.room.is_none() || self.busy.is_some() || self.brightness_pending.len() != 0 || row
            >= self.entries.len() {
            return no_step();
        }
        let e = &self.entries[row];
        if e.activity.is_some() || starts_with(e.id.as_str(), "device:") || same(
            ha_domain(e.id.as_str()),
            "climate",
        ) {
            return no_step();
        }
        let id = e.id.clone();
        self.toggle_row(id)
    }

    fn open_room(&mut self, config: Option<&Config>, room: String, now: u64) -> (r: Step)
        requires
            old(self)@.wf(),
        ensures
            old(self)@.opened(given(config), room, now, final(self)@, r@),
            final(self)@.wf(),
    {
        self.clear_brightness();
        self.generation = next_generation(self.generation);
        self.room = Some(room.clone());
        self.release();
        let mut effects: Vec<Effect> = Vec::new();
        effects.push(Effect::HideCard);
        effects.push(Effect::ShowList { room: room.clone() });
        effects.push(Effect::Detail(Line::Empty));
        let mut after: Vec<Effect> = Vec::new();
        match configured(config, room.as_str()) {
            Ok(rows) => {
                let mut entries = rows;
                let mut i: usize = 0;
                while i < entries.len()
                    invariant
                        i <= entries@.len(),
                        entries@.len() == rows@.len(),
                        self.cache.readings@ == old(self)@.readings,
                        old(self)@.wf(),
                        forall|k: int|
                            i <= k < entries@.len() ==> #[trigger] entries@[k] == rows@[k],
                        forall|k: int|
                            0 <= k < i ==> (#[trigger] entries@[k])@ == (Row {
                                state: fresh_from(old(self)@.readings, rows@[k].id@, now, 0),
                                ..rows@[k]@
                            }) && entry_wf(entries@[k]),
                    decreases entries.len() - i,
                {
                    let state = self.cache.get(entries[i].id.as_str(), now);
                    proof {
                        fresh_is_wf(old(self)@.readings, rows@[i as int].id@, now, 0);
                    }
                    set_reading(&mut entries[i], state);
                    i = i + 1;
                }
                proof {
                    assert forall|k: int| 0 <= k < entries@.len() implies rows_of(rows@)[k]
                        == #[trigger] rows@[k]@ by {}
                }
                let empty = entries.len() == 0;
                self.entries = entries;
                self.last_refresh = now;
                if empty {
                    after.push(Effect::Detail(Line::AddDevices));
                }
                after.push(Effect::UpdateRows { reset: true });
                after.push(Effect::FocusList);
                let step = Step {
                    effects,
                    send: Some(
                        Job { generation: self.generation, room, operation: Operation::List },
                    ),
                    after,
                };
                assert(step.effects@ =~= seq![
                    Effect::HideCard,
                    Effect::ShowList { room },
                    Effect::Detail(Line::Empty),
                ]);
                assert(step.after@ =~= (if rows@.len() == 0 {
                    seq![Effect::Detail(Line::AddDevices)]
                } else {
                    Seq::empty()
                }) + seq![Effect::UpdateRows { reset: true }, Effect::FocusList]);
                step
            },
            Err(error) => {
                self.entries = Vec::new();
                self.refreshing = false;
                effects.push(Effect::Detail(Line::List(error)));
                after.push(Effect::UpdateRows { reset: true });
                after.push(Effect::FocusList);
                assert(effects@ =~= seq![
                    Effect::HideCard,
                    Effect::ShowList { room },
                    Effect::Detail(Line::Empty),
                ].push(Effect::Detail(Line::List(error))));
                assert(after@ =~= seq![Effect::UpdateRows { reset: true }, Effect::FocusList]);
                Step { effects, send: None, after }
            },
        }
    }

    /// Take the oldest input, if there is one, and do what it asks.
    pub fn poll(&mut self, config: Option<&Config>, version: u64, now: u64) -> (r: Option<Step>)
        requires
            old(self)@.wf(),
        ensures
            if old(self)@.input.len() == 0 {
                r is None && final(self)@ == old(self)@
            } else {
                &&& r matches Some(step)
                &&& (Room { input: rest(old(self)@.input), ..old(self)@ }).inputs(
                    old(self)@.input[0],
                    given(config),
                    version,
                    now,
                    final(self)@,
                    step@,
                )
            },
            final(self)@.wf(),
    {
        let input = match self.input.pop_front() {
            Some(input) => input,
            None => return None,
        };
        assert(self@.input =~= rest(old(self)@.input));
        Some(
            match input {
                Input::PhysicalLevel { row, delta, repeat } => {
                    let function = if delta > 0 {
                        IrFunction::VolumeUp
                    } else {
                        IrFunction::VolumeDown
                    };
                    self.intercept_ir(
                        config,
                        version,
                        row,
                        function,
                        repeat,
                        Input::Brightness { row, delta },
                    );
                    no_step()
                },
                Input::PhysicalPick { row, repeat } => {
                    if row < self.entries.len() && is_switch(&self.entries[row]) {
                        self.intercept_ir(
                            config,
                            version,
                            row,
                            IrFunction::Toggle,
                            repeat,
                            Input::Pick(row),
                        );
                    } else {
                        self.input.push_front(Input::Pick(row));
                    }
                    no_step()
                },
                Input::PhysicalPower { row, repeat } => {
                    if row < self.entries.len() && is_switch(&self.entries[row]) {
                        self.intercept_ir(
                            config,
                            version,
                            row,
                            IrFunction::Toggle,
                            repeat,
                            Input::Power(row),
                        );
                    } else {
                        self.input.push_front(Input::Power(row));
                    }
                    no_step()
                },
                Input::Power(row) => self.power(row),
                Input::Open(room) => self.open_room(config, room, now),
                Input::Back => {
                    self.clear_brightness();
                    self.screen = None;
                    self.generation = next_generation(self.generation);
                    self.room = None;
                    self.release();
                    self.refreshing = false;
                    two_effects(Effect::HideCard, Effect::LeaveList)
                },
                Input::Brightness { row, delta } => if self.room.is_some() {
                    self.adjust_brightness(config, row, delta, now)
                } else {
                    no_step()
                },
                Input::Pick(row) => self.pick(config, row),
                Input::Screen { word, index } => self.screen_action(config, word, index, now),
            },
        )
    }

    /// How handing a job to the worker went.
    pub fn sent(&mut self, job: Job, accepted: bool, now: u64) -> (r: Vec<Effect>)
        requires
            old(self)@.wf(),
        ensures
            (final(self)@, r@) == if accepted {
                old(self)@.accepted(job, now)
            } else {
                old(self)@.declined(job)
            },
            final(self)@.wf(),
    {
        proof {
            rest_keeps(self@.levels);
            rest_keeps(self@.colours);
        }
        let mut effects: Vec<Effect> = Vec::new();
        if !accepted {
            match job.operation {
                Operation::Ir(work) => {
                    self.ir_pending.push_front(work);
                },
                Operation::List => {
                    self.refreshing = false;
                },
                Operation::Adjust { adjustment, .. } => {
                    if adjustment == Adjustment::Toggle {
                        effects.push(Effect::Detail(Line::ConnectionBusy));
                    }
                },
            }
            return effects;
        }
        match job.operation {
            Operation::Ir(_) => {
                self.generation = job.generation;
                self.claim(Claim::Ir, now);
            },
            Operation::List => {
                self.refreshing = true;
            },
            Operation::Adjust { id, adjustment } => {
                self.generation = job.generation;
                let row = id.clone();
                self.claim(Claim::Row(row), now);
                match adjustment {
                    Adjustment::Toggle => {
                        self.refreshing = false;
                        effects.push(Effect::Detail(Line::Empty));
                        effects.push(Effect::UpdateRows { reset: false });
                    },
                    Adjustment::Cover(_) => {
                        self.refreshing = false;
                        effects.push(Effect::ScreenDetail(Line::Empty));
                    },
                    Adjustment::Brightness(percent) => {
                        self.brightness_flight = Some((id, percent));
                        let _ = self.brightness_pending.pop_front();
                        assert(self.brightness_pending@ =~= rest(old(self).brightness_pending@));
                        self.last_brightness_send = now;
                    },
                    Adjustment::Mirek(mirek) => {
                        self.mirek_flight = Some((id, mirek));
                        let _ = self.mirek_pending.pop_front();
                        assert(self.mirek_pending@ =~= rest(old(self).mirek_pending@));
                        self.last_brightness_send = now;
                    },
                }
            },
        }
        effects
    }

    /// What an answer of the worker does.
    pub fn receive(&mut self, generation: u64, reply: Reply, now: u64) -> (r: Vec<Effect>)
        requires
            old(self)@.wf(),
            reply_wf(reply),
        ensures
            (final(self)@, r@) == old(self)@.receives(generation, reply, now),
            final(self)@.wf(),
    {
        proof {
            receiving_keeps(self@, generation, reply, now);
        }
        let mut effects: Vec<Effect> = Vec::new();
        if generation != self.generation || self.room.is_none() {
            return effects;
        }
        self.last_refresh = now;
        self.refreshing = false;
        self.release();
        let brightness = self.brightness_flight.take();
        let colour = self.mirek_flight.take();
        match reply {
            Reply::IrChecked { handled, resume } => {
                if !handled {
                    self.input.push_front(resume);
                }
                effects.push(Effect::Detail(Line::Empty));
            },
            Reply::List(entries) => {
                let reset = differ(&self.entries, &entries);
                let ghost before = self.cache.readings@;
                let mut i: usize = 0;
                while i < entries.len()
                    invariant
                        i <= entries@.len(),
                        self.cache.readings@ == list_readings(before, entries@, now, i as int),
                        self@ == (Room {
                            readings: self.cache.readings@,
                            last_refresh: now,
                            refreshing: false,
                            level_flight: None,
                            colour_flight: None,
                            ..old(self)@.released()
                        }),
                    decreases entries.len() - i,
                {
                    match &entries[i].state {
                        Some(s) => {
                            self.cache.put(s.copy(), now);
                        },
                        None => {
                            self.cache.remove(entries[i].id.as_str());
                        },
                    }
                    i = i + 1;
                }
                self.entries = entries;
                effects.push(Effect::UpdateRows { reset });
            },
            Reply::Busy => {
                match brightness {
                    Some((id, percent)) => {
                        requeue_level(&mut self.brightness_pending, id, percent);
                    },
                    None => {},
                }
                match colour {
                    Some((id, mirek)) => {
                        requeue_level(&mut self.mirek_pending, id, mirek);
                    },
                    None => {},
                }
                self.last_brightness_send = now;
                effects.push(Effect::UpdateRows { reset: false });
            },
            Reply::State(state) => {
                self.cache.put(state.copy(), now);
                let ghost before = self.entries@;
                let mut i: usize = 0;
                while i < self.entries.len()
                    invariant
                        i <= self.entries@.len(),
                        self.entries@.len() == before.len(),
                        forall|k: int|
                            0 <= k < i ==> #[trigger] self.entries@[k] == with_state(before, state)[k],
                        forall|k: int|
                            i <= k < before.len() ==> #[trigger] self.entries@[k] == before[k],
                        self@ == (Room {
                            readings: with_reading(old(self)@.readings, state, now),
                            entries: self.entries@,
                            last_refresh: now,
                            refreshing: false,
                            level_flight: None,
                            colour_flight: None,
                            ..old(self)@.released()
                        }),
                    decreases self.entries.len() - i,
                {
                    if same(self.entries[i].id.as_str(), state.id().as_str()) {
                        set_state(&mut self.entries[i], state.copy());
                    }
                    i = i + 1;
                }
                assert(self.entries@ =~= with_state(before, state));
                effects.push(Effect::UpdateRows { reset: false });
                effects.push(Effect::Detail(Line::Empty));
            },
            Reply::Failed(reason) => {
                match brightness {
                    Some((id, _)) => {
                        self.position_targets = drop_target(&self.position_targets, id.as_str());
                        self.brightness_pending = drop_row(&self.brightness_pending, id.as_str());
                        effects.push(Effect::HideCard);
                    },
                    None => {},
                }
                match colour {
                    Some((id, _)) => {
                        self.mirek_pending = drop_row(&self.mirek_pending, id.as_str());
                    },
                    None => {},
                }
                effects.push(Effect::Failed(reason));
                effects.push(Effect::UpdateRows { reset: false });
            },
        }
        effects
    }

    /// The next key that waits for infrared, where it may go out now.
    pub fn send_ir(&mut self) -> (r: Option<Job>)
        requires
            old(self)@.wf(),
        ensures
            if old(self)@.ir_due() {
                &&& r == Some(
                    Job {
                        generation: wrapped(old(self).generation),
                        room: old(self).room->0,
                        operation: Operation::Ir(old(self)@.ir_pending[0]),
                    },
                )
                &&& final(self)@ == (Room { ir_pending: rest(old(self)@.ir_pending), ..old(self)@ })
            } else {
                r is None && final(self)@ == old(self)@
            },
            final(self)@.wf(),
    {
        if self.input.len() != 0 || self.busy.is_some() || self.refreshing {
            return None;
        }
        let room = match &self.room {
            Some(room) => room.clone(),
            None => return None,
        };
        match self.ir_pending.pop_front() {
            Some(work) => {
                assert(self.ir_pending@ =~= rest(old(self)@.ir_pending));
                Some(
                    Job {
                        generation: next_generation(self.generation),
                        room,
                        operation: Operation::Ir(work),
                    },
                )
            },
            None => None,
        }
    }

    /// The next adjustment, where one may go out now. It leaves the queue once
    /// the worker has taken it.
    pub fn send_brightness(&self, now: u64) -> (r: Option<Job>)
        ensures
            r == match self@.adjustment_due(now) {
                Some(operation) => Some(
                    Job {
                        generation: wrapped(self.generation),
                        room: self.room->0,
                        operation,
                    },
                ),
                None => None,
            },
    {
        if self.busy.is_some() || self.refreshing || since(now, self.last_brightness_send)
            < SEND_EVERY_MS {
            return None;
        }
        let room = match &self.room {
            Some(room) => room.clone(),
            None => return None,
        };
        let operation = if self.brightness_pending.len() > 0 {
            Operation::Adjust {
                id: self.brightness_pending[0].0.clone(),
                adjustment: Adjustment::Brightness(self.brightness_pending[0].1),
            }
        } else if self.mirek_pending.len() > 0 {
            Operation::Adjust {
                id: self.mirek_pending[0].0.clone(),
                adjustment: Adjustment::Mirek(self.mirek_pending[0].1),
            }
        } else {
            return None;
        };
        Some(Job { generation: next_generation(self.generation), room, operation })
    }

    /// Read the rows again, where it is time.
    pub fn refresh(&mut self, now: u64) -> (r: Option<Job>)
        requires
            old(self)@.wf(),
        ensures
            if old(self)@.refresh_due(now) {
                &&& r == Some(
                    Job {
                        generation: old(self).generation,
                        room: old(self).room->0,
                        operation: Operation::List,
                    },
                )
                &&& final(self)@ == (Room { last_refresh: now, ..old(self)@ })
            } else {
                r is None && final(self)@ == old(self)@
            },
            final(self)@.wf(),
    {
        if self.brightness_pending.len() != 0 || self.ir_pending.len() != 0 || self.busy.is_some()
            || self.refreshing {
            return None;
        }
        let room = match &self.room {
            Some(room) => room.clone(),
            None => return None,
        };
        let mut all_hue = true;
        let mut i: usize = 0;
        while i < self.entries.len()
            invariant
                i <= self.entries@.len(),
                all_hue == forall|k: int| 0 <= k < i ==> (#[trigger] self.entries@[k]).hue,
            decreases self.entries.len() - i,
        {
            if !self.entries[i].hue {
                all_hue = false;
            }
            i = i + 1;
        }
        let every: u64 = if all_hue {
            500
        } else {
            5000
        };
        if since(now, self.last_refresh) <= every {
            return None;
        }
        self.last_refresh = now;
        Some(Job { generation: self.generation, room, operation: Operation::List })
    }

    /// Keep the control screen with its row: it is drawn again, or closed where
    /// the row has left the room.
    pub fn follow_screen(&mut self) -> (r: Option<Effect>)
        requires
            old(self)@.wf(),
        ensures
            match old(self).screen {
                None => r is None && final(self)@ == old(self)@,
                Some(_) => if old(self)@.screen_row() is Some {
                    r == Some(Effect::Draw) && final(self)@ == old(self)@
                } else {
                    r == Some(Effect::CloseScreen { home: false }) && final(self)@
                        == old(self)@.closed()
                },
            },
            final(self)@.wf(),
    {
        if self.screen.is_none() {
            return None;
        }
        if self.screen_row().is_some() {
            Some(Effect::Draw)
        } else {
            self.screen = None;
            Some(Effect::CloseScreen { home: false })
        }
    }

    /// Take the power key for the open screen's row, or for the highlighted row
    /// of the list where nothing covers it. Says whether anything here wants it.
    pub fn power_press(&mut self, list: bool, covered: bool, index: i32) -> (r: bool)
        requires
            old(self)@.wf(),
        ensures
            ({
                let row = match old(self).screen {
                    Some(_) => old(self)@.screen_row(),
                    None => if list && !covered && 0 <= index < old(self)@.entries.len()
                        && takes_power(old(self)@.entries[index as int]) {
                        Some(index as int)
                    } else {
                        None
                    },
                };
                match row {
                    Some(row) => r && final(self)@ == (Room {
                        input: old(self)@.input.push(
                            Input::PhysicalPower { row: row as usize, repeat: false },
                        ),
                        ..old(self)@
                    }),
                    None => !r && final(self)@ == old(self)@,
                }
            }),
            final(self)@.wf(),
    {
        let row: usize = if self.screen.is_some() {
            match self.screen_row() {
                Some(row) => row,
                None => return false,
            }
        } else {
            if !list || covered || index < 0 || index as usize >= self.entries.len() {
                return false;
            }
            let e = &self.entries[index as usize];
            if e.activity.is_some() || starts_with(e.id.as_str(), "device:") || same(
                ha_domain(e.id.as_str()),
                "climate",
            ) {
                return false;
            }
            index as usize
        };
        self.input.push_back(Input::PhysicalPower { row, repeat: false });
        true
    }

    /// Whether the open screen of a row says that a write is taking its time.
    pub fn screen_updating(&self, id: &str, now: u64) -> (r: bool)
        ensures
            r == self@.screen_updating(id@, now),
    {
        match &self.busy {
            Some(Claim::Row(row)) => if same(row.as_str(), id) {
                match self.busy_since {
                    Some(at) => since(now, at) >= UPDATING_AFTER_MS,
                    None => false,
                }
            } else {
                false
            },
            _ => false,
        }
    }

    /// A row's second line.
    pub fn row_detail(&self, config: Option<&Config>, e: &Entry) -> (r: String)
        ensures
            r@ == row_line(self@, given(config), *e),
    {
        let updating = match &self.busy {
            Some(Claim::Row(row)) => !e.hue && same(row.as_str(), e.id.as_str()),
            _ => false,
        };
        if updating {
            return "Updating…".to_owned();
        }
        match &e.activity {
            Some((_, caption)) => {
                return caption.clone();
            },
            None => {},
        }
        if starts_with(e.id.as_str(), "device:") {
            return device_row_detail(config, e.id.as_str());
        }
        match &e.state {
            Some(s) => s.description(),
            None => if e.unpaired {
                "Needs pairing".to_owned()
            } else if self.refreshing {
                "Checking status…".to_owned()
            } else {
                "Unavailable".to_owned()
            },
        }
    }

    /// One row as the list draws it.
    pub fn row(&self, config: Option<&Config>, e: &Entry) -> (r: ChoiceItem)
        ensures
            r.title == e.name,
            r.icon == e.icon,
            r.detail@ == row_line(self@, given(config), *e),
            r.light == (!begins(e.id@, "device:"@) && e.activity is None),
            r.media == e.media,
            r.active == (e.state matches Some(s) && s.spec_active() == Some(true)),
            r.power_known == (e.state matches Some(s) && s.spec_active() is Some),
            r.activity == e.activity is Some,
            r.kind == (match e.activity {
                Some((glyph, _)) => glyph,
                None => 0,
            }),
            r.controls == promises_a_screen(given(config), e@),
    {
        let active = match &e.state {
            Some(s) => s.active(),
            None => None,
        };
        ChoiceItem {
            icon: e.icon,
            title: e.name.clone(),
            detail: self.row_detail(config, e),
            light: !starts_with(e.id.as_str(), "device:") && e.activity.is_none(),
            media: e.media,
            active: active == Some(true),
            power_known: active.is_some(),
            activity: e.activity.is_some(),
            kind: match &e.activity {
                Some((glyph, _)) => *glyph,
                None => 0,
            },
            controls: row_opens_a_screen(config, e),
        }
    }

    /// Where a row's device is and what drives it.
    pub fn source_line(&self, config: Option<&Config>, e: &Entry) -> (r: String)
        ensures
            r@ == source_text(self@, given(config), *e),
    {
        let room = match (&self.room, config) {
            (Some(room), Some(c)) => match c.room(room.as_str()) {
                Some(found) => found.name.as_str(),
                None => "",
            },
            _ => "",
        };
        let source = if e.hue {
            "Philips Hue"
        } else if e.matter {
            "Matter"
        } else {
            match &e.plugin {
                Some(p) => match config {
                    Some(c) => match c.connection(p.connection.as_str()) {
                        Some(found) => found.name.as_str(),
                        None => "Integration",
                    },
                    None => "Integration",
                },
                None => "Home Assistant",
            }
        };
        if room.is_empty() {
            source.to_owned()
        } else {
            let mut s = room.to_owned();
            s.append(" · ");
            s.append(source);
            s
        }
    }

    /// What the open control screen shows. `detail` is what was last said about
    /// a press: it outlives a reading, and stands over the view's own sentence.
    pub fn render_screen_at(&self, config: Option<&Config>, detail: &str, now: u64) -> (r: Option<
        Drawn,
    >)
        ensures
            match self@.screen_row() {
                None => r is None,
                Some(row) => r matches Some(d) && d@ == screen_drawn(
                    self@,
                    given(config),
                    self@.entries[row],
                    detail@,
                    now,
                ),
            },
    {
        let row = match self.screen_row() {
            Some(row) => row,
            None => return None,
        };
        let e = &self.entries[row];
        let line = self.source_line(config, e);
        let mut view = view_of(
            e.name.as_str(),
            line.as_str(),
            declared(e),
            e.state.as_ref(),
            self.pending_level(e.id.as_str(), now),
            self.pending_mirek(e.id.as_str()),
        );
        if !detail.is_empty() {
            view.detail = detail.to_owned();
        }
        Some(
            Drawn {
                view,
                button: self.screen_button,
                updating: self.screen_updating(e.id.as_str(), now),
            },
        )
    }
}

/// One row as the list draws it.
#[derive(Debug)]
pub struct ChoiceItem {
    pub icon: crate::model::Icon,
    pub title: String,
    pub detail: String,
    pub light: bool,
    pub media: bool,
    pub active: bool,
    pub power_known: bool,
    pub activity: bool,
    pub kind: i32,
    /// Whether OK opens a screen.
    pub controls: bool,
}

/// A row's second line.
pub open spec fn row_line(room: Room, config: Option<Config>, e: Entry) -> Seq<char> {
    if !e.hue && (room.busy matches Some(Claim::Row(row)) && row@ == e.id@) {
        "Updating…"@
    } else if e.activity is Some {
        match e.activity {
            Some((_, caption)) => caption@,
            None => ""@,
        }
    } else if begins(e.id@, "device:"@) {
        device_detail(config, e.id@)
    } else {
        match e.state {
            Some(s) => s.spec_description(),
            None => if e.unpaired {
                "Needs pairing"@
            } else if room.refreshing {
                "Checking status…"@
            } else {
                "Unavailable"@
            },
        }
    }
}

/// Where a row's device is and what drives it.
pub open spec fn source_text(room: Room, config: Option<Config>, e: Entry) -> Seq<char> {
    let place = match (room.room, config) {
        (Some(id), Some(c)) => match c.spec_room(id@) {
            Some(found) => found.name@,
            None => ""@,
        },
        _ => ""@,
    };
    let source = if e.hue {
        "Philips Hue"@
    } else if e.matter {
        "Matter"@
    } else {
        match e.plugin {
            Some(p) => match config {
                Some(c) => match c.spec_connection(p.connection@) {
                    Some(found) => found.name@,
                    None => "Integration"@,
                },
                None => "Integration"@,
            },
            None => "Home Assistant"@,
        }
    };
    if place.len() == 0 {
        source
    } else {
        place + " · "@ + source
    }
}

/// What the control screen was drawn from.
#[derive(Debug)]
pub struct Drawn {
    pub view: LightView,
    /// Which of a blind's buttons is highlighted.
    pub button: i32,
    pub updating: bool,
}

/// The same, as mathematical values.
#[verifier::ext_equal]
pub struct DrawnScreen {
    pub view: Picture,
    pub button: i32,
    pub updating: bool,
}

impl View for Drawn {
    type V = DrawnScreen;

    open spec fn view(&self) -> DrawnScreen {
        DrawnScreen { view: self.view@, button: self.button, updating: self.updating }
    }
}

/// What the open control screen of a row shows.
pub open spec fn screen_drawn(
    room: Room,
    config: Option<Config>,
    e: Entry,
    detail: Seq<char>,
    now: u64,
) -> DrawnScreen {
    let view = picture(
        e.name@,
        source_text(room, config, e),
        declared_of(e@),
        e.state,
        room.pending_level(e.id@, now),
        room.pending_mirek(e.id@),
    );
    DrawnScreen {
        view: Picture {
            detail: if detail.len() > 0 {
                detail
            } else {
                view.detail
            },
            ..view
        },
        button: room.screen_button,
        updating: room.screen_updating(e.id@, now),
    }
}

impl Drawn {
    /// Whether two drawings show the same, so that the second need not be made.
    /// The highlight and the "updating" flag count: a press that moves only one
    /// of them has to reach the panel.
    pub fn same_as(&self, other: &Drawn) -> (r: bool)
        ensures
            r == (self@ == other@),
    {
        let a = &self.view;
        let b = &other.view;
        let texts = same(a.title.as_str(), b.title.as_str()) && same(
            a.room.as_str(),
            b.room.as_str(),
        ) && same(a.state.as_str(), b.state.as_str()) && same(a.level_label, b.level_label) && same(
            a.level.as_str(),
            b.level.as_str(),
        ) && same(a.detail.as_str(), b.detail.as_str()) && same(a.hint, b.hint);
        let numbers = a.level_percent == b.level_percent && a.mirek == b.mirek && a.mirek_percent
            == b.mirek_percent;
        let flags = a.active == b.active && a.level_known == b.level_known && a.adjustable
            == b.adjustable && a.cover == b.cover && a.can_stop == b.can_stop && a.tunable
            == b.tunable && a.mirek_known == b.mirek_known;
        texts && numbers && flags && self.button == other.button && self.updating == other.updating
    }
}

/// How far a turn of the main loop is. The level card comes first, then a pairing,
/// which holds everything else up; all inputs, all answers of the worker, the next
/// key by infrared, the next adjustment, the control screen, and the next read of
/// the rows.
#[derive(Clone, Copy, PartialEq, Eq, Structural, Debug)]
pub enum Phase {
    Card,
    Pairing,
    Inputs,
    Answers,
    Infrared,
    Level,
    Screen,
    Refresh,
    Over,
}

/// What there is besides the room in a turn.
#[derive(Debug)]
pub struct Turn {
    /// Whether a device is being paired.
    pub pairing: bool,
    /// The worker's next answer, while answers are taken.
    pub answer: Option<(u64, Reply)>,
    pub now: u64,
}

/// A step that only hands a job to the worker.
pub open spec fn hands(job: Option<Job>) -> Outcome {
    Outcome { effects: Seq::empty(), send: job, after: Seq::empty() }
}

impl Room {
    /// Whether a phase of a turn leaves the room so, does so much, and is
    /// followed by that phase.
    pub open spec fn turned(
        self,
        phase: Phase,
        turn: Turn,
        config: Option<Config>,
        version: u64,
        next: Room,
        out: Outcome,
        then: Phase,
    ) -> bool {
        match phase {
            Phase::Card => {
                let due = self.card_until matches Some(until) && turn.now >= until;
                &&& then == Phase::Pairing
                &&& next == if due {
                    Room { card_until: None, ..self }
                } else {
                    self
                }
                &&& out == if due {
                    shows(seq![Effect::HideCard])
                } else {
                    nothing()
                }
            },
            Phase::Pairing => if turn.pairing {
                &&& then == Phase::Over
                &&& next == (Room { input: Seq::empty(), ..self.cleared() })
                &&& out == shows(seq![Effect::HideCard])
            } else {
                then == Phase::Inputs && next == self && out == nothing()
            },
            Phase::Inputs => if self.input.len() == 0 {
                then == Phase::Answers && next == self && out == nothing()
            } else {
                &&& then == Phase::Inputs
                &&& (Room { input: rest(self.input), ..self }).inputs(
                    self.input[0],
                    config,
                    version,
                    turn.now,
                    next,
                    out,
                )
            },
            Phase::Answers => match turn.answer {
                None => then == Phase::Infrared && next == self && out == nothing(),
                Some((generation, reply)) => {
                    let (after, effects) = self.receives(generation, reply, turn.now);
                    then == Phase::Answers && next == after && out == shows(effects)
                },
            },
            Phase::Infrared => {
                &&& then == Phase::Level
                &&& if self.ir_due() {
                    &&& next == (Room { ir_pending: rest(self.ir_pending), ..self })
                    &&& out == hands(
                        Some(
                            Job {
                                generation: wrapped(self.generation),
                                room: self.room->0,
                                operation: Operation::Ir(self.ir_pending[0]),
                            },
                        ),
                    )
                } else {
                    next == self && out == nothing()
                }
            },
            Phase::Level => {
                &&& then == Phase::Screen
                &&& next == self
                &&& out == hands(
                    match self.adjustment_due(turn.now) {
                        Some(operation) => Some(
                            Job {
                                generation: wrapped(self.generation),
                                room: self.room->0,
                                operation,
                            },
                        ),
                        None => None,
                    },
                )
            },
            Phase::Screen => {
                &&& then == Phase::Refresh
                &&& if self.screen is None {
                    next == self && out == nothing()
                } else if self.screen_row() is Some {
                    next == self && out == shows(seq![Effect::Draw])
                } else {
                    next == self.closed() && out == shows(seq![Effect::CloseScreen { home: false }])
                }
            },
            Phase::Refresh => {
                &&& then == Phase::Over
                &&& if self.refresh_due(turn.now) {
                    &&& next == (Room { last_refresh: turn.now, ..self })
                    &&& out == hands(
                        Some(
                            Job {
                                generation: self.generation,
                                room: self.room->0,
                                operation: Operation::List,
                            },
                        ),
                    )
                } else {
                    next == self && out == nothing()
                }
            },
            Phase::Over => then == Phase::Over && next == self && out == nothing(),
        }
    }
}

impl Controller {
    /// Do what is next in a turn of the main loop. The caller shows the effects,
    /// hands the job on and says by [`Controller::sent`] how that went, shows the
    /// effects that come after, and goes on with the phase that follows, until
    /// the turn is over. An answer is looked at only where answers are taken.
    pub fn turn(&mut self, phase: Phase, turn: Turn, config: Option<&Config>, version: u64) -> (r: (
        Step,
        Phase,
    ))
        requires
            old(self)@.wf(),
            turn.answer matches Some((_, reply)) ==> reply_wf(reply),
        ensures
            old(self)@.turned(phase, turn, given(config), version, final(self)@, r.0@, r.1),
            final(self)@.wf(),
    {
        match phase {
            Phase::Card => if self.card_due(turn.now) {
                (one_effect(Effect::HideCard), Phase::Pairing)
            } else {
                (no_step(), Phase::Pairing)
            },
            Phase::Pairing => if turn.pairing {
                self.pairing();
                (one_effect(Effect::HideCard), Phase::Over)
            } else {
                (no_step(), Phase::Inputs)
            },
            Phase::Inputs => match self.poll(config, version, turn.now) {
                Some(step) => (step, Phase::Inputs),
                None => (no_step(), Phase::Answers),
            },
            Phase::Answers => match turn.answer {
                Some((generation, reply)) => {
                    let effects = self.receive(generation, reply, turn.now);
                    (Step { effects, send: None, after: Vec::new() }, Phase::Answers)
                },
                None => (no_step(), Phase::Infrared),
            },
            Phase::Infrared => {
                let send = self.send_ir();
                (Step { effects: Vec::new(), send, after: Vec::new() }, Phase::Level)
            },
            Phase::Level => {
                let send = self.send_brightness(turn.now);
                (Step { effects: Vec::new(), send, after: Vec::new() }, Phase::Screen)
            },
            Phase::Screen => match self.follow_screen() {
                Some(effect) => (one_effect(effect), Phase::Refresh),
                None => (no_step(), Phase::Refresh),
            },
            Phase::Refresh => {
                let send = self.refresh(turn.now);
                (Step { effects: Vec::new(), send, after: Vec::new() }, Phase::Over)
            },
            Phase::Over => (no_step(), Phase::Over),
        }
    }
}

/// The order of the phases.
pub open spec fn order(phase: Phase) -> int {
    match phase {
        Phase::Card => 0,
        Phase::Pairing => 1,
        Phase::Inputs => 2,
        Phase::Answers => 3,
        Phase::Infrared => 4,
        Phase::Level => 5,
        Phase::Screen => 6,
        Phase::Refresh => 7,
        Phase::Over => 8,
    }
}

/// A turn goes through its phases in their order and leaves none out, except
/// that a pairing ends it; it stays where inputs wait and where answers come, and
/// goes on once there are none.
pub proof fn a_turn_keeps_its_order(
    room: Room,
    phase: Phase,
    turn: Turn,
    config: Option<Config>,
    version: u64,
    next: Room,
    out: Outcome,
    then: Phase,
)
    requires
        room.turned(phase, turn, config, version, next, out, then),
    ensures
        order(then) == if phase is Over || phase is Inputs && room.input.len() > 0 || phase
            is Answers && turn.answer is Some {
            order(phase)
        } else if phase is Pairing && turn.pairing {
            order(Phase::Over)
        } else {
            order(phase) + 1
        },
        phase is Pairing && turn.pairing ==> next.input.len() == 0 && out.send is None,
{
}

/// Leaving a room, or opening another, makes every answer that is still out
/// stale: it changes nothing and shows nothing.
pub proof fn an_answer_for_another_room_changes_nothing(
    room: Room,
    config: Option<Config>,
    other: String,
    now: u64,
    next: Room,
    out: Outcome,
    reply: Reply,
    later: u64,
)
    ensures
        room.left().0.receives(room.generation, reply, later) == (
            room.left().0,
            Seq::<Effect>::empty(),
        ),
        room.opened(config, other, now, next, out) ==> next.receives(room.generation, reply, later)
            == (next, Seq::<Effect>::empty()),
{
}

/// A level key's target is what the row is driven towards from then on: the next
/// press steps from it, and the screen shows it.
pub proof fn the_next_press_steps_from_the_last(
    room: Room,
    config: Option<Config>,
    row: int,
    delta: int,
    now: u64,
    later: u64,
)
    requires
        room.wf(),
        0 <= row < room.entries.len(),
        domain(room.entries[row].id@) != "climate"@,
        room.level_after(room.entries[row], delta, now) matches Some(Ok(_)),
    ensures
        room.adjusts(config, row, delta, now).0.pending_level(room.entries[row].id@, later) == Some(
            room.level_after(room.entries[row], delta, now)->0->Ok_0 as u8,
        ),
{
    let id = room.entries[row].id;
    let level = room.level_after(room.entries[row], delta, now)->0->Ok_0 as u8;
    let queue = with_target(room.levels, id, level);
    target_place_is_first(room.levels, id@, 0);
    target_place_is_first(queue, id@, 0);
    only_the_latest_target_waits(room.levels, id, level);
    let k = choose|k: int|
        0 <= k < queue.len() && (#[trigger] queue[k]).0@ == id@ && queue[k].1 == level;
    let first = target_from(queue, id@, 0)->0;
    if first != k {
        assert(queue[if first < k {
            first
        } else {
            k
        }].0@ != queue[if first < k {
            k
        } else {
            first
        }].0@);
    }
}

/// An adjustment that a busy connection handed back is sent again, unless the
/// row has a newer target by then; nothing is lost and nothing is said.
pub proof fn a_busy_connection_loses_nothing(room: Room, now: u64)
    requires
        room.wf(),
        room.room is Some,
    ensures
        ({
            let (next, effects) = room.receives(room.generation, Reply::Busy, now);
            &&& effects == seq![Effect::UpdateRows { reset: false }]
            &&& room.level_flight matches Some((id, percent)) ==> (if target_from(
                room.levels,
                id@,
                0,
            ) is Some {
                next.levels == room.levels
            } else {
                next.levels == seq![(id, percent)] + room.levels
            })
        }),
{
}

/// Each word of the control screen asks for what it names.
pub proof fn each_word_asks_for_its_own()
    ensures
        screen_word_of("close"@) == ScreenWord::Close,
        screen_word_of("home"@) == ScreenWord::Home,
        screen_word_of("button"@) == ScreenWord::Button,
        screen_word_of("level"@) == ScreenWord::Level,
        screen_word_of("warmth"@) == ScreenWord::Warmth,
        screen_word_of("toggle"@) == ScreenWord::Toggle,
        screen_word_of("cover"@) == ScreenWord::Cover,
{
    reveal_strlit("close");
    reveal_strlit("home");
    reveal_strlit("button");
    reveal_strlit("level");
    reveal_strlit("warmth");
    reveal_strlit("toggle");
    reveal_strlit("cover");
    assert("close"@.len() == 5 && "close"@[0] == 'c' && "close"@[1] == 'l');
    assert("home"@.len() == 4 && "home"@[0] == 'h' && "home"@[1] == 'o');
    assert("button"@.len() == 6 && "button"@[0] == 'b' && "button"@[1] == 'u');
    assert("level"@.len() == 5 && "level"@[0] == 'l' && "level"@[1] == 'e');
    assert("warmth"@.len() == 6 && "warmth"@[0] == 'w' && "warmth"@[1] == 'a');
    assert("toggle"@.len() == 6 && "toggle"@[0] == 't' && "toggle"@[1] == 'o');
    assert("cover"@.len() == 5 && "cover"@[0] == 'c' && "cover"@[1] == 'o');
}

/// Whether an outcome sends an adjustment of a row, and shows nothing.
pub open spec fn adjusts_row(out: Outcome, room: Room, id: String, adjustment: Adjustment) -> bool {
    &&& out.send matches Some(job)
    &&& Some(job.room) == room.room
    &&& job.generation != room.generation
    &&& job.operation matches Operation::Adjust { id: row, adjustment: asked }
    &&& row == id && asked == adjustment
    &&& out.effects.len() == 0
}

/// A row's own key switches that row, and no other: OK where it opens no screen,
/// and power wherever a row can be switched. Nothing is switched while an
/// operation is out or a level waits.
pub proof fn a_key_switches_its_own_row(
    room: Room,
    config: Option<Config>,
    version: u64,
    row: usize,
    now: u64,
    next: Room,
    out: Outcome,
)
    requires
        row < room.entries.len(),
        room.room is Some,
    ensures
        ({
            let e = room.entries[row as int];
            let free = room.busy is None && room.levels.len() == 0;
            let plain = domain(e.id@) != "climate"@ && !begins(e.id@, "activity:"@) && !begins(
                e.id@,
                "device:"@,
            );
            &&& room.inputs(Input::Pick(row), config, version, now, next, out) ==> {
                &&& !free ==> next == room && out.send is None && out.effects.len() == 0
                &&& free && plain && !opens(e@) ==> adjusts_row(
                    out,
                    room,
                    e.id,
                    Adjustment::Toggle,
                )
                &&& free && plain && opens(e@) ==> next.screen == Some(e.id)
                    && next.screen_button == 0 && out.send is None && out.effects
                    == seq![Effect::OpenScreen]
            }
            &&& room.inputs(Input::Power(row), config, version, now, next, out) ==> {
                &&& free && plain && e.activity is None ==> adjusts_row(
                    out,
                    room,
                    e.id,
                    Adjustment::Toggle,
                )
                &&& !free || e.activity is Some || begins(e.id@, "device:"@) || domain(e.id@)
                    == "climate"@ ==> next == room && out.send is None
            }
        }),
{
}

/// OK on the other rows opens what the row is: a thermostat, an activity, a
/// camera, a player or a television. A device that waits for its package says so.
pub proof fn ok_opens_what_the_row_is(
    room: Room,
    config: Config,
    version: u64,
    row: usize,
    now: u64,
    next: Room,
    out: Outcome,
)
    requires
        row < room.entries.len(),
        room.room is Some,
        room.busy is None,
        room.levels.len() == 0,
        room.inputs(Input::Pick(row), Some(config), version, now, next, out),
    ensures
        ({
            let e = room.entries[row as int];
            let id = bare(e.id@, "device:"@);
            &&& domain(e.id@) == "climate"@ ==> out.send is None && out.effects.len() == 2
                && out.effects[0] == Effect::HideCard && (out.effects[1] matches Effect::Thermostat {
                row: r,
                name,
                step,
                ..
            } && r == e.id && name == e.name && step is None)
            &&& domain(e.id@) != "climate"@ && begins(e.id@, "activity:"@) ==> out.effects
                == seq![Effect::OpenActivity { row: e.id }] && out.send is None && next == room
            &&& domain(e.id@) != "climate"@ && !begins(e.id@, "activity:"@) && begins(
                e.id@,
                "device:"@,
            ) ==> {
                &&& out.send is None
                &&& match config.spec_device(id) {
                    None => out.effects == seq![Effect::Detail(Line::NoControls)],
                    Some(d) => match d.integration {
                        Some(Integration::UnifiProtect { .. }) => out.effects
                            == seq![Effect::OpenCamera { row: e.id, name: e.name }],
                        Some(Integration::Legacy { needs_package }) => !d.player && screen_target(
                            config,
                            id,
                        ) is None ==> next.notice == Some(needs_package) && out.effects.len() == 0,
                        Some(_) => if d.player {
                            out.effects == seq![Effect::OpenPlayer { row: e.id }]
                        } else if screen_target(config, id) is Some {
                            out.effects == seq![Effect::OpenTv { row: e.id, name: e.name }]
                        } else {
                            out.effects == seq![Effect::Detail(Line::NoControls)]
                        },
                        None => if screen_target(config, id) is Some {
                            out.effects == seq![Effect::OpenTv { row: e.id, name: e.name }]
                        } else {
                            out.effects == seq![Effect::Detail(Line::NoControls)]
                        },
                    },
                }
            }
        }),
{
}

/// A level key moves the level of its own row by what was pressed, and the card
/// shows where to; a thermostat is stepped instead, the way of the key.
pub proof fn a_level_key_moves_its_own_row(
    room: Room,
    config: Option<Config>,
    version: u64,
    row: usize,
    delta: i32,
    now: u64,
    next: Room,
    out: Outcome,
)
    requires
        room.wf(),
        row < room.entries.len(),
        room.room is Some,
        room.inputs(Input::Brightness { row, delta }, config, version, now, next, out),
    ensures
        out.send is None,
        ({
            let e = room.entries[row as int];
            let climate = domain(e.id@) == "climate"@;
            &&& climate ==> next == room && out.effects.len() == 1 && (
            out.effects[0] matches Effect::Thermostat { row: r, name, step, .. } && r == e.id
                && name == e.name && (delta > 0 ==> step == Some(1i32)) && (delta < 0 ==> step
                == Some(-1i32)))
            &&& !climate && e.state is None ==> next == room && out.effects
                == seq![Effect::Detail(Line::Checking)]
            &&& !climate ==> match e.state {
                Some(DeviceState::Light(light)) => match brightness_after(
                    light,
                    room.pending_level(e.id@, now),
                    delta as int,
                ) {
                    Ok(level) => next.pending_level(e.id@, now) == Some(level as u8) && (
                    room.screen is None && now <= 0x7fff_ffff ==> next.card_until == Some(
                        (now + 1000) as u64,
                    )) && (room.screen is None ==> out.effects[0] == (Effect::Card {
                        name: e.name,
                        cover: false,
                        percent: level as u8,
                    })),
                    Err(refusal) => next == room && out.effects[0] == Effect::Detail(
                        Line::Refused(refusal),
                    ),
                },
                Some(DeviceState::Cover(cover)) => match position_after(
                    cover,
                    room.pending_level(e.id@, now),
                    delta as int,
                ) {
                    Ok(level) => next.pending_level(e.id@, now) == Some(level as u8) && (
                    room.screen is None ==> out.effects[0] == (Effect::Card {
                        name: e.name,
                        cover: true,
                        percent: level as u8,
                    })),
                    Err(refusal) => next == room && out.effects[0] == Effect::Detail(
                        Line::Refused(refusal),
                    ),
                },
                _ => true,
            }
        }),
{
    let e = room.entries[row as int];
    if domain(e.id@) != "climate"@ && room.level_after(e, delta as int, now) is Some
        && room.level_after(e, delta as int, now)->0 is Ok {
        let percent = room.level_after(e, delta as int, now)->0->Ok_0 as u8;
        a_target_that_is_set_is_found(room.levels, e.id, percent);
    }
}

proof fn a_target_that_is_set_is_found<T>(queue: Seq<(String, T)>, id: String, value: T)
    requires
        one_per_row(queue),
    ensures
        target_from(with_target(queue, id, value), id@, 0) matches Some(k) && with_target(
            queue,
            id,
            value,
        )[k].1 == value,
{
    let after = with_target(queue, id, value);
    only_the_latest_target_waits(queue, id, value);
    target_place_is_first(after, id@, 0);
    let k = choose|k: int|
        0 <= k < after.len() && (#[trigger] after[k]).0@ == id@ && after[k].1 == value;
    if target_from(after, id@, 0) is Some {
        let j = target_from(after, id@, 0)->0;
        if j != k {
            if j < k {
                assert(after[j].0@ != after[k].0@);
            } else {
                assert(after[k].0@ != after[j].0@);
            }
        }
    }
}

/// The control screen's buttons: close and home close it, a level is five either
/// way, a switch switches the row on the screen, and a blind's buttons are open,
/// stop and close from the left. Whatever a button did, the screen is drawn.
pub proof fn a_screens_button_acts_on_its_own_row(
    room: Room,
    config: Option<Config>,
    index: i32,
    now: u64,
    row: int,
)
    requires
        room.wf(),
        room.screen_row() == Some(row),
    ensures
        ({
            let e = room.entries[row];
            let acts = |word: ScreenWord| room.screen_acts(config, word, index, now);
            let free = room.busy is None && room.levels.len() == 0;
            &&& acts(ScreenWord::Close).0.screen is None && acts(ScreenWord::Close).1.effects
                == seq![Effect::CloseScreen { home: false }]
            &&& acts(ScreenWord::Home).0.screen is None && acts(ScreenWord::Home).1.effects
                == seq![Effect::CloseScreen { home: true }]
            &&& free ==> adjusts_row(
                acts(ScreenWord::Toggle).1,
                room,
                e.id,
                Adjustment::Toggle,
            )
            &&& !free ==> acts(ScreenWord::Toggle).1.send is None
            &&& index > 0 ==> acts(ScreenWord::Level).0 == room.adjusts(config, row, 5, now).0
            &&& index < 0 ==> acts(ScreenWord::Level).0 == room.adjusts(config, row, -5, now).0
            &&& acts(ScreenWord::Level).1.after.last() == Effect::Draw
            &&& acts(ScreenWord::Toggle).1.after.last() == Effect::Draw
            &&& acts(ScreenWord::Warmth).1.after.last() == Effect::Draw
            &&& acts(ScreenWord::Cover).1.after.last() == Effect::Draw
            &&& acts(ScreenWord::Button).1.after.last() == Effect::Draw
            &&& acts(ScreenWord::Button).1.send is None
        }),
        room.busy is None ==> {
            let e = room.entries[row];
            let cover = room.screen_acts(config, ScreenWord::Cover, index, now).1;
            let stops = (e.state matches Some(DeviceState::Cover(c)) && c.can_stop) || (
            e.plugin matches Some(p) && p.snapshot.cover matches Some(t) && t.stop);
            &&& index == 0 ==> adjusts_row(
                cover,
                room,
                e.id,
                Adjustment::Cover(CoverButton::Open),
            )
            &&& index == 2 ==> adjusts_row(
                cover,
                room,
                e.id,
                Adjustment::Cover(CoverButton::Close),
            )
            &&& index == 1 && stops ==> adjusts_row(
                cover,
                room,
                e.id,
                Adjustment::Cover(CoverButton::Stop),
            )
            &&& index == 1 && !stops ==> cover.send is None && cover.effects
                == seq![Effect::ScreenDetail(Line::CannotStop)]
        },
        room.busy is Some && index != 1 ==> room.screen_acts(
            config,
            ScreenWord::Cover,
            index,
            now,
        ).1.effects == seq![Effect::ScreenDetail(Line::StillSending)],
{
    the_screens_row_is_its_own(room.entries, room.screen->0@, 0);
}

/// The highlighted button of a blind moves by what was pressed, from the first to
/// the last; a lamp has none to move.
pub proof fn the_highlight_stays_on_the_buttons(
    room: Room,
    config: Option<Config>,
    index: i32,
    now: u64,
    row: int,
)
    requires
        room.screen_row() == Some(row),
        -100 <= index <= 100,
        0 <= room.screen_button <= 2,
    ensures
        ({
            let after = room.screen_acts(config, ScreenWord::Button, index, now).0;
            let to = room.screen_button + index;
            if Room::screen_cover(room.entries[row]) {
                &&& 0 <= after.screen_button <= 2
                &&& 0 <= to <= 2 ==> after.screen_button == to
                &&& to > 2 ==> after.screen_button == 2
                &&& to < 0 ==> after.screen_button == 0
            } else {
                after == room
            }
        }),
{
}

/// A colour key on the control screen moves the colour of the row on it, one step
/// the way of the key; a lamp that was not read says so.
pub proof fn a_colour_key_moves_its_own_row(
    room: Room,
    config: Option<Config>,
    index: i32,
    now: u64,
    row: int,
)
    requires
        room.wf(),
        room.screen_row() == Some(row),
        0 <= row < room.entries.len(),
    ensures
        ({
            let e = room.entries[row];
            let (next, out) = room.screen_acts(config, ScreenWord::Warmth, index, now);
            &&& out.send is None
            &&& e.state matches Some(DeviceState::Light(light)) ==> match light.mirek_range {
                None => next == room && out.effects.len() == 0,
                Some(_) => match mirek_after(light, room.pending_mirek(e.id@), index as int) {
                    Ok(mirek) => next.pending_mirek(e.id@) == Some(mirek as u16) && next.levels
                        == room.levels,
                    Err(refusal) => next == room && out.effects
                        == seq![Effect::ScreenDetail(Line::Refused(refusal))],
                },
            }
            &&& e.state matches Some(DeviceState::Cover(_)) ==> next == room && out.effects.len()
                == 0
        }),
{
    let e = room.entries[row];
    if let Some(DeviceState::Light(light)) = e.state {
        if light.mirek_range is Some {
            if let Ok(mirek) = mirek_after(light, room.pending_mirek(e.id@), index as int) {
                a_target_that_is_set_is_found(room.colours, e.id, mirek as u16);
            }
        }
    }
}

/// A physical key is tried by infrared first, as the command of that key for the
/// device of its row, where the device has a code; otherwise it is what the key
/// does without.
pub proof fn a_physical_key_is_tried_by_infrared_first(
    room: Room,
    config: Config,
    version: u64,
    row: usize,
    delta: i32,
    repeat: bool,
    now: u64,
    next: Room,
    out: Outcome,
)
    requires
        room.room is Some,
        room.ir_pending.len() < 32,
    ensures
        ({
            let device = row_device(config, room.room->0@, row as int);
            let listens = device matches Some(d) && d.ir;
            let waits = |word: Seq<char>|
                next.ir_pending.len() == room.ir_pending.len() + 1 && next.input == room.input
                    && next.ir_pending.last().device == device->0.id
                    && next.ir_pending.last().function.spec_name() == word
                    && next.ir_pending.last().repeat == repeat && next.ir_pending.last().version
                    == version;
            let level = Input::PhysicalLevel { row, delta, repeat };
            let pick = Input::PhysicalPick { row, repeat };
            let power = Input::PhysicalPower { row, repeat };
            &&& room.inputs(level, Some(config), version, now, next, out) ==> {
                &&& out.send is None && out.effects.len() == 0
                &&& listens ==> waits(
                    if delta > 0 {
                        "volume-up"@
                    } else {
                        "volume-down"@
                    },
                ) && next.ir_pending.last().resume == (Input::Brightness { row, delta })
                &&& !listens ==> next.input == seq![Input::Brightness { row, delta }] + room.input
                    && next.ir_pending == room.ir_pending
            }
            &&& room.inputs(pick, Some(config), version, now, next, out) ==> {
                &&& out.send is None
                &&& listens && row < room.entries.len() && switches(room.entries[row as int])
                    ==> waits("toggle"@) && next.ir_pending.last().resume == Input::Pick(row)
                &&& !listens ==> next.input == seq![Input::Pick(row)] + room.input
            }
            &&& room.inputs(power, Some(config), version, now, next, out) ==> {
                &&& out.send is None
                &&& listens && row < room.entries.len() && switches(room.entries[row as int])
                    ==> waits("toggle"@) && next.ir_pending.last().resume == Input::Power(row)
                &&& !listens ==> next.input == seq![Input::Power(row)] + room.input
            }
        }),
{
}

/// What a row is switched by: lamps and blinds can be, activities, thermostats and
/// rows with a screen of their own cannot.
pub proof fn which_rows_are_switched(e: Entry)
    ensures
        switches(e) <==> e.hue || domain(e.id@) == "light"@ || domain(e.id@) == "cover"@,
        takes_power(e) <==> e.activity is None && !begins(e.id@, "device:"@) && domain(e.id@)
            != "climate"@,
{
}

/// Back leaves the room: nothing of it waits, nothing of it is out, and an answer
/// that is still on its way is for another room.
pub proof fn back_leaves_the_room(
    room: Room,
    config: Option<Config>,
    version: u64,
    now: u64,
    next: Room,
    out: Outcome,
)
    requires
        room.inputs(Input::Back, config, version, now, next, out),
    ensures
        next.room is None && next.screen is None && next.busy is None && !next.refreshing,
        next.levels.len() == 0 && next.colours.len() == 0 && next.ir_pending.len() == 0
            && next.targets.len() == 0,
        next.level_flight is None && next.colour_flight is None && next.card_until is None,
        next.generation != room.generation,
        out.effects == seq![Effect::HideCard, Effect::LeaveList] && out.send is None,
{
}

/// A room that opens lists its own rows, with what was read of them a moment ago,
/// and reads them afresh; a room that is gone says so.
pub proof fn a_room_that_opens_lists_its_own_rows(
    room: Room,
    config: Option<Config>,
    name: String,
    version: u64,
    now: u64,
    next: Room,
    out: Outcome,
)
    requires
        room.inputs(Input::Open(name), config, version, now, next, out),
    ensures
        next.room == Some(name) && next.generation != room.generation && next.busy is None,
        next.levels.len() == 0 && next.colours.len() == 0 && next.ir_pending.len() == 0,
        out.effects[0] == Effect::HideCard && out.effects[1] == (Effect::ShowList { room: name }),
        config is None ==> next.entries.len() == 0 && out.send is None && out.effects.last()
            == Effect::Detail(Line::List(ListError::Unreadable)),
        config matches Some(c) ==> match c.spec_room(name@) {
            None => next.entries.len() == 0 && out.send is None && out.effects.last()
                == Effect::Detail(Line::List(ListError::RoomRemoved)),
            Some(found) => {
                &&& out.send matches Some(job)
                &&& job.operation is List && job.room == name && job.generation == next.generation
                &&& next.entries.len() == room_rows(c, found).len()
                &&& forall|k: int|
                    0 <= k < next.entries.len() ==> (#[trigger] next.entries[k]).id@ == room_rows(
                        c,
                        found,
                    )[k].id && next.entries[k].name@ == room_rows(c, found)[k].name
                        && next.entries[k].state == fresh_from(
                        room.readings,
                        room_rows(c, found)[k].id,
                        now,
                        0,
                    )
                &&& next.entries.len() == 0 ==> out.after[0] == Effect::Detail(Line::AddDevices)
            },
        },
        out.after.last() == Effect::FocusList,
        out.after[out.after.len() - 2] == (Effect::UpdateRows { reset: true }),
{
    if config is Some && config->0.spec_room(name@) is Some {
        let rows = room_rows(config->0, config->0.spec_room(name@)->0);
        assert forall|k: int| 0 <= k < next.entries.len() implies (#[trigger] next.entries[k]).id@
            == rows[k].id && next.entries[k].name@ == rows[k].name && next.entries[k].state
            == fresh_from(room.readings, rows[k].id, now, 0) by {
            assert(next.entries[k]@.id == rows[k].id);
            assert(next.entries[k]@.name == rows[k].name);
        }
    }
}

/// What the worker took: the row of an adjustment is busy from then on, what is
/// out is remembered, and what waited is taken from its queue.
pub proof fn what_the_worker_took_is_out(room: Room, job: Job, now: u64)
    ensures
        ({
            let (next, effects) = room.accepted(job, now);
            match job.operation {
                Operation::List => next.refreshing && next.busy == room.busy && next.generation
                    == room.generation,
                Operation::Ir(_) => next.busy == Some(Claim::Ir) && next.busy_since == Some(now)
                    && next.generation == job.generation,
                Operation::Adjust { id, adjustment } => {
                    &&& next.busy == Some(Claim::Row(id)) && next.busy_since == Some(now)
                    &&& next.generation == job.generation
                    &&& match adjustment {
                        Adjustment::Brightness(percent) => next.level_flight == Some((id, percent))
                            && next.last_send == now && next.colours == room.colours && (
                        room.levels.len() > 0 ==> next.levels == room.levels.subrange(
                            1,
                            room.levels.len() as int,
                        )),
                        Adjustment::Mirek(mirek) => next.colour_flight == Some((id, mirek))
                            && next.last_send == now && next.levels == room.levels && (
                        room.colours.len() > 0 ==> next.colours == room.colours.subrange(
                            1,
                            room.colours.len() as int,
                        )),
                        _ => next.levels == room.levels && next.colours == room.colours
                            && !next.refreshing,
                    }
                },
            }
        }),
{
}

/// What the worker had no room for is not lost: a key by infrared waits in front,
/// a level stays queued, and of a switch it is said.
pub proof fn what_the_worker_declined_waits(room: Room, job: Job)
    ensures
        ({
            let (next, effects) = room.declined(job);
            &&& next.busy == room.busy && next.levels == room.levels && next.colours
                == room.colours
            &&& match job.operation {
                Operation::Ir(work) => next.ir_pending == seq![work] + room.ir_pending,
                Operation::List => !next.refreshing && effects.len() == 0,
                Operation::Adjust { adjustment, .. } => next == room && (adjustment
                    == Adjustment::Toggle ==> effects
                    == seq![Effect::Detail(Line::ConnectionBusy)]) && (adjustment
                    != Adjustment::Toggle ==> effects.len() == 0),
            }
        }),
{
}

/// An answer for this room frees the worker; a state is shown on its own row and
/// on no other; a list replaces the rows; a key that infrared did not take does
/// what it does without; and what failed is said, and is not tried again.
pub proof fn an_answer_is_taken_by_its_own_row(
    room: Room,
    state: DeviceState,
    entries: Vec<Entry>,
    reason: Reason,
    resume: Input,
    handled: bool,
    now: u64,
    k: int,
)
    requires
        room.room is Some,
        0 <= k < room.entries.len(),
    ensures
        ({
            let (next, effects) = room.receives(room.generation, Reply::State(state), now);
            &&& next.busy is None && !next.refreshing && next.entries.len() == room.entries.len()
            &&& room.entries[k].id@ == state.spec_id()@ ==> next.entries[k].state == Some(state)
                && next.entries[k].id == room.entries[k].id
            &&& room.entries[k].id@ != state.spec_id()@ ==> next.entries[k] == room.entries[k]
            &&& effects[0] == (Effect::UpdateRows { reset: false })
        }),
        ({
            let (next, effects) = room.receives(room.generation, Reply::List(entries), now);
            &&& next.entries == entries@ && next.busy is None && !next.refreshing
                && next.last_refresh == now
            &&& effects.len() == 1 && (effects[0] matches Effect::UpdateRows { reset } && reset
                == other_rows(room.entries, entries@))
        }),
        ({
            let reply = Reply::IrChecked { handled, resume };
            let next = room.receives(room.generation, reply, now).0;
            &&& next.busy is None
            &&& handled ==> next.input == room.input
            &&& !handled ==> next.input == seq![resume] + room.input
        }),
        ({
            let (next, effects) = room.receives(room.generation, Reply::Failed(reason), now);
            &&& next.busy is None && next.level_flight is None && next.colour_flight is None
            &&& effects.contains(Effect::Failed(reason))
            &&& effects.last() == (Effect::UpdateRows { reset: false })
            &&& room.level_flight is Some ==> effects[0] == Effect::HideCard
            &&& room.level_flight is None ==> next.levels == room.levels && effects[0]
                == Effect::Failed(reason)
        }),
{
    let failed = room.receives(room.generation, Reply::Failed(reason), now).1;
    if room.level_flight is Some {
        assert(failed[1] == Effect::Failed(reason));
    } else {
        assert(failed[0] == Effect::Failed(reason));
    }
}

/// A list that has other rows is drawn from scratch.
pub proof fn other_rows_are_drawn_from_scratch(a: Seq<Entry>, b: Seq<Entry>, k: int)
    ensures
        a.len() != b.len() ==> other_rows(a, b),
        0 <= k < a.len() && a.len() == b.len() && a[k].id@ != b[k].id@ ==> other_rows(a, b),
        a.len() == b.len() && (forall|i: int|
            0 <= i < a.len() ==> (#[trigger] a[i]).id@ == b[i].id@) ==> !other_rows(a, b),
{
}

/// What waits goes out one at a time: levels before colours, the oldest first, no
/// faster than ten a second, and only while nothing else is out.
pub proof fn what_waits_goes_out_in_turn(room: Room, now: u64)
    requires
        now >= room.last_send,
    ensures
        room.busy is Some || room.refreshing || room.room is None || now - room.last_send < 100
            ==> room.adjustment_due(now) is None,
        room.busy is None && !room.refreshing && room.room is Some && now - room.last_send >= 100
            ==> if room.levels.len() > 0 {
            room.adjustment_due(now) matches Some(Operation::Adjust { id, adjustment }) && id
                == room.levels[0].0 && adjustment == Adjustment::Brightness(room.levels[0].1)
        } else if room.colours.len() > 0 {
            room.adjustment_due(now) matches Some(Operation::Adjust { id, adjustment }) && id
                == room.colours[0].0 && adjustment == Adjustment::Mirek(room.colours[0].1)
        } else {
            room.adjustment_due(now) is None
        },
        room.ir_due() <==> room.input.len() == 0 && room.busy is None && !room.refreshing
            && room.room is Some && room.ir_pending.len() > 0,
{
}

/// The rows are read again every five seconds, every half where all of them are
/// Hue lamps, and not while anything waits or is out.
pub proof fn the_rows_are_read_when_nothing_waits(room: Room, now: u64)
    requires
        now >= room.last_refresh,
    ensures
        room.refresh_due(now) ==> room.room is Some && room.busy is None && !room.refreshing
            && room.levels.len() == 0 && room.ir_pending.len() == 0 && now - room.last_refresh
            > 500,
        room.room is Some && room.busy is None && !room.refreshing && room.levels.len() == 0
            && room.ir_pending.len() == 0 ==> {
            let bridge = forall|k: int|
                0 <= k < room.entries.len() ==> (#[trigger] room.entries[k]).hue;
            &&& now - room.last_refresh > 5000 ==> room.refresh_due(now)
            &&& bridge && now - room.last_refresh > 500 ==> room.refresh_due(now)
            &&& !bridge && now - room.last_refresh <= 5000 ==> !room.refresh_due(now)
        },
{
}

/// The level that a row is on its way to: what waits before what is out, and what
/// is out before where a blind still travels, for ten seconds.
pub proof fn a_row_is_on_its_way_to_the_latest_level(room: Room, id: String, now: u64)
    ensures
        target_from(room.levels, id@, 0) matches Some(k) ==> room.pending_level(id@, now) == Some(
            room.levels[k].1,
        ),
        target_from(room.levels, id@, 0) is None ==> (room.level_flight matches Some((row, percent))
            ==> (row@ == id@ ==> room.pending_level(id@, now) == Some(percent))),
        target_from(room.levels, id@, 0) is None && room.level_flight is None && room.targets.len()
            == 0 ==> room.pending_level(id@, now) is None,
        target_from(room.colours, id@, 0) matches Some(k) ==> room.pending_mirek(id@) == Some(
            room.colours[k].1,
        ),
        target_from(room.colours, id@, 0) is None ==> (room.colour_flight matches Some(
            (row, mirek),
        ) ==> (row@ == id@ ==> room.pending_mirek(id@) == Some(mirek))),
        target_from(room.colours, id@, 0) is None && room.colour_flight is None
            ==> room.pending_mirek(id@) is None,
        room.targets.len() > 0 && room.targets[0].0@ == id@ && now >= room.targets[0].1 && target_from(
            room.levels,
            id@,
            0,
        ) is None && room.level_flight is None ==> room.pending_level(id@, now) == if now
            - room.targets[0].1 < 10000 {
            Some(room.targets[0].2)
        } else {
            None
        },
{
}

/// What a row says: that it is updating while its own write is out, an activity's
/// caption, a device's own line, and otherwise what it reads; a row that was not
/// read says why.
pub proof fn a_rows_line_says_how_it_is(room: Room, config: Option<Config>, e: Entry)
    ensures
        ({
            let line = row_line(room, config, e);
            let writing = !e.hue && (room.busy matches Some(Claim::Row(row)) && row@ == e.id@);
            let plain = !writing && e.activity is None && !begins(e.id@, "device:"@);
            &&& writing ==> line == "Updating…"@
            &&& !writing ==> (e.activity matches Some((glyph, caption)) ==> line == caption@)
            &&& !writing && e.activity is None && begins(e.id@, "device:"@) ==> line
                == device_detail(config, e.id@)
            &&& plain ==> match e.state {
                Some(state) => line == state.spec_description(),
                None => {
                    &&& e.unpaired ==> line == "Needs pairing"@
                    &&& !e.unpaired && room.refreshing ==> line == "Checking status…"@
                    &&& !e.unpaired && !room.refreshing ==> line == "Unavailable"@
                },
            }
        }),
{
}

/// The control screen names the room, and whatever drives the device: its bridge,
/// its package's connection, or Home Assistant.
pub proof fn the_screen_names_the_room_and_the_source(
    room: Room,
    config: Config,
    e: Entry,
    id: String,
)
    requires
        room.room == Some(id),
        config.spec_room(id@) is Some,
        config.spec_room(id@)->0.name@.len() > 0,
    ensures
        ({
            let place = config.spec_room(id@)->0.name@;
            let line = source_text(room, Some(config), e);
            &&& e.hue ==> line == place + " · "@ + "Philips Hue"@
            &&& !e.hue && e.matter ==> line == place + " · "@ + "Matter"@
            &&& !e.hue && !e.matter && e.plugin is None ==> line == place + " · "@
                + "Home Assistant"@
            &&& !e.hue && !e.matter ==> (e.plugin matches Some(p) ==> match config.spec_connection(
                p.connection@,
            ) {
                Some(found) => line == place + " · "@ + found.name@,
                None => line == place + " · "@ + "Integration"@,
            })
        }),
{
}

/// The control screen is drawn from the row it is of: its name, what it reads and
/// is on its way to. It says that a write takes long after a second and a half,
/// and what a key said goes before what the device says of itself.
pub proof fn the_screen_is_drawn_from_its_own_row(
    room: Room,
    config: Option<Config>,
    e: Entry,
    detail: Seq<char>,
    now: u64,
)
    ensures
        ({
            let drawn = screen_drawn(room, config, e, detail, now);
            let plain = picture(
                e.name@,
                source_text(room, config, e),
                declared_of(e@),
                e.state,
                room.pending_level(e.id@, now),
                room.pending_mirek(e.id@),
            );
            &&& drawn.view.title == plain.title && drawn.view.state == plain.state
                && drawn.view.level == plain.level && drawn.view.active == plain.active
                && drawn.view.level_percent == plain.level_percent && drawn.view.mirek
                == plain.mirek
            &&& detail.len() > 0 ==> drawn.view.detail == detail
            &&& detail.len() == 0 ==> drawn.view.detail == plain.detail
            &&& drawn.button == room.screen_button
            &&& room.busy is None ==> !drawn.updating
            &&& room.busy matches Some(Claim::Row(row)) ==> (room.busy_since matches Some(at) ==> (
            row@ == e.id@ && now >= at ==> (drawn.updating <==> now - at >= 1500)))
            &&& room.busy matches Some(Claim::Row(row)) ==> (row@ != e.id@ ==> !drawn.updating)
        }),
{
}

/// The words that the list and the control screen have for a key that did nothing.
pub proof fn the_lists_words()
    ensures
        Line::Empty.spec_text() == ""@,
        Line::Checking.spec_text() == "Checking this device’s status. Try again in a moment."@,
        Line::CheckingLight.spec_text() == "Checking this light's status. Try again in a moment."@,
        Line::ConnectionBusy.spec_text() == "Connection busy. Press OK again in a moment."@,
        Line::CannotStop.spec_text() == "This blind cannot be stopped part way."@,
        Line::StillSending.spec_text() == "Still sending the last one."@,
        Line::NoControls.spec_text() == "Controls for this device are not available yet."@,
        Line::AddDevices.spec_text() == "Add devices to this room in the web editor."@,
{
}

/// A room's heading: its name, and its one scene by name or how many there are.
pub proof fn a_rooms_heading_names_it(
    config: Config,
    room: Seq<char>,
    heading: Heading,
)
    requires
        heads(Some(config), room, heading),
    ensures
        config.spec_room(room) matches Some(found) ==> heading.title@ == found.name@,
        config.spec_room(room) is None ==> heading.title@ == "Room"@,
        heading.scenes == scenes_in(config.scenes@, room, 0).len(),
        heading.scenes == 1 ==> heading.scene_label@ == scenes_in(config.scenes@, room, 0)[0]@,
        heading.scenes != 1 ==> heading.scene_label@ == decimal(heading.scenes as nat)
            + " scenes"@,
{
}

/// A scene is a room's where it names the room.
pub proof fn a_scene_is_of_the_rooms_that_it_names(scenes: Seq<Scene>, room: Seq<char>, i: int)
    requires
        0 <= i < scenes.len(),
    ensures
        listed(scenes[i].rooms@, room) ==> scenes_in(scenes, room, i) == seq![scenes[i].name]
            + scenes_in(scenes, room, i + 1),
        !listed(scenes[i].rooms@, room) ==> scenes_in(scenes, room, i) == scenes_in(
            scenes,
            room,
            i + 1,
        ),
        scenes_in(scenes, room, scenes.len() as int).len() == 0,
{
}

/// What is called off for a row goes from its queue, and nothing else does.
pub proof fn calling_off_a_row_keeps_the_others<T>(queue: Seq<(String, T)>, id: Seq<char>, i: int)
    requires
        0 <= i < queue.len(),
    ensures
        queue[i].0@ == id ==> queue_without(queue, id, i) == queue_without(queue, id, i + 1),
        queue[i].0@ != id ==> queue_without(queue, id, i) == seq![queue[i]] + queue_without(
            queue,
            id,
            i + 1,
        ),
{
}

/// The same of where blinds travel.
pub proof fn calling_off_a_blind_keeps_the_others(
    targets: Seq<(String, u64, u8)>,
    id: Seq<char>,
    i: int,
)
    requires
        0 <= i < targets.len(),
    ensures
        targets[i].0@ == id ==> targets_without(targets, id, i) == targets_without(
            targets,
            id,
            i + 1,
        ),
        targets[i].0@ != id ==> targets_without(targets, id, i) == seq![targets[i]]
            + targets_without(targets, id, i + 1),
{
}

/// The row on the control screen is the first with its id.
pub proof fn the_screens_row_is_its_own(entries: Seq<Entry>, id: Seq<char>, i: int)
    requires
        0 <= i,
    ensures
        match entry_place(entries, id, i) {
            Some(k) => i <= k < entries.len() && entries[k].id@ == id,
            None => forall|k: int| i <= k < entries.len() ==> (#[trigger] entries[k]).id@ != id,
        },
    decreases entries.len() - i,
{
    if i < entries.len() && entries[i].id@ != id {
        the_screens_row_is_its_own(entries, id, i + 1);
    }
}

/// At most thirty-two keys wait for infrared; what is pressed beyond them is let
/// go, and does nothing else either.
pub proof fn keys_beyond_those_that_wait_are_let_go(
    room: Room,
    config: Config,
    version: u64,
    row: usize,
    delta: i32,
    repeat: bool,
    now: u64,
    next: Room,
    out: Outcome,
)
    requires
        room.room is Some,
        room.ir_pending.len() >= 32,
        row_device(config, room.room->0@, row as int) matches Some(d) && d.ir,
        room.inputs(
            Input::PhysicalLevel { row, delta, repeat },
            Some(config),
            version,
            now,
            next,
            out,
        ),
    ensures
        next == room && out.send is None && out.effects.len() == 0,
{
}

/// A connection that was busy gets what was out again, unless a newer one waits.
pub proof fn what_a_busy_connection_missed_waits_again(
    room: Room,
    id: String,
    percent: u8,
    now: u64,
)
    requires
        room.room is Some,
        room.level_flight == Some((id, percent)),
    ensures
        ({
            let next = room.receives(room.generation, Reply::Busy, now).0;
            &&& next.level_flight is None && next.busy is None && next.last_send == now
            &&& target_from(room.levels, id@, 0) is None ==> next.levels == seq![(id, percent)]
                + room.levels
            &&& target_from(room.levels, id@, 0) is Some ==> next.levels == room.levels
        }),
{
}

/// A blind's card speaks of its position, and a lamp's of its brightness.
pub proof fn a_card_is_labelled_by_its_kind()
    ensures
        label_of(true) == "Open position"@,
        label_of(false) == "Brightness"@,
{
}

} // verus!
