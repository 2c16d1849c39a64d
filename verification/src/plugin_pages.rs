//! The control pages of a packaged device: what the package declares, drawn as
//! pages of tiles, with what the device reports in them.
use crate::commands::VolumeDb;
use crate::num::{clamp, clamped};
use crate::text::{decimal, digit, number, same};
use vstd::prelude::*;

verus! {

/// How many tiles a page holds.
pub const TILES: usize = 6;

/// A command that a package declares, and its label.
#[derive(Debug)]
pub struct Capability {
    pub id: String,
    pub label: String,
}

/// An input that a device reports.
#[derive(Debug)]
pub struct Selectable {
    pub id: String,
    pub name: String,
}

/// What a device reports, as far as its pages show it.
#[derive(Debug)]
pub struct PanelStatus {
    pub on: Option<bool>,
    pub playing: Option<bool>,
    pub muted: Option<bool>,
    pub volume: Option<u8>,
    pub volume_db: Option<VolumeDb>,
    pub input: Option<String>,
    pub title: Option<String>,
}

/// A field of the status.
#[derive(Clone, Copy, PartialEq, Eq, Structural, Debug)]
pub enum StatusField {
    On,
    Playing,
    Muted,
    Volume,
    VolumeDb,
    Input,
    Title,
}

/// A part of what a package declares for its pages.
#[derive(Debug)]
pub enum Component {
    VolumeDbControl { label: String },
    CommandGroup { title: String, commands: Vec<String> },
    StatusText { label: String, field: StatusField },
    Toggle { label: String, state: StatusField, on: String, off: String },
    InputSelector { label: String },
    /// A part that these pages do not draw.
    Undrawn,
}

/// A valid set-volume action that a package declares, in tenths of a decibel.
#[derive(Debug)]
pub struct VolumeSchema {
    pub min_tenths: i16,
    pub max_tenths: i16,
    pub step_tenths: u16,
    /// Every level that the package accepts.
    pub accepted: Vec<i16>,
}

/// The packaged device whose pages are shown.
#[derive(Debug)]
pub struct PluginTarget {
    pub activity: String,
    pub room: String,
    pub device: String,
    pub connection: String,
    /// Which child of the connection the device is; empty where it is the
    /// connection itself.
    pub resource: String,
    pub label: String,
    pub capabilities: Vec<Capability>,
    pub volume: Option<VolumeSchema>,
    pub supports_inputs: bool,
    pub presentation: Vec<Component>,
}

/// A packaged device's pages: the device, what it reports, and the level that is
/// being chosen.
#[derive(Debug)]
pub struct PluginView {
    pub target: PluginTarget,
    pub status: PanelStatus,
    pub inputs: Vec<Selectable>,
    pub volume_draft: Option<i16>,
}

/// What a tile does.
#[derive(Debug)]
pub enum TileAction {
    Command(String),
    Toggle { state: StatusField, on: String, off: String },
    RefreshStatus,
    RefreshInputs,
    AdjustVolume(i16),
    ResetVolume,
    SetVolume(i16),
}

/// The picture on a tile.
#[derive(Clone, Copy, PartialEq, Eq, Structural, Debug)]
pub enum TileIcon {
    RefreshCw,
    Volume2,
    Minus,
    Plus,
    RotateCcw,
    CirclePlay,
    Activity,
    Power,
    ListVideo,
}

#[derive(Debug)]
pub struct Tile {
    pub label: String,
    pub detail: String,
    pub icon: TileIcon,
    pub enabled: bool,
    pub action: TileAction,
}

#[derive(Debug)]
pub struct PanelPage {
    pub title: String,
    pub tiles: Vec<Tile>,
}

/// What a tile does, as a mathematical value.
pub enum Deed {
    Command(Seq<char>),
    Toggle { state: StatusField, on: Seq<char>, off: Seq<char> },
    RefreshStatus,
    RefreshInputs,
    AdjustVolume(i16),
    ResetVolume,
    SetVolume(i16),
}

/// A tile, as mathematical values.
#[verifier::ext_equal]
pub struct Face {
    pub label: Seq<char>,
    pub detail: Seq<char>,
    pub icon: TileIcon,
    pub enabled: bool,
    pub action: Deed,
}

/// A page, as mathematical values.
#[verifier::ext_equal]
pub struct Sheet {
    pub title: Seq<char>,
    pub tiles: Seq<Face>,
}

impl View for TileAction {
    type V = Deed;

    open spec fn view(&self) -> Deed {
        match self {
            TileAction::Command(c) => Deed::Command(c@),
            TileAction::Toggle { state, on, off } => Deed::Toggle {
                state: *state,
                on: on@,
                off: off@,
            },
            TileAction::RefreshStatus => Deed::RefreshStatus,
            TileAction::RefreshInputs => Deed::RefreshInputs,
            TileAction::AdjustVolume(d) => Deed::AdjustVolume(*d),
            TileAction::ResetVolume => Deed::ResetVolume,
            TileAction::SetVolume(t) => Deed::SetVolume(*t),
        }
    }
}

impl View for Tile {
    type V = Face;

    open spec fn view(&self) -> Face {
        Face {
            label: self.label@,
            detail: self.detail@,
            icon: self.icon,
            enabled: self.enabled,
            action: self.action@,
        }
    }
}

/// Tiles, as mathematical values.
pub open spec fn faces(tiles: Seq<Tile>) -> Seq<Face> {
    tiles.map_values(|t: Tile| t@)
}

impl View for PanelPage {
    type V = Sheet;

    open spec fn view(&self) -> Sheet {
        Sheet { title: self.title@, tiles: faces(self.tiles@) }
    }
}

/// Pages, as mathematical values.
pub open spec fn sheets(pages: Seq<PanelPage>) -> Seq<Sheet> {
    pages.map_values(|p: PanelPage| p@)
}

impl TileIcon {
    /// The picture's name in the catalogue of pictures.
    pub open spec fn spec_name(self) -> Seq<char> {
        match self {
            TileIcon::RefreshCw => "refresh-cw"@,
            TileIcon::Volume2 => "volume-2"@,
            TileIcon::Minus => "minus"@,
            TileIcon::Plus => "plus"@,
            TileIcon::RotateCcw => "rotate-ccw"@,
            TileIcon::CirclePlay => "circle-play"@,
            TileIcon::Activity => "activity"@,
            TileIcon::Power => "power"@,
            TileIcon::ListVideo => "list-video"@,
        }
    }

    /// The picture's name in the catalogue of pictures.
    pub fn name(&self) -> (r: &'static str)
        ensures
            r@ == self.spec_name(),
    {
        match self {
            TileIcon::RefreshCw => "refresh-cw",
            TileIcon::Volume2 => "volume-2",
            TileIcon::Minus => "minus",
            TileIcon::Plus => "plus",
            TileIcon::RotateCcw => "rotate-ccw",
            TileIcon::CirclePlay => "circle-play",
            TileIcon::Activity => "activity",
            TileIcon::Power => "power",
            TileIcon::ListVideo => "list-video",
        }
    }
}

/// A status field that is on or off, where the device reports it.
pub open spec fn field_bool(status: PanelStatus, field: StatusField) -> Option<bool> {
    match field {
        StatusField::On => status.on,
        StatusField::Playing => status.playing,
        StatusField::Muted => status.muted,
        _ => None,
    }
}

/// A status field that is on or off, where the device reports it.
pub fn status_bool(status: &PanelStatus, field: StatusField) -> (r: Option<bool>)
    ensures
        r == field_bool(*status, field),
{
    match field {
        StatusField::On => status.on,
        StatusField::Playing => status.playing,
        StatusField::Muted => status.muted,
        _ => None,
    }
}

/// A level in tenths of a decibel, with a minus sign before a negative one.
pub open spec fn db_text(tenths: int) -> Seq<char> {
    let size = if tenths < 0 {
        -tenths
    } else {
        tenths
    };
    (if tenths < 0 {
        "−"@
    } else {
        ""@
    }) + decimal((size / 10) as nat) + "."@ + digit((size % 10) as nat) + " dB"@
}

/// A level in tenths of a decibel, with a minus sign before a negative one.
pub fn format_db(tenths: i16) -> (r: String)
    ensures
        r@ == db_text(tenths as int),
{
    let mut s = if tenths < 0 {
        "−".to_owned()
    } else {
        "".to_owned()
    };
    let size: u64 = if tenths < 0 {
        (-(tenths as i64)) as u64
    } else {
        tenths as u64
    };
    s.append(number(size / 10).as_str());
    s.append(".");
    s.append(number(size % 10).as_str());
    s.append(" dB");
    s
}

/// Whether the package accepts a level.
pub open spec fn accepts(schema: Option<VolumeSchema>, tenths: i16) -> bool {
    schema matches Some(s) && s.accepted@.contains(tenths)
}

fn is_accepted(schema: &Option<VolumeSchema>, tenths: i16) -> (r: bool)
    ensures
        r == accepts(*schema, tenths),
{
    match schema {
        Some(s) => {
            let mut i: usize = 0;
            while i < s.accepted.len()
                invariant
                    i <= s.accepted.len(),
                    *schema == Some(*s),
                    forall|k: int| 0 <= k < i ==> s.accepted@[k] != tenths,
                decreases s.accepted.len() - i,
            {
                if s.accepted[i] == tenths {
                    return true;
                }
                i = i + 1;
            }
            false
        },
        None => false,
    }
}

/// The level that the device reports, where it is one that can be set.
pub open spec fn observed(view: PluginView) -> Option<i16> {
    match view.status.volume_db {
        Some(VolumeDb::Reading { tenths }) => if accepts(view.target.volume, tenths) {
            Some(tenths)
        } else {
            None
        },
        _ => None,
    }
}

/// The level that the device reports, where it is one that can be set.
pub fn observed_volume(view: &PluginView) -> (r: Option<i16>)
    ensures
        r == observed(*view),
{
    match view.status.volume_db {
        Some(VolumeDb::Reading { tenths }) => if is_accepted(&view.target.volume, tenths) {
            Some(tenths)
        } else {
            None
        },
        _ => None,
    }
}

/// The level that an adjustment chooses: some steps from the one that is being
/// chosen, inside the declared range, or the lowest where none is. A reading that
/// is not known never becomes an invented one.
pub open spec fn adjusted(view: PluginView, delta: int) -> Option<int> {
    match view.target.volume {
        None => None,
        Some(s) => Some(
            match view.volume_draft {
                Some(draft) => clamped(
                    draft + delta * s.step_tenths,
                    s.min_tenths as int,
                    s.max_tenths as int,
                ),
                None => s.min_tenths as int,
            },
        ),
    }
}

/// A declared range that is not empty.
pub open spec fn volume_wf(view: PluginView) -> bool {
    view.target.volume matches Some(s) ==> s.min_tenths <= s.max_tenths
}

/// The level that an adjustment chooses.
pub fn adjusted_volume(view: &PluginView, delta: i16) -> (r: Option<i16>)
    requires
        volume_wf(*view),
    ensures
        match adjusted(*view, delta as int) {
            Some(t) => r == Some(t as i16) && i16::MIN <= t <= i16::MAX,
            None => r is None,
        },
{
    match &view.target.volume {
        None => None,
        Some(s) => match view.volume_draft {
            Some(draft) => {
                assert(-0x8000 * 0x10000 <= delta * s.step_tenths <= 0x8000 * 0x10000)
                    by (nonlinear_arith)
                    requires
                        -0x8000 <= delta < 0x8000,
                        0 <= s.step_tenths < 0x10000,
                ;
                let change: i64 = delta as i64 * s.step_tenths as i64;
                Some(
                    clamp(draft as i64 + change, s.min_tenths as i64, s.max_tenths as i64) as i16,
                )
            },
            None => Some(s.min_tenths),
        },
    }
}

/// What a field of the status says.
pub open spec fn field_text(status: PanelStatus, field: StatusField) -> Seq<char> {
    match field {
        StatusField::On => match status.on {
            Some(true) => "On"@,
            Some(false) => "Off"@,
            None => "Unavailable"@,
        },
        StatusField::Playing => match status.playing {
            Some(true) => "Playing"@,
            Some(false) => "Paused"@,
            None => "Unavailable"@,
        },
        StatusField::Muted => match status.muted {
            Some(true) => "Muted"@,
            Some(false) => "Unmuted"@,
            None => "Unavailable"@,
        },
        StatusField::Volume => match status.volume {
            Some(v) => decimal(v as nat) + "%"@,
            None => "Unavailable"@,
        },
        StatusField::VolumeDb => match status.volume_db {
            Some(VolumeDb::Reading { tenths }) => db_text(tenths as int),
            Some(VolumeDb::Minimum) => "Minimum"@,
            None => "Unavailable"@,
        },
        StatusField::Input => match status.input {
            Some(input) => input@,
            None => "Unavailable"@,
        },
        StatusField::Title => match status.title {
            Some(title) => title@,
            None => "Unavailable"@,
        },
    }
}

fn choice(value: Option<bool>, yes: &str, no: &str) -> (r: String)
    ensures
        r@ == match value {
            Some(true) => yes@,
            Some(false) => no@,
            None => "Unavailable"@,
        },
{
    match value {
        Some(true) => yes.to_owned(),
        Some(false) => no.to_owned(),
        None => "Unavailable".to_owned(),
    }
}

/// What a field of the status says.
pub fn status_text(status: &PanelStatus, field: StatusField) -> (r: String)
    ensures
        r@ == field_text(*status, field),
{
    match field {
        StatusField::On => choice(status.on, "On", "Off"),
        StatusField::Playing => choice(status.playing, "Playing", "Paused"),
        StatusField::Muted => choice(status.muted, "Muted", "Unmuted"),
        StatusField::Volume => match status.volume {
            Some(v) => {
                let mut s = number(v as u64);
                s.append("%");
                s
            },
            None => "Unavailable".to_owned(),
        },
        StatusField::VolumeDb => match status.volume_db {
            Some(VolumeDb::Reading { tenths }) => format_db(tenths),
            Some(VolumeDb::Minimum) => "Minimum".to_owned(),
            None => "Unavailable".to_owned(),
        },
        StatusField::Input => match &status.input {
            Some(input) => input.clone(),
            None => "Unavailable".to_owned(),
        },
        StatusField::Title => match &status.title {
            Some(title) => title.clone(),
            None => "Unavailable".to_owned(),
        },
    }
}

/// The level that is being chosen, where the package accepts it.
pub open spec fn settable(view: PluginView) -> Option<i16> {
    match view.volume_draft {
        Some(draft) => if accepts(view.target.volume, draft) {
            Some(draft)
        } else {
            None
        },
        None => None,
    }
}

/// Whether an adjustment would move the level that is being chosen.
pub open spec fn adjustment_moves(view: PluginView, delta: int) -> bool {
    match adjusted(view, delta) {
        Some(t) => settable(view) != Some(t as i16),
        None => false,
    }
}

/// The page that chooses a level: the reading, the level that is being chosen,
/// and what moves it. Nothing is sent but by "Set volume".
pub open spec fn volume_sheet(view: PluginView, label: Seq<char>) -> Sheet {
    let draft = settable(view);
    let target = match draft {
        Some(t) => db_text(t as int),
        None => "Choose a target"@,
    };
    Sheet {
        title: label,
        tiles: seq![
            Face {
                label: "Current volume"@,
                detail: field_text(view.status, StatusField::VolumeDb),
                icon: TileIcon::RefreshCw,
                enabled: true,
                action: Deed::RefreshStatus,
            },
            Face {
                label: "Set volume"@,
                detail: target,
                icon: TileIcon::Volume2,
                enabled: draft is Some,
                action: Deed::SetVolume(
                    match draft {
                        Some(t) => t,
                        None => 0,
                    },
                ),
            },
            Face {
                label: "Lower target"@,
                detail: target,
                icon: TileIcon::Minus,
                enabled: adjustment_moves(view, -1),
                action: Deed::AdjustVolume(-1i16),
            },
            Face {
                label: "Raise target"@,
                detail: target,
                icon: TileIcon::Plus,
                enabled: adjustment_moves(view, 1),
                action: Deed::AdjustVolume(1),
            },
            Face {
                label: "Reset target"@,
                detail: "Use current reading"@,
                icon: TileIcon::RotateCcw,
                enabled: observed(view) is Some,
                action: Deed::ResetVolume,
            },
        ],
    }
}

fn tile(label: &str, detail: String, icon: TileIcon, enabled: bool, action: TileAction) -> (r: Tile)
    ensures
        r@ == (Face { label: label@, detail: detail@, icon, enabled, action: action@ }),
{
    Tile { label: label.to_owned(), detail, icon, enabled, action }
}

/// The page that chooses a level.
pub fn volume_page(view: &PluginView, label: &str) -> (r: PanelPage)
    requires
        volume_wf(*view),
    ensures
        r@ == volume_sheet(*view, label@),
{
    let draft: Option<i16> = match view.volume_draft {
        Some(t) => if is_accepted(&view.target.volume, t) {
            Some(t)
        } else {
            None
        },
        None => None,
    };
    let target = match draft {
        Some(t) => format_db(t),
        None => "Choose a target".to_owned(),
    };
    let lower = match adjusted_volume(view, -1) {
        Some(t) => draft != Some(t),
        None => false,
    };
    let higher = match adjusted_volume(view, 1) {
        Some(t) => draft != Some(t),
        None => false,
    };
    let mut tiles: Vec<Tile> = Vec::new();
    tiles.push(
        tile(
            "Current volume",
            status_text(&view.status, StatusField::VolumeDb),
            TileIcon::RefreshCw,
            true,
            TileAction::RefreshStatus,
        ),
    );
    tiles.push(
        tile(
            "Set volume",
            target.clone(),
            TileIcon::Volume2,
            draft.is_some(),
            TileAction::SetVolume(
                match draft {
                    Some(t) => t,
                    None => 0,
                },
            ),
        ),
    );
    tiles.push(
        tile("Lower target", target.clone(), TileIcon::Minus, lower, TileAction::AdjustVolume(-1)),
    );
    tiles.push(
        tile("Raise target", target, TileIcon::Plus, higher, TileAction::AdjustVolume(1)),
    );
    tiles.push(
        tile(
            "Reset target",
            "Use current reading".to_owned(),
            TileIcon::RotateCcw,
            observed_volume(view).is_some(),
            TileAction::ResetVolume,
        ),
    );
    let page = PanelPage { title: label.to_owned(), tiles };
    assert(page@.tiles =~= volume_sheet(*view, label@).tiles);
    page
}

/// The command that a tile sends: its own, or the one of a toggle that the
/// reported state calls for. An unknown state sends nothing.
pub open spec fn command_of(action: Deed, status: PanelStatus) -> Option<Seq<char>> {
    match action {
        Deed::Command(command) => Some(command),
        Deed::Toggle { state, on, off } => match field_bool(status, state) {
            Some(true) => Some(off),
            Some(false) => Some(on),
            None => None,
        },
        _ => None,
    }
}

/// The command that a tile sends.
pub fn plugin_command(action: &TileAction, status: &PanelStatus) -> (r: Option<String>)
    ensures
        match r {
            Some(command) => command_of(action@, *status) == Some(command@),
            None => command_of(action@, *status) is None,
        },
{
    match action {
        TileAction::Command(command) => Some(command.clone()),
        TileAction::Toggle { state, on, off } => match status_bool(status, *state) {
            Some(true) => Some(off.clone()),
            Some(false) => Some(on.clone()),
            None => None,
        },
        _ => None,
    }
}

/// The label of a command: the package's, or the command itself.
pub open spec fn command_label(capabilities: Seq<Capability>, command: Seq<char>, i: int) -> Seq<char>
    decreases capabilities.len() - i,
{
    if i < 0 || i >= capabilities.len() {
        command
    } else if capabilities[i].id@ == command {
        capabilities[i].label@
    } else {
        command_label(capabilities, command, i + 1)
    }
}

/// The tile of a command.
pub open spec fn command_face(view: PluginView, command: Seq<char>) -> Face {
    Face {
        label: command_label(view.target.capabilities@, command, 0),
        detail: "Command"@,
        icon: TileIcon::CirclePlay,
        enabled: true,
        action: Deed::Command(command),
    }
}

/// The tile of a command.
pub fn command_tile(view: &PluginView, command: &String) -> (r: Tile)
    ensures
        r@ == command_face(*view, command@),
{
    let capabilities = &view.target.capabilities;
    let mut label = command.clone();
    let mut i: usize = 0;
    while i < capabilities.len()
        invariant_except_break
            i <= capabilities.len(),
            label@ == command@,
            command_label(capabilities@, command@, 0) == command_label(
                capabilities@,
                command@,
                i as int,
            ),
        ensures
            label@ == command_label(capabilities@, command@, 0),
        decreases capabilities.len() - i,
    {
        if same(capabilities[i].id.as_str(), command.as_str()) {
            label = capabilities[i].label.clone();
            break;
        }
        i = i + 1;
    }
    Tile {
        label,
        detail: "Command".to_owned(),
        icon: TileIcon::CirclePlay,
        enabled: true,
        action: TileAction::Command(command.clone()),
    }
}

/// Tiles laid out on pages, six to a page, from a place on.
pub open spec fn chunked(title: Seq<char>, tiles: Seq<Face>, i: int) -> Seq<Sheet>
    decreases tiles.len() - i,
{
    if i < 0 || i >= tiles.len() {
        Seq::empty()
    } else {
        let to = if i + TILES < tiles.len() {
            i + TILES
        } else {
            tiles.len() as int
        };
        seq![Sheet { title, tiles: tiles.subrange(i, to) }] + chunked(title, tiles, to)
    }
}

impl Tile {
    fn copy(&self) -> (r: Tile)
        ensures
            r@ == self@,
    {
        Tile {
            label: self.label.clone(),
            detail: self.detail.clone(),
            icon: self.icon,
            enabled: self.enabled,
            action: match &self.action {
                TileAction::Command(c) => TileAction::Command(c.clone()),
                TileAction::Toggle { state, on, off } => TileAction::Toggle {
                    state: *state,
                    on: on.clone(),
                    off: off.clone(),
                },
                TileAction::RefreshStatus => TileAction::RefreshStatus,
                TileAction::RefreshInputs => TileAction::RefreshInputs,
                TileAction::AdjustVolume(d) => TileAction::AdjustVolume(*d),
                TileAction::ResetVolume => TileAction::ResetVolume,
                TileAction::SetVolume(t) => TileAction::SetVolume(*t),
            },
        }
    }
}

/// Lay tiles out on pages, six to a page.
pub fn chunk_page(title: &str, tiles: &Vec<Tile>, pages: &mut Vec<PanelPage>)
    ensures
        sheets(final(pages)@) == sheets(old(pages)@) + chunked(title@, faces(tiles@), 0),
{
    let ghost all = faces(tiles@);
    let ghost started = sheets(pages@);
    let mut i: usize = 0;
    assert(sheets(pages@) + chunked(title@, all, 0) =~= started + chunked(title@, all, 0));
    while i < tiles.len()
        invariant
            i <= tiles@.len(),
            all == faces(tiles@),
            sheets(pages@) + chunked(title@, all, i as int) == started + chunked(title@, all, 0),
        decreases tiles.len() - i,
    {
        let to: usize = if tiles.len() - i > TILES {
            i + TILES
        } else {
            tiles.len()
        };
        let mut chunk: Vec<Tile> = Vec::new();
        let mut k: usize = i;
        while k < to
            invariant
                i <= k <= to <= tiles@.len(),
                all == faces(tiles@),
                faces(chunk@) == all.subrange(i as int, k as int),
            decreases to - k,
        {
            let ghost before = chunk@;
            chunk.push(tiles[k].copy());
            assert(faces(chunk@) =~= faces(before).push(all[k as int]));
            assert(all.subrange(i as int, k as int).push(all[k as int]) =~= all.subrange(
                i as int,
                k + 1,
            ));
            k = k + 1;
        }
        let ghost before = pages@;
        pages.push(PanelPage { title: title.to_owned(), tiles: chunk });
        proof {
            let sheet = Sheet { title: title@, tiles: all.subrange(i as int, to as int) };
            assert(sheets(pages@) =~= sheets(before).push(sheet));
            assert(sheets(before) + chunked(title@, all, i as int) =~= sheets(pages@) + chunked(
                title@,
                all,
                to as int,
            ));
        }
        i = to;
    }
    assert(sheets(pages@) + Seq::<Sheet>::empty() =~= sheets(pages@));
}

/// The tile of an input.
pub open spec fn input_face(status: PanelStatus, input: Selectable) -> Face {
    Face {
        label: input.name@,
        detail: if status.input matches Some(id) && id@ == input.id@ {
            "Current input"@
        } else {
            "Input"@
        },
        icon: TileIcon::ListVideo,
        enabled: true,
        action: Deed::Command("input:"@ + input.id@),
    }
}

/// The tiles of the inputs, or one that asks for them where none is reported.
pub open spec fn input_faces(view: PluginView) -> Seq<Face> {
    if view.inputs@.len() == 0 {
        seq![
            Face {
                label: "Refresh inputs"@,
                detail: "No inputs reported"@,
                icon: TileIcon::RefreshCw,
                enabled: true,
                action: Deed::RefreshInputs,
            },
        ]
    } else {
        view.inputs@.map_values(|input: Selectable| input_face(view.status, input))
    }
}

fn input_tiles(view: &PluginView) -> (r: Vec<Tile>)
    ensures
        faces(r@) == input_faces(*view),
{
    let mut tiles: Vec<Tile> = Vec::new();
    if view.inputs.len() == 0 {
        tiles.push(
            tile(
                "Refresh inputs",
                "No inputs reported".to_owned(),
                TileIcon::RefreshCw,
                true,
                TileAction::RefreshInputs,
            ),
        );
        assert(faces(tiles@) =~= input_faces(*view));
        return tiles;
    }
    let mut i: usize = 0;
    while i < view.inputs.len()
        invariant
            i <= view.inputs@.len(),
            tiles@.len() == i,
            forall|k: int|
                0 <= k < i ==> (#[trigger] tiles@[k])@ == input_face(
                    view.status,
                    view.inputs@[k],
                ),
        decreases view.inputs.len() - i,
    {
        let input = &view.inputs[i];
        let current = match &view.status.input {
            Some(id) => same(id.as_str(), input.id.as_str()),
            None => false,
        };
        let mut command = "input:".to_owned();
        command.append(input.id.as_str());
        tiles.push(
            tile(
                input.name.as_str(),
                if current {
                    "Current input".to_owned()
                } else {
                    "Input".to_owned()
                },
                TileIcon::ListVideo,
                true,
                TileAction::Command(command),
            ),
        );
        i = i + 1;
    }
    assert(faces(tiles@) =~= input_faces(*view));
    tiles
}

/// The pages of one declared part.
pub open spec fn component_sheets(view: PluginView, component: Component) -> Seq<Sheet> {
    match component {
        Component::VolumeDbControl { label } => seq![volume_sheet(view, label@)],
        Component::CommandGroup { title, commands } => chunked(
            title@,
            commands@.map_values(|command: String| command_face(view, command@)),
            0,
        ),
        Component::StatusText { label, field } => seq![
            Sheet {
                title: label@,
                tiles: seq![
                    Face {
                        label: label@,
                        detail: field_text(view.status, field),
                        icon: TileIcon::Activity,
                        enabled: true,
                        action: Deed::RefreshStatus,
                    },
                ],
            },
        ],
        Component::Toggle { label, state, on, off } => seq![
            Sheet {
                title: label@,
                tiles: seq![
                    Face {
                        label: label@,
                        detail: field_text(view.status, state),
                        icon: TileIcon::Power,
                        enabled: field_bool(view.status, state) is Some,
                        action: Deed::Toggle { state, on: on@, off: off@ },
                    },
                ],
            },
        ],
        Component::InputSelector { label } => chunked(label@, input_faces(view), 0),
        Component::Undrawn => Seq::empty(),
    }
}

/// The pages of the parts at or after a place.
pub open spec fn sheets_from(view: PluginView, i: int) -> Seq<Sheet>
    decreases view.target.presentation@.len() - i,
{
    if i < 0 || i >= view.target.presentation@.len() {
        Seq::empty()
    } else {
        component_sheets(view, view.target.presentation@[i]) + sheets_from(view, i + 1)
    }
}

/// The pages of a packaged device: what the package declares, or its commands
/// where it declares nothing, or one page that says so where there are none.
pub open spec fn device_sheets(view: PluginView) -> Seq<Sheet> {
    let body = if view.target.presentation@.len() == 0 {
        chunked(
            view.target.label@,
            view.target.capabilities@.map_values(|c: Capability| command_face(view, c.id@)),
            0,
        )
    } else {
        sheets_from(view, 0)
    };
    if body.len() == 0 {
        seq![
            Sheet {
                title: view.target.label@,
                tiles: seq![
                    Face {
                        label: "Refresh status"@,
                        detail: "No controls declared"@,
                        icon: TileIcon::RefreshCw,
                        enabled: true,
                        action: Deed::RefreshStatus,
                    },
                ],
            },
        ]
    } else {
        body
    }
}

fn single(title: &str, only: Tile) -> (r: PanelPage)
    ensures
        r@ == (Sheet { title: title@, tiles: seq![only@] }),
{
    let mut tiles: Vec<Tile> = Vec::new();
    tiles.push(only);
    assert(faces(tiles@) =~= seq![only@]);
    PanelPage { title: title.to_owned(), tiles }
}

fn push_page(pages: &mut Vec<PanelPage>, page: PanelPage)
    ensures
        sheets(final(pages)@) == sheets(old(pages)@) + seq![page@],
{
    pages.push(page);
    assert(sheets(pages@) =~= sheets(old(pages)@) + seq![page@]);
}

fn command_tiles(view: &PluginView, commands: &Vec<String>) -> (r: Vec<Tile>)
    ensures
        faces(r@) == commands@.map_values(|command: String| command_face(*view, command@)),
{
    let mut tiles: Vec<Tile> = Vec::new();
    let mut i: usize = 0;
    while i < commands.len()
        invariant
            i <= commands@.len(),
            tiles@.len() == i,
            forall|k: int|
                0 <= k < i ==> (#[trigger] tiles@[k])@ == command_face(*view, commands@[k]@),
        decreases commands.len() - i,
    {
        tiles.push(command_tile(view, &commands[i]));
        i = i + 1;
    }
    assert(faces(tiles@) =~= commands@.map_values(
        |command: String| command_face(*view, command@),
    ));
    tiles
}

fn push_component(view: &PluginView, component: &Component, pages: &mut Vec<PanelPage>)
    requires
        volume_wf(*view),
    ensures
        sheets(final(pages)@) == sheets(old(pages)@) + component_sheets(*view, *component),
{
    match component {
        Component::VolumeDbControl { label } => {
            push_page(pages, volume_page(view, label.as_str()));
        },
        Component::CommandGroup { title, commands } => {
            let tiles = command_tiles(view, commands);
            chunk_page(title.as_str(), &tiles, pages);
        },
        Component::StatusText { label, field } => {
            let only = tile(
                label.as_str(),
                status_text(&view.status, *field),
                TileIcon::Activity,
                true,
                TileAction::RefreshStatus,
            );
            push_page(pages, single(label.as_str(), only));
        },
        Component::Toggle { label, state, on, off } => {
            let only = tile(
                label.as_str(),
                status_text(&view.status, *state),
                TileIcon::Power,
                status_bool(&view.status, *state).is_some(),
                TileAction::Toggle { state: *state, on: on.clone(), off: off.clone() },
            );
            push_page(pages, single(label.as_str(), only));
        },
        Component::InputSelector { label } => {
            let tiles = input_tiles(view);
            chunk_page(label.as_str(), &tiles, pages);
        },
        Component::Undrawn => {
            assert(sheets(pages@) + Seq::<Sheet>::empty() =~= sheets(pages@));
        },
    }
}

/// The pages of a packaged device.
pub fn plugin_pages(view: &PluginView) -> (r: Vec<PanelPage>)
    requires
        volume_wf(*view),
    ensures
        sheets(r@) == device_sheets(*view),
        r@.len() > 0,
{
    let mut pages: Vec<PanelPage> = Vec::new();
    let target = &view.target;
    assert(sheets(pages@) =~= Seq::<Sheet>::empty());
    if target.presentation.len() == 0 {
        let mut tiles: Vec<Tile> = Vec::new();
        let mut i: usize = 0;
        while i < target.capabilities.len()
            invariant
                target == view.target,
                i <= target.capabilities@.len(),
                tiles@.len() == i,
                forall|k: int|
                    0 <= k < i ==> (#[trigger] tiles@[k])@ == command_face(
                        *view,
                        target.capabilities@[k].id@,
                    ),
            decreases target.capabilities.len() - i,
        {
            tiles.push(command_tile(view, &target.capabilities[i].id));
            i = i + 1;
        }
        assert(faces(tiles@) =~= target.capabilities@.map_values(
            |c: Capability| command_face(*view, c.id@),
        ));
        chunk_page(target.label.as_str(), &tiles, &mut pages);
        assert(sheets(pages@) =~= chunked(target.label@, faces(tiles@), 0));
    } else {
        let mut i: usize = 0;
        assert(sheets(pages@) + sheets_from(*view, 0) =~= sheets_from(*view, 0));
        while i < target.presentation.len()
            invariant
                target == view.target,
                volume_wf(*view),
                i <= target.presentation@.len(),
                sheets(pages@) + sheets_from(*view, i as int) == sheets_from(*view, 0),
            decreases target.presentation.len() - i,
        {
            let ghost before = sheets(pages@);
            push_component(view, &target.presentation[i], &mut pages);
            assert(before + sheets_from(*view, i as int) =~= sheets(pages@) + sheets_from(
                *view,
                i + 1,
            ));
            i = i + 1;
        }
        assert(sheets(pages@) + Seq::<Sheet>::empty() =~= sheets(pages@));
    }
    assert(sheets(pages@).len() == pages@.len());
    if pages.len() == 0 {
        let only = tile(
            "Refresh status",
            "No controls declared".to_owned(),
            TileIcon::RefreshCw,
            true,
            TileAction::RefreshStatus,
        );
        pages.push(single(target.label.as_str(), only));
        assert(sheets(pages@) =~= device_sheets(*view));
    }
    pages
}

proof fn chunked_bounds(title: Seq<char>, tiles: Seq<Face>, i: int, k: int)
    requires
        0 <= i,
        0 <= k < chunked(title, tiles, i).len(),
    ensures
        0 < chunked(title, tiles, i)[k].tiles.len() <= TILES,
    decreases tiles.len() - i,
{
    if i < tiles.len() {
        let to = if i + TILES < tiles.len() {
            i + TILES
        } else {
            tiles.len() as int
        };
        let rest = chunked(title, tiles, to);
        assert(chunked(title, tiles, i) =~= seq![
            Sheet { title, tiles: tiles.subrange(i, to) },
        ] + rest);
        if k > 0 {
            chunked_bounds(title, tiles, to, k - 1);
            assert(chunked(title, tiles, i)[k] == rest[k - 1]);
        }
    }
}

/// There is always a page to show, whatever a package declares.
pub proof fn there_is_always_a_page(view: PluginView)
    ensures
        device_sheets(view).len() > 0,
{
}

/// A page of commands or inputs has a tile at least and six at most.
pub proof fn a_page_of_tiles_is_never_empty_or_crowded(
    title: Seq<char>,
    tiles: Seq<Face>,
    k: int,
)
    requires
        0 <= k < chunked(title, tiles, 0).len(),
    ensures
        0 < chunked(title, tiles, 0)[k].tiles.len() <= TILES,
{
    chunked_bounds(title, tiles, 0, k);
}

/// A level is never invented: "Set volume" can only be pressed with a level that
/// the package accepts, and a reading at the minimum or none leaves nothing to
/// reset to.
pub proof fn only_an_accepted_level_can_be_set(view: PluginView, label: Seq<char>)
    ensures
        ({
            let set = volume_sheet(view, label).tiles[1];
            set.enabled ==> (set.action matches Deed::SetVolume(t) && accepts(view.target.volume, t)
                && view.volume_draft == Some(t))
        }),
        !(view.status.volume_db matches Some(VolumeDb::Reading { .. })) ==> observed(view) is None,
{
}

/// A toggle sends off what is on and on what is off, and nothing where that is not
/// known; a command is sent as it is.
pub proof fn a_toggle_sends_the_other_command(
    status: PanelStatus,
    state: StatusField,
    on: Seq<char>,
    off: Seq<char>,
    command: Seq<char>,
)
    ensures
        field_bool(status, state) == Some(true) ==> command_of(
            Deed::Toggle { state, on, off },
            status,
        ) == Some(off),
        field_bool(status, state) == Some(false) ==> command_of(
            Deed::Toggle { state, on, off },
            status,
        ) == Some(on),
        field_bool(status, state) is None ==> command_of(
            Deed::Toggle { state, on, off },
            status,
        ) is None,
        command_of(Deed::Command(command), status) == Some(command),
{
}

/// A field that is on or off is the one of its own name.
pub proof fn a_switch_reads_its_own_field(status: PanelStatus)
    ensures
        field_bool(status, StatusField::On) == status.on,
        field_bool(status, StatusField::Playing) == status.playing,
        field_bool(status, StatusField::Muted) == status.muted,
        field_bool(status, StatusField::Volume) is None,
        field_bool(status, StatusField::VolumeDb) is None,
        field_bool(status, StatusField::Input) is None,
        field_bool(status, StatusField::Title) is None,
{
}

/// What a field says, in its own words, and that it is unavailable where it was
/// not reported.
pub proof fn a_field_says_what_was_reported(
    status: PanelStatus,
    text: String,
    percent: u8,
    tenths: i16,
)
    ensures
        status.on == Some(true) ==> field_text(status, StatusField::On) == "On"@,
        status.on == Some(false) ==> field_text(status, StatusField::On) == "Off"@,
        status.on is None ==> field_text(status, StatusField::On) == "Unavailable"@,
        status.playing == Some(true) ==> field_text(status, StatusField::Playing) == "Playing"@,
        status.playing == Some(false) ==> field_text(status, StatusField::Playing) == "Paused"@,
        status.playing is None ==> field_text(status, StatusField::Playing) == "Unavailable"@,
        status.muted == Some(true) ==> field_text(status, StatusField::Muted) == "Muted"@,
        status.muted == Some(false) ==> field_text(status, StatusField::Muted) == "Unmuted"@,
        status.muted is None ==> field_text(status, StatusField::Muted) == "Unavailable"@,
        status.volume == Some(percent) ==> field_text(status, StatusField::Volume) == decimal(
            percent as nat,
        ) + "%"@,
        status.volume is None ==> field_text(status, StatusField::Volume) == "Unavailable"@,
        status.volume_db == Some(VolumeDb::Reading { tenths }) ==> field_text(
            status,
            StatusField::VolumeDb,
        ) == db_text(tenths as int),
        status.volume_db == Some(VolumeDb::Minimum) ==> field_text(status, StatusField::VolumeDb)
            == "Minimum"@,
        status.volume_db is None ==> field_text(status, StatusField::VolumeDb) == "Unavailable"@,
        status.input == Some(text) ==> field_text(status, StatusField::Input) == text@,
        status.input is None ==> field_text(status, StatusField::Input) == "Unavailable"@,
        status.title == Some(text) ==> field_text(status, StatusField::Title) == text@,
        status.title is None ==> field_text(status, StatusField::Title) == "Unavailable"@,
{
}

/// Decibels are written with one digit after the point, and with a minus sign just
/// where they are below zero.
pub proof fn decibels_have_one_digit(whole: nat, tenth: nat)
    requires
        tenth < 10,
    ensures
        db_text((whole * 10 + tenth) as int) == ""@ + decimal(whole) + "."@ + digit(tenth)
            + " dB"@,
        whole * 10 + tenth > 0 ==> db_text(-(whole * 10 + tenth)) == "−"@ + decimal(whole) + "."@
            + digit(tenth) + " dB"@,
{
    assert((whole * 10 + tenth) / 10 == whole);
    assert((whole * 10 + tenth) % 10 == tenth);
}

/// The target of a volume moves by one declared step either way, within the
/// declared range; without a target it begins at the bottom.
pub proof fn a_target_moves_by_the_declared_step(view: PluginView, schema: VolumeSchema, draft: i16)
    requires
        view.target.volume == Some(schema),
        schema.min_tenths <= schema.max_tenths,
        schema.min_tenths <= draft <= schema.max_tenths,
    ensures
        view.volume_draft is None ==> adjusted(view, 1) == Some(schema.min_tenths as int)
            && adjusted(view, -1) == Some(schema.min_tenths as int),
        view.volume_draft == Some(draft) ==> {
            let up = draft + schema.step_tenths;
            let down = draft - schema.step_tenths;
            &&& adjusted(view, 1) == Some(
                if up > schema.max_tenths {
                    schema.max_tenths as int
                } else {
                    up
                },
            )
            &&& adjusted(view, -1) == Some(
                if down < schema.min_tenths {
                    schema.min_tenths as int
                } else {
                    down
                },
            )
        },
{
    assert(1 * schema.step_tenths == schema.step_tenths) by (nonlinear_arith);
    assert(-1 * schema.step_tenths == -schema.step_tenths) by (nonlinear_arith);
}

/// The volume page: what is read, the level to set, and tiles that lower it, raise
/// it and take it back, each on just where it would do something.
pub proof fn a_volume_page_has_its_five_tiles(view: PluginView, label: Seq<char>, draft: i16)
    ensures
        ({
            let page = volume_sheet(view, label);
            let accepted = view.volume_draft == Some(draft) && accepts(view.target.volume, draft);
            &&& page.title == label && page.tiles.len() == 5
            &&& page.tiles[0].label == "Current volume"@ && page.tiles[0].action is RefreshStatus
                && page.tiles[0].enabled && page.tiles[0].detail == field_text(
                view.status,
                StatusField::VolumeDb,
            )
            &&& page.tiles[1].label == "Set volume"@
            &&& accepted ==> page.tiles[1].enabled && page.tiles[1].action == Deed::SetVolume(draft)
                && page.tiles[1].detail == db_text(draft as int)
            &&& view.volume_draft is None ==> !page.tiles[1].enabled && page.tiles[1].detail
                == "Choose a target"@
            &&& page.tiles[2].label == "Lower target"@ && (
            page.tiles[2].action matches Deed::AdjustVolume(by) && by == -1)
            &&& page.tiles[3].label == "Raise target"@ && (
            page.tiles[3].action matches Deed::AdjustVolume(by) && by == 1)
            &&& page.tiles[4].label == "Reset target"@ && page.tiles[4].action is ResetVolume
                && page.tiles[4].detail == "Use current reading"@ && (page.tiles[4].enabled
                <==> observed(view) is Some)
            &&& view.target.volume is None ==> !page.tiles[2].enabled && !page.tiles[3].enabled
        }),
{
}

/// A level that was read is a target only where the package accepts it.
pub proof fn a_reading_is_a_target_where_it_is_accepted(view: PluginView, tenths: i16)
    requires
        view.status.volume_db == Some(VolumeDb::Reading { tenths }),
    ensures
        observed(view) == Some(tenths) <==> (view.target.volume matches Some(s)
            && s.accepted@.contains(tenths)),
        observed(view) is None || observed(view) == Some(tenths),
{
}

/// A command's tile sends that command, under the label that the package has for
/// it, else under its own name.
pub proof fn a_commands_tile_sends_it(view: PluginView, command: Seq<char>, k: int)
    ensures
        ({
            let tile = command_face(view, command);
            &&& tile.action == Deed::Command(command) && tile.enabled && tile.detail == "Command"@
            &&& view.target.capabilities@.len() == 0 ==> tile.label == command
            &&& (forall|i: int|
                0 <= i < view.target.capabilities@.len() ==> (
                #[trigger] view.target.capabilities@[i]).id@ != command) ==> tile.label == command
            &&& 0 <= k < view.target.capabilities@.len() && view.target.capabilities@[k].id@
                == command && (forall|i: int|
                0 <= i < k ==> (#[trigger] view.target.capabilities@[i]).id@ != command)
                ==> tile.label == view.target.capabilities@[k].label@
        }),
{
    let all = view.target.capabilities@;
    if forall|i: int| 0 <= i < all.len() ==> (#[trigger] all[i]).id@ != command {
        no_label(all, command, 0);
    }
    if 0 <= k < all.len() && all[k].id@ == command && (forall|i: int|
        0 <= i < k ==> (#[trigger] all[i]).id@ != command) {
        first_label(all, command, 0, k);
    }
}

proof fn no_label(capabilities: Seq<Capability>, command: Seq<char>, i: int)
    requires
        0 <= i <= capabilities.len(),
        forall|j: int|
            i <= j < capabilities.len() ==> (#[trigger] capabilities[j]).id@ != command,
    ensures
        command_label(capabilities, command, i) == command,
    decreases capabilities.len() - i,
{
    if i < capabilities.len() {
        no_label(capabilities, command, i + 1);
    }
}

proof fn first_label(capabilities: Seq<Capability>, command: Seq<char>, i: int, k: int)
    requires
        0 <= i <= k < capabilities.len(),
        capabilities[k].id@ == command,
        forall|j: int| i <= j < k ==> (#[trigger] capabilities[j]).id@ != command,
    ensures
        command_label(capabilities, command, i) == capabilities[k].label@,
    decreases k - i,
{
    if i < k {
        first_label(capabilities, command, i + 1, k);
    }
}

/// An input's tile switches to that input, and says whether it is the one now.
pub proof fn an_inputs_tile_switches_to_it(status: PanelStatus, input: Selectable)
    ensures
        ({
            let tile = input_face(status, input);
            &&& tile.label == input.name@ && tile.enabled
            &&& tile.action == Deed::Command("input:"@ + input.id@)
            &&& (status.input matches Some(id) && id@ == input.id@) ==> tile.detail
                == "Current input"@
            &&& !(status.input matches Some(id) && id@ == input.id@) ==> tile.detail == "Input"@
        }),
{
}

/// A device without inputs has a tile that asks for them; one with them has a tile
/// for each, in their order.
pub proof fn each_input_has_a_tile(view: PluginView, k: int)
    ensures
        view.inputs@.len() == 0 ==> input_faces(view).len() == 1
            && input_faces(view)[0].action is RefreshInputs && input_faces(view)[0].label
            == "Refresh inputs"@,
        0 <= k < view.inputs@.len() ==> input_faces(view).len() == view.inputs@.len()
            && input_faces(view)[k] == input_face(view.status, view.inputs@[k]),
{
}

/// What a component is drawn as: a group's commands in their order, a status by
/// its field, a switch with its two commands, and a volume page under its label.
pub proof fn a_component_is_drawn_as_it_is_declared(
    view: PluginView,
    component: Component,
    k: int,
)
    ensures
        match component {
            Component::VolumeDbControl { label } => component_sheets(view, component)
                == seq![volume_sheet(view, label@)],
            Component::StatusText { label, field } => {
                let pages = component_sheets(view, component);
                &&& pages.len() == 1 && pages[0].title == label@ && pages[0].tiles.len() == 1
                &&& pages[0].tiles[0].label == label@ && pages[0].tiles[0].detail == field_text(
                    view.status,
                    field,
                ) && pages[0].tiles[0].action is RefreshStatus
            },
            Component::Toggle { label, state, on, off } => {
                let pages = component_sheets(view, component);
                &&& pages.len() == 1 && pages[0].title == label@ && pages[0].tiles.len() == 1
                &&& pages[0].tiles[0].action == (Deed::Toggle { state, on: on@, off: off@ })
                &&& pages[0].tiles[0].enabled <==> field_bool(view.status, state) is Some
                &&& pages[0].tiles[0].label == label@ && pages[0].tiles[0].detail == field_text(
                    view.status,
                    state,
                )
            },
            Component::CommandGroup { title, commands } => commands@.len() > 0 && commands@.len()
                <= 6 ==> {
                let pages = component_sheets(view, component);
                &&& pages.len() == 1 && pages[0].title == title@ && pages[0].tiles.len()
                    == commands@.len()
                &&& 0 <= k < commands@.len() ==> pages[0].tiles[k] == command_face(
                    view,
                    commands@[k]@,
                )
            },
            Component::InputSelector { label } => component_sheets(view, component) == chunked(
                label@,
                input_faces(view),
                0,
            ),
            Component::Undrawn => component_sheets(view, component).len() == 0,
        },
{
    reveal_with_fuel(chunked, 2);
}

/// Tiles are laid out six to a page, in their order, and none is left out.
pub proof fn tiles_are_laid_out_in_order(title: Seq<char>, tiles: Seq<Face>, k: int)
    requires
        0 <= k < tiles.len(),
    ensures
        chunked(title, tiles, 0).len() == (tiles.len() + 5) / 6,
        k / 6 < chunked(title, tiles, 0).len(),
        chunked(title, tiles, 0)[k / 6].tiles.len() > k % 6,
        chunked(title, tiles, 0)[k / 6].tiles[k % 6] == tiles[k],
        chunked(title, tiles, 0)[k / 6].title == title,
{
    laid_out_from(title, tiles, 0, k);
}

proof fn laid_out_from(title: Seq<char>, tiles: Seq<Face>, page: int, k: int)
    requires
        0 <= page,
        page * 6 <= k < tiles.len(),
    ensures
        chunked(title, tiles, page * 6).len() == (tiles.len() - page * 6 + 5) / 6,
        0 <= k / 6 - page < chunked(title, tiles, page * 6).len(),
        chunked(title, tiles, page * 6)[k / 6 - page].tiles.len() > k % 6,
        chunked(title, tiles, page * 6)[k / 6 - page].tiles[k % 6] == tiles[k],
        chunked(title, tiles, page * 6)[k / 6 - page].title == title,
    decreases tiles.len() - page * 6,
{
    let i = page * 6;
    let all = chunked(title, tiles, i);
    if i + 6 < tiles.len() {
        let rest = chunked(title, tiles, i + 6);
        assert((page + 1) * 6 == i + 6);
        assert(all =~= seq![Sheet { title, tiles: tiles.subrange(i, i + 6) }] + rest);
        if k >= i + 6 {
            laid_out_from(title, tiles, page + 1, k);
            assert(all[k / 6 - page] == rest[k / 6 - (page + 1)]);
        } else {
            laid_out_from(title, tiles, page + 1, tiles.len() - 1);
            assert(k / 6 == page);
        }
    } else {
        assert(chunked(title, tiles, tiles.len() as int).len() == 0);
        assert(all =~= seq![Sheet { title, tiles: tiles.subrange(i, tiles.len() as int) }]);
        assert(k / 6 == page);
    }
}

/// A device that declares no page has one of its commands; one that declares
/// nothing at all has a tile that asks how it is.
pub proof fn a_device_without_pages_lists_its_commands(view: PluginView)
    requires
        view.target.presentation@.len() == 0,
    ensures
        view.target.capabilities@.len() == 0 ==> device_sheets(view).len() == 1 && device_sheets(
            view,
        )[0].tiles[0].action is RefreshStatus && device_sheets(view)[0].title
            == view.target.label@,
        view.target.capabilities@.len() > 0 ==> device_sheets(view) == chunked(
            view.target.label@,
            view.target.capabilities@.map_values(|c: Capability| command_face(view, c.id@)),
            0,
        ),
{
}

/// A device's pages are those of its components, one after another.
pub proof fn pages_follow_the_components(view: PluginView, i: int)
    requires
        0 <= i < view.target.presentation@.len(),
    ensures
        sheets_from(view, i) == component_sheets(view, view.target.presentation@[i]) + sheets_from(
            view,
            i + 1,
        ),
        sheets_from(view, view.target.presentation@.len() as int).len() == 0,
{
}

/// The pictures of the tiles, by name.
pub proof fn each_tiles_picture_has_its_name()
    ensures
        TileIcon::RefreshCw.spec_name() == "refresh-cw"@,
        TileIcon::Volume2.spec_name() == "volume-2"@,
        TileIcon::Minus.spec_name() == "minus"@,
        TileIcon::Plus.spec_name() == "plus"@,
        TileIcon::RotateCcw.spec_name() == "rotate-ccw"@,
        TileIcon::CirclePlay.spec_name() == "circle-play"@,
        TileIcon::Activity.spec_name() == "activity"@,
        TileIcon::Power.spec_name() == "power"@,
        TileIcon::ListVideo.spec_name() == "list-video"@,
{
}

/// The tiles of a device that has nothing to show say so.
pub proof fn an_empty_device_says_so(view: PluginView)
    requires
        view.target.presentation@.len() == 0,
        view.target.capabilities@.len() == 0,
    ensures
        device_sheets(view)[0].tiles.len() == 1,
        device_sheets(view)[0].tiles[0].label == "Refresh status"@,
        device_sheets(view)[0].tiles[0].detail == "No controls declared"@,
        view.inputs@.len() == 0 ==> input_faces(view)[0].detail == "No inputs reported"@,
{
}

} // verus!
