//! The pages of an activity or of a packaged device: which is shown, what a tile
//! sends, and what comes back.
use crate::activity_buttons::activity_from;
use crate::commands::Action;
use crate::model::{Activity, ActivityPage, Config, Icon, TypedAction, Widget};
use crate::num::{next_generation, wrapped};
use crate::plugin_pages::{
    adjusted, adjusted_volume, command_of, device_sheets, observed, observed_volume,
    plugin_command, plugin_pages, sheets, volume_wf, Deed, Face, PanelStatus, PluginTarget,
    PluginView, Selectable, Sheet, TileAction, TileIcon,
};
use crate::text::same;
use vstd::prelude::*;

verus! {

/// How long a request may wait for its worker, in milliseconds.
pub const EXPIRES_MS: u64 = 750;

/// The page that some steps lead to, round and round.
pub open spec fn stepped_page(current: int, delta: int, count: int) -> int {
    if count == 0 {
        0
    } else {
        (current + delta) % count
    }
}

/// The page that some steps lead to, round and round.
pub fn page_index(current: usize, delta: i32, count: usize) -> (r: usize)
    ensures
        r == stepped_page(current as int, delta as int, count as int),
        count > 0 ==> r < count,
{
    if count == 0 {
        return 0;
    }
    let x: i128 = current as i128 + delta as i128;
    let c: i128 = count as i128;
    if x >= 0 {
        (x % c) as usize
    } else {
        let back: i128 = (-x) % c;
        if back == 0 {
            proof {
                let q = (-x) as int / c as int;
                vstd::arithmetic::div_mod::lemma_fundamental_div_mod((-x) as int, c as int);
                assert(x as int == (-q) * c + 0) by (nonlinear_arith)
                    requires
                        -x == c * q + 0,
                ;
                vstd::arithmetic::div_mod::lemma_fundamental_div_mod_converse(
                    x as int,
                    c as int,
                    -q,
                    0,
                );
            }
            0
        } else {
            proof {
                let q = (-x) as int / c as int;
                vstd::arithmetic::div_mod::lemma_fundamental_div_mod((-x) as int, c as int);
                assert(x as int == (-q - 1) * c + (c - back)) by (nonlinear_arith)
                    requires
                        -x == c * q + back,
                ;
                vstd::arithmetic::div_mod::lemma_fundamental_div_mod_converse(
                    x as int,
                    c as int,
                    -q - 1,
                    c - back,
                );
            }
            (c - back) as usize
        }
    }
}

/// Stepping forward and back again leads to the page that was left.
pub proof fn pages_wrap_both_ways(current: int, delta: int, count: int)
    requires
        0 <= current < count,
    ensures
        0 <= stepped_page(current, delta, count) < count,
        stepped_page(stepped_page(current, delta, count), -delta, count) == current,
{
    vstd::arithmetic::div_mod::lemma_mod_bound(current + delta, count);
    vstd::arithmetic::div_mod::lemma_mod_adds((current + delta) % count, (-delta) % count, count);
    vstd::arithmetic::div_mod::lemma_add_mod_noop(current + delta, -delta, count);
    vstd::arithmetic::div_mod::lemma_add_mod_noop((current + delta) % count, -delta, count);
    vstd::arithmetic::div_mod::lemma_mod_twice(current + delta, count);
    vstd::arithmetic::div_mod::lemma_small_mod(current as nat, count as nat);
}

/// What the bottom line of the pages says.
#[derive(Debug)]
pub enum PageStatus {
    RefreshingStatus,
    LoadingInputs,
    SettingVolume,
    QueueBusy,
    WorkerBusy,
    Sending(String),
    CommandSent,
    StatusUpdated,
    InputsUpdated,
    VolumeSet,
    CommandExpired,
    RequestExpired,
    UnexpectedReply,
    Said(String),
}

impl PageStatus {
    /// The text of the line.
    pub open spec fn spec_text(self) -> Seq<char> {
        match self {
            PageStatus::RefreshingStatus => "Refreshing status…"@,
            PageStatus::LoadingInputs => "Loading inputs…"@,
            PageStatus::SettingVolume => "Setting volume…"@,
            PageStatus::QueueBusy => "Integration request queue is busy. Try again."@,
            PageStatus::WorkerBusy => "Command worker is busy. Try again."@,
            PageStatus::Sending(label) => "Sending "@ + label@ + "…"@,
            PageStatus::CommandSent => "Command sent"@,
            PageStatus::StatusUpdated => "Status updated"@,
            PageStatus::InputsUpdated => "Inputs updated"@,
            PageStatus::VolumeSet => "Volume set"@,
            PageStatus::CommandExpired => "Command expired while waiting. Try again."@,
            PageStatus::RequestExpired => "Integration request expired. Try again."@,
            PageStatus::UnexpectedReply => "The integration sent an unexpected reply"@,
            PageStatus::Said(why) => why@,
        }
    }

    /// The text of the line.
    pub fn text(&self) -> (r: String)
        ensures
            r@ == self.spec_text(),
    {
        match self {
            PageStatus::RefreshingStatus => "Refreshing status…".to_owned(),
            PageStatus::LoadingInputs => "Loading inputs…".to_owned(),
            PageStatus::SettingVolume => "Setting volume…".to_owned(),
            PageStatus::QueueBusy => "Integration request queue is busy. Try again.".to_owned(),
            PageStatus::WorkerBusy => "Command worker is busy. Try again.".to_owned(),
            PageStatus::Sending(label) => {
                let mut s = "Sending ".to_owned();
                s.append(label.as_str());
                s.append("…");
                s
            },
            PageStatus::CommandSent => "Command sent".to_owned(),
            PageStatus::StatusUpdated => "Status updated".to_owned(),
            PageStatus::InputsUpdated => "Inputs updated".to_owned(),
            PageStatus::VolumeSet => "Volume set".to_owned(),
            PageStatus::CommandExpired => "Command expired while waiting. Try again.".to_owned(),
            PageStatus::RequestExpired => "Integration request expired. Try again.".to_owned(),
            PageStatus::UnexpectedReply => "The integration sent an unexpected reply".to_owned(),
            PageStatus::Said(why) => why.clone(),
        }
    }
}

/// What a packaged device is asked from its pages.
#[derive(Clone, Copy, PartialEq, Eq, Structural, Debug)]
pub enum PageRequest {
    Status,
    Inputs,
    Action(TypedAction),
}

/// A command that waits for its worker.
#[derive(Clone, Copy, PartialEq, Eq, Structural, Debug)]
pub struct Waiting {
    /// The pages that it was pressed on.
    pub generation: u64,
    /// How long it has waited, in milliseconds.
    pub age: u64,
    /// The configuration that it was pressed under.
    pub version: u64,
}

/// A request on its way to a package's worker.
#[derive(Debug)]
pub struct PluginWork {
    pub generation: u64,
    pub connection: String,
    pub resource: Option<String>,
    pub request: PageRequest,
}

/// What a command's worker does.
#[derive(Debug)]
pub enum Turn {
    /// Nothing waits, or the pages have changed since: nothing is said.
    Pass,
    /// Nothing is sent, and this is said.
    Reply(PageStatus),
    Run,
}

/// The clients that a command's worker keeps between commands: for the pages
/// that opened them, under one configuration.
#[derive(Clone, Copy, PartialEq, Eq, Structural, Debug)]
pub struct Lease {
    pub generation: u64,
    pub version: Option<u64>,
}

impl Lease {
    /// The lease once the worker has seen which pages are open.
    pub open spec fn followed(self, current: u64) -> Lease {
        if current == self.generation {
            self
        } else {
            Lease { generation: current, version: None }
        }
    }

    /// Whether a command can still go out.
    pub open spec fn runs(current: u64, waiting: Waiting) -> bool {
        waiting.generation == current && waiting.age <= EXPIRES_MS
    }

    /// Whether the clients are dropped before what waits is taken.
    pub open spec fn released(self, current: u64, waiting: Option<Waiting>) -> bool {
        ||| current != self.generation
        ||| match (waiting, self.version) {
            (Some(w), Some(v)) => Lease::runs(current, w) && v != w.version,
            _ => false,
        }
    }

    /// Take what waits, if anything does, while the given pages are open. Says
    /// what to do, and whether to drop the clients first: those of other pages
    /// always, also while nothing waits, and those of another configuration
    /// before a command.
    pub fn next(&mut self, current: u64, waiting: Option<Waiting>) -> (r: (Turn, bool))
        ensures
            r.0 == match waiting {
                None => Turn::Pass,
                Some(w) => if w.generation != current {
                    Turn::Pass
                } else if w.age > EXPIRES_MS {
                    Turn::Reply(PageStatus::CommandExpired)
                } else {
                    Turn::Run
                },
            },
            r.0 is Run <==> (waiting matches Some(w) && w.generation == current && w.age <= 750),
            r.1 == old(self).released(current, waiting),
            *final(self) == (match waiting {
                Some(w) => if Lease::runs(current, w) {
                    Lease { generation: current, version: Some(w.version) }
                } else {
                    old(self).followed(current)
                },
                None => old(self).followed(current),
            }),
    {
        let mut drop = false;
        if current != self.generation {
            self.generation = current;
            self.version = None;
            drop = true;
        }
        match waiting {
            None => (Turn::Pass, drop),
            Some(w) => {
                if w.generation != current {
                    return (Turn::Pass, drop);
                }
                if w.age > EXPIRES_MS {
                    return (Turn::Reply(PageStatus::CommandExpired), drop);
                }
                match self.version {
                    Some(v) => {
                        if v != w.version {
                            drop = true;
                        }
                    },
                    None => {},
                }
                self.version = Some(w.version);
                (Turn::Run, drop)
            },
        }
    }

    /// A command has ended. Clients of pages that have closed meanwhile are
    /// dropped at once. Says whether they are.
    pub fn end(&mut self, current: u64) -> (r: bool)
        ensures
            r == (current != old(self).generation),
            *final(self) == if r {
                Lease { version: None, ..*old(self) }
            } else {
                *old(self)
            },
    {
        if current != self.generation {
            self.version = None;
            true
        } else {
            false
        }
    }
}

/// Clients are shared by commands of the same pages under the same
/// configuration, and by no others.
pub proof fn clients_are_shared_under_one_configuration(
    generation: u64,
    first: Waiting,
    second: Waiting,
    current: u64,
)
    requires
        Lease::runs(generation, first),
        Lease::runs(current, second),
    ensures
        (Lease { generation, version: Some(first.version) }).released(current, Some(second)) <==> (
        first.generation != second.generation || first.version != second.version),
{
}

/// What a package answers from its pages' worker.
#[derive(Debug)]
pub enum PluginAnswer {
    Taken,
    Status(PanelStatus),
    Inputs(Vec<Selectable>),
    Other,
    Failed(String),
}

/// What the pages are told of a request.
#[derive(Debug)]
pub enum PluginEvent {
    Status(PanelStatus),
    Inputs(Vec<Selectable>),
    Error(PageStatus),
    ActionDone(Option<PageStatus>),
}

/// What a package's worker does with a request.
#[derive(Debug)]
pub enum PluginTurn {
    /// The pages have changed since: nothing is said.
    Pass,
    /// Nothing is sent, and this is said.
    Reply(PluginEvent),
    Run,
}

/// What a package's worker does with a request that has waited for `age`
/// milliseconds.
pub fn plugin_turn(generation: u64, current: u64, age: u64, action: bool) -> (r: PluginTurn)
    ensures
        r == if generation != current {
            PluginTurn::Pass
        } else if age <= EXPIRES_MS {
            PluginTurn::Run
        } else if action {
            PluginTurn::Reply(PluginEvent::ActionDone(Some(PageStatus::RequestExpired)))
        } else {
            PluginTurn::Reply(PluginEvent::Error(PageStatus::RequestExpired))
        },
        r is Run <==> generation == current && age <= 750,
        r is Pass <==> generation != current,
        r matches PluginTurn::Reply(event) ==> (event is ActionDone <==> action),
{
    if generation != current {
        PluginTurn::Pass
    } else if age <= EXPIRES_MS {
        PluginTurn::Run
    } else if action {
        PluginTurn::Reply(PluginEvent::ActionDone(Some(PageStatus::RequestExpired)))
    } else {
        PluginTurn::Reply(PluginEvent::Error(PageStatus::RequestExpired))
    }
}

/// What the pages are told of a request's answer. A failure is told once and
/// never tried again.
pub fn answer_event(action: bool, answer: PluginAnswer) -> (r: PluginEvent)
    ensures
        r == if action {
            match answer {
                PluginAnswer::Taken => PluginEvent::ActionDone(None),
                PluginAnswer::Failed(why) => PluginEvent::ActionDone(Some(PageStatus::Said(why))),
                _ => PluginEvent::ActionDone(Some(PageStatus::UnexpectedReply)),
            }
        } else {
            match answer {
                PluginAnswer::Status(status) => PluginEvent::Status(status),
                PluginAnswer::Inputs(inputs) => PluginEvent::Inputs(inputs),
                PluginAnswer::Failed(why) => PluginEvent::Error(PageStatus::Said(why)),
                _ => PluginEvent::Error(PageStatus::UnexpectedReply),
            }
        },
        r is ActionDone <==> action,
        r == PluginEvent::ActionDone(None) <==> action && answer is Taken,
        r is Status <==> !action && answer is Status,
        r is Inputs <==> !action && answer is Inputs,
{
    if action {
        match answer {
            PluginAnswer::Taken => PluginEvent::ActionDone(None),
            PluginAnswer::Failed(why) => PluginEvent::ActionDone(Some(PageStatus::Said(why))),
            _ => PluginEvent::ActionDone(Some(PageStatus::UnexpectedReply)),
        }
    } else {
        match answer {
            PluginAnswer::Status(status) => PluginEvent::Status(status),
            PluginAnswer::Inputs(inputs) => PluginEvent::Inputs(inputs),
            PluginAnswer::Failed(why) => PluginEvent::Error(PageStatus::Said(why)),
            _ => PluginEvent::Error(PageStatus::UnexpectedReply),
        }
    }
}

/// The pages that are open.
#[derive(Debug)]
pub struct Pages {
    /// Whether pages are open.
    pub open: bool,
    pub activity: String,
    pub page: usize,
    /// A command is out.
    pub busy: bool,
    pub generation: u64,
    pub plugin: Option<PluginView>,
}

/// What follows a key on the pages.
#[derive(Debug)]
pub enum PageStep {
    Nothing,
    /// Draw the page.
    Render,
    /// Hand the command to its worker; the label is the tile's.
    Send { action: Action, label: String },
    /// Hand the request to the package's worker.
    Ask(PageRequest),
}

/// A tile as it is drawn.
#[derive(Debug)]
pub struct ShownTile {
    pub label: String,
    pub detail: String,
    pub enabled: bool,
    /// The picture of an activity's own tile, where it has one.
    pub icon: Option<Icon>,
    /// The picture of a packaged device's tile.
    pub plugin_icon: Option<TileIcon>,
}

/// A page as it is drawn.
#[derive(Debug)]
pub struct ShownPage {
    pub title: String,
    pub page: usize,
    pub count: usize,
    /// Whether the activity's source has a screen to go back to.
    pub source: bool,
    pub tiles: Vec<ShownTile>,
}

/// A view that nothing has been read for.
pub open spec fn fresh_view(target: PluginTarget, view: PluginView) -> bool {
    &&& view.target == target
    &&& view.status == (PanelStatus {
        on: None,
        playing: None,
        muted: None,
        volume: None,
        volume_db: None,
        input: None,
        title: None,
    })
    &&& view.inputs@.len() == 0
    &&& view.volume_draft is None
}

/// What a tile of a packaged device does when it is pressed, where nothing is
/// out.
pub open spec fn tile_step(plugin: PluginView, face: Face, step: PageStep) -> bool {
    if !face.enabled {
        step is Nothing
    } else {
        match face.action {
            Deed::RefreshStatus => step == PageStep::Ask(PageRequest::Status),
            Deed::RefreshInputs => step == PageStep::Ask(PageRequest::Inputs),
            Deed::AdjustVolume(_) => step is Render,
            Deed::ResetVolume => step is Render,
            Deed::SetVolume(tenths) => step == PageStep::Ask(
                PageRequest::Action(TypedAction::SetVolumeDb { tenths }),
            ),
            _ => match command_of(face.action, plugin.status) {
                Some(command) => {
                    &&& step matches PageStep::Send { action, label }
                    &&& action.device == plugin.target.device
                    &&& action.command@ == command
                    &&& !action.repeatable
                    &&& label@ == face.label
                },
                None => step is Nothing,
            },
        }
    }
}

/// The level that is being chosen after a tile was pressed.
pub open spec fn draft_after(plugin: PluginView, face: Face) -> Option<i16> {
    if !face.enabled {
        plugin.volume_draft
    } else {
        match face.action {
            Deed::AdjustVolume(delta) => match adjusted(plugin, delta as int) {
                Some(t) => Some(t as i16),
                None => None,
            },
            Deed::ResetVolume => observed(plugin),
            _ => plugin.volume_draft,
        }
    }
}

/// The tile that a key names on the page that is shown.
pub open spec fn face_at(all: Seq<Sheet>, page: int, value: int) -> Option<Face> {
    if 0 <= page < all.len() && 0 <= value < all[page].tiles.len() {
        Some(all[page].tiles[value])
    } else {
        None
    }
}

/// The widget that a key names on the page that is shown.
pub open spec fn widget_at(activity: Activity, page: int, value: int) -> Option<Widget> {
    if 0 <= page < activity.pages@.len() && 0 <= value < activity.pages@[page].widgets@.len() {
        Some(activity.pages@[page].widgets@[value])
    } else {
        None
    }
}

impl Pages {
    /// A declared volume range is not empty.
    pub open spec fn wf(self) -> bool {
        self.plugin matches Some(view) ==> volume_wf(view)
    }

    /// No pages are open.
    pub fn new() -> (r: Pages)
        ensures
            !r.open,
            r.activity@.len() == 0,
            r.page == 0,
            !r.busy,
            r.generation == 0,
            r.plugin is None,
            r.wf(),
    {
        Pages {
            open: false,
            activity: String::new(),
            page: 0,
            busy: false,
            generation: 0,
            plugin: None,
        }
    }

    /// Close the pages: what is still out becomes stale.
    pub fn close(&mut self)
        ensures
            *final(self) == (Pages {
                open: false,
                busy: false,
                generation: wrapped(old(self).generation),
                plugin: None,
                ..*old(self)
            }),
            final(self).wf(),
    {
        self.generation = next_generation(self.generation);
        self.open = false;
        self.plugin = None;
        self.busy = false;
    }

    /// Open an activity's own pages, at the first.
    pub fn open_activity(&mut self, id: String)
        ensures
            *final(self) == (Pages {
                open: true,
                activity: id,
                page: 0,
                busy: false,
                generation: wrapped(old(self).generation),
                plugin: None,
            }),
            final(self).wf(),
    {
        self.close();
        self.open = true;
        self.activity = id;
        self.page = 0;
    }

    /// Open a packaged device's pages, at the first. Its status is asked for,
    /// and its inputs where it has any.
    pub fn open_plugin(&mut self, target: PluginTarget) -> (r: Vec<PageRequest>)
        requires
            target.volume matches Some(s) ==> s.min_tenths <= s.max_tenths,
        ensures
            final(self).open,
            final(self).activity@.len() == 0,
            final(self).page == 0,
            !final(self).busy,
            final(self).generation == wrapped(old(self).generation),
            final(self).plugin matches Some(view) && fresh_view(target, view),
            r@ == if target.supports_inputs {
                seq![PageRequest::Status, PageRequest::Inputs]
            } else {
                seq![PageRequest::Status]
            },
            final(self).wf(),
    {
        self.close();
        self.open = true;
        self.activity = String::new();
        self.page = 0;
        let mut requests: Vec<PageRequest> = Vec::new();
        requests.push(PageRequest::Status);
        if target.supports_inputs {
            requests.push(PageRequest::Inputs);
        }
        self.plugin = Some(
            PluginView {
                target,
                status: PanelStatus {
                    on: None,
                    playing: None,
                    muted: None,
                    volume: None,
                    volume_db: None,
                    input: None,
                    title: None,
                },
                inputs: Vec::new(),
                volume_draft: None,
            },
        );
        requests
    }

    /// A key on a packaged device's pages. A command goes out only while none
    /// is, and only from a tile that is enabled.
    fn handle_plugin(&mut self, action: &str, value: i32) -> (r: PageStep)
        requires
            old(self).wf(),
            old(self).plugin is Some,
        ensures
            plugin_handled(*old(self), action@, value as int, *final(self), r),
            final(self).wf(),
    {
        let mut plugin = match self.plugin.take() {
            Some(plugin) => plugin,
            None => return PageStep::Nothing,
        };
        let pages = plugin_pages(&plugin);
        let ghost all = device_sheets(plugin);
        let ghost shown = plugin;
        assert(sheets(pages@).len() == pages@.len());
        if same(action, "page") {
            self.page = page_index(self.page, value, pages.len());
            self.plugin = Some(plugin);
            return PageStep::Render;
        }
        if !same(action, "command") || self.busy {
            self.plugin = Some(plugin);
            return PageStep::Nothing;
        }
        if value < 0 || self.page >= pages.len() || value as usize
            >= pages[self.page].tiles.len() {
            proof {
                if 0 <= self.page < pages@.len() {
                    assert(all[self.page as int] == pages@[self.page as int]@);
                }
            }
            self.plugin = Some(plugin);
            return PageStep::Nothing;
        }
        let tile = &pages[self.page].tiles[value as usize];
        proof {
            assert(all[self.page as int] == pages@[self.page as int]@);
            assert(all[self.page as int].tiles[value as int] == tile@);
        }
        if !tile.enabled {
            self.plugin = Some(plugin);
            return PageStep::Nothing;
        }
        let step = match &tile.action {
            TileAction::RefreshStatus => PageStep::Ask(PageRequest::Status),
            TileAction::RefreshInputs => PageStep::Ask(PageRequest::Inputs),
            TileAction::AdjustVolume(delta) => {
                plugin.volume_draft = adjusted_volume(&plugin, *delta);
                PageStep::Render
            },
            TileAction::ResetVolume => {
                plugin.volume_draft = observed_volume(&plugin);
                PageStep::Render
            },
            TileAction::SetVolume(tenths) => PageStep::Ask(
                PageRequest::Action(TypedAction::SetVolumeDb { tenths: *tenths }),
            ),
            _ => match plugin_command(&tile.action, &plugin.status) {
                Some(command) => PageStep::Send {
                    action: Action {
                        device: plugin.target.device.clone(),
                        command,
                        repeatable: false,
                    },
                    label: tile.label.clone(),
                },
                None => PageStep::Nothing,
            },
        };
        self.plugin = Some(plugin);
        step
    }

    /// A key on the pages.
    pub fn handle(&mut self, config: &Config, action: &str, value: i32) -> (r: PageStep)
        requires
            old(self).wf(),
        ensures
            if old(self).plugin is Some {
                plugin_handled(*old(self), action@, value as int, *final(self), r)
            } else {
                activity_handled(*old(self), *config, action@, value as int, *final(self), r)
            },
            final(self).wf(),
    {
        if self.plugin.is_some() {
            return self.handle_plugin(action, value);
        }
        if !self.open {
            return PageStep::Nothing;
        }
        let activity = match find_activity(config, self.activity.as_str()) {
            Some(activity) => activity,
            None => return PageStep::Nothing,
        };
        if same(action, "page") {
            self.page = page_index(self.page, value, activity.pages.len());
            return PageStep::Render;
        }
        if !same(action, "command") || self.busy {
            return PageStep::Nothing;
        }
        if value < 0 || self.page >= activity.pages.len() || value as usize
            >= activity.pages[self.page].widgets.len() {
            return PageStep::Nothing;
        }
        let widget = &activity.pages[self.page].widgets[value as usize];
        PageStep::Send { action: widget.action.copy(), label: widget.label.clone() }
    }

    /// How handing a command to its worker went.
    pub fn command_queued(&mut self, label: String, room: bool) -> (r: PageStatus)
        requires
            old(self).wf(),
        ensures
            r == if room {
                PageStatus::Sending(label)
            } else {
                PageStatus::WorkerBusy
            },
            *final(self) == (Pages { busy: old(self).busy || room, ..*old(self) }),
            room ==> final(self).busy && r == PageStatus::Sending(label),
            !room ==> final(self).busy == old(self).busy && r is WorkerBusy,
            final(self).wf(),
    {
        if room {
            self.busy = true;
            PageStatus::Sending(label)
        } else {
            PageStatus::WorkerBusy
        }
    }

    /// How handing a request to the package's worker went. A typed action keeps
    /// the pages busy until it is answered.
    pub fn request_queued(&mut self, request: PageRequest, room: bool) -> (r: PageStatus)
        requires
            old(self).wf(),
        ensures
            r == if !room {
                PageStatus::QueueBusy
            } else {
                match request {
                    PageRequest::Status => PageStatus::RefreshingStatus,
                    PageRequest::Inputs => PageStatus::LoadingInputs,
                    PageRequest::Action(_) => PageStatus::SettingVolume,
                }
            },
            *final(self) == (Pages {
                busy: old(self).busy || room && request is Action,
                ..*old(self)
            }),
            !room <==> r is QueueBusy,
            room && request is Action ==> final(self).busy && r is SettingVolume,
            room && request is Status ==> r is RefreshingStatus,
            room && request is Inputs ==> r is LoadingInputs,
            final(self).wf(),
    {
        if !room {
            return PageStatus::QueueBusy;
        }
        match request {
            PageRequest::Status => PageStatus::RefreshingStatus,
            PageRequest::Inputs => PageStatus::LoadingInputs,
            PageRequest::Action(_) => {
                self.busy = true;
                PageStatus::SettingVolume
            },
        }
    }

    /// What a command came to. A packaged device's status is asked for again
    /// after one that was sent.
    pub fn command_done(&mut self, generation: u64, failed: Option<PageStatus>) -> (r: Option<
        (PageStatus, bool),
    >)
        requires
            old(self).wf(),
        ensures
            if generation != old(self).generation {
                r is None && *final(self) == *old(self)
            } else {
                &&& *final(self) == (Pages { busy: false, ..*old(self) })
                &&& r == Some(
                    match failed {
                        Some(status) => (status, false),
                        None => (PageStatus::CommandSent, old(self).plugin is Some),
                    },
                )
            },
            r is Some <==> generation == old(self).generation,
            r matches Some((said, refresh)) ==> !final(self).busy && (refresh ==> failed is None
                && old(self).plugin is Some) && (failed matches Some(why) ==> said == why),
            final(self).wf(),
    {
        if generation != self.generation {
            return None;
        }
        self.busy = false;
        match failed {
            Some(status) => Some((status, false)),
            None => Some((PageStatus::CommandSent, self.plugin.is_some())),
        }
    }

    /// What a package's answer does to its pages. One for other pages changes
    /// nothing.
    pub fn apply_plugin_event(&mut self, generation: u64, event: PluginEvent) -> (r: Option<
        PageStatus,
    >)
        requires
            old(self).wf(),
        ensures
            event_applied(*old(self), generation, event, *final(self), r),
            final(self).wf(),
    {
        if generation != self.generation {
            return None;
        }
        let mut plugin = match self.plugin.take() {
            Some(plugin) => plugin,
            None => return None,
        };
        let status = match event {
            PluginEvent::Status(status) => {
                plugin.status = status;
                if plugin.volume_draft.is_none() {
                    plugin.volume_draft = observed_volume(&plugin);
                }
                PageStatus::StatusUpdated
            },
            PluginEvent::Inputs(inputs) => {
                plugin.inputs = inputs;
                PageStatus::InputsUpdated
            },
            PluginEvent::Error(status) => status,
            PluginEvent::ActionDone(failed) => match failed {
                Some(status) => status,
                None => PageStatus::VolumeSet,
            },
        };
        self.plugin = Some(plugin);
        Some(status)
    }

    /// A package has answered. A typed action's answer ends the wait for it, and
    /// after one that was taken the status is asked for again.
    pub fn plugin_done(&mut self, generation: u64, event: PluginEvent) -> (r: Option<
        (PageStatus, bool),
    >)
        requires
            old(self).wf(),
        ensures
            exists|status: Option<PageStatus>| #[trigger]
                event_applied(
                    old(self).freed(generation, event),
                    generation,
                    event,
                    *final(self),
                    status,
                ) && r == match status {
                    Some(s) => Some((s, event == PluginEvent::ActionDone(None))),
                    None => None,
                },
            final(self).wf(),
    {
        let ghost before = *self;
        let taken = match &event {
            PluginEvent::ActionDone(failed) => {
                if generation == self.generation {
                    self.busy = false;
                }
                failed.is_none()
            },
            _ => false,
        };
        assert(*self == before.freed(generation, event));
        match self.apply_plugin_event(generation, event) {
            Some(status) => Some((status, taken)),
            None => None,
        }
    }

    /// The pages once the answer to a typed action has ended the wait for it.
    pub open spec fn freed(self, generation: u64, event: PluginEvent) -> Pages {
        if generation == self.generation && event is ActionDone {
            Pages { busy: false, ..self }
        } else {
            self
        }
    }

    /// What a package is asked for the page.
    pub open spec fn work_for(self, request: PageRequest) -> Option<PluginWork> {
        match self.plugin {
            Some(view) => Some(
                PluginWork {
                    generation: self.generation,
                    connection: view.target.connection,
                    resource: if view.target.resource@.len() == 0 {
                        None
                    } else {
                        Some(view.target.resource)
                    },
                    request,
                },
            ),
            None => None,
        }
    }

    /// A request as it goes to the package's worker: a child of the connection
    /// is named, a device that is the connection is not.
    pub fn request_plugin(&self, request: PageRequest) -> (r: Option<PluginWork>)
        ensures
            r == self.work_for(request),
            match (self.plugin, r) {
                (Some(view), Some(work)) => {
                    &&& work.generation == self.generation
                    &&& work.connection == view.target.connection
                    &&& work.resource == if view.target.resource@.len() == 0 {
                        None
                    } else {
                        Some(view.target.resource)
                    }
                    &&& work.request == request
                },
                (None, None) => true,
                _ => false,
            },
    {
        match &self.plugin {
            Some(view) => Some(
                PluginWork {
                    generation: self.generation,
                    connection: view.target.connection.clone(),
                    resource: if view.target.resource.as_str().unicode_len() == 0 {
                        None
                    } else {
                        Some(view.target.resource.clone())
                    },
                    request,
                },
            ),
            None => None,
        }
    }

    /// The page as it is drawn, if there is one.
    pub fn render(&self, config: &Config) -> (r: Option<ShownPage>)
        requires
            self.wf(),
        ensures
            rendered(*self, *config, r),
    {
        match &self.plugin {
            Some(plugin) => {
                let pages = plugin_pages(plugin);
                let ghost all = device_sheets(*plugin);
                assert(sheets(pages@).len() == pages@.len());
                if self.page >= pages.len() {
                    return None;
                }
                let page = &pages[self.page];
                assert(all[self.page as int] == page@);
                let mut tiles: Vec<ShownTile> = Vec::new();
                let mut i: usize = 0;
                while i < page.tiles.len()
                    invariant
                        i <= page.tiles@.len(),
                        tiles@.len() == i,
                        forall|k: int|
                            0 <= k < i ==> shows_face(#[trigger] tiles@[k], page.tiles@[k]@),
                    decreases page.tiles.len() - i,
                {
                    let tile = &page.tiles[i];
                    tiles.push(
                        ShownTile {
                            label: tile.label.clone(),
                            detail: tile.detail.clone(),
                            enabled: tile.enabled,
                            icon: None,
                            plugin_icon: Some(tile.icon),
                        },
                    );
                    i = i + 1;
                }
                Some(
                    ShownPage {
                        title: page.title.clone(),
                        page: self.page,
                        count: pages.len(),
                        source: false,
                        tiles,
                    },
                )
            },
            None => {
                if !self.open {
                    return None;
                }
                let activity = match find_activity(config, self.activity.as_str()) {
                    Some(activity) => activity,
                    None => return None,
                };
                if self.page >= activity.pages.len() {
                    return None;
                }
                let page = &activity.pages[self.page];
                let mut tiles: Vec<ShownTile> = Vec::new();
                let mut i: usize = 0;
                while i < page.widgets.len()
                    invariant
                        i <= page.widgets@.len(),
                        tiles@.len() == i,
                        forall|k: int|
                            0 <= k < i ==> shows_widget(
                                *config,
                                #[trigger] tiles@[k],
                                page.widgets@[k],
                            ),
                    decreases page.widgets.len() - i,
                {
                    let widget = &page.widgets[i];
                    let detail = match config.device(widget.action.device.as_str()) {
                        Some(d) => d.name.clone(),
                        None => "Device unavailable".to_owned(),
                    };
                    tiles.push(
                        ShownTile {
                            label: widget.label.clone(),
                            detail,
                            enabled: true,
                            icon: widget.icon,
                            plugin_icon: None,
                        },
                    );
                    i = i + 1;
                }
                let source = match &activity.source {
                    Some(id) => match config.device(id.as_str()) {
                        Some(d) => d.has_screen,
                        None => false,
                    },
                    None => false,
                };
                Some(
                    ShownPage {
                        title: page.title.clone(),
                        page: self.page,
                        count: activity.pages.len(),
                        source,
                        tiles,
                    },
                )
            },
        }
    }
}

fn find_activity<'a>(config: &'a Config, id: &str) -> (r: Option<&'a Activity>)
    ensures
        match r {
            Some(a) => activity_from(config.activities@, id@, 0) == Some(*a),
            None => activity_from(config.activities@, id@, 0) is None,
        },
{
    let mut i: usize = 0;
    while i < config.activities.len()
        invariant
            i <= config.activities.len(),
            activity_from(config.activities@, id@, 0) == activity_from(
                config.activities@,
                id@,
                i as int,
            ),
        decreases config.activities.len() - i,
    {
        if same(config.activities[i].id.as_str(), id) {
            return Some(&config.activities[i]);
        }
        i = i + 1;
    }
    None
}

/// What a key does on a packaged device's pages.
pub open spec fn plugin_handled(
    before: Pages,
    action: Seq<char>,
    value: int,
    after: Pages,
    step: PageStep,
) -> bool {
    let plugin = before.plugin->0;
    let all = device_sheets(plugin);
    if action == "page"@ {
        &&& step is Render
        &&& after == (Pages {
            page: stepped_page(before.page as int, value, all.len() as int) as usize,
            ..before
        })
    } else if action != "command"@ || before.busy {
        step is Nothing && after == before
    } else {
        match face_at(all, before.page as int, value) {
            None => step is Nothing && after == before,
            Some(face) => {
                &&& tile_step(plugin, face, step)
                &&& after == (Pages {
                    plugin: Some(PluginView { volume_draft: draft_after(plugin, face), ..plugin }),
                    ..before
                })
            },
        }
    }
}

/// What a key does on an activity's own pages.
pub open spec fn activity_handled(
    before: Pages,
    config: Config,
    action: Seq<char>,
    value: int,
    after: Pages,
    step: PageStep,
) -> bool {
    match activity_from(config.activities@, before.activity@, 0) {
        Some(activity) => if !before.open {
            step is Nothing && after == before
        } else if action == "page"@ {
            &&& step is Render
            &&& after == (Pages {
                page: stepped_page(
                    before.page as int,
                    value,
                    activity.pages@.len() as int,
                ) as usize,
                ..before
            })
        } else {
            &&& after == before
            &&& match widget_at(activity, before.page as int, value) {
                Some(widget) => if action == "command"@ && !before.busy {
                    step == (PageStep::Send { action: widget.action, label: widget.label })
                } else {
                    step is Nothing
                },
                None => step is Nothing,
            }
        },
        None => step is Nothing && after == before,
    }
}

/// What a package's answer does to its pages.
pub open spec fn event_applied(
    before: Pages,
    generation: u64,
    event: PluginEvent,
    after: Pages,
    status: Option<PageStatus>,
) -> bool {
    if generation != before.generation {
        status is None && after == before
    } else {
        match before.plugin {
            None => status is None && after == before,
            Some(plugin) => match event {
                PluginEvent::Status(read) => {
                    let now = PluginView { status: read, ..plugin };
                    &&& status == Some(PageStatus::StatusUpdated)
                    &&& after == (Pages {
                        plugin: Some(
                            PluginView {
                                volume_draft: if plugin.volume_draft is Some {
                                    plugin.volume_draft
                                } else {
                                    observed(now)
                                },
                                ..now
                            },
                        ),
                        ..before
                    })
                },
                PluginEvent::Inputs(inputs) => {
                    &&& status == Some(PageStatus::InputsUpdated)
                    &&& after == (Pages {
                        plugin: Some(PluginView { inputs, ..plugin }),
                        ..before
                    })
                },
                PluginEvent::Error(error) => status == Some(error) && after == before,
                PluginEvent::ActionDone(failed) => {
                    &&& status == Some(
                        match failed {
                            Some(error) => error,
                            None => PageStatus::VolumeSet,
                        },
                    )
                    &&& after == before
                },
            },
        }
    }
}

/// Whether a tile is drawn as a packaged device's.
pub open spec fn shows_face(shown: ShownTile, face: Face) -> bool {
    &&& shown.label@ == face.label
    &&& shown.detail@ == face.detail
    &&& shown.enabled == face.enabled
    &&& shown.icon is None
    &&& shown.plugin_icon == Some(face.icon)
}

/// Whether a tile is drawn as an activity's own.
pub open spec fn shows_widget(config: Config, shown: ShownTile, widget: Widget) -> bool {
    &&& shown.label == widget.label
    &&& shown.detail@ == (match config.spec_device(widget.action.device@) {
        Some(d) => d.name@,
        None => "Device unavailable"@,
    })
    &&& shown.enabled
    &&& shown.icon == widget.icon
    &&& shown.plugin_icon is None
}

/// Whether a page is drawn as it is: a packaged device's, or an activity's own.
pub open spec fn rendered(pages: Pages, config: Config, shown: Option<ShownPage>) -> bool {
    match pages.plugin {
        Some(plugin) => {
            let all = device_sheets(plugin);
            if pages.page < all.len() {
                &&& shown matches Some(page)
                &&& page.title@ == all[pages.page as int].title
                &&& page.page == pages.page
                &&& page.count == all.len()
                &&& !page.source
                &&& page.tiles@.len() == all[pages.page as int].tiles.len()
                &&& forall|k: int|
                    0 <= k < page.tiles@.len() ==> shows_face(
                        #[trigger] page.tiles@[k],
                        all[pages.page as int].tiles[k],
                    )
            } else {
                shown is None
            }
        },
        None => match activity_from(config.activities@, pages.activity@, 0) {
            Some(activity) => if pages.open && pages.page < activity.pages@.len() {
                let own: ActivityPage = activity.pages@[pages.page as int];
                &&& shown matches Some(page)
                &&& page.title == own.title
                &&& page.page == pages.page
                &&& page.count == activity.pages@.len()
                &&& page.source == (activity.source matches Some(id) && config.spec_device(
                    id@,
                ) matches Some(d) && d.has_screen)
                &&& page.tiles@.len() == own.widgets@.len()
                &&& forall|k: int|
                    0 <= k < page.tiles@.len() ==> shows_widget(
                        config,
                        #[trigger] page.tiles@[k],
                        own.widgets@[k],
                    )
            } else {
                shown is None
            },
            None => shown is None,
        },
    }
}

/// An answer that belongs to pages which have closed cannot repaint those that
/// are open now.
pub proof fn a_stale_reply_cannot_repaint(
    before: Pages,
    event: PluginEvent,
    after: Pages,
    status: Option<PageStatus>,
)
    requires
        event_applied(
            Pages { generation: wrapped(before.generation), ..before },
            before.generation,
            event,
            after,
            status,
        ),
    ensures
        after == (Pages { generation: wrapped(before.generation), ..before }),
        status is None,
{
}

/// Choosing a level sends nothing: only "Set volume" does.
pub proof fn choosing_a_level_sends_nothing(plugin: PluginView, face: Face, step: PageStep)
    requires
        tile_step(plugin, face, step),
        face.action is AdjustVolume || face.action is ResetVolume,
    ensures
        step is Render || step is Nothing,
{
}

/// A tile of an activity sends its own command, once at a time, and the pages turn
/// by what was pressed, round both ends.
pub proof fn a_tile_sends_its_own_command(
    before: Pages,
    config: Config,
    activity: Activity,
    value: int,
    after: Pages,
    step: PageStep,
)
    requires
        before.open,
        activity_from(config.activities@, before.activity@, 0) == Some(activity),
        before.page < activity.pages@.len() <= usize::MAX,
    ensures
        activity_handled(before, config, "command"@, value, after, step) ==> {
            let tiles = activity.pages@[before.page as int].widgets@;
            &&& after == before
            &&& 0 <= value < tiles.len() && !before.busy ==> step == (PageStep::Send {
                action: tiles[value].action,
                label: tiles[value].label,
            })
            &&& before.busy || value < 0 || value >= tiles.len() ==> step is Nothing
        },
        activity_handled(before, config, "page"@, value, after, step) ==> {
            &&& step is Render
            &&& after.page == (before.page + value) % (activity.pages@.len() as int)
            &&& after.busy == before.busy && after.activity == before.activity
        },
{
    reveal_strlit("page");
    reveal_strlit("command");
    assert("page"@.len() == 4 && "command"@.len() == 7);
    pages_wrap_both_ways(before.page as int, value, activity.pages@.len() as int);
}

/// A page turns to the next and back, and round the ends.
pub proof fn a_page_turns_to_the_next(current: int, count: int)
    requires
        0 <= current < count,
    ensures
        current + 1 < count ==> stepped_page(current, 1, count) == current + 1,
        stepped_page(count - 1, 1, count) == 0,
        current > 0 ==> stepped_page(current, -1, count) == current - 1,
        stepped_page(0, -1, count) == count - 1,
        stepped_page(current, 0, count) == current,
{
    vstd::arithmetic::div_mod::lemma_small_mod(current as nat, count as nat);
    if current + 1 < count {
        vstd::arithmetic::div_mod::lemma_small_mod((current + 1) as nat, count as nat);
    }
    if current > 0 {
        vstd::arithmetic::div_mod::lemma_small_mod((current - 1) as nat, count as nat);
    }
    assert((count - 1 + 1) % count == 0) by (nonlinear_arith)
        requires
            count > 0,
    ;
    assert((0 - 1) % count == count - 1) by (nonlinear_arith)
        requires
            count > 0,
    ;
}

/// What a tile of a packaged device does: it asks for what it names, moves the
/// target without sending, sets the level that it shows, or sends its command to
/// the device of the pages. A tile that is off does nothing.
pub proof fn a_packages_tile_does_what_it_names(plugin: PluginView, face: Face, step: PageStep)
    requires
        tile_step(plugin, face, step),
    ensures
        !face.enabled ==> step is Nothing,
        face.enabled ==> match face.action {
            Deed::RefreshStatus => step matches PageStep::Ask(request) && request is Status,
            Deed::RefreshInputs => step matches PageStep::Ask(request) && request is Inputs,
            Deed::SetVolume(tenths) => step matches PageStep::Ask(PageRequest::Action(action))
                && action == (TypedAction::SetVolumeDb { tenths }),
            Deed::Command(command) => step matches PageStep::Send { action, label }
                && action.command@ == command && action.device == plugin.target.device
                && !action.repeatable && label@ == face.label,
            Deed::Toggle { state, on, off } => match crate::plugin_pages::field_bool(
                plugin.status,
                state,
            ) {
                Some(true) => step matches PageStep::Send { action, label } && action.command@
                    == off && action.device == plugin.target.device,
                Some(false) => step matches PageStep::Send { action, label } && action.command@
                    == on && action.device == plugin.target.device,
                None => step is Nothing,
            },
            _ => step is Render,
        },
{
}

/// The target of a volume page moves by the step of its tile, or back to what was
/// read, and by nothing else.
pub proof fn a_volume_target_moves_by_its_tile(plugin: PluginView, face: Face)
    ensures
        !face.enabled ==> draft_after(plugin, face) == plugin.volume_draft,
        face.enabled && face.action is ResetVolume ==> draft_after(plugin, face) == observed(plugin),
        face.enabled && !(face.action is ResetVolume) && !(face.action is AdjustVolume)
            ==> draft_after(plugin, face) == plugin.volume_draft,
        face.enabled ==> (face.action matches Deed::AdjustVolume(delta) ==> (adjusted(
            plugin,
            delta as int,
        ) matches Some(t) ==> draft_after(plugin, face) == Some(t as i16))),
{
}

/// A packaged device's tile is the one that stands at its place on the page that
/// is shown, and only while nothing is out.
pub proof fn a_packages_tile_is_the_one_on_its_page(
    before: Pages,
    value: int,
    after: Pages,
    step: PageStep,
)
    requires
        before.plugin is Some,
    ensures
        plugin_handled(before, "command"@, value, after, step) ==> {
            let all = device_sheets(before.plugin->0);
            &&& before.busy ==> step is Nothing && after == before
            &&& !before.busy && before.page < all.len() && 0 <= value
                < all[before.page as int].tiles.len() ==> tile_step(
                before.plugin->0,
                all[before.page as int].tiles[value],
                step,
            )
            &&& after.page == before.page && after.generation == before.generation
        },
        plugin_handled(before, "page"@, value, after, step) ==> step is Render && after.page
            == stepped_page(
            before.page as int,
            value,
            device_sheets(before.plugin->0).len() as int,
        ) as usize && after.plugin == before.plugin,
{
    reveal_strlit("page");
    reveal_strlit("command");
    assert("page"@.len() == 4 && "command"@.len() == 7);
}

/// What a package answers is shown: its status as it came, its inputs as they
/// came, and a level that was set as such. A level that was chosen stays chosen.
pub proof fn a_packages_answer_is_shown(
    before: Pages,
    event: PluginEvent,
    after: Pages,
    status: Option<PageStatus>,
)
    requires
        before.plugin is Some,
        event_applied(before, before.generation, event, after, status),
    ensures
        after.busy == before.busy && after.page == before.page,
        match event {
            PluginEvent::Status(read) => {
                &&& status matches Some(said) && said.spec_text() == "Status updated"@
                &&& after.plugin matches Some(view) && view.status == read && view.inputs
                    == before.plugin->0.inputs && (before.plugin->0.volume_draft is Some
                    ==> view.volume_draft == before.plugin->0.volume_draft)
            },
            PluginEvent::Inputs(inputs) => {
                &&& status matches Some(said) && said.spec_text() == "Inputs updated"@
                &&& after.plugin matches Some(view) && view.inputs == inputs && view.status
                    == before.plugin->0.status
            },
            PluginEvent::Error(error) => status == Some(error) && after == before,
            PluginEvent::ActionDone(None) => {
                &&& status matches Some(said) && said.spec_text() == "Volume set"@
                &&& after == before
            },
            PluginEvent::ActionDone(Some(error)) => status == Some(error) && after == before,
        },
{
}

/// A typed action's answer ends the wait for it; no other answer does, and none
/// for pages that were closed.
pub proof fn only_its_answer_ends_the_wait(pages: Pages, generation: u64, event: PluginEvent)
    ensures
        generation == pages.generation && event is ActionDone ==> !pages.freed(generation, event).busy,
        generation != pages.generation || !(event is ActionDone) ==> pages.freed(generation, event)
            == pages,
{
}

/// The page that is shown is the one that is open, with its own tiles: an
/// activity's with the devices they go to, a package's as it is drawn.
pub proof fn the_open_page_is_shown(
    pages: Pages,
    config: Config,
    activity: Activity,
    shown: Option<ShownPage>,
    k: int,
)
    requires
        pages.plugin is None,
        pages.open,
        activity_from(config.activities@, pages.activity@, 0) == Some(activity),
        rendered(pages, config, shown),
    ensures
        pages.page >= activity.pages@.len() ==> shown is None,
        pages.page < activity.pages@.len() ==> {
            let own = activity.pages@[pages.page as int];
            &&& shown matches Some(page)
            &&& page.title == own.title && page.page == pages.page && page.count
                == activity.pages@.len()
            &&& page.tiles@.len() == own.widgets@.len()
            &&& 0 <= k < own.widgets@.len() ==> {
                &&& page.tiles@[k].label == own.widgets@[k].label
                &&& page.tiles@[k].icon == own.widgets@[k].icon && page.tiles@[k].enabled
                &&& match config.spec_device(own.widgets@[k].action.device@) {
                    Some(device) => page.tiles@[k].detail@ == device.name@,
                    None => page.tiles@[k].detail@ == "Device unavailable"@,
                }
            }
        },
{
    if pages.page < activity.pages@.len() && 0 <= k < activity.pages@[pages.page as int].widgets@.len() {
        assert(shows_widget(
            config,
            shown->0.tiles@[k],
            activity.pages@[pages.page as int].widgets@[k],
        ));
    }
}

/// A packaged device's page as it is shown: its own tiles, in their order.
pub proof fn a_packages_page_is_shown(
    pages: Pages,
    config: Config,
    shown: Option<ShownPage>,
    k: int,
)
    requires
        pages.plugin is Some,
        rendered(pages, config, shown),
        pages.page < device_sheets(pages.plugin->0).len(),
    ensures
        ({
            let own = device_sheets(pages.plugin->0)[pages.page as int];
            &&& shown matches Some(page)
            &&& page.title@ == own.title && page.page == pages.page && !page.source
            &&& page.tiles@.len() == own.tiles.len()
            &&& 0 <= k < own.tiles.len() ==> page.tiles@[k].label@ == own.tiles[k].label
                && page.tiles@[k].detail@ == own.tiles[k].detail && page.tiles@[k].enabled
                == own.tiles[k].enabled && page.tiles@[k].plugin_icon == Some(own.tiles[k].icon)
        }),
{
    let own = device_sheets(pages.plugin->0)[pages.page as int];
    if 0 <= k < own.tiles.len() {
        assert(shows_face(shown->0.tiles@[k], own.tiles[k]));
    }
}

/// The bottom line of the pages.
pub proof fn the_pages_words(label: String)
    ensures
        PageStatus::RefreshingStatus.spec_text() == "Refreshing status…"@,
        PageStatus::LoadingInputs.spec_text() == "Loading inputs…"@,
        PageStatus::SettingVolume.spec_text() == "Setting volume…"@,
        PageStatus::QueueBusy.spec_text() == "Integration request queue is busy. Try again."@,
        PageStatus::WorkerBusy.spec_text() == "Command worker is busy. Try again."@,
        PageStatus::Sending(label).spec_text() == "Sending "@ + label@ + "…"@,
        PageStatus::CommandSent.spec_text() == "Command sent"@,
        PageStatus::CommandExpired.spec_text() == "Command expired while waiting. Try again."@,
        PageStatus::RequestExpired.spec_text() == "Integration request expired. Try again."@,
        PageStatus::UnexpectedReply.spec_text() == "The integration sent an unexpected reply"@,
        PageStatus::Said(label).spec_text() == label@,
{
}

/// A command runs for three quarters of a second after it was pressed, on the
/// pages it was pressed on.
pub proof fn a_command_runs_on_its_own_pages(current: u64, waiting: Waiting)
    ensures
        Lease::runs(current, waiting) <==> waiting.generation == current && waiting.age <= 750,
{
}

/// A page asks the package of the device that it shows, for the child that it
/// shows, and under its own generation; a page without a packaged device asks
/// nothing.
pub proof fn a_page_asks_its_own_device(pages: Pages, request: PageRequest)
    ensures
        pages.plugin is None <==> pages.work_for(request) is None,
        pages.plugin matches Some(view) ==> (pages.work_for(request) matches Some(work) && {
            &&& work.generation == pages.generation
            &&& work.connection == view.target.connection
            &&& work.resource is None <==> view.target.resource@.len() == 0
            &&& work.resource is Some ==> work.resource == Some(view.target.resource)
            &&& work.request == request
        }),
{
}

/// Clients are kept while their pages are open, and let go with them.
pub proof fn clients_are_let_go_with_their_pages(lease: Lease, current: u64)
    ensures
        current == lease.generation ==> lease.followed(current) == lease,
        current != lease.generation ==> lease.followed(current).version is None,
        lease.followed(current).generation == current,
{
}

} // verus!
