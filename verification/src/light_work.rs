//! What a room's worker does: read every row, and carry one adjustment or
//! switch to the device behind a row.
use crate::commands::{PluginCode, PluginFailure, Reason};
use crate::connections::{is_listed, listed};
use crate::device_state::{DeviceState, Light};
use crate::lights::{domain, ha_domain, rows_of, Entry, PluginRow, Row};
use crate::model::{Config, TypedAction};
use crate::network_press::CoverCommand;
use crate::num::{later, later_than};
use crate::text::{after, begins, same, starts_with, strip_prefix};
use crate::volume::PluginStatus;
use vstd::prelude::*;

verus! {

/// How long a status read waits, in milliseconds: it is one of many in a round.
pub const STATUS_TIMEOUT_MS: u64 = 1500;

/// How long a write waits: a second more than a package's own requests may take.
pub fn write_timeout(request_ms: u64) -> (r: u64)
    ensures
        r == later(request_ms, 1000),
{
    later_than(request_ms, 1000)
}

/// What a package answers.
#[derive(Debug)]
pub enum Reply {
    /// The request was taken, and nothing more is said.
    Taken,
    Status(PluginStatus),
    Other,
    Failed(PluginFailure),
}

/// The state that a write left a row's device in.
#[derive(Debug)]
pub enum Answer {
    State(DeviceState),
    /// The connection was busy: nothing was sent and nothing is wrong.
    Busy,
}

/// How far a write has come.
#[derive(Clone, Copy, PartialEq, Eq, Structural, Debug)]
pub enum WriteStage {
    Writing,
    /// The write was taken without a state, and the state is being read.
    Reading,
}

/// What follows a package's answer to a write.
#[derive(Debug)]
pub enum WriteStep {
    /// Ask for the child's status, once.
    AskStatus,
    Done(Result<Answer, Reason>),
}

/// Whether a step reports what a status says of a row: the reading filed under
/// the row's id, or that there is none.
pub open spec fn answered(row: PluginRow, name: Seq<char>, status: PluginStatus, step: WriteStep) -> bool {
    let silent = if row.cover {
        status.cover is None
    } else {
        status.light is None
    };
    if silent {
        step == WriteStep::Done(Err(Reason::NotReported))
    } else {
        &&& step matches WriteStep::Done(Ok(Answer::State(state)))
        &&& state.spec_id()@ == row.spec_id()
        &&& exists|reading: DeviceState| #[trigger]
            row.reads(name, status, Some(reading)) && state == reading.filed(state.spec_id())
    }
}

fn answer_from(row: &PluginRow, name: &str, status: &PluginStatus) -> (r: WriteStep)
    ensures
        answered(*row, name@, *status, r),
{
    match row.state(name, status) {
        Some(reading) => {
            let mut state = reading;
            state.set_id(row.id());
            proof {
                assert(row.reads(name@, *status, Some(reading)));
                assert(state == reading.filed(state.spec_id()));
            }
            WriteStep::Done(Ok(Answer::State(state)))
        },
        None => WriteStep::Done(Err(Reason::NotReported)),
    }
}

/// Whether a step is what follows a refusal: a busy connection is no failure.
pub open spec fn refused(failure: PluginFailure, step: WriteStep) -> bool {
    step == if failure.code == PluginCode::Busy {
        WriteStep::Done(Ok(Answer::Busy))
    } else {
        WriteStep::Done(Err(Reason::Refused(failure)))
    }
}

/// What follows a package's answer to a write on one row. A write may be
/// acknowledged with the state it left; a bare acknowledgement is followed by
/// one read.
pub fn write_plugin_row(row: &PluginRow, name: &str, stage: WriteStage, reply: Reply) -> (r: WriteStep)
    ensures
        match reply {
            Reply::Status(status) => answered(*row, name@, status, r),
            Reply::Taken => r == if stage == WriteStage::Writing {
                WriteStep::AskStatus
            } else {
                WriteStep::Done(Err(Reason::InvalidStatus))
            },
            Reply::Other => r == if stage == WriteStage::Writing {
                WriteStep::Done(Err(Reason::InvalidResponse))
            } else {
                WriteStep::Done(Err(Reason::InvalidStatus))
            },
            Reply::Failed(failure) => refused(failure, r),
        },
        r is AskStatus <==> reply is Taken && stage is Writing,
{
    match reply {
        Reply::Status(status) => answer_from(row, name, &status),
        Reply::Taken => match stage {
            WriteStage::Writing => WriteStep::AskStatus,
            WriteStage::Reading => WriteStep::Done(Err(Reason::InvalidStatus)),
        },
        Reply::Other => match stage {
            WriteStage::Writing => WriteStep::Done(Err(Reason::InvalidResponse)),
            WriteStage::Reading => WriteStep::Done(Err(Reason::InvalidStatus)),
        },
        Reply::Failed(failure) => if failure.code == PluginCode::Busy {
            WriteStep::Done(Ok(Answer::Busy))
        } else {
            WriteStep::Done(Err(Reason::Refused(failure)))
        },
    }
}

/// One status read for every packaged row of a room, in order. A connection
/// that does not answer takes the rest of its rows with it for the round.
#[derive(Debug)]
pub struct Round {
    /// The first row that has not been considered.
    pub at: usize,
    /// The connections that did not answer.
    pub silent: Vec<String>,
}

/// Whether a row is asked in a round.
pub open spec fn asked(row: Row, silent: Seq<String>) -> bool {
    row.plugin matches Some(p) && !listed(silent, p.connection@)
}

/// The first row that is asked, at or after a place.
pub open spec fn asked_from(rows: Seq<Row>, silent: Seq<String>, i: int) -> Option<int>
    decreases rows.len() - i,
{
    if i < 0 || i >= rows.len() {
        None
    } else if asked(rows[i], silent) {
        Some(i)
    } else {
        asked_from(rows, silent, i + 1)
    }
}

/// Whether a row is what a status read leaves of it.
pub open spec fn row_read(before: Row, after: Row, reply: Reply) -> bool {
    match (before.plugin, reply) {
        (Some(p), Reply::Status(status)) => {
            &&& after == (Row { state: after.state, ..before })
            &&& match after.state {
                None => p.reads(before.name, status, None),
                Some(state) => state.spec_id()@ == before.id && exists|reading: DeviceState| #[trigger]
                    p.reads(before.name, status, Some(reading)) && state == reading.filed(
                        state.spec_id(),
                    ),
            }
        },
        (Some(_), Reply::Failed(failure)) => after == (Row {
            unpaired: failure.code == PluginCode::Unpaired,
            ..before
        }),
        _ => after == before,
    }
}

/// Whether a refusal means that the connection itself is not there.
pub open spec fn goes_silent(reply: Reply) -> bool {
    reply matches Reply::Failed(failure) && (failure.code == PluginCode::Transport || failure.code
        == PluginCode::Timeout)
}

fn read_row(e: &mut Entry, reply: &Reply)
    ensures
        row_read(old(e)@, final(e)@, *reply),
{
    match &e.plugin {
        Some(p) => match reply {
            Reply::Status(status) => {
                match p.state(e.name.as_str(), status) {
                    Some(reading) => {
                        let mut state = reading;
                        state.set_id(e.id.clone());
                        proof {
                            assert(p.reads(e.name@, *status, Some(reading)));
                            assert(state == reading.filed(state.spec_id()));
                        }
                        e.state = Some(state);
                    },
                    None => {
                        e.state = None;
                    },
                }
            },
            Reply::Failed(failure) => {
                e.unpaired = failure.code == PluginCode::Unpaired;
            },
            _ => {},
        },
        None => {},
    }
}

impl Round {
    /// Nothing has been asked.
    pub fn new() -> (r: Round)
        ensures
            r.at == 0,
            r.silent@.len() == 0,
    {
        Round { at: 0, silent: Vec::new() }
    }

    /// The next row to ask, if there is one.
    pub fn next(&mut self, entries: &Vec<Entry>) -> (r: Option<usize>)
        requires
            old(self).at <= entries@.len(),
        ensures
            final(self).silent@ == old(self).silent@,
            old(self).at <= final(self).at <= entries@.len(),
            match asked_from(rows_of(entries@), old(self).silent@, old(self).at as int) {
                Some(k) => r == Some(k as usize) && final(self).at == k && k < entries@.len()
                    && entries@[k].plugin is Some,
                None => r is None && final(self).at == entries@.len(),
            },
    {
        while self.at < entries.len()
            invariant
                old(self).at <= self.at <= entries@.len(),
                self.silent@ == old(self).silent@,
                asked_from(rows_of(entries@), self.silent@, old(self).at as int) == asked_from(
                    rows_of(entries@),
                    self.silent@,
                    self.at as int,
                ),
            decreases entries.len() - self.at,
        {
            let e = &entries[self.at];
            assert(rows_of(entries@)[self.at as int] == e@);
            match &e.plugin {
                Some(p) => {
                    if !is_listed(&self.silent, p.connection.as_str()) {
                        return Some(self.at);
                    }
                },
                None => {},
            }
            self.at = self.at + 1;
        }
        None
    }

    /// What the row that was asked answered.
    pub fn answer(&mut self, entries: &mut Vec<Entry>, reply: Reply)
        requires
            old(self).at < old(entries)@.len(),
            old(entries)@[old(self).at as int].plugin is Some,
        ensures
            final(self).at == old(self).at + 1,
            final(entries)@.len() == old(entries)@.len(),
            forall|k: int|
                0 <= k < old(entries)@.len() && k != old(self).at ==> #[trigger] final(entries)@[k]
                    == old(entries)@[k],
            row_read(
                old(entries)@[old(self).at as int]@,
                final(entries)@[old(self).at as int]@,
                reply,
            ),
            final(self).silent@ == if goes_silent(reply) {
                old(self).silent@.push(old(entries)@[old(self).at as int].plugin->0.connection)
            } else {
                old(self).silent@
            },
    {
        let count: usize = entries.len();
        assert(self.at < count);
        let gone = match &reply {
            Reply::Failed(failure) => failure.code == PluginCode::Transport || failure.code
                == PluginCode::Timeout,
            _ => false,
        };
        if gone {
            match &entries[self.at].plugin {
                Some(p) => {
                    self.silent.push(p.connection.clone());
                },
                None => {},
            }
        }
        read_row(&mut entries[self.at], &reply);
        self.at = self.at + 1;
    }
}

proof fn asked_place(rows: Seq<Row>, silent: Seq<String>, i: int)
    requires
        0 <= i,
    ensures
        asked_from(rows, silent, i) matches Some(k) ==> i <= k < rows.len() && asked(
            rows[k],
            silent,
        ),
    decreases rows.len() - i,
{
    if i < rows.len() && !asked(rows[i], silent) {
        asked_place(rows, silent, i + 1);
    }
}

/// A connection that has gone silent is asked nothing more in the round, and a
/// round never goes back: each row is asked at most once.
pub proof fn a_silent_connection_is_asked_no_more(rows: Seq<Row>, silent: Seq<String>, i: int)
    requires
        0 <= i,
    ensures
        asked_from(rows, silent, i) matches Some(k) ==> {
            &&& i <= k < rows.len()
            &&& rows[k].plugin matches Some(p) && !listed(silent, p.connection@)
        },
{
    asked_place(rows, silent, i);
}

/// Which readings a room's list needs from elsewhere than a package.
#[derive(Clone, Copy, PartialEq, Eq, Structural, Debug)]
pub struct Needs {
    pub home_assistant: bool,
    pub hue: bool,
    pub matter: bool,
}

/// Whether a row is read from Home Assistant.
pub open spec fn from_home_assistant(row: Row) -> bool {
    !row.hue && !row.matter && row.plugin is None && !begins(row.id, "device:"@)
}

/// What a list of rows is read from.
pub open spec fn needs_of(entries: Seq<Entry>) -> Needs {
    Needs {
        home_assistant: exists|k: int|
            0 <= k < entries.len() && from_home_assistant((#[trigger] entries[k])@),
        hue: exists|k: int| 0 <= k < entries.len() && (#[trigger] entries[k]).hue,
        matter: exists|k: int| 0 <= k < entries.len() && (#[trigger] entries[k]).matter,
    }
}

/// Which readings a room's list needs.
pub fn list_needs(entries: &Vec<Entry>) -> (r: Needs)
    ensures
        r == needs_of(entries@),
        r.home_assistant == exists|k: int|
            0 <= k < entries@.len() && from_home_assistant((#[trigger] entries@[k])@),
        r.hue == exists|k: int| 0 <= k < entries@.len() && (#[trigger] entries@[k]).hue,
        r.matter == exists|k: int| 0 <= k < entries@.len() && (#[trigger] entries@[k]).matter,
{
    let mut needs = Needs { home_assistant: false, hue: false, matter: false };
    let mut i: usize = 0;
    while i < entries.len()
        invariant
            i <= entries.len(),
            needs.home_assistant == exists|k: int|
                0 <= k < i && from_home_assistant((#[trigger] entries@[k])@),
            needs.hue == exists|k: int| 0 <= k < i && (#[trigger] entries@[k]).hue,
            needs.matter == exists|k: int| 0 <= k < i && (#[trigger] entries@[k]).matter,
        decreases entries.len() - i,
    {
        let e = &entries[i];
        if !e.hue && !e.matter && e.plugin.is_none() && !starts_with(e.id.as_str(), "device:") {
            needs.home_assistant = true;
        }
        if e.hue {
            needs.hue = true;
        }
        if e.matter {
            needs.matter = true;
        }
        i = i + 1;
    }
    needs
}

/// The first reading that is filed under a name, at or after a place.
pub open spec fn reading_from(states: Seq<DeviceState>, id: Seq<char>, i: int) -> Option<DeviceState>
    decreases states.len() - i,
{
    if i < 0 || i >= states.len() {
        None
    } else if states[i].spec_id()@ == id {
        Some(states[i])
    } else {
        reading_from(states, id, i + 1)
    }
}

fn reading_in<'a>(states: &'a Vec<DeviceState>, id: &str) -> (r: Option<&'a DeviceState>)
    ensures
        match r {
            Some(s) => reading_from(states@, id@, 0) == Some(*s),
            None => reading_from(states@, id@, 0) is None,
        },
{
    let mut i: usize = 0;
    while i < states.len()
        invariant
            i <= states.len(),
            reading_from(states@, id@, 0) == reading_from(states@, id@, i as int),
        decreases states.len() - i,
    {
        if same(states[i].id().as_str(), id) {
            return Some(&states[i]);
        }
        i = i + 1;
    }
    None
}

/// The name that a row's device has with whatever drives it.
pub open spec fn raw_of(id: Seq<char>) -> Seq<char> {
    if begins(id, "hue:"@) {
        after(id, "hue:"@.len())
    } else if begins(id, "matter:"@) {
        after(id, "matter:"@.len())
    } else {
        id
    }
}

fn raw_id(id: &str) -> (r: &str)
    ensures
        r@ == raw_of(id@),
{
    match strip_prefix(id, "hue:") {
        Some(raw) => raw,
        None => match strip_prefix(id, "matter:") {
            Some(raw) => raw,
            None => id,
        },
    }
}

/// A row with the reading that its source has of it; a packaged row is read on
/// its own.
pub open spec fn row_filled(
    row: Entry,
    home_assistant: Seq<DeviceState>,
    hue: Seq<DeviceState>,
    matter: Seq<DeviceState>,
) -> Row {
    let states = if row.hue {
        hue
    } else if row.matter {
        matter
    } else {
        home_assistant
    };
    if row.plugin is Some {
        row@
    } else {
        Row {
            state: match reading_from(states, raw_of(row.id@), 0) {
                Some(s) => Some(s.filed(row.id)),
                None => None,
            },
            ..row@
        }
    }
}

fn fill_row(
    e: &mut Entry,
    home_assistant: &Vec<DeviceState>,
    hue: &Vec<DeviceState>,
    matter: &Vec<DeviceState>,
)
    ensures
        final(e)@ == row_filled(*old(e), home_assistant@, hue@, matter@),
{
    if e.plugin.is_some() {
        return;
    }
    let states = if e.hue {
        hue
    } else if e.matter {
        matter
    } else {
        home_assistant
    };
    match reading_in(states, raw_id(e.id.as_str())) {
        Some(found) => {
            let mut state = found.copy();
            state.set_id(e.id.clone());
            e.state = Some(state);
        },
        None => {
            e.state = None;
        },
    }
}

/// Give each row the reading that its source has of it, filed under the row.
pub fn fill_states(
    entries: &mut Vec<Entry>,
    home_assistant: &Vec<DeviceState>,
    hue: &Vec<DeviceState>,
    matter: &Vec<DeviceState>,
)
    ensures
        final(entries)@.len() == old(entries)@.len(),
        forall|k: int|
            0 <= k < old(entries)@.len() ==> (#[trigger] final(entries)@[k])@ == row_filled(
                old(entries)@[k],
                home_assistant@,
                hue@,
                matter@,
            ),
{
    let mut i: usize = 0;
    while i < entries.len()
        invariant
            i <= entries@.len(),
            entries@.len() == old(entries)@.len(),
            forall|k: int|
                0 <= k < i ==> (#[trigger] entries@[k])@ == row_filled(
                    old(entries)@[k],
                    home_assistant@,
                    hue@,
                    matter@,
                ),
            forall|k: int| i <= k < entries@.len() ==> #[trigger] entries@[k] == old(entries)@[k],
        decreases entries.len() - i,
    {
        fill_row(&mut entries[i], home_assistant, hue, matter);
        i = i + 1;
    }
}

/// A blind's three buttons.
#[derive(Clone, Copy, PartialEq, Eq, Structural, Debug)]
pub enum CoverButton {
    Open,
    Stop,
    Close,
}

impl CoverButton {
    /// The command's word.
    pub open spec fn spec_name(self) -> Seq<char> {
        match self {
            CoverButton::Open => "open"@,
            CoverButton::Stop => "stop"@,
            CoverButton::Close => "close"@,
        }
    }

    /// The command's word.
    pub fn name(&self) -> (r: &'static str)
        ensures
            r@ == self.spec_name(),
    {
        match self {
            CoverButton::Open => "open",
            CoverButton::Stop => "stop",
            CoverButton::Close => "close",
        }
    }
}

/// What a row is asked to do.
#[derive(Clone, Copy, PartialEq, Eq, Structural, Debug)]
pub enum Adjustment {
    Toggle,
    Brightness(u8),
    Mirek(u16),
    Cover(CoverButton),
}

/// What a package is sent for a row.
#[derive(Clone, Copy, PartialEq, Eq, Structural, Debug)]
pub enum PackageWork {
    /// The child's own toggle, which the package decides the meaning of.
    Toggle,
    Cover(CoverButton),
    Action(TypedAction),
}

/// What a light is sent.
#[derive(Clone, Copy, PartialEq, Eq, Structural, Debug)]
pub enum LightWork {
    Toggle,
    Brightness(u8),
    Mirek(u16),
}

/// How an adjustment of a row is carried out.
#[derive(Debug)]
pub enum RowPlan {
    Fail(Reason),
    /// Write to the row's package, and answer as the package does.
    Package { row: PluginRow, name: String, request: PackageWork },
    Hue { raw: String, work: LightWork },
    Matter { raw: String, work: LightWork },
    /// Send a cover command, then read the cover back.
    HomeAssistantCover { entity: String, command: CoverCommand },
    /// Send a light command, then read the light back; a toggle reads first.
    HomeAssistantLight { entity: String, work: LightWork },
}

/// The first row of that id at or after a place.
pub open spec fn entry_from(entries: Seq<Entry>, id: Seq<char>, i: int) -> Option<Entry>
    decreases entries.len() - i,
{
    if i < 0 || i >= entries.len() {
        None
    } else if entries[i].id@ == id {
        Some(entries[i])
    } else {
        entry_from(entries, id, i + 1)
    }
}

fn entry_in<'a>(entries: &'a Vec<Entry>, id: &str) -> (r: Option<&'a Entry>)
    ensures
        match r {
            Some(e) => entry_from(entries@, id@, 0) == Some(*e),
            None => entry_from(entries@, id@, 0) is None,
        },
{
    let mut i: usize = 0;
    while i < entries.len()
        invariant
            i <= entries.len(),
            entry_from(entries@, id@, 0) == entry_from(entries@, id@, i as int),
        decreases entries.len() - i,
    {
        if same(entries[i].id.as_str(), id) {
            return Some(&entries[i]);
        }
        i = i + 1;
    }
    None
}

/// What a package is sent for an adjustment of a row.
pub open spec fn package_work(row: PluginRow, adjustment: Adjustment) -> PackageWork {
    match adjustment {
        Adjustment::Toggle => PackageWork::Toggle,
        Adjustment::Brightness(percent) => PackageWork::Action(
            if row.cover {
                TypedAction::SetCover { position: percent }
            } else {
                TypedAction::SetLight { brightness: Some(percent), mirek: None }
            },
        ),
        Adjustment::Mirek(mirek) => PackageWork::Action(
            TypedAction::SetLight { brightness: None, mirek: Some(mirek) },
        ),
        Adjustment::Cover(button) => PackageWork::Cover(button),
    }
}

/// What a package is sent for an adjustment of a row.
pub fn package_request(row: &PluginRow, adjustment: Adjustment) -> (r: PackageWork)
    ensures
        r == package_work(*row, adjustment),
{
    match adjustment {
        Adjustment::Toggle => PackageWork::Toggle,
        Adjustment::Brightness(percent) => PackageWork::Action(row.level(percent)),
        Adjustment::Mirek(mirek) => PackageWork::Action(
            TypedAction::SetLight { brightness: None, mirek: Some(mirek) },
        ),
        Adjustment::Cover(button) => PackageWork::Cover(button),
    }
}

/// What a light is sent for an adjustment, where it is one for a light.
pub open spec fn light_work(adjustment: Adjustment) -> Option<LightWork> {
    match adjustment {
        Adjustment::Toggle => Some(LightWork::Toggle),
        Adjustment::Brightness(percent) => Some(LightWork::Brightness(percent)),
        Adjustment::Mirek(mirek) => Some(LightWork::Mirek(mirek)),
        Adjustment::Cover(_) => None,
    }
}

fn light_work_of(adjustment: Adjustment) -> (r: Option<LightWork>)
    ensures
        r == light_work(adjustment),
{
    match adjustment {
        Adjustment::Toggle => Some(LightWork::Toggle),
        Adjustment::Brightness(percent) => Some(LightWork::Brightness(percent)),
        Adjustment::Mirek(mirek) => Some(LightWork::Mirek(mirek)),
        Adjustment::Cover(_) => None,
    }
}

/// What a device with a screen of its own says to an adjustment.
pub open spec fn device_refuses(adjustment: Adjustment) -> Reason {
    match adjustment {
        Adjustment::Toggle => Reason::NoControls,
        Adjustment::Brightness(_) => Reason::NoBrightness,
        Adjustment::Mirek(_) => Reason::NoColour,
        Adjustment::Cover(_) => Reason::NoCover,
    }
}

fn device_refusal(adjustment: Adjustment) -> (r: Reason)
    ensures
        r == device_refuses(adjustment),
{
    match adjustment {
        Adjustment::Toggle => Reason::NoControls,
        Adjustment::Brightness(_) => Reason::NoBrightness,
        Adjustment::Mirek(_) => Reason::NoColour,
        Adjustment::Cover(_) => Reason::NoCover,
    }
}

/// What a cover entity is told: its own button, a toggle, or a position.
pub open spec fn cover_command(id: Seq<char>, adjustment: Adjustment) -> Option<CoverCommand> {
    match adjustment {
        Adjustment::Cover(CoverButton::Open) => Some(CoverCommand::Open),
        Adjustment::Cover(CoverButton::Close) => Some(CoverCommand::Close),
        Adjustment::Cover(CoverButton::Stop) => Some(CoverCommand::Stop),
        Adjustment::Toggle => if domain(id) == "cover"@ {
            Some(CoverCommand::Toggle)
        } else {
            None
        },
        Adjustment::Brightness(percent) => if domain(id) == "cover"@ {
            Some(CoverCommand::Position(percent))
        } else {
            None
        },
        Adjustment::Mirek(_) => None,
    }
}

fn cover_command_of(id: &str, adjustment: Adjustment) -> (r: Option<CoverCommand>)
    ensures
        r == cover_command(id@, adjustment),
{
    match adjustment {
        Adjustment::Cover(CoverButton::Open) => Some(CoverCommand::Open),
        Adjustment::Cover(CoverButton::Close) => Some(CoverCommand::Close),
        Adjustment::Cover(CoverButton::Stop) => Some(CoverCommand::Stop),
        Adjustment::Toggle => if same(ha_domain(id), "cover") {
            Some(CoverCommand::Toggle)
        } else {
            None
        },
        Adjustment::Brightness(percent) => if same(ha_domain(id), "cover") {
            Some(CoverCommand::Position(percent))
        } else {
            None
        },
        Adjustment::Mirek(_) => None,
    }
}

/// Whether a plan carries out an adjustment of a row.
pub open spec fn carries_out(plan: RowPlan, entries: Seq<Entry>, id: String, adjustment: Adjustment) -> bool {
    match entry_from(entries, id@, 0) {
        None => plan == RowPlan::Fail(Reason::RemovedFromRoom),
        Some(e) => match e.plugin {
            Some(row) => plan == (RowPlan::Package {
                row,
                name: e.name,
                request: package_work(row, adjustment),
            }),
            None => if begins(id@, "hue:"@) {
                match light_work(adjustment) {
                    Some(work) => plan matches RowPlan::Hue { raw, work: w } && raw@ == after(
                        id@,
                        "hue:"@.len(),
                    ) && w == work,
                    None => plan == RowPlan::Fail(Reason::NoCover),
                }
            } else if begins(id@, "matter:"@) {
                match adjustment {
                    Adjustment::Mirek(_) => plan == RowPlan::Fail(Reason::NoColour),
                    Adjustment::Cover(_) => plan == RowPlan::Fail(Reason::NoCover),
                    _ => plan matches RowPlan::Matter { raw, work } && raw@ == after(
                        id@,
                        "matter:"@.len(),
                    ) && Some(work) == light_work(adjustment),
                }
            } else if begins(id@, "device:"@) {
                plan == RowPlan::Fail(device_refuses(adjustment))
            } else {
                match cover_command(id@, adjustment) {
                    Some(command) => plan == (RowPlan::HomeAssistantCover { entity: id, command }),
                    None => plan == (RowPlan::HomeAssistantLight {
                        entity: id,
                        work: light_work(adjustment)->0,
                    }),
                }
            },
        },
    }
}

/// How an adjustment of a row is carried out.
pub fn perform(entries: &Vec<Entry>, id: &String, adjustment: Adjustment) -> (r: RowPlan)
    ensures
        carries_out(r, entries@, *id, adjustment),
{
    let e = match entry_in(entries, id.as_str()) {
        Some(e) => e,
        None => return RowPlan::Fail(Reason::RemovedFromRoom),
    };
    match &e.plugin {
        Some(row) => {
            return RowPlan::Package {
                row: row.copy(),
                name: e.name.clone(),
                request: package_request(row, adjustment),
            };
        },
        None => {},
    }
    match strip_prefix(id.as_str(), "hue:") {
        Some(raw) => {
            return match light_work_of(adjustment) {
                Some(work) => RowPlan::Hue { raw: raw.to_owned(), work },
                None => RowPlan::Fail(Reason::NoCover),
            };
        },
        None => {},
    }
    match strip_prefix(id.as_str(), "matter:") {
        Some(raw) => {
            return match adjustment {
                Adjustment::Toggle => RowPlan::Matter {
                    raw: raw.to_owned(),
                    work: LightWork::Toggle,
                },
                Adjustment::Brightness(percent) => RowPlan::Matter {
                    raw: raw.to_owned(),
                    work: LightWork::Brightness(percent),
                },
                Adjustment::Mirek(_) => RowPlan::Fail(Reason::NoColour),
                Adjustment::Cover(_) => RowPlan::Fail(Reason::NoCover),
            };
        },
        None => {},
    }
    if starts_with(id.as_str(), "device:") {
        return RowPlan::Fail(device_refusal(adjustment));
    }
    match cover_command_of(id.as_str(), adjustment) {
        Some(command) => RowPlan::HomeAssistantCover { entity: id.clone(), command },
        None => match light_work_of(adjustment) {
            Some(work) => RowPlan::HomeAssistantLight { entity: id.clone(), work },
            None => RowPlan::Fail(Reason::NoCover),
        },
    }
}

/// What is asked of Home Assistant for a light.
#[derive(Debug)]
pub enum LightStep {
    Read { stage: LightStage },
    Power { on: bool },
    Brightness { percent: u8 },
    Mirek { mirek: u16 },
    Done(Result<DeviceState, Reason>),
    /// The event answers nothing that was asked.
    Ignore,
}

/// What has been asked and not been answered.
#[derive(Clone, Copy, PartialEq, Eq, Structural, Debug)]
pub enum LightStage {
    Start,
    /// The light is read to see which way it is switched.
    Asking,
    Sending,
    /// The light is read for the row.
    Reading,
}

/// How what was asked went.
#[derive(Debug)]
pub enum LightEvent {
    Begin,
    Read(Light),
    Sent,
    Failed(String),
}

/// What follows an event of a light command. A toggle reads the light first and
/// sends it the opposite of what it says it is.
pub open spec fn light_next(
    entity: String,
    work: LightWork,
    stage: LightStage,
    event: LightEvent,
) -> LightStep {
    match (stage, event) {
        (LightStage::Start, LightEvent::Begin) => match work {
            LightWork::Toggle => LightStep::Read { stage: LightStage::Asking },
            LightWork::Brightness(percent) => LightStep::Brightness { percent },
            LightWork::Mirek(mirek) => LightStep::Mirek { mirek },
        },
        (LightStage::Asking, LightEvent::Read(light)) => match light.on {
            Some(on) => LightStep::Power { on: !on },
            None => LightStep::Done(Err(Reason::LightUnavailable)),
        },
        (LightStage::Sending, LightEvent::Sent) => LightStep::Read { stage: LightStage::Reading },
        (LightStage::Reading, LightEvent::Read(light)) => LightStep::Done(
            Ok(DeviceState::Light(light).filed(entity)),
        ),
        (_, LightEvent::Failed(why)) => LightStep::Done(Err(Reason::Said(why))),
        _ => LightStep::Ignore,
    }
}

/// Take a light command one event further.
pub fn home_assistant_light(
    entity: &String,
    work: LightWork,
    stage: LightStage,
    event: LightEvent,
) -> (r: LightStep)
    ensures
        r == light_next(*entity, work, stage, event),
{
    match event {
        LightEvent::Failed(why) => LightStep::Done(Err(Reason::Said(why))),
        LightEvent::Begin => match stage {
            LightStage::Start => match work {
                LightWork::Toggle => LightStep::Read { stage: LightStage::Asking },
                LightWork::Brightness(percent) => LightStep::Brightness { percent },
                LightWork::Mirek(mirek) => LightStep::Mirek { mirek },
            },
            _ => LightStep::Ignore,
        },
        LightEvent::Read(light) => match stage {
            LightStage::Asking => match light.on {
                Some(on) => LightStep::Power { on: !on },
                None => LightStep::Done(Err(Reason::LightUnavailable)),
            },
            LightStage::Reading => {
                let mut state = DeviceState::Light(light);
                state.set_id(entity.clone());
                LightStep::Done(Ok(state))
            },
            _ => LightStep::Ignore,
        },
        LightEvent::Sent => match stage {
            LightStage::Sending => LightStep::Read { stage: LightStage::Reading },
            _ => LightStep::Ignore,
        },
    }
}

/// Whether a key on a row may be tried by infrared first: the device is still in
/// the room, and the catalogue knows the command.
pub fn ir_check(config: &Config, room: &str, device: &str, known: bool) -> (r: Result<(), Reason>)
    ensures
        r == if !(config.spec_room(room@) matches Some(found) && crate::model::device_from(
            found.devices@,
            device@,
            0,
        ) is Some) {
            Err(Reason::GoneFromRoom)
        } else if !known {
            Err(Reason::UnsupportedIr)
        } else {
            Ok(())
        },
{
    let present = match config.room(room) {
        Some(found) => crate::model::device_of(&found.devices, device).is_some(),
        None => false,
    };
    if !present {
        Err(Reason::GoneFromRoom)
    } else if !known {
        Err(Reason::UnsupportedIr)
    } else {
        Ok(())
    }
}

/// A row is found by its id, where there is one with it: the first.
pub proof fn a_row_is_found_by_its_id(entries: Seq<Entry>, id: Seq<char>, i: int)
    requires
        0 <= i,
    ensures
        match entry_from(entries, id, i) {
            Some(e) => e.id@ == id && exists|k: int|
                i <= k < entries.len() && #[trigger] entries[k] == e,
            None => forall|k: int| i <= k < entries.len() ==> (#[trigger] entries[k]).id@ != id,
        },
    decreases entries.len() - i,
{
    if i < entries.len() && entries[i].id@ != id {
        a_row_is_found_by_its_id(entries, id, i + 1);
    }
}

/// What is asked of a row that is not in the room any more fails, and only that
/// does so with those words.
pub proof fn a_row_that_is_gone_is_asked_nothing(
    plan: RowPlan,
    entries: Seq<Entry>,
    id: String,
    adjustment: Adjustment,
)
    requires
        carries_out(plan, entries, id, adjustment),
    ensures
        (forall|k: int| 0 <= k < entries.len() ==> (#[trigger] entries[k]).id@ != id@)
            <==> plan == RowPlan::Fail(Reason::RemovedFromRoom),
{
    a_row_is_found_by_its_id(entries, id@, 0);
}

/// Whether an id is that of a row of Home Assistant.
pub open spec fn of_home_assistant(id: Seq<char>) -> bool {
    !begins(id, "hue:"@) && !begins(id, "matter:"@) && !begins(id, "device:"@)
}

/// A button of a Home Assistant blind sends the command of its own name to the
/// entity of the row.
pub proof fn a_blinds_button_sends_its_own_command(
    plan: RowPlan,
    entries: Seq<Entry>,
    id: String,
    button: CoverButton,
)
    requires
        carries_out(plan, entries, id, Adjustment::Cover(button)),
        exists|k: int| 0 <= k < entries.len() && (#[trigger] entries[k]).id@ == id@,
        forall|k: int|
            0 <= k < entries.len() && (#[trigger] entries[k]).id@ == id@ ==> entries[k].plugin is None,
        of_home_assistant(id@),
    ensures
        match button {
            CoverButton::Open => plan == (RowPlan::HomeAssistantCover {
                entity: id,
                command: CoverCommand::Open,
            }),
            CoverButton::Close => plan == (RowPlan::HomeAssistantCover {
                entity: id,
                command: CoverCommand::Close,
            }),
            CoverButton::Stop => plan == (RowPlan::HomeAssistantCover {
                entity: id,
                command: CoverCommand::Stop,
            }),
        },
{
    a_row_is_found_by_its_id(entries, id@, 0);
}

/// A Home Assistant row's toggle and level go to its entity as they were asked:
/// to a blind as a toggle and a position, to anything else as a lamp's. A colour
/// is a lamp's.
pub proof fn a_home_assistant_row_is_sent_what_was_asked(
    plan: RowPlan,
    entries: Seq<Entry>,
    id: String,
    adjustment: Adjustment,
)
    requires
        carries_out(plan, entries, id, adjustment),
        exists|k: int| 0 <= k < entries.len() && (#[trigger] entries[k]).id@ == id@,
        forall|k: int|
            0 <= k < entries.len() && (#[trigger] entries[k]).id@ == id@ ==> entries[k].plugin is None,
        of_home_assistant(id@),
    ensures
        match adjustment {
            Adjustment::Toggle => if domain(id@) == "cover"@ {
                plan == (RowPlan::HomeAssistantCover { entity: id, command: CoverCommand::Toggle })
            } else {
                plan == (RowPlan::HomeAssistantLight { entity: id, work: LightWork::Toggle })
            },
            Adjustment::Brightness(percent) => if domain(id@) == "cover"@ {
                plan == (RowPlan::HomeAssistantCover {
                    entity: id,
                    command: CoverCommand::Position(percent),
                })
            } else {
                plan == (RowPlan::HomeAssistantLight {
                    entity: id,
                    work: LightWork::Brightness(percent),
                })
            },
            Adjustment::Mirek(mirek) => plan == (RowPlan::HomeAssistantLight {
                entity: id,
                work: LightWork::Mirek(mirek),
            }),
            Adjustment::Cover(_) => plan is HomeAssistantCover,
        },
{
    a_row_is_found_by_its_id(entries, id@, 0);
}

/// A Hue or Matter row is sent what was asked, under its own name without the
/// prefix; neither opens and closes, and Matter has no colour temperature. A row
/// without controls refuses each in its own words.
pub proof fn a_bridges_row_is_sent_what_was_asked(
    plan: RowPlan,
    entries: Seq<Entry>,
    id: String,
    raw: Seq<char>,
    adjustment: Adjustment,
)
    requires
        carries_out(plan, entries, id, adjustment),
        exists|k: int| 0 <= k < entries.len() && (#[trigger] entries[k]).id@ == id@,
        forall|k: int|
            0 <= k < entries.len() && (#[trigger] entries[k]).id@ == id@ ==> entries[k].plugin is None,
    ensures
        id@ == "hue:"@ + raw ==> match adjustment {
            Adjustment::Toggle => plan matches RowPlan::Hue { raw: r, work } && r@ == raw && work
                == LightWork::Toggle,
            Adjustment::Brightness(percent) => plan matches RowPlan::Hue { raw: r, work } && r@
                == raw && work == LightWork::Brightness(percent),
            Adjustment::Mirek(mirek) => plan matches RowPlan::Hue { raw: r, work } && r@ == raw
                && work == LightWork::Mirek(mirek),
            Adjustment::Cover(_) => plan == RowPlan::Fail(Reason::NoCover),
        },
        id@ == "matter:"@ + raw ==> match adjustment {
            Adjustment::Toggle => plan matches RowPlan::Matter { raw: r, work } && r@ == raw && work
                == LightWork::Toggle,
            Adjustment::Brightness(percent) => plan matches RowPlan::Matter { raw: r, work } && r@
                == raw && work == LightWork::Brightness(percent),
            Adjustment::Mirek(_) => plan == RowPlan::Fail(Reason::NoColour),
            Adjustment::Cover(_) => plan == RowPlan::Fail(Reason::NoCover),
        },
        id@ == "device:"@ + raw ==> match adjustment {
            Adjustment::Toggle => plan == RowPlan::Fail(Reason::NoControls),
            Adjustment::Brightness(_) => plan == RowPlan::Fail(Reason::NoBrightness),
            Adjustment::Mirek(_) => plan == RowPlan::Fail(Reason::NoColour),
            Adjustment::Cover(_) => plan == RowPlan::Fail(Reason::NoCover),
        },
{
    a_row_is_found_by_its_id(entries, id@, 0);
    reveal_strlit("hue:");
    reveal_strlit("matter:");
    reveal_strlit("device:");
    if id@ == "hue:"@ + raw {
        assert(id@.subrange(0, 4) =~= "hue:"@);
        assert(id@.subrange(4, id@.len() as int) =~= raw);
    }
    if id@ == "matter:"@ + raw {
        assert(id@[0] == 'm');
        assert(id@.subrange(0, 7) =~= "matter:"@);
        assert(id@.subrange(7, id@.len() as int) =~= raw);
    }
    if id@ == "device:"@ + raw {
        assert(id@[0] == 'd');
        assert(id@.subrange(0, 7) =~= "device:"@);
    }
}

/// A packaged row is asked in its package's own terms: the toggle as such, a
/// blind's button as that button, a level as a blind's position or a lamp's
/// brightness, and a colour without a brightness.
pub proof fn a_package_is_asked_in_its_own_terms(
    plan: RowPlan,
    entries: Seq<Entry>,
    id: String,
    adjustment: Adjustment,
)
    requires
        carries_out(plan, entries, id, adjustment),
        exists|k: int| 0 <= k < entries.len() && (#[trigger] entries[k]).id@ == id@,
        forall|k: int|
            0 <= k < entries.len() && (#[trigger] entries[k]).id@ == id@ ==> entries[k].plugin is Some,
    ensures
        plan matches RowPlan::Package { row, name, request } && {
            &&& exists|k: int|
                0 <= k < entries.len() && (#[trigger] entries[k]).id@ == id@ && entries[k].plugin
                    == Some(row) && entries[k].name == name
            &&& match adjustment {
                Adjustment::Toggle => request == PackageWork::Toggle,
                Adjustment::Cover(button) => request == PackageWork::Cover(button),
                Adjustment::Mirek(mirek) => request == PackageWork::Action(
                    TypedAction::SetLight { brightness: None, mirek: Some(mirek) },
                ),
                Adjustment::Brightness(percent) => if row.cover {
                    request == PackageWork::Action(TypedAction::SetCover { position: percent })
                } else {
                    request == PackageWork::Action(
                        TypedAction::SetLight { brightness: Some(percent), mirek: None },
                    )
                },
            }
        },
{
    a_row_is_found_by_its_id(entries, id@, 0);
}

/// A Home Assistant lamp is read before it is turned over, and told the opposite
/// of what it said; a level or a colour is sent as it is; and what it then says is
/// filed under the row's own name.
pub proof fn a_lamp_is_turned_over_from_what_it_says(
    entity: String,
    work: LightWork,
    light: Light,
    why: String,
)
    ensures
        ({
            let first = light_next(entity, work, LightStage::Start, LightEvent::Begin);
            match work {
                LightWork::Toggle => first matches LightStep::Read { stage } && stage
                    == LightStage::Asking,
                LightWork::Brightness(p) => first matches LightStep::Brightness { percent }
                    && percent == p,
                LightWork::Mirek(m) => first matches LightStep::Mirek { mirek } && mirek == m,
            }
        }),
        ({
            let told = light_next(entity, work, LightStage::Asking, LightEvent::Read(light));
            match light.on {
                Some(was) => told matches LightStep::Power { on } && on != was,
                None => told == LightStep::Done(Err(Reason::LightUnavailable)),
            }
        }),
        light_next(entity, work, LightStage::Sending, LightEvent::Sent) matches LightStep::Read {
            stage,
        } && stage == LightStage::Reading,
        light_next(entity, work, LightStage::Reading, LightEvent::Read(light)) matches LightStep::Done(
            Ok(state),
        ) && state.spec_id() == entity && state.spec_active() == light.on
            && state.spec_description() == DeviceState::Light(light).spec_description(),
        forall|stage: LightStage| #[trigger]
            light_next(entity, work, stage, LightEvent::Failed(why)) == LightStep::Done(
                Err(Reason::Said(why)),
            ),
{
}

/// The first reading under an id, where there is one.
pub proof fn a_reading_is_found_by_its_id(states: Seq<DeviceState>, id: Seq<char>, i: int)
    requires
        0 <= i,
    ensures
        match reading_from(states, id, i) {
            Some(s) => s.spec_id()@ == id && exists|k: int|
                i <= k < states.len() && #[trigger] states[k] == s,
            None => forall|k: int|
                i <= k < states.len() ==> (#[trigger] states[k]).spec_id()@ != id,
        },
    decreases states.len() - i,
{
    if i < states.len() && states[i].spec_id()@ != id {
        a_reading_is_found_by_its_id(states, id, i + 1);
    }
}

/// A row shows a reading of its own provider alone, filed under the row's id, and
/// the one of its own name; a packaged row is left as it is. Nothing else of a row
/// changes.
pub proof fn a_row_shows_its_own_providers_reading(
    row: Entry,
    home_assistant: Seq<DeviceState>,
    hue: Seq<DeviceState>,
    matter: Seq<DeviceState>,
    own: Seq<DeviceState>,
)
    requires
        row.hue ==> own == hue,
        !row.hue && row.matter ==> own == matter,
        !row.hue && !row.matter ==> own == home_assistant,
    ensures
        ({
            let after = row_filled(row, home_assistant, hue, matter);
            &&& after == (Row { state: after.state, ..row@ })
            &&& row.plugin is Some ==> after.state == row.state
            &&& row.plugin is None ==> match after.state {
                Some(state) => state.spec_id() == row.id && exists|k: int|
                    0 <= k < own.len() && (#[trigger] own[k]).spec_id()@ == raw_of(row.id@)
                        && state == own[k].filed(row.id),
                None => forall|k: int|
                    0 <= k < own.len() ==> (#[trigger] own[k]).spec_id()@ != raw_of(row.id@),
            }
        }),
{
    a_reading_is_found_by_its_id(own, raw_of(row.id@), 0);
}

/// A row's name at its bridge is its id without the bridge's prefix.
pub proof fn a_bridges_name_comes_without_its_prefix(raw: Seq<char>)
    ensures
        raw_of("hue:"@ + raw) == raw,
        raw_of("matter:"@ + raw) == raw,
{
    reveal_strlit("hue:");
    reveal_strlit("matter:");
    let hue = "hue:"@ + raw;
    assert(hue.subrange(0, 4) =~= "hue:"@);
    assert(hue.subrange(4, hue.len() as int) =~= raw);
    let matter = "matter:"@ + raw;
    assert(matter[0] == 'm');
    assert(matter.subrange(0, 7) =~= "matter:"@);
    assert(matter.subrange(7, matter.len() as int) =~= raw);
}

/// A read that failed marks a row as unpaired just where the package said so, and
/// silences its connection for the round just where it did not answer.
pub proof fn only_no_answer_silences_a_connection(
    before: Row,
    after: Row,
    failure: PluginFailure,
)
    requires
        before.plugin is Some,
        row_read(before, after, Reply::Failed(failure)),
    ensures
        after.unpaired <==> failure.code is Unpaired,
        after.state == before.state && after.id == before.id && after.name == before.name,
        goes_silent(Reply::Failed(failure)) <==> failure.code is Transport || failure.code is Timeout,
        !goes_silent(Reply::Taken) && !goes_silent(Reply::Other),
{
}

/// What a package says of a row after a write is that row's state, under the
/// row's own id; a package that leaves the row out has not reported it.
pub proof fn a_written_row_is_filed_under_its_own_id(
    row: PluginRow,
    name: Seq<char>,
    status: PluginStatus,
    step: WriteStep,
)
    requires
        answered(row, name, status, step),
    ensures
        row.cover && status.cover is None || !row.cover && status.light is None ==> step
            == WriteStep::Done(Err(Reason::NotReported)),
        row.cover ==> (status.cover matches Some(said) ==> {
            &&& step matches WriteStep::Done(Ok(Answer::State(DeviceState::Cover(c))))
            &&& c.entity_id@ == row.spec_id()
            &&& c.position_percent == said.position
            &&& c.name@ == name
        }),
        !row.cover ==> (status.light matches Some(said) ==> {
            &&& step matches WriteStep::Done(Ok(Answer::State(DeviceState::Light(l))))
            &&& l.entity_id@ == row.spec_id()
            &&& l.on == said.on
            &&& l.brightness_percent == said.brightness
            &&& l.name@ == name
        }),
{
}

/// The words of a blind's buttons.
pub proof fn a_button_has_its_own_word()
    ensures
        CoverButton::Open.spec_name() == "open"@,
        CoverButton::Stop.spec_name() == "stop"@,
        CoverButton::Close.spec_name() == "close"@,
{
}

/// A package that is busy loses nothing and is no failure; any other refusal is
/// said.
pub proof fn a_busy_package_is_no_failure(failure: PluginFailure, step: WriteStep)
    requires
        refused(failure, step),
    ensures
        failure.code is Busy <==> step == WriteStep::Done(Ok(Answer::Busy)),
        !(failure.code is Busy) ==> step == WriteStep::Done(Err(Reason::Refused(failure))),
{
}

/// A status read waits for a second and a half.
pub proof fn a_status_read_is_short()
    ensures
        STATUS_TIMEOUT_MS == 1500,
{
}

/// Nothing is read for an empty list, and one row more asks for what that row is
/// read from and for nothing else.
pub proof fn a_row_is_read_from_its_own_provider(entries: Seq<Entry>, row: Entry)
    ensures
        needs_of(Seq::empty()) == (Needs { home_assistant: false, hue: false, matter: false }),
        needs_of(entries.push(row)).hue == (needs_of(entries).hue || row.hue),
        needs_of(entries.push(row)).matter == (needs_of(entries).matter || row.matter),
        needs_of(entries.push(row)).home_assistant == (needs_of(entries).home_assistant || !(row.hue
            || row.matter || row.plugin is Some || begins(row.id@, "device:"@))),
{
    let all = entries.push(row);
    assert(all[entries.len() as int] == row);
    assert(forall|k: int| 0 <= k < entries.len() ==> #[trigger] all[k] == entries[k]);
    if needs_of(entries).hue {
        let k = choose|k: int| 0 <= k < entries.len() && (#[trigger] entries[k]).hue;
        assert(all[k].hue);
    }
    if needs_of(entries).matter {
        let k = choose|k: int| 0 <= k < entries.len() && (#[trigger] entries[k]).matter;
        assert(all[k].matter);
    }
    if needs_of(entries).home_assistant {
        let k = choose|k: int|
            0 <= k < entries.len() && from_home_assistant((#[trigger] entries[k])@);
        assert(from_home_assistant(all[k]@));
    }
    if needs_of(all).hue {
        let k = choose|k: int| 0 <= k < all.len() && (#[trigger] all[k]).hue;
        assert(k < entries.len() ==> entries[k].hue);
    }
    if needs_of(all).matter {
        let k = choose|k: int| 0 <= k < all.len() && (#[trigger] all[k]).matter;
        assert(k < entries.len() ==> entries[k].matter);
    }
    if needs_of(all).home_assistant {
        let k = choose|k: int| 0 <= k < all.len() && from_home_assistant((#[trigger] all[k])@);
        assert(k < entries.len() ==> from_home_assistant(entries[k]@));
    }
}

} // verus!
