//! How a command reaches a device: down its transports in order, or by the
//! ways that a power key and a held volume key have of their own.
use crate::activity_buttons::POWER_TOGGLE;
use crate::commands::{Command, Failure, Notice, Outcome, PluginFailure, PowerValue, Reason};
use crate::connections::{is_listed, listed};
use crate::lanes::{set_volume_command, SET_VOLUME_DB};
use crate::model::{Device, Integration, Transport};
use crate::text::{after, begins, parse, parsed, same, strip_prefix};
use vstd::prelude::*;

verus! {

/// What is done with an action.
#[derive(Debug)]
pub enum Plan {
    /// The press has gone stale: nothing is sent and nothing is wrong.
    Nothing,
    Fail(Reason),
    /// Write the level, in tenths of a decibel, to the device's package.
    SetVolume { tenths: i16 },
    PowerToggle,
    /// Walk down the device's transports.
    Walk,
}

/// The level that a held volume key's write names.
pub open spec fn written_level(command: Seq<char>) -> Option<i16> {
    match parsed(after(command, SET_VOLUME_DB@.len())) {
        Some(n) => if i16::MIN <= n <= i16::MAX {
            Some(n as i16)
        } else {
            None
        },
        None => None,
    }
}

/// What is done with an action: `known` says whether the catalogue of commands
/// has its command.
pub open spec fn plan_for(current: bool, device: Option<Device>, command: Seq<char>, known: bool) -> Plan {
    if !current {
        Plan::Nothing
    } else {
        match device {
            None => Plan::Fail(Reason::DeviceRemoved),
            Some(d) => if begins(command, SET_VOLUME_DB@) {
                match written_level(command) {
                    Some(tenths) => if d.network matches Some(i) && i is Plugin {
                        Plan::SetVolume { tenths }
                    } else {
                        Plan::Fail(Reason::Unsupported)
                    },
                    None => Plan::Fail(Reason::Unsupported),
                }
            } else if command == POWER_TOGGLE@ {
                Plan::PowerToggle
            } else if known {
                Plan::Walk
            } else {
                Plan::Fail(Reason::Unsupported)
            },
        }
    }
}

/// What is done with an action: `known` says whether the catalogue of commands
/// has its command.
pub fn execute_with_input(current: bool, device: Option<&Device>, command: &str, known: bool) -> (r:
    Plan)
    ensures
        r == plan_for(
            current,
            match device {
                Some(d) => Some(*d),
                None => None,
            },
            command@,
            known,
        ),
{
    if !current {
        return Plan::Nothing;
    }
    let d = match device {
        Some(d) => d,
        None => return Plan::Fail(Reason::DeviceRemoved),
    };
    match strip_prefix(command, SET_VOLUME_DB) {
        Some(rest) => match parse(rest, 32768) {
            Some(n) => if n <= 32767 {
                match &d.network {
                    Some(Integration::Plugin { .. }) => Plan::SetVolume { tenths: n as i16 },
                    _ => Plan::Fail(Reason::Unsupported),
                }
            } else {
                Plan::Fail(Reason::Unsupported)
            },
            None => Plan::Fail(Reason::Unsupported),
        },
        None => if same(command, POWER_TOGGLE) {
            Plan::PowerToggle
        } else if known {
            Plan::Walk
        } else {
            Plan::Fail(Reason::Unsupported)
        },
    }
}

/// The level that a held key's lane asked for is the level that is written.
pub proof fn a_held_keys_level_is_written_as_asked(device: Device, tenths: i16, known: bool)
    requires
        device.network matches Some(i) && i is Plugin,
    ensures
        plan_for(true, Some(device), set_volume_command(tenths as int), known) == (
        Plan::SetVolume { tenths }),
{
    let command = set_volume_command(tenths as int);
    crate::text::integer_reads_back(tenths as int);
    assert(command.subrange(0, SET_VOLUME_DB@.len() as int) =~= SET_VOLUME_DB@);
    assert(after(command, SET_VOLUME_DB@.len()) =~= crate::text::signed_decimal(tenths as int));
}

/// What a package answers to a typed action.
#[derive(Debug)]
pub enum ActionReply {
    Taken,
    Other,
    Failed(PluginFailure),
}

/// What the write of a held key's level comes to: the level is read once the
/// lane is quiet.
pub fn level_written(reply: ActionReply) -> (r: Result<Outcome, Reason>)
    ensures
        r == match reply {
            ActionReply::Taken => Ok(Outcome::owed()),
            ActionReply::Other => Err(Reason::InvalidResponse),
            ActionReply::Failed(failure) => Err(Reason::Refused(failure)),
        },
        r matches Ok(outcome) ==> reply is Taken && outcome.settle && outcome.volume is None,
        reply is Taken ==> r is Ok,
{
    match reply {
        ActionReply::Taken => Ok(
            Outcome { volume: None, notice: None, settle: true, observed_db: None },
        ),
        ActionReply::Other => Err(Reason::InvalidResponse),
        ActionReply::Failed(failure) => Err(Reason::Refused(failure)),
    }
}

/// A transport of a device, and whether it carries the command.
#[derive(Clone, Copy, PartialEq, Eq, Structural, Debug)]
pub struct Offer {
    pub transport: Transport,
    pub supported: bool,
}

/// The place of the first transport that carries the command, at or after one.
pub open spec fn offer_from(order: Seq<Offer>, i: int) -> Option<int>
    decreases order.len() - i,
{
    if i < 0 || i >= order.len() {
        None
    } else if order[i].supported {
        Some(i)
    } else {
        offer_from(order, i + 1)
    }
}

fn offer_at(order: &Vec<Offer>, from: usize) -> (r: Option<usize>)
    ensures
        match r {
            Some(k) => offer_from(order@, from as int) == Some(k as int) && from <= k
                < order@.len() && order@[k as int].supported,
            None => offer_from(order@, from as int) is None,
        },
{
    let mut i: usize = from;
    while i < order.len()
        invariant
            from <= i,
            offer_from(order@, from as int) == offer_from(order@, i as int),
        decreases order.len() - i,
    {
        if order[i].supported {
            return Some(i);
        }
        i = i + 1;
    }
    None
}

/// A command on its way down a device's transports.
#[derive(Debug)]
pub struct Walk {
    pub order: Vec<Offer>,
    /// The place of the transport that has the command now.
    pub at: usize,
}

/// What follows a transport's answer.
#[derive(Debug)]
pub enum WalkStep {
    /// The next transport gets the command.
    Try(Walk),
    Done(Result<Outcome, Reason>),
}

impl Walk {
    /// The walk stands at a transport that carries the command.
    pub open spec fn wf(self) -> bool {
        self.at < self.order@.len() && self.order@[self.at as int].supported
    }

    /// Begin at the first transport that carries the command.
    pub fn begin(order: Vec<Offer>) -> (r: Result<Walk, Reason>)
        ensures
            match offer_from(order@, 0) {
                Some(k) => r == Ok::<Walk, Reason>(Walk { order, at: k as usize }) && r->Ok_0.wf(),
                None => r == Err::<Walk, Reason>(
                    if order@.len() == 0 {
                        Reason::ConnectionRemoved
                    } else {
                        Reason::Unsupported
                    },
                ),
            },
    {
        if order.len() == 0 {
            return Err(Reason::ConnectionRemoved);
        }
        match offer_at(&order, 0) {
            Some(k) => Ok(Walk { order, at: k }),
            None => Err(Reason::Unsupported),
        }
    }

    /// The transport that has the command now.
    pub fn transport(&self) -> (r: Transport)
        requires
            self.wf(),
        ensures
            r == self.order@[self.at as int].transport,
    {
        self.order[self.at].transport
    }

    /// What follows an answer. Only a transport that could not try hands the
    /// command on, and only while the press is not stale.
    pub open spec fn answered(self, result: Result<Outcome, Failure>, current: bool) -> WalkStep {
        match result {
            Ok(outcome) => WalkStep::Done(Ok(outcome)),
            Err(Failure::Command(reason)) => WalkStep::Done(Err(reason)),
            Err(Failure::Unavailable(reason)) => if !current {
                WalkStep::Done(Ok(Outcome::nothing()))
            } else {
                match offer_from(self.order@, self.at + 1) {
                    Some(k) => WalkStep::Try(Walk { order: self.order, at: k as usize }),
                    None => WalkStep::Done(Err(reason)),
                }
            },
        }
    }

    /// What follows an answer.
    pub fn answer(self, result: Result<Outcome, Failure>, current: bool) -> (r: WalkStep)
        requires
            self.wf(),
        ensures
            r == self.answered(result, current),
            r matches WalkStep::Try(walk) ==> walk.wf() && walk.at > self.at,
    {
        match result {
            Ok(outcome) => WalkStep::Done(Ok(outcome)),
            Err(Failure::Command(reason)) => WalkStep::Done(Err(reason)),
            Err(Failure::Unavailable(reason)) => if !current {
                WalkStep::Done(Ok(Outcome::default()))
            } else {
                let count: usize = self.order.len();
                assert(self.at < count);
                match offer_at(&self.order, self.at + 1) {
                    Some(k) => WalkStep::Try(Walk { order: self.order, at: k }),
                    None => WalkStep::Done(Err(reason)),
                }
            },
        }
    }
}

/// What a whole walk comes to, where each transport answers as given and the
/// press does not go stale.
pub open spec fn walked(walk: Walk, answers: Seq<Result<Outcome, Failure>>) -> Result<Outcome, Reason>
    decreases walk.order@.len() - walk.at,
{
    if walk.at >= walk.order@.len() {
        Err(Reason::Unsupported)
    } else {
        match walk.answered(answers[walk.at as int], true) {
            WalkStep::Done(result) => result,
            WalkStep::Try(next) => if walk.at < next.at < walk.order@.len() && next.order
                == walk.order {
                walked(next, answers)
            } else {
                Err(Reason::Unsupported)
            },
        }
    }
}

proof fn offers_are_supported(order: Seq<Offer>, i: int)
    requires
        0 <= i,
    ensures
        match offer_from(order, i) {
            Some(k) => i <= k < order.len() && order[k].supported && forall|j: int|
                i <= j < k ==> !(#[trigger] order[j]).supported,
            None => forall|j: int| i <= j < order.len() ==> !(#[trigger] order[j]).supported,
        },
    decreases order.len() - i,
{
    if i < order.len() && !order[i].supported {
        offers_are_supported(order, i + 1);
    }
}

/// The first transport, in the device's order, that takes the command or fails
/// at it decides the press; those before it could not try, and none after it is
/// asked.
pub proof fn the_first_transport_that_tries_decides(
    walk: Walk,
    answers: Seq<Result<Outcome, Failure>>,
    k: int,
)
    requires
        walk.wf(),
        walk.order@.len() <= usize::MAX,
        walk.at <= k < walk.order@.len(),
        walk.order@[k].supported,
        !(answers[k] matches Err(Failure::Unavailable(_))),
        forall|j: int|
            walk.at <= j < k && walk.order@[j].supported ==> (#[trigger] answers[j]) matches Err(
                Failure::Unavailable(_),
            ),
    ensures
        walked(walk, answers) == match answers[k] {
            Ok(outcome) => Ok::<Outcome, Reason>(outcome),
            Err(Failure::Command(reason)) => Err::<Outcome, Reason>(reason),
            Err(Failure::Unavailable(reason)) => Err::<Outcome, Reason>(reason),
        },
    decreases walk.order@.len() - walk.at,
{
    if walk.at < k {
        offers_are_supported(walk.order@, walk.at + 1);
        let next = offer_from(walk.order@, walk.at + 1)->0;
        the_first_transport_that_tries_decides(
            Walk { order: walk.order, at: next as usize },
            answers,
            k,
        );
    }
}

/// Where no transport could try, the last one that was asked says why.
pub proof fn the_last_transport_says_why(
    walk: Walk,
    answers: Seq<Result<Outcome, Failure>>,
    k: int,
    why: Reason,
)
    requires
        walk.wf(),
        walk.order@.len() <= usize::MAX,
        walk.at <= k < walk.order@.len(),
        walk.order@[k].supported,
        forall|j: int| k < j < walk.order@.len() ==> !(#[trigger] walk.order@[j]).supported,
        answers[k] == Err::<Outcome, Failure>(Failure::Unavailable(why)),
        forall|j: int|
            walk.at <= j < k && walk.order@[j].supported ==> (#[trigger] answers[j]) matches Err(
                Failure::Unavailable(_),
            ),
    ensures
        walked(walk, answers) == Err::<Outcome, Reason>(why),
    decreases walk.order@.len() - walk.at,
{
    offers_are_supported(walk.order@, walk.at + 1);
    if walk.at < k {
        let next = offer_from(walk.order@, walk.at + 1)->0;
        the_last_transport_says_why(Walk { order: walk.order, at: next as usize }, answers, k, why);
    }
}

/// What is asked of the caller for a power key.
#[derive(Debug)]
pub enum PowerStep {
    /// Ask the device's package for its status.
    AskPackage,
    /// Ask the client that is kept for the device's connection, if one is.
    AskKept,
    /// Send the command as any other.
    Send { word: PowerWord, stage: PowerStage },
    Finish(Result<Outcome, Reason>),
    /// The event answers nothing that was asked.
    Ignore,
}

/// The commands that a power key can become.
#[derive(Clone, Copy, PartialEq, Eq, Structural, Debug)]
pub enum PowerWord {
    Toggle,
    PowerOff,
    PowerOn,
}

/// What has been asked and not been answered.
#[derive(Clone, Copy, PartialEq, Eq, Structural, Debug)]
pub enum PowerStage {
    Start,
    Asking,
    /// A command is out; the value is what the card says if it is taken.
    Sending(PowerValue),
    /// Off is out on a device that cannot say whether it is on: if it is not
    /// taken, the device is woken.
    OffElseWake,
}

/// How what was asked went.
#[derive(Debug)]
pub enum PowerEvent {
    Begin,
    /// Whether the device is on, where it says so.
    Observed(Option<bool>),
    InvalidStatus,
    Refused(PluginFailure),
    Sent(Result<(), Reason>),
}

impl PowerWord {
    /// The command's word.
    pub open spec fn spec_name(self) -> Seq<char> {
        match self {
            PowerWord::Toggle => "toggle"@,
            PowerWord::PowerOff => "power-off"@,
            PowerWord::PowerOn => "power-on"@,
        }
    }

    /// The command's word.
    pub fn name(&self) -> (r: &'static str)
        ensures
            r@ == self.spec_name(),
    {
        match self {
            PowerWord::Toggle => "toggle",
            PowerWord::PowerOff => "power-off",
            PowerWord::PowerOn => "power-on",
        }
    }
}

/// What is sent to a device that was observed to be on or off. Nothing is
/// guessed of one that will not say.
pub open spec fn power_for(device: Device, on: Option<bool>) -> PowerStep {
    match on {
        Some(true) => PowerStep::Send {
            word: PowerWord::PowerOff,
            stage: PowerStage::Sending(PowerValue::Off),
        },
        Some(false) => PowerStep::Send {
            word: PowerWord::PowerOn,
            stage: PowerStage::Sending(PowerValue::On),
        },
        None => PowerStep::Finish(Err(Reason::PowerUnknown(device.name))),
    }
}

fn power_observed(device: &Device, on: Option<bool>) -> (r: PowerStep)
    ensures
        r == power_for(*device, on),
{
    match on {
        Some(true) => PowerStep::Send {
            word: PowerWord::PowerOff,
            stage: PowerStage::Sending(PowerValue::Off),
        },
        Some(false) => PowerStep::Send {
            word: PowerWord::PowerOn,
            stage: PowerStage::Sending(PowerValue::On),
        },
        None => PowerStep::Finish(Err(Reason::PowerUnknown(device.name.clone()))),
    }
}

/// How a power key begins: a device with a toggle gets it; one that reports its
/// power is asked; a television that reports none is switched off, and woken
/// where that is not taken.
pub open spec fn power_begun(device: Device) -> PowerStep {
    if device.keys.toggle {
        PowerStep::Send {
            word: PowerWord::Toggle,
            stage: PowerStage::Sending(PowerValue::Toggled),
        }
    } else {
        match device.network {
            Some(Integration::Plugin { .. }) => PowerStep::AskPackage,
            Some(Integration::AndroidTv) => PowerStep::AskKept,
            Some(Integration::Tizen) => PowerStep::Send {
                word: PowerWord::PowerOff,
                stage: PowerStage::OffElseWake,
            },
            Some(Integration::AppleTv) => PowerStep::Send {
                word: PowerWord::PowerOff,
                stage: PowerStage::OffElseWake,
            },
            Some(Integration::Legacy { needs_package }) => PowerStep::Finish(
                Err(Reason::Said(needs_package)),
            ),
            _ => power_for(device, None),
        }
    }
}

fn power_begin(device: &Device) -> (r: PowerStep)
    ensures
        r == power_begun(*device),
{
    if device.keys.toggle {
        return PowerStep::Send {
            word: PowerWord::Toggle,
            stage: PowerStage::Sending(PowerValue::Toggled),
        };
    }
    match &device.network {
        Some(Integration::Plugin { .. }) => PowerStep::AskPackage,
        Some(Integration::AndroidTv) => PowerStep::AskKept,
        Some(Integration::Tizen) => PowerStep::Send {
            word: PowerWord::PowerOff,
            stage: PowerStage::OffElseWake,
        },
        Some(Integration::AppleTv) => PowerStep::Send {
            word: PowerWord::PowerOff,
            stage: PowerStage::OffElseWake,
        },
        Some(Integration::Legacy { needs_package }) => PowerStep::Finish(
            Err(Reason::Said(needs_package.clone())),
        ),
        _ => power_observed(device, None),
    }
}

/// What follows an event of a power key.
pub open spec fn power_next(device: Device, stage: PowerStage, event: PowerEvent) -> PowerStep {
    match (stage, event) {
        (PowerStage::Start, PowerEvent::Begin) => power_begun(device),
        (PowerStage::Asking, PowerEvent::Observed(on)) => power_for(device, on),
        (PowerStage::Asking, PowerEvent::InvalidStatus) => PowerStep::Finish(
            Err(Reason::InvalidStatus),
        ),
        (PowerStage::Asking, PowerEvent::Refused(failure)) => PowerStep::Finish(
            Err(Reason::Refused(failure)),
        ),
        (PowerStage::Sending(value), PowerEvent::Sent(result)) => PowerStep::Finish(
            match result {
                Ok(_) => Ok(Outcome::power(device.name, value)),
                Err(reason) => Err(reason),
            },
        ),
        (PowerStage::OffElseWake, PowerEvent::Sent(result)) => match result {
            Ok(_) => PowerStep::Finish(Ok(Outcome::power(device.name, PowerValue::Toggled))),
            Err(_) => PowerStep::Send {
                word: PowerWord::PowerOn,
                stage: PowerStage::Sending(PowerValue::Waking),
            },
        },
        _ => PowerStep::Ignore,
    }
}

fn power_notice(device: &Device, value: PowerValue) -> (r: Outcome)
    ensures
        r == Outcome::power(device.name, value),
{
    Outcome {
        volume: None,
        notice: Some(Notice { target: device.name.clone(), value }),
        settle: false,
        observed_db: None,
    }
}

/// Take a row's power key one event further.
pub fn power_toggle(device: &Device, stage: PowerStage, event: PowerEvent) -> (r: PowerStep)
    ensures
        r == power_next(*device, stage, event),
{
    match stage {
        PowerStage::Start => match event {
            PowerEvent::Begin => power_begin(device),
            _ => PowerStep::Ignore,
        },
        PowerStage::Asking => match event {
            PowerEvent::Observed(on) => power_observed(device, on),
            PowerEvent::InvalidStatus => PowerStep::Finish(Err(Reason::InvalidStatus)),
            PowerEvent::Refused(failure) => PowerStep::Finish(Err(Reason::Refused(failure))),
            _ => PowerStep::Ignore,
        },
        PowerStage::Sending(value) => match event {
            PowerEvent::Sent(result) => PowerStep::Finish(
                match result {
                    Ok(_) => Ok(power_notice(device, value)),
                    Err(reason) => Err(reason),
                },
            ),
            _ => PowerStep::Ignore,
        },
        PowerStage::OffElseWake => match event {
            PowerEvent::Sent(result) => match result {
                Ok(_) => PowerStep::Finish(Ok(power_notice(device, PowerValue::Toggled))),
                Err(_) => PowerStep::Send {
                    word: PowerWord::PowerOn,
                    stage: PowerStage::Sending(PowerValue::Waking),
                },
            },
            _ => PowerStep::Ignore,
        },
    }
}

/// A device that is on is never told to go on, one that is off never to go off,
/// and one that will not say is told nothing.
pub proof fn power_is_observed_and_never_assumed(device: Device, on: Option<bool>)
    ensures
        match on {
            Some(true) => power_next(device, PowerStage::Asking, PowerEvent::Observed(on))
                matches PowerStep::Send { word, .. } && word == PowerWord::PowerOff,
            Some(false) => power_next(device, PowerStage::Asking, PowerEvent::Observed(on))
                matches PowerStep::Send { word, .. } && word == PowerWord::PowerOn,
            None => power_next(device, PowerStage::Asking, PowerEvent::Observed(on))
                == PowerStep::Finish(Err(Reason::PowerUnknown(device.name))),
        },
{
}

/// Whether the television on the Bluetooth link is the device's: its own, or
/// any where either side names no address.
pub open spec fn linked(bond: Seq<char>, link: Option<Seq<char>>) -> bool {
    match link {
        Some(address) => bond.len() == 0 || address.len() == 0 || address == bond,
        None => false,
    }
}

/// Whether a key may go to a device over Bluetooth, given the address on the
/// link: a key is never sent to another television.
pub fn send_bluetooth(device: &Device, link: &Option<String>) -> (r: Result<(), Failure>)
    ensures
        match device.bluetooth {
            None => r == Err::<(), Failure>(Failure::Unavailable(Reason::NoPairing)),
            Some(bond) => if linked(
                bond.address@,
                match *link {
                    Some(address) => Some(address@),
                    None => None,
                },
            ) {
                r == Ok::<(), Failure>(())
            } else {
                r == Err::<(), Failure>(Failure::Unavailable(Reason::NotLinked(device.name)))
            },
        },
        device.bluetooth is None || *link is None ==> r is Err,
        r matches Err(failure) ==> failure is Unavailable,
{
    match &device.bluetooth {
        None => Err(Failure::Unavailable(Reason::NoPairing)),
        Some(bond) => {
            let ready = match link {
                Some(address) => bond.address.as_str().is_empty() || address.as_str().is_empty()
                    || same(address.as_str(), bond.address.as_str()),
                None => false,
            };
            if ready {
                Ok(())
            } else {
                Err(Failure::Unavailable(Reason::NotLinked(device.name.clone())))
            }
        },
    }
}

/// What a key that was handed to the Bluetooth daemon comes to.
pub fn bluetooth_sent(result: Result<(), String>) -> (r: Result<Outcome, Failure>)
    ensures
        r == match result {
            Ok(_) => Ok(Outcome::nothing()),
            Err(why) => Err(Failure::Command(Reason::Said(why))),
        },
        r is Ok <==> result is Ok,
        r matches Err(failure) ==> failure is Command,
{
    match result {
        Ok(_) => Ok(Outcome::default()),
        Err(why) => Err(Failure::Command(Reason::Said(why))),
    }
}

/// The toggle bit that each device was last sent by infrared.
#[derive(Debug)]
pub struct Toggles {
    pub sent: Vec<(String, bool)>,
}

/// The bit that was last sent to a device, at or after a place.
pub open spec fn toggle_from(sent: Seq<(String, bool)>, device: Seq<char>, i: int) -> Option<bool>
    decreases sent.len() - i,
{
    if i < 0 || i >= sent.len() {
        None
    } else if sent[i].0@ == device {
        Some(sent[i].1)
    } else {
        toggle_from(sent, device, i + 1)
    }
}

impl Toggles {
    /// The bit that was last sent to a device.
    pub open spec fn last(self, device: Seq<char>) -> Option<bool> {
        toggle_from(self.sent@, device, 0)
    }

    /// The bit for the next frame: a held key keeps it, a fresh press turns it.
    pub open spec fn next(self, device: Seq<char>, repeat: bool) -> bool {
        match self.last(device) {
            Some(last) => if repeat {
                last
            } else {
                !last
            },
            None => false,
        }
    }

    /// Nothing has been sent.
    pub fn new() -> (r: Toggles)
        ensures
            forall|device: Seq<char>| r.last(device) is None,
    {
        Toggles { sent: Vec::new() }
    }

    fn place(&self, device: &str) -> (r: Option<usize>)
        ensures
            match r {
                Some(k) => k < self.sent@.len() && self.sent@[k as int].0@ == device@ && self.last(
                    device@,
                ) == Some(self.sent@[k as int].1) && (forall|j: int|
                    0 <= j < k ==> (#[trigger] self.sent@[j]).0@ != device@),
                None => self.last(device@) is None && (forall|j: int|
                    0 <= j < self.sent@.len() ==> (#[trigger] self.sent@[j]).0@ != device@),
            },
    {
        let mut i: usize = 0;
        while i < self.sent.len()
            invariant
                i <= self.sent.len(),
                self.last(device@) == toggle_from(self.sent@, device@, i as int),
                forall|j: int| 0 <= j < i ==> (#[trigger] self.sent@[j]).0@ != device@,
            decreases self.sent.len() - i,
        {
            if same(self.sent[i].0.as_str(), device) {
                return Some(i);
            }
            i = i + 1;
        }
        None
    }

    /// The bit for the next frame to a device.
    pub fn bit(&self, device: &str, repeat: bool) -> (r: bool)
        ensures
            r == self.next(device@, repeat),
    {
        match self.place(device) {
            Some(k) => if repeat {
                self.sent[k].1
            } else {
                !self.sent[k].1
            },
            None => false,
        }
    }

    /// Remember the bit of a frame that was sent.
    pub fn record(&mut self, device: &str, bit: bool)
        ensures
            final(self).last(device@) == Some(bit),
            forall|other: Seq<char>|
                other != device@ ==> #[trigger] final(self).last(other) == old(self).last(other),
    {
        match self.place(device) {
            Some(k) => {
                let name = self.sent[k].0.clone();
                self.sent.set(k, (name, bit));
                proof {
                    set_toggle(old(self).sent@, k as int, (name, bit), device@, 0);
                    assert forall|other: Seq<char>| other != device@ implies #[trigger] self.last(
                        other,
                    ) == old(self).last(other) by {
                        set_toggle(old(self).sent@, k as int, (name, bit), other, 0);
                    }
                }
            },
            None => {
                let name = device.to_owned();
                self.sent.push((name, bit));
                proof {
                    pushed_toggle(old(self).sent@, (name, bit), device@, 0);
                    assert forall|other: Seq<char>| other != device@ implies #[trigger] self.last(
                        other,
                    ) == old(self).last(other) by {
                        pushed_toggle(old(self).sent@, (name, bit), other, 0);
                    }
                }
            },
        }
    }
}

proof fn set_toggle(
    sent: Seq<(String, bool)>,
    k: int,
    entry: (String, bool),
    other: Seq<char>,
    i: int,
)
    requires
        0 <= i,
        0 <= k < sent.len(),
        entry.0@ == sent[k].0@,
        forall|j: int| 0 <= j < k ==> (#[trigger] sent[j]).0@ != entry.0@,
    ensures
        i <= k && other == entry.0@ ==> toggle_from(sent.update(k, entry), other, i) == Some(
            entry.1,
        ),
        other != entry.0@ ==> toggle_from(sent.update(k, entry), other, i) == toggle_from(
            sent,
            other,
            i,
        ),
    decreases sent.len() - i,
{
    if i < sent.len() {
        set_toggle(sent, k, entry, other, i + 1);
    }
}

proof fn pushed_toggle(sent: Seq<(String, bool)>, entry: (String, bool), other: Seq<char>, i: int)
    requires
        0 <= i <= sent.len(),
        forall|j: int| 0 <= j < sent.len() ==> (#[trigger] sent[j]).0@ != entry.0@,
    ensures
        other == entry.0@ ==> toggle_from(sent.push(entry), other, i) == Some(entry.1),
        other != entry.0@ ==> toggle_from(sent.push(entry), other, i) == toggle_from(sent, other, i),
    decreases sent.len() - i,
{
    if i < sent.len() {
        pushed_toggle(sent, entry, other, i + 1);
        assert(sent.push(entry)[i] == sent[i]);
    } else {
        assert(sent.push(entry)[i] == entry);
        reveal_with_fuel(toggle_from, 2);
    }
}

/// What is asked of the caller for a key by infrared.
#[derive(Debug)]
pub enum IrStep {
    /// Load the device's codes.
    Load,
    /// Encode the command's code with that toggle bit.
    Encode { toggle: bool },
    /// Transmit the frame that was encoded.
    Transmit { toggle: bool },
    /// Whether infrared took the key, or why it failed.
    Done(Result<bool, Reason>),
    /// The event answers nothing that was asked.
    Ignore,
}

/// How what was asked went; `current` says whether the press is still wanted.
#[derive(Debug)]
pub enum IrEvent {
    Begin { current: bool },
    /// `assigned` says whether the codes hold one for exactly this command.
    Loaded { assigned: bool, current: bool },
    Encoded { toggle: bool, current: bool },
    /// Whether the frame went out, or the press had gone stale by then.
    Transmitted { toggle: bool, sent: bool },
    Failed(String),
}

/// What follows an event of a key by infrared. A code that is not assigned
/// leaves the key to the network; a failed write does not.
pub open spec fn ir_next(device: Option<Device>, toggles: Toggles, repeat: bool, event: IrEvent) -> IrStep {
    match device {
        None => IrStep::Done(Err(Reason::DeviceGone)),
        Some(d) => match event {
            IrEvent::Begin { current } => if !d.ir {
                IrStep::Done(Ok(false))
            } else if !current {
                IrStep::Done(Ok(true))
            } else {
                IrStep::Load
            },
            IrEvent::Loaded { assigned, current } => if !assigned {
                IrStep::Done(Ok(false))
            } else if !current {
                IrStep::Done(Ok(true))
            } else {
                IrStep::Encode { toggle: toggles.next(d.id@, repeat) }
            },
            IrEvent::Encoded { toggle, current } => if current {
                IrStep::Transmit { toggle }
            } else {
                IrStep::Done(Ok(true))
            },
            IrEvent::Transmitted { .. } => IrStep::Done(Ok(true)),
            IrEvent::Failed(why) => IrStep::Done(Err(Reason::Said(why))),
        },
    }
}

/// Whether a command has an infrared code, among those that are assigned: its
/// own, and never another's.
pub fn assigned(codes: &Vec<String>, command: &Command) -> (r: bool)
    ensures
        r == listed(codes@, command.id@),
{
    is_listed(codes, command.id.as_str())
}

/// Take a key by infrared one event further. Only a frame that went out moves
/// the device's toggle bit.
pub fn try_device_ir(
    device: Option<&Device>,
    toggles: &mut Toggles,
    repeat: bool,
    event: IrEvent,
) -> (r: IrStep)
    ensures
        r == ir_next(
            match device {
                Some(d) => Some(*d),
                None => None,
            },
            *old(toggles),
            repeat,
            event,
        ),
        match (device, event) {
            (Some(d), IrEvent::Transmitted { toggle, sent: true }) => {
                &&& final(toggles).last(d.id@) == Some(toggle)
                &&& forall|other: Seq<char>|
                    other != d.id@ ==> #[trigger] final(toggles).last(other) == old(toggles).last(
                        other,
                    )
            },
            _ => *final(toggles) == *old(toggles),
        },
{
    let d = match device {
        Some(d) => d,
        None => return IrStep::Done(Err(Reason::DeviceGone)),
    };
    match event {
        IrEvent::Begin { current } => if !d.ir {
            IrStep::Done(Ok(false))
        } else if !current {
            IrStep::Done(Ok(true))
        } else {
            IrStep::Load
        },
        IrEvent::Loaded { assigned, current } => if !assigned {
            IrStep::Done(Ok(false))
        } else if !current {
            IrStep::Done(Ok(true))
        } else {
            IrStep::Encode { toggle: toggles.bit(d.id.as_str(), repeat) }
        },
        IrEvent::Encoded { toggle, current } => if current {
            IrStep::Transmit { toggle }
        } else {
            IrStep::Done(Ok(true))
        },
        IrEvent::Transmitted { toggle, sent } => {
            if sent {
                toggles.record(d.id.as_str(), toggle);
            }
            IrStep::Done(Ok(true))
        },
        IrEvent::Failed(why) => IrStep::Done(Err(Reason::Said(why))),
    }
}

/// What a key by infrared comes to on the walk down the transports.
pub fn ir_answer(result: Result<bool, Reason>, command: &String) -> (r: Result<Outcome, Failure>)
    ensures
        r == match result {
            Ok(true) => Ok(Outcome::nothing()),
            Ok(false) => Err(Failure::Unavailable(Reason::NoIrCode(*command))),
            Err(reason) => Err(Failure::Command(reason)),
        },
        r is Ok <==> (result matches Ok(handled) && handled),
        r matches Err(failure) ==> (failure is Unavailable <==> result is Ok),
{
    match result {
        Ok(true) => Ok(Outcome::default()),
        Ok(false) => Err(Failure::Unavailable(Reason::NoIrCode(command.clone()))),
        Err(reason) => Err(Failure::Command(reason)),
    }
}

/// A held key's frames carry the bit of the press that began it, and a fresh
/// press after a frame that went out carries the other.
pub proof fn a_held_key_keeps_its_bit_and_a_fresh_press_turns_it(
    before: Toggles,
    later: Toggles,
    device: Seq<char>,
    repeat: bool,
)
    requires
        later.last(device) == Some(before.next(device, repeat)),
    ensures
        later.next(device, true) == before.next(device, repeat),
        later.next(device, false) != before.next(device, repeat),
{
}

/// What a command becomes: nothing once its press is stale, a failure where its
/// device is gone, a power key by its own way, a level for a package alone, and
/// any other that is known down the transports.
pub proof fn a_command_becomes_its_own_plan(
    device: Device,
    command: Seq<char>,
    known: bool,
    current: bool,
)
    ensures
        plan_for(false, Some(device), command, known) is Nothing,
        plan_for(false, None, command, known) is Nothing,
        plan_for(true, None, command, known) == Plan::Fail(Reason::DeviceRemoved),
        plan_for(true, Some(device), "power-toggle"@, known) is PowerToggle,
        !begins(command, "set-volume-db:"@) && command != "power-toggle"@ ==> {
            &&& known ==> plan_for(true, Some(device), command, known) is Walk
            &&& !known ==> plan_for(true, Some(device), command, known) == Plan::Fail(
                Reason::Unsupported,
            )
        },
        begins(command, "set-volume-db:"@) && !(device.network matches Some(i) && i is Plugin)
            ==> plan_for(true, Some(device), command, known) == Plan::Fail(Reason::Unsupported),
{
    reveal_strlit("power-toggle");
    reveal_strlit("set-volume-db:");
    assert("power-toggle"@.len() == 12 && "set-volume-db:"@.len() == 14);
}

/// The first transport that can carry the key is tried first, and the next only
/// where it could not try; what it tried and failed ends the press.
pub proof fn a_key_goes_down_the_transports(
    walk: Walk,
    outcome: Outcome,
    reason: Reason,
    current: bool,
)
    requires
        walk.wf(),
        walk.order@.len() <= usize::MAX,
    ensures
        walk.answered(Ok(outcome), current) == WalkStep::Done(Ok(outcome)),
        walk.answered(Err(Failure::Command(reason)), current) == WalkStep::Done(Err(reason)),
        walk.answered(Err(Failure::Unavailable(reason)), false) matches WalkStep::Done(Ok(nothing))
            && nothing.volume is None && nothing.notice is None && !nothing.settle,
        match walk.answered(Err(Failure::Unavailable(reason)), true) {
            WalkStep::Try(next) => {
                &&& walk.at < next.at < walk.order@.len() && next.order == walk.order
                &&& next.order@[next.at as int].supported
                &&& forall|k: int|
                    walk.at < k < next.at ==> !(#[trigger] walk.order@[k]).supported
            },
            WalkStep::Done(result) => result == Err::<Outcome, Reason>(reason) && forall|k: int|
                walk.at < k < walk.order@.len() ==> !(#[trigger] walk.order@[k]).supported,
        },
{
    the_next_offer_is_the_first(walk.order@, walk.at + 1);
}

/// The next transport is the first that carries the key.
pub proof fn the_next_offer_is_the_first(order: Seq<Offer>, i: int)
    requires
        0 <= i,
    ensures
        match offer_from(order, i) {
            Some(k) => i <= k < order.len() && order[k].supported && forall|j: int|
                i <= j < k ==> !(#[trigger] order[j]).supported,
            None => forall|j: int| i <= j < order.len() ==> !(#[trigger] order[j]).supported,
        },
    decreases order.len() - i,
{
    if i < order.len() && !order[i].supported {
        the_next_offer_is_the_first(order, i + 1);
    }
}

/// How a power key begins: with a toggle where the device has one, by asking where
/// it can say what it is, by switching off where it cannot and can be woken, and
/// otherwise by saying that it is not known.
pub proof fn a_power_key_begins_its_own_way(device: Device)
    ensures
        ({
            let step = power_next(device, PowerStage::Start, PowerEvent::Begin);
            let sends = |word: Seq<char>|
                step matches PowerStep::Send { word: w, .. } && w.spec_name() == word;
            if device.keys.toggle {
                sends("toggle"@) && step->Send_stage == PowerStage::Sending(PowerValue::Toggled)
            } else {
                match device.network {
                    Some(Integration::Plugin { .. }) => step is AskPackage,
                    Some(Integration::AndroidTv) => step is AskKept,
                    Some(Integration::Tizen) => sends("power-off"@) && step->Send_stage
                        == PowerStage::OffElseWake,
                    Some(Integration::AppleTv) => sends("power-off"@) && step->Send_stage
                        == PowerStage::OffElseWake,
                    Some(Integration::Legacy { needs_package }) => step == PowerStep::Finish(
                        Err(Reason::Said(needs_package)),
                    ),
                    _ => step == PowerStep::Finish(Err(Reason::PowerUnknown(device.name))),
                }
            }
        }),
{
}

/// A device that is on is switched off and one that is off is switched on, by the
/// word for it, and that is what the card then says.
pub proof fn a_power_key_turns_the_device_over(device: Device, on: bool, reason: Reason)
    ensures
        ({
            let step = power_next(device, PowerStage::Asking, PowerEvent::Observed(Some(on)));
            &&& step matches PowerStep::Send { word, stage: PowerStage::Sending(value) }
            &&& on ==> word.spec_name() == "power-off"@ && value.spec_text() == "Off"@
            &&& !on ==> word.spec_name() == "power-on"@ && value.spec_text() == "On"@
            &&& power_next(
                device,
                PowerStage::Sending(value),
                PowerEvent::Sent(Ok(())),
            ) matches PowerStep::Finish(Ok(outcome))
            &&& outcome.notice matches Some(notice) && notice.target == device.name
                && notice.value == value
            &&& power_next(device, PowerStage::Sending(value), PowerEvent::Sent(Err(reason)))
                == PowerStep::Finish(Err(reason))
        }),
{
}

/// A television that took off says so; one that did not is woken.
pub proof fn a_television_that_is_off_is_woken(device: Device, reason: Reason)
    ensures
        power_next(device, PowerStage::OffElseWake, PowerEvent::Sent(Ok(()))) matches PowerStep::Finish(
            Ok(outcome),
        ) && (outcome.notice matches Some(notice) && notice.target == device.name
            && notice.value.spec_text() == "Toggled"@),
        power_next(
            device,
            PowerStage::OffElseWake,
            PowerEvent::Sent(Err(reason)),
        ) matches PowerStep::Send { word, stage: PowerStage::Sending(value) } && word.spec_name()
            == "power-on"@ && value.spec_text() == "Waking"@,
{
}

/// A package that cannot say what it is ends the press, with why.
pub proof fn a_power_question_that_fails_ends_the_press(device: Device, failure: PluginFailure)
    ensures
        power_next(device, PowerStage::Asking, PowerEvent::InvalidStatus) == PowerStep::Finish(
            Err(Reason::InvalidStatus),
        ),
        power_next(device, PowerStage::Asking, PowerEvent::Refused(failure)) == PowerStep::Finish(
            Err(Reason::Refused(failure)),
        ),
{
}

/// A key goes over Bluetooth only to the television that it was paired with; a
/// bond or a link without an address takes whichever is there.
pub proof fn bluetooth_goes_to_its_own_television(bond: Seq<char>, address: Seq<char>)
    ensures
        !linked(bond, None),
        linked(bond, Some(bond)),
        bond.len() > 0 && address.len() > 0 && bond != address ==> !linked(bond, Some(address)),
        linked(Seq::empty(), Some(address)) && linked(bond, Some(Seq::empty())),
{
}

/// A key by infrared is loaded, encoded with the bit of its device, and sent, each
/// only while the press is current; a device without a code leaves it, and one
/// that is gone fails.
pub proof fn an_infrared_key_is_sent_while_it_is_current(
    device: Device,
    toggles: Toggles,
    repeat: bool,
    toggle: bool,
    why: String,
    event: IrEvent,
)
    ensures
        ir_next(None, toggles, repeat, event) == IrStep::Done(Err(Reason::DeviceGone)),
        ({
            let next = |event: IrEvent| ir_next(Some(device), toggles, repeat, event);
            let begun = next(IrEvent::Begin { current: true });
            &&& device.ir ==> begun is Load
            &&& !device.ir ==> begun == IrStep::Done(Ok(false))
            &&& device.ir ==> next(IrEvent::Begin { current: false }) == IrStep::Done(Ok(true))
            &&& next(IrEvent::Loaded { assigned: false, current: true }) == IrStep::Done(Ok(false))
            &&& next(IrEvent::Loaded { assigned: true, current: false }) == IrStep::Done(Ok(true))
            &&& next(IrEvent::Loaded { assigned: true, current: true }) matches IrStep::Encode {
                toggle: bit,
            } && bit == toggles.next(device.id@, repeat)
            &&& next(IrEvent::Encoded { toggle, current: true }) matches IrStep::Transmit {
                toggle: bit,
            } && bit == toggle
            &&& next(IrEvent::Encoded { toggle, current: false }) == IrStep::Done(Ok(true))
            &&& next(IrEvent::Transmitted { toggle, sent: true }) == IrStep::Done(Ok(true))
            &&& next(IrEvent::Failed(why)) == IrStep::Done(Err(Reason::Said(why)))
        }),
{
}

/// A device that was never sent to begins with a bit of nothing.
pub proof fn a_devices_first_bit_is_off(toggles: Toggles, device: Seq<char>, repeat: bool)
    requires
        toggles.last(device) is None,
    ensures
        !toggles.next(device, repeat),
{
}

/// A device's bit is the first that is remembered of it.
pub proof fn a_bit_is_its_own_devices(sent: Seq<(String, bool)>, device: Seq<char>, i: int)
    requires
        0 <= i,
    ensures
        match toggle_from(sent, device, i) {
            Some(bit) => exists|k: int|
                i <= k < sent.len() && (#[trigger] sent[k]).0@ == device && sent[k].1 == bit,
            None => forall|k: int| i <= k < sent.len() ==> (#[trigger] sent[k]).0@ != device,
        },
    decreases sent.len() - i,
{
    if i < sent.len() && sent[i].0@ != device {
        a_bit_is_its_own_devices(sent, device, i + 1);
    }
}

} // verus!
