//! Commands, how a key was pressed, and what came of sending one.
use crate::text::{decimal, digit, number, trim, trimmed};
use vstd::prelude::*;

verus! {

/// A command that a device can be sent, as far as the remote tells them apart.
#[derive(Debug)]
pub enum Function {
    Okay,
    Up,
    Down,
    Left,
    Right,
    Back,
    Home,
    Menu,
    PlayPause,
    Stop,
    Next,
    Previous,
    VolumeUp,
    VolumeDown,
    Volume(u8),
    Mute,
    MuteOn,
    MuteOff,
    On,
    Off,
    Toggle,
    PowerOn,
    PowerOff,
    Dim(u8),
    Open,
    Close,
    Position(u8),
    Mode(String),
    TemperatureUp,
    TemperatureDown,
    Other,
}

/// A command and the word that it is known by.
#[derive(Debug)]
pub struct Command {
    pub id: String,
    pub function: Function,
}

/// A physical button, as far as the remote tells them apart.
#[derive(Clone, Copy, PartialEq, Eq, Structural, Debug)]
pub enum Button {
    VolumeUp,
    VolumeDown,
    Mute,
    Power,
    Back,
    /// Any other button, by its key code.
    Other(u16),
}

/// Which of a button's two meanings was asked for.
#[derive(Clone, Copy, PartialEq, Eq, Structural, Debug)]
pub enum Gesture {
    Short,
    Long,
}

/// A command for a device.
#[derive(Debug)]
pub struct Action {
    pub device: String,
    pub command: String,
    /// Whether a held key sends the command again and again.
    pub repeatable: bool,
}

/// What a button does; nothing at all where it is switched off.
#[derive(Debug)]
pub struct Binding {
    pub button: Button,
    pub gesture: Gesture,
    pub action: Option<Action>,
}

impl Action {
    /// The same action again.
    pub fn copy(&self) -> (r: Action)
        ensures
            r == *self,
    {
        Action {
            device: self.device.clone(),
            command: self.command.clone(),
            repeatable: self.repeatable,
        }
    }
}

impl Binding {
    /// The same binding again.
    pub fn copy(&self) -> (r: Binding)
        ensures
            r == *self,
    {
        Binding {
            button: self.button,
            gesture: self.gesture,
            action: match &self.action {
                Some(action) => Some(action.copy()),
                None => None,
            },
        }
    }
}

/// How a key was pressed.
#[derive(Clone, Copy, PartialEq, Eq, Structural, Debug)]
pub enum KeyPhase {
    Tap,
    Repeat,
    LongPress,
}

/// The phase of a press: a repeat is a held key's edge, whatever its binding.
pub fn key_phase(gesture: Gesture, repeat: bool) -> (r: KeyPhase)
    ensures
        r == if repeat {
            KeyPhase::Repeat
        } else if gesture is Long {
            KeyPhase::LongPress
        } else {
            KeyPhase::Tap
        },
        r is Repeat <==> repeat,
        r is LongPress ==> gesture is Long,
        r is Tap ==> gesture is Short,
{
    if repeat {
        KeyPhase::Repeat
    } else {
        match gesture {
            Gesture::Long => KeyPhase::LongPress,
            Gesture::Short => KeyPhase::Tap,
        }
    }
}

/// Why a package refused a request.
#[derive(Clone, Copy, PartialEq, Eq, Structural, Debug)]
pub enum PluginCode {
    Invalid,
    Unsupported,
    Incompatible,
    Protocol,
    Transport,
    Timeout,
    Busy,
    Expired,
    Rejected,
    Unpaired,
}

/// A package's refusal: the code, what the code says, and the package's own
/// line where it sent one.
#[derive(Debug)]
pub struct PluginFailure {
    pub code: PluginCode,
    pub sentence: String,
    pub reason: Option<String>,
}

/// A decibel level as a package reports it.
#[derive(Clone, Copy, PartialEq, Eq, Structural, Debug)]
pub enum VolumeDb {
    Reading { tenths: i16 },
    Minimum,
}

/// What the volume card writes in place of a number.
#[derive(Clone, Copy, PartialEq, Eq, Structural, Debug)]
pub enum VolumeText {
    Nothing,
    Muted,
    Minimum,
    Decibels { tenths: i16 },
}

/// A volume level read back from a device, for the volume card. `level` is
/// 0..=100 where the device has such a scale and -1 where it has none; `text`
/// replaces the number where it is set.
#[derive(Debug)]
pub struct VolumeReading {
    pub target: String,
    pub level: i32,
    pub text: VolumeText,
}

/// What a power key did, for the feedback card.
#[derive(Clone, Copy, PartialEq, Eq, Structural, Debug)]
pub enum PowerValue {
    Toggled,
    Waking,
    On,
    Off,
}

/// A line for the feedback card: "Power" over the device, the value beside it.
#[derive(Debug)]
pub struct Notice {
    pub target: String,
    pub value: PowerValue,
}

/// What a command left behind.
#[derive(Debug)]
pub struct Outcome {
    pub volume: Option<VolumeReading>,
    pub notice: Option<Notice>,
    /// A held key's level was not read back: read it once the lane is quiet.
    pub settle: bool,
    /// The decibel level that a read observed, in tenths.
    pub observed_db: Option<i16>,
}

/// Why a command was not carried out.
#[derive(Debug)]
pub enum Reason {
    NoNetwork,
    SonosAddress,
    NamedConnection,
    PairFirst,
    WrongProvider,
    KodiLacks(String),
    KodiIdle,
    HueUnavailable,
    HomeAssistantUnavailable,
    InvalidCommandResponse,
    CannotSend,
    NoIrCode(String),
    NoPairing,
    NotLinked(String),
    DeviceRemoved,
    DeviceGone,
    ConnectionRemoved,
    Unsupported,
    InvalidResponse,
    InvalidStatus,
    NotReported,
    LightUnavailable,
    GoneFromRoom,
    RemovedFromRoom,
    NoBrightness,
    NoControls,
    NoColour,
    NoCover,
    UnsupportedIr,
    PowerUnknown(String),
    StillSending,
    QueueFull,
    Refused(PluginFailure),
    /// In the words of whatever failed.
    Said(String),
}

/// Why a transport did not take a key. `Unavailable` means that it was not in a
/// position to try, so the next transport gets the key; `Command` means that it
/// tried and failed, which ends the press.
#[derive(Debug)]
pub enum Failure {
    Unavailable(Reason),
    Command(Reason),
}

impl Function {
    /// Whether the command moves the sound level.
    pub open spec fn spec_sound(self) -> bool {
        self is VolumeUp || self is VolumeDown || self is Volume || self is Mute || self is MuteOn
            || self is MuteOff
    }

    /// Whether the command moves the sound level.
    pub fn sound(&self) -> (r: bool)
        ensures
            r == self.spec_sound(),
    {
        match self {
            Function::VolumeUp => true,
            Function::VolumeDown => true,
            Function::Volume(_) => true,
            Function::Mute => true,
            Function::MuteOn => true,
            Function::MuteOff => true,
            _ => false,
        }
    }
}

/// A level in tenths of a decibel with one decimal and its unit.
pub open spec fn decibel_text(tenths: int) -> Seq<char> {
    if tenths < 0 {
        "-"@ + decimal((-tenths / 10) as nat) + "."@ + digit((-tenths % 10) as nat) + " dB"@
    } else {
        decimal((tenths / 10) as nat) + "."@ + digit((tenths % 10) as nat) + " dB"@
    }
}

impl VolumeText {
    /// What the card writes.
    pub open spec fn spec_text(self) -> Seq<char> {
        match self {
            VolumeText::Nothing => ""@,
            VolumeText::Muted => "Muted"@,
            VolumeText::Minimum => "Minimum"@,
            VolumeText::Decibels { tenths } => decibel_text(tenths as int),
        }
    }

    /// What the card writes.
    pub fn text(&self) -> (r: String)
        ensures
            r@ == self.spec_text(),
    {
        match *self {
            VolumeText::Nothing => "".to_owned(),
            VolumeText::Muted => "Muted".to_owned(),
            VolumeText::Minimum => "Minimum".to_owned(),
            VolumeText::Decibels { tenths } => decibels(tenths),
        }
    }
}

/// A level in tenths of a decibel with one decimal and its unit.
fn decibels(tenths: i16) -> (r: String)
    ensures
        r@ == decibel_text(tenths as int),
{
    let mut s = if tenths < 0 {
        "-".to_owned()
    } else {
        "".to_owned()
    };
    proof {
        reveal_strlit("");
    }
    let size: u64 = if tenths < 0 {
        (-(tenths as i64)) as u64
    } else {
        tenths as u64
    };
    s.append(number(size / 10).as_str());
    s.append(".");
    s.append(number(size % 10).as_str());
    s.append(" dB");
    if tenths >= 0 {
        assert(""@ + decimal((tenths / 10) as nat) =~= decimal((tenths / 10) as nat));
    }
    s
}

impl PowerValue {
    /// The word on the card.
    pub open spec fn spec_text(self) -> Seq<char> {
        match self {
            PowerValue::Toggled => "Toggled"@,
            PowerValue::Waking => "Waking"@,
            PowerValue::On => "On"@,
            PowerValue::Off => "Off"@,
        }
    }

    /// The word on the card.
    pub fn text(&self) -> (r: &'static str)
        ensures
            r@ == self.spec_text(),
    {
        match self {
            PowerValue::Toggled => "Toggled",
            PowerValue::Waking => "Waking",
            PowerValue::On => "On",
            PowerValue::Off => "Off",
        }
    }
}

impl Outcome {
    /// A command that left nothing behind.
    pub open spec fn nothing() -> Outcome {
        Outcome { volume: None, notice: None, settle: false, observed_db: None }
    }

    /// A command that left a reading behind, or nothing where none was had.
    pub open spec fn reading(volume: Option<VolumeReading>) -> Outcome {
        Outcome { volume, notice: None, settle: false, observed_db: None }
    }

    /// A held key whose level is still owed a read.
    pub open spec fn owed() -> Outcome {
        Outcome { volume: None, notice: None, settle: true, observed_db: None }
    }

    /// A power key's line for the feedback card.
    pub open spec fn power(target: String, value: PowerValue) -> Outcome {
        Outcome {
            volume: None,
            notice: Some(Notice { target, value }),
            settle: false,
            observed_db: None,
        }
    }
}

impl Default for Outcome {
    fn default() -> (r: Outcome)
        ensures
            r == Outcome::nothing(),
    {
        Outcome { volume: None, notice: None, settle: false, observed_db: None }
    }
}

/// What a refusal says: the code's sentence, and under it the package's own
/// line where that says anything. A connection that is not paired says where
/// pairing is done instead, whatever the package sent.
pub open spec fn refusal_text(failure: PluginFailure, hint: Seq<char>) -> Seq<char> {
    if failure.code == PluginCode::Unpaired {
        failure.sentence@ + "\n"@ + hint
    } else {
        match failure.reason {
            Some(line) => if trimmed(line@).len() == 0 {
                failure.sentence@
            } else {
                failure.sentence@ + "\n"@ + line@
            },
            None => failure.sentence@,
        }
    }
}

/// What a refusal says, given the line that tells where pairing is done.
pub fn refusal(failure: &PluginFailure, hint: &str) -> (r: String)
    ensures
        r@ == refusal_text(*failure, hint@),
{
    let mut s = failure.sentence.clone();
    if failure.code == PluginCode::Unpaired {
        s.append("\n");
        s.append(hint);
        return s;
    }
    match &failure.reason {
        Some(line) => {
            if !trim(line.as_str()).is_empty() {
                s.append("\n");
                s.append(line.as_str());
            }
            s
        },
        None => s,
    }
}

/// Whether the next transport gets a key that a package refused: the code
/// decides, never the package's line.
pub open spec fn falls_through(code: PluginCode) -> bool {
    code == PluginCode::Transport || code == PluginCode::Timeout || code == PluginCode::Busy || code
        == PluginCode::Expired
}

/// A package's refusal of a key as the walk down the transports takes it.
pub fn plugin_failure(failure: PluginFailure) -> (r: Failure)
    ensures
        r == (if falls_through(failure.code) {
            Failure::Unavailable(Reason::Refused(failure))
        } else {
            Failure::Command(Reason::Refused(failure))
        }),
{
    match failure.code {
        PluginCode::Transport => Failure::Unavailable(Reason::Refused(failure)),
        PluginCode::Timeout => Failure::Unavailable(Reason::Refused(failure)),
        PluginCode::Busy => Failure::Unavailable(Reason::Refused(failure)),
        PluginCode::Expired => Failure::Unavailable(Reason::Refused(failure)),
        _ => Failure::Command(Reason::Refused(failure)),
    }
}

/// A client that could not be reached: the next transport gets the key.
pub fn unreachable(why: String) -> (r: Failure)
    ensures
        r == Failure::Unavailable(Reason::Said(why)),
{
    Failure::Unavailable(Reason::Said(why))
}

impl Reason {
    /// The sentence that the user reads. `hint` tells where pairing is done.
    pub open spec fn spec_text(self, hint: Seq<char>) -> Seq<char> {
        match self {
            Reason::NoNetwork => "This device has no network connection"@,
            Reason::SonosAddress => "Sonos requires an IPv4 address"@,
            Reason::NamedConnection => "This TV needs a named connection"@,
            Reason::PairFirst => "Pair this TV in Connections first"@,
            Reason::WrongProvider => "TV credentials have the wrong provider"@,
            Reason::KodiLacks(id) => "Kodi has no "@ + id@ + " command"@,
            Reason::KodiIdle => "Kodi has no active playback"@,
            Reason::HueUnavailable => "Hue light is unavailable"@,
            Reason::HomeAssistantUnavailable => "Home Assistant light is unavailable"@,
            Reason::InvalidCommandResponse =>
                "The external integration returned an invalid command response"@,
            Reason::CannotSend => "This integration cannot send button commands yet"@,
            Reason::NoIrCode(id) => "No IR code assigned to "@ + id@,
            Reason::NoPairing => "No Bluetooth pairing"@,
            Reason::NotLinked(name) => name@ + " is not connected over Bluetooth"@,
            Reason::DeviceRemoved => "Mapped device was removed"@,
            Reason::DeviceGone => "Device was removed"@,
            Reason::ConnectionRemoved => "Mapped connection was removed"@,
            Reason::Unsupported => "Unsupported button function"@,
            Reason::InvalidResponse => "The integration returned an invalid response"@,
            Reason::InvalidStatus => "The integration returned an invalid status"@,
            Reason::NotReported => "The integration did not report this device"@,
            Reason::LightUnavailable => "This light is unavailable"@,
            Reason::GoneFromRoom => "Device was removed from room"@,
            Reason::RemovedFromRoom => "This device was removed from the room"@,
            Reason::NoBrightness => "This device does not support brightness"@,
            Reason::NoControls => "Controls for this device are not available yet"@,
            Reason::NoColour => "This light does not support colour temperature"@,
            Reason::NoCover => "This device does not open and close"@,
            Reason::UnsupportedIr => "Unsupported IR function"@,
            Reason::PowerUnknown(name) => name@ + " has not said whether it is on"@,
            Reason::StillSending => "Still sending the last command"@,
            Reason::QueueFull => "Device command queue is full"@,
            Reason::Refused(failure) => refusal_text(failure, hint),
            Reason::Said(why) => why@,
        }
    }

    /// The sentence that the user reads. `hint` tells where pairing is done.
    pub fn text(&self, hint: &str) -> (r: String)
        ensures
            r@ == self.spec_text(hint@),
    {
        match self {
            Reason::NoNetwork => "This device has no network connection".to_owned(),
            Reason::SonosAddress => "Sonos requires an IPv4 address".to_owned(),
            Reason::NamedConnection => "This TV needs a named connection".to_owned(),
            Reason::PairFirst => "Pair this TV in Connections first".to_owned(),
            Reason::WrongProvider => "TV credentials have the wrong provider".to_owned(),
            Reason::KodiLacks(id) => {
                let mut s = "Kodi has no ".to_owned();
                s.append(id.as_str());
                s.append(" command");
                s
            },
            Reason::KodiIdle => "Kodi has no active playback".to_owned(),
            Reason::HueUnavailable => "Hue light is unavailable".to_owned(),
            Reason::HomeAssistantUnavailable => "Home Assistant light is unavailable".to_owned(),
            Reason::InvalidCommandResponse =>
                "The external integration returned an invalid command response".to_owned(),
            Reason::CannotSend => "This integration cannot send button commands yet".to_owned(),
            Reason::NoIrCode(id) => {
                let mut s = "No IR code assigned to ".to_owned();
                s.append(id.as_str());
                s
            },
            Reason::NoPairing => "No Bluetooth pairing".to_owned(),
            Reason::NotLinked(name) => {
                let mut s = name.clone();
                s.append(" is not connected over Bluetooth");
                s
            },
            Reason::DeviceRemoved => "Mapped device was removed".to_owned(),
            Reason::DeviceGone => "Device was removed".to_owned(),
            Reason::ConnectionRemoved => "Mapped connection was removed".to_owned(),
            Reason::Unsupported => "Unsupported button function".to_owned(),
            Reason::InvalidResponse => "The integration returned an invalid response".to_owned(),
            Reason::InvalidStatus => "The integration returned an invalid status".to_owned(),
            Reason::NotReported => "The integration did not report this device".to_owned(),
            Reason::LightUnavailable => "This light is unavailable".to_owned(),
            Reason::GoneFromRoom => "Device was removed from room".to_owned(),
            Reason::RemovedFromRoom => "This device was removed from the room".to_owned(),
            Reason::NoBrightness => "This device does not support brightness".to_owned(),
            Reason::NoControls => "Controls for this device are not available yet".to_owned(),
            Reason::NoColour => "This light does not support colour temperature".to_owned(),
            Reason::NoCover => "This device does not open and close".to_owned(),
            Reason::UnsupportedIr => "Unsupported IR function".to_owned(),
            Reason::PowerUnknown(name) => {
                let mut s = name.clone();
                s.append(" has not said whether it is on");
                s
            },
            Reason::StillSending => "Still sending the last command".to_owned(),
            Reason::QueueFull => "Device command queue is full".to_owned(),
            Reason::Refused(failure) => refusal(failure, hint),
            Reason::Said(why) => why.clone(),
        }
    }
}

/// A package's failure is left to the next transport just where the package
/// could not be asked or had no time; what it refused ends the press.
pub proof fn only_what_was_never_tried_falls_through(code: PluginCode)
    ensures
        match code {
            PluginCode::Transport => falls_through(code),
            PluginCode::Timeout => falls_through(code),
            PluginCode::Busy => falls_through(code),
            PluginCode::Expired => falls_through(code),
            PluginCode::Invalid => !falls_through(code),
            PluginCode::Unsupported => !falls_through(code),
            PluginCode::Incompatible => !falls_through(code),
            PluginCode::Protocol => !falls_through(code),
            PluginCode::Rejected => !falls_through(code),
            PluginCode::Unpaired => !falls_through(code),
        },
{
}

/// The sound keys are the volume and mute keys, and no others.
pub proof fn sound_keys_are_volume_and_mute(function: Function)
    ensures
        match function {
            Function::VolumeUp | Function::VolumeDown | Function::Volume(_) | Function::Mute
            | Function::MuteOn | Function::MuteOff => function.spec_sound(),
            _ => !function.spec_sound(),
        },
{
}

/// A refusal always begins with its own sentence. An unpaired device is followed
/// by the hint and never by the package's reason; any other by the reason, where
/// one was given.
pub proof fn a_refusal_says_its_sentence_first(failure: PluginFailure, hint: Seq<char>)
    ensures
        ({
            let text = refusal_text(failure, hint);
            let n = failure.sentence@.len() as int;
            &&& n <= text.len()
            &&& text.subrange(0, n) == failure.sentence@
            &&& failure.code is Unpaired ==> text.len() == n + 1 + hint.len() && text.subrange(
                n + 1,
                text.len() as int,
            ) == hint
            &&& !(failure.code is Unpaired) ==> match failure.reason {
                None => text.len() == n,
                Some(line) => if trimmed(line@).len() == 0 {
                    text.len() == n
                } else {
                    text.len() == n + 1 + line@.len() && text.subrange(n + 1, text.len() as int)
                        == line@
                },
            }
        }),
{
    let text = refusal_text(failure, hint);
    let n = failure.sentence@.len() as int;
    reveal_strlit("\n");
    assert(text.subrange(0, n) =~= failure.sentence@);
    if failure.code is Unpaired {
        assert(text.subrange(n + 1, text.len() as int) =~= hint);
    } else if failure.reason is Some && trimmed(failure.reason->0@).len() > 0 {
        assert(text.subrange(n + 1, text.len() as int) =~= failure.reason->0@);
    }
}

/// The words of the volume card and of a power notice.
pub proof fn a_card_says_what_it_stands_for()
    ensures
        VolumeText::Nothing.spec_text() == ""@,
        VolumeText::Muted.spec_text() == "Muted"@,
        VolumeText::Minimum.spec_text() == "Minimum"@,
        PowerValue::Toggled.spec_text() == "Toggled"@,
        PowerValue::Waking.spec_text() == "Waking"@,
        PowerValue::On.spec_text() == "On"@,
        PowerValue::Off.spec_text() == "Off"@,
{
}

/// Decibels are written with one digit after the point, and with a sign just
/// where they are below zero.
pub proof fn decibels_are_written_in_tenths(whole: nat, tenth: nat)
    requires
        tenth < 10,
    ensures
        decibel_text((whole * 10 + tenth) as int) == decimal(whole) + "."@ + digit(tenth) + " dB"@,
        whole * 10 + tenth > 0 ==> decibel_text(-(whole * 10 + tenth)) == "-"@ + decimal(whole)
            + "."@ + digit(tenth) + " dB"@,
{
    assert((whole * 10 + tenth) / 10 == whole);
    assert((whole * 10 + tenth) % 10 == tenth);
}

/// What is said where a key could not be sent.
pub proof fn a_reason_is_said_in_its_own_words(hint: Seq<char>, said: String, name: String)
    ensures
        Reason::Said(said).spec_text(hint) == said@,
        Reason::KodiLacks(name).spec_text(hint) == "Kodi has no "@ + name@ + " command"@,
        Reason::NoIrCode(name).spec_text(hint) == "No IR code assigned to "@ + name@,
        Reason::NotLinked(name).spec_text(hint) == name@ + " is not connected over Bluetooth"@,
        Reason::PowerUnknown(name).spec_text(hint) == name@ + " has not said whether it is on"@,
        Reason::NoNetwork.spec_text(hint) == "This device has no network connection"@,
        Reason::SonosAddress.spec_text(hint) == "Sonos requires an IPv4 address"@,
        Reason::NamedConnection.spec_text(hint) == "This TV needs a named connection"@,
        Reason::PairFirst.spec_text(hint) == "Pair this TV in Connections first"@,
        Reason::WrongProvider.spec_text(hint) == "TV credentials have the wrong provider"@,
        Reason::KodiIdle.spec_text(hint) == "Kodi has no active playback"@,
        Reason::HueUnavailable.spec_text(hint) == "Hue light is unavailable"@,
        Reason::HomeAssistantUnavailable.spec_text(hint) == "Home Assistant light is unavailable"@,
        Reason::InvalidCommandResponse.spec_text(hint)
            == "The external integration returned an invalid command response"@,
        Reason::CannotSend.spec_text(hint) == "This integration cannot send button commands yet"@,
        Reason::NoPairing.spec_text(hint) == "No Bluetooth pairing"@,
        Reason::DeviceRemoved.spec_text(hint) == "Mapped device was removed"@,
        Reason::DeviceGone.spec_text(hint) == "Device was removed"@,
        Reason::ConnectionRemoved.spec_text(hint) == "Mapped connection was removed"@,
        Reason::Unsupported.spec_text(hint) == "Unsupported button function"@,
        Reason::InvalidResponse.spec_text(hint) == "The integration returned an invalid response"@,
        Reason::InvalidStatus.spec_text(hint) == "The integration returned an invalid status"@,
        Reason::NotReported.spec_text(hint) == "The integration did not report this device"@,
        Reason::LightUnavailable.spec_text(hint) == "This light is unavailable"@,
        Reason::GoneFromRoom.spec_text(hint) == "Device was removed from room"@,
        Reason::RemovedFromRoom.spec_text(hint) == "This device was removed from the room"@,
        Reason::NoBrightness.spec_text(hint) == "This device does not support brightness"@,
        Reason::NoControls.spec_text(hint) == "Controls for this device are not available yet"@,
        Reason::NoColour.spec_text(hint) == "This light does not support colour temperature"@,
        Reason::NoCover.spec_text(hint) == "This device does not open and close"@,
        Reason::UnsupportedIr.spec_text(hint) == "Unsupported IR function"@,
        Reason::StillSending.spec_text(hint) == "Still sending the last command"@,
        Reason::QueueFull.spec_text(hint) == "Device command queue is full"@,
{
}

/// An outcome holds what was read and nothing more; where nothing was, it holds
/// nothing.
pub proof fn an_outcome_holds_what_was_read(volume: Option<VolumeReading>)
    ensures
        Outcome::reading(volume).volume == volume,
        Outcome::reading(None) == Outcome::nothing(),
        Outcome::nothing().volume is None && Outcome::nothing().notice is None,
        !Outcome::nothing().settle && Outcome::nothing().observed_db is None,
        Outcome::reading(volume).notice is None && !Outcome::reading(volume).settle,
        Outcome::reading(volume).observed_db is None,
{
}

} // verus!
