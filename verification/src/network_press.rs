//! One key on its way to a device over the network.
//!
//! The caller owns the clients. It starts a [`Job`], performs each [`Call`] it
//! is handed, and reports how the call went as an [`Event`], until the press is
//! finished. A client that cannot connect makes the network unavailable, so that
//! a key can fall through to infrared or Bluetooth; a command that a connected
//! device refused ends the press.
use crate::commands::plugin_failure;
use crate::commands::{Command, Failure, Function, KeyPhase, Outcome, PluginFailure, Reason};
use crate::model::Integration;
use crate::text::same;
use crate::volume::{level_of, plugin_level, reading_of, volume_reading, DbScale, PluginStatus};
use vstd::prelude::*;

verus! {

/// The televisions that share one kind of client.
#[derive(Clone, Copy, PartialEq, Eq, Structural, Debug)]
pub enum Streaming {
    AndroidTv,
    AppleTv,
    Tizen,
}

/// How a Kodi box is spoken to.
#[derive(Clone, Copy, PartialEq, Eq, Structural, Debug)]
pub enum KodiRoute {
    /// Over HTTP, with the saved settings.
    Http,
    /// Over the plain socket.
    Tcp,
}

/// The settings that are saved for a Kodi box.
#[derive(Debug)]
pub struct KodiSaved {
    pub host: String,
    pub http_control: bool,
}

/// The parameters of a Kodi call.
#[derive(Clone, Copy, PartialEq, Eq, Structural, Debug)]
pub enum KodiParams {
    Empty,
    ToNext,
    ToPrevious,
    VolumeIncrement,
    VolumeDecrement,
    MuteToggle,
}

/// A Kodi method that a key stands for.
#[derive(Clone, Copy, PartialEq, Eq, Structural, Debug)]
pub enum KodiMethod {
    PlayPause,
    Stop,
    GoTo,
    InputUp,
    InputDown,
    InputLeft,
    InputRight,
    InputBack,
    InputHome,
    InputContextMenu,
    SetVolume,
    SetMute,
}

/// What a cover is told.
#[derive(Clone, Copy, PartialEq, Eq, Structural, Debug)]
pub enum CoverCommand {
    Open,
    Close,
    Stop,
    Toggle,
    Position(u8),
}

/// The infrared code that a webOS television's power key stands for.
#[derive(Clone, Copy, PartialEq, Eq, Structural, Debug)]
pub enum PowerCode {
    On,
    Off,
    Toggle,
}

/// How a Sonos command failed.
#[derive(Clone, Copy, PartialEq, Eq, Structural, Debug)]
pub enum SonosError {
    Transport,
    Response,
    Unsupported,
    Http(u16),
    Api,
    NotCoordinator,
    Cancelled,
    Command,
}

/// A key, and the device that it is for.
#[derive(Debug)]
pub struct Job {
    /// The device's name.
    pub name: String,
    /// The connection that the device names, or nothing.
    pub connection: String,
    /// The device's integration over the network.
    pub integration: Option<Integration>,
    pub command: Command,
    pub phase: KeyPhase,
}

/// What the caller is to do next.
#[derive(Clone, Copy, PartialEq, Eq, Structural, Debug)]
pub enum Call {
    SonosConnect,
    SonosVolume(u8),
    /// Send the command's word, unless the press has gone stale.
    SonosCommand,
    SonosLevel,
    StreamingLoad(Streaming),
    StreamingConnect(Streaming),
    StreamingCommand(Streaming),
    KodiLoad,
    KodiOpen(KodiRoute),
    KodiSelect,
    KodiSetVolume(u8),
    KodiMethod(KodiMethod, KodiParams),
    KodiPlayback,
    KodiPlayer(i64, KodiMethod, KodiParams),
    KodiLevel,
    /// Load the settings and how power is switched.
    WebOsPower,
    WebOsTransmit(PowerCode),
    WebOsTogglePower,
    WebOsWake,
    WebOsConnect,
    WebOsCommand,
    WebOsLevel,
    HueOpen,
    HueBrightness(u8),
    HuePower(bool),
    HueState,
    HomeAssistantOpen,
    HomeAssistantCover(CoverCommand),
    HomeAssistantMode,
    /// Read the thermostat and work out the target one step away.
    HomeAssistantTarget(i32),
    /// Write the target that was worked out.
    HomeAssistantApply,
    HomeAssistantBrightness(u8),
    HomeAssistantPower(bool),
    HomeAssistantState,
    MatterPower(bool),
    MatterBrightness(u8),
    MatterToggleOrOn,
    PluginKey,
    PluginStatus,
}

/// What has been asked of the caller and not been answered.
#[derive(Clone, Copy, PartialEq, Eq, Structural, Debug)]
pub enum Stage {
    Start,
    /// Saved settings are being read.
    Loading,
    /// A client is being opened.
    Connecting,
    /// The device is being asked something before the command is sent.
    Asking,
    /// The command is out.
    Sending,
    /// The command is out through something other than a kept client.
    Switching,
    /// The command was taken, and the level is being read back.
    Reading,
}

/// How what was asked of the caller went.
#[derive(Debug)]
pub enum Event {
    /// The press begins; `kept` says whether a client is already open.
    Begin { kept: bool },
    Connected,
    /// The host is no address.
    BadAddress,
    /// The settings that the client needs could not be read.
    SettingsFailed(String),
    Failed(String),
    SonosFailed { error: SonosError, why: String },
    /// Credentials of that kind; `kept` says whether a client with the same
    /// credentials is already open.
    Credentials { kind: Option<Streaming>, kept: bool },
    KodiSaved(Option<KodiSaved>),
    /// `ir` says whether power is switched by infrared; `kept` whether a client
    /// is already open.
    PowerMethod { ir: bool, kept: bool },
    /// The active player, where there is one.
    Playing(Option<i64>),
    /// Whether the light is on, where it says so.
    Light(Option<bool>),
    Done,
    /// The level and whether it is muted, where they could be read.
    Level(Option<(Option<i64>, bool)>),
    PluginOk,
    PluginOther,
    PluginFailed(PluginFailure),
    Status(Option<PluginStatus>),
}

/// What follows an event.
#[derive(Debug)]
pub enum Step {
    /// Perform the call and report it in that stage.
    Do { call: Call, stage: Stage },
    /// The press is over. `forget` asks that the kept client be dropped.
    Finish { result: Result<Outcome, Failure>, forget: bool },
    /// The event answers nothing that was asked.
    Ignore,
}

/// Whether a failed Sonos command says anything about the session. A press
/// abandoned at its deadline and a word that is no Sonos command do not.
pub open spec fn suspect(error: SonosError) -> bool {
    error != SonosError::Cancelled && error != SonosError::Command
}

/// Whether a failed Sonos command says anything about the session.
pub fn session_is_suspect(error: &SonosError) -> (r: bool)
    ensures
        r == suspect(*error),
{
    match error {
        SonosError::Cancelled => false,
        SonosError::Command => false,
        _ => true,
    }
}

/// The player call behind a transport key, and nothing for any other command.
pub open spec fn player_call(function: Function) -> Option<(KodiMethod, KodiParams)> {
    match function {
        Function::PlayPause => Some((KodiMethod::PlayPause, KodiParams::Empty)),
        Function::Stop => Some((KodiMethod::Stop, KodiParams::Empty)),
        Function::Next => Some((KodiMethod::GoTo, KodiParams::ToNext)),
        Function::Previous => Some((KodiMethod::GoTo, KodiParams::ToPrevious)),
        _ => None,
    }
}

/// The player call behind a transport key, and nothing for any other command:
/// one that Kodi does not have never becomes one that it does.
pub fn kodi_player_call(function: &Function) -> (r: Option<(KodiMethod, KodiParams)>)
    ensures
        r == player_call(*function),
{
    match function {
        Function::PlayPause => Some((KodiMethod::PlayPause, KodiParams::Empty)),
        Function::Stop => Some((KodiMethod::Stop, KodiParams::Empty)),
        Function::Next => Some((KodiMethod::GoTo, KodiParams::ToNext)),
        Function::Previous => Some((KodiMethod::GoTo, KodiParams::ToPrevious)),
        _ => None,
    }
}

impl KodiMethod {
    /// The method's name on the wire.
    pub open spec fn spec_name(self) -> Seq<char> {
        match self {
            KodiMethod::PlayPause => "Player.PlayPause"@,
            KodiMethod::Stop => "Player.Stop"@,
            KodiMethod::GoTo => "Player.GoTo"@,
            KodiMethod::InputUp => "Input.Up"@,
            KodiMethod::InputDown => "Input.Down"@,
            KodiMethod::InputLeft => "Input.Left"@,
            KodiMethod::InputRight => "Input.Right"@,
            KodiMethod::InputBack => "Input.Back"@,
            KodiMethod::InputHome => "Input.Home"@,
            KodiMethod::InputContextMenu => "Input.ContextMenu"@,
            KodiMethod::SetVolume => "Application.SetVolume"@,
            KodiMethod::SetMute => "Application.SetMute"@,
        }
    }

    /// The method's name on the wire.
    pub fn name(&self) -> (r: &'static str)
        ensures
            r@ == self.spec_name(),
    {
        match self {
            KodiMethod::PlayPause => "Player.PlayPause",
            KodiMethod::Stop => "Player.Stop",
            KodiMethod::GoTo => "Player.GoTo",
            KodiMethod::InputUp => "Input.Up",
            KodiMethod::InputDown => "Input.Down",
            KodiMethod::InputLeft => "Input.Left",
            KodiMethod::InputRight => "Input.Right",
            KodiMethod::InputBack => "Input.Back",
            KodiMethod::InputHome => "Input.Home",
            KodiMethod::InputContextMenu => "Input.ContextMenu",
            KodiMethod::SetVolume => "Application.SetVolume",
            KodiMethod::SetMute => "Application.SetMute",
        }
    }
}

impl KodiParams {
    /// The one name and value that the call carries, where it carries any.
    pub open spec fn spec_pair(self) -> Option<(Seq<char>, Seq<char>)> {
        match self {
            KodiParams::Empty => None,
            KodiParams::ToNext => Some(("to"@, "next"@)),
            KodiParams::ToPrevious => Some(("to"@, "previous"@)),
            KodiParams::VolumeIncrement => Some(("volume"@, "increment"@)),
            KodiParams::VolumeDecrement => Some(("volume"@, "decrement"@)),
            KodiParams::MuteToggle => Some(("mute"@, "toggle"@)),
        }
    }

    /// The one name and value that the call carries, where it carries any.
    pub fn pair(&self) -> (r: Option<(&'static str, &'static str)>)
        ensures
            match r {
                Some((name, value)) => self.spec_pair() == Some((name@, value@)),
                None => self.spec_pair() is None,
            },
    {
        match self {
            KodiParams::Empty => None,
            KodiParams::ToNext => Some(("to", "next")),
            KodiParams::ToPrevious => Some(("to", "previous")),
            KodiParams::VolumeIncrement => Some(("volume", "increment")),
            KodiParams::VolumeDecrement => Some(("volume", "decrement")),
            KodiParams::MuteToggle => Some(("mute", "toggle")),
        }
    }
}

impl PowerCode {
    /// The infrared code's name.
    pub open spec fn spec_name(self) -> Seq<char> {
        match self {
            PowerCode::On => "power-on"@,
            PowerCode::Off => "power-off"@,
            PowerCode::Toggle => "power"@,
        }
    }

    /// The infrared code's name.
    pub fn name(&self) -> (r: &'static str)
        ensures
            r@ == self.spec_name(),
    {
        match self {
            PowerCode::On => "power-on",
            PowerCode::Off => "power-off",
            PowerCode::Toggle => "power",
        }
    }
}

impl Streaming {
    /// The word that credentials and kept clients of this kind are filed under.
    pub open spec fn spec_name(self) -> Seq<char> {
        match self {
            Streaming::AndroidTv => "androidtv"@,
            Streaming::AppleTv => "appletv"@,
            Streaming::Tizen => "tizen"@,
        }
    }

    /// The word that credentials and kept clients of this kind are filed under.
    pub fn name(&self) -> (r: &'static str)
        ensures
            r@ == self.spec_name(),
    {
        match self {
            Streaming::AndroidTv => "androidtv",
            Streaming::AppleTv => "appletv",
            Streaming::Tizen => "tizen",
        }
    }

    /// The name that a kept client is filed under.
    pub fn key(&self, connection: &str) -> (r: String)
        ensures
            r@ == self.spec_name() + ":"@ + connection@,
    {
        let mut s = self.name().to_owned();
        s.append(":");
        s.append(connection);
        s
    }
}

/// A webOS television's report of its sound.
#[derive(Clone, Copy, PartialEq, Eq, Structural, Debug)]
pub struct WebOsVolume {
    pub volume: Option<i64>,
    pub mute_status: Option<bool>,
    pub muted: Option<bool>,
}

/// The level and the mute of a webOS report: those of the nested status where
/// the report has one, else its own.
pub fn webos_level(report: WebOsVolume, nested: Option<WebOsVolume>) -> (r: (Option<i64>, bool))
    ensures
        ({
            let v = match nested {
                Some(status) => status,
                None => report,
            };
            r == (v.volume, v.mute_status == Some(true) || v.muted == Some(true))
        }),
        nested is None ==> r.0 == report.volume,
        nested matches Some(status) ==> r.0 == status.volume,
{
    let v = match nested {
        Some(status) => status,
        None => report,
    };
    (v.volume, v.mute_status == Some(true) || v.muted == Some(true))
}

/// How a Kodi box is spoken to: over HTTP where settings with HTTP control are
/// saved for that very host.
pub open spec fn route_for(saved: Option<KodiSaved>, host: Seq<char>) -> KodiRoute {
    match saved {
        Some(saved) => if saved.host@ == host && saved.http_control {
            KodiRoute::Http
        } else {
            KodiRoute::Tcp
        },
        None => KodiRoute::Tcp,
    }
}

fn kodi_route(saved: &Option<KodiSaved>, host: &str) -> (r: KodiRoute)
    ensures
        r == route_for(*saved, host@),
{
    match saved {
        Some(saved) => if same(saved.host.as_str(), host) && saved.http_control {
            KodiRoute::Http
        } else {
            KodiRoute::Tcp
        },
        None => KodiRoute::Tcp,
    }
}

/// A press that ends because the device refused the command.
pub open spec fn refused(reason: Reason) -> Step {
    Step::Finish { result: Err(Failure::Command(reason)), forget: false }
}

/// A press that leaves the key to the next transport.
pub open spec fn unavailable(reason: Reason) -> Step {
    Step::Finish { result: Err(Failure::Unavailable(reason)), forget: false }
}

/// A press that the device took.
pub open spec fn taken(outcome: Outcome) -> Step {
    Step::Finish { result: Ok(outcome), forget: false }
}

/// The call that sends the command to a Kodi box, and the stage it is out in.
pub open spec fn kodi_step(command: Command) -> Step {
    let sending = |call: Call| Step::Do { call, stage: Stage::Sending };
    match command.function {
        Function::Okay => sending(Call::KodiSelect),
        Function::Up => sending(Call::KodiMethod(KodiMethod::InputUp, KodiParams::Empty)),
        Function::Down => sending(Call::KodiMethod(KodiMethod::InputDown, KodiParams::Empty)),
        Function::Left => sending(Call::KodiMethod(KodiMethod::InputLeft, KodiParams::Empty)),
        Function::Right => sending(Call::KodiMethod(KodiMethod::InputRight, KodiParams::Empty)),
        Function::Back => sending(Call::KodiMethod(KodiMethod::InputBack, KodiParams::Empty)),
        Function::Home => sending(Call::KodiMethod(KodiMethod::InputHome, KodiParams::Empty)),
        Function::Menu => sending(
            Call::KodiMethod(KodiMethod::InputContextMenu, KodiParams::Empty),
        ),
        Function::VolumeUp => sending(
            Call::KodiMethod(KodiMethod::SetVolume, KodiParams::VolumeIncrement),
        ),
        Function::VolumeDown => sending(
            Call::KodiMethod(KodiMethod::SetVolume, KodiParams::VolumeDecrement),
        ),
        Function::Mute => sending(Call::KodiMethod(KodiMethod::SetMute, KodiParams::MuteToggle)),
        Function::Volume(percent) => sending(Call::KodiSetVolume(percent)),
        _ => if player_call(command.function) is Some {
            Step::Do { call: Call::KodiPlayback, stage: Stage::Asking }
        } else {
            unavailable(Reason::KodiLacks(command.id))
        },
    }
}

fn kodi_send(command: &Command) -> (r: Step)
    ensures
        r == kodi_step(*command),
{
    let call: Option<Call> = match &command.function {
        Function::Okay => Some(Call::KodiSelect),
        Function::Up => Some(Call::KodiMethod(KodiMethod::InputUp, KodiParams::Empty)),
        Function::Down => Some(Call::KodiMethod(KodiMethod::InputDown, KodiParams::Empty)),
        Function::Left => Some(Call::KodiMethod(KodiMethod::InputLeft, KodiParams::Empty)),
        Function::Right => Some(Call::KodiMethod(KodiMethod::InputRight, KodiParams::Empty)),
        Function::Back => Some(Call::KodiMethod(KodiMethod::InputBack, KodiParams::Empty)),
        Function::Home => Some(Call::KodiMethod(KodiMethod::InputHome, KodiParams::Empty)),
        Function::Menu => Some(Call::KodiMethod(KodiMethod::InputContextMenu, KodiParams::Empty)),
        Function::VolumeUp => Some(
            Call::KodiMethod(KodiMethod::SetVolume, KodiParams::VolumeIncrement),
        ),
        Function::VolumeDown => Some(
            Call::KodiMethod(KodiMethod::SetVolume, KodiParams::VolumeDecrement),
        ),
        Function::Mute => Some(Call::KodiMethod(KodiMethod::SetMute, KodiParams::MuteToggle)),
        Function::Volume(percent) => Some(Call::KodiSetVolume(*percent)),
        _ => None,
    };
    match call {
        Some(call) => Step::Do { call, stage: Stage::Sending },
        None => if kodi_player_call(&command.function).is_some() {
            Step::Do { call: Call::KodiPlayback, stage: Stage::Asking }
        } else {
            Step::Finish {
                result: Err(Failure::Unavailable(Reason::KodiLacks(command.id.clone()))),
                forget: false,
            }
        },
    }
}

/// What a light that only switches is sent: on, off, or the opposite of what it
/// says it is.
pub open spec fn light_step(
    function: Function,
    brightness: spec_fn(u8) -> Call,
    power: spec_fn(bool) -> Call,
    state: Call,
) -> Step {
    match function {
        Function::Dim(percent) => Step::Do { call: brightness(percent), stage: Stage::Sending },
        Function::On => Step::Do { call: power(true), stage: Stage::Sending },
        Function::Off => Step::Do { call: power(false), stage: Stage::Sending },
        _ => Step::Do { call: state, stage: Stage::Asking },
    }
}

/// The call that sends the command to a Hue bridge.
pub open spec fn hue_step(function: Function) -> Step {
    light_step(
        function,
        |percent: u8| Call::HueBrightness(percent),
        |on: bool| Call::HuePower(on),
        Call::HueState,
    )
}

fn hue_send(function: &Function) -> (r: Step)
    ensures
        r == hue_step(*function),
{
    match function {
        Function::Dim(percent) => Step::Do {
            call: Call::HueBrightness(*percent),
            stage: Stage::Sending,
        },
        Function::On => Step::Do { call: Call::HuePower(true), stage: Stage::Sending },
        Function::Off => Step::Do { call: Call::HuePower(false), stage: Stage::Sending },
        _ => Step::Do { call: Call::HueState, stage: Stage::Asking },
    }
}

/// The call that sends the command to Home Assistant: each kind of entity has
/// commands of its own, and what is left is a light.
pub open spec fn home_assistant_step(function: Function) -> Step {
    let sending = |call: Call| Step::Do { call, stage: Stage::Sending };
    match function {
        Function::Open => sending(Call::HomeAssistantCover(CoverCommand::Open)),
        Function::Close => sending(Call::HomeAssistantCover(CoverCommand::Close)),
        Function::Stop => sending(Call::HomeAssistantCover(CoverCommand::Stop)),
        Function::Position(percent) => sending(
            Call::HomeAssistantCover(CoverCommand::Position(percent)),
        ),
        Function::Mode(_) => sending(Call::HomeAssistantMode),
        Function::TemperatureUp => Step::Do {
            call: Call::HomeAssistantTarget(1),
            stage: Stage::Asking,
        },
        Function::TemperatureDown => Step::Do {
            call: Call::HomeAssistantTarget(-1i32),
            stage: Stage::Asking,
        },
        _ => light_step(
            function,
            |percent: u8| Call::HomeAssistantBrightness(percent),
            |on: bool| Call::HomeAssistantPower(on),
            Call::HomeAssistantState,
        ),
    }
}

fn home_assistant_send(function: &Function) -> (r: Step)
    ensures
        r == home_assistant_step(*function),
{
    match function {
        Function::Open => Step::Do {
            call: Call::HomeAssistantCover(CoverCommand::Open),
            stage: Stage::Sending,
        },
        Function::Close => Step::Do {
            call: Call::HomeAssistantCover(CoverCommand::Close),
            stage: Stage::Sending,
        },
        Function::Stop => Step::Do {
            call: Call::HomeAssistantCover(CoverCommand::Stop),
            stage: Stage::Sending,
        },
        Function::Position(percent) => Step::Do {
            call: Call::HomeAssistantCover(CoverCommand::Position(*percent)),
            stage: Stage::Sending,
        },
        Function::Mode(_) => Step::Do { call: Call::HomeAssistantMode, stage: Stage::Sending },
        Function::TemperatureUp => Step::Do {
            call: Call::HomeAssistantTarget(1),
            stage: Stage::Asking,
        },
        Function::TemperatureDown => Step::Do {
            call: Call::HomeAssistantTarget(-1),
            stage: Stage::Asking,
        },
        Function::Dim(percent) => Step::Do {
            call: Call::HomeAssistantBrightness(*percent),
            stage: Stage::Sending,
        },
        Function::On => Step::Do { call: Call::HomeAssistantPower(true), stage: Stage::Sending },
        Function::Off => Step::Do { call: Call::HomeAssistantPower(false), stage: Stage::Sending },
        _ => Step::Do { call: Call::HomeAssistantState, stage: Stage::Asking },
    }
}

/// The call that sends the command to a Matter device.
pub open spec fn matter_step(function: Function) -> Step {
    Step::Do {
        call: match function {
            Function::On => Call::MatterPower(true),
            Function::Off => Call::MatterPower(false),
            Function::Dim(percent) => Call::MatterBrightness(percent),
            _ => Call::MatterToggleOrOn,
        },
        stage: Stage::Sending,
    }
}

fn matter_send(function: &Function) -> (r: Step)
    ensures
        r == matter_step(*function),
{
    Step::Do {
        call: match function {
            Function::On => Call::MatterPower(true),
            Function::Off => Call::MatterPower(false),
            Function::Dim(percent) => Call::MatterBrightness(*percent),
            _ => Call::MatterToggleOrOn,
        },
        stage: Stage::Sending,
    }
}

/// The call that sends the command to a Sonos player: one absolute write for a
/// level, the command's word for the rest.
pub open spec fn sonos_step(function: Function) -> Step {
    Step::Do {
        call: match function {
            Function::Volume(percent) => Call::SonosVolume(percent),
            _ => Call::SonosCommand,
        },
        stage: Stage::Sending,
    }
}

fn sonos_send(function: &Function) -> (r: Step)
    ensures
        r == sonos_step(*function),
{
    Step::Do {
        call: match function {
            Function::Volume(percent) => Call::SonosVolume(*percent),
            _ => Call::SonosCommand,
        },
        stage: Stage::Sending,
    }
}

/// The infrared code that a power command stands for, and nothing for any
/// other command.
pub open spec fn power_code(function: Function) -> Option<PowerCode> {
    match function {
        Function::PowerOn => Some(PowerCode::On),
        Function::PowerOff => Some(PowerCode::Off),
        Function::Toggle => Some(PowerCode::Toggle),
        _ => None,
    }
}

fn power_code_of(function: &Function) -> (r: Option<PowerCode>)
    ensures
        r == power_code(*function),
{
    match function {
        Function::PowerOn => Some(PowerCode::On),
        Function::PowerOff => Some(PowerCode::Off),
        Function::Toggle => Some(PowerCode::Toggle),
        _ => None,
    }
}

/// How a webOS television is sent a command over its own connection.
pub open spec fn webos_session(kept: bool) -> Step {
    if kept {
        Step::Do { call: Call::WebOsCommand, stage: Stage::Sending }
    } else {
        Step::Do { call: Call::WebOsConnect, stage: Stage::Connecting }
    }
}

fn webos_open(kept: bool) -> (r: Step)
    ensures
        r == webos_session(kept),
{
    if kept {
        Step::Do { call: Call::WebOsCommand, stage: Stage::Sending }
    } else {
        Step::Do { call: Call::WebOsConnect, stage: Stage::Connecting }
    }
}

/// How a webOS television's power is switched: by infrared where that is the
/// saved method, else a toggle and a wake have ways of their own, and off goes
/// over the connection.
pub open spec fn webos_power(function: Function, ir: bool, kept: bool) -> Step {
    match power_code(function) {
        Some(code) => if ir {
            Step::Do { call: Call::WebOsTransmit(code), stage: Stage::Switching }
        } else if code == PowerCode::Toggle {
            Step::Do { call: Call::WebOsTogglePower, stage: Stage::Switching }
        } else if code == PowerCode::On {
            Step::Do { call: Call::WebOsWake, stage: Stage::Switching }
        } else {
            webos_session(kept)
        },
        None => Step::Ignore,
    }
}

fn webos_switch(function: &Function, ir: bool, kept: bool) -> (r: Step)
    ensures
        r == webos_power(*function, ir, kept),
{
    match power_code_of(function) {
        Some(code) => if ir {
            Step::Do { call: Call::WebOsTransmit(code), stage: Stage::Switching }
        } else {
            match code {
                PowerCode::Toggle => Step::Do {
                    call: Call::WebOsTogglePower,
                    stage: Stage::Switching,
                },
                PowerCode::On => Step::Do { call: Call::WebOsWake, stage: Stage::Switching },
                PowerCode::Off => webos_open(kept),
            }
        },
        None => Step::Ignore,
    }
}

/// How the press of a key on a streaming television begins.
pub open spec fn streaming_begin(job: Job, kind: Streaming) -> Step {
    if job.connection@.len() == 0 {
        refused(Reason::NamedConnection)
    } else {
        Step::Do { call: Call::StreamingLoad(kind), stage: Stage::Loading }
    }
}

fn streaming_start(job: &Job, kind: Streaming) -> (r: Step)
    ensures
        r == streaming_begin(*job, kind),
{
    if job.connection.as_str().is_empty() {
        Step::Finish { result: Err(Failure::Command(Reason::NamedConnection)), forget: false }
    } else {
        Step::Do { call: Call::StreamingLoad(kind), stage: Stage::Loading }
    }
}

/// What follows the loading of a streaming television's credentials.
pub open spec fn streaming_loaded(kind: Streaming, event: Event) -> Step {
    match event {
        Event::Credentials { kind: found, kept } => if found != Some(kind) {
            refused(Reason::WrongProvider)
        } else if kept {
            Step::Do { call: Call::StreamingCommand(kind), stage: Stage::Sending }
        } else {
            Step::Do { call: Call::StreamingConnect(kind), stage: Stage::Connecting }
        },
        Event::Failed(_) => refused(Reason::PairFirst),
        _ => Step::Ignore,
    }
}

fn streaming_load(kind: Streaming, event: Event) -> (r: Step)
    ensures
        r == streaming_loaded(kind, event),
{
    match event {
        Event::Credentials { kind: found, kept } => if found != Some(kind) {
            Step::Finish { result: Err(Failure::Command(Reason::WrongProvider)), forget: false }
        } else if kept {
            Step::Do { call: Call::StreamingCommand(kind), stage: Stage::Sending }
        } else {
            Step::Do { call: Call::StreamingConnect(kind), stage: Stage::Connecting }
        },
        Event::Failed(_) => Step::Finish {
            result: Err(Failure::Command(Reason::PairFirst)),
            forget: false,
        },
        _ => Step::Ignore,
    }
}

/// How a press begins.
pub open spec fn begun(job: Job, kept: bool) -> Step {
    match job.integration {
        None => unavailable(Reason::NoNetwork),
        Some(Integration::Sonos { .. }) => if kept {
            sonos_step(job.command.function)
        } else {
            Step::Do { call: Call::SonosConnect, stage: Stage::Connecting }
        },
        Some(Integration::AndroidTv) => streaming_begin(job, Streaming::AndroidTv),
        Some(Integration::AppleTv) => streaming_begin(job, Streaming::AppleTv),
        Some(Integration::Tizen) => streaming_begin(job, Streaming::Tizen),
        Some(Integration::Legacy { needs_package }) => unavailable(Reason::Said(needs_package)),
        Some(Integration::Kodi { .. }) => Step::Do { call: Call::KodiLoad, stage: Stage::Loading },
        Some(Integration::WebOs) => if power_code(job.command.function) is Some {
            Step::Do { call: Call::WebOsPower, stage: Stage::Loading }
        } else {
            webos_session(kept)
        },
        Some(Integration::Hue { .. }) => Step::Do { call: Call::HueOpen, stage: Stage::Connecting },
        Some(Integration::HomeAssistant { .. }) => Step::Do {
            call: Call::HomeAssistantOpen,
            stage: Stage::Connecting,
        },
        Some(Integration::Matter { .. }) => matter_step(job.command.function),
        Some(Integration::Plugin { .. }) => Step::Do {
            call: Call::PluginKey,
            stage: Stage::Sending,
        },
        Some(Integration::UnifiProtect { .. }) => refused(Reason::CannotSend),
        Some(Integration::Other) => refused(Reason::CannotSend),
    }
}

fn start(job: &Job, kept: bool) -> (r: Step)
    ensures
        r == begun(*job, kept),
{
    match &job.integration {
        None => Step::Finish {
            result: Err(Failure::Unavailable(Reason::NoNetwork)),
            forget: false,
        },
        Some(integration) => match integration {
            Integration::Sonos { .. } => if kept {
                sonos_send(&job.command.function)
            } else {
                Step::Do { call: Call::SonosConnect, stage: Stage::Connecting }
            },
            Integration::AndroidTv => streaming_start(job, Streaming::AndroidTv),
            Integration::AppleTv => streaming_start(job, Streaming::AppleTv),
            Integration::Tizen => streaming_start(job, Streaming::Tizen),
            Integration::Legacy { needs_package } => Step::Finish {
                result: Err(Failure::Unavailable(Reason::Said(needs_package.clone()))),
                forget: false,
            },
            Integration::Kodi { .. } => Step::Do { call: Call::KodiLoad, stage: Stage::Loading },
            Integration::WebOs => if power_code_of(&job.command.function).is_some() {
                Step::Do { call: Call::WebOsPower, stage: Stage::Loading }
            } else {
                webos_open(kept)
            },
            Integration::Hue { .. } => Step::Do { call: Call::HueOpen, stage: Stage::Connecting },
            Integration::HomeAssistant { .. } => Step::Do {
                call: Call::HomeAssistantOpen,
                stage: Stage::Connecting,
            },
            Integration::Matter { .. } => matter_send(&job.command.function),
            Integration::Plugin { .. } => Step::Do {
                call: Call::PluginKey,
                stage: Stage::Sending,
            },
            Integration::UnifiProtect { .. } => Step::Finish {
                result: Err(Failure::Command(Reason::CannotSend)),
                forget: false,
            },
            Integration::Other => Step::Finish {
                result: Err(Failure::Command(Reason::CannotSend)),
                forget: false,
            },
        },
    }
}

/// What follows the loading of saved settings.
pub open spec fn loaded(job: Job, event: Event) -> Step {
    match job.integration {
        Some(Integration::AndroidTv) => streaming_loaded(Streaming::AndroidTv, event),
        Some(Integration::AppleTv) => streaming_loaded(Streaming::AppleTv, event),
        Some(Integration::Tizen) => streaming_loaded(Streaming::Tizen, event),
        Some(Integration::Kodi { host, .. }) => match event {
            Event::KodiSaved(saved) => Step::Do {
                call: Call::KodiOpen(route_for(saved, host@)),
                stage: Stage::Connecting,
            },
            _ => Step::Ignore,
        },
        Some(Integration::WebOs) => match event {
            Event::PowerMethod { ir, kept } => webos_power(job.command.function, ir, kept),
            Event::Failed(why) => refused(Reason::Said(why)),
            _ => Step::Ignore,
        },
        _ => Step::Ignore,
    }
}

fn load(job: &Job, event: Event) -> (r: Step)
    ensures
        r == loaded(*job, event),
{
    match &job.integration {
        Some(Integration::AndroidTv) => streaming_load(Streaming::AndroidTv, event),
        Some(Integration::AppleTv) => streaming_load(Streaming::AppleTv, event),
        Some(Integration::Tizen) => streaming_load(Streaming::Tizen, event),
        Some(Integration::Kodi { host, .. }) => match event {
            Event::KodiSaved(saved) => Step::Do {
                call: Call::KodiOpen(kodi_route(&saved, host.as_str())),
                stage: Stage::Connecting,
            },
            _ => Step::Ignore,
        },
        Some(Integration::WebOs) => match event {
            Event::PowerMethod { ir, kept } => webos_switch(&job.command.function, ir, kept),
            Event::Failed(why) => Step::Finish {
                result: Err(Failure::Command(Reason::Said(why))),
                forget: false,
            },
            _ => Step::Ignore,
        },
        _ => Step::Ignore,
    }
}

/// The call that sends the command through a client that has just opened.
pub open spec fn opened(job: Job) -> Step {
    match job.integration {
        Some(Integration::Sonos { .. }) => sonos_step(job.command.function),
        Some(Integration::AndroidTv) => Step::Do {
            call: Call::StreamingCommand(Streaming::AndroidTv),
            stage: Stage::Sending,
        },
        Some(Integration::AppleTv) => Step::Do {
            call: Call::StreamingCommand(Streaming::AppleTv),
            stage: Stage::Sending,
        },
        Some(Integration::Tizen) => Step::Do {
            call: Call::StreamingCommand(Streaming::Tizen),
            stage: Stage::Sending,
        },
        Some(Integration::Kodi { .. }) => kodi_step(job.command),
        Some(Integration::WebOs) => webos_session(true),
        Some(Integration::Hue { .. }) => hue_step(job.command.function),
        Some(Integration::HomeAssistant { .. }) => home_assistant_step(job.command.function),
        _ => Step::Ignore,
    }
}

fn open(job: &Job) -> (r: Step)
    ensures
        r == opened(*job),
{
    match &job.integration {
        Some(Integration::Sonos { .. }) => sonos_send(&job.command.function),
        Some(Integration::AndroidTv) => Step::Do {
            call: Call::StreamingCommand(Streaming::AndroidTv),
            stage: Stage::Sending,
        },
        Some(Integration::AppleTv) => Step::Do {
            call: Call::StreamingCommand(Streaming::AppleTv),
            stage: Stage::Sending,
        },
        Some(Integration::Tizen) => Step::Do {
            call: Call::StreamingCommand(Streaming::Tizen),
            stage: Stage::Sending,
        },
        Some(Integration::Kodi { .. }) => kodi_send(&job.command),
        Some(Integration::WebOs) => webos_open(true),
        Some(Integration::Hue { .. }) => hue_send(&job.command.function),
        Some(Integration::HomeAssistant { .. }) => home_assistant_send(&job.command.function),
        _ => Step::Ignore,
    }
}

/// Whether a client that fails to open ends the press: what speaks through a
/// bridge or a server does, what may merely be asleep does not.
pub open spec fn opening_ends_the_press(integration: Option<Integration>) -> bool {
    integration matches Some(i) && (i is Hue || i is HomeAssistant)
}

/// What follows the opening of a client.
pub open spec fn connected(job: Job, event: Event) -> Step {
    match event {
        Event::Connected => opened(job),
        Event::BadAddress => if is_sonos(job.integration) {
            refused(Reason::SonosAddress)
        } else {
            Step::Ignore
        },
        Event::SettingsFailed(why) => if job.integration == Some(Integration::WebOs) {
            refused(Reason::Said(why))
        } else {
            Step::Ignore
        },
        Event::Failed(why) => if opening_ends_the_press(job.integration) {
            refused(Reason::Said(why))
        } else {
            unavailable(Reason::Said(why))
        },
        _ => Step::Ignore,
    }
}

fn connect(job: &Job, event: Event) -> (r: Step)
    ensures
        r == connected(*job, event),
{
    match event {
        Event::Connected => open(job),
        Event::BadAddress => match &job.integration {
            Some(Integration::Sonos { .. }) => Step::Finish {
                result: Err(Failure::Command(Reason::SonosAddress)),
                forget: false,
            },
            _ => Step::Ignore,
        },
        Event::SettingsFailed(why) => match &job.integration {
            Some(Integration::WebOs) => Step::Finish {
                result: Err(Failure::Command(Reason::Said(why))),
                forget: false,
            },
            _ => Step::Ignore,
        },
        Event::Failed(why) => {
            let ends = match &job.integration {
                Some(Integration::Hue { .. }) => true,
                Some(Integration::HomeAssistant { .. }) => true,
                _ => false,
            };
            let failure = if ends {
                Failure::Command(Reason::Said(why))
            } else {
                crate::commands::unreachable(why)
            };
            Step::Finish { result: Err(failure), forget: false }
        },
        _ => Step::Ignore,
    }
}

/// What follows a question that had to be asked before the command.
pub open spec fn asked(job: Job, event: Event) -> Step {
    match (job.integration, event) {
        (_, Event::Failed(why)) => refused(Reason::Said(why)),
        (Some(Integration::Kodi { .. }), Event::Playing(player)) => match player {
            None => refused(Reason::KodiIdle),
            Some(player) => match player_call(job.command.function) {
                Some((method, params)) => Step::Do {
                    call: Call::KodiPlayer(player, method, params),
                    stage: Stage::Sending,
                },
                None => Step::Ignore,
            },
        },
        (Some(Integration::Hue { .. }), Event::Light(on)) => match on {
            None => refused(Reason::HueUnavailable),
            Some(on) => Step::Do { call: Call::HuePower(!on), stage: Stage::Sending },
        },
        (Some(Integration::HomeAssistant { .. }), Event::Light(on)) => match on {
            None => refused(Reason::HomeAssistantUnavailable),
            Some(on) => Step::Do { call: Call::HomeAssistantPower(!on), stage: Stage::Sending },
        },
        (Some(Integration::HomeAssistant { .. }), Event::Done) => Step::Do {
            call: Call::HomeAssistantApply,
            stage: Stage::Sending,
        },
        _ => Step::Ignore,
    }
}

fn ask(job: &Job, event: Event) -> (r: Step)
    ensures
        r == asked(*job, event),
{
    match event {
        Event::Failed(why) => Step::Finish {
            result: Err(Failure::Command(Reason::Said(why))),
            forget: false,
        },
        Event::Playing(player) => match &job.integration {
            Some(Integration::Kodi { .. }) => match player {
                None => Step::Finish {
                    result: Err(Failure::Command(Reason::KodiIdle)),
                    forget: false,
                },
                Some(player) => match kodi_player_call(&job.command.function) {
                    Some((method, params)) => Step::Do {
                        call: Call::KodiPlayer(player, method, params),
                        stage: Stage::Sending,
                    },
                    None => Step::Ignore,
                },
            },
            _ => Step::Ignore,
        },
        Event::Light(on) => match &job.integration {
            Some(Integration::Hue { .. }) => match on {
                None => Step::Finish {
                    result: Err(Failure::Command(Reason::HueUnavailable)),
                    forget: false,
                },
                Some(on) => Step::Do { call: Call::HuePower(!on), stage: Stage::Sending },
            },
            Some(Integration::HomeAssistant { .. }) => match on {
                None => Step::Finish {
                    result: Err(Failure::Command(Reason::HomeAssistantUnavailable)),
                    forget: false,
                },
                Some(on) => Step::Do {
                    call: Call::HomeAssistantPower(!on),
                    stage: Stage::Sending,
                },
            },
            _ => Step::Ignore,
        },
        Event::Done => match &job.integration {
            Some(Integration::HomeAssistant { .. }) => Step::Do {
                call: Call::HomeAssistantApply,
                stage: Stage::Sending,
            },
            _ => Step::Ignore,
        },
        _ => Step::Ignore,
    }
}

/// The call that reads the level back after a sound command, for what has one.
pub open spec fn level_call(integration: Option<Integration>) -> Option<Call> {
    match integration {
        Some(Integration::Sonos { .. }) => Some(Call::SonosLevel),
        Some(Integration::Kodi { .. }) => Some(Call::KodiLevel),
        Some(Integration::WebOs) => Some(Call::WebOsLevel),
        _ => None,
    }
}

fn level_call_of(integration: &Option<Integration>) -> (r: Option<Call>)
    ensures
        r == level_call(*integration),
{
    match integration {
        Some(Integration::Sonos { .. }) => Some(Call::SonosLevel),
        Some(Integration::Kodi { .. }) => Some(Call::KodiLevel),
        Some(Integration::WebOs) => Some(Call::WebOsLevel),
        _ => None,
    }
}

/// Whether a client is kept between presses and dropped when a command fails.
pub open spec fn keeps_a_session(integration: Option<Integration>) -> bool {
    integration matches Some(i) && (i is AndroidTv || i is AppleTv || i is Tizen || i is WebOs)
}

/// Whether a device is a Sonos player.
pub open spec fn is_sonos(integration: Option<Integration>) -> bool {
    integration matches Some(i) && i is Sonos
}

/// Whether a device is one of a package's.
pub open spec fn is_packaged(integration: Option<Integration>) -> bool {
    integration matches Some(i) && i is Plugin
}

/// What follows the command itself.
pub open spec fn sent(job: Job, event: Event) -> Step {
    let packaged = is_packaged(job.integration);
    let sonos = is_sonos(job.integration);
    match event {
        Event::Done => if packaged {
            Step::Ignore
        } else {
            match level_call(job.integration) {
                Some(call) => if job.command.function.spec_sound() {
                    Step::Do { call, stage: Stage::Reading }
                } else {
                    taken(Outcome::nothing())
                },
                None => taken(Outcome::nothing()),
            }
        },
        Event::Failed(why) => if packaged || sonos {
            Step::Ignore
        } else {
            Step::Finish {
                result: Err(Failure::Command(Reason::Said(why))),
                forget: keeps_a_session(job.integration),
            }
        },
        Event::SonosFailed { error, why } => if sonos {
            Step::Finish {
                result: Err(Failure::Command(Reason::Said(why))),
                forget: suspect(error),
            }
        } else {
            Step::Ignore
        },
        Event::PluginOk => if packaged {
            if !job.command.function.spec_sound() {
                taken(Outcome::nothing())
            } else if job.phase == KeyPhase::Repeat {
                taken(Outcome::owed())
            } else {
                Step::Do { call: Call::PluginStatus, stage: Stage::Reading }
            }
        } else {
            Step::Ignore
        },
        Event::PluginOther => if packaged {
            refused(Reason::InvalidCommandResponse)
        } else {
            Step::Ignore
        },
        Event::PluginFailed(failure) => if !packaged {
            Step::Ignore
        } else if crate::commands::falls_through(failure.code) {
            unavailable(Reason::Refused(failure))
        } else {
            refused(Reason::Refused(failure))
        },
        _ => Step::Ignore,
    }
}

fn send(job: &Job, event: Event) -> (r: Step)
    ensures
        r == sent(*job, event),
{
    let packaged = match &job.integration {
        Some(Integration::Plugin { .. }) => true,
        _ => false,
    };
    let sonos = match &job.integration {
        Some(Integration::Sonos { .. }) => true,
        _ => false,
    };
    match event {
        Event::Done => if packaged {
            Step::Ignore
        } else {
            match level_call_of(&job.integration) {
                Some(call) => if job.command.function.sound() {
                    Step::Do { call, stage: Stage::Reading }
                } else {
                    Step::Finish { result: Ok(Outcome::default()), forget: false }
                },
                None => Step::Finish { result: Ok(Outcome::default()), forget: false },
            }
        },
        Event::Failed(why) => if packaged || sonos {
            Step::Ignore
        } else {
            let forget = match &job.integration {
                Some(Integration::AndroidTv) => true,
                Some(Integration::AppleTv) => true,
                Some(Integration::Tizen) => true,
                Some(Integration::WebOs) => true,
                _ => false,
            };
            Step::Finish { result: Err(Failure::Command(Reason::Said(why))), forget }
        },
        Event::SonosFailed { error, why } => if sonos {
            Step::Finish {
                result: Err(Failure::Command(Reason::Said(why))),
                forget: session_is_suspect(&error),
            }
        } else {
            Step::Ignore
        },
        Event::PluginOk => if packaged {
            if !job.command.function.sound() {
                Step::Finish { result: Ok(Outcome::default()), forget: false }
            } else if job.phase == KeyPhase::Repeat {
                Step::Finish {
                    result: Ok(
                        Outcome { volume: None, notice: None, settle: true, observed_db: None },
                    ),
                    forget: false,
                }
            } else {
                Step::Do { call: Call::PluginStatus, stage: Stage::Reading }
            }
        } else {
            Step::Ignore
        },
        Event::PluginOther => if packaged {
            Step::Finish {
                result: Err(Failure::Command(Reason::InvalidCommandResponse)),
                forget: false,
            }
        } else {
            Step::Ignore
        },
        Event::PluginFailed(failure) => if packaged {
            Step::Finish { result: Err(plugin_failure(failure)), forget: false }
        } else {
            Step::Ignore
        },
        _ => Step::Ignore,
    }
}

/// The scale that the device's package declares, where it is a packaged one.
pub open spec fn job_scale(job: Job) -> Option<DbScale> {
    match job.integration {
        Some(integration) => DbScale::spec_of(integration),
        None => None,
    }
}

/// What follows the reading of the level. A level that could not be read leaves
/// the command taken all the same.
pub open spec fn read_back(job: Job, event: Event) -> Step {
    match event {
        Event::Level(level) => taken(
            Outcome::reading(
                match level {
                    Some((level, muted)) => reading_of(job.name, level, muted),
                    None => None,
                },
            ),
        ),
        Event::Status(status) => taken(
            match level_of(job.name, status, job_scale(job)) {
                Some((reading, observed)) => Outcome {
                    volume: Some(reading),
                    notice: None,
                    settle: false,
                    observed_db: observed,
                },
                None => Outcome::nothing(),
            },
        ),
        _ => Step::Ignore,
    }
}

fn read(job: &Job, event: Event) -> (r: Step)
    ensures
        r == read_back(*job, event),
{
    match event {
        Event::Level(level) => {
            let volume = match level {
                Some((level, muted)) => volume_reading(&job.name, level, muted),
                None => None,
            };
            Step::Finish {
                result: Ok(Outcome { volume, notice: None, settle: false, observed_db: None }),
                forget: false,
            }
        },
        Event::Status(status) => {
            let scale = match &job.integration {
                Some(integration) => DbScale::of(integration),
                None => None,
            };
            let outcome = match plugin_level(&job.name, status, scale) {
                Some((reading, observed)) => Outcome {
                    volume: Some(reading),
                    notice: None,
                    settle: false,
                    observed_db: observed,
                },
                None => Outcome::default(),
            };
            Step::Finish { result: Ok(outcome), forget: false }
        },
        _ => Step::Ignore,
    }
}

/// What follows a power command that went by a way of its own.
pub open spec fn switched(event: Event) -> Step {
    match event {
        Event::Done => taken(Outcome::nothing()),
        Event::Failed(why) => refused(Reason::Said(why)),
        _ => Step::Ignore,
    }
}

/// What follows an event in a stage of a press.
pub open spec fn next(job: Job, stage: Stage, event: Event) -> Step {
    match stage {
        Stage::Start => match event {
            Event::Begin { kept } => begun(job, kept),
            _ => Step::Ignore,
        },
        Stage::Loading => loaded(job, event),
        Stage::Connecting => connected(job, event),
        Stage::Asking => asked(job, event),
        Stage::Sending => sent(job, event),
        Stage::Switching => switched(event),
        Stage::Reading => read_back(job, event),
    }
}

/// Take a press one event further.
pub fn send_network(job: &Job, stage: Stage, event: Event) -> (r: Step)
    ensures
        r == next(*job, stage, event),
{
    match stage {
        Stage::Start => match event {
            Event::Begin { kept } => start(job, kept),
            _ => Step::Ignore,
        },
        Stage::Loading => load(job, event),
        Stage::Connecting => connect(job, event),
        Stage::Asking => ask(job, event),
        Stage::Sending => send(job, event),
        Stage::Switching => match event {
            Event::Done => Step::Finish { result: Ok(Outcome::default()), forget: false },
            Event::Failed(why) => Step::Finish {
                result: Err(Failure::Command(Reason::Said(why))),
                forget: false,
            },
            _ => Step::Ignore,
        },
        Stage::Reading => read(job, event),
    }
}

/// Whether a stage lies after the command was handed to the device.
pub open spec fn command_is_out(stage: Stage) -> bool {
    stage == Stage::Sending || stage == Stage::Switching || stage == Stage::Reading
}

/// How far along a stage is.
pub open spec fn rank(stage: Stage) -> nat {
    match stage {
        Stage::Start => 0,
        Stage::Loading => 1,
        Stage::Connecting => 2,
        Stage::Asking => 3,
        Stage::Sending => 4,
        Stage::Switching => 4,
        Stage::Reading => 5,
    }
}

/// A press only ever moves forward, so it comes to an end, and the command is
/// handed to the device at most once: nothing that follows it sends anything
/// but the question for the level.
pub proof fn a_press_moves_forward_and_sends_once(job: Job, stage: Stage, event: Event)
    ensures
        next(job, stage, event) matches Step::Do { call, stage: later } ==> {
            &&& rank(stage) < rank(later)
            &&& command_is_out(stage) ==> later == Stage::Reading && (call == Call::SonosLevel
                || call == Call::KodiLevel || call == Call::WebOsLevel || call
                == Call::PluginStatus)
        },
{
}

/// Once a command is out, only a package's own word that nothing was done hands
/// the key to the next transport: everything else that fails ends the press.
pub proof fn a_refused_command_is_never_sent_another_way(job: Job, stage: Stage, event: Event)
    requires
        command_is_out(stage),
        next(job, stage, event) matches Step::Finish { result: Err(Failure::Unavailable(_)), .. },
    ensures
        event matches Event::PluginFailed(failure) && crate::commands::falls_through(failure.code),
{
}

/// A level that cannot be read back never turns a command that was taken into a
/// failure.
pub proof fn an_unread_level_leaves_the_command_taken(job: Job, event: Event)
    ensures
        next(job, Stage::Reading, event) matches Step::Finish { result, .. } ==> result is Ok,
{
}

/// The commands that Kodi has.
pub open spec fn kodi_has(function: Function) -> bool {
    match function {
        Function::Okay => true,
        Function::Up => true,
        Function::Down => true,
        Function::Left => true,
        Function::Right => true,
        Function::Back => true,
        Function::Home => true,
        Function::Menu => true,
        Function::VolumeUp => true,
        Function::VolumeDown => true,
        Function::Volume(_) => true,
        Function::Mute => true,
        Function::PlayPause => true,
        Function::Stop => true,
        Function::Next => true,
        Function::Previous => true,
        _ => false,
    }
}

/// A command that Kodi does not have is sent to no box, and the key is left to
/// the next transport; one that it has never is.
pub proof fn kodi_is_never_sent_what_it_does_not_have(job: Job)
    requires
        job.integration matches Some(i) && i is Kodi,
    ensures
        if kodi_has(job.command.function) {
            next(job, Stage::Connecting, Event::Connected) is Do
        } else {
            next(job, Stage::Connecting, Event::Connected) == unavailable(
                Reason::KodiLacks(job.command.id),
            )
        },
{
}

/// Whether a step performs a call in a stage.
pub open spec fn does(step: Step, call: Call, stage: Stage) -> bool {
    step matches Step::Do { call: c, stage: s } && c == call && s == stage
}

/// Whether a step ends the press as one that the device refused, with its client
/// kept.
pub open spec fn ends_refused(step: Step, reason: Reason) -> bool {
    step matches Step::Finish { result: Err(Failure::Command(why)), forget } && why == reason
        && !forget
}

/// Whether a step leaves the key to the next transport.
pub open spec fn passes_on(step: Step, reason: Reason) -> bool {
    step matches Step::Finish { result: Err(Failure::Unavailable(why)), forget } && why == reason
        && !forget
}

/// Whether a step ends the press as one that the device took, with nothing to
/// show.
pub open spec fn ends_quietly(step: Step) -> bool {
    step matches Step::Finish { result: Ok(outcome), forget } && !forget && outcome.volume is None
        && outcome.notice is None && !outcome.settle && outcome.observed_db is None
}

/// A toggle always sends the opposite of what was read, and nothing to a light
/// that does not say what it is.
pub proof fn a_toggle_sends_the_opposite_of_what_was_read(job: Job, on: bool)
    ensures
        job.integration matches Some(i) && i is Hue ==> {
            &&& next(job, Stage::Asking, Event::Light(Some(on))) matches Step::Do { call, stage }
            &&& stage == Stage::Sending
            &&& call matches Call::HuePower(sent) && sent != on
        },
        job.integration matches Some(i) && i is HomeAssistant ==> {
            &&& next(job, Stage::Asking, Event::Light(Some(on))) matches Step::Do { call, stage }
            &&& stage == Stage::Sending
            &&& call matches Call::HomeAssistantPower(sent) && sent != on
        },
        job.integration matches Some(i) && i is Hue ==> ends_refused(
            next(job, Stage::Asking, Event::Light(None)),
            Reason::HueUnavailable,
        ),
        job.integration matches Some(i) && i is HomeAssistant ==> ends_refused(
            next(job, Stage::Asking, Event::Light(None)),
            Reason::HomeAssistantUnavailable,
        ),
{
}

/// A light is told what its key says: on and off switch it that way, a level is
/// the level of the key, and any other key is decided by what the light says.
pub proof fn a_light_is_told_what_its_key_says(job: Job, kept: bool)
    ensures
        job.integration matches Some(i) && i is Hue ==> {
            let step = next(job, Stage::Connecting, Event::Connected);
            match job.command.function {
                Function::On => does(step, Call::HuePower(true), Stage::Sending),
                Function::Off => does(step, Call::HuePower(false), Stage::Sending),
                Function::Dim(percent) => does(step, Call::HueBrightness(percent), Stage::Sending),
                _ => does(step, Call::HueState, Stage::Asking),
            }
        },
        job.integration matches Some(i) && i is HomeAssistant ==> {
            let step = next(job, Stage::Connecting, Event::Connected);
            match job.command.function {
                Function::On => does(step, Call::HomeAssistantPower(true), Stage::Sending),
                Function::Off => does(step, Call::HomeAssistantPower(false), Stage::Sending),
                Function::Dim(percent) => does(
                    step,
                    Call::HomeAssistantBrightness(percent),
                    Stage::Sending,
                ),
                Function::Toggle => does(step, Call::HomeAssistantState, Stage::Asking),
                _ => true,
            }
        },
        job.integration matches Some(i) && i is Matter ==> {
            let step = next(job, Stage::Start, Event::Begin { kept });
            match job.command.function {
                Function::On => does(step, Call::MatterPower(true), Stage::Sending),
                Function::Off => does(step, Call::MatterPower(false), Stage::Sending),
                Function::Dim(percent) => does(
                    step,
                    Call::MatterBrightness(percent),
                    Stage::Sending,
                ),
                _ => does(step, Call::MatterToggleOrOn, Stage::Sending),
            }
        },
{
}

/// A cover is sent the command of its key's own name, and a thermostat's target
/// moves by one step the way that its key says, from where it was read.
pub proof fn a_cover_and_a_thermostat_follow_their_keys(job: Job)
    requires
        job.integration matches Some(i) && i is HomeAssistant,
    ensures
        ({
            let step = next(job, Stage::Connecting, Event::Connected);
            match job.command.function {
                Function::Open => does(
                    step,
                    Call::HomeAssistantCover(CoverCommand::Open),
                    Stage::Sending,
                ),
                Function::Close => does(
                    step,
                    Call::HomeAssistantCover(CoverCommand::Close),
                    Stage::Sending,
                ),
                Function::Stop => does(
                    step,
                    Call::HomeAssistantCover(CoverCommand::Stop),
                    Stage::Sending,
                ),
                Function::Position(percent) => does(
                    step,
                    Call::HomeAssistantCover(CoverCommand::Position(percent)),
                    Stage::Sending,
                ),
                Function::Mode(_) => does(step, Call::HomeAssistantMode, Stage::Sending),
                Function::TemperatureUp => step matches Step::Do {
                    call: Call::HomeAssistantTarget(by),
                    stage: Stage::Asking,
                } && by == 1,
                Function::TemperatureDown => step matches Step::Do {
                    call: Call::HomeAssistantTarget(by),
                    stage: Stage::Asking,
                } && by == -1,
                _ => true,
            }
        }),
        does(
            next(job, Stage::Asking, Event::Done),
            Call::HomeAssistantApply,
            Stage::Sending,
        ),
{
}

/// The method that a key of a Kodi box is sent as, by its name on the wire, and
/// the value of its one parameter; nothing for a key that is sent otherwise.
pub open spec fn on_the_wire(step: Step) -> Option<(Seq<char>, Option<(Seq<char>, Seq<char>)>)> {
    match step {
        Step::Do { call: Call::KodiMethod(method, params), stage: Stage::Sending } => Some(
            (method.spec_name(), params.spec_pair()),
        ),
        Step::Do { call: Call::KodiPlayer(_, method, params), stage: Stage::Sending } => Some(
            (method.spec_name(), params.spec_pair()),
        ),
        _ => None,
    }
}

/// A key of a Kodi box goes out as the method of that key, under the name that
/// Kodi has for it.
pub proof fn kodi_is_sent_the_method_of_the_key(job: Job)
    requires
        job.integration matches Some(i) && i is Kodi,
    ensures
        ({
            let step = next(job, Stage::Connecting, Event::Connected);
            match job.command.function {
                Function::Up => on_the_wire(step) == Some(
                    ("Input.Up"@, None::<(Seq<char>, Seq<char>)>),
                ),
                Function::Down => on_the_wire(step) == Some(
                    ("Input.Down"@, None::<(Seq<char>, Seq<char>)>),
                ),
                Function::Left => on_the_wire(step) == Some(
                    ("Input.Left"@, None::<(Seq<char>, Seq<char>)>),
                ),
                Function::Right => on_the_wire(step) == Some(
                    ("Input.Right"@, None::<(Seq<char>, Seq<char>)>),
                ),
                Function::Back => on_the_wire(step) == Some(
                    ("Input.Back"@, None::<(Seq<char>, Seq<char>)>),
                ),
                Function::Home => on_the_wire(step) == Some(
                    ("Input.Home"@, None::<(Seq<char>, Seq<char>)>),
                ),
                Function::Menu => on_the_wire(step) == Some(
                    ("Input.ContextMenu"@, None::<(Seq<char>, Seq<char>)>),
                ),
                Function::VolumeUp => on_the_wire(step) == Some(
                    ("Application.SetVolume"@, Some(("volume"@, "increment"@))),
                ),
                Function::VolumeDown => on_the_wire(step) == Some(
                    ("Application.SetVolume"@, Some(("volume"@, "decrement"@))),
                ),
                Function::Mute => on_the_wire(step) == Some(
                    ("Application.SetMute"@, Some(("mute"@, "toggle"@))),
                ),
                Function::Okay => does(step, Call::KodiSelect, Stage::Sending),
                Function::Volume(percent) => does(
                    step,
                    Call::KodiSetVolume(percent),
                    Stage::Sending,
                ),
                Function::PlayPause => does(step, Call::KodiPlayback, Stage::Asking),
                Function::Stop => does(step, Call::KodiPlayback, Stage::Asking),
                Function::Next => does(step, Call::KodiPlayback, Stage::Asking),
                Function::Previous => does(step, Call::KodiPlayback, Stage::Asking),
                _ => passes_on(step, Reason::KodiLacks(job.command.id)),
            }
        }),
{
}

/// A transport key goes to the player that is active, as the method of that key,
/// and nowhere where nothing plays.
pub proof fn kodi_plays_on_the_active_player(job: Job, player: i64)
    requires
        job.integration matches Some(i) && i is Kodi,
    ensures
        ({
            let step = next(job, Stage::Asking, Event::Playing(Some(player)));
            &&& step matches Step::Do { call: Call::KodiPlayer(to, _, _), .. } ==> to == player
            &&& match job.command.function {
                Function::PlayPause => on_the_wire(step) == Some(
                    ("Player.PlayPause"@, None::<(Seq<char>, Seq<char>)>),
                ),
                Function::Stop => on_the_wire(step) == Some(
                    ("Player.Stop"@, None::<(Seq<char>, Seq<char>)>),
                ),
                Function::Next => on_the_wire(step) == Some(
                    ("Player.GoTo"@, Some(("to"@, "next"@))),
                ),
                Function::Previous => on_the_wire(step) == Some(
                    ("Player.GoTo"@, Some(("to"@, "previous"@))),
                ),
                _ => step is Ignore,
            }
        }),
        ends_refused(next(job, Stage::Asking, Event::Playing(None)), Reason::KodiIdle),
{
}

/// A Kodi box is spoken to over HTTP just where settings with HTTP control are
/// saved for its own host.
pub proof fn kodi_goes_over_http_only_to_its_own_host(job: Job, saved: Option<KodiSaved>)
    requires
        job.integration matches Some(i) && i is Kodi,
    ensures
        ({
            let host = job.integration->0->Kodi_host;
            let step = next(job, Stage::Loading, Event::KodiSaved(saved));
            let own = saved matches Some(s) && s.http_control && s.host@ == host@;
            &&& own ==> does(step, Call::KodiOpen(KodiRoute::Http), Stage::Connecting)
            &&& !own ==> does(step, Call::KodiOpen(KodiRoute::Tcp), Stage::Connecting)
        }),
{
}

/// A press begins with the call of its own kind of device. One without a network
/// is left to the next transport; one that takes no keys ends.
pub proof fn a_press_begins_with_its_own_kind(job: Job, kept: bool)
    ensures
        ({
            let step = next(job, Stage::Start, Event::Begin { kept });
            let tv = |kind: Streaming|
                if job.connection@.len() == 0 {
                    ends_refused(step, Reason::NamedConnection)
                } else {
                    does(step, Call::StreamingLoad(kind), Stage::Loading)
                };
            match job.integration {
                None => passes_on(step, Reason::NoNetwork),
                Some(Integration::Legacy { needs_package }) => passes_on(
                    step,
                    Reason::Said(needs_package),
                ),
                Some(Integration::UnifiProtect { .. }) => ends_refused(step, Reason::CannotSend),
                Some(Integration::Other) => ends_refused(step, Reason::CannotSend),
                Some(Integration::Sonos { .. }) => !kept ==> does(
                    step,
                    Call::SonosConnect,
                    Stage::Connecting,
                ),
                Some(Integration::Kodi { .. }) => does(step, Call::KodiLoad, Stage::Loading),
                Some(Integration::Hue { .. }) => does(step, Call::HueOpen, Stage::Connecting),
                Some(Integration::HomeAssistant { .. }) => does(
                    step,
                    Call::HomeAssistantOpen,
                    Stage::Connecting,
                ),
                Some(Integration::Plugin { .. }) => does(step, Call::PluginKey, Stage::Sending),
                Some(Integration::AndroidTv) => tv(Streaming::AndroidTv),
                Some(Integration::AppleTv) => tv(Streaming::AppleTv),
                Some(Integration::Tizen) => tv(Streaming::Tizen),
                Some(Integration::WebOs) => match job.command.function {
                    Function::PowerOn => does(step, Call::WebOsPower, Stage::Loading),
                    Function::PowerOff => does(step, Call::WebOsPower, Stage::Loading),
                    Function::Toggle => does(step, Call::WebOsPower, Stage::Loading),
                    _ => if kept {
                        does(step, Call::WebOsCommand, Stage::Sending)
                    } else {
                        does(step, Call::WebOsConnect, Stage::Connecting)
                    },
                },
                _ => true,
            }
        }),
{
}

/// A Sonos key is one call whether or not the client was kept: the key's own
/// level, or the command's word.
pub proof fn a_speaker_is_sent_the_keys_own_level(job: Job)
    requires
        job.integration matches Some(i) && i is Sonos,
    ensures
        next(job, Stage::Start, Event::Begin { kept: true }) == next(
            job,
            Stage::Connecting,
            Event::Connected,
        ),
        match job.command.function {
            Function::Volume(percent) => does(
                next(job, Stage::Connecting, Event::Connected),
                Call::SonosVolume(percent),
                Stage::Sending,
            ),
            _ => does(
                next(job, Stage::Connecting, Event::Connected),
                Call::SonosCommand,
                Stage::Sending,
            ),
        },
        ends_refused(
            next(job, Stage::Connecting, Event::BadAddress),
            Reason::SonosAddress,
        ),
{
}

/// The kind of client that a streaming television has.
pub open spec fn is_television(job: Job, kind: Streaming) -> bool {
    job.integration matches Some(i) && match kind {
        Streaming::AndroidTv => i is AndroidTv,
        Streaming::AppleTv => i is AppleTv,
        Streaming::Tizen => i is Tizen,
    }
}

/// A television is only ever spoken to with credentials of its own kind, and is
/// sent the key over the client that is kept, or over a new one.
pub proof fn a_television_needs_credentials_of_its_own_kind(
    job: Job,
    kind: Streaming,
    found: Option<Streaming>,
    kept: bool,
    why: String,
)
    requires
        is_television(job, kind),
    ensures
        ({
            let step = next(job, Stage::Loading, Event::Credentials { kind: found, kept });
            if found != Some(kind) {
                ends_refused(step, Reason::WrongProvider)
            } else if kept {
                does(step, Call::StreamingCommand(kind), Stage::Sending)
            } else {
                does(step, Call::StreamingConnect(kind), Stage::Connecting)
            }
        }),
        ends_refused(next(job, Stage::Loading, Event::Failed(why)), Reason::PairFirst),
        does(
            next(job, Stage::Connecting, Event::Connected),
            Call::StreamingCommand(kind),
            Stage::Sending,
        ),
{
}

/// A webOS television's power goes by infrared where that is the saved way, and
/// then as the code of the key's own name; else on wakes it, a toggle turns it
/// over, and off goes over its connection.
pub proof fn a_webos_power_key_goes_its_own_way(job: Job, ir: bool, kept: bool)
    requires
        job.integration == Some(Integration::WebOs),
    ensures
        ({
            let step = next(job, Stage::Loading, Event::PowerMethod { ir, kept });
            let sent = step matches Step::Do { call: Call::WebOsTransmit(code), stage: Stage::Switching };
            let word = step->call->WebOsTransmit_0.spec_name();
            match job.command.function {
                Function::PowerOn => if ir {
                    sent && word == "power-on"@
                } else {
                    does(step, Call::WebOsWake, Stage::Switching)
                },
                Function::PowerOff => if ir {
                    sent && word == "power-off"@
                } else if kept {
                    does(step, Call::WebOsCommand, Stage::Sending)
                } else {
                    does(step, Call::WebOsConnect, Stage::Connecting)
                },
                Function::Toggle => if ir {
                    sent && word == "power"@
                } else {
                    does(step, Call::WebOsTogglePower, Stage::Switching)
                },
                _ => step is Ignore,
            }
        }),
        does(
            next(job, Stage::Connecting, Event::Connected),
            Call::WebOsCommand,
            Stage::Sending,
        ),
        ends_quietly(next(job, Stage::Switching, Event::Done)),
{
}

/// A client that cannot connect leaves the key to the next transport, except
/// where lights are switched: there the failure is said.
pub proof fn a_failed_connection_falls_through(job: Job, why: String)
    ensures
        ({
            let step = next(job, Stage::Connecting, Event::Failed(why));
            if job.integration matches Some(i) && (i is Hue || i is HomeAssistant) {
                ends_refused(step, Reason::Said(why))
            } else {
                passes_on(step, Reason::Said(why))
            }
        }),
        ends_refused(next(job, Stage::Asking, Event::Failed(why)), Reason::Said(why)),
        ends_refused(next(job, Stage::Switching, Event::Failed(why)), Reason::Said(why)),
{
}

/// Only a sound key is followed by a question for the level, and that goes to the
/// device that took the key; any other key that was taken ends the press.
pub proof fn only_a_sound_key_reads_the_level_back(job: Job)
    requires
        job.integration matches Some(i) && !(i is Plugin),
    ensures
        ({
            let step = next(job, Stage::Sending, Event::Done);
            let sound = match job.command.function {
                Function::VolumeUp => true,
                Function::VolumeDown => true,
                Function::Volume(_) => true,
                Function::Mute => true,
                Function::MuteOn => true,
                Function::MuteOff => true,
                _ => false,
            };
            match job.integration {
                Some(Integration::Sonos { .. }) if sound => does(
                    step,
                    Call::SonosLevel,
                    Stage::Reading,
                ),
                Some(Integration::Kodi { .. }) if sound => does(
                    step,
                    Call::KodiLevel,
                    Stage::Reading,
                ),
                Some(Integration::WebOs) if sound => does(step, Call::WebOsLevel, Stage::Reading),
                _ => ends_quietly(step),
            }
        }),
{
}

/// A command that failed ends the press with what the device said. The session of
/// a television is dropped with it; a speaker's is unless the press was abandoned
/// or was no command of it.
pub proof fn a_failed_command_says_why(job: Job, error: SonosError, why: String)
    requires
        job.integration matches Some(i) && !(i is Plugin),
    ensures
        ({
            let i = job.integration->0;
            let step = if i is Sonos {
                next(job, Stage::Sending, Event::SonosFailed { error, why })
            } else {
                next(job, Stage::Sending, Event::Failed(why))
            };
            let drops = if i is Sonos {
                !(error is Cancelled) && !(error is Command)
            } else {
                i is WebOs || i is AndroidTv || i is AppleTv || i is Tizen
            };
            step matches Step::Finish { result: Err(Failure::Command(said)), forget } && said
                == Reason::Said(why) && forget == drops
        }),
{
}

/// A package's sound key reads the level at once, or leaves it owed while the key
/// is held; what it refuses for good ends the press, and what it could not be
/// asked is left to the next transport.
pub proof fn a_package_takes_or_refuses_a_key(job: Job, failure: PluginFailure)
    requires
        job.integration matches Some(i) && i is Plugin,
    ensures
        ({
            let step = next(job, Stage::Sending, Event::PluginOk);
            match job.command.function {
                Function::VolumeUp | Function::VolumeDown | Function::Volume(_) | Function::Mute
                | Function::MuteOn | Function::MuteOff => if job.phase == KeyPhase::Repeat {
                    step matches Step::Finish { result: Ok(outcome), forget } && outcome.settle
                        && outcome.volume is None && outcome.notice is None && !forget
                } else {
                    does(step, Call::PluginStatus, Stage::Reading)
                },
                _ => ends_quietly(step),
            }
        }),
        ends_refused(
            next(job, Stage::Sending, Event::PluginOther),
            Reason::InvalidCommandResponse,
        ),
        match failure.code {
            crate::commands::PluginCode::Transport | crate::commands::PluginCode::Timeout
            | crate::commands::PluginCode::Busy | crate::commands::PluginCode::Expired => passes_on(
                next(job, Stage::Sending, Event::PluginFailed(failure)),
                Reason::Refused(failure),
            ),
            _ => ends_refused(
                next(job, Stage::Sending, Event::PluginFailed(failure)),
                Reason::Refused(failure),
            ),
        },
{
}

/// The level that is read back is shown for the device of the press, within its
/// bounds, and as muted just where it is; without one there is nothing to show.
pub proof fn a_level_is_shown_as_it_was_read(job: Job, level: Option<i64>, muted: bool)
    ensures
        ({
            let step = next(job, Stage::Reading, Event::Level(Some((level, muted))));
            match level {
                None => ends_quietly(step),
                Some(level) => {
                    &&& step matches Step::Finish { result: Ok(outcome), forget }
                    &&& !forget && outcome.notice is None && !outcome.settle
                    &&& outcome.volume matches Some(shown)
                    &&& shown.target == job.name
                    &&& 0 <= level <= 100 ==> shown.level == level
                    &&& level < 0 ==> shown.level == 0
                    &&& level > 100 ==> shown.level == 100
                    &&& shown.text == if muted {
                        crate::commands::VolumeText::Muted
                    } else {
                        crate::commands::VolumeText::Nothing
                    }
                },
            }
        }),
        ends_quietly(next(job, Stage::Reading, Event::Level(None))),
        ends_quietly(next(job, Stage::Reading, Event::Status(None))),
{
}

/// A television's credentials and clients are filed under a word of their own
/// kind.
pub proof fn a_television_is_filed_under_its_kind()
    ensures
        Streaming::AndroidTv.spec_name() == "androidtv"@,
        Streaming::AppleTv.spec_name() == "appletv"@,
        Streaming::Tizen.spec_name() == "tizen"@,
{
}

/// Settings that cannot be read end a press on the television that they are of,
/// and an address that cannot be used one on a speaker.
pub proof fn what_a_connection_lacks_ends_the_press(job: Job, why: String)
    ensures
        job.integration == Some(Integration::WebOs) ==> ends_refused(
            connected(job, Event::SettingsFailed(why)),
            Reason::Said(why),
        ),
        (job.integration matches Some(i) && i is Sonos) ==> ends_refused(
            connected(job, Event::BadAddress),
            Reason::SonosAddress,
        ),
        job.integration != Some(Integration::WebOs) ==> connected(
            job,
            Event::SettingsFailed(why),
        ) is Ignore,
{
}

} // verus!
