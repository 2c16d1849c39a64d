//! The camera screen: which camera a row is, when its stream starts and ends,
//! and what the screen says meanwhile.
//!
//! One stream at a time, and only while its screen can be seen. The caller runs
//! the stream that [`Cameras::poll`] asks for.
use crate::commands::{PluginCode, PluginFailure};
use crate::connections::given;
use crate::lights::{bare, bare_device};
use crate::model::{ChildComponent, Config, Device, Integration};
use crate::text::{after, first_of, split_once};
use vstd::prelude::*;

verus! {

/// How long a view lasts, in milliseconds.
pub const VIEW_MS: u64 = 60000;

/// What the screen says of a row that names no camera, or one whose connection
/// is not set up.
pub const NOT_SET_UP: &'static str = "Set up this camera in the web app.";

/// A camera, by its connection and its name there.
#[derive(Debug)]
pub enum CameraTarget {
    BuiltIn { connection: String, resource: String },
    Package { connection: String, resource: String },
}

/// A camera, as it is described.
#[verifier::ext_equal]
pub struct Aim {
    pub package: bool,
    pub connection: Seq<char>,
    pub resource: Seq<char>,
}

impl View for CameraTarget {
    type V = Aim;

    open spec fn view(&self) -> Aim {
        match *self {
            CameraTarget::BuiltIn { connection, resource } => Aim {
                package: false,
                connection: connection@,
                resource: resource@,
            },
            CameraTarget::Package { connection, resource } => Aim {
                package: true,
                connection: connection@,
                resource: resource@,
            },
        }
    }
}

/// The camera that a device is, if it is one: a Protect camera by its
/// connection and name, or a packaged child that is declared to be a camera.
pub open spec fn aimed_at(device: Device) -> Option<Aim> {
    match device.integration {
        Some(Integration::UnifiProtect { camera }) => {
            let n = first_of(camera@, '/');
            if n < camera@.len() {
                Some(
                    Aim {
                        package: false,
                        connection: camera@.subrange(0, n as int),
                        resource: after(camera@, n + 1),
                    },
                )
            } else {
                None
            }
        },
        Some(Integration::Plugin { connection_id, resource_id, child, .. }) => {
            if child is Some && device.component == Some(ChildComponent::Camera) {
                Some(Aim { package: true, connection: connection_id@, resource: resource_id@ })
            } else {
                None
            }
        },
        _ => None,
    }
}

/// What a target is described as, if there is one.
pub open spec fn aim_of(target: Option<CameraTarget>) -> Option<Aim> {
    match target {
        Some(t) => Some(t@),
        None => None,
    }
}

/// The camera that a device is, if it is one.
pub fn target(device: &Device) -> (r: Option<CameraTarget>)
    ensures
        aim_of(r) == aimed_at(*device),
{
    match &device.integration {
        Some(integration) => match integration {
            Integration::UnifiProtect { camera } => match split_once(camera.as_str(), '/') {
                Some((connection, resource)) => Some(
                    CameraTarget::BuiltIn {
                        connection: connection.to_owned(),
                        resource: resource.to_owned(),
                    },
                ),
                None => None,
            },
            Integration::Plugin { connection_id, resource_id, child, .. } => {
                let camera = match device.component {
                    Some(component) => component == ChildComponent::Camera,
                    None => false,
                };
                if child.is_some() && camera {
                    Some(
                        CameraTarget::Package {
                            connection: connection_id.clone(),
                            resource: resource_id.clone(),
                        },
                    )
                } else {
                    None
                }
            },
            _ => None,
        },
        None => None,
    }
}

/// How far a stream is.
#[derive(Clone, Copy, PartialEq, Eq, Structural, Debug)]
pub enum Status {
    Connecting,
    Playing,
    Ended,
    Unavailable,
}

/// How a stream that has stopped ended: a view that was left, or whose time was
/// over, has not failed.
pub fn final_status(succeeded: bool, cancelled: bool, now: u64, deadline: u64) -> (r: Status)
    ensures
        r == if succeeded || cancelled || now >= deadline {
            Status::Ended
        } else {
            Status::Unavailable
        },
        r is Unavailable <==> !succeeded && !cancelled && now < deadline,
        r is Ended || r is Unavailable,
{
    if succeeded || cancelled || now >= deadline {
        Status::Ended
    } else {
        Status::Unavailable
    }
}

/// Why a package's stream could not be shown.
#[derive(Debug)]
pub enum PackageFailure {
    Open(PluginFailure),
    Decoder,
    Stream(PluginCode),
}

/// What a package's stream waits for.
#[derive(Clone, Copy, PartialEq, Eq, Structural, Debug)]
pub enum StreamStage {
    /// The camera, to be opened.
    Opening,
    /// The means to interrupt it.
    Arming,
    /// The decoder, to be started.
    Decoding,
    /// The camera's next record.
    Reading,
    /// The decoder, to take that record.
    Writing,
}

/// What came of it.
#[derive(Debug)]
pub enum StreamEvent {
    Ready,
    Refused(PluginFailure),
    Broke(PluginCode),
    Failed,
    Record,
    Ended,
}

/// What a package's stream does next.
#[derive(Debug)]
pub enum StreamStep {
    Go(StreamStage),
    Finish(Result<(), PackageFailure>),
    /// The event belongs to another stage.
    Ignore,
}

/// The next record, unless the view was left.
pub open spec fn next_record(stopped: bool) -> StreamStep {
    if stopped {
        StreamStep::Finish(Ok(()))
    } else {
        StreamStep::Go(StreamStage::Reading)
    }
}

/// What follows an event in a stage of a package's stream.
pub open spec fn stream_next(stage: StreamStage, event: StreamEvent, stopped: bool) -> StreamStep {
    match (stage, event) {
        (StreamStage::Opening, StreamEvent::Ready) => StreamStep::Go(StreamStage::Arming),
        (StreamStage::Opening, StreamEvent::Refused(failure)) => StreamStep::Finish(
            Err(PackageFailure::Open(failure)),
        ),
        (StreamStage::Arming, StreamEvent::Ready) => if stopped {
            StreamStep::Finish(Ok(()))
        } else {
            StreamStep::Go(StreamStage::Decoding)
        },
        (StreamStage::Arming, StreamEvent::Broke(code)) => StreamStep::Finish(
            Err(PackageFailure::Stream(code)),
        ),
        (StreamStage::Decoding, StreamEvent::Ready) => next_record(stopped),
        (StreamStage::Decoding, StreamEvent::Failed) => StreamStep::Finish(
            Err(PackageFailure::Decoder),
        ),
        (StreamStage::Reading, StreamEvent::Record) => StreamStep::Go(StreamStage::Writing),
        (StreamStage::Reading, StreamEvent::Ended) => StreamStep::Finish(Ok(())),
        (StreamStage::Reading, StreamEvent::Broke(code)) => StreamStep::Finish(
            Err(PackageFailure::Stream(code)),
        ),
        (StreamStage::Writing, StreamEvent::Ready) => next_record(stopped),
        (StreamStage::Writing, StreamEvent::Failed) => StreamStep::Finish(
            Err(PackageFailure::Decoder),
        ),
        _ => StreamStep::Ignore,
    }
}

/// Run a package's stream: records go from the camera to the decoder until
/// either ends or the view is left, which `stopped` says.
pub fn package_stream(stage: StreamStage, event: StreamEvent, stopped: bool) -> (r: StreamStep)
    ensures
        r == stream_next(stage, event, stopped),
{
    match (stage, event) {
        (StreamStage::Opening, StreamEvent::Ready) => StreamStep::Go(StreamStage::Arming),
        (StreamStage::Opening, StreamEvent::Refused(failure)) => StreamStep::Finish(
            Err(PackageFailure::Open(failure)),
        ),
        (StreamStage::Arming, StreamEvent::Ready) => if stopped {
            StreamStep::Finish(Ok(()))
        } else {
            StreamStep::Go(StreamStage::Decoding)
        },
        (StreamStage::Decoding, StreamEvent::Ready) | (StreamStage::Writing, StreamEvent::Ready)
        => if stopped {
            StreamStep::Finish(Ok(()))
        } else {
            StreamStep::Go(StreamStage::Reading)
        },
        (StreamStage::Decoding, StreamEvent::Failed) | (StreamStage::Writing, StreamEvent::Failed)
        => StreamStep::Finish(Err(PackageFailure::Decoder)),
        (StreamStage::Arming, StreamEvent::Broke(code)) | (
            StreamStage::Reading,
            StreamEvent::Broke(code),
        ) => StreamStep::Finish(Err(PackageFailure::Stream(code))),
        (StreamStage::Reading, StreamEvent::Record) => StreamStep::Go(StreamStage::Writing),
        (StreamStage::Reading, StreamEvent::Ended) => StreamStep::Finish(Ok(())),
        _ => StreamStep::Ignore,
    }
}

/// Once a view is left nothing more is started or read for it, and a record
/// goes to the decoder only after it was read.
pub proof fn a_stream_that_was_left_reads_no_more(stage: StreamStage, event: StreamEvent)
    ensures
        stream_next(stage, event, true) matches StreamStep::Go(next) ==> next is Arming
            || next is Writing,
        forall|stopped: bool|
            (#[trigger] stream_next(stage, event, stopped)) == StreamStep::Go(StreamStage::Writing)
                ==> stage is Reading && event is Record,
{
}

/// Why a Protect camera's stream could not be shown: the stage at which it
/// failed.
#[derive(Clone, Copy, PartialEq, Eq, Structural, Debug)]
pub enum Failure {
    Setup,
    /// Getting the stream's address; whether the camera has its low-quality
    /// stream switched off.
    Descriptor { not_enabled: bool },
    Media,
    Decoder,
    Stream,
}

/// What the screen says while a stream goes as it should.
pub open spec fn status_text(status: Status) -> Seq<char> {
    match status {
        Status::Connecting => "Connecting securely…"@,
        Status::Playing => "LIVE · Low quality · View closes after 60 seconds"@,
        Status::Ended => "View ended. Go back and open the camera to watch again."@,
        Status::Unavailable => "Camera unavailable."@,
    }
}

fn status_message(status: Status) -> (r: &'static str)
    ensures
        r@ == status_text(status),
{
    match status {
        Status::Connecting => "Connecting securely…",
        Status::Playing => "LIVE · Low quality · View closes after 60 seconds",
        Status::Ended => "View ended. Go back and open the camera to watch again.",
        Status::Unavailable => "Camera unavailable.",
    }
}

/// What the screen says of a package's failure. A package that says why itself
/// is quoted.
pub open spec fn package_text(failure: Option<PackageFailure>) -> Seq<char> {
    match failure {
        Some(PackageFailure::Open(failure)) => if failure.code == PluginCode::Unpaired {
            "Reconnect this NVR in the Couch web app."@
        } else {
            match failure.reason {
                Some(reason) => if reason@.len() > 0 {
                    reason@
                } else {
                    "Could not open this camera integration."@
                },
                None => "Could not open this camera integration."@,
            }
        },
        Some(PackageFailure::Decoder) => "The camera decoder is unavailable."@,
        Some(PackageFailure::Stream(code)) => if code == PluginCode::Timeout {
            "The camera stream timed out."@
        } else {
            "The camera stream stopped."@
        },
        None => "Camera unavailable."@,
    }
}

/// What the screen says of a package's stream.
pub fn package_message(status: Status, failure: &Option<PackageFailure>) -> (r: String)
    ensures
        r@ == if status is Unavailable {
            package_text(*failure)
        } else {
            status_text(status)
        },
{
    match status {
        Status::Unavailable => {},
        _ => {
            return status_message(status).to_owned();
        },
    }
    match failure {
        Some(failure) => match failure {
            PackageFailure::Open(failure) => {
                match failure.code {
                    PluginCode::Unpaired => {
                        return "Reconnect this NVR in the Couch web app.".to_owned();
                    },
                    _ => {},
                }
                match &failure.reason {
                    Some(reason) => if reason.as_str().unicode_len() > 0 {
                        reason.clone()
                    } else {
                        "Could not open this camera integration.".to_owned()
                    },
                    None => "Could not open this camera integration.".to_owned(),
                }
            },
            PackageFailure::Decoder => "The camera decoder is unavailable.".to_owned(),
            PackageFailure::Stream(code) => match code {
                PluginCode::Timeout => "The camera stream timed out.".to_owned(),
                _ => "The camera stream stopped.".to_owned(),
            },
        },
        None => "Camera unavailable.".to_owned(),
    }
}

/// What the screen says of a Protect camera's failure: the stage at which it
/// failed, and no secret.
pub open spec fn stage_text(failure: Option<Failure>) -> Seq<char> {
    match failure {
        Some(Failure::Setup) => "Reconnect this NVR in the Couch web app."@,
        Some(Failure::Descriptor { not_enabled }) => if not_enabled {
            "Enable this camera's low-quality RTSPS stream in Protect."@
        } else {
            "Could not get this camera stream from the NVR."@
        },
        Some(Failure::Media) => "Could not open the NVR's secure camera stream."@,
        Some(Failure::Decoder) => "The camera decoder is unavailable."@,
        Some(Failure::Stream) => "The camera stream stopped."@,
        None => "Camera unavailable."@,
    }
}

/// What the screen says of a Protect camera's failure.
pub fn unavailable_message(failure: Option<Failure>) -> (r: &'static str)
    ensures
        r@ == stage_text(failure),
{
    match failure {
        Some(failure) => match failure {
            Failure::Setup => "Reconnect this NVR in the Couch web app.",
            Failure::Descriptor { not_enabled } => if not_enabled {
                "Enable this camera's low-quality RTSPS stream in Protect."
            } else {
                "Could not get this camera stream from the NVR."
            },
            Failure::Media => "Could not open the NVR's secure camera stream.",
            Failure::Decoder => "The camera decoder is unavailable.",
            Failure::Stream => "The camera stream stopped.",
        },
        None => "Camera unavailable.",
    }
}

/// What the screen says of a Protect camera's stream.
pub fn built_in_message(status: Status, failure: Option<Failure>) -> (r: &'static str)
    ensures
        r@ == if status is Unavailable {
            stage_text(failure)
        } else {
            status_text(status)
        },
{
    match status {
        Status::Unavailable => unavailable_message(failure),
        _ => status_message(status),
    }
}

/// What the camera screen depends on.
#[derive(Clone, Copy, PartialEq, Eq, Structural, Debug)]
pub struct Surroundings {
    /// Whether the display is on.
    pub awake: bool,
    /// Whether the camera screen is up.
    pub shown: bool,
    pub settings: bool,
    pub dock_clock: bool,
    /// The configuration that is in force.
    pub serial: Option<u64>,
}

/// What the caller does next.
#[derive(Debug)]
pub struct Plan {
    /// Take the camera screen down.
    pub close: bool,
    /// Stop the stream that runs, if one does, before anything else.
    pub stop: bool,
    /// Clear the picture.
    pub clear: bool,
    /// Start this stream.
    pub start: Option<CameraTarget>,
    /// Say that the camera is not set up.
    pub not_set_up: bool,
    /// Draw the latest picture, and say how the stream that runs goes.
    pub draw: bool,
}

/// The camera screen's own state.
#[derive(Debug)]
pub struct Cameras {
    /// The camera row that has been opened and is not streamed yet.
    pub pending: Option<String>,
    /// A Back that has been pressed and not performed yet.
    pub closing: bool,
    /// Whether a stream runs.
    pub playing: bool,
    /// The configuration that it was started under.
    pub serial: Option<u64>,
}

/// Whether the camera screen can be seen, once a Back that waits is performed.
pub open spec fn visible(c: Cameras, s: Surroundings) -> bool {
    s.awake && s.shown && !c.closing && !s.settings && !s.dock_clock
}

/// The camera that a row names, if the device is one.
pub open spec fn aim_for(config: Option<Config>, row: Seq<char>) -> Option<Aim> {
    match config {
        Some(config) => match config.spec_device(bare(row, "device:"@)) {
            Some(device) => aimed_at(device),
            None => None,
        },
        None => None,
    }
}

fn same_serial(a: Option<u64>, b: Option<u64>) -> (r: bool)
    ensures
        r == (a == b),
{
    match (a, b) {
        (Some(a), Some(b)) => a == b,
        (None, None) => true,
        _ => false,
    }
}

/// Whether a plan is the one for a screen and its surroundings, and leaves it in
/// a state.
pub open spec fn planned(
    before: Cameras,
    s: Surroundings,
    config: Option<Config>,
    after: Cameras,
    plan: Plan,
) -> bool {
    let outdated = before.playing && before.serial != s.serial;
    let up = s.shown && !before.closing;
    let opens = visible(before, s) && before.pending is Some;
    let aim = aim_for(config, before.pending->0@);
    &&& plan.close == before.closing
    &&& plan.clear == !visible(before, s)
    &&& plan.stop == (before.playing && (!visible(before, s) || opens))
    &&& aim_of(plan.start) == if opens {
        aim
    } else {
        None
    }
    &&& plan.not_set_up == (opens && aim is None)
    &&& plan.draw == after.playing
    &&& after.pending is None
    &&& after.closing == (outdated || !visible(before, s) && up)
    &&& after.playing == (visible(before, s) && (if opens {
        aim is Some
    } else {
        before.playing
    }))
    &&& after.serial == if opens {
        s.serial
    } else {
        before.serial
    }
}

impl Cameras {
    /// No camera is open.
    pub fn new() -> (r: Cameras)
        ensures
            r == (Cameras { pending: None, closing: false, playing: false, serial: None }),
    {
        Cameras { pending: None, closing: false, playing: false, serial: None }
    }

    /// A camera's row has been opened.
    pub fn open(&mut self, row: String)
        ensures
            *final(self) == (Cameras { pending: Some(row), ..*old(self) }),
    {
        self.pending = Some(row);
    }

    /// Back has been pressed.
    pub fn back(&mut self)
        ensures
            *final(self) == (Cameras { closing: true, ..*old(self) }),
    {
        self.closing = true;
    }

    /// Whether a Back waits to close the screen.
    pub fn navigation_pending(&self) -> (r: bool)
        ensures
            r == self.closing,
    {
        self.closing
    }

    /// Decide what to do now. A stream ends with its screen, and with the
    /// configuration that it was started under.
    pub fn poll(&mut self, s: Surroundings, config: Option<&Config>) -> (r: Plan)
        ensures
            planned(*old(self), s, given(config), *final(self), r),
    {
        let mut plan = Plan {
            close: self.closing,
            stop: false,
            clear: false,
            start: None,
            not_set_up: false,
            draw: false,
        };
        let up = s.shown && !self.closing;
        self.closing = self.playing && !same_serial(self.serial, s.serial);
        let pending = self.pending.take();
        if !s.awake || !up || s.settings || s.dock_clock {
            plan.stop = self.playing;
            plan.clear = true;
            self.playing = false;
            if up {
                self.closing = true;
            }
            return plan;
        }
        match pending {
            Some(row) => {
                self.serial = s.serial;
                plan.stop = self.playing;
                plan.start =
                match config {
                    Some(config) => match config.device(bare_device(row.as_str())) {
                        Some(device) => target(device),
                        None => None,
                    },
                    None => None,
                };
                self.playing = plan.start.is_some();
                plan.not_set_up = plan.start.is_none();
            },
            None => {},
        }
        plan.draw = self.playing;
        plan
    }

    /// The stream that was asked for could not be started: its connection is not
    /// set up.
    pub fn not_started(&mut self)
        ensures
            *final(self) == (Cameras { playing: false, ..*old(self) }),
    {
        self.playing = false;
    }
}

/// One stream at a time, and none that cannot be seen: another starts only
/// after the one that runs has been told to stop, and a hidden one is told to.
pub proof fn a_stream_belongs_to_its_screen(
    before: Cameras,
    s: Surroundings,
    config: Option<Config>,
    after: Cameras,
    plan: Plan,
)
    requires
        planned(before, s, config, after, plan),
    ensures
        plan.start is Some && before.playing ==> plan.stop,
        !visible(before, s) ==> !after.playing && (before.playing ==> plan.stop),
        after.playing ==> s.shown && s.awake,
{
}

/// A stream is closed once another configuration is in force.
pub proof fn a_new_configuration_closes_the_stream(
    before: Cameras,
    s: Surroundings,
    config: Option<Config>,
    after: Cameras,
    plan: Plan,
)
    requires
        planned(before, s, config, after, plan),
        before.playing,
        before.serial != s.serial,
    ensures
        after.closing,
{
}

/// A camera is found by its connection and its name there: a Protect camera's in
/// one text, a package's in two; nothing else is a camera.
pub proof fn a_camera_is_aimed_at_by_its_name(device: Device, connection: Seq<char>, name: Seq<char>)
    requires
        !connection.contains('/'),
    ensures
        match device.integration {
            Some(Integration::UnifiProtect { camera }) => {
                &&& camera@ == connection + "/"@ + name ==> aimed_at(device) == Some(
                    Aim { package: false, connection, resource: name },
                )
                &&& !camera@.contains('/') ==> aimed_at(device) is None
            },
            Some(Integration::Plugin { connection_id, resource_id, child, .. }) => if child is Some
                && device.component == Some(ChildComponent::Camera) {
                aimed_at(device) == Some(
                    Aim { package: true, connection: connection_id@, resource: resource_id@ },
                )
            } else {
                aimed_at(device) is None
            },
            _ => aimed_at(device) is None,
        },
{
    if let Some(Integration::UnifiProtect { camera }) = device.integration {
        reveal_strlit("/");
        if camera@ == connection + "/"@ + name {
            if connection.len() > 0 {
                crate::connections::a_scoped_name_splits_back(connection, name);
            } else {
                assert(camera@[0] == '/');
                assert(first_of(camera@, '/') == 0);
                assert(camera@.subrange(0, 0) =~= connection);
                assert(camera@.subrange(1, camera@.len() as int) =~= name);
            }
        }
        if !camera@.contains('/') {
            no_slash(camera@);
        }
    }
}

proof fn no_slash(s: Seq<char>)
    requires
        !s.contains('/'),
    ensures
        first_of(s, '/') == s.len(),
    decreases s.len(),
{
    if s.len() > 0 {
        assert(s[0] != '/');
        let rest = s.subrange(1, s.len() as int);
        assert forall|i: int| 0 <= i < rest.len() implies rest[i] != '/' by {
            assert(s[i + 1] != '/');
        }
        no_slash(rest);
    }
}

/// A stream is opened, can be interrupted, is decoded, and then goes record by
/// record until it ends; each failure ends it as what failed.
pub proof fn a_stream_goes_record_by_record(failure: PluginFailure, code: PluginCode)
    ensures
        stream_next(StreamStage::Opening, StreamEvent::Ready, false) == StreamStep::Go(
            StreamStage::Arming,
        ),
        stream_next(StreamStage::Arming, StreamEvent::Ready, false) == StreamStep::Go(
            StreamStage::Decoding,
        ),
        stream_next(StreamStage::Arming, StreamEvent::Ready, true) == StreamStep::Finish(Ok(())),
        stream_next(StreamStage::Decoding, StreamEvent::Ready, false) == StreamStep::Go(
            StreamStage::Reading,
        ),
        stream_next(StreamStage::Reading, StreamEvent::Record, false) == StreamStep::Go(
            StreamStage::Writing,
        ),
        stream_next(StreamStage::Writing, StreamEvent::Ready, false) == StreamStep::Go(
            StreamStage::Reading,
        ),
        stream_next(StreamStage::Writing, StreamEvent::Ready, true) == StreamStep::Finish(Ok(())),
        stream_next(StreamStage::Reading, StreamEvent::Ended, false) == StreamStep::Finish(Ok(())),
        forall|stopped: bool| #[trigger]
            stream_next(StreamStage::Opening, StreamEvent::Refused(failure), stopped)
                == StreamStep::Finish(Err(PackageFailure::Open(failure))),
        forall|stopped: bool| #[trigger]
            stream_next(StreamStage::Reading, StreamEvent::Broke(code), stopped)
                == StreamStep::Finish(Err(PackageFailure::Stream(code))),
        forall|stopped: bool| #[trigger]
            stream_next(StreamStage::Arming, StreamEvent::Broke(code), stopped)
                == StreamStep::Finish(Err(PackageFailure::Stream(code))),
        forall|stopped: bool| #[trigger]
            stream_next(StreamStage::Decoding, StreamEvent::Failed, stopped) == StreamStep::Finish(
                Err(PackageFailure::Decoder),
            ),
        forall|stopped: bool| #[trigger]
            stream_next(StreamStage::Writing, StreamEvent::Failed, stopped) == StreamStep::Finish(
                Err(PackageFailure::Decoder),
            ),
{
}

/// What a turn does: a camera that was opened is started, with its own name, where
/// its screen can be seen; the stream that ran is stopped first; a screen that
/// cannot be seen has none; and a camera that is not set up says so.
pub proof fn an_opened_camera_is_started(
    before: Cameras,
    s: Surroundings,
    config: Config,
    after: Cameras,
    plan: Plan,
    row: String,
)
    requires
        planned(before, s, Some(config), after, plan),
        before.pending == Some(row),
        !before.closing,
    ensures
        ({
            let seen = s.awake && s.shown && !s.settings && !s.dock_clock;
            let aim = match config.spec_device(bare(row@, "device:"@)) {
                Some(device) => aimed_at(device),
                None => None,
            };
            &&& after.pending is None
            &&& !seen ==> plan.start is None && !after.playing && plan.clear && !plan.not_set_up
            &&& seen ==> {
                &&& !plan.clear
                &&& aim is Some ==> plan.start is Some && plan.start->0@ == aim->0 && after.playing
                    && plan.draw && after.serial == s.serial && !plan.not_set_up
                &&& aim is None ==> plan.start is None && plan.not_set_up && !after.playing
                &&& before.playing ==> plan.stop
            }
        }),
{
}

/// A stream that runs goes on while its screen is seen, and the screen is taken
/// down by Back, and where it can no longer be seen.
pub proof fn a_stream_goes_on_while_it_is_seen(
    before: Cameras,
    s: Surroundings,
    config: Option<Config>,
    after: Cameras,
    plan: Plan,
)
    requires
        planned(before, s, config, after, plan),
        before.pending is None,
    ensures
        plan.start is None && !plan.not_set_up && after.serial == before.serial,
        plan.close <==> before.closing,
        ({
            let seen = s.awake && s.shown && !before.closing && !s.settings && !s.dock_clock;
            &&& seen ==> after.playing == before.playing && !plan.stop && !plan.clear && plan.draw
                == before.playing
            &&& !seen ==> !after.playing && plan.clear && (plan.stop <==> before.playing)
            &&& after.closing <==> (before.playing && before.serial != s.serial) || (!seen
                && s.shown && !before.closing)
        }),
{
}

/// What the camera screen says.
pub proof fn the_camera_screens_words(failure: PluginFailure, code: PluginCode, reason: String)
    ensures
        status_text(Status::Connecting) == "Connecting securely…"@,
        status_text(Status::Playing) == "LIVE · Low quality · View closes after 60 seconds"@,
        status_text(Status::Ended) == "View ended. Go back and open the camera to watch again."@,
        package_text(None) == "Camera unavailable."@,
        package_text(Some(PackageFailure::Decoder)) == "The camera decoder is unavailable."@,
        code is Timeout ==> package_text(Some(PackageFailure::Stream(code)))
            == "The camera stream timed out."@,
        !(code is Timeout) ==> package_text(Some(PackageFailure::Stream(code)))
            == "The camera stream stopped."@,
        failure.code is Unpaired ==> package_text(Some(PackageFailure::Open(failure)))
            == "Reconnect this NVR in the Couch web app."@,
        !(failure.code is Unpaired) && failure.reason == Some(reason) && reason@.len() > 0
            ==> package_text(Some(PackageFailure::Open(failure))) == reason@,
        !(failure.code is Unpaired) && failure.reason is None ==> package_text(
            Some(PackageFailure::Open(failure)),
        ) == "Could not open this camera integration."@,
        stage_text(Some(Failure::Setup)) == "Reconnect this NVR in the Couch web app."@,
        stage_text(Some(Failure::Descriptor { not_enabled: true }))
            == "Enable this camera's low-quality RTSPS stream in Protect."@,
        stage_text(Some(Failure::Descriptor { not_enabled: false }))
            == "Could not get this camera stream from the NVR."@,
        stage_text(Some(Failure::Media)) == "Could not open the NVR's secure camera stream."@,
        stage_text(Some(Failure::Decoder)) == "The camera decoder is unavailable."@,
        stage_text(Some(Failure::Stream)) == "The camera stream stopped."@,
        stage_text(None) == "Camera unavailable."@,
{
}

/// A view closes after a minute, and a camera that is not set up says where.
pub proof fn a_view_closes_after_a_minute()
    ensures
        VIEW_MS == 60000,
        NOT_SET_UP@ == "Set up this camera in the web app."@,
{
}

} // verus!
