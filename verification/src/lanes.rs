//! The lanes that commands wait in, one for each connection.
//!
//! A lane drops what has gone stale, moves the volume card before the device
//! has answered, and owes the card one reading once a held key is over.
use crate::activity_buttons::{Feedback, Request};
use crate::commands::{Action, Outcome, Reason, VolumeReading};
use crate::model::{Device, Integration};
use crate::text::{integer, same, signed_decimal};
use crate::volume::{
    db_reading, db_reading_of, level_of, plugin_level, scale_wf, DbScale, PluginStatus,
};
use vstd::prelude::*;

verus! {

/// How long a press may wait for its lane, in milliseconds.
pub const DEADLINE_MS: u64 = 750;

/// A held volume key's absolute write; the level in tenths follows.
pub const SET_VOLUME_DB: &'static str = "set-volume-db:";

/// Where a request goes.
#[derive(Debug)]
pub enum Assignment {
    /// The bindings have changed since: nowhere.
    Stale,
    /// The device is gone: to nobody, and the user is told.
    Removed,
    /// To the lane of that name.
    Lane(String),
}

/// The name of a device's lane: its connection's, or one for its integration.
pub open spec fn lane_of(device: Option<Device>) -> Option<String> {
    match device {
        Some(d) => match d.connection {
            Some(connection) => Some(connection),
            None => d.identity,
        },
        None => None,
    }
}

/// Where a request goes.
pub fn assign(request: &Request, generation: u64, device: Option<&Device>) -> (r: Assignment)
    ensures
        r == if request.generation != generation {
            Assignment::Stale
        } else {
            match lane_of(
                match device {
                    Some(d) => Some(*d),
                    None => None,
                },
            ) {
                Some(lane) => Assignment::Lane(lane),
                None => Assignment::Removed,
            }
        },
{
    if request.generation != generation {
        return Assignment::Stale;
    }
    match device {
        Some(d) => match &d.connection {
            Some(connection) => Assignment::Lane(connection.clone()),
            None => match &d.identity {
                Some(identity) => Assignment::Lane(identity.clone()),
                None => Assignment::Removed,
            },
        },
        None => Assignment::Removed,
    }
}

/// What the user is told of a request that its lane had no room for: nothing
/// for a held key's surplus repeat.
pub fn lane_full(repeat: bool) -> (r: Option<Feedback>)
    ensures
        r == if repeat {
            None
        } else {
            Some(Feedback::Error(Reason::QueueFull))
        },
        r is None <==> repeat,
{
    if repeat {
        None
    } else {
        Some(Feedback::Error(Reason::QueueFull))
    }
}

/// A packaged device whose level may be read once its keys stop.
#[derive(Debug)]
pub struct Settle {
    /// The device's id and name.
    pub device: String,
    pub target: String,
    pub scale: Option<DbScale>,
}

/// One connection's lane.
#[derive(Debug)]
pub struct Lane {
    pub generation: u64,
    /// A device whose level is owed a read.
    pub settle: Option<Settle>,
    /// The last decibel level that was observed or predicted, in tenths.
    pub level: Option<i16>,
}

/// What a lane does with a request.
#[derive(Debug)]
pub enum Admission {
    /// It has gone stale: nothing.
    Stale,
    /// Send the action. `card` moves the volume card at once; `settle` is handed
    /// back with the result.
    Run { action: Action, settle: Option<Settle>, card: Option<VolumeReading> },
}

/// The reading that a device may be owed: only a packaged one can be.
pub open spec fn settles(device: Option<Device>) -> Option<Settle> {
    match device {
        Some(d) => match d.network {
            Some(integration) => if integration is Plugin {
                Some(
                    Settle {
                        device: d.id,
                        target: d.name,
                        scale: DbScale::spec_of(integration),
                    },
                )
            } else {
                None
            },
            None => None,
        },
        None => None,
    }
}

fn settles_of(device: Option<&Device>) -> (r: Option<Settle>)
    ensures
        r == settles(
            match device {
                Some(d) => Some(*d),
                None => None,
            },
        ),
        r matches Some(s) ==> scale_wf(s.scale),
{
    match device {
        Some(d) => match &d.network {
            Some(integration) => match integration {
                Integration::Plugin { .. } => Some(
                    Settle {
                        device: d.id.clone(),
                        target: d.name.clone(),
                        scale: DbScale::of(integration),
                    },
                ),
                _ => None,
            },
            None => None,
        },
        None => None,
    }
}

/// Which way a volume command moves the level.
pub open spec fn direction(command: Seq<char>) -> Option<bool> {
    if command == "volume-up"@ {
        Some(true)
    } else if command == "volume-down"@ {
        Some(false)
    } else {
        None
    }
}

fn direction_of(command: &str) -> (r: Option<bool>)
    ensures
        r == direction(command@),
{
    if same(command, "volume-up") {
        Some(true)
    } else if same(command, "volume-down") {
        Some(false)
    } else {
        None
    }
}

/// The absolute write of a level.
pub open spec fn set_volume_command(tenths: int) -> Seq<char> {
    SET_VOLUME_DB@ + signed_decimal(tenths)
}

impl Lane {
    /// A reading that is owed has a usable scale, where it has one.
    pub open spec fn wf(self) -> bool {
        self.settle matches Some(s) ==> scale_wf(s.scale)
    }

    /// Whether a request is dropped: it belongs to bindings that have changed,
    /// it waited past its deadline, or it repeats a key that was released.
    pub open spec fn drops(self, request: Request, age: u64, hold: u64) -> bool {
        ||| request.generation != self.generation
        ||| age > DEADLINE_MS
        ||| request.repeat && request.hold != hold
    }

    /// Where a volume key will leave the level, as far as that can be told: a
    /// press is one of the device's steps, a hold travels.
    pub open spec fn predicted(self, request: Request, owed: Option<Settle>) -> Option<i16> {
        match (owed, self.level, direction(request.action.command@)) {
            (Some(s), Some(known), Some(up)) => match s.scale {
                Some(scale) => Some(
                    if request.repeat {
                        scale.spec_held(known as int, up) as i16
                    } else {
                        scale.spec_stepped(known as int, up) as i16
                    },
                ),
                None => None,
            },
            _ => None,
        }
    }

    /// A lane that has seen nothing.
    pub fn new(generation: u64) -> (r: Lane)
        ensures
            r == (Lane { generation, settle: None, level: None }),
            r.wf(),
    {
        Lane { generation, settle: None, level: None }
    }

    /// Follow the bindings: where they have changed, what was known and owed is
    /// forgotten. Says whether they had, so that kept clients are dropped too.
    pub fn follow(&mut self, generation: u64) -> (r: bool)
        requires
            old(self).wf(),
        ensures
            r == (generation != old(self).generation),
            r ==> *final(self) == (Lane { generation, settle: None, level: None }),
            !r ==> *final(self) == *old(self),
            final(self).wf(),
    {
        if generation == self.generation {
            return false;
        }
        self.settle = None;
        self.level = None;
        self.generation = generation;
        true
    }

    /// The lane has been quiet for a while: the device whose level is to be
    /// read, if one is owed.
    pub fn quiet(&mut self) -> (r: Option<Settle>)
        requires
            old(self).wf(),
        ensures
            r == old(self).settle,
            r matches Some(s) ==> scale_wf(s.scale),
            *final(self) == (Lane { settle: None, ..*old(self) }),
            final(self).wf(),
    {
        self.settle.take()
    }

    /// What that read gives the card. A read that gave nothing leaves the level
    /// as it was.
    pub fn settled(&mut self, owed: &Settle, status: Option<PluginStatus>) -> (r: Option<Feedback>)
        requires
            old(self).wf(),
            scale_wf(owed.scale),
        ensures
            match level_of(owed.target, status, owed.scale) {
                Some((reading, observed)) => {
                    &&& r == Some(Feedback::Volume(reading))
                    &&& *final(self) == (Lane { level: observed, ..*old(self) })
                },
                None => r is None && *final(self) == *old(self),
            },
            final(self).wf(),
    {
        match plugin_level(&owed.target, status, owed.scale) {
            Some((reading, observed)) => {
                self.level = observed;
                Some(Feedback::Volume(reading))
            },
            None => None,
        }
    }

    /// Take a request: `age` is how long it has waited, `hold` the hold that is
    /// going on, `device` the device that it names.
    pub fn take(&mut self, request: Request, age: u64, hold: u64, device: Option<&Device>) -> (r:
        Admission)
        requires
            old(self).wf(),
        ensures
            ({
                let owed = settles(
                    match device {
                        Some(d) => Some(*d),
                        None => None,
                    },
                );
                if old(self).drops(request, age, hold) {
                    r is Stale && *final(self) == *old(self)
                } else {
                    &&& r matches Admission::Run { action, settle, card }
                    &&& settle == owed
                    &&& action.device == request.action.device
                    &&& !request.repeat ==> action == request.action
                    &&& settle matches Some(s) ==> scale_wf(s.scale)
                    &&& match old(self).predicted(request, owed) {
                        Some(tenths) => {
                            &&& *final(self) == (Lane { level: Some(tenths), ..*old(self) })
                            &&& card == Some(
                                db_reading_of(owed->0.target, tenths, false, owed->0.scale),
                            )
                            &&& if request.repeat {
                                &&& action.device == request.action.device
                                &&& action.command@ == set_volume_command(tenths as int)
                                &&& action.repeatable == request.action.repeatable
                            } else {
                                action == request.action
                            }
                        },
                        None => {
                            &&& *final(self) == *old(self)
                            &&& card is None
                            &&& action == request.action
                        },
                    }
                }
            }),
            final(self).wf(),
    {
        if request.generation != self.generation || age > DEADLINE_MS || request.repeat
            && request.hold != hold {
            return Admission::Stale;
        }
        let settle = settles_of(device);
        let prediction: Option<(i16, VolumeReading)> = match (&settle, self.level) {
            (Some(s), Some(known)) => match s.scale {
                Some(scale) => match direction_of(request.action.command.as_str()) {
                    Some(up) => {
                        let tenths: i16 = if request.repeat {
                            scale.held(known, up)
                        } else {
                            scale.stepped(known, up)
                        };
                        Some((tenths, db_reading(&s.target, tenths, false, Some(scale))))
                    },
                    None => None,
                },
                None => None,
            },
            _ => None,
        };
        match prediction {
            Some((tenths, reading)) => {
                self.level = Some(tenths);
                let action = if request.repeat {
                    let mut command = SET_VOLUME_DB.to_owned();
                    command.append(integer(tenths as i64).as_str());
                    Action {
                        device: request.action.device,
                        command,
                        repeatable: request.action.repeatable,
                    }
                } else {
                    request.action
                };
                Admission::Run { action, settle, card: Some(reading) }
            },
            None => Admission::Run { action: request.action, settle, card: None },
        }
    }

    /// What a command's result leaves in the lane and tells the main loop.
    pub fn finish(&mut self, result: Result<Outcome, Reason>, settle: Option<Settle>) -> (r: Option<
        Feedback,
    >)
        requires
            old(self).wf(),
            settle matches Some(s) ==> scale_wf(s.scale),
        ensures
            match result {
                Err(reason) => r == Some(Feedback::Error(reason)) && *final(self) == *old(self),
                Ok(outcome) => match (outcome.volume, outcome.notice) {
                    (Some(reading), _) => {
                        &&& r == Some(Feedback::Volume(reading))
                        &&& *final(self) == if settle is Some {
                            Lane { level: outcome.observed_db, ..*old(self) }
                        } else {
                            *old(self)
                        }
                    },
                    (None, Some(notice)) => r == Some(Feedback::Notice(notice)) && *final(self)
                        == *old(self),
                    (None, None) => r is None && *final(self) == if outcome.settle {
                        Lane { settle, ..*old(self) }
                    } else {
                        *old(self)
                    },
                },
            },
            final(self).wf(),
    {
        match result {
            Err(reason) => Some(Feedback::Error(reason)),
            Ok(outcome) => match outcome.volume {
                Some(reading) => {
                    if settle.is_some() {
                        self.level = outcome.observed_db;
                    }
                    Some(Feedback::Volume(reading))
                },
                None => match outcome.notice {
                    Some(notice) => Some(Feedback::Notice(notice)),
                    None => {
                        if outcome.settle {
                            self.settle = settle;
                        }
                        None
                    },
                },
            },
        }
    }
}

/// What was requested under other bindings, or waited too long, or repeats a
/// key that was let go, is never sent.
pub proof fn a_stale_request_is_never_sent(lane: Lane, request: Request, age: u64, hold: u64)
    ensures
        request.generation != lane.generation ==> lane.drops(request, age, hold),
        age > DEADLINE_MS ==> lane.drops(request, age, hold),
        request.repeat && request.hold != hold ==> lane.drops(request, age, hold),
        !request.repeat && request.generation == lane.generation && age <= DEADLINE_MS
            ==> !lane.drops(request, age, hold),
{
}

/// A command waits in the lane of its device's connection, else of the device
/// itself; a device that is gone has none.
pub proof fn a_command_waits_in_its_connections_lane(device: Device)
    ensures
        lane_of(None) is None,
        device.connection is Some ==> lane_of(Some(device)) == device.connection,
        device.connection is None ==> lane_of(Some(device)) == device.identity,
{
}

/// A press is dropped three quarters of a second after it was made, and never
/// before that while its screen is the same and its key is still held.
pub proof fn a_press_waits_three_quarters_of_a_second(
    lane: Lane,
    request: Request,
    age: u64,
    hold: u64,
)
    requires
        request.generation == lane.generation,
        request.repeat ==> request.hold == hold,
    ensures
        lane.drops(request, age, hold) <==> age > 750,
{
}

/// A volume key moves the known level of its own device before the device has
/// answered: a step for a press, whole steps for a held key, up and down as the
/// key says. Without a known level or a declared scale nothing is predicted.
pub proof fn a_volume_key_predicts_the_level(
    lane: Lane,
    request: Request,
    owed: Settle,
    scale: DbScale,
    known: i16,
)
    requires
        owed.scale == Some(scale),
        lane.level == Some(known),
        scale.wf(),
    ensures
        ({
            let predicted = lane.predicted(request, Some(owed));
            &&& request.action.command@ == "volume-up"@ ==> {
                &&& !request.repeat ==> predicted == Some(
                    scale.spec_stepped(known as int, true) as i16,
                )
                &&& request.repeat ==> predicted == Some(scale.spec_held(known as int, true) as i16)
            }
            &&& request.action.command@ == "volume-down"@ ==> {
                &&& !request.repeat ==> predicted == Some(
                    scale.spec_stepped(known as int, false) as i16,
                )
                &&& request.repeat ==> predicted == Some(
                    scale.spec_held(known as int, false) as i16,
                )
            }
            &&& request.action.command@ != "volume-up"@ && request.action.command@
                != "volume-down"@ ==> predicted is None
        }),
        lane.predicted(request, None) is None,
        (Lane { level: None, ..lane }).predicted(request, Some(owed)) is None,
        lane.predicted(request, Some(Settle { scale: None, ..owed })) is None,
{
    reveal_strlit("volume-up");
    reveal_strlit("volume-down");
    assert("volume-up"@.len() == 9 && "volume-down"@.len() == 11);
}

/// Only a packaged device owes the card a reading, under its own name and with the
/// scale that it declares.
pub proof fn only_a_package_owes_a_reading(device: Device)
    ensures
        settles(None) is None,
        match device.network {
            Some(integration) => if integration is Plugin {
                settles(Some(device)) matches Some(s) && s.device == device.id && s.target
                    == device.name && s.scale == DbScale::spec_of(integration)
            } else {
                settles(Some(device)) is None
            },
            None => settles(Some(device)) is None,
        },
{
}

/// A level is written as a command of its own, with the level behind it.
pub proof fn a_level_is_a_command(tenths: int)
    ensures
        set_volume_command(tenths) == "set-volume-db:"@ + signed_decimal(tenths),
{
}

} // verus!
