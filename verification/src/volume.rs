//! What the volume card shows, and where a volume key leaves a level.
use crate::commands::{VolumeDb, VolumeReading, VolumeText};
use crate::model::{ActionSchema, CoverState, Integration, LightState};
use crate::num::{clamp, clamped};
use vstd::prelude::*;

verus! {

/// How far a held volume key moves a level up with each repeat, in tenths.
pub const HOLD_UP_TENTHS: i16 = 10;

/// How far it moves the level down: quieter quickly is the safe direction.
pub const HOLD_DOWN_TENTHS: i16 = 20;

/// A package's status, as far as the screens read it.
#[derive(Clone, Copy, PartialEq, Eq, Structural, Debug)]
pub struct PluginStatus {
    pub on: Option<bool>,
    pub muted: Option<bool>,
    pub volume: Option<u8>,
    pub volume_db: Option<VolumeDb>,
    pub light: Option<LightState>,
    pub cover: Option<CoverState>,
}

/// The card for a level in percent, or nothing where there is no level.
pub open spec fn reading_of(target: String, level: Option<i64>, muted: bool) -> Option<
    VolumeReading,
> {
    match level {
        Some(level) => Some(
            VolumeReading {
                target,
                level: clamped(level as int, 0, 100) as i32,
                text: if muted {
                    VolumeText::Muted
                } else {
                    VolumeText::Nothing
                },
            },
        ),
        None => None,
    }
}

/// The card for a level in percent, or nothing where there is no level.
pub fn volume_reading(target: &String, level: Option<i64>, muted: bool) -> (r: Option<
    VolumeReading,
>)
    ensures
        r == reading_of(*target, level, muted),
{
    match level {
        Some(level) => Some(
            VolumeReading {
                target: target.clone(),
                level: clamp(level, 0, 100) as i32,
                text: if muted {
                    VolumeText::Muted
                } else {
                    VolumeText::Nothing
                },
            },
        ),
        None => None,
    }
}

/// The decibel range and key step that a packaged receiver declares with its
/// set-volume action, in tenths.
#[derive(Clone, Copy, PartialEq, Eq, Structural, Debug)]
pub struct DbScale {
    pub min: i16,
    pub max: i16,
    pub step: i16,
}

/// The scale of one declared action, where it declares a usable one.
pub open spec fn scale_of(action: ActionSchema) -> Option<DbScale> {
    match action {
        ActionSchema::SetVolumeDb { min_tenths, max_tenths, step_tenths } => if max_tenths
            > min_tenths && 0 < step_tenths <= i16::MAX {
            Some(DbScale { min: min_tenths, max: max_tenths, step: step_tenths as i16 })
        } else {
            None
        },
        ActionSchema::Other => None,
    }
}

/// The first usable scale among declared actions, at or after a place.
pub open spec fn scale_from(actions: Seq<ActionSchema>, i: int) -> Option<DbScale>
    decreases actions.len() - i,
{
    if i < 0 || i >= actions.len() {
        None
    } else if scale_of(actions[i]) is Some {
        scale_of(actions[i])
    } else {
        scale_from(actions, i + 1)
    }
}

impl DbScale {
    /// A range that is not empty and a step that moves.
    pub open spec fn wf(self) -> bool {
        self.min < self.max && self.step > 0
    }

    /// The scale that an integration declares.
    pub open spec fn spec_of(integration: Integration) -> Option<DbScale> {
        match integration {
            Integration::Plugin { actions, .. } => scale_from(actions@, 0),
            _ => None,
        }
    }

    /// The share of the range below a level, rounded to the nearest percent.
    pub open spec fn spec_percent(self, tenths: int) -> int {
        ((clamped(tenths, self.min as int, self.max as int) - self.min) * 100 + (self.max
            - self.min) / 2) / (self.max - self.min)
    }

    /// The whole number of steps nearest below a wanted stride, at least one.
    pub open spec fn stride(self, wanted: int) -> int {
        if wanted / (self.step as int) < 1 {
            self.step as int
        } else {
            (wanted / (self.step as int)) * self.step
        }
    }

    /// Where one repeat of a held volume key leaves a level.
    pub open spec fn spec_held(self, tenths: int, up: bool) -> int {
        clamped(
            if up {
                tenths + self.stride(HOLD_UP_TENTHS as int)
            } else {
                tenths - self.stride(HOLD_DOWN_TENTHS as int)
            },
            self.min as int,
            self.max as int,
        )
    }

    /// Where one press of a volume key leaves a level.
    pub open spec fn spec_stepped(self, tenths: int, up: bool) -> int {
        clamped(
            if up {
                tenths + self.step
            } else {
                tenths - self.step
            },
            self.min as int,
            self.max as int,
        )
    }

    /// The scale that an integration declares: the first set-volume action
    /// whose range is not empty and whose step moves.
    pub fn of(integration: &Integration) -> (r: Option<DbScale>)
        ensures
            r == DbScale::spec_of(*integration),
            r matches Some(scale) ==> scale.wf(),
    {
        match integration {
            Integration::Plugin { actions, .. } => {
                let mut i: usize = 0;
                while i < actions.len()
                    invariant
                        i <= actions.len(),
                        DbScale::spec_of(*integration) == scale_from(actions@, i as int),
                    decreases actions.len() - i,
                {
                    match actions[i] {
                        ActionSchema::SetVolumeDb { min_tenths, max_tenths, step_tenths } => {
                            if max_tenths > min_tenths && step_tenths > 0 && step_tenths <= 32767 {
                                return Some(
                                    DbScale {
                                        min: min_tenths,
                                        max: max_tenths,
                                        step: step_tenths as i16,
                                    },
                                );
                            }
                        },
                        ActionSchema::Other => {},
                    }
                    i = i + 1;
                }
                None
            },
            _ => None,
        }
    }

    /// The share of the range below a level, rounded to the nearest percent.
    pub fn percent(self, tenths: i16) -> (r: i32)
        requires
            self.wf(),
        ensures
            r == self.spec_percent(tenths as int),
            0 <= r <= 100,
    {
        let span: i64 = self.max as i64 - self.min as i64;
        let above: i64 = clamp(tenths as i64, self.min as i64, self.max as i64) - self.min as i64;
        let r: i64 = (above * 100 + span / 2) / span;
        proof {
            assert(0 <= r <= 100) by (nonlinear_arith)
                requires
                    0 <= above <= span,
                    0 < span,
                    r == (above * 100 + span / 2) / (span as int),
            ;
        }
        r as i32
    }

    /// A wanted stride in whole declared steps, at least one.
    fn whole_steps(self, wanted: i16) -> (r: i32)
        requires
            self.wf(),
            0 <= wanted,
        ensures
            r == self.stride(wanted as int),
            0 < r <= i16::MAX,
    {
        let steps: i32 = wanted as i32 / self.step as i32;
        if steps < 1 {
            self.step as i32
        } else {
            proof {
                assert(0 < steps * self.step <= wanted) by (nonlinear_arith)
                    requires
                        steps == wanted as int / (self.step as int),
                        steps >= 1,
                        self.step > 0,
                        wanted >= 0,
                ;
            }
            steps * self.step as i32
        }
    }

    /// Where one repeat of a held volume key leaves a level: 1 dB up or 2 dB
    /// down, in whole declared steps.
    pub fn held(self, tenths: i16, up: bool) -> (r: i16)
        requires
            self.wf(),
        ensures
            r == self.spec_held(tenths as int, up),
    {
        let next: i64 = if up {
            tenths as i64 + self.whole_steps(HOLD_UP_TENTHS) as i64
        } else {
            tenths as i64 - self.whole_steps(HOLD_DOWN_TENTHS) as i64
        };
        clamp(next, self.min as i64, self.max as i64) as i16
    }

    /// Where one press of a volume key leaves a level.
    pub fn stepped(self, tenths: i16, up: bool) -> (r: i16)
        requires
            self.wf(),
        ensures
            r == self.spec_stepped(tenths as int, up),
    {
        let next: i64 = if up {
            tenths as i64 + self.step as i64
        } else {
            tenths as i64 - self.step as i64
        };
        clamp(next, self.min as i64, self.max as i64) as i16
    }
}

/// Whether a scale, where there is one, is usable.
pub open spec fn scale_wf(scale: Option<DbScale>) -> bool {
    scale matches Some(s) ==> s.wf()
}

/// The card for a level in decibels: a bar where the range is declared.
pub open spec fn db_reading_of(
    target: String,
    tenths: i16,
    muted: bool,
    scale: Option<DbScale>,
) -> VolumeReading {
    VolumeReading {
        target,
        level: match scale {
            Some(scale) => scale.spec_percent(tenths as int) as i32,
            None => -1i32,
        },
        text: if muted {
            VolumeText::Muted
        } else {
            VolumeText::Decibels { tenths }
        },
    }
}

/// The card for a level in decibels: a bar where the range is declared.
pub fn db_reading(target: &String, tenths: i16, muted: bool, scale: Option<DbScale>) -> (r:
    VolumeReading)
    requires
        scale_wf(scale),
    ensures
        r == db_reading_of(*target, tenths, muted, scale),
{
    VolumeReading {
        target: target.clone(),
        level: match scale {
            Some(scale) => scale.percent(tenths),
            None => -1,
        },
        text: if muted {
            VolumeText::Muted
        } else {
            VolumeText::Decibels { tenths }
        },
    }
}

/// A package's status as the volume card shows it: a percentage where the
/// package has one, decibels for a receiver, and "Muted" over either.
pub open spec fn status_reading(target: String, status: PluginStatus, scale: Option<DbScale>) -> Option<
    VolumeReading,
> {
    let muted = status.muted == Some(true);
    match (status.volume, status.volume_db) {
        (Some(percent), _) => reading_of(target, Some(percent as i64), muted),
        (None, Some(VolumeDb::Reading { tenths })) => Some(
            db_reading_of(target, tenths, muted, scale),
        ),
        (None, Some(VolumeDb::Minimum)) => Some(
            VolumeReading {
                target,
                level: if scale is Some {
                    0
                } else {
                    -1i32
                },
                text: if muted {
                    VolumeText::Muted
                } else {
                    VolumeText::Minimum
                },
            },
        ),
        (None, None) => None,
    }
}

/// A package's status as the volume card shows it.
pub fn plugin_volume_reading(target: &String, status: &PluginStatus, scale: Option<DbScale>) -> (r:
    Option<VolumeReading>)
    requires
        scale_wf(scale),
    ensures
        r == status_reading(*target, *status, scale),
{
    let muted = status.muted == Some(true);
    match status.volume {
        Some(percent) => volume_reading(target, Some(percent as i64), muted),
        None => match status.volume_db {
            Some(VolumeDb::Reading { tenths }) => Some(db_reading(target, tenths, muted, scale)),
            Some(VolumeDb::Minimum) => Some(
                VolumeReading {
                    target: target.clone(),
                    level: if scale.is_some() {
                        0
                    } else {
                        -1
                    },
                    text: if muted {
                        VolumeText::Muted
                    } else {
                        VolumeText::Minimum
                    },
                },
            ),
            None => None,
        },
    }
}

/// The decibel level that a status observes, where nothing mutes it.
pub open spec fn observed_level(status: PluginStatus) -> Option<i16> {
    if status.muted == Some(true) {
        None
    } else {
        match status.volume_db {
            Some(VolumeDb::Reading { tenths }) => Some(tenths),
            _ => None,
        }
    }
}

/// The card and the observed decibel level that a status read gives, or
/// nothing where the read gave no status or the status no level.
pub open spec fn level_of(target: String, status: Option<PluginStatus>, scale: Option<DbScale>) -> Option<
    (VolumeReading, Option<i16>),
> {
    match status {
        Some(status) => match status_reading(target, status, scale) {
            Some(reading) => Some((reading, observed_level(status))),
            None => None,
        },
        None => None,
    }
}

/// The card and the observed decibel level that a status read gives.
pub fn plugin_level(target: &String, status: Option<PluginStatus>, scale: Option<DbScale>) -> (r:
    Option<(VolumeReading, Option<i16>)>)
    requires
        scale_wf(scale),
    ensures
        r == level_of(*target, status, scale),
{
    match status {
        Some(status) => {
            let tenths: Option<i16> = if status.muted == Some(true) {
                None
            } else {
                match status.volume_db {
                    Some(VolumeDb::Reading { tenths }) => Some(tenths),
                    _ => None,
                }
            };
            match plugin_volume_reading(target, &status, scale) {
                Some(reading) => Some((reading, tenths)),
                None => None,
            }
        },
        None => None,
    }
}

/// A press and a repeat of a volume key leave the level in the declared range,
/// and never on the wrong side of where it was inside that range.
pub proof fn a_volume_key_stays_in_range_and_moves_its_own_way(scale: DbScale, tenths: int)
    requires
        scale.wf(),
    ensures
        scale.min <= scale.spec_stepped(tenths, true) <= scale.max,
        scale.min <= scale.spec_stepped(tenths, false) <= scale.max,
        scale.min <= scale.spec_held(tenths, true) <= scale.max,
        scale.min <= scale.spec_held(tenths, false) <= scale.max,
        scale.min <= tenths <= scale.max ==> {
            &&& scale.spec_stepped(tenths, false) <= tenths <= scale.spec_stepped(tenths, true)
            &&& scale.spec_held(tenths, false) <= tenths <= scale.spec_held(tenths, true)
        },
{
    let up = HOLD_UP_TENTHS as int;
    let down = HOLD_DOWN_TENTHS as int;
    let step = scale.step as int;
    assert(scale.stride(up) > 0) by (nonlinear_arith)
        requires
            step > 0,
            scale.stride(up) == if up / step < 1 {
                step
            } else {
                (up / step) * step
            },
    ;
    assert(scale.stride(down) > 0) by (nonlinear_arith)
        requires
            step > 0,
            scale.stride(down) == if down / step < 1 {
                step
            } else {
                (down / step) * step
            },
    ;
}

/// The bar is a percentage whatever level is reported: readings out of range
/// are drawn at the ends, and a higher level never draws a shorter bar.
pub proof fn the_bar_is_a_percentage_and_grows_with_the_level(scale: DbScale, low: int, high: int)
    requires
        scale.wf(),
        low <= high,
    ensures
        0 <= scale.spec_percent(low) <= scale.spec_percent(high) <= 100,
        low <= scale.min ==> scale.spec_percent(low) == 0,
        high >= scale.max ==> scale.spec_percent(high) == 100,
{
    let span = scale.max - scale.min;
    let a = clamped(low, scale.min as int, scale.max as int) - scale.min;
    let b = clamped(high, scale.min as int, scale.max as int) - scale.min;
    assert(0 <= (a * 100 + span / 2) / span <= (b * 100 + span / 2) / span <= 100)
        by (nonlinear_arith)
        requires
            0 <= a <= b <= span,
            span > 0,
    ;
    assert((0 * 100 + span / 2) / span == 0) by (nonlinear_arith)
        requires
            span > 0,
    ;
    assert((span * 100 + span / 2) / span == 100) by (nonlinear_arith)
        requires
            span > 0,
    ;
}

/// A level is shown as it was read, held to a percentage, and muted is said over
/// it just where it is.
pub proof fn a_percentage_is_shown_as_it_was_read(target: String, level: i64, muted: bool)
    ensures
        reading_of(target, None, muted) is None,
        reading_of(target, Some(level), muted) matches Some(shown) && {
            &&& shown.target == target
            &&& 0 <= shown.level <= 100
            &&& 0 <= level <= 100 ==> shown.level == level
            &&& level <= 0 ==> shown.level == 0
            &&& level >= 100 ==> shown.level == 100
            &&& shown.text is Muted <==> muted
            &&& shown.text is Nothing <==> !muted
        },
{
}

/// What a package reports is shown for its device: a percentage before decibels,
/// decibels with their text, the quietest as such, and muted over any of them.
pub proof fn a_report_is_shown_for_its_device(
    target: String,
    status: PluginStatus,
    scale: Option<DbScale>,
)
    requires
        scale_wf(scale),
    ensures
        ({
            let muted = status.muted == Some(true);
            match status_reading(target, status, scale) {
                None => status.volume is None && status.volume_db is None,
                Some(shown) => {
                    &&& shown.target == target
                    &&& status.volume is Some || status.volume_db is Some
                    &&& muted <==> shown.text is Muted
                    &&& status.volume matches Some(percent) ==> {
                        &&& percent <= 100 ==> shown.level == percent
                        &&& !muted ==> shown.text is Nothing
                    }
                    &&& status.volume is None ==> {
                        &&& scale is None ==> shown.level == -1
                        &&& status.volume_db matches Some(VolumeDb::Reading { tenths }) ==> {
                            &&& !muted ==> shown.text == VolumeText::Decibels { tenths }
                            &&& scale matches Some(s) ==> shown.level == s.spec_percent(
                                tenths as int,
                            )
                        }
                        &&& status.volume_db is Some && status.volume_db->0 is Minimum ==> {
                            &&& !muted ==> shown.text is Minimum
                            &&& scale is Some ==> shown.level == 0
                        }
                    }
                },
            }
        }),
{
    if let Some(s) = scale {
        if let Some(VolumeDb::Reading { tenths }) = status.volume_db {
            the_bar_is_a_percentage_and_grows_with_the_level(s, tenths as int, tenths as int);
        }
    }
}

/// The level that the next key steps from is the decibels that were read, and
/// none while it is muted.
pub proof fn a_muted_level_is_no_level_to_step_from(
    target: String,
    status: PluginStatus,
    scale: Option<DbScale>,
)
    ensures
        level_of(target, None, scale) is None,
        level_of(target, Some(status), scale) matches Some((shown, observed)) ==> {
            &&& status.muted == Some(true) ==> observed is None
            &&& status.muted != Some(true) ==> match status.volume_db {
                Some(VolumeDb::Reading { tenths }) => observed == Some(tenths),
                _ => observed is None,
            }
        },
        level_of(target, Some(status), scale) is None <==> status.volume is None
            && status.volume_db is None,
{
}

/// A step moves a level by exactly the declared step, up or down, except where
/// the range ends; a held key moves it by whole steps, at least one.
pub proof fn a_step_is_the_declared_step(scale: DbScale, tenths: int)
    requires
        scale.wf(),
    ensures
        scale.min <= tenths && tenths + scale.step <= scale.max ==> scale.spec_stepped(
            tenths,
            true,
        ) == tenths + scale.step,
        scale.min <= tenths - scale.step && tenths <= scale.max ==> scale.spec_stepped(
            tenths,
            false,
        ) == tenths - scale.step,
        scale.spec_stepped(scale.max as int, true) == scale.max,
        scale.spec_stepped(scale.min as int, false) == scale.min,
        scale.spec_held(scale.max as int, true) == scale.max,
        scale.spec_held(scale.min as int, false) == scale.min,
        scale.min <= tenths && tenths + 10 <= scale.max && 10int % (scale.step as int) == 0
            ==> scale.spec_held(tenths, true) == tenths + 10,
        scale.min <= tenths - 20 && tenths <= scale.max && 20int % (scale.step as int) == 0
            ==> scale.spec_held(tenths, false) == tenths - 20,
        scale.step > 10 && scale.min <= tenths && tenths + scale.step <= scale.max
            ==> scale.spec_held(tenths, true) == tenths + scale.step,
        scale.step > 20 && scale.min <= tenths - scale.step && tenths <= scale.max
            ==> scale.spec_held(tenths, false) == tenths - scale.step,
{
    let step = scale.step as int;
    assert(10int % step == 0 && 0 < step <= 10 ==> (10int / step) * step == 10 && 10int / step >= 1)
        by (nonlinear_arith);
    assert(20int % step == 0 && 0 < step <= 20 ==> (20int / step) * step == 20 && 20int / step >= 1)
        by (nonlinear_arith);
    assert(0 < step && 10int % step == 0 ==> step <= 10) by (nonlinear_arith);
    assert(0 < step && 20int % step == 0 ==> step <= 20) by (nonlinear_arith);
    assert(step > 10 ==> 10int / step == 0) by (nonlinear_arith);
    assert(step > 20 ==> 20int / step == 0) by (nonlinear_arith);
    assert(0 < step ==> (10int / step) * step >= 0) by (nonlinear_arith);
    assert(0 < step ==> (20int / step) * step >= 0) by (nonlinear_arith);
}

/// A scale is what a package declares of a volume in decibels, and only where the
/// range and the step make sense.
pub proof fn a_scale_is_declared(action: ActionSchema)
    ensures
        action is Other ==> scale_of(action) is None,
        action matches ActionSchema::SetVolumeDb { min_tenths, max_tenths, step_tenths }
            ==> match scale_of(action) {
            Some(s) => s.min == min_tenths && s.max == max_tenths && s.step == step_tenths && s.wf(),
            None => max_tenths <= min_tenths || step_tenths == 0 || step_tenths > i16::MAX,
        },
{
}

} // verus!
