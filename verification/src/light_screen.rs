//! What the one light-and-blind control screen shows, worked out from the
//! reading that its room row holds.
use crate::device_state::{
    chars_of, cover_line, cover_text, description, light_text, on_at, on_at_text, Cover,
    DeviceState, Light, Refusal,
};
use crate::num::{clamp, clamped, sign, signum};
use crate::text::{decimal, number, same};
use vstd::prelude::*;

verus! {

/// The white that a lamp without a colour temperature is first turned to.
pub const WARM_WHITE_MIREK: u16 = 370;

/// Whether OK on a row opens this screen: the device has more than on and off.
pub open spec fn controls(state: DeviceState) -> bool {
    match state {
        DeviceState::Light(light) => light.dimmable || light.mirek_range is Some,
        DeviceState::Cover(cover) => cover.can_set_position || cover.can_stop,
        DeviceState::Climate(_) => false,
    }
}

/// Whether OK on a row opens this screen: the device has more than on and off.
pub fn has_controls(state: &DeviceState) -> (r: bool)
    ensures
        r == controls(*state),
{
    match state {
        DeviceState::Light(light) => light.dimmable || light.mirek_range.is_some(),
        DeviceState::Cover(cover) => cover.can_set_position || cover.can_stop,
        DeviceState::Climate(_) => false,
    }
}

/// A colour temperature in kelvin rounded to the nearest fifty.
pub open spec fn nearest_fifty(exact: int) -> int {
    ((exact + 25) / 50) * 50
}

/// A colour temperature as people read it: the kelvin rounded to the nearest
/// fifty, so that a difference of one mirek does not jitter on the screen.
pub fn kelvin(exact: u16) -> (r: u32)
    ensures
        r == nearest_fifty(exact as int),
        -25 <= r - exact <= 25,
{
    ((exact as u32 + 25) / 50) * 50
}

/// The read-out of a colour temperature, or a dash where there is none.
pub fn kelvin_text(exact: Option<u16>) -> (r: String)
    ensures
        r@ == match exact {
            Some(k) => decimal(nearest_fifty(k as int) as nat) + " K"@,
            None => "—"@,
        },
{
    match exact {
        Some(k) => {
            let mut s = number(kelvin(k) as u64);
            s.append(" K");
            s
        },
        None => "—".to_owned(),
    }
}

/// One step of colour temperature over a range: a twentieth of it, and never
/// finer than five mirek.
pub open spec fn colour_step(cool: int, warm: int) -> int {
    if (warm - cool) / 20 < 5 {
        5
    } else {
        (warm - cool) / 20
    }
}

/// A range that runs from cool to warm, where there is one.
pub open spec fn range_wf(range: Option<(u16, u16)>) -> bool {
    range matches Some((cool, warm)) ==> cool <= warm
}

/// The colour temperature that a press leaves a light at. A positive delta is
/// cooler, which is a lower mirek; a lamp that shows a colour is first turned to
/// warm white.
pub open spec fn mirek_after(light: Light, target: Option<u16>, delta: int) -> Result<int, Refusal> {
    if light.on is None {
        Err(Refusal::LightUnavailable)
    } else {
        match light.mirek_range {
            None => Err(Refusal::LightNotTunable),
            Some((cool, warm)) => match (target, light.mirek) {
                (Some(m), _) => Ok(
                    clamped(
                        m - sign(delta) * colour_step(cool as int, warm as int),
                        cool as int,
                        warm as int,
                    ),
                ),
                (None, Some(m)) => Ok(
                    clamped(
                        m - sign(delta) * colour_step(cool as int, warm as int),
                        cool as int,
                        warm as int,
                    ),
                ),
                (None, None) => Ok(clamped(WARM_WHITE_MIREK as int, cool as int, warm as int)),
            },
        }
    }
}

/// The colour temperature that a press leaves a light at.
pub fn mirek_step(light: &Light, target: Option<u16>, delta: i32) -> (r: Result<u16, Refusal>)
    requires
        range_wf(light.mirek_range),
    ensures
        match mirek_after(*light, target, delta as int) {
            Ok(m) => r == Ok::<u16, Refusal>(m as u16) && 0 <= m <= u16::MAX,
            Err(e) => r == Err::<u16, Refusal>(e),
        },
{
    if light.on.is_none() {
        return Err(Refusal::LightUnavailable);
    }
    match light.mirek_range {
        None => Err(Refusal::LightNotTunable),
        Some((cool, warm)) => {
            let current = match target {
                Some(m) => Some(m),
                None => light.mirek,
            };
            match current {
                None => Ok(clamp(WARM_WHITE_MIREK as i64, cool as i64, warm as i64) as u16),
                Some(m) => {
                    let twentieth: i64 = (warm as i64 - cool as i64) / 20;
                    let step: i64 = if twentieth < 5 {
                        5
                    } else {
                        twentieth
                    };
                    let s: i32 = signum(delta);
                    let change: i64 = if s < 0 {
                        -step
                    } else if s > 0 {
                        step
                    } else {
                        0
                    };
                    assert(change == sign(delta as int) * colour_step(cool as int, warm as int))
                        by (nonlinear_arith)
                        requires
                            change == (if s < 0 {
                                -step
                            } else if s > 0 {
                                step as int
                            } else {
                                0
                            }),
                            s == sign(delta as int),
                            s == -1 || s == 0 || s == 1,
                            step == colour_step(cool as int, warm as int),
                    ;
                    Ok(clamp(m as i64 - change, cool as i64, warm as i64) as u16)
                },
            }
        },
    }
}

/// Where a mirek sits on the bar from warm to cool, as a percentage: 0 is the
/// lamp's warmest and 100 its coolest.
pub open spec fn position_of(range: (u16, u16), mirek: int) -> int {
    let (cool, warm) = range;
    if warm <= cool || mirek >= warm {
        0
    } else if mirek <= cool {
        100
    } else {
        (warm - mirek) * 100 / (warm - cool)
    }
}

/// Where a mirek sits on the bar from warm to cool, as a percentage.
pub fn mirek_position(range: (u16, u16), mirek: u16) -> (r: i32)
    ensures
        r == position_of(range, mirek as int),
        0 <= r <= 100,
{
    let (cool, warm) = range;
    if warm <= cool || mirek >= warm {
        return 0;
    }
    if mirek <= cool {
        return 100;
    }
    let from_warm: u32 = warm as u32 - mirek as u32;
    let span: u32 = warm as u32 - cool as u32;
    assert(0 <= from_warm as int * 100 / (span as int) <= 100) by (nonlinear_arith)
        requires
            0 <= from_warm <= span,
            span > 0,
    ;
    (from_warm * 100 / span) as i32
}

/// What a row is before any reading: it decides whether the screen opens as a
/// lamp or as a blind.
#[derive(Clone, Copy, PartialEq, Eq, Debug)]
pub struct Declared {
    pub cover: bool,
    pub can_stop: bool,
    pub dimmable: bool,
    pub mirek: Option<(u16, u16)>,
}

impl Default for Declared {
    fn default() -> (r: Declared)
        ensures
            r == (Declared { cover: false, can_stop: false, dimmable: false, mirek: None }),
    {
        Declared { cover: false, can_stop: false, dimmable: false, mirek: None }
    }
}

/// Everything that the screen draws.
#[derive(Debug)]
pub struct LightView {
    pub title: String,
    /// Where the device is and what drives it.
    pub room: String,
    pub state: String,
    pub active: bool,
    pub level_label: &'static str,
    pub level: String,
    pub level_percent: i32,
    pub level_known: bool,
    pub adjustable: bool,
    pub cover: bool,
    pub can_stop: bool,
    pub tunable: bool,
    /// The colour temperature that is read out, where one is.
    pub mirek: Option<u16>,
    pub mirek_percent: i32,
    pub mirek_known: bool,
    pub detail: String,
    pub hint: &'static str,
}

/// The same, as mathematical values.
#[verifier::ext_equal]
pub struct Picture {
    pub title: Seq<char>,
    pub room: Seq<char>,
    pub state: Seq<char>,
    pub active: bool,
    pub level_label: Seq<char>,
    pub level: Seq<char>,
    pub level_percent: int,
    pub level_known: bool,
    pub adjustable: bool,
    pub cover: bool,
    pub can_stop: bool,
    pub tunable: bool,
    pub mirek: Option<u16>,
    pub mirek_percent: int,
    pub mirek_known: bool,
    pub detail: Seq<char>,
    pub hint: Seq<char>,
}

impl View for LightView {
    type V = Picture;

    open spec fn view(&self) -> Picture {
        Picture {
            title: self.title@,
            room: self.room@,
            state: self.state@,
            active: self.active,
            level_label: self.level_label@,
            level: self.level@,
            level_percent: self.level_percent as int,
            level_known: self.level_known,
            adjustable: self.adjustable,
            cover: self.cover,
            can_stop: self.can_stop,
            tunable: self.tunable,
            mirek: self.mirek,
            mirek_percent: self.mirek_percent as int,
            mirek_known: self.mirek_known,
            detail: self.detail@,
            hint: self.hint@,
        }
    }
}

/// The line along the bottom of the screen that teaches its keys.
pub open spec fn hint_text(cover: bool, tunable: bool) -> Seq<char> {
    if cover {
        "Vol: position · Power: open/close · Back: room"@
    } else if tunable {
        "Vol: brightness · Ch: warmth · Power: on/off"@
    } else {
        "Vol: brightness · Power: on/off · Back: room"@
    }
}

/// The line along the bottom of the screen that teaches its keys.
pub fn hint(cover: bool, tunable: bool) -> (r: &'static str)
    ensures
        r@ == hint_text(cover, tunable),
{
    if cover {
        "Vol: position · Power: open/close · Back: room"
    } else if tunable {
        "Vol: brightness · Ch: warmth · Power: on/off"
    } else {
        "Vol: brightness · Power: on/off · Back: room"
    }
}

/// A lamp's state line, told with the level that it is driven towards: a level
/// written to a lamp that is off turns it on, and zero turns it off.
pub open spec fn lamp_line(light: Light, target: Option<u8>) -> (Seq<char>, bool) {
    if target is Some && light.dimmable && light.on is Some {
        if target == Some(0u8) {
            ("Off"@, false)
        } else {
            (on_at(target->0 as nat), true)
        }
    } else {
        (light_text(light.on, light.brightness_percent), light.on == Some(true))
    }
}

/// A lamp's state line, told with the level that it is driven towards.
pub fn light_state(light: &Light, target: Option<u8>) -> (r: (String, bool))
    ensures
        (r.0@, r.1) == lamp_line(*light, target),
{
    match target {
        Some(percent) => if light.dimmable && light.on.is_some() {
            if percent == 0 {
                ("Off".to_owned(), false)
            } else {
                (on_at_text(percent), true)
            }
        } else {
            (description(light), light.on == Some(true))
        },
        None => (description(light), light.on == Some(true)),
    }
}

/// The first of two values that is known.
pub open spec fn first_known<T>(a: Option<T>, b: Option<T>) -> Option<T> {
    if a is Some {
        a
    } else {
        b
    }
}

/// A level as the read-out writes it, or a dash where it is not known.
pub open spec fn level_text(shown: Option<u8>, known: bool) -> Seq<char> {
    if known {
        decimal(
            match shown {
                Some(p) => p as nat,
                None => 0,
            },
        ) + "%"@
    } else {
        "—"@
    }
}

fn level_of(shown: Option<u8>, known: bool) -> (r: String)
    ensures
        r@ == level_text(shown, known),
{
    if known {
        let mut s = number(
            match shown {
                Some(p) => p as u64,
                None => 0,
            },
        );
        s.append("%");
        s
    } else {
        "—".to_owned()
    }
}

/// The screen of a row that has not answered: what it is declared to be, with
/// nothing in it.
pub open spec fn unread(name: Seq<char>, room: Seq<char>, declared: Declared) -> Picture {
    let tunable = !declared.cover && declared.mirek is Some;
    Picture {
        title: name,
        room,
        state: "Unavailable"@,
        active: false,
        level_label: if declared.cover {
            "OPEN POSITION"@
        } else {
            "BRIGHTNESS"@
        },
        level: "—"@,
        level_percent: 0,
        level_known: false,
        adjustable: false,
        cover: declared.cover,
        can_stop: declared.can_stop,
        tunable,
        mirek: None,
        mirek_percent: 0,
        mirek_known: false,
        detail: ""@,
        hint: hint_text(declared.cover, tunable),
    }
}

/// The screen of a lamp.
pub open spec fn lamp_picture(
    base: Picture,
    light: Light,
    level: Option<u8>,
    mirek: Option<u16>,
) -> Picture {
    let shown = first_known(level, light.brightness_percent);
    let known = light.on is Some && shown is Some && light.dimmable;
    let tunable = light.mirek_range is Some;
    let shown_mirek = first_known(mirek, light.mirek);
    Picture {
        state: lamp_line(light, level).0,
        active: lamp_line(light, level).1,
        level: level_text(shown, known),
        level_percent: match shown {
            Some(p) => p as int,
            None => 0,
        },
        level_known: known,
        adjustable: light.dimmable && light.on is Some,
        tunable,
        mirek: if tunable {
            shown_mirek
        } else {
            None
        },
        mirek_percent: if tunable && shown_mirek is Some {
            position_of(light.mirek_range->0, shown_mirek->0 as int)
        } else {
            0
        },
        mirek_known: tunable && shown_mirek is Some,
        detail: if light.on is Some && !light.dimmable {
            "This light has only on and off."@
        } else {
            ""@
        },
        hint: hint_text(false, tunable),
        ..base
    }
}

/// The screen of a blind.
pub open spec fn blind_picture(base: Picture, cover: Cover, level: Option<u8>) -> Picture {
    let shown = first_known(level, cover.position_percent);
    let known = cover.state is Some && shown is Some;
    Picture {
        state: cover_text(chars_of(cover.state), shown),
        active: cover.state matches Some(s) && s@ != "closed"@,
        level_label: "OPEN POSITION"@,
        level: level_text(shown, known),
        level_percent: match shown {
            Some(p) => p as int,
            None => 0,
        },
        level_known: known,
        adjustable: cover.can_set_position && cover.state is Some,
        cover: true,
        can_stop: cover.can_stop,
        detail: if cover.state is Some && !cover.can_set_position {
            "This blind opens and closes, but cannot be sent to a position."@
        } else {
            ""@
        },
        hint: hint_text(true, false),
        ..base
    }
}

/// The screen for one row. `level` and `mirek` are the targets that presses have
/// set and the device has not confirmed.
pub open spec fn picture(
    name: Seq<char>,
    room: Seq<char>,
    declared: Declared,
    state: Option<DeviceState>,
    level: Option<u8>,
    mirek: Option<u16>,
) -> Picture {
    let base = unread(name, room, declared);
    match state {
        Some(DeviceState::Light(light)) => lamp_picture(base, light, level, mirek),
        Some(DeviceState::Cover(cover)) => blind_picture(base, cover, level),
        _ => base,
    }
}

/// The screen for one row.
pub fn view_of(
    name: &str,
    room: &str,
    declared: Declared,
    state: Option<&DeviceState>,
    level: Option<u8>,
    mirek: Option<u16>,
) -> (r: LightView)
    ensures
        r@ == picture(
            name@,
            room@,
            declared,
            match state {
                Some(s) => Some(*s),
                None => None,
            },
            level,
            mirek,
        ),
{
    let tunable = !declared.cover && declared.mirek.is_some();
    let base = LightView {
        title: name.to_owned(),
        room: room.to_owned(),
        state: "Unavailable".to_owned(),
        active: false,
        level_label: if declared.cover {
            "OPEN POSITION"
        } else {
            "BRIGHTNESS"
        },
        level: "—".to_owned(),
        level_percent: 0,
        level_known: false,
        adjustable: false,
        cover: declared.cover,
        can_stop: declared.can_stop,
        tunable,
        mirek: None,
        mirek_percent: 0,
        mirek_known: false,
        detail: "".to_owned(),
        hint: hint(declared.cover, tunable),
    };
    match state {
        Some(DeviceState::Light(light)) => {
            let shown = match level {
                Some(p) => Some(p),
                None => light.brightness_percent,
            };
            let known = light.on.is_some() && shown.is_some() && light.dimmable;
            let tunable = light.mirek_range.is_some();
            let shown_mirek = match mirek {
                Some(m) => Some(m),
                None => light.mirek,
            };
            let (line, active) = light_state(light, level);
            LightView {
                title: base.title,
                room: base.room,
                state: line,
                active,
                level_label: base.level_label,
                level: level_of(shown, known),
                level_percent: match shown {
                    Some(p) => p as i32,
                    None => 0,
                },
                level_known: known,
                adjustable: light.dimmable && light.on.is_some(),
                cover: base.cover,
                can_stop: base.can_stop,
                tunable,
                mirek: if tunable {
                    shown_mirek
                } else {
                    None
                },
                mirek_percent: match (light.mirek_range, shown_mirek) {
                    (Some(range), Some(m)) => mirek_position(range, m),
                    _ => 0,
                },
                mirek_known: tunable && shown_mirek.is_some(),
                detail: if light.on.is_some() && !light.dimmable {
                    "This light has only on and off.".to_owned()
                } else {
                    "".to_owned()
                },
                hint: hint(false, tunable),
            }
        },
        Some(DeviceState::Cover(cover)) => {
            let shown = match level {
                Some(p) => Some(p),
                None => cover.position_percent,
            };
            let known = cover.state.is_some() && shown.is_some();
            LightView {
                title: base.title,
                room: base.room,
                state: cover_line(cover, shown),
                active: match &cover.state {
                    Some(s) => !same(s.as_str(), "closed"),
                    None => false,
                },
                level_label: "OPEN POSITION",
                level: level_of(shown, known),
                level_percent: match shown {
                    Some(p) => p as i32,
                    None => 0,
                },
                level_known: known,
                adjustable: cover.can_set_position && cover.state.is_some(),
                cover: true,
                can_stop: cover.can_stop,
                tunable: base.tunable,
                mirek: None,
                mirek_percent: 0,
                mirek_known: false,
                detail: if cover.state.is_some() && !cover.can_set_position {
                    "This blind opens and closes, but cannot be sent to a position.".to_owned()
                } else {
                    "".to_owned()
                },
                hint: hint(true, false),
            }
        },
        _ => base,
    }
}

/// With no press out, the screen's state line is the row's.
pub proof fn the_screen_repeats_the_rows_line(
    name: Seq<char>,
    room: Seq<char>,
    declared: Declared,
    state: DeviceState,
    mirek: Option<u16>,
)
    requires
        !(state is Climate),
    ensures
        picture(name, room, declared, Some(state), None, mirek).state == state.spec_description(),
        picture(name, room, declared, Some(state), None, mirek).active == (state.spec_active()
            == Some(true)),
{
}

/// While a level is out to a lamp that can dim, the bar, the read-out and the
/// state line all follow it.
pub proof fn the_state_line_follows_the_press(
    name: Seq<char>,
    room: Seq<char>,
    declared: Declared,
    light: Light,
    level: u8,
    mirek: Option<u16>,
)
    requires
        light.dimmable,
        light.on is Some,
    ensures
        ({
            let p = picture(
                name,
                room,
                declared,
                Some(DeviceState::Light(light)),
                Some(level),
                mirek,
            );
            &&& p.level_percent == level
            &&& p.level == decimal(level as nat) + "%"@
            &&& p.active == (level > 0)
            &&& p.state == if level == 0 {
                "Off"@
            } else {
                on_at(level as nat)
            }
        }),
{
}

/// A colour step stays inside the lamp's own limits, and a cooler press never
/// leaves it warmer than it was.
pub proof fn a_colour_step_stays_in_range(light: Light, target: Option<u16>, delta: int)
    requires
        range_wf(light.mirek_range),
    ensures
        (mirek_after(light, target, delta), light.mirek_range) matches (
            Ok(m),
            Some((cool, warm)),
        ) ==> {
            &&& cool <= m <= warm
            &&& target matches Some(t) ==> (cool <= t <= warm && delta > 0 ==> m <= t) && (cool <= t
                <= warm && delta < 0 ==> m >= t)
        },
{
    if let Some((cool, warm)) = light.mirek_range {
        let step = colour_step(cool as int, warm as int);
        assert(sign(delta) * step == if delta > 0 {
            step
        } else if delta < 0 {
            -step
        } else {
            0
        }) by (nonlinear_arith)
            requires
                sign(delta) == if delta > 0 {
                    1int
                } else if delta < 0 {
                    -1
                } else {
                    0
                },
        ;
    }
}

/// A row opens a screen where there is something beyond on and off.
pub proof fn a_screen_has_more_than_a_switch(light: Light, cover: Cover)
    ensures
        controls(DeviceState::Light(light)) <==> light.dimmable || light.mirek_range is Some,
        controls(DeviceState::Cover(cover)) <==> cover.can_set_position || cover.can_stop,
{
}

/// A colour is said to the nearest fifty, so a reading and the next differ by at
/// most one of those.
pub proof fn a_colour_is_said_to_the_nearest_fifty(exact: int)
    requires
        0 <= exact,
    ensures
        nearest_fifty(exact) % 50 == 0,
        -25 <= nearest_fifty(exact) - exact <= 25,
        nearest_fifty(exact) <= nearest_fifty(exact + 1) <= nearest_fifty(exact) + 50,
{
}

/// A colour key moves a lamp's colour by exactly one step the way it says, cooler
/// for up, except where the range ends. A lamp that shows no colour is given a
/// warm white within its own range first, whichever key it was.
pub proof fn a_colour_key_moves_one_step(light: Light, from: u16, cool: u16, warm: u16, delta: int)
    requires
        light.on is Some,
        light.mirek_range == Some((cool, warm)),
        cool <= from <= warm,
    ensures
        ({
            let step = if warm - cool < 100 {
                5
            } else {
                (warm - cool) / 20
            };
            let held = mirek_after(light, Some(from), delta);
            let read = mirek_after(Light { mirek: Some(from), ..light }, None, delta);
            &&& held == read
            &&& delta > 0 ==> held == Ok::<int, Refusal>(
                if from - step < cool {
                    cool as int
                } else {
                    from - step
                },
            )
            &&& delta < 0 ==> held == Ok::<int, Refusal>(
                if from + step > warm {
                    warm as int
                } else {
                    from + step
                },
            )
            &&& delta == 0 ==> held == Ok::<int, Refusal>(from as int)
        }),
        ({
            let first = mirek_after(Light { mirek: None, ..light }, None, delta);
            &&& cool <= 370 <= warm ==> first == Ok::<int, Refusal>(370)
            &&& warm < 370 ==> first == Ok::<int, Refusal>(warm as int)
            &&& cool > 370 ==> first == Ok::<int, Refusal>(cool as int)
        }),
{
}

/// A lamp that has not answered, or has no colour, says so.
pub proof fn a_lamp_without_colours_says_so(light: Light, target: Option<u16>, delta: int)
    ensures
        light.on is None ==> mirek_after(light, target, delta) == Err::<int, Refusal>(
            Refusal::LightUnavailable,
        ),
        light.on is Some && light.mirek_range is None ==> mirek_after(light, target, delta)
            == Err::<int, Refusal>(Refusal::LightNotTunable),
{
}

/// The colour bar runs from the lamp's warmest at nothing to its coolest at
/// everything, and a cooler colour never stands lower.
pub proof fn the_colour_bar_runs_from_warm_to_cool(cool: u16, warm: u16, a: int, b: int)
    requires
        cool < warm,
        a <= b,
    ensures
        position_of((cool, warm), warm as int) == 0,
        position_of((cool, warm), cool as int) == 100,
        0 <= position_of((cool, warm), b) <= position_of((cool, warm), a) <= 100,
{
    let d = warm - cool;
    if cool < a < warm && cool < b < warm {
        assert((warm - b) * 100 / d <= (warm - a) * 100 / d) by (nonlinear_arith)
            requires
                a <= b,
                d > 0,
        ;
    }
    if cool < a < warm {
        assert(0 <= (warm - a) * 100 / d <= 100) by (nonlinear_arith)
            requires
                0 < warm - a < d,
                d > 0,
        ;
    }
    if cool < b < warm {
        assert(0 <= (warm - b) * 100 / d <= 100) by (nonlinear_arith)
            requires
                0 < warm - b < d,
                d > 0,
        ;
    }
}

/// What stands on the screen before a device has answered: nothing is known and
/// nothing can be moved, and a blind is a blind from the first.
pub proof fn an_unread_screen_promises_nothing(
    name: Seq<char>,
    room: Seq<char>,
    declared: Declared,
    level: Option<u8>,
    mirek: Option<u16>,
)
    ensures
        ({
            let p = picture(name, room, declared, None, level, mirek);
            &&& p.title == name && p.room == room
            &&& p.state == "Unavailable"@ && !p.active
            &&& !p.level_known && !p.adjustable && !p.mirek_known
            &&& p.level == "—"@ && p.level_percent == 0 && p.mirek is None && p.mirek_percent == 0
            &&& p.detail == ""@
            &&& p.cover == declared.cover && p.can_stop == declared.can_stop
            &&& p.tunable == (!declared.cover && declared.mirek is Some)
            &&& p.level_label == if declared.cover {
                "OPEN POSITION"@
            } else {
                "BRIGHTNESS"@
            }
        }),
{
}

/// What stands on the screen of a lamp: its level and its colour, each where it
/// is known, with what a press is on its way to before what was read.
pub proof fn a_lamps_screen_shows_its_level_and_colour(
    name: Seq<char>,
    room: Seq<char>,
    declared: Declared,
    light: Light,
    level: Option<u8>,
    mirek: Option<u16>,
)
    ensures
        ({
            let p = picture(name, room, declared, Some(DeviceState::Light(light)), level, mirek);
            let shown = match level {
                Some(l) => Some(l),
                None => light.brightness_percent,
            };
            let colour = match mirek {
                Some(m) => Some(m),
                None => light.mirek,
            };
            &&& p.title == name && p.room == room
            &&& p.adjustable <==> light.dimmable && light.on is Some
            &&& p.level_known <==> light.dimmable && light.on is Some && shown is Some
            &&& shown matches Some(l) ==> p.level_percent == l
            &&& shown is None ==> p.level_percent == 0
            &&& p.level_known ==> p.level == decimal(shown->0 as nat) + "%"@
            &&& !p.level_known ==> p.level == "—"@
            &&& p.tunable <==> light.mirek_range is Some
            &&& p.mirek_known <==> light.mirek_range is Some && colour is Some
            &&& p.mirek_known ==> p.mirek == colour && p.mirek_percent == position_of(
                light.mirek_range->0,
                colour->0 as int,
            )
            &&& !p.mirek_known ==> p.mirek is None && p.mirek_percent == 0
            &&& p.detail == if light.on is Some && !light.dimmable {
                "This light has only on and off."@
            } else {
                ""@
            }
            &&& !declared.cover ==> p.level_label == "BRIGHTNESS"@ && !p.cover
        }),
{
}

/// What stands on the screen of a blind: how far it is open, where that is known,
/// and which of its buttons there are.
pub proof fn a_blinds_screen_shows_its_position(
    name: Seq<char>,
    room: Seq<char>,
    declared: Declared,
    cover: Cover,
    level: Option<u8>,
    mirek: Option<u16>,
)
    ensures
        ({
            let p = picture(name, room, declared, Some(DeviceState::Cover(cover)), level, mirek);
            let shown = match level {
                Some(l) => Some(l),
                None => cover.position_percent,
            };
            &&& p.title == name && p.room == room
            &&& p.cover && p.level_label == "OPEN POSITION"@
            &&& p.can_stop == cover.can_stop
            &&& p.adjustable <==> cover.can_set_position && cover.state is Some
            &&& p.level_known <==> cover.state is Some && shown is Some
            &&& shown matches Some(l) ==> p.level_percent == l
            &&& shown is None ==> p.level_percent == 0
            &&& p.level_known ==> p.level == decimal(shown->0 as nat) + "%"@
            &&& !p.level_known ==> p.level == "—"@
            &&& p.active <==> (cover.state matches Some(s) && s@ != "closed"@)
            &&& p.detail == if cover.state is Some && !cover.can_set_position {
                "This blind opens and closes, but cannot be sent to a position."@
            } else {
                ""@
            }
        }),
{
}

/// The bottom line names the keys that the screen has.
pub proof fn the_hint_names_the_keys_there_are(
    name: Seq<char>,
    room: Seq<char>,
    declared: Declared,
    state: DeviceState,
    level: Option<u8>,
    mirek: Option<u16>,
)
    ensures
        ({
            let p = picture(name, room, declared, Some(state), level, mirek);
            match state {
                DeviceState::Cover(_) => p.hint
                    == "Vol: position · Power: open/close · Back: room"@,
                DeviceState::Light(light) => if light.mirek_range is Some {
                    p.hint == "Vol: brightness · Ch: warmth · Power: on/off"@
                } else {
                    p.hint == "Vol: brightness · Power: on/off · Back: room"@
                },
                DeviceState::Climate(_) => true,
            }
        }),
{
}

} // verus!
