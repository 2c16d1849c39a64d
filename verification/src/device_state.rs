//! What a room row's device last reported, in the one shape that every row and
//! its control screen share, and the words for it.
use crate::model::{CoverState, CoverTraits, LightState, LightTraits};
use crate::num::{clamp, clamped};
use crate::text::{decimal, number, same};
use vstd::prelude::*;

verus! {

#[derive(Debug)]
pub struct Light {
    pub entity_id: String,
    pub name: String,
    pub on: Option<bool>,
    pub brightness_percent: Option<u8>,
    pub dimmable: bool,
    pub mirek: Option<u16>,
    /// The coolest and the warmest colour temperature, in mirek.
    pub mirek_range: Option<(u16, u16)>,
}

#[derive(Debug)]
pub struct Cover {
    pub entity_id: String,
    pub name: String,
    /// "open", "closed", "opening", "closing", or nothing where it is unknown.
    pub state: Option<String>,
    pub position_percent: Option<u8>,
    pub can_open: bool,
    pub can_close: bool,
    pub can_set_position: bool,
    pub can_stop: bool,
}

#[derive(Debug)]
pub struct Climate {
    pub entity_id: String,
    pub available: bool,
    pub hvac_mode: Option<String>,
    pub temperature_unit: String,
    /// The temperatures as they are written.
    pub current_temperature: Option<String>,
    pub target_temperature: Option<String>,
}

#[derive(Debug)]
pub enum DeviceState {
    Light(Light),
    Cover(Cover),
    Climate(Climate),
}

/// Why a key adjusts nothing.
#[derive(Clone, Copy, PartialEq, Eq, Structural, Debug)]
pub enum Refusal {
    LightUnavailable,
    LightNotDimmable,
    BrightnessUnknown,
    LightNotTunable,
    BlindUnavailable,
    BlindNotPositioned,
    PositionUnknown,
}

impl Refusal {
    /// The sentence under the controls.
    pub open spec fn spec_text(self) -> Seq<char> {
        match self {
            Refusal::LightUnavailable => "This light is unavailable."@,
            Refusal::LightNotDimmable => "This light does not support brightness."@,
            Refusal::BrightnessUnknown => "Checking brightness. Try again in a moment."@,
            Refusal::LightNotTunable => "This light does not support colour temperature."@,
            Refusal::BlindUnavailable => "This blind is unavailable."@,
            Refusal::BlindNotPositioned => "This blind does not support position control."@,
            Refusal::PositionUnknown => "This blind has not reported its position."@,
        }
    }

    /// The sentence under the controls.
    pub fn text(&self) -> (r: &'static str)
        ensures
            r@ == self.spec_text(),
    {
        match self {
            Refusal::LightUnavailable => "This light is unavailable.",
            Refusal::LightNotDimmable => "This light does not support brightness.",
            Refusal::BrightnessUnknown => "Checking brightness. Try again in a moment.",
            Refusal::LightNotTunable => "This light does not support colour temperature.",
            Refusal::BlindUnavailable => "This blind is unavailable.",
            Refusal::BlindNotPositioned => "This blind does not support position control.",
            Refusal::PositionUnknown => "This blind has not reported its position.",
        }
    }
}

/// A text that may be missing, again.
pub fn copy_text(s: &Option<String>) -> (r: Option<String>)
    ensures
        r == *s,
{
    match s {
        Some(s) => Some(s.clone()),
        None => None,
    }
}

impl Light {
    /// The same reading again.
    pub fn copy(&self) -> (r: Light)
        ensures
            r == *self,
    {
        Light {
            entity_id: self.entity_id.clone(),
            name: self.name.clone(),
            on: self.on,
            brightness_percent: self.brightness_percent,
            dimmable: self.dimmable,
            mirek: self.mirek,
            mirek_range: self.mirek_range,
        }
    }
}

impl Cover {
    /// The same reading again.
    pub fn copy(&self) -> (r: Cover)
        ensures
            r == *self,
    {
        Cover {
            entity_id: self.entity_id.clone(),
            name: self.name.clone(),
            state: copy_text(&self.state),
            position_percent: self.position_percent,
            can_open: self.can_open,
            can_close: self.can_close,
            can_set_position: self.can_set_position,
            can_stop: self.can_stop,
        }
    }
}

impl Climate {
    /// The same reading again.
    pub fn copy(&self) -> (r: Climate)
        ensures
            r == *self,
    {
        Climate {
            entity_id: self.entity_id.clone(),
            available: self.available,
            hvac_mode: copy_text(&self.hvac_mode),
            temperature_unit: self.temperature_unit.clone(),
            current_temperature: copy_text(&self.current_temperature),
            target_temperature: copy_text(&self.target_temperature),
        }
    }
}

/// "On · 40%".
pub open spec fn on_at(percent: nat) -> Seq<char> {
    "On · "@ + decimal(percent) + "%"@
}

/// A light's line.
pub open spec fn light_text(on: Option<bool>, brightness: Option<u8>) -> Seq<char> {
    match on {
        None => "Unavailable"@,
        Some(false) => "Off"@,
        Some(true) => match brightness {
            Some(percent) => on_at(percent as nat),
            None => "On"@,
        },
    }
}

/// "On · 40%".
pub fn on_at_text(percent: u8) -> (r: String)
    ensures
        r@ == on_at(percent as nat),
{
    let mut s = "On · ".to_owned();
    s.append(number(percent as u64).as_str());
    s.append("%");
    s
}

/// A light's line.
pub fn description(light: &Light) -> (r: String)
    ensures
        r@ == light_text(light.on, light.brightness_percent),
{
    match light.on {
        None => "Unavailable".to_owned(),
        Some(false) => "Off".to_owned(),
        Some(true) => match light.brightness_percent {
            Some(percent) => on_at_text(percent),
            None => "On".to_owned(),
        },
    }
}

/// The word for a blind's state, where it is one of those that a blind has.
pub open spec fn cover_word(state: Option<Seq<char>>) -> Option<Seq<char>> {
    match state {
        Some(s) => if s == "open"@ {
            Some("Open"@)
        } else if s == "closed"@ {
            Some("Closed"@)
        } else if s == "opening"@ {
            Some("Opening"@)
        } else if s == "closing"@ {
            Some("Closing"@)
        } else {
            None
        },
        None => None,
    }
}

/// A blind's line.
pub open spec fn cover_text(state: Option<Seq<char>>, position: Option<u8>) -> Seq<char> {
    match cover_word(state) {
        None => "Unavailable"@,
        Some(word) => match position {
            Some(p) => word + " · "@ + decimal(p as nat) + "% open"@,
            None => word,
        },
    }
}

/// The characters of a text that may be missing.
pub open spec fn chars_of(s: Option<String>) -> Option<Seq<char>> {
    match s {
        Some(s) => Some(s@),
        None => None,
    }
}

/// A blind's line, at a position.
pub fn cover_line(cover: &Cover, position: Option<u8>) -> (r: String)
    ensures
        r@ == cover_text(chars_of(cover.state), position),
{
    let word = match &cover.state {
        Some(s) => if same(s.as_str(), "open") {
            "Open"
        } else if same(s.as_str(), "closed") {
            "Closed"
        } else if same(s.as_str(), "opening") {
            "Opening"
        } else if same(s.as_str(), "closing") {
            "Closing"
        } else {
            return "Unavailable".to_owned();
        },
        None => return "Unavailable".to_owned(),
    };
    match position {
        Some(p) => {
            let mut s = word.to_owned();
            s.append(" · ");
            s.append(number(p as u64).as_str());
            s.append("% open");
            s
        },
        None => word.to_owned(),
    }
}

/// A blind's line.
pub fn cover_description(cover: &Cover) -> (r: String)
    ensures
        r@ == cover_text(chars_of(cover.state), cover.position_percent),
{
    cover_line(cover, cover.position_percent)
}

/// A thermostat's line.
pub open spec fn climate_text(climate: Climate) -> Seq<char> {
    let unit = climate.temperature_unit@;
    let mode = match climate.hvac_mode {
        Some(mode) => mode@,
        None => "Thermostat"@,
    };
    if !climate.available {
        "Unavailable"@
    } else {
        match (climate.current_temperature, climate.target_temperature) {
            (Some(current), Some(target)) => current@ + " "@ + unit + " · Target "@ + target@ + " "@
                + unit,
            (None, Some(target)) => "Target "@ + target@ + " "@ + unit,
            (Some(current), None) => current@ + " "@ + unit + " · "@ + mode,
            (None, None) => mode,
        }
    }
}

/// A thermostat's line.
pub fn climate_description(climate: &Climate) -> (r: String)
    ensures
        r@ == climate_text(*climate),
{
    if !climate.available {
        return "Unavailable".to_owned();
    }
    let unit = climate.temperature_unit.as_str();
    let mode = match &climate.hvac_mode {
        Some(mode) => mode.as_str(),
        None => "Thermostat",
    };
    match (&climate.current_temperature, &climate.target_temperature) {
        (Some(current), Some(target)) => {
            let mut s = current.clone();
            s.append(" ");
            s.append(unit);
            s.append(" · Target ");
            s.append(target.as_str());
            s.append(" ");
            s.append(unit);
            s
        },
        (None, Some(target)) => {
            let mut s = "Target ".to_owned();
            s.append(target.as_str());
            s.append(" ");
            s.append(unit);
            s
        },
        (Some(current), None) => {
            let mut s = current.clone();
            s.append(" ");
            s.append(unit);
            s.append(" · ");
            s.append(mode);
            s
        },
        (None, None) => mode.to_owned(),
    }
}

impl DeviceState {
    /// The row that the reading is filed under.
    pub open spec fn spec_id(self) -> String {
        match self {
            DeviceState::Light(s) => s.entity_id,
            DeviceState::Cover(s) => s.entity_id,
            DeviceState::Climate(s) => s.entity_id,
        }
    }

    /// The same reading, filed under another row.
    pub open spec fn filed(self, id: String) -> DeviceState {
        match self {
            DeviceState::Light(s) => DeviceState::Light(Light { entity_id: id, ..s }),
            DeviceState::Cover(s) => DeviceState::Cover(Cover { entity_id: id, ..s }),
            DeviceState::Climate(s) => DeviceState::Climate(Climate { entity_id: id, ..s }),
        }
    }

    /// Whether the device is on, or open, or set to anything but off, where it
    /// says so.
    pub open spec fn spec_active(self) -> Option<bool> {
        match self {
            DeviceState::Light(s) => s.on,
            DeviceState::Cover(s) => match s.state {
                Some(state) => Some(state@ != "closed"@),
                None => None,
            },
            DeviceState::Climate(s) => if s.available {
                Some(chars_of(s.hvac_mode) != Some("off"@))
            } else {
                None
            },
        }
    }

    /// The row's line.
    pub open spec fn spec_description(self) -> Seq<char> {
        match self {
            DeviceState::Light(s) => light_text(s.on, s.brightness_percent),
            DeviceState::Cover(s) => cover_text(chars_of(s.state), s.position_percent),
            DeviceState::Climate(s) => climate_text(s),
        }
    }

    /// The row that the reading is filed under.
    pub fn id(&self) -> (r: &String)
        ensures
            *r == self.spec_id(),
    {
        match self {
            DeviceState::Light(s) => &s.entity_id,
            DeviceState::Cover(s) => &s.entity_id,
            DeviceState::Climate(s) => &s.entity_id,
        }
    }

    /// File the reading under another row.
    pub fn set_id(&mut self, id: String)
        ensures
            *final(self) == old(self).filed(id),
    {
        match self {
            DeviceState::Light(s) => s.entity_id = id,
            DeviceState::Cover(s) => s.entity_id = id,
            DeviceState::Climate(s) => s.entity_id = id,
        }
    }

    /// The same reading again.
    pub fn copy(&self) -> (r: DeviceState)
        ensures
            r == *self,
    {
        match self {
            DeviceState::Light(s) => DeviceState::Light(s.copy()),
            DeviceState::Cover(s) => DeviceState::Cover(s.copy()),
            DeviceState::Climate(s) => DeviceState::Climate(s.copy()),
        }
    }

    /// Whether the device is on, or open, or set to anything but off, where it
    /// says so.
    pub fn active(&self) -> (r: Option<bool>)
        ensures
            r == self.spec_active(),
    {
        match self {
            DeviceState::Light(s) => s.on,
            DeviceState::Cover(s) => match &s.state {
                Some(state) => Some(!same(state.as_str(), "closed")),
                None => None,
            },
            DeviceState::Climate(s) => if s.available {
                match &s.hvac_mode {
                    Some(mode) => Some(!same(mode.as_str(), "off")),
                    None => Some(true),
                }
            } else {
                None
            },
        }
    }

    /// The row's line.
    pub fn description(&self) -> (r: String)
        ensures
            r@ == self.spec_description(),
    {
        match self {
            DeviceState::Light(s) => description(s),
            DeviceState::Cover(s) => cover_description(s),
            DeviceState::Climate(s) => climate_description(s),
        }
    }
}

/// Whether a row is that of a packaged lamp: its own reading, and of its colour
/// only what lies within what the lamp can do.
pub open spec fn is_light_row(
    name: Seq<char>,
    traits: Option<&LightTraits>,
    state: LightState,
    row: Light,
) -> bool {
    &&& row.name@ == name && row.on == state.on && row.brightness_percent == state.brightness
    &&& match traits {
        Some(t) => row.dimmable == t.dimmable && row.mirek_range == t.mirek,
        None => !row.dimmable && row.mirek_range is None,
    }
    &&& match (row.mirek_range, state.mirek) {
        (Some((cool, warm)), Some(mirek)) if cool <= mirek <= warm => row.mirek == Some(mirek),
        _ => row.mirek is None,
    }
}

/// Whether a row is that of a packaged blind.
pub open spec fn is_cover_row(
    name: Seq<char>,
    traits: Option<&CoverTraits>,
    state: CoverState,
    row: Cover,
) -> bool {
    &&& row.name@ == name && row.position_percent == state.position
    &&& row.state is Some <==> state.open is Some
    &&& state.open == Some(true) ==> row.state->0@ == "open"@
    &&& state.open == Some(false) ==> row.state->0@ == "closed"@
    &&& match traits {
        Some(t) => row.can_set_position == t.position && row.can_stop == t.stop,
        None => !row.can_set_position && !row.can_stop,
    }
}

/// A packaged lamp's reading. Nothing is inferred: a lamp that has not said
/// whether it is on stays unknown, and a colour temperature counts only inside
/// the range that the lamp declared.
pub fn light_row(name: &str, traits: Option<&LightTraits>, state: &LightState) -> (r: Light)
    ensures
        is_light_row(name@, traits, *state, r),
        r.entity_id@.len() == 0,
        r.name@ == name@,
        r.on == state.on,
        r.brightness_percent == state.brightness,
        r.dimmable == (traits matches Some(t) && t.dimmable),
        r.mirek_range == (match traits {
            Some(t) => t.mirek,
            None => None,
        }),
        r.mirek == (match (r.mirek_range, state.mirek) {
            (Some((cool, warm)), Some(mirek)) => if cool <= mirek <= warm {
                Some(mirek)
            } else {
                None
            },
            _ => None,
        }),
{
    let mirek_range = match traits {
        Some(t) => t.mirek,
        None => None,
    };
    Light {
        entity_id: String::new(),
        name: name.to_owned(),
        on: state.on,
        brightness_percent: state.brightness,
        dimmable: match traits {
            Some(t) => t.dimmable,
            None => false,
        },
        mirek: match (mirek_range, state.mirek) {
            (Some((cool, warm)), Some(mirek)) => if cool <= mirek && mirek <= warm {
                Some(mirek)
            } else {
                None
            },
            _ => None,
        },
        mirek_range,
    }
}

/// A packaged blind's reading: where it is, not which way it travels.
pub fn cover_row(name: &str, traits: Option<&CoverTraits>, state: &CoverState) -> (r: Cover)
    ensures
        is_cover_row(name@, traits, *state, r),
        r.entity_id@.len() == 0,
        r.name@ == name@,
        chars_of(r.state) == (match state.open {
            Some(true) => Some("open"@),
            Some(false) => Some("closed"@),
            None => None,
        }),
        r.position_percent == state.position,
        r.can_open && r.can_close,
        r.can_set_position == (traits matches Some(t) && t.position),
        r.can_stop == (traits matches Some(t) && t.stop),
{
    Cover {
        entity_id: String::new(),
        name: name.to_owned(),
        state: match state.open {
            Some(true) => Some("open".to_owned()),
            Some(false) => Some("closed".to_owned()),
            None => None,
        },
        position_percent: state.position,
        can_open: true,
        can_close: true,
        can_set_position: match traits {
            Some(t) => t.position,
            None => false,
        },
        can_stop: match traits {
            Some(t) => t.stop,
            None => false,
        },
    }
}

/// One step from a level, inside 0..=100.
pub open spec fn stepped(current: int, delta: int) -> int {
    clamped(current + clamped(delta, -100, 100), 0, 100)
}

fn step(current: u8, delta: i32) -> (r: u8)
    ensures
        r == stepped(current as int, delta as int),
        r <= 100,
{
    clamp(current as i64 + clamp(delta as i64, -100, 100), 0, 100) as u8
}

/// The level that a press leaves a light at: from the latest target, else from
/// zero where the light is off, else from its brightness.
pub open spec fn brightness_after(light: Light, target: Option<u8>, delta: int) -> Result<int, Refusal> {
    if light.on is None {
        Err(Refusal::LightUnavailable)
    } else if !light.dimmable {
        Err(Refusal::LightNotDimmable)
    } else {
        match (target, light.on, light.brightness_percent) {
            (Some(t), _, _) => Ok(stepped(t as int, delta)),
            (None, Some(false), _) => Ok(stepped(0, delta)),
            (None, _, Some(b)) => Ok(stepped(b as int, delta)),
            (None, _, None) => Err(Refusal::BrightnessUnknown),
        }
    }
}

/// The level that a press leaves a light at.
pub fn brightness_step(light: &Light, target: Option<u8>, delta: i32) -> (r: Result<u8, Refusal>)
    ensures
        match brightness_after(*light, target, delta as int) {
            Ok(level) => r == Ok::<u8, Refusal>(level as u8) && 0 <= level <= 100,
            Err(e) => r == Err::<u8, Refusal>(e),
        },
{
    if light.on.is_none() {
        return Err(Refusal::LightUnavailable);
    }
    if !light.dimmable {
        return Err(Refusal::LightNotDimmable);
    }
    match target {
        Some(t) => Ok(step(t, delta)),
        None => if light.on == Some(false) {
            Ok(step(0, delta))
        } else {
            match light.brightness_percent {
                Some(b) => Ok(step(b, delta)),
                None => Err(Refusal::BrightnessUnknown),
            }
        },
    }
}

/// The position that a press sends a blind to: from the latest target, else
/// from where it is. An unknown position is never invented.
pub open spec fn position_after(cover: Cover, target: Option<u8>, delta: int) -> Result<int, Refusal> {
    if cover.state is None {
        Err(Refusal::BlindUnavailable)
    } else if !cover.can_set_position {
        Err(Refusal::BlindNotPositioned)
    } else {
        match (target, cover.position_percent) {
            (Some(t), _) => Ok(stepped(t as int, delta)),
            (None, Some(p)) => Ok(stepped(p as int, delta)),
            (None, None) => Err(Refusal::PositionUnknown),
        }
    }
}

/// The position that a press sends a blind to.
pub fn cover_step(cover: &Cover, target: Option<u8>, delta: i32) -> (r: Result<u8, Refusal>)
    ensures
        match position_after(*cover, target, delta as int) {
            Ok(level) => r == Ok::<u8, Refusal>(level as u8) && 0 <= level <= 100,
            Err(e) => r == Err::<u8, Refusal>(e),
        },
{
    if cover.state.is_none() {
        return Err(Refusal::BlindUnavailable);
    }
    if !cover.can_set_position {
        return Err(Refusal::BlindNotPositioned);
    }
    match target {
        Some(t) => Ok(step(t, delta)),
        None => match cover.position_percent {
            Some(p) => Ok(step(p, delta)),
            None => Err(Refusal::PositionUnknown),
        },
    }
}

/// A reading never turns what is unknown into off: a row that has not said
/// whether it is on says that it is unavailable, and no key moves it.
pub proof fn an_unknown_reading_is_never_off(light: Light, target: Option<u8>, delta: int)
    requires
        light.on is None,
    ensures
        DeviceState::Light(light).spec_active() is None,
        DeviceState::Light(light).spec_description() == "Unavailable"@,
        brightness_after(light, target, delta) == Err::<int, Refusal>(Refusal::LightUnavailable),
{
}

/// A level or a position moves by what was pressed, up and down, and no further
/// than nothing and everything.
pub proof fn a_level_moves_by_the_press(current: int, delta: int)
    requires
        0 <= current <= 100,
    ensures
        0 <= stepped(current, delta) <= 100,
        0 <= current + delta <= 100 ==> stepped(current, delta) == current + delta,
        current + delta > 100 ==> stepped(current, delta) == 100,
        current + delta < 0 ==> stepped(current, delta) == 0,
{
}

/// A press on a lamp steps from the level it is on its way to, else from what it
/// was read at, and from nothing where it is off. A lamp that cannot be dimmed,
/// or has not said how bright it is, says so.
pub proof fn a_lamp_steps_from_where_it_is(light: Light, target: Option<u8>, delta: int)
    requires
        light.on is Some,
        target matches Some(t) ==> t <= 100,
        light.brightness_percent matches Some(b) ==> b <= 100,
        -100 <= delta <= 100,
    ensures
        ({
            let next = brightness_after(light, target, delta);
            let from = |level: int|
                next matches Ok(l) && 0 <= l <= 100 && (0 <= level + delta <= 100 ==> l == level
                    + delta);
            &&& !light.dimmable ==> next == Err::<int, Refusal>(Refusal::LightNotDimmable)
            &&& light.dimmable ==> match target {
                Some(t) => from(t as int),
                None => if light.on == Some(false) {
                    from(0)
                } else {
                    match light.brightness_percent {
                        Some(b) => from(b as int),
                        None => next == Err::<int, Refusal>(Refusal::BrightnessUnknown),
                    }
                },
            }
        }),
{
}

/// A press on a blind steps from the position it is on its way to, else from what
/// it was read at; one that cannot be placed, or has not said where it is, says
/// so.
pub proof fn a_blind_steps_from_where_it_is(cover: Cover, target: Option<u8>, delta: int)
    requires
        target matches Some(t) ==> t <= 100,
        cover.position_percent matches Some(p) ==> p <= 100,
        -100 <= delta <= 100,
    ensures
        ({
            let next = position_after(cover, target, delta);
            let from = |position: int|
                next matches Ok(l) && 0 <= l <= 100 && (0 <= position + delta <= 100 ==> l
                    == position + delta);
            if cover.state is None {
                next == Err::<int, Refusal>(Refusal::BlindUnavailable)
            } else if !cover.can_set_position {
                next == Err::<int, Refusal>(Refusal::BlindNotPositioned)
            } else {
                match (target, cover.position_percent) {
                    (Some(t), _) => from(t as int),
                    (None, Some(p)) => from(p as int),
                    (None, None) => next == Err::<int, Refusal>(Refusal::PositionUnknown),
                }
            }
        }),
{
}

/// What a lamp's line says: off where it is off, its level where it is on and has
/// one, and that it is unavailable where it has not answered.
pub proof fn a_lamps_line_says_whether_it_is_on(light: Light, percent: u8)
    ensures
        ({
            let line = DeviceState::Light(light).spec_description();
            &&& light.on == Some(false) ==> line == "Off"@
            &&& light.on is None ==> line == "Unavailable"@
            &&& light.on == Some(true) && light.brightness_percent is None ==> line == "On"@
            &&& light.on == Some(true) && light.brightness_percent == Some(percent) ==> line
                == "On · "@ + decimal(percent as nat) + "%"@
        }),
        DeviceState::Light(light).spec_active() == light.on,
{
}

/// What a blind's line says: the word for its state, with how far it is open
/// where that is known, and that it is unavailable in any other state.
pub proof fn a_blinds_line_says_how_far_it_is_open(cover: Cover, state: Seq<char>)
    requires
        cover.state matches Some(s) && s@ == state,
    ensures
        ({
            let line = DeviceState::Cover(cover).spec_description();
            let reads = |word: Seq<char>|
                match cover.position_percent {
                    None => line == word,
                    Some(p) => line == word + " · "@ + decimal(p as nat) + "% open"@,
                };
            &&& state == "open"@ ==> reads("Open"@)
            &&& state == "closed"@ ==> reads("Closed"@)
            &&& state == "opening"@ ==> reads("Opening"@)
            &&& state == "closing"@ ==> reads("Closing"@)
        }),
        DeviceState::Cover(cover).spec_active() == Some(state != "closed"@),
{
    reveal_strlit("open");
    reveal_strlit("closed");
    reveal_strlit("opening");
    reveal_strlit("closing");
    assert("open"@.len() == 4);
    assert("closed"@.len() == 6 && "opening"@.len() == 7 && "closing"@.len() == 7);
    assert("opening"@[0] != "closing"@[0]);
}

/// A blind that has not answered is neither open nor closed.
pub proof fn an_unread_blind_is_neither_open_nor_closed(cover: Cover)
    requires
        cover.state is None,
    ensures
        DeviceState::Cover(cover).spec_active() is None,
        DeviceState::Cover(cover).spec_description() == "Unavailable"@,
{
}

/// A thermostat's line: what it reads before what it aims for, each with its
/// unit, and its mode where it aims for nothing. It is on unless its mode is off.
pub proof fn a_thermostats_line_says_what_it_reads_and_aims_for(climate: Climate)
    ensures
        ({
            let line = DeviceState::Climate(climate).spec_description();
            let unit = climate.temperature_unit@;
            let mode = match climate.hvac_mode {
                Some(mode) => mode@,
                None => "Thermostat"@,
            };
            match (climate.available, climate.current_temperature, climate.target_temperature) {
                (false, _, _) => line == "Unavailable"@,
                (true, Some(c), Some(t)) => line == c@ + " "@ + unit + " · Target "@ + t@ + " "@
                    + unit,
                (true, None, Some(t)) => line == "Target "@ + t@ + " "@ + unit,
                (true, Some(c), None) => line == c@ + " "@ + unit + " · "@ + mode,
                (true, None, None) => line == mode,
            }
        }),
        !climate.available ==> DeviceState::Climate(climate).spec_active() is None,
        climate.available ==> DeviceState::Climate(climate).spec_active() == Some(
            !(climate.hvac_mode matches Some(mode) && mode@ == "off"@),
        ),
{
}

/// Filing a reading under a name changes its name alone.
pub proof fn filing_keeps_the_reading(state: DeviceState, id: String)
    ensures
        state.filed(id).spec_id() == id,
        state.filed(id).spec_active() == state.spec_active(),
        state.filed(id).spec_description() == state.spec_description(),
        state.filed(id).filed(state.spec_id()) == state,
{
}

/// The words of each refusal.
pub proof fn a_refusal_names_what_is_missing()
    ensures
        Refusal::LightUnavailable.spec_text() == "This light is unavailable."@,
        Refusal::LightNotDimmable.spec_text() == "This light does not support brightness."@,
        Refusal::BrightnessUnknown.spec_text() == "Checking brightness. Try again in a moment."@,
        Refusal::LightNotTunable.spec_text() == "This light does not support colour temperature."@,
        Refusal::BlindUnavailable.spec_text() == "This blind is unavailable."@,
        Refusal::BlindNotPositioned.spec_text() == "This blind does not support position control."@,
        Refusal::PositionUnknown.spec_text() == "This blind has not reported its position."@,
{
}

/// A packaged lamp's row is on just where the package says that it is, at the
/// level that it says, and shows no colour that the lamp cannot have.
pub proof fn a_packaged_lamps_row_reads_as_it_was_told(
    name: Seq<char>,
    traits: Option<&LightTraits>,
    state: LightState,
    row: Light,
)
    requires
        is_light_row(name, traits, state, row),
    ensures
        row.name@ == name,
        row.on == state.on,
        row.brightness_percent == state.brightness,
        traits is None ==> !row.dimmable && row.mirek is None && row.mirek_range is None,
        row.mirek matches Some(mirek) ==> state.mirek == Some(mirek) && (row.mirek_range matches Some(
            range,
        ) && range.0 <= mirek <= range.1),
        (traits matches Some(t) && t.mirek matches Some(range) && state.mirek matches Some(mirek)
            && range.0 <= mirek <= range.1) ==> row.mirek == state.mirek,
        traits matches Some(t) ==> row.dimmable == t.dimmable && row.mirek_range == t.mirek,
{
}

/// A packaged blind's row is open just where the package says that it is, and
/// stops and takes a position just where its blind does.
pub proof fn a_packaged_blinds_row_reads_as_it_was_told(
    name: Seq<char>,
    traits: Option<&CoverTraits>,
    state: CoverState,
    row: Cover,
)
    requires
        is_cover_row(name, traits, state, row),
    ensures
        row.name@ == name,
        row.position_percent == state.position,
        (row.state matches Some(word) && word@ == "open"@) <==> state.open == Some(true),
        (row.state matches Some(word) && word@ == "closed"@) <==> state.open == Some(false),
        traits is None ==> !row.can_stop && !row.can_set_position,
        traits matches Some(t) ==> row.can_stop == t.stop && row.can_set_position == t.position,
{
    reveal_strlit("open");
    reveal_strlit("closed");
    assert("open"@.len() != "closed"@.len());
    match state.open {
        Some(open) => {
            assert(open ==> row.state->0@ == "open"@);
            assert(!open ==> row.state->0@ == "closed"@);
        },
        None => {},
    }
}

} // verus!
