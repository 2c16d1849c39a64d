//! The battery and the dock. The percentage is the kernel's estimate; external
//! power and charge are separate: a full battery can still power the dock.
use crate::text::{parse, parsed, same, trim, trimmed};
use vstd::prelude::*;

verus! {

#[derive(Clone, Copy, PartialEq, Eq, Structural, Debug)]
pub enum Status {
    Charging,
    Full,
    Discharging,
    NotCharging,
    Unknown,
}

#[derive(PartialEq, Eq, Structural, Debug)]
pub struct Battery {
    pub percent: Option<i32>,
    pub status: Status,
    pub external_power: bool,
}

/// The percentage that a gauge's text writes, where it writes one.
pub open spec fn percent_of(value: Option<Seq<char>>) -> Option<i32> {
    match value {
        Some(s) => match parsed(trimmed(s)) {
            Some(n) => if 0 <= n <= 100 {
                Some(n as i32)
            } else {
                None
            },
            None => None,
        },
        None => None,
    }
}

/// A text that may be missing, by its characters.
pub open spec fn chars(value: Option<&str>) -> Option<Seq<char>> {
    match value {
        Some(s) => Some(s@),
        None => None,
    }
}

/// The percentage that a gauge's text writes, where it writes one.
pub fn percent(value: Option<&str>) -> (r: Option<i32>)
    ensures
        r == percent_of(chars(value)),
{
    match value {
        Some(s) => match parse(trim(s), 1000) {
            Some(n) => if 0 <= n && n <= 100 {
                Some(n as i32)
            } else {
                None
            },
            None => None,
        },
        None => None,
    }
}

/// What the charger's word says.
pub open spec fn status_word(value: Option<Seq<char>>) -> Status {
    match value {
        Some(s) => {
            let word = trimmed(s);
            if word == "Charging"@ {
                Status::Charging
            } else if word == "Full"@ {
                Status::Full
            } else if word == "Discharging"@ {
                Status::Discharging
            } else if word == "Not charging"@ || word == "Cmd discharging"@ {
                Status::NotCharging
            } else {
                Status::Unknown
            }
        },
        None => Status::Unknown,
    }
}

fn status_of(value: Option<&str>) -> (r: Status)
    ensures
        r == status_word(chars(value)),
{
    match value {
        Some(s) => {
            let word = trim(s);
            if same(word, "Charging") {
                Status::Charging
            } else if same(word, "Full") {
                Status::Full
            } else if same(word, "Discharging") {
                Status::Discharging
            } else if same(word, "Not charging") || same(word, "Cmd discharging") {
                Status::NotCharging
            } else {
                Status::Unknown
            }
        },
        None => Status::Unknown,
    }
}

/// Whether a status claims that the battery is being fed.
pub open spec fn fed(status: Status) -> bool {
    status == Status::Charging || status == Status::Full
}

/// Whether a supply is connected: what the supplies say, and the status only
/// where none of them says anything.
pub open spec fn powered(status: Status, online: Seq<Option<bool>>) -> bool {
    if exists|k: int| 0 <= k < online.len() && #[trigger] online[k] is Some {
        exists|k: int| 0 <= k < online.len() && #[trigger] online[k] == Some(true)
    } else {
        fed(status)
    }
}

/// What a supply's text says of it.
pub fn online(value: Option<&str>) -> (r: Option<bool>)
    ensures
        r == match value {
            Some(s) => if trimmed(s@) == "1"@ {
                Some(true)
            } else if trimmed(s@) == "0"@ {
                Some(false)
            } else {
                None
            },
            None => None,
        },
{
    match value {
        Some(s) => {
            let word = trim(s);
            if same(word, "1") {
                Some(true)
            } else if same(word, "0") {
                Some(false)
            } else {
                None
            }
        },
        None => None,
    }
}

impl Battery {
    /// What the kernel's texts say. A supply that is disconnected overrules a
    /// status that still claims the battery is fed.
    pub open spec fn parsed_from(
        capacity: Option<Seq<char>>,
        status: Option<Seq<char>>,
        online: Seq<Option<bool>>,
    ) -> Battery {
        let word = status_word(status);
        let external_power = powered(word, online);
        Battery {
            percent: percent_of(capacity),
            status: if !external_power && fed(word) {
                Status::Discharging
            } else {
                word
            },
            external_power,
        }
    }

    /// What the kernel's texts say.
    pub fn parse(capacity: Option<&str>, status: Option<&str>, online: &[Option<bool>]) -> (r:
        Battery)
        ensures
            r == Battery::parsed_from(chars(capacity), chars(status), online@),
    {
        let word = status_of(status);
        let mut any = false;
        let mut on = false;
        let mut i: usize = 0;
        while i < online.len()
            invariant
                i <= online.len(),
                any == exists|k: int| 0 <= k < i && #[trigger] online@[k] is Some,
                on == exists|k: int| 0 <= k < i && #[trigger] online@[k] == Some(true),
            decreases online.len() - i,
        {
            if online[i].is_some() {
                any = true;
                assert(online@[i as int] is Some);
            }
            if online[i] == Some(true) {
                on = true;
                assert(online@[i as int] == Some(true));
            }
            i = i + 1;
        }
        let claims = match word {
            Status::Charging => true,
            Status::Full => true,
            _ => false,
        };
        let external_power = if any {
            on
        } else {
            claims
        };
        Battery {
            percent: percent(capacity),
            status: if !external_power && claims {
                Status::Discharging
            } else {
                word
            },
            external_power,
        }
    }

    /// Whether the battery is being charged from a supply.
    pub fn charging(&self) -> (r: bool)
        ensures
            r == (self.external_power && self.status == Status::Charging),
    {
        self.external_power && self.status == Status::Charging
    }

    /// The caption's first word.
    pub open spec fn label(self) -> Seq<char> {
        if self.external_power && self.status == Status::Charging {
            "Charging"@
        } else if self.external_power && self.status == Status::Full {
            "Full"@
        } else if self.external_power {
            "Plugged in"@
        } else {
            "On battery"@
        }
    }

    /// The line under the battery. A gauge that cannot be read is never shown as
    /// empty or full.
    pub fn caption(&self) -> (r: String)
        ensures
            r@ == match self.percent {
                Some(p) => self.label() + " · "@ + crate::text::signed_decimal(p as int) + "%"@,
                None => self.label() + " · Battery unavailable"@,
            },
    {
        let label = if self.external_power {
            match self.status {
                Status::Charging => "Charging",
                Status::Full => "Full",
                _ => "Plugged in",
            }
        } else {
            "On battery"
        };
        let mut s = label.to_owned();
        match self.percent {
            Some(p) => {
                s.append(" · ");
                s.append(crate::text::integer(p as i64).as_str());
                s.append("%");
            },
            None => {
                s.append(" · Battery unavailable");
            },
        }
        s
    }
}

/// A reading never claims more than the supplies allow: without external power
/// nothing is charging or full, and a percentage is always 0 to 100.
pub proof fn a_disconnected_battery_is_not_charging(
    capacity: Option<Seq<char>>,
    status: Option<Seq<char>>,
    online: Seq<Option<bool>>,
)
    ensures
        ({
            let b = Battery::parsed_from(capacity, status, online);
            &&& !b.external_power ==> !fed(b.status)
            &&& b.percent matches Some(p) ==> 0 <= p <= 100
        }),
{
}

/// What the kernel's word for the battery means.
pub proof fn a_battery_says_how_it_is(text: Seq<char>)
    ensures
        trimmed(text) == "Charging"@ ==> status_word(Some(text)) is Charging,
        trimmed(text) == "Full"@ ==> status_word(Some(text)) is Full,
        trimmed(text) == "Discharging"@ ==> status_word(Some(text)) is Discharging,
        trimmed(text) == "Not charging"@ ==> status_word(Some(text)) is NotCharging,
        trimmed(text) == "Cmd discharging"@ ==> status_word(Some(text)) is NotCharging,
        status_word(None) is Unknown,
{
    reveal_strlit("Charging");
    reveal_strlit("Full");
    reveal_strlit("Discharging");
    reveal_strlit("Not charging");
    reveal_strlit("Cmd discharging");
    assert("Charging"@.len() == 8);
    assert("Full"@.len() == 4);
    assert("Discharging"@.len() == 11);
    assert("Not charging"@.len() == 12);
    assert("Cmd discharging"@.len() == 15);
}

/// A remote has external power where a supply says so; where one says that it has
/// none and no other has any, it has not; and where none says anything it has
/// where the battery is fed.
pub proof fn external_power_is_what_the_supplies_say(
    capacity: Option<Seq<char>>,
    status: Option<Seq<char>>,
    online: Seq<Option<bool>>,
    k: int,
)
    ensures
        ({
            let b = Battery::parsed_from(capacity, status, online);
            let word = status_word(status);
            &&& 0 <= k < online.len() && online[k] == Some(true) ==> b.external_power
            &&& 0 <= k < online.len() && online[k] == Some(false) && (forall|i: int|
                0 <= i < online.len() ==> #[trigger] online[i] != Some(true)) ==> !b.external_power
            &&& (forall|i: int| 0 <= i < online.len() ==> #[trigger] online[i] is None) ==> (
            b.external_power <==> word is Charging || word is Full)
            &&& b.external_power ==> b.status == word
            &&& !b.external_power && (word is Charging || word is Full) ==> b.status is Discharging
            &&& !b.external_power && !(word is Charging) && !(word is Full) ==> b.status == word
        }),
{
}

/// A charge is a percentage that was written as one.
pub proof fn a_charge_is_a_percentage(text: Seq<char>, n: int)
    requires
        parsed(trimmed(text)) == Some(n),
    ensures
        0 <= n <= 100 ==> percent_of(Some(text)) == Some(n as i32),
        n < 0 || n > 100 ==> percent_of(Some(text)) is None,
        percent_of(None) is None,
{
}

/// What the battery's line calls its state.
pub proof fn a_batterys_label_names_its_state(b: Battery)
    ensures
        !b.external_power ==> b.label() == "On battery"@,
        b.external_power && b.status is Charging ==> b.label() == "Charging"@,
        b.external_power && b.status is Full ==> b.label() == "Full"@,
        b.external_power && !(b.status is Charging) && !(b.status is Full) ==> b.label()
            == "Plugged in"@,
{
}

} // verus!
