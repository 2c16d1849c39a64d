//! The least number of CPU cores that stay online while the display is on. It is
//! let down only while the panel is powered down, and restored afterwards.
use crate::text::{decimal, number, parse, parsed, trim, trimmed};
use vstd::prelude::*;

verus! {

#[derive(Clone, Copy, PartialEq, Eq, Structural, Debug)]
pub struct CoreFloor {
    /// The floor that was configured, where the interface is a familiar one.
    pub active: Option<u32>,
    /// The floor that was last written.
    pub applied: Option<u32>,
}

/// The floor that an interface's text writes, where it writes one of the four
/// cores: an unfamiliar interface is left alone.
pub open spec fn floor_of(text: Option<Seq<char>>) -> Option<u32> {
    match text {
        Some(s) => match parsed(trimmed(s)) {
            Some(n) => if 1 <= n <= 4 {
                Some(n as u32)
            } else {
                None
            },
            None => None,
        },
        None => None,
    }
}

impl CoreFloor {
    /// The floor that is wanted.
    pub open spec fn wanted(self, off: bool) -> Option<u32> {
        match self.active {
            Some(active) => Some(
                if off {
                    1
                } else {
                    active
                },
            ),
            None => None,
        }
    }

    /// What the interface's text says at the start.
    pub fn new(text: Option<&str>) -> (r: CoreFloor)
        ensures
            r.active == floor_of(crate::battery::chars(text)),
            r.applied == r.active,
    {
        let active: Option<u32> = match text {
            Some(s) => match parse(trim(s), 1000) {
                Some(n) => if 1 <= n && n <= 4 {
                    Some(n as u32)
                } else {
                    None
                },
                None => None,
            },
            None => None,
        };
        CoreFloor { active, applied: active }
    }

    /// What is to be written as the display goes off or comes on: nothing where
    /// the floor is already so, or is not known.
    pub fn display_off(&self, off: bool) -> (r: Option<String>)
        ensures
            match self.wanted(off) {
                Some(n) => if self.applied == Some(n) {
                    r is None
                } else {
                    r matches Some(text) && text@ == decimal(n as nat) + "\n"@
                },
                None => r is None,
            },
    {
        match self.active {
            Some(active) => {
                let wanted: u32 = if off {
                    1
                } else {
                    active
                };
                if self.applied == Some(wanted) {
                    None
                } else {
                    let mut s = number(wanted as u64);
                    s.append("\n");
                    Some(s)
                }
            },
            None => None,
        }
    }

    /// The write succeeded. One that failed is simply tried again.
    pub fn written(&mut self, off: bool)
        ensures
            *final(self) == (CoreFloor {
                applied: if old(self).active is Some {
                    old(self).wanted(off)
                } else {
                    old(self).applied
                },
                ..*old(self)
            }),
    {
        match self.active {
            Some(active) => {
                self.applied = Some(
                    if off {
                        1
                    } else {
                        active
                    },
                );
            },
            None => {},
        }
    }
}

/// What the floor is once a display change has been written.
pub open spec fn after(floor: CoreFloor, off: bool) -> CoreFloor {
    CoreFloor {
        applied: if floor.active is Some {
            floor.wanted(off)
        } else {
            floor.applied
        },
        ..floor
    }
}

/// What the floor is once a run of display changes has been written.
pub open spec fn after_all(floor: CoreFloor, changes: Seq<bool>) -> CoreFloor
    decreases changes.len(),
{
    if changes.len() == 0 {
        floor
    } else {
        after(after_all(floor, changes.drop_last()), changes.last())
    }
}

/// However often the display goes off and on, the configured floor is what is
/// restored: no write ever changes it.
pub proof fn waking_restores_the_configured_floor(floor: CoreFloor, changes: Seq<bool>)
    ensures
        after_all(floor, changes).active == floor.active,
        floor.active is Some ==> after(after_all(floor, changes), false).applied == floor.active,
    decreases changes.len(),
{
    if changes.len() > 0 {
        waking_restores_the_configured_floor(floor, changes.drop_last());
    }
}

/// The floor is one core while the display is off, and the configured number while
/// it is on; a number that makes no sense is left alone.
pub proof fn the_floor_is_let_down_with_the_display(floor: CoreFloor, text: Seq<char>, n: int)
    ensures
        floor.active is Some ==> floor.wanted(true) == Some(1u32) && floor.wanted(false)
            == floor.active,
        floor.active is None ==> floor.wanted(true) is None && floor.wanted(false) is None,
        parsed(trimmed(text)) == Some(n) ==> if 1 <= n <= 4 {
            floor_of(Some(text)) == Some(n as u32)
        } else {
            floor_of(Some(text)) is None
        },
        floor_of(None) is None,
{
}

} // verus!
