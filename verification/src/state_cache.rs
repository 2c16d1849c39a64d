//! Short-lived readings, kept so that a room opens with what was last seen.
use crate::device_state::DeviceState;
use crate::text::{begins, same, starts_with};
use vstd::prelude::*;

verus! {

/// How long a reading is worth showing, in milliseconds.
pub const FRESH_MS: u64 = 5000;

/// How long ago something was, never less than nothing.
pub open spec fn elapsed(now: u64, at: u64) -> u64 {
    if now >= at {
        (now - at) as u64
    } else {
        0
    }
}

/// How long ago something was, never less than nothing.
pub fn since(now: u64, at: u64) -> (r: u64)
    ensures
        r == elapsed(now, at),
{
    if now >= at {
        now - at
    } else {
        0
    }
}

/// Readings with the time that each was made.
#[derive(Debug)]
pub struct StateCache {
    pub readings: Vec<(u64, DeviceState)>,
}

/// The fresh readings of other rows, at or after a place.
pub open spec fn others_from(readings: Seq<(u64, DeviceState)>, id: Seq<char>, now: u64, i: int) -> Seq<
    (u64, DeviceState),
>
    decreases readings.len() - i,
{
    if i < 0 || i >= readings.len() {
        Seq::empty()
    } else if elapsed(now, readings[i].0) < FRESH_MS && readings[i].1.spec_id()@ != id {
        seq![readings[i]] + others_from(readings, id, now, i + 1)
    } else {
        others_from(readings, id, now, i + 1)
    }
}

/// The readings without those of a row, at or after a place.
pub open spec fn without_from(readings: Seq<(u64, DeviceState)>, id: Seq<char>, i: int) -> Seq<
    (u64, DeviceState),
>
    decreases readings.len() - i,
{
    if i < 0 || i >= readings.len() {
        Seq::empty()
    } else if readings[i].1.spec_id()@ != id {
        seq![readings[i]] + without_from(readings, id, i + 1)
    } else {
        without_from(readings, id, i + 1)
    }
}

/// The readings without those of the Hue rows, at or after a place.
pub open spec fn without_hue_from(readings: Seq<(u64, DeviceState)>, i: int) -> Seq<
    (u64, DeviceState),
>
    decreases readings.len() - i,
{
    if i < 0 || i >= readings.len() {
        Seq::empty()
    } else if !begins(readings[i].1.spec_id()@, "hue:"@) {
        seq![readings[i]] + without_hue_from(readings, i + 1)
    } else {
        without_hue_from(readings, i + 1)
    }
}

/// The first fresh reading of a row, at or after a place.
pub open spec fn fresh_from(readings: Seq<(u64, DeviceState)>, id: Seq<char>, now: u64, i: int) -> Option<
    DeviceState,
>
    decreases readings.len() - i,
{
    if i < 0 || i >= readings.len() {
        None
    } else if readings[i].1.spec_id()@ == id && elapsed(now, readings[i].0) < FRESH_MS {
        Some(readings[i].1)
    } else {
        fresh_from(readings, id, now, i + 1)
    }
}

/// The readings with a new one: stale ones are dropped, and the row's own is
/// replaced.
pub open spec fn with_reading(readings: Seq<(u64, DeviceState)>, state: DeviceState, now: u64) -> Seq<
    (u64, DeviceState),
> {
    others_from(readings, state.spec_id()@, now, 0).push((now, state))
}

impl StateCache {
    /// Nothing has been read.
    pub fn new() -> (r: StateCache)
        ensures
            r.readings@ == Seq::<(u64, DeviceState)>::empty(),
    {
        StateCache { readings: Vec::new() }
    }

    /// The reading of a row, while it is fresh.
    pub fn get(&self, id: &str, now: u64) -> (r: Option<DeviceState>)
        ensures
            r == fresh_from(self.readings@, id@, now, 0),
    {
        let mut i: usize = 0;
        while i < self.readings.len()
            invariant
                i <= self.readings.len(),
                fresh_from(self.readings@, id@, now, 0) == fresh_from(
                    self.readings@,
                    id@,
                    now,
                    i as int,
                ),
            decreases self.readings.len() - i,
        {
            if same(self.readings[i].1.id().as_str(), id) && since(now, self.readings[i].0)
                < FRESH_MS {
                return Some(self.readings[i].1.copy());
            }
            i = i + 1;
        }
        None
    }

    /// Remember a reading under its row.
    pub fn put(&mut self, state: DeviceState, now: u64)
        ensures
            final(self).readings@ == with_reading(old(self).readings@, state, now),
    {
        let ghost all = self.readings@;
        let ghost id = state.spec_id()@;
        let mut out: Vec<(u64, DeviceState)> = Vec::new();
        let mut i: usize = 0;
        assert(out@ + others_from(all, id, now, 0) =~= others_from(all, id, now, 0));
        while i < self.readings.len()
            invariant
                i <= self.readings.len(),
                all == self.readings@,
                id == state.spec_id()@,
                out@ + others_from(all, id, now, i as int) == others_from(all, id, now, 0),
            decreases self.readings.len() - i,
        {
            if since(now, self.readings[i].0) < FRESH_MS && !same(
                self.readings[i].1.id().as_str(),
                state.id().as_str(),
            ) {
                let ghost before = out@;
                out.push((self.readings[i].0, self.readings[i].1.copy()));
                assert(before + others_from(all, id, now, i as int) =~= out@ + others_from(
                    all,
                    id,
                    now,
                    i + 1,
                ));
            }
            i = i + 1;
        }
        assert(out@ + Seq::<(u64, DeviceState)>::empty() =~= out@);
        out.push((now, state));
        self.readings = out;
    }

    /// Forget what was read of a row.
    pub fn remove(&mut self, id: &str)
        ensures
            final(self).readings@ == without_from(old(self).readings@, id@, 0),
    {
        let ghost all = self.readings@;
        let mut out: Vec<(u64, DeviceState)> = Vec::new();
        let mut i: usize = 0;
        assert(out@ + without_from(all, id@, 0) =~= without_from(all, id@, 0));
        while i < self.readings.len()
            invariant
                i <= self.readings.len(),
                all == self.readings@,
                out@ + without_from(all, id@, i as int) == without_from(all, id@, 0),
            decreases self.readings.len() - i,
        {
            if !same(self.readings[i].1.id().as_str(), id) {
                let ghost before = out@;
                out.push((self.readings[i].0, self.readings[i].1.copy()));
                assert(before + without_from(all, id@, i as int) =~= out@ + without_from(
                    all,
                    id@,
                    i + 1,
                ));
            }
            i = i + 1;
        }
        assert(out@ + Seq::<(u64, DeviceState)>::empty() =~= out@);
        self.readings = out;
    }

    /// Forget what was read of the Hue rows.
    pub fn forget_hue(&mut self)
        ensures
            final(self).readings@ == without_hue_from(old(self).readings@, 0),
    {
        let ghost all = self.readings@;
        let mut out: Vec<(u64, DeviceState)> = Vec::new();
        let mut i: usize = 0;
        assert(out@ + without_hue_from(all, 0) =~= without_hue_from(all, 0));
        while i < self.readings.len()
            invariant
                i <= self.readings.len(),
                all == self.readings@,
                out@ + without_hue_from(all, i as int) == without_hue_from(all, 0),
            decreases self.readings.len() - i,
        {
            if !starts_with(self.readings[i].1.id().as_str(), "hue:") {
                let ghost before = out@;
                out.push((self.readings[i].0, self.readings[i].1.copy()));
                assert(before + without_hue_from(all, i as int) =~= out@ + without_hue_from(
                    all,
                    i + 1,
                ));
            }
            i = i + 1;
        }
        assert(out@ + Seq::<(u64, DeviceState)>::empty() =~= out@);
        self.readings = out;
    }
}

proof fn others_kept(readings: Seq<(u64, DeviceState)>, id: Seq<char>, at: u64, now: u64, i: int)
    requires
        0 <= i,
        at <= now,
    ensures
        forall|k: int|
            0 <= k < others_from(readings, id, at, i).len() ==> (#[trigger] others_from(
                readings,
                id,
                at,
                i,
            )[k]).1.spec_id()@ != id,
    decreases readings.len() - i,
{
    if i < readings.len() {
        others_kept(readings, id, at, now, i + 1);
        let rest = others_from(readings, id, at, i + 1);
        let all = others_from(readings, id, at, i);
        if elapsed(at, readings[i].0) < FRESH_MS && readings[i].1.spec_id()@ != id {
            assert(all =~= seq![readings[i]] + rest);
            assert forall|k: int| 0 <= k < all.len() implies (#[trigger] all[k]).1.spec_id()@
                != id by {
                if k > 0 {
                    assert(all[k] == rest[k - 1]);
                }
            }
        }
    }
}

proof fn pushed_reading(
    readings: Seq<(u64, DeviceState)>,
    state: DeviceState,
    at: u64,
    now: u64,
    i: int,
)
    requires
        0 <= i <= readings.len(),
        forall|k: int|
            0 <= k < readings.len() ==> (#[trigger] readings[k]).1.spec_id()@
                != state.spec_id()@,
    ensures
        fresh_from(readings.push((at, state)), state.spec_id()@, now, i) == if elapsed(now, at)
            < FRESH_MS {
            Some(state)
        } else {
            None
        },
    decreases readings.len() - i,
{
    let all = readings.push((at, state));
    if i < readings.len() {
        assert(all[i] == readings[i]);
        pushed_reading(readings, state, at, now, i + 1);
    } else {
        assert(all[i] == (at, state));
        reveal_with_fuel(fresh_from, 2);
    }
}

/// A reading is found again under its row for as long as it is fresh, and no
/// longer.
pub proof fn a_reading_is_kept_while_it_is_fresh(
    readings: Seq<(u64, DeviceState)>,
    state: DeviceState,
    at: u64,
    now: u64,
)
    requires
        at <= now,
    ensures
        fresh_from(with_reading(readings, state, at), state.spec_id()@, now, 0) == if now - at
            < FRESH_MS {
            Some(state)
        } else {
            None
        },
{
    let kept = others_from(readings, state.spec_id()@, at, 0);
    others_kept(readings, state.spec_id()@, at, now, 0);
    pushed_reading(kept, state, at, now, 0);
}

/// What is known of a row is a reading of that row, from the last five seconds.
pub proof fn a_fresh_reading_is_its_own_rows(
    readings: Seq<(u64, DeviceState)>,
    id: Seq<char>,
    now: u64,
    i: int,
)
    requires
        0 <= i,
    ensures
        match fresh_from(readings, id, now, i) {
            Some(state) => exists|k: int|
                i <= k < readings.len() && (#[trigger] readings[k]).1 == state && state.spec_id()@
                    == id && now < readings[k].0 + 5000,
            None => forall|k: int|
                i <= k < readings.len() && (#[trigger] readings[k]).0 <= now
                    && readings[k].1.spec_id()@ == id ==> now - readings[k].0 >= 5000,
        },
    decreases readings.len() - i,
{
    if i < readings.len() {
        a_fresh_reading_is_its_own_rows(readings, id, now, i + 1);
    }
}

/// A new reading of a row leaves the fresh ones of the others.
pub proof fn a_reading_leaves_the_others(
    readings: Seq<(u64, DeviceState)>,
    state: DeviceState,
    id: Seq<char>,
    now: u64,
)
    requires
        id != state.spec_id()@,
    ensures
        fresh_from(with_reading(readings, state, now), id, now, 0) == fresh_from(
            readings,
            id,
            now,
            0,
        ),
{
    the_others_stay(readings, state.spec_id()@, id, now, 0, (now, state));
}

proof fn the_others_stay(
    readings: Seq<(u64, DeviceState)>,
    gone: Seq<char>,
    id: Seq<char>,
    now: u64,
    i: int,
    last: (u64, DeviceState),
)
    requires
        0 <= i,
        id != gone,
        last.1.spec_id()@ == gone,
    ensures
        fresh_from(others_from(readings, gone, now, i).push(last), id, now, 0) == fresh_from(
            readings,
            id,
            now,
            i,
        ),
    decreases readings.len() - i,
{
    let kept = others_from(readings, gone, now, i);
    if i >= readings.len() {
        reveal_with_fuel(fresh_from, 2);
    } else {
        the_others_stay(readings, gone, id, now, i + 1, last);
        if elapsed(now, readings[i].0) < FRESH_MS && readings[i].1.spec_id()@ != gone {
            let rest = others_from(readings, gone, now, i + 1);
            assert(kept.push(last) =~= seq![readings[i]] + rest.push(last));
            one_further(readings[i], rest.push(last), id, now, 0);
        }
    }
}

proof fn one_further(
    first: (u64, DeviceState),
    rest: Seq<(u64, DeviceState)>,
    id: Seq<char>,
    now: u64,
    i: int,
)
    requires
        0 <= i,
    ensures
        fresh_from(seq![first] + rest, id, now, i + 1) == fresh_from(rest, id, now, i),
    decreases rest.len() - i,
{
    if i < rest.len() {
        one_further(first, rest, id, now, i + 1);
        assert((seq![first] + rest)[i + 1] == rest[i]);
    }
}

/// Of a row that is forgotten nothing is known, and the others stay.
pub proof fn a_forgotten_row_is_unknown(
    readings: Seq<(u64, DeviceState)>,
    id: Seq<char>,
    i: int,
    k: int,
)
    requires
        0 <= i,
    ensures
        0 <= k < without_from(readings, id, i).len() ==> without_from(readings, id, i)[k].1.spec_id()@
            != id,
        without_from(readings, id, i).len() <= readings.len() - i || i >= readings.len(),
        0 <= i < readings.len() && readings[i].1.spec_id()@ != id ==> without_from(
            readings,
            id,
            i,
        )[0] == readings[i],
    decreases readings.len() - i,
{
    if i < readings.len() {
        if readings[i].1.spec_id()@ != id {
            a_forgotten_row_is_unknown(readings, id, i + 1, k - 1);
            assert(without_from(readings, id, i) =~= seq![readings[i]] + without_from(
                readings,
                id,
                i + 1,
            ));
        } else {
            a_forgotten_row_is_unknown(readings, id, i + 1, k);
        }
    }
}

/// Forgetting the bridges' lamps keeps exactly what is none of theirs.
pub proof fn only_the_bridges_lamps_are_forgotten(
    readings: Seq<(u64, DeviceState)>,
    i: int,
    k: int,
)
    requires
        0 <= i,
    ensures
        0 <= k < without_hue_from(readings, i).len() ==> !begins(
            without_hue_from(readings, i)[k].1.spec_id()@,
            "hue:"@,
        ),
        0 <= i < readings.len() && !begins(readings[i].1.spec_id()@, "hue:"@) ==> without_hue_from(
            readings,
            i,
        )[0] == readings[i],
    decreases readings.len() - i,
{
    if i < readings.len() {
        if !begins(readings[i].1.spec_id()@, "hue:"@) {
            only_the_bridges_lamps_are_forgotten(readings, i + 1, k - 1);
            assert(without_hue_from(readings, i) =~= seq![readings[i]] + without_hue_from(
                readings,
                i + 1,
            ));
        } else {
            only_the_bridges_lamps_are_forgotten(readings, i + 1, k);
        }
    }
}

} // verus!
