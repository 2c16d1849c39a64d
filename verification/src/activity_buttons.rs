//! What the physical buttons mean: the bindings of an activity or of a
//! highlighted row, short and long presses, and the lanes that commands wait in.
use crate::commands::{Action, Binding, Button, Gesture, Notice, Reason, VolumeReading};
use crate::connections::given;
use crate::lights::{device_at, row_device};
use crate::model::{Activity, Config, Device, Integration, RowKey};
use crate::num::{next_generation, wrapped};
use crate::text::{after, begins, same, starts_with, strip_prefix};
use std::collections::VecDeque;
use vstd::prelude::*;

verus! {

/// How long a key is held before its long binding fires, in milliseconds.
pub const HOLD_MS: u64 = 600;

/// The context of a highlighted room row, as opposed to an activity's id.
pub const ROW: &'static str = "row:";

/// A room row's power key, which is resolved against what the device reports
/// when it is sent.
pub const POWER_TOGGLE: &'static str = "power-toggle";

/// A key going down or up.
#[derive(Clone, Copy, PartialEq, Eq, Structural, Debug)]
pub struct Press {
    pub code: u16,
    /// The button with that code, where the remote has one.
    pub button: Option<Button>,
    pub released: bool,
    pub repeat: bool,
    /// By which the caller finds the raw event again.
    pub tag: u64,
}

/// A key that is down and has a long binding.
#[derive(Clone, Copy, PartialEq, Eq, Structural, Debug)]
pub struct Pending {
    pub down: Press,
    /// When it went down, in milliseconds.
    pub at: u64,
    pub fired: bool,
}

/// A command on its way to the device's lane.
#[derive(Debug)]
pub struct Request {
    pub generation: u64,
    /// When the key was pressed, in milliseconds.
    pub at: u64,
    pub action: Action,
    pub repeat: bool,
    pub gesture: Gesture,
    /// Which hold a repeat belongs to. Releasing the key starts a new one, and
    /// a repeat of a hold that has ended is never sent.
    pub hold: u64,
}

/// What became of a press: whether a binding took it, and what is to be sent.
#[derive(Debug)]
pub struct Fired {
    pub taken: bool,
    pub request: Option<Request>,
}

/// What the main loop is told about a press.
#[derive(Debug)]
pub enum Feedback {
    Error(Reason),
    Volume(VolumeReading),
    Notice(Notice),
}

/// What the screens show that decides whose keys these are.
#[derive(Debug)]
pub struct Screen {
    pub player_shown: bool,
    pub tv_shown: bool,
    pub active_activity: String,
    pub light_shown: bool,
    pub chooser_shown: bool,
    pub light_room: String,
    pub light_index: i32,
    pub activity_running: bool,
}

/// The buttons as they are bound now, and the keys that are down.
#[derive(Debug)]
pub struct Controller {
    pub context: String,
    /// Which configuration the bindings come from; 0 for none.
    pub version: u64,
    pub bindings: Vec<Binding>,
    pub pending: Vec<Pending>,
    pub replay: VecDeque<Press>,
    pub generation: u64,
    /// A fresh press that its queue had no room for.
    pub dropped: bool,
    pub activity_running: bool,
    pub hold: u64,
    pub screen_device: Option<String>,
}

/// One binding of a row's key.
pub open spec fn row_binding(
    b: Binding,
    button: Button,
    device: Seq<char>,
    command: Seq<char>,
    repeats: bool,
) -> bool {
    &&& b.button == button
    &&& b.gesture == Gesture::Short
    &&& b.action matches Some(a)
    &&& a.device@ == device
    &&& a.command@ == command
    &&& a.repeatable == repeats
}

/// A supported key and its command, or nothing where it is not supported.
pub open spec fn row_key(key: RowKey, button: Button, command: Seq<char>) -> Seq<
    (Button, Seq<char>, bool),
> {
    if key.supported {
        seq![(button, command, key.repeats)]
    } else {
        Seq::empty()
    }
}

/// The power key of a device that can be switched both ways.
pub open spec fn row_power(device: Device) -> Seq<(Button, Seq<char>, bool)> {
    row_key(
        RowKey {
            supported: device.keys.toggle || device.keys.power_on && device.keys.power_off,
            repeats: device.keys.power_repeats,
        },
        Button::Power,
        POWER_TOGGLE@,
    )
}

/// What a row's keys are bound to: a button, its command, and whether a held
/// key repeats it.
pub open spec fn row_keys(device: Device) -> Seq<(Button, Seq<char>, bool)> {
    if device.can_toggle || (device.integration matches Some(i) && i is Sonos) {
        Seq::empty()
    } else {
        row_key(device.keys.volume_up, Button::VolumeUp, "volume-up"@) + row_key(
            device.keys.volume_down,
            Button::VolumeDown,
            "volume-down"@,
        ) + row_key(device.keys.mute, Button::Mute, "mute"@) + row_power(device)
    }
}

/// Whether bindings are keys' bindings, one for one.
pub open spec fn bound(
    bindings: Seq<Binding>,
    device: Seq<char>,
    keys: Seq<(Button, Seq<char>, bool)>,
) -> bool {
    &&& bindings.len() == keys.len()
    &&& forall|i: int|
        0 <= i < keys.len() ==> row_binding(
            #[trigger] bindings[i],
            keys[i].0,
            device,
            keys[i].1,
            keys[i].2,
        )
}

/// Whether bindings are what a row's keys are bound to.
pub open spec fn bound_to_row(bindings: Seq<Binding>, device: Device) -> bool {
    bound(bindings, device.id@, row_keys(device))
}

/// Add a key's binding where the key is supported.
fn bind_key(
    out: &mut Vec<Binding>,
    device: &Device,
    key: RowKey,
    button: Button,
    command: &str,
    keys: Ghost<Seq<(Button, Seq<char>, bool)>>,
)
    requires
        bound(old(out)@, device.id@, keys@),
    ensures
        bound(final(out)@, device.id@, keys@ + row_key(key, button, command@)),
{
    if key.supported {
        out.push(bind(device, button, command, key.repeats));
    }
}

fn bind(device: &Device, button: Button, command: &str, repeatable: bool) -> (r: Binding)
    ensures
        row_binding(r, button, device.id@, command@, repeatable),
{
    Binding {
        button,
        gesture: Gesture::Short,
        action: Some(
            Action { device: device.id.clone(), command: command.to_owned(), repeatable },
        ),
    }
}

/// What the volume, mute and power keys do while a device's row is highlighted:
/// whatever the device supports. A speaker with its own controller and a row
/// that is switched have no use for them.
pub fn row_bindings(device: &Device) -> (r: Vec<Binding>)
    ensures
        bound_to_row(r@, *device),
{
    let mut out: Vec<Binding> = Vec::new();
    let own = match &device.integration {
        Some(Integration::Sonos { .. }) => true,
        _ => false,
    };
    if device.can_toggle || own {
        return out;
    }
    let keys = &device.keys;
    let ghost none = Seq::<(Button, Seq<char>, bool)>::empty();
    let ghost up = row_key(keys.volume_up, Button::VolumeUp, "volume-up"@);
    let ghost down = row_key(keys.volume_down, Button::VolumeDown, "volume-down"@);
    let ghost mute = row_key(keys.mute, Button::Mute, "mute"@);
    bind_key(&mut out, device, keys.volume_up, Button::VolumeUp, "volume-up", Ghost(none));
    assert(none + up =~= up);
    bind_key(&mut out, device, keys.volume_down, Button::VolumeDown, "volume-down", Ghost(up));
    bind_key(&mut out, device, keys.mute, Button::Mute, "mute", Ghost(up + down));
    let power = RowKey {
        supported: keys.toggle || keys.power_on && keys.power_off,
        repeats: keys.power_repeats,
    };
    bind_key(&mut out, device, power, Button::Power, POWER_TOGGLE, Ghost(up + down + mute));
    out
}

/// The first binding of a button at or after a place.
pub open spec fn binding_from(bindings: Seq<Binding>, button: Button, gesture: Gesture, i: int) -> Option<
    Binding,
>
    decreases bindings.len() - i,
{
    if i < 0 || i >= bindings.len() {
        None
    } else if bindings[i].button == button && bindings[i].gesture == gesture {
        Some(bindings[i])
    } else {
        binding_from(bindings, button, gesture, i + 1)
    }
}

/// The place of the key with that code among those that are down.
pub open spec fn pending_from(pending: Seq<Pending>, code: u16, i: int) -> Option<int>
    decreases pending.len() - i,
{
    if i < 0 || i >= pending.len() {
        None
    } else if pending[i].down.code == code {
        Some(i)
    } else {
        pending_from(pending, code, i + 1)
    }
}

/// The buttons and keys, as mathematical values.
#[verifier::ext_equal]
pub struct State {
    pub context: Seq<char>,
    pub version: u64,
    pub bindings: Seq<Binding>,
    pub pending: Seq<Pending>,
    pub replay: Seq<Press>,
    pub generation: u64,
    pub dropped: bool,
    pub activity_running: bool,
    pub hold: u64,
    pub screen_device: Option<String>,
}

impl View for Controller {
    type V = State;

    open spec fn view(&self) -> State {
        State {
            context: self.context@,
            version: self.version,
            bindings: self.bindings@,
            pending: self.pending@,
            replay: self.replay@,
            generation: self.generation,
            dropped: self.dropped,
            activity_running: self.activity_running,
            hold: self.hold,
            screen_device: self.screen_device,
        }
    }
}

impl State {
    /// Each key is down once.
    pub open spec fn wf(self) -> bool {
        forall|i: int, j: int|
            0 <= i < j < self.pending.len() ==> (#[trigger] self.pending[i]).down.code != (
            #[trigger] self.pending[j]).down.code
    }

    /// What a button is bound to. A row yields its power key to an activity
    /// that is running, which ends with it.
    pub open spec fn binding(self, button: Button, gesture: Gesture) -> Option<Binding> {
        if button == Button::Power && self.activity_running && begins(self.context, ROW@) {
            None
        } else {
            binding_from(self.bindings, button, gesture, 0)
        }
    }

    /// What a button sends: nothing where it is not bound, where its binding is
    /// switched off, and where a held key would repeat what does not repeat.
    pub open spec fn fire(self, button: Button, gesture: Gesture, repeat: bool, now: u64) -> Fired {
        match self.binding(button, gesture) {
            None => Fired { taken: false, request: None },
            Some(b) => match b.action {
                None => Fired { taken: true, request: None },
                Some(action) => Fired {
                    taken: true,
                    request: if !repeat || action.repeatable {
                        Some(
                            Request {
                                generation: self.generation,
                                at: now,
                                action,
                                repeat,
                                gesture,
                                hold: self.hold,
                            },
                        )
                    } else {
                        None
                    },
                },
            },
        }
    }

    /// What a key that goes up does. A long binding fires where the key was
    /// held long enough and has not fired it already; a shorter press is the
    /// short binding's, or is replayed where there is none.
    pub open spec fn release(self, press: Press, button: Button, now: u64) -> (State, Fired) {
        let up = State { hold: wrapped(self.hold), ..self };
        match pending_from(self.pending, press.code, 0) {
            None => (
                up,
                Fired { taken: up.binding(button, Gesture::Short) is Some, request: None },
            ),
            Some(k) => {
                let pending = self.pending[k];
                let gone = State { pending: self.pending.remove(k), ..up };
                let short = gone.fire(button, Gesture::Short, false, now);
                if pending.fired {
                    (gone, Fired { taken: true, request: None })
                } else if now - pending.at >= HOLD_MS {
                    (
                        gone,
                        Fired {
                            taken: true,
                            request: gone.fire(button, Gesture::Long, false, now).request,
                        },
                    )
                } else if short.taken {
                    (gone, short)
                } else {
                    (
                        State { replay: gone.replay.push(pending.down).push(press), ..gone },
                        Fired { taken: true, request: None },
                    )
                }
            },
        }
    }

    /// What a key that goes down, or is held down, does. With a long binding it
    /// waits to see which it is; without one the short binding fires at once.
    pub open spec fn down(self, press: Press, button: Button, now: u64) -> (State, Fired) {
        if self.binding(button, Gesture::Long) is Some {
            (
                if press.repeat || pending_from(self.pending, press.code, 0) is Some {
                    self
                } else {
                    State {
                        pending: self.pending.push(Pending { down: press, at: now, fired: false }),
                        ..self
                    }
                },
                Fired { taken: true, request: None },
            )
        } else {
            (self, self.fire(button, Gesture::Short, press.repeat, now))
        }
    }

    /// What a press does.
    pub open spec fn pressed(self, press: Press, now: u64) -> (State, Fired) {
        match press.button {
            None => (self, Fired { taken: false, request: None }),
            Some(button) => if press.released {
                self.release(press, button, now)
            } else {
                self.down(press, button, now)
            },
        }
    }
}

/// Whether a key that is down has been held long enough for its long binding
/// and has not fired it.
pub open spec fn due(p: Pending, now: u64) -> bool {
    !p.fired && now - p.at >= HOLD_MS
}

/// The requests of the long bindings that are due, in the order of the keys.
pub open spec fn due_requests(state: State, now: u64, i: int) -> Seq<Request>
    decreases state.pending.len() - i,
{
    if i < 0 || i >= state.pending.len() {
        Seq::empty()
    } else {
        let p = state.pending[i];
        let rest = due_requests(state, now, i + 1);
        if due(p, now) && p.down.button is Some {
            match state.fire(p.down.button->0, Gesture::Long, false, now).request {
                Some(request) => seq![request] + rest,
                None => rest,
            }
        } else {
            rest
        }
    }
}

/// The keys that are down once the due ones have fired.
pub open spec fn fired_pending(pending: Seq<Pending>, now: u64) -> Seq<Pending> {
    pending.map_values(
        |p: Pending| if due(p, now) {
            Pending { fired: true, ..p }
        } else {
            p
        },
    )
}

/// The last reply of a generation among the first `n`.
pub open spec fn last_current(replies: Seq<(u64, Feedback)>, generation: u64, n: int) -> Option<
    Feedback,
>
    decreases n,
{
    if n <= 0 || n > replies.len() {
        None
    } else if replies[n - 1].0 == generation {
        Some(replies[n - 1].1)
    } else {
        last_current(replies, generation, n - 1)
    }
}

/// The bindings of an activity, at or after a place: all but a long press of
/// Back, which always leaves.
pub open spec fn kept_buttons(buttons: Seq<Binding>, i: int) -> Seq<Binding>
    decreases buttons.len() - i,
{
    if i < 0 || i >= buttons.len() {
        Seq::empty()
    } else if buttons[i].button == Button::Back && buttons[i].gesture == Gesture::Long {
        kept_buttons(buttons, i + 1)
    } else {
        seq![buttons[i]] + kept_buttons(buttons, i + 1)
    }
}

/// The first activity of that name at or after a place.
pub open spec fn activity_from(activities: Seq<Activity>, id: Seq<char>, i: int) -> Option<Activity>
    decreases activities.len() - i,
{
    if i < 0 || i >= activities.len() {
        None
    } else if activities[i].id@ == id {
        Some(activities[i])
    } else {
        activity_from(activities, id, i + 1)
    }
}

/// Whether bindings are those of a context: a row's keys, or an activity's
/// buttons, and none where the row's device or the activity is gone.
pub open spec fn bindings_of(bindings: Seq<Binding>, config: Config, context: Seq<char>) -> bool {
    if begins(context, ROW@) {
        match config.spec_device(after(context, ROW@.len())) {
            Some(d) => bound_to_row(bindings, d),
            None => bindings.len() == 0,
        }
    } else {
        match activity_from(config.activities@, context, 0) {
            Some(a) => bindings == kept_buttons(a.buttons@, 0),
            None => bindings.len() == 0,
        }
    }
}

impl State {
    /// Whether a state is what a context and a configuration leave of this one.
    /// Where either has changed, every key that is down is forgotten and requests
    /// that still wait become stale.
    pub open spec fn refreshed(
        self,
        context: Seq<char>,
        config: Option<Config>,
        version: u64,
        next: State,
    ) -> bool {
        let changed = match config {
            Some(_) => version != self.version,
            None => self.bindings.len() > 0,
        };
        if context == self.context && !changed {
            next == self
        } else {
            &&& next == (State {
                context,
                version: if config is Some {
                    version
                } else {
                    0
                },
                bindings: next.bindings,
                pending: Seq::empty(),
                replay: Seq::empty(),
                generation: wrapped(self.generation),
                ..self
            })
            &&& match config {
                Some(config) => bindings_of(next.bindings, config, context),
                None => next.bindings.len() == 0,
            }
        }
    }
}

fn activity_bindings(config: &Config, id: &str) -> (r: Vec<Binding>)
    ensures
        match activity_from(config.activities@, id@, 0) {
            Some(a) => r@ == kept_buttons(a.buttons@, 0),
            None => r@.len() == 0,
        },
{
    let mut out: Vec<Binding> = Vec::new();
    let mut i: usize = 0;
    while i < config.activities.len()
        invariant
            i <= config.activities.len(),
            out@.len() == 0,
            activity_from(config.activities@, id@, 0) == activity_from(
                config.activities@,
                id@,
                i as int,
            ),
        decreases config.activities.len() - i,
    {
        if same(config.activities[i].id.as_str(), id) {
            let buttons = &config.activities[i].buttons;
            let mut k: usize = 0;
            assert(out@ + kept_buttons(buttons@, 0) =~= kept_buttons(buttons@, 0));
            while k < buttons.len()
                invariant
                    k <= buttons.len(),
                    out@ + kept_buttons(buttons@, k as int) == kept_buttons(buttons@, 0),
                decreases buttons.len() - k,
            {
                let back = buttons[k].button == Button::Back && buttons[k].gesture == Gesture::Long;
                if !back {
                    let ghost before = out@;
                    out.push(buttons[k].copy());
                    assert(before + kept_buttons(buttons@, k as int) =~= out@ + kept_buttons(
                        buttons@,
                        k + 1,
                    ));
                }
                k = k + 1;
            }
            assert(out@ + Seq::<Binding>::empty() =~= out@);
            return out;
        }
        i = i + 1;
    }
    out
}

/// The row context of a device.
pub open spec fn row_context(device: Seq<char>) -> Seq<char> {
    ROW@ + device
}

fn context_of_row(device: &str) -> (r: String)
    ensures
        r@ == row_context(device@),
{
    let mut s = ROW.to_owned();
    s.append(device);
    s
}

/// Whose keys these are. On a player or a television screen they are the active
/// activity's, or those of the device whose own screen it is; over a room's
/// list they are the highlighted row's, where the row has a use for them;
/// anywhere else they are nobody's.
pub open spec fn context_for(
    screen: Screen,
    screen_device: Option<String>,
    config: Option<Config>,
) -> Seq<char> {
    let active = screen.active_activity@;
    if screen.player_shown || screen.tv_shown {
        if begins(active, "device:"@) {
            row_context(after(active, "device:"@.len()))
        } else if screen_device is Some && active.len() == 0 {
            row_context(screen_device->0@)
        } else {
            active
        }
    } else if screen.light_shown && !screen.chooser_shown && screen.light_index >= 0 {
        match config {
            Some(config) => match row_device(config, screen.light_room@, screen.light_index as int) {
                Some(d) => if row_keys(d).len() == 0 {
                    Seq::empty()
                } else {
                    row_context(d.id@)
                },
                None => Seq::empty(),
            },
            None => Seq::empty(),
        }
    } else {
        Seq::empty()
    }
}

impl Controller {
    /// No bindings and no key down.
    pub fn new() -> (r: Controller)
        ensures
            r@ == (State {
                context: Seq::empty(),
                version: 0,
                bindings: Seq::empty(),
                pending: Seq::empty(),
                replay: Seq::empty(),
                generation: 0,
                dropped: false,
                activity_running: false,
                hold: 0,
                screen_device: None,
            }),
            r@.wf(),
    {
        Controller {
            context: String::new(),
            version: 0,
            bindings: Vec::new(),
            pending: Vec::new(),
            replay: VecDeque::new(),
            generation: 0,
            dropped: false,
            activity_running: false,
            hold: 0,
            screen_device: None,
        }
    }

    /// What a button is bound to.
    pub fn binding(&self, button: Button, gesture: Gesture) -> (r: Option<&Binding>)
        ensures
            match r {
                Some(b) => self@.binding(button, gesture) == Some(*b),
                None => self@.binding(button, gesture) is None,
            },
    {
        if button == Button::Power && self.activity_running && starts_with(
            self.context.as_str(),
            ROW,
        ) {
            return None;
        }
        let mut i: usize = 0;
        while i < self.bindings.len()
            invariant
                i <= self.bindings.len(),
                self@.binding(button, gesture) == binding_from(
                    self.bindings@,
                    button,
                    gesture,
                    i as int,
                ),
            decreases self.bindings.len() - i,
        {
            if self.bindings[i].button == button && self.bindings[i].gesture == gesture {
                return Some(&self.bindings[i]);
            }
            i = i + 1;
        }
        None
    }

    /// What a button sends.
    pub fn fire(&self, button: Button, gesture: Gesture, repeat: bool, now: u64) -> (r: Fired)
        ensures
            r == self@.fire(button, gesture, repeat, now),
    {
        match self.binding(button, gesture) {
            None => Fired { taken: false, request: None },
            Some(b) => match &b.action {
                None => Fired { taken: true, request: None },
                Some(action) => if !repeat || action.repeatable {
                    Fired {
                        taken: true,
                        request: Some(
                            Request {
                                generation: self.generation,
                                at: now,
                                action: action.copy(),
                                repeat,
                                gesture,
                                hold: self.hold,
                            },
                        ),
                    }
                } else {
                    Fired { taken: true, request: None }
                },
            },
        }
    }

    /// How handing a request to its queue went. A held key repeats faster than
    /// a slow device answers, so only a fresh press without room is remembered.
    pub fn queued(&mut self, repeat: bool, room: bool)
        ensures
            final(self)@ == (State { dropped: old(self).dropped || !room && !repeat, ..old(self)@ }),
    {
        if !room && !repeat {
            self.dropped = true;
        }
    }

    /// The oldest press that is to be replayed.
    pub fn next_replay(&mut self) -> (r: Option<Press>)
        ensures
            if old(self)@.replay.len() == 0 {
                r is None && final(self)@ == old(self)@
            } else {
                r == Some(old(self)@.replay[0]) && final(self)@ == (State {
                    replay: old(self)@.replay.subrange(1, old(self)@.replay.len() as int),
                    ..old(self)@
                })
            },
    {
        self.replay.pop_front()
    }

    /// The packaged device whose own control screen is open, if one is.
    pub fn set_screen_device(&mut self, device: Option<String>)
        ensures
            final(self)@ == (State { screen_device: device, ..old(self)@ }),
    {
        self.screen_device = device;
    }

    fn place(&self, code: u16) -> (r: Option<usize>)
        ensures
            match r {
                Some(k) => pending_from(self.pending@, code, 0) == Some(k as int) && k
                    < self.pending@.len(),
                None => pending_from(self.pending@, code, 0) is None,
            },
    {
        let mut i: usize = 0;
        while i < self.pending.len()
            invariant
                i <= self.pending.len(),
                pending_from(self.pending@, code, 0) == pending_from(self.pending@, code, i as int),
            decreases self.pending.len() - i,
        {
            if self.pending[i].down.code == code {
                return Some(i);
            }
            i = i + 1;
        }
        None
    }

    /// What a press does.
    pub fn handle_press(&mut self, press: &Press, now: u64) -> (r: Fired)
        requires
            old(self)@.wf(),
        ensures
            (final(self)@, r) == old(self)@.pressed(*press, now),
            final(self)@.wf(),
    {
        proof {
            absent_code(self.pending@, press.code, 0);
        }
        let button = match press.button {
            Some(button) => button,
            None => return Fired { taken: false, request: None },
        };
        if press.released {
            self.hold = next_generation(self.hold);
            match self.place(press.code) {
                None => {
                    let taken = self.binding(button, Gesture::Short).is_some();
                    Fired { taken, request: None }
                },
                Some(k) => {
                    let pending: Pending = self.pending[k];
                    self.pending.remove(k);
                    if pending.fired {
                        Fired { taken: true, request: None }
                    } else if now >= pending.at && now - pending.at >= HOLD_MS {
                        let fired = self.fire(button, Gesture::Long, false, now);
                        Fired { taken: true, request: fired.request }
                    } else {
                        let fired = self.fire(button, Gesture::Short, false, now);
                        if fired.taken {
                            fired
                        } else {
                            self.replay.push_back(pending.down);
                            self.replay.push_back(*press);
                            Fired { taken: true, request: None }
                        }
                    }
                },
            }
        } else if self.binding(button, Gesture::Long).is_some() {
            if !press.repeat && self.place(press.code).is_none() {
                self.pending.push(Pending { down: *press, at: now, fired: false });
            }
            Fired { taken: true, request: None }
        } else {
            self.fire(button, Gesture::Short, press.repeat, now)
        }
    }

    /// Whether the screens let the buttons be handled at all.
    pub fn handle(&mut self, press: &Press, now: u64, pairing: bool, settings: bool, keyboard: bool) -> (r:
        Fired)
        requires
            old(self)@.wf(),
        ensures
            if old(self)@.context.len() == 0 || pairing || settings || keyboard {
                final(self)@ == old(self)@ && r == (Fired { taken: false, request: None })
            } else {
                (final(self)@, r) == old(self)@.pressed(*press, now)
            },
            final(self)@.wf(),
    {
        if self.context.as_str().is_empty() || pairing || settings || keyboard {
            return Fired { taken: false, request: None };
        }
        self.handle_press(press, now)
    }

    /// Take up a context and a configuration. Where either has changed, every
    /// key that is down is forgotten and requests that still wait become stale.
    pub fn refresh(&mut self, context: String, config: Option<&Config>, version: u64)
        ensures
            old(self)@.refreshed(context@, given(config), version, final(self)@),
    {
        let changed = match config {
            Some(_) => version != self.version,
            None => self.bindings.len() > 0,
        };
        if same(context.as_str(), self.context.as_str()) && !changed {
            return;
        }
        self.generation = next_generation(self.generation);
        self.pending = Vec::new();
        self.replay = VecDeque::new();
        match config {
            Some(config) => {
                self.bindings = match strip_prefix(context.as_str(), ROW) {
                    Some(id) => match config.device(id) {
                        Some(d) => row_bindings(d),
                        None => Vec::new(),
                    },
                    None => activity_bindings(config, context.as_str()),
                };
                self.version = version;
            },
            None => {
                self.bindings = Vec::new();
                self.version = 0;
            },
        }
        self.context = context;
    }

    /// Whose keys these are, given what the screens show.
    pub fn context_now(&self, screen: &Screen, config: Option<&Config>) -> (r: String)
        ensures
            r@ == context_for(*screen, self.screen_device, given(config)),
    {
        if screen.player_shown || screen.tv_shown {
            let active = screen.active_activity.as_str();
            match strip_prefix(active, "device:") {
                Some(id) => context_of_row(id),
                None => match &self.screen_device {
                    Some(id) => if active.is_empty() {
                        context_of_row(id.as_str())
                    } else {
                        active.to_owned()
                    },
                    None => active.to_owned(),
                },
            }
        } else if screen.light_shown && !screen.chooser_shown && screen.light_index >= 0 {
            match config {
                Some(config) => match device_at(
                    config,
                    screen.light_room.as_str(),
                    screen.light_index as usize,
                ) {
                    Some(d) => if row_bindings(d).len() == 0 {
                        String::new()
                    } else {
                        context_of_row(d.id.as_str())
                    },
                    None => String::new(),
                },
                None => String::new(),
            }
        } else {
            String::new()
        }
    }

    /// Follow what the screens show.
    pub fn sync_context(&mut self, screen: &Screen, config: Option<&Config>, version: u64)
        requires
            old(self)@.wf(),
        ensures
            (State { activity_running: screen.activity_running, ..old(self)@ }).refreshed(
                context_for(*screen, old(self).screen_device, given(config)),
                given(config),
                version,
                final(self)@,
            ),
            final(self)@.wf(),
    {
        self.activity_running = screen.activity_running;
        let context = self.context_now(screen, config);
        self.refresh(context, config, version);
    }

    /// Fire the long bindings of the keys that have been held long enough.
    pub fn poll(&mut self, now: u64) -> (r: Vec<Request>)
        requires
            old(self)@.wf(),
        ensures
            r@ == due_requests(old(self)@, now, 0),
            final(self)@ == (State {
                pending: fired_pending(old(self)@.pending, now),
                ..old(self)@
            }),
            final(self)@.wf(),
    {
        let mut out: Vec<Request> = Vec::new();
        let mut i: usize = 0;
        assert(out@ + due_requests(self@, now, 0) =~= due_requests(self@, now, 0));
        while i < self.pending.len()
            invariant
                i <= self.pending.len(),
                self.pending@.len() == old(self)@.pending.len(),
                forall|k: int| i <= k < self.pending@.len() ==> self.pending@[k] == #[trigger] old(
                    self,
                )@.pending[k],
                forall|k: int|
                    0 <= k < i ==> #[trigger] self.pending@[k] == fired_pending(
                        old(self)@.pending,
                        now,
                    )[k],
                self@ == (State { pending: self.pending@, ..old(self)@ }),
                out@ + due_requests(old(self)@, now, i as int) == due_requests(old(self)@, now, 0),
            decreases self.pending.len() - i,
        {
            let p: Pending = self.pending[i];
            assert(p == old(self)@.pending[i as int]);
            if !p.fired && now >= p.at && now - p.at >= HOLD_MS {
                self.pending.set(i, Pending { down: p.down, at: p.at, fired: true });
                match p.down.button {
                    Some(button) => {
                        let fired = self.fire(button, Gesture::Long, false, now);
                        match fired.request {
                            Some(request) => {
                                let ghost before = out@;
                                out.push(request);
                                assert(before + due_requests(old(self)@, now, i as int) =~= out@
                                    + due_requests(old(self)@, now, i + 1));
                            },
                            None => {},
                        }
                    },
                    None => {},
                }
            }
            i = i + 1;
        }
        assert(out@ + Seq::<Request>::empty() =~= out@);
        assert(self@.pending =~= fired_pending(old(self)@.pending, now));
        proof {
            assert forall|a: int, b: int|
                0 <= a < b < self@.pending.len() implies (#[trigger] self@.pending[a]).down.code
                != (#[trigger] self@.pending[b]).down.code by {
                assert(old(self)@.pending[a].down.code != old(self)@.pending[b].down.code);
            }
        }
        out
    }

    /// What the lanes and the queue left for the main loop: the lost press
    /// first, else the last reply that is not stale.
    pub fn feedback(&mut self, replies: Vec<(u64, Feedback)>) -> (r: Option<Feedback>)
        ensures
            final(self)@ == (State { dropped: false, ..old(self)@ }),
            r == if old(self).dropped {
                Some(Feedback::Error(Reason::StillSending))
            } else {
                last_current(replies@, old(self).generation, replies@.len() as int)
            },
    {
        if self.dropped {
            self.dropped = false;
            return Some(Feedback::Error(Reason::StillSending));
        }
        let mut left = replies;
        loop
            invariant
                self@ == old(self)@,
                !self.dropped,
                left@.len() <= replies@.len(),
                left@ == replies@.take(left@.len() as int),
                last_current(replies@, self.generation, replies@.len() as int) == last_current(
                    replies@,
                    self.generation,
                    left@.len() as int,
                ),
            decreases left@.len(),
        {
            let ghost n = left@.len() as int;
            match left.pop() {
                Some((generation, reply)) => {
                    assert(replies@[n - 1] == (generation, reply));
                    if generation == self.generation {
                        return Some(reply);
                    }
                },
                None => {
                    return None;
                },
            }
        }
    }
}

proof fn absent_code(pending: Seq<Pending>, code: u16, i: int)
    requires
        0 <= i,
    ensures
        pending_from(pending, code, i) is None ==> forall|k: int|
            i <= k < pending.len() ==> (#[trigger] pending[k]).down.code != code,
        pending_from(pending, code, i) matches Some(k) ==> i <= k < pending.len()
            && pending[k].down.code == code,
    decreases pending.len() - i,
{
    if i < pending.len() && pending[i].down.code != code {
        absent_code(pending, code, i + 1);
    }
}

/// Another configuration, or other keys on the screen, call off what waits: no
/// key stays down, and nothing that was requested before is current.
pub proof fn a_change_calls_off_what_waits(
    before: State,
    context: Seq<char>,
    config: Option<Config>,
    version: u64,
    next: State,
)
    requires
        before.refreshed(context, config, version, next),
        context != before.context || config is Some && version != before.version,
    ensures
        next.pending.len() == 0,
        next.replay.len() == 0,
        forall|button: Button, gesture: Gesture, repeat: bool, now: u64|
            (#[trigger] before.fire(button, gesture, repeat, now)).request matches Some(request)
                ==> request.generation != next.generation,
{
}

/// A key's short and long bindings exclude each other: between going down and
/// coming up, a key with both fires one of them once.
pub proof fn short_and_long_exclude_each_other(state: State, press: Press, button: Button, now: u64)
    requires
        state.wf(),
        press.released,
        press.button == Some(button),
        pending_from(state.pending, press.code, 0) is Some,
    ensures
        ({
            let pending = state.pending[pending_from(state.pending, press.code, 0)->0];
            let request = state.pressed(press, now).1.request;
            &&& pending.fired ==> request is None
            &&& !pending.fired && now - pending.at >= HOLD_MS ==> (request matches Some(r)
                ==> r.gesture == Gesture::Long)
            &&& !pending.fired && now - pending.at < HOLD_MS ==> (request matches Some(r)
                ==> r.gesture == Gesture::Short)
        }),
{
}

/// Releasing a key ends its hold: a repeat that was requested before carries
/// another hold than anything requested after.
pub proof fn a_release_ends_the_hold(state: State, press: Press, button: Button, now: u64)
    requires
        press.released,
        press.button == Some(button),
    ensures
        state.pressed(press, now).0.hold != state.hold,
        state.pressed(press, now).1.request matches Some(r) ==> r.hold == state.pressed(
            press,
            now,
        ).0.hold,
{
}

/// What the keys do on a highlighted row: each key that the device supports sends
/// the command of its own name to that device, on a short press; a speaker and
/// what is switched have keys of their own.
pub proof fn a_rows_keys_are_its_devices_own(bindings: Seq<Binding>, device: Device)
    requires
        bound_to_row(bindings, device),
        !device.can_toggle,
        !(device.integration matches Some(i) && i is Sonos),
    ensures
        ({
            let sends = |button: Button, command: Seq<char>, repeats: bool|
                exists|k: int|
                    0 <= k < bindings.len() && (#[trigger] bindings[k]).button == button
                        && bindings[k].gesture is Short && (bindings[k].action matches Some(a)
                        && a.device@ == device.id@ && a.command@ == command && a.repeatable
                        == repeats);
            let none = |button: Button|
                forall|k: int|
                    0 <= k < bindings.len() ==> (#[trigger] bindings[k]).button != button;
            &&& device.keys.volume_up.supported ==> sends(
                Button::VolumeUp,
                "volume-up"@,
                device.keys.volume_up.repeats,
            )
            &&& !device.keys.volume_up.supported ==> none(Button::VolumeUp)
            &&& device.keys.volume_down.supported ==> sends(
                Button::VolumeDown,
                "volume-down"@,
                device.keys.volume_down.repeats,
            )
            &&& !device.keys.volume_down.supported ==> none(Button::VolumeDown)
            &&& device.keys.mute.supported ==> sends(
                Button::Mute,
                "mute"@,
                device.keys.mute.repeats,
            )
            &&& !device.keys.mute.supported ==> none(Button::Mute)
            &&& device.keys.toggle || device.keys.power_on && device.keys.power_off ==> sends(
                Button::Power,
                "power-toggle"@,
                device.keys.power_repeats,
            )
            &&& !device.keys.toggle && !(device.keys.power_on && device.keys.power_off) ==> none(
                Button::Power,
            )
        }),
{
    let up = row_key(device.keys.volume_up, Button::VolumeUp, "volume-up"@);
    let down = row_key(device.keys.volume_down, Button::VolumeDown, "volume-down"@);
    let mute = row_key(device.keys.mute, Button::Mute, "mute"@);
    let power = row_power(device);
    let keys = row_keys(device);
    assert(keys =~= up + down + mute + power);
    let a = up.len() as int;
    let b = a + down.len();
    let c = b + mute.len();
    if device.keys.volume_up.supported {
        assert(keys[0] == up[0]);
        assert(row_binding(bindings[0], keys[0].0, device.id@, keys[0].1, keys[0].2));
    }
    if device.keys.volume_down.supported {
        assert(keys[a] == down[0]);
        assert(row_binding(bindings[a], keys[a].0, device.id@, keys[a].1, keys[a].2));
    }
    if device.keys.mute.supported {
        assert(keys[b] == mute[0]);
        assert(row_binding(bindings[b], keys[b].0, device.id@, keys[b].1, keys[b].2));
    }
    if power.len() > 0 {
        assert(keys[c] == power[0]);
        assert(row_binding(bindings[c], keys[c].0, device.id@, keys[c].1, keys[c].2));
    }
    assert forall|k: int| 0 <= k < bindings.len() implies (#[trigger] bindings[k]).button
        == keys[k].0 by {
        assert(row_binding(bindings[k], keys[k].0, device.id@, keys[k].1, keys[k].2));
    }
    assert forall|k: int| 0 <= k < keys.len() implies keys[k] == if k < a {
        up[k]
    } else if k < b {
        down[k - a]
    } else if k < c {
        mute[k - b]
    } else {
        power[k - c]
    } by {}
}

/// A speaker's row and a row that is switched have no bindings here.
pub proof fn some_rows_have_keys_of_their_own(device: Device)
    ensures
        device.can_toggle ==> row_keys(device).len() == 0,
        (device.integration matches Some(i) && i is Sonos) ==> row_keys(device).len() == 0,
{
}

/// A bound key sends its own action, once for a press, and again while it is held
/// only where that repeats; a key that is not bound is nobody's.
pub proof fn a_bound_key_sends_its_own_action(
    state: State,
    button: Button,
    gesture: Gesture,
    repeat: bool,
    now: u64,
)
    ensures
        ({
            let fired = state.fire(button, gesture, repeat, now);
            match state.binding(button, gesture) {
                None => !fired.taken && fired.request is None,
                Some(binding) => {
                    &&& fired.taken
                    &&& binding.button == button && binding.gesture == gesture
                    &&& match binding.action {
                        None => fired.request is None,
                        Some(action) => if repeat && !action.repeatable {
                            fired.request is None
                        } else {
                            &&& fired.request matches Some(request)
                            &&& request.action == action && request.gesture == gesture
                                && request.repeat == repeat && request.at == now
                                && request.generation == state.generation && request.hold
                                == state.hold
                        },
                    }
                },
            }
        }),
{
    a_binding_is_found_by_its_key(state.bindings, button, gesture, 0);
}

/// A binding is found by its button and its gesture: the first.
pub proof fn a_binding_is_found_by_its_key(
    bindings: Seq<Binding>,
    button: Button,
    gesture: Gesture,
    i: int,
)
    requires
        0 <= i,
    ensures
        match binding_from(bindings, button, gesture, i) {
            Some(b) => b.button == button && b.gesture == gesture && exists|k: int|
                i <= k < bindings.len() && #[trigger] bindings[k] == b,
            None => forall|k: int|
                i <= k < bindings.len() ==> (#[trigger] bindings[k]).button != button
                    || bindings[k].gesture != gesture,
        },
    decreases bindings.len() - i,
{
    if i < bindings.len() && !(bindings[i].button == button && bindings[i].gesture == gesture) {
        a_binding_is_found_by_its_key(bindings, button, gesture, i + 1);
    }
}

/// While an activity runs, power is the activity's and not a row's.
pub proof fn power_belongs_to_the_running_activity(state: State, gesture: Gesture)
    ensures
        state.activity_running && begins(state.context, "row:"@) ==> state.binding(
            Button::Power,
            gesture,
        ) is None,
        !state.activity_running || !begins(state.context, "row:"@) ==> state.binding(
            Button::Power,
            gesture,
        ) == binding_from(state.bindings, Button::Power, gesture, 0),
{
}

/// A key without a long binding acts when it goes down; one with it waits, and
/// acts when it is released, or when it has been held for six tenths of a second.
pub proof fn a_long_binding_makes_the_key_wait(
    state: State,
    press: Press,
    button: Button,
    now: u64,
)
    requires
        press.button == Some(button),
        !press.released,
    ensures
        state.binding(button, Gesture::Long) is None ==> state.pressed(press, now) == (
            state,
            state.fire(button, Gesture::Short, press.repeat, now),
        ),
        state.binding(button, Gesture::Long) is Some ==> {
            let (next, fired) = state.pressed(press, now);
            &&& fired.taken && fired.request is None
            &&& !press.repeat && pending_from(state.pending, press.code, 0) is None
                ==> next.pending.len() == state.pending.len() + 1 && next.pending.last().down
                == press && next.pending.last().at == now && !next.pending.last().fired
            &&& press.repeat ==> next == state
        },
{
}

/// A key that waited and is released in time acts as a short press; one that has
/// no short binding is handed back, down and up; one that was held long enough
/// acts as a long press, and one that did already does nothing more.
pub proof fn a_released_key_acts_as_it_was_held(
    state: State,
    press: Press,
    button: Button,
    now: u64,
    k: int,
)
    requires
        press.button == Some(button),
        press.released,
        pending_from(state.pending, press.code, 0) == Some(k),
        0 <= k < state.pending.len(),
        state.pending[k].at <= now,
    ensures
        ({
            let held = state.pending[k];
            let (next, fired) = state.pressed(press, now);
            let bound = |gesture: Gesture| state.binding(button, gesture);
            &&& fired.taken && next.pending == state.pending.remove(k)
            &&& held.fired ==> fired.request is None && next.replay == state.replay
            &&& !held.fired && now - held.at >= 600 ==> next.replay == state.replay && match bound(
                Gesture::Long,
            ) {
                Some(b) => match b.action {
                    Some(action) => fired.request matches Some(r) && r.action == action
                        && r.gesture is Long && !r.repeat,
                    None => fired.request is None,
                },
                None => fired.request is None,
            }
            &&& !held.fired && now - held.at < 600 ==> match bound(Gesture::Short) {
                Some(b) => next.replay == state.replay && match b.action {
                    Some(action) => fired.request matches Some(r) && r.action == action
                        && r.gesture is Short && !r.repeat,
                    None => fired.request is None,
                },
                None => fired.request is None && next.replay == state.replay.push(held.down).push(
                    press,
                ),
            }
        }),
{
}

/// A key that was held long enough fires its long binding once.
pub proof fn a_held_key_fires_once(p: Pending, now: u64)
    requires
        p.at <= now,
    ensures
        due(p, now) <==> !p.fired && now - p.at >= 600,
        fired_pending(seq![p], now).len() == 1,
        due(p, now) ==> fired_pending(seq![p], now)[0].fired,
        !due(p, now) ==> fired_pending(seq![p], now)[0] == p,
        !due(fired_pending(seq![p], now)[0], now),
{
}

/// What is due sends the long binding of each key that is held, in their order.
pub proof fn what_is_due_is_sent_in_order(state: State, now: u64, i: int)
    requires
        0 <= i < state.pending.len(),
    ensures
        ({
            let p = state.pending[i];
            let rest = due_requests(state, now, i + 1);
            match p.down.button {
                Some(button) => if !p.fired && now - p.at >= 600 {
                    match state.fire(button, Gesture::Long, false, now).request {
                        Some(request) => due_requests(state, now, i) == seq![request] + rest,
                        None => due_requests(state, now, i) == rest,
                    }
                } else {
                    due_requests(state, now, i) == rest
                },
                None => due_requests(state, now, i) == rest,
            }
        }),
        due_requests(state, now, state.pending.len() as int).len() == 0,
{
}

/// Whose keys these are: a screen's device, the activity that is on the screen, or
/// the device of the highlighted row; nobody's where a list is up or nothing is
/// highlighted.
pub proof fn the_keys_belong_to_what_is_on_the_screen(
    screen: Screen,
    screen_device: Option<String>,
    config: Config,
    device: Seq<char>,
    named: String,
)
    ensures
        ({
            let context = context_for(screen, screen_device, Some(config));
            let covered = screen.player_shown || screen.tv_shown;
            let active = screen.active_activity@;
            &&& covered && active == "device:"@ + device ==> context == "row:"@ + device
            &&& covered && !begins(active, "device:"@) && active.len() > 0 ==> context == active
            &&& covered && active.len() == 0 && screen_device == Some(named) ==> context == "row:"@
                + named@
            &&& !covered && (!screen.light_shown || screen.chooser_shown || screen.light_index < 0)
                ==> context.len() == 0
            &&& !covered && screen.light_shown && !screen.chooser_shown && screen.light_index >= 0
                ==> match row_device(config, screen.light_room@, screen.light_index as int) {
                Some(d) => if row_keys(d).len() > 0 {
                    context == "row:"@ + d.id@
                } else {
                    context.len() == 0
                },
                None => context.len() == 0,
            }
        }),
{
    reveal_strlit("device:");
    let active = screen.active_activity@;
    if active == "device:"@ + device {
        assert(active.subrange(0, 7) =~= "device:"@);
        assert(active.subrange(7, active.len() as int) =~= device);
    }
}

/// A context's keys: a row's are those of its device, and an activity's its own,
/// without the long press of Back, which always goes back.
pub proof fn a_contexts_keys_are_its_own(
    bindings: Seq<Binding>,
    config: Config,
    context: Seq<char>,
    device: Seq<char>,
)
    requires
        bindings_of(bindings, config, context),
    ensures
        context == "row:"@ + device ==> match config.spec_device(device) {
            Some(d) => bound_to_row(bindings, d),
            None => bindings.len() == 0,
        },
        !begins(context, "row:"@) ==> match activity_from(config.activities@, context, 0) {
            Some(activity) => bindings == kept_buttons(activity.buttons@, 0),
            None => bindings.len() == 0,
        },
{
    reveal_strlit("row:");
    if context == "row:"@ + device {
        assert(context.subrange(0, 4) =~= "row:"@);
        assert(context.subrange(4, context.len() as int) =~= device);
    }
}

/// An activity keeps all its buttons but the long press of Back.
pub proof fn only_the_long_press_of_back_is_reserved(buttons: Seq<Binding>, i: int)
    requires
        0 <= i < buttons.len(),
    ensures
        buttons[i].button is Back && buttons[i].gesture is Long ==> kept_buttons(buttons, i)
            == kept_buttons(buttons, i + 1),
        !(buttons[i].button is Back && buttons[i].gesture is Long) ==> kept_buttons(buttons, i)
            == seq![buttons[i]] + kept_buttons(buttons, i + 1),
        kept_buttons(buttons, buttons.len() as int).len() == 0,
{
}

/// What is said is the last reply of the screen that is up.
pub proof fn the_last_current_reply_is_said(
    replies: Seq<(u64, Feedback)>,
    generation: u64,
    n: int,
)
    requires
        0 < n <= replies.len(),
    ensures
        replies[n - 1].0 == generation ==> last_current(replies, generation, n) == Some(
            replies[n - 1].1,
        ),
        replies[n - 1].0 != generation ==> last_current(replies, generation, n) == last_current(
            replies,
            generation,
            n - 1,
        ),
        last_current(replies, generation, 0) is None,
{
}

/// An activity is found by its id: the first.
pub proof fn an_activity_is_found_by_its_id(activities: Seq<Activity>, id: Seq<char>, i: int)
    requires
        0 <= i,
    ensures
        match activity_from(activities, id, i) {
            Some(a) => a.id@ == id && exists|k: int|
                i <= k < activities.len() && #[trigger] activities[k] == a,
            None => forall|k: int|
                i <= k < activities.len() ==> (#[trigger] activities[k]).id@ != id,
        },
    decreases activities.len() - i,
{
    if i < activities.len() && activities[i].id@ != id {
        an_activity_is_found_by_its_id(activities, id, i + 1);
    }
}

/// A key that is no button is left to the screen, and changes nothing.
pub proof fn a_key_that_is_no_button_is_left(state: State, press: Press, now: u64)
    requires
        press.button is None,
    ensures
        state.pressed(press, now).0 == state,
        !state.pressed(press, now).1.taken,
        state.pressed(press, now).1.request is None,
{
}

} // verus!
