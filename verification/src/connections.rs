//! Connections and the resources behind them. A resource's name is only unique
//! within its connection, so it carries the connection's id in front.
use crate::device_state::{DeviceState, Light};
use crate::model::{Config, Connection, Provider};
use crate::text::{after, first_of, same, split_once};
use vstd::prelude::*;

verus! {

/// Where a connection's credentials are kept.
pub open spec fn file_of(id: Seq<char>, prefix: Seq<char>) -> Seq<char> {
    if id.len() == 0 {
        prefix + "-connection.json"@
    } else {
        "connections/"@ + id + "/"@ + prefix + "-connection.json"@
    }
}

/// Where a connection's credentials are kept, below the remote's own directory.
pub fn file(id: &str, prefix: &str) -> (r: String)
    ensures
        r@ == file_of(id@, prefix@),
        r@ == if id@.len() == 0 {
            prefix@ + "-connection.json"@
        } else {
            "connections/"@ + id@ + "/"@ + prefix@ + "-connection.json"@
        },
{
    if id.is_empty() {
        let mut s = prefix.to_owned();
        s.append("-connection.json");
        s
    } else {
        let mut s = "connections/".to_owned();
        s.append(id);
        s.append("/");
        s.append(prefix);
        s.append("-connection.json");
        s
    }
}

/// The connection and the name within it of a resource. A resource without a
/// slash belongs to the connection without a name.
pub open spec fn parts(resource: Seq<char>) -> (Seq<char>, Seq<char>) {
    let n = first_of(resource, '/');
    if n < resource.len() {
        (resource.subrange(0, n as int), after(resource, (n + 1) as nat))
    } else {
        (Seq::empty(), resource)
    }
}

/// The connection and the name within it of a resource.
pub fn split(resource: &str) -> (r: (&str, &str))
    ensures
        (r.0@, r.1@) == parts(resource@),
{
    match split_once(resource, '/') {
        Some((id, raw)) => (id, raw),
        None => {
            proof {
                reveal_strlit("");
            }
            assert(""@ =~= Seq::<char>::empty());
            ("", resource)
        },
    }
}

/// A resource's name with its connection's id in front.
pub open spec fn scoped_name(id: Seq<char>, raw: Seq<char>) -> Seq<char> {
    if id.len() == 0 {
        raw
    } else {
        id + "/"@ + raw
    }
}

/// A resource's name with its connection's id in front.
pub fn scoped(id: &str, raw: &str) -> (r: String)
    ensures
        r@ == scoped_name(id@, raw@),
{
    if id.is_empty() {
        raw.to_owned()
    } else {
        let mut s = id.to_owned();
        s.append("/");
        s.append(raw);
        s
    }
}

proof fn first_of_joined(id: Seq<char>, rest: Seq<char>, c: char)
    requires
        !id.contains(c),
    ensures
        first_of(id + seq![c] + rest, c) == id.len(),
    decreases id.len(),
{
    let whole = id + seq![c] + rest;
    if id.len() == 0 {
        assert(whole[0] == c);
    } else {
        assert(whole[0] == id[0]);
        assert(id.contains(id[0]));
        let tail = id.subrange(1, id.len() as int);
        assert(whole.subrange(1, whole.len() as int) =~= tail + seq![c] + rest);
        assert forall|x: char| tail.contains(x) implies id.contains(x) by {
            let k = choose|k: int| 0 <= k < tail.len() && tail[k] == x;
            assert(id[k + 1] == x);
        }
        first_of_joined(tail, rest, c);
    }
}

/// A resource's name splits into the connection and the name that it was made
/// from: connection ids hold no slash.
pub proof fn a_scoped_name_splits_back(id: Seq<char>, raw: Seq<char>)
    requires
        !id.contains('/'),
        id.len() > 0 || !raw.contains('/'),
    ensures
        parts(scoped_name(id, raw)) == (id, raw),
{
    reveal_strlit("/");
    if id.len() > 0 {
        assert("/"@ =~= seq!['/']);
        first_of_joined(id, raw, '/');
        let whole = id + "/"@ + raw;
        assert(whole =~= id + seq!['/'] + raw);
        assert(whole.subrange(0, id.len() as int) =~= id);
        assert(after(whole, (id.len() + 1) as nat) =~= raw);
    } else {
        no_slash(raw, '/');
        assert(id =~= Seq::<char>::empty());
    }
}

proof fn no_slash(s: Seq<char>, c: char)
    requires
        !s.contains(c),
    ensures
        first_of(s, c) == s.len(),
    decreases s.len(),
{
    if s.len() > 0 {
        assert(s.contains(s[0]));
        let tail = s.subrange(1, s.len() as int);
        assert forall|x: char| tail.contains(x) implies s.contains(x) by {
            let k = choose|k: int| 0 <= k < tail.len() && tail[k] == x;
            assert(s[k + 1] == x);
        }
        no_slash(tail, c);
    }
}

/// Whether a connection of that name and kind is configured. The connection
/// without a name always is.
pub open spec fn is_valid(config: Option<Config>, id: Seq<char>, provider: Provider) -> bool {
    id.len() == 0 || (config matches Some(c) && exists|i: int|
        0 <= i < c.connections@.len() && (#[trigger] c.connections@[i]).id@ == id
            && c.connections@[i].provider == provider)
}

/// What a configuration that may be missing is.
pub open spec fn given(config: Option<&Config>) -> Option<Config> {
    match config {
        Some(c) => Some(*c),
        None => None,
    }
}

/// Whether a connection of that name and kind is configured.
pub fn valid(config: Option<&Config>, id: &str, provider: Provider) -> (r: bool)
    ensures
        r == is_valid(given(config), id@, provider),
{
    if id.is_empty() {
        return true;
    }
    match config {
        Some(c) => {
            let mut i: usize = 0;
            while i < c.connections.len()
                invariant
                    i <= c.connections.len(),
                    given(config) == Some(*c),
                    forall|k: int|
                        0 <= k < i ==> !((#[trigger] c.connections@[k]).id@ == id@
                            && c.connections@[k].provider == provider),
                decreases c.connections.len() - i,
            {
                if same(c.connections[i].id.as_str(), id) && c.connections[i].provider == provider {
                    return true;
                }
                i = i + 1;
            }
            false
        },
        None => false,
    }
}

/// The ids of the connections of a kind, at or after a place.
pub open spec fn ids_from(connections: Seq<Connection>, provider: Provider, i: int) -> Seq<String>
    decreases connections.len() - i,
{
    if i < 0 || i >= connections.len() {
        Seq::empty()
    } else if connections[i].provider == provider {
        seq![connections[i].id] + ids_from(connections, provider, i + 1)
    } else {
        ids_from(connections, provider, i + 1)
    }
}

/// The ids of the connections of a kind, in their order.
pub open spec fn provider_ids(config: Option<Config>, provider: Provider) -> Seq<String> {
    match config {
        Some(c) => ids_from(c.connections@, provider, 0),
        None => Seq::empty(),
    }
}

/// The ids of the connections of a kind; the one without a name where there are
/// none.
pub fn ids(config: Option<&Config>, provider: Provider) -> (r: Vec<String>)
    ensures
        r@.len() > 0,
        provider_ids(given(config), provider).len() > 0 ==> r@ == provider_ids(
            given(config),
            provider,
        ),
        provider_ids(given(config), provider).len() == 0 ==> r@.len() == 1 && r@[0]@.len() == 0,
{
    let mut out: Vec<String> = Vec::new();
    match config {
        Some(c) => {
            let mut i: usize = 0;
            assert(out@ + ids_from(c.connections@, provider, 0) =~= ids_from(
                c.connections@,
                provider,
                0,
            ));
            while i < c.connections.len()
                invariant
                    i <= c.connections.len(),
                    out@ + ids_from(c.connections@, provider, i as int) == ids_from(
                        c.connections@,
                        provider,
                        0,
                    ),
                decreases c.connections.len() - i,
            {
                if c.connections[i].provider == provider {
                    let ghost before = out@;
                    out.push(c.connections[i].id.clone());
                    assert(before + ids_from(c.connections@, provider, i as int) =~= out@
                        + ids_from(c.connections@, provider, i + 1));
                }
                i = i + 1;
            }
            assert(out@ + Seq::<String>::empty() =~= out@);
        },
        None => {},
    }
    if out.len() == 0 {
        out.push(String::new());
    }
    out
}

/// Why a connection cannot be used.
#[derive(Clone, Copy, PartialEq, Eq, Structural, Debug)]
pub enum Missing {
    HomeAssistant,
    Hue,
    Matter,
    Voice,
    VoiceCredentials,
    DeviceUnavailable,
    LightUnavailable,
}

impl Missing {
    /// The sentence that the user reads.
    pub open spec fn spec_text(self) -> Seq<char> {
        match self {
            Missing::HomeAssistant => "Home Assistant connection was removed"@,
            Missing::Hue => "Hue connection was removed"@,
            Missing::Matter => "Matter connection was removed"@,
            Missing::Voice => "Add a Home Assistant connection in the web UI to use voice"@,
            Missing::VoiceCredentials =>
                "The Home Assistant connection has no saved URL and token yet"@,
            Missing::DeviceUnavailable => "This device is unavailable"@,
            Missing::LightUnavailable => "This light is unavailable"@,
        }
    }

    /// The sentence that the user reads.
    pub fn text(&self) -> (r: &'static str)
        ensures
            r@ == self.spec_text(),
    {
        match self {
            Missing::HomeAssistant => "Home Assistant connection was removed",
            Missing::Hue => "Hue connection was removed",
            Missing::Matter => "Matter connection was removed",
            Missing::Voice => "Add a Home Assistant connection in the web UI to use voice",
            Missing::VoiceCredentials =>
                "The Home Assistant connection has no saved URL and token yet",
            Missing::DeviceUnavailable => "This device is unavailable",
            Missing::LightUnavailable => "This light is unavailable",
        }
    }
}

/// What is said of a removed connection of a kind.
pub open spec fn removed(provider: Provider) -> Missing {
    match provider {
        Provider::Hue => Missing::Hue,
        Provider::Matter => Missing::Matter,
        _ => Missing::HomeAssistant,
    }
}

/// The connection that a resource is asked for, and its name there: only a
/// connection that is still configured is asked.
pub fn reach<'a>(config: Option<&Config>, resource: &'a str, provider: Provider) -> (r: Result<
    (&'a str, &'a str),
    Missing,
>)
    ensures
        if is_valid(given(config), parts(resource@).0, provider) {
            r matches Ok((id, raw)) && (id@, raw@) == parts(resource@)
        } else {
            r == Err::<(&'a str, &'a str), Missing>(removed(provider))
        },
{
    let (id, raw) = split(resource);
    if valid(config, id, provider) {
        Ok((id, raw))
    } else {
        Err(
            match provider {
                Provider::Hue => Missing::Hue,
                Provider::Matter => Missing::Matter,
                _ => Missing::HomeAssistant,
            },
        )
    }
}

/// The Home Assistant connection that a resource is asked for.
pub fn ha<'a>(config: Option<&Config>, resource: &'a str) -> (r: Result<
    (&'a str, &'a str),
    Missing,
>)
    ensures
        if is_valid(given(config), parts(resource@).0, Provider::HomeAssistant) {
            r matches Ok((id, raw)) && (id@, raw@) == parts(resource@)
        } else {
            r == Err::<(&'a str, &'a str), Missing>(Missing::HomeAssistant)
        },
{
    reach(config, resource, Provider::HomeAssistant)
}

/// The connection that speech goes to: the first Home Assistant one. A
/// configuration that cannot be read leaves the connection without a name.
pub fn ha_assist(config: Option<&Config>) -> (r: Result<String, Missing>)
    ensures
        config is None ==> r is Ok,
        r matches Err(why) ==> why is Voice,
        match config {
            None => r matches Ok(id) && id@.len() == 0,
            Some(c) => if provider_ids(Some(*c), Provider::HomeAssistant).len() == 0 {
                r == Err::<String, Missing>(Missing::Voice)
            } else {
                r == Ok::<String, Missing>(
                    provider_ids(Some(*c), Provider::HomeAssistant)[0],
                )
            },
        },
{
    let all = ids(config, Provider::HomeAssistant);
    match config {
        Some(c) => {
            let mut i: usize = 0;
            let mut any = false;
            while i < c.connections.len()
                invariant
                    i <= c.connections.len(),
                    any == (ids_from(c.connections@, Provider::HomeAssistant, 0).len() > 0
                        && ids_from(c.connections@, Provider::HomeAssistant, i as int).len()
                        < ids_from(c.connections@, Provider::HomeAssistant, 0).len()),
                    !any ==> ids_from(c.connections@, Provider::HomeAssistant, i as int)
                        == ids_from(c.connections@, Provider::HomeAssistant, 0),
                decreases c.connections.len() - i,
            {
                if c.connections[i].provider == Provider::HomeAssistant {
                    any = true;
                }
                i = i + 1;
            }
            if any {
                Ok(all[0].clone())
            } else {
                Err(Missing::Voice)
            }
        },
        None => Ok(all[0].clone()),
    }
}

/// The names within a connection that a pass asks it for.
pub open spec fn asked_for(wanted: Seq<String>, id: Seq<char>, raw: Seq<char>) -> bool {
    exists|k: int| 0 <= k < wanted.len() && parts((#[trigger] wanted[k])@) == (id, raw)
}

/// Whether a text is among others.
pub open spec fn listed(texts: Seq<String>, text: Seq<char>) -> bool {
    exists|k: int| 0 <= k < texts.len() && (#[trigger] texts[k])@ == text
}

/// Whether a text is among others.
pub fn is_listed(texts: &Vec<String>, text: &str) -> (r: bool)
    ensures
        r == listed(texts@, text@),
{
    let mut i: usize = 0;
    while i < texts.len()
        invariant
            i <= texts.len(),
            forall|k: int| 0 <= k < i ==> (#[trigger] texts@[k])@ != text@,
        decreases texts.len() - i,
    {
        if same(texts[i].as_str(), text) {
            return true;
        }
        i = i + 1;
    }
    false
}

/// Whether names are those that a connection is asked for, each once.
pub open spec fn is_wanted_of(wanted: Seq<String>, id: Seq<char>, names: Seq<String>) -> bool {
    &&& forall|raw: Seq<char>| #[trigger] listed(names, raw) == asked_for(wanted, id, raw)
    &&& forall|i: int, j: int|
        0 <= i < j < names.len() ==> (#[trigger] names[i])@ != (#[trigger] names[j])@
}

/// What a connection is asked for: each name that is wanted of it, once.
pub fn wanted_of(wanted: &Vec<String>, id: &str) -> (r: Vec<String>)
    ensures
        is_wanted_of(wanted@, id@, r@),
{
    let mut out: Vec<String> = Vec::new();
    let mut i: usize = 0;
    while i < wanted.len()
        invariant
            i <= wanted.len(),
            forall|raw: Seq<char>| #[trigger]
                listed(out@, raw) == asked_for(wanted@.take(i as int), id@, raw),
            forall|a: int, b: int|
                0 <= a < b < out@.len() ==> (#[trigger] out@[a])@ != (#[trigger] out@[b])@,
        decreases wanted.len() - i,
    {
        let (connection, raw) = split(wanted[i].as_str());
        let ghost before = out@;
        if same(connection, id) && !is_listed(&out, raw) {
            out.push(raw.to_owned());
        }
        proof {
            let now = wanted@.take(i + 1);
            assert(wanted@.take(i as int) =~= now.drop_last());
            assert forall|name: Seq<char>| #[trigger]
                listed(out@, name) == asked_for(now, id@, name) by {
                assert(listed(before, name) == asked_for(wanted@.take(i as int), id@, name));
                if asked_for(wanted@.take(i as int), id@, name) {
                    let k = choose|k: int|
                        0 <= k < i && parts((#[trigger] wanted@.take(i as int)[k])@) == (id@, name);
                    assert(now[k] == wanted@.take(i as int)[k]);
                    let m = choose|m: int| 0 <= m < before.len() && (#[trigger] before[m])@ == name;
                    assert(out@[m]@ == name);
                }
                if parts(wanted@[i as int]@) == (id@, name) {
                    assert(now[i as int] == wanted@[i as int]);
                    if !listed(before, name) {
                        assert(out@[out@.len() - 1]@ == name);
                    } else {
                        let m = choose|m: int|
                            0 <= m < before.len() && (#[trigger] before[m])@ == name;
                        assert(out@[m]@ == name);
                    }
                }
                if asked_for(now, id@, name) && parts(wanted@[i as int]@) != (id@, name) {
                    let k = choose|k: int|
                        0 <= k < now.len() && parts((#[trigger] now[k])@) == (id@, name);
                    assert(wanted@.take(i as int)[k] == now[k]);
                }
                if listed(out@, name) && !listed(before, name) {
                    let m = choose|m: int| 0 <= m < out@.len() && (#[trigger] out@[m])@ == name;
                    if m < before.len() {
                        assert(before[m]@ == name);
                    }
                }
            }
        }
        i = i + 1;
    }
    assert(wanted@.take(wanted@.len() as int) =~= wanted@);
    out
}

/// The ids of the connections of a kind, as texts; the one without a name where
/// there are none.
pub open spec fn connection_names(config: Option<Config>, provider: Provider) -> Seq<Seq<char>> {
    let ids = provider_ids(config, provider);
    if ids.len() == 0 {
        seq![Seq::empty()]
    } else {
        ids.map_values(|id: String| id@)
    }
}

/// Whether anything is wanted of a connection.
pub open spec fn is_asked(wanted: Seq<String>, id: Seq<char>) -> bool {
    exists|k: int| 0 <= k < wanted.len() && parts((#[trigger] wanted[k])@).0 == id
}

/// Something is wanted of a connection just where it is asked for a name.
proof fn asking_names_something(wanted: Seq<String>, id: Seq<char>, names: Seq<String>)
    requires
        is_wanted_of(wanted, id, names),
    ensures
        is_asked(wanted, id) == (names.len() > 0),
{
    if is_asked(wanted, id) {
        let k = choose|k: int| 0 <= k < wanted.len() && parts((#[trigger] wanted[k])@).0 == id;
        assert(asked_for(wanted, id, parts(wanted[k]@).1));
        assert(listed(names, parts(wanted[k]@).1));
    }
    if names.len() > 0 {
        assert(listed(names, names[0]@));
        assert(asked_for(wanted, id, names[0]@));
    }
}

/// What each Home Assistant connection is asked for in one pass. A connection of
/// which nothing is wanted is not read at all.
pub fn asked(config: Option<&Config>, wanted: &Vec<String>) -> (r: Vec<(String, Vec<String>)>)
    ensures
        r@.map_values(|ask: (String, Vec<String>)| ask.0@) == connection_names(
            given(config),
            Provider::HomeAssistant,
        ).filter(|id: Seq<char>| is_asked(wanted@, id)),
        forall|i: int|
            0 <= i < r@.len() ==> is_wanted_of(wanted@, (#[trigger] r@[i]).0@, r@[i].1@),
{
    let all = ids(config, Provider::HomeAssistant);
    let ghost named = connection_names(given(config), Provider::HomeAssistant);
    let ghost reads = |ask: (String, Vec<String>)| ask.0@;
    let ghost wants = |id: Seq<char>| is_asked(wanted@, id);
    let mut out: Vec<(String, Vec<String>)> = Vec::new();
    let mut i: usize = 0;
    proof {
        reveal(Seq::filter);
        assert(named.len() == all@.len());
        assert forall|k: int| 0 <= k < named.len() implies #[trigger] named[k] == all@[k]@ by {
            if provider_ids(given(config), Provider::HomeAssistant).len() == 0 {
                assert(named[k] =~= all@[k]@);
            }
        }
        assert(out@.map_values(reads) =~= named.take(0).filter(wants));
    }
    while i < all.len()
        invariant
            i <= all.len(),
            named.len() == all@.len(),
            forall|k: int| 0 <= k < named.len() ==> #[trigger] named[k] == all@[k]@,
            reads == (|ask: (String, Vec<String>)| ask.0@),
            wants == (|id: Seq<char>| is_asked(wanted@, id)),
            out@.map_values(reads) == named.take(i as int).filter(wants),
            forall|k: int|
                0 <= k < out@.len() ==> is_wanted_of(
                    wanted@,
                    (#[trigger] out@[k]).0@,
                    out@[k].1@,
                ),
        decreases all.len() - i,
    {
        let names = wanted_of(wanted, all[i].as_str());
        let ghost before = out@;
        proof {
            asking_names_something(wanted@, all@[i as int]@, names@);
            reveal(Seq::filter);
            assert(named.take(i + 1).drop_last() =~= named.take(i as int));
            assert(named.take(i + 1).last() == all@[i as int]@);
        }
        if names.len() > 0 {
            out.push((all[i].clone(), names));
            assert(out@.map_values(reads) =~= before.map_values(reads).push(all@[i as int]@));
        }
        i = i + 1;
    }
    assert(named.take(i as int) =~= named);
    out
}

/// A room row's state as a connection reports it.
#[derive(Debug)]
pub struct Power {
    pub entity_id: String,
    pub on: Option<bool>,
    pub brightness_percent: Option<u8>,
}

/// Whether states are those of a connection, each under its scoped name.
pub open spec fn scoped_powers(out: Seq<Power>, id: Seq<char>, read: Seq<Power>) -> bool {
    &&& out.len() == read.len()
    &&& forall|k: int|
        0 <= k < read.len() ==> {
            &&& (#[trigger] out[k]).entity_id@ == scoped_name(id, read[k].entity_id@)
            &&& out[k].on == read[k].on
            &&& out[k].brightness_percent == read[k].brightness_percent
        }
}

/// Add what one connection's read gave, or remember that it failed: a room
/// behind a server that is down is offline, which is not the same as off.
pub fn ha_power(
    states: &mut Vec<Power>,
    failed: &mut Vec<String>,
    id: &String,
    read: Option<Vec<Power>>,
)
    ensures
        match read {
            Some(list) => {
                &&& final(failed)@ == old(failed)@
                &&& final(states)@.len() == old(states)@.len() + list@.len()
                &&& final(states)@.take(old(states)@.len() as int) == old(states)@
                &&& scoped_powers(final(states)@.skip(old(states)@.len() as int), id@, list@)
            },
            None => final(failed)@ == old(failed)@.push(*id) && final(states)@ == old(states)@,
        },
{
    match read {
        Some(list) => {
            let ghost start = states@.len();
            let mut i: usize = 0;
            while i < list.len()
                invariant
                    i <= list.len(),
                    start == old(states)@.len(),
                    failed@ == old(failed)@,
                    states@.len() == start + i,
                    states@.take(start as int) == old(states)@,
                    forall|k: int|
                        0 <= k < i ==> {
                            &&& (#[trigger] states@[start + k]).entity_id@ == scoped_name(
                                id@,
                                list@[k].entity_id@,
                            )
                            &&& states@[start + k].on == list@[k].on
                            &&& states@[start + k].brightness_percent
                                == list@[k].brightness_percent
                        },
                decreases list.len() - i,
            {
                let p = &list[i];
                let ghost before = states@;
                states.push(
                    Power {
                        entity_id: scoped(id.as_str(), p.entity_id.as_str()),
                        on: p.on,
                        brightness_percent: p.brightness_percent,
                    },
                );
                assert(states@.take(start as int) =~= before.take(start as int));
                i = i + 1;
            }
            proof {
                let tail = states@.skip(start as int);
                assert forall|k: int| 0 <= k < list@.len() implies (#[trigger] tail[k])
                    == states@[start + k] by {}
            }
        },
        None => {
            failed.push(id.clone());
            assert(states@ == old(states)@);
        },
    }
}

/// Whether readings are those of a connection, each filed under its scoped name.
pub open spec fn scoped_states(out: Seq<DeviceState>, id: Seq<char>, read: Seq<DeviceState>) -> bool {
    &&& out.len() == read.len()
    &&& forall|k: int|
        0 <= k < read.len() ==> {
            &&& (#[trigger] out[k]) == read[k].filed(out[k].spec_id())
            &&& out[k].spec_id()@ == scoped_name(id, read[k].spec_id()@)
        }
}

/// One connection's readings, each filed under its scoped name.
pub fn ha_room_states(id: &str, read: Vec<DeviceState>) -> (r: Vec<DeviceState>)
    ensures
        scoped_states(r@, id@, read@),
{
    let mut out: Vec<DeviceState> = Vec::new();
    let mut i: usize = 0;
    while i < read.len()
        invariant
            i <= read.len(),
            out@.len() == i,
            forall|k: int|
                0 <= k < i ==> {
                    &&& (#[trigger] out@[k]) == read@[k].filed(out@[k].spec_id())
                    &&& out@[k].spec_id()@ == scoped_name(id@, read@[k].spec_id()@)
                },
        decreases read.len() - i,
    {
        let mut state = read[i].copy();
        let name = scoped(id, state.id().as_str());
        state.set_id(name);
        out.push(state);
        i = i + 1;
    }
    out
}

/// Add what one bridge's read gave, or remember that it failed: an unreachable
/// bridge is not an off room.
pub fn hue_states(
    states: &mut Vec<DeviceState>,
    failed: &mut Vec<String>,
    id: &String,
    read: Option<Vec<DeviceState>>,
)
    ensures
        match read {
            Some(list) => {
                &&& final(failed)@ == old(failed)@
                &&& final(states)@.len() == old(states)@.len() + list@.len()
                &&& final(states)@.take(old(states)@.len() as int) == old(states)@
                &&& scoped_states(final(states)@.skip(old(states)@.len() as int), id@, list@)
            },
            None => final(failed)@ == old(failed)@.push(*id) && final(states)@ == old(states)@,
        },
{
    match read {
        Some(list) => {
            let mut more = ha_room_states(id.as_str(), list);
            let ghost added = more@;
            states.append(&mut more);
            assert(states@.take(old(states)@.len() as int) =~= old(states)@);
            assert(states@.skip(old(states)@.len() as int) =~= added);
        },
        None => {
            failed.push(id.clone());
        },
    }
}

/// A Matter light's reading, always under its connection's id.
pub fn matter_light(id: &str, light: Light) -> (r: Light)
    ensures
        r.entity_id@ == id@ + "/"@ + light.entity_id@,
        r.on == light.on && r.brightness_percent == light.brightness_percent && r.name == light.name,
        r == (Light { entity_id: r.entity_id, ..light }),
{
    let mut name = id.to_owned();
    name.append("/");
    name.append(light.entity_id.as_str());
    Light {
        entity_id: name,
        name: light.name,
        on: light.on,
        brightness_percent: light.brightness_percent,
        dimmable: light.dimmable,
        mirek: light.mirek,
        mirek_range: light.mirek_range,
    }
}

/// Whether a light that is switched goes on: the opposite of what it says it
/// is, and nothing is guessed of one that will not say.
pub fn toggled(on: Option<bool>) -> (r: Result<bool, Missing>)
    ensures
        r matches Ok(sent) ==> on is Some && Some(sent) != on,
        r is Err <==> on is None,
        r == match on {
            Some(on) => Ok(!on),
            None => Err(Missing::DeviceUnavailable),
        },
{
    match on {
        Some(on) => Ok(!on),
        None => Err(Missing::DeviceUnavailable),
    }
}

/// The connections that a client is kept for.
#[derive(Debug)]
pub struct Fleet {
    pub open: Vec<String>,
}

/// What a fleet needs for a connection.
#[derive(Clone, Copy, PartialEq, Eq, Structural, Debug)]
pub enum Client {
    Kept,
    /// A client is to be opened, and kept if that succeeds.
    ToOpen,
}

/// Those of the connections with a client that are still configured, at or
/// after a place.
pub open spec fn retained(open: Seq<String>, ids: Seq<String>, i: int) -> Seq<String>
    decreases open.len() - i,
{
    if i < 0 || i >= open.len() {
        Seq::empty()
    } else if listed(ids, open[i]@) {
        seq![open[i]] + retained(open, ids, i + 1)
    } else {
        retained(open, ids, i + 1)
    }
}

impl Fleet {
    /// No client is kept.
    pub fn new() -> (r: Fleet)
        ensures
            r.open@.len() == 0,
    {
        Fleet { open: Vec::new() }
    }

    /// The client of a connection: none for one that was removed.
    pub fn get(&self, config: Option<&Config>, id: &str, provider: Provider) -> (r: Result<
        Client,
        Missing,
    >)
        ensures
            r == if !is_valid(given(config), id@, provider) {
                Err(removed(provider))
            } else if listed(self.open@, id@) {
                Ok(Client::Kept)
            } else {
                Ok(Client::ToOpen)
            },
    {
        if !valid(config, id, provider) {
            return Err(
                match provider {
                    Provider::Hue => Missing::Hue,
                    Provider::Matter => Missing::Matter,
                    _ => Missing::HomeAssistant,
                },
            );
        }
        if is_listed(&self.open, id) {
            Ok(Client::Kept)
        } else {
            Ok(Client::ToOpen)
        }
    }

    /// Keep a client that was opened.
    pub fn keep(&mut self, id: &str)
        ensures
            listed(final(self).open@, id@),
            forall|other: Seq<char>|
                other != id@ ==> #[trigger] listed(final(self).open@, other) == listed(
                    old(self).open@,
                    other,
                ),
    {
        if !is_listed(&self.open, id) {
            let name = id.to_owned();
            self.open.push(name);
            proof {
                let n = old(self).open@.len() as int;
                assert(self.open@[n]@ == id@);
                assert forall|other: Seq<char>| other != id@ implies #[trigger] listed(
                    self.open@,
                    other,
                ) == listed(old(self).open@, other) by {
                    if listed(old(self).open@, other) {
                        let k = choose|k: int|
                            0 <= k < n && (#[trigger] old(self).open@[k])@ == other;
                        assert(self.open@[k]@ == other);
                    }
                    if listed(self.open@, other) {
                        let k = choose|k: int|
                            0 <= k < n + 1 && (#[trigger] self.open@[k])@ == other;
                        assert(old(self).open@[k]@ == other);
                    }
                }
            }
        }
    }

    /// Drop the clients of connections that are gone.
    pub fn retain(&mut self, ids: &Vec<String>)
        ensures
            final(self).open@ == retained(old(self).open@, ids@, 0),
    {
        let mut out: Vec<String> = Vec::new();
        let mut i: usize = 0;
        assert(out@ + retained(self.open@, ids@, 0) =~= retained(self.open@, ids@, 0));
        while i < self.open.len()
            invariant
                i <= self.open.len(),
                self.open@ == old(self).open@,
                out@ + retained(self.open@, ids@, i as int) == retained(self.open@, ids@, 0),
            decreases self.open.len() - i,
        {
            if is_listed(ids, self.open[i].as_str()) {
                let ghost before = out@;
                out.push(self.open[i].clone());
                assert(before + retained(self.open@, ids@, i as int) =~= out@ + retained(
                    self.open@,
                    ids@,
                    i + 1,
                ));
            }
            i = i + 1;
        }
        assert(out@ + Seq::<String>::empty() =~= out@);
        self.open = out;
    }
}

/// A resource is named within a connection that is configured for its provider;
/// the one without a name is always there.
pub proof fn a_connection_is_valid_where_it_is_configured(
    config: Config,
    k: int,
    id: Seq<char>,
    provider: Provider,
)
    requires
        0 <= k < config.connections@.len(),
    ensures
        is_valid(None, Seq::empty(), provider),
        is_valid(Some(config), config.connections@[k].id@, config.connections@[k].provider),
        id.len() > 0 ==> !is_valid(None, id, provider),
        id.len() > 0 && (forall|i: int|
            0 <= i < config.connections@.len() ==> (#[trigger] config.connections@[i]).id@ != id
                || config.connections@[i].provider != provider) ==> !is_valid(
            Some(config),
            id,
            provider,
        ),
{
}

/// The connections of a kind are all of that kind, and all that there are.
pub proof fn the_connections_of_a_kind(
    connections: Seq<Connection>,
    provider: Provider,
    i: int,
    id: String,
)
    requires
        0 <= i,
    ensures
        ids_from(connections, provider, i).contains(id) <==> exists|k: int|
            i <= k < connections.len() && (#[trigger] connections[k]).id == id
                && connections[k].provider == provider,
        ids_from(connections, provider, i).len() <= connections.len() - i || i
            >= connections.len(),
    decreases connections.len() - i,
{
    if i < connections.len() {
        the_connections_of_a_kind(connections, provider, i + 1, id);
        let rest = ids_from(connections, provider, i + 1);
        let all = ids_from(connections, provider, i);
        if connections[i].provider == provider {
            assert(all =~= seq![connections[i].id] + rest);
            if rest.contains(id) {
                let j = choose|j: int| 0 <= j < rest.len() && rest[j] == id;
                assert(all[j + 1] == id);
            }
            if connections[i].id == id {
                assert(all[0] == id);
            }
            if all.contains(id) {
                let j = choose|j: int| 0 <= j < all.len() && all[j] == id;
                if j > 0 {
                    assert(rest[j - 1] == id);
                } else {
                    assert(connections[i].id == id);
                }
            }
        }
        if exists|k: int|
            i <= k < connections.len() && (#[trigger] connections[k]).id == id
                && connections[k].provider == provider {
            let k = choose|k: int|
                i <= k < connections.len() && (#[trigger] connections[k]).id == id
                    && connections[k].provider == provider;
            if k > i {
                assert(connections[k].id == id && connections[k].provider == provider);
            }
        }
    }
}

/// Where a connection is gone, what is said names its provider.
pub proof fn a_connection_that_is_gone_is_named()
    ensures
        removed(Provider::Hue).spec_text() == "Hue connection was removed"@,
        removed(Provider::Matter).spec_text() == "Matter connection was removed"@,
        removed(Provider::HomeAssistant).spec_text() == "Home Assistant connection was removed"@,
        Missing::Voice.spec_text()
            == "Add a Home Assistant connection in the web UI to use voice"@,
        Missing::VoiceCredentials.spec_text()
            == "The Home Assistant connection has no saved URL and token yet"@,
        Missing::DeviceUnavailable.spec_text() == "This device is unavailable"@,
        Missing::LightUnavailable.spec_text() == "This light is unavailable"@,
{
}

/// A connection's states are kept as they were read, each under the name that
/// leads back to that connection and to its name there.
pub proof fn states_are_kept_under_their_connection(
    out: Seq<DeviceState>,
    id: Seq<char>,
    read: Seq<DeviceState>,
    k: int,
)
    requires
        scoped_states(out, id, read),
        0 <= k < read.len(),
        !id.contains('/'),
        id.len() > 0,
    ensures
        out.len() == read.len(),
        parts(out[k].spec_id()@) == (id, read[k].spec_id()@),
        out[k].spec_active() == read[k].spec_active(),
        out[k].spec_description() == read[k].spec_description(),
{
    a_scoped_name_splits_back(id, read[k].spec_id()@);
}

/// What a connection reports of its entities is kept as it was read, each under
/// the name that leads back to it.
pub proof fn powers_are_kept_under_their_connection(
    out: Seq<Power>,
    id: Seq<char>,
    read: Seq<Power>,
    k: int,
)
    requires
        scoped_powers(out, id, read),
        0 <= k < read.len(),
        !id.contains('/'),
        id.len() > 0,
    ensures
        out.len() == read.len(),
        parts(out[k].entity_id@) == (id, read[k].entity_id@),
        out[k].on == read[k].on,
        out[k].brightness_percent == read[k].brightness_percent,
{
    a_scoped_name_splits_back(id, read[k].entity_id@);
}

/// Only the clients of connections that are still configured stay open, and all
/// of those do.
pub proof fn a_removed_connection_is_let_go(
    open: Seq<String>,
    ids: Seq<String>,
    i: int,
    id: Seq<char>,
)
    requires
        0 <= i,
    ensures
        listed(retained(open, ids, i), id) <==> listed(ids, id) && exists|k: int|
            i <= k < open.len() && (#[trigger] open[k])@ == id,
    decreases open.len() - i,
{
    if i < open.len() {
        a_removed_connection_is_let_go(open, ids, i + 1, id);
        let rest = retained(open, ids, i + 1);
        let all = retained(open, ids, i);
        if listed(ids, open[i]@) {
            assert(all =~= seq![open[i]] + rest);
            if listed(rest, id) {
                let j = choose|j: int| 0 <= j < rest.len() && (#[trigger] rest[j])@ == id;
                assert(all[j + 1]@ == id);
            }
            if open[i]@ == id {
                assert(all[0]@ == id);
            }
            if listed(all, id) {
                let j = choose|j: int| 0 <= j < all.len() && (#[trigger] all[j])@ == id;
                if j > 0 {
                    assert(rest[j - 1]@ == id);
                } else {
                    assert(open[i]@ == id);
                }
            }
        }
        if exists|k: int| i <= k < open.len() && (#[trigger] open[k])@ == id {
            let k = choose|k: int| i <= k < open.len() && (#[trigger] open[k])@ == id;
            if k > i {
                assert(open[k]@ == id);
            }
        }
    } else {
        assert(!listed(retained(open, ids, i), id));
    }
}

/// Each connection keeps its credentials in a directory of its own, and the one
/// without a name in none.
pub proof fn a_connection_keeps_its_own_credentials(id: Seq<char>, prefix: Seq<char>)
    ensures
        file_of(Seq::empty(), prefix) == prefix + "-connection.json"@,
        id.len() > 0 ==> file_of(id, prefix) == "connections/"@ + id + "/"@ + prefix
            + "-connection.json"@,
{
}

/// Each connection is asked for exactly the entities that are scoped to it, by
/// their own names; one of which nothing is wanted is not asked.
pub proof fn a_connection_is_asked_for_its_own_entities(
    wanted: Seq<String>,
    id: Seq<char>,
    other: Seq<char>,
    raw: Seq<char>,
    names: Seq<String>,
    k: int,
)
    requires
        0 <= k < wanted.len(),
        !id.contains('/'),
        id.len() > 0 || !raw.contains('/'),
        wanted[k]@ == scoped_name(id, raw),
        is_wanted_of(wanted, id, names),
    ensures
        is_asked(wanted, id),
        listed(names, raw),
        is_asked(wanted, other) ==> exists|j: int|
            0 <= j < wanted.len() && parts((#[trigger] wanted[j])@).0 == other,
{
    a_scoped_name_splits_back(id, raw);
    assert(parts(wanted[k]@) == (id, raw));
    assert(asked_for(wanted, id, raw));
}

/// Where no connection of a kind is configured, the one without a name is meant.
pub proof fn without_connections_the_unnamed_one_is_meant(config: Config, provider: Provider)
    ensures
        connection_names(None, provider) == seq![Seq::<char>::empty()],
        config.connections@.len() == 0 ==> connection_names(Some(config), provider) == seq![
            Seq::<char>::empty(),
        ],
        config.connections@.len() == 1 && config.connections@[0].provider == provider
            ==> connection_names(Some(config), provider) == seq![config.connections@[0].id@],
{
    reveal_with_fuel(ids_from, 3);
    if config.connections@.len() == 1 && config.connections@[0].provider == provider {
        assert(connection_names(Some(config), provider) =~= seq![config.connections@[0].id@]);
    }
}

} // verus!
