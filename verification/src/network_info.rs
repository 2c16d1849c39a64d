//! What the settings page says of the network, worked out from the kernel's own
//! tables: the address, the gateway, the name servers and the web page's name.
use crate::text::{
    begins, decimal, letters, lines, lines_of, number, same, trim, trimmed, words, words_of,
};
use vstd::prelude::*;

verus! {

/// The interface that every route of interest is on.
pub const INTERFACE: &'static str = "wlan0";

/// The name that the web page is advertised under.
pub const WEB_HOST: &'static str = "couch.local";

#[derive(Debug)]
pub struct Info {
    /// The address and the prefix length, or nothing where there is no address.
    pub address: String,
    pub gateway: String,
    /// At most two, with a comma between.
    pub dns: String,
    pub mac: String,
}

impl Default for Info {
    fn default() -> (r: Info)
        ensures
            r.address@.len() == 0,
            r.gateway@.len() == 0,
            r.dns@.len() == 0,
            r.mac@.len() == 0,
    {
        Info {
            address: String::new(),
            gateway: String::new(),
            dns: String::new(),
            mac: String::new(),
        }
    }
}

/// What stands before the first " /" of a text, or all of it.
pub open spec fn bare_address(s: Seq<char>) -> Seq<char>
    decreases s.len(),
{
    if s.len() == 0 || begins(s, seq![' ', '/']) {
        Seq::empty()
    } else {
        seq![s[0]] + bare_address(s.subrange(1, s.len() as int))
    }
}

fn bare(s: &str) -> (r: &str)
    ensures
        r@ == bare_address(s@),
{
    let chars: Vec<char> = letters(s);
    let n: usize = chars.len();
    let mut i: usize = 0;
    assert(s@.subrange(0, n as int) =~= s@);
    assert(s@.subrange(0, 0) + bare_address(s@) =~= bare_address(s@));
    while i < n && !(chars[i] == ' ' && i + 1 < n && chars[i + 1] == '/')
        invariant
            chars@ == s@,
            n == s@.len(),
            i <= n,
            s@.subrange(0, i as int) + bare_address(s@.subrange(i as int, n as int))
                == bare_address(s@),
        decreases n - i,
    {
        proof {
            let rest = s@.subrange(i as int, n as int);
            assert(rest.subrange(1, rest.len() as int) =~= s@.subrange(i + 1, n as int));
            if begins(rest, seq![' ', '/']) {
                assert(rest.subrange(0, 2)[0] == ' ' && rest.subrange(0, 2)[1] == '/');
                assert(rest[0] == chars@[i as int] && rest[1] == chars@[i + 1]);
            }
            assert(s@.subrange(0, i as int) + (seq![rest[0]] + bare_address(
                s@.subrange(i + 1, n as int),
            )) =~= s@.subrange(0, i + 1) + bare_address(s@.subrange(i + 1, n as int)));
        }
        i = i + 1;
    }
    proof {
        let rest = s@.subrange(i as int, n as int);
        if i < n {
            assert(rest.subrange(0, 2) =~= seq![' ', '/']);
        }
        assert(s@.subrange(0, i as int) + Seq::<char>::empty() =~= s@.subrange(0, i as int));
    }
    s.substring_char(0, i)
}

impl Info {
    /// Where a browser reaches the web page: its advertised name, and beside it
    /// the address where one is known.
    pub fn web(&self) -> (r: String)
        ensures
            r@ == if bare_address(self.address@).len() == 0 {
                "http://"@ + WEB_HOST@
            } else {
                "http://"@ + WEB_HOST@ + "  ·  "@ + bare_address(self.address@) + ":8090"@
            },
    {
        let ip = bare(self.address.as_str());
        let mut s = "http://".to_owned();
        s.append(WEB_HOST);
        if !ip.is_empty() {
            s.append("  ·  ");
            s.append(ip);
            s.append(":8090");
        }
        s
    }
}

/// A number's bytes in the other order.
pub open spec fn swapped(x: int) -> int {
    (x % 256) * 0x100_0000 + (x / 256 % 256) * 0x1_0000 + (x / 0x1_0000 % 256) * 0x100 + (x
        / 0x100_0000) % 256
}

/// The address that a field of the route table writes: eight hexadecimal digits
/// at most, with the bytes in the machine's order.
pub open spec fn address_of(field: Seq<char>) -> Option<u32> {
    match crate::text::hexadecimal(field) {
        Some(n) => if n <= u32::MAX {
            Some(swapped(n as int) as u32)
        } else {
            None
        },
        None => None,
    }
}

fn hex_address(field: &str) -> (r: Option<u32>)
    ensures
        r == address_of(field@),
{
    match crate::text::parse_hex(field) {
        Some(x) => {
            let a: u32 = x % 256;
            let b: u32 = x / 256 % 256;
            let c: u32 = x / 0x1_0000 % 256;
            let d: u32 = (x / 0x100_0000) % 256;
            Some(a * 0x100_0000 + b * 0x1_0000 + c * 0x100 + d)
        },
        None => None,
    }
}

/// A row of the route table. An address is a number, its first byte highest.
#[derive(Clone, Copy, PartialEq, Eq, Structural, Debug)]
pub struct Route {
    pub destination: u32,
    pub gateway: u32,
    pub mask: u32,
}

/// The route that a line of the table writes for an interface.
pub open spec fn route_of(line: Seq<char>, interface: Seq<char>) -> Option<Route> {
    let fields = words_of(line);
    if fields.len() < 8 || fields[0] != interface {
        None
    } else {
        match (address_of(fields[1]), address_of(fields[2]), address_of(fields[7])) {
            (Some(destination), Some(gateway), Some(mask)) => Some(
                Route { destination, gateway, mask },
            ),
            _ => None,
        }
    }
}

fn route(line: &str, interface: &str) -> (r: Option<Route>)
    ensures
        r == route_of(line@, interface@),
{
    let fields = words(line);
    proof {
        assert forall|k: int| 0 <= k < fields@.len() implies words_of(line@)[k] == (
        #[trigger] fields@[k])@ by {}
    }
    if fields.len() < 8 || !same(fields[0], interface) {
        return None;
    }
    match (hex_address(fields[1]), hex_address(fields[2]), hex_address(fields[7])) {
        (Some(destination), Some(gateway), Some(mask)) => Some(
            Route { destination, gateway, mask },
        ),
        _ => None,
    }
}

/// The routes of an interface, from the lines at or after a place.
pub open spec fn routes_from(lines: Seq<Seq<char>>, interface: Seq<char>, i: int) -> Seq<Route>
    decreases lines.len() - i,
{
    if i < 0 || i >= lines.len() {
        Seq::empty()
    } else {
        match route_of(lines[i], interface) {
            Some(route) => seq![route] + routes_from(lines, interface, i + 1),
            None => routes_from(lines, interface, i + 1),
        }
    }
}

/// The routes of an interface: the table's first line is its heading.
pub open spec fn routes_of(table: Seq<char>, interface: Seq<char>) -> Seq<Route> {
    routes_from(lines_of(table), interface, 1)
}

/// The routes of an interface.
pub fn routes(table: &str, interface: &str) -> (r: Vec<Route>)
    ensures
        r@ == routes_of(table@, interface@),
{
    let all = lines(table);
    let ghost text = lines_of(table@);
    let mut out: Vec<Route> = Vec::new();
    let mut i: usize = 1;
    assert(out@ + routes_from(text, interface@, 1) =~= routes_from(text, interface@, 1));
    while i < all.len()
        invariant
            1 <= i,
            text == all@.map_values(|line: &str| line@),
            out@ + routes_from(text, interface@, i as int) == routes_from(text, interface@, 1),
        decreases all.len() - i,
    {
        assert(text[i as int] == all@[i as int]@);
        match route(all[i], interface) {
            Some(found) => {
                let ghost before = out@;
                out.push(found);
                assert(before + routes_from(text, interface@, i as int) =~= out@ + routes_from(
                    text,
                    interface@,
                    i + 1,
                ));
            },
            None => {},
        }
        i = i + 1;
    }
    assert(out@ + Seq::<Route>::empty() =~= out@);
    out
}

/// The gateway of the first default route, at or after a place.
pub open spec fn gateway_from(routes: Seq<Route>, i: int) -> Option<u32>
    decreases routes.len() - i,
{
    if i < 0 || i >= routes.len() {
        None
    } else if routes[i].destination == 0 && routes[i].gateway != 0 {
        Some(routes[i].gateway)
    } else {
        gateway_from(routes, i + 1)
    }
}

/// The default route's gateway, if the interface has one.
pub fn gateway_of(table: &str, interface: &str) -> (r: Option<u32>)
    ensures
        r == gateway_from(routes_of(table@, interface@), 0),
{
    let all = routes(table, interface);
    let mut i: usize = 0;
    while i < all.len()
        invariant
            i <= all.len(),
            all@ == routes_of(table@, interface@),
            gateway_from(all@, 0) == gateway_from(all@, i as int),
        decreases all.len() - i,
    {
        if all[i].destination == 0 && all[i].gateway != 0 {
            return Some(all[i].gateway);
        }
        i = i + 1;
    }
    None
}

/// How many bits of a number are set.
pub open spec fn ones(x: nat) -> nat
    decreases x,
{
    if x == 0 {
        0
    } else {
        x % 2 + ones(x / 2)
    }
}

proof fn ones_bound(x: nat, bits: nat)
    requires
        x < vstd::arithmetic::power2::pow2(bits),
    ensures
        ones(x) <= bits,
    decreases bits,
{
    if x > 0 {
        if bits == 0 {
            vstd::arithmetic::power2::lemma2_to64();
        } else {
            vstd::arithmetic::power2::lemma_pow2_unfold(bits);
            ones_bound(x / 2, (bits - 1) as nat);
        }
    }
}

fn count_ones(x: u32) -> (r: u32)
    ensures
        r == ones(x as nat),
        r <= 32,
{
    let mut left: u32 = x;
    let mut n: u32 = 0;
    proof {
        vstd::arithmetic::power2::lemma2_to64();
        ones_bound(x as nat, 32);
    }
    while left > 0
        invariant
            n + ones(left as nat) == ones(x as nat),
            ones(x as nat) <= 32,
        decreases left,
    {
        n = n + left % 2;
        left = left / 2;
    }
    n
}

/// Whether a route is to the interface's own network.
pub open spec fn on_link(route: Route) -> bool {
    route.destination != 0 && route.gateway == 0
}

/// The longest prefix among the on-link routes before a place.
pub open spec fn prefix_before(routes: Seq<Route>, n: int) -> Option<nat>
    decreases n,
{
    if n <= 0 || n > routes.len() {
        None
    } else if on_link(routes[n - 1]) {
        let bits = ones(routes[n - 1].mask as nat);
        match prefix_before(routes, n - 1) {
            Some(best) => Some(
                if bits > best {
                    bits
                } else {
                    best
                },
            ),
            None => Some(bits),
        }
    } else {
        prefix_before(routes, n - 1)
    }
}

/// The prefix length of the interface's own network.
pub fn prefix_of(table: &str, interface: &str) -> (r: Option<u32>)
    ensures
        match prefix_before(
            routes_of(table@, interface@),
            routes_of(table@, interface@).len() as int,
        ) {
            Some(bits) => r matches Some(n) && n == bits && n <= 32,
            None => r is None,
        },
{
    let all = routes(table, interface);
    let mut best: Option<u32> = None;
    let mut i: usize = 0;
    while i < all.len()
        invariant
            i <= all.len(),
            all@ == routes_of(table@, interface@),
            match prefix_before(all@, i as int) {
                Some(bits) => best matches Some(n) && n == bits && n <= 32,
                None => best is None,
            },
        decreases all.len() - i,
    {
        if all[i].destination != 0 && all[i].gateway == 0 {
            let bits: u32 = count_ones(all[i].mask);
            best = match best {
                Some(n) => if bits > n {
                    Some(bits)
                } else {
                    Some(n)
                },
                None => Some(bits),
            };
        }
        i = i + 1;
    }
    best
}

/// The name server that a line of the resolver file names, if it names any.
pub open spec fn server_of(line: Seq<char>) -> Option<Seq<char>> {
    let fields = words_of(line);
    if fields.len() >= 2 && fields[0] == "nameserver"@ {
        Some(fields[1])
    } else {
        None
    }
}

/// The name servers of the lines at or after a place.
pub open spec fn servers_from(lines: Seq<Seq<char>>, i: int) -> Seq<Seq<char>>
    decreases lines.len() - i,
{
    if i < 0 || i >= lines.len() {
        Seq::empty()
    } else {
        match server_of(lines[i]) {
            Some(server) => seq![server] + servers_from(lines, i + 1),
            None => servers_from(lines, i + 1),
        }
    }
}

/// Every name server that a resolver file names, in order.
pub fn named_servers(resolv: &str) -> (r: Vec<String>)
    ensures
        r@.map_values(|s: String| s@) == servers_from(lines_of(resolv@), 0),
{
    let all = lines(resolv);
    let ghost text = lines_of(resolv@);
    let mut out: Vec<String> = Vec::new();
    let mut i: usize = 0;
    assert(out@.map_values(|s: String| s@) + servers_from(text, 0) =~= servers_from(text, 0));
    while i < all.len()
        invariant
            i <= all.len(),
            text == all@.map_values(|line: &str| line@),
            out@.map_values(|s: String| s@) + servers_from(text, i as int) == servers_from(text, 0),
        decreases all.len() - i,
    {
        assert(text[i as int] == all@[i as int]@);
        let fields = words(all[i]);
        proof {
            assert forall|k: int| 0 <= k < fields@.len() implies words_of(text[i as int])[k] == (
            #[trigger] fields@[k])@ by {}
        }
        if fields.len() >= 2 && same(fields[0], "nameserver") {
            let ghost before = out@;
            out.push(fields[1].to_owned());
            proof {
                assert(out@.map_values(|s: String| s@) =~= before.map_values(|s: String| s@).push(
                    fields@[1]@,
                ));
                assert(before.map_values(|s: String| s@) + servers_from(text, i as int)
                    =~= out@.map_values(|s: String| s@) + servers_from(text, i + 1));
            }
        }
        i = i + 1;
    }
    assert(out@.map_values(|s: String| s@) + Seq::<Seq<char>>::empty() =~= out@.map_values(
        |s: String| s@,
    ));
    out
}

/// Those of the named servers that are addresses, before a place.
pub open spec fn addresses_before(named: Seq<String>, valid: Seq<bool>, n: int) -> Seq<String>
    decreases n,
{
    if n <= 0 || n > named.len() || n > valid.len() {
        Seq::empty()
    } else if valid[n - 1] {
        addresses_before(named, valid, n - 1).push(named[n - 1])
    } else {
        addresses_before(named, valid, n - 1)
    }
}

/// The first of a sequence, two at most.
pub open spec fn first_two<T>(s: Seq<T>) -> Seq<T> {
    if s.len() <= 2 {
        s
    } else {
        s.take(2)
    }
}

proof fn addresses_grow(named: Seq<String>, valid: Seq<bool>, n: int, m: int)
    requires
        0 <= n <= m <= named.len(),
        m <= valid.len(),
    ensures
        addresses_before(named, valid, n).len() <= addresses_before(named, valid, m).len(),
        addresses_before(named, valid, m).take(addresses_before(named, valid, n).len() as int)
            == addresses_before(named, valid, n),
    decreases m,
{
    if n < m {
        addresses_grow(named, valid, n, m - 1);
        let k = addresses_before(named, valid, n).len() as int;
        let prior = addresses_before(named, valid, m - 1);
        assert(addresses_before(named, valid, m).take(k) =~= prior.take(k));
    } else {
        assert(addresses_before(named, valid, m).take(
            addresses_before(named, valid, m).len() as int,
        ) =~= addresses_before(named, valid, m));
    }
}

/// The name servers that are shown: the first two that are addresses, in order.
/// `valid` says of each named server whether it is an address.
pub fn nameservers(named: &Vec<String>, valid: &Vec<bool>) -> (r: Vec<String>)
    requires
        named@.len() == valid@.len(),
    ensures
        r@ == first_two(addresses_before(named@, valid@, named@.len() as int)),
{
    let mut out: Vec<String> = Vec::new();
    let mut i: usize = 0;
    while i < named.len() && out.len() < 2
        invariant
            i <= named.len(),
            named@.len() == valid@.len(),
            out@ == addresses_before(named@, valid@, i as int),
            out@.len() <= 2,
        decreases named.len() - i,
    {
        if valid[i] {
            out.push(named[i].clone());
        }
        i = i + 1;
    }
    proof {
        addresses_grow(named@, valid@, i as int, named@.len() as int);
    }
    out
}

/// An address as it is written: four numbers with dots between.
pub open spec fn dotted_text(address: u32) -> Seq<char> {
    let x = address as nat;
    decimal(x / 0x100_0000) + "."@ + decimal(x / 0x1_0000 % 256) + "."@ + decimal(x / 256 % 256)
        + "."@ + decimal(x % 256)
}

/// An address as it is written.
pub fn dotted(address: u32) -> (r: String)
    ensures
        r@ == dotted_text(address),
{
    let x: u64 = address as u64;
    let mut s = number(x / 0x100_0000);
    s.append(".");
    s.append(number(x / 0x1_0000 % 256).as_str());
    s.append(".");
    s.append(number(x / 256 % 256).as_str());
    s.append(".");
    s.append(number(x % 256).as_str());
    s
}

/// The host whose route decides which address is ours: the gateway, or one that
/// no network has where there is none.
pub fn peer(gateway: Option<u32>) -> (r: u32)
    ensures
        r == match gateway {
            Some(g) => g,
            None => 0xC000_0201u32,
        },
        gateway is None ==> r == 192 * 0x100_0000 + 2 * 0x100 + 1,
        gateway is Some ==> Some(r) == gateway,
{
    match gateway {
        Some(g) => g,
        None => 0xC000_0201,
    }
}

/// Whether an address is one that others can reach: neither loopback nor none.
pub open spec fn reachable(address: u32) -> bool {
    address != 0 && address / 0x100_0000 != 127
}

/// The name servers with a comma between each two.
pub open spec fn comma_list(texts: Seq<String>) -> Seq<char>
    decreases texts.len(),
{
    if texts.len() == 0 {
        Seq::empty()
    } else if texts.len() == 1 {
        texts[0]@
    } else {
        comma_list(texts.drop_last()) + ", "@ + texts.last()@
    }
}

fn comma_joined(texts: &Vec<String>) -> (r: String)
    ensures
        r@ == comma_list(texts@),
{
    let mut s = String::new();
    let mut i: usize = 0;
    assert(texts@.take(0) =~= Seq::<String>::empty());
    while i < texts.len()
        invariant
            i <= texts.len(),
            s@ == comma_list(texts@.take(i as int)),
        decreases texts.len() - i,
    {
        assert(texts@.take(i + 1).drop_last() =~= texts@.take(i as int));
        if i > 0 {
            s.append(", ");
        }
        s.append(texts[i].as_str());
        proof {
            if i == 0 {
                assert(texts@.take(1)[0] == texts@[0]);
                assert(Seq::<char>::empty() + texts@[0]@ =~= texts@[0]@);
            } else {
                assert(texts@.take(i + 1).last() == texts@[i as int]);
            }
        }
        i = i + 1;
    }
    assert(texts@.take(texts@.len() as int) =~= texts@);
    s
}

/// The whole picture. `source` is the address that the kernel would send from;
/// every piece that is not known is left empty on its own.
pub fn current(table: &str, source: Option<u32>, servers: &Vec<String>, mac: &str) -> (r: Info)
    ensures
        ({
            let routes = routes_of(table@, INTERFACE@);
            let prefix = prefix_before(routes, routes.len() as int);
            &&& r.address@ == (match source {
                Some(ip) => if !reachable(ip) {
                    Seq::empty()
                } else {
                    match prefix {
                        Some(bits) => dotted_text(ip) + " /"@ + decimal(bits),
                        None => dotted_text(ip),
                    }
                },
                None => Seq::empty(),
            })
            &&& r.gateway@ == (match gateway_from(routes, 0) {
                Some(g) => dotted_text(g),
                None => Seq::empty(),
            })
            &&& r.dns@ == comma_list(servers@)
            &&& r.mac@ == trimmed(mac@)
        }),
{
    let gateway = gateway_of(table, INTERFACE);
    let prefix = prefix_of(table, INTERFACE);
    let address = match source {
        Some(ip) => if ip == 0 || ip / 0x100_0000 == 127 {
            String::new()
        } else {
            match prefix {
                Some(bits) => {
                    let mut s = dotted(ip);
                    s.append(" /");
                    s.append(number(bits as u64).as_str());
                    s
                },
                None => dotted(ip),
            }
        },
        None => String::new(),
    };
    Info {
        address,
        gateway: match gateway {
            Some(g) => dotted(g),
            None => String::new(),
        },
        dns: comma_joined(servers),
        mac: trim(mac).to_owned(),
    }
}

/// An address is written backwards in the kernel's table: its last byte first.
pub proof fn an_address_is_written_backwards(a: int, b: int, c: int, d: int)
    requires
        0 <= a < 256 && 0 <= b < 256 && 0 <= c < 256 && 0 <= d < 256,
    ensures
        swapped(d * 0x100_0000 + c * 0x1_0000 + b * 0x100 + a) == a * 0x100_0000 + b * 0x1_0000
            + c * 0x100 + d,
        swapped(swapped(d * 0x100_0000 + c * 0x1_0000 + b * 0x100 + a)) == d * 0x100_0000 + c
            * 0x1_0000 + b * 0x100 + a,
{
    bytes_of(d, c, b, a);
    bytes_of(a, b, c, d);
}

proof fn bytes_of(d: int, c: int, b: int, a: int)
    requires
        0 <= a < 256 && 0 <= b < 256 && 0 <= c < 256 && 0 <= d < 256,
    ensures
        ({
            let x = d * 0x100_0000 + c * 0x1_0000 + b * 0x100 + a;
            &&& x % 256 == a && x / 256 % 256 == b && x / 0x1_0000 % 256 == c
            &&& x / 0x100_0000 == d && x / 0x100_0000 % 256 == d
        }),
{
}

/// An address is shown as its four bytes, from the first to the last.
pub proof fn an_address_is_shown_in_four_parts(a: nat, b: nat, c: nat, d: nat)
    requires
        a < 256 && b < 256 && c < 256 && d < 256,
    ensures
        dotted_text((a * 0x100_0000 + b * 0x1_0000 + c * 0x100 + d) as u32) == decimal(a) + "."@
            + decimal(b) + "."@ + decimal(c) + "."@ + decimal(d),
{
    bytes_of(a as int, b as int, c as int, d as int);
}

/// A route is read from its own columns: destination, gateway and mask; a line of
/// another interface is none.
pub proof fn a_route_is_read_from_its_columns(line: Seq<char>, interface: Seq<char>)
    ensures
        match route_of(line, interface) {
            Some(route) => {
                let fields = words_of(line);
                &&& fields.len() >= 8 && fields[0] == interface
                &&& address_of(fields[1]) == Some(route.destination)
                &&& address_of(fields[2]) == Some(route.gateway)
                &&& address_of(fields[7]) == Some(route.mask)
            },
            None => {
                let fields = words_of(line);
                ||| fields.len() < 8
                ||| fields[0] != interface
                ||| address_of(fields[1]) is None
                ||| address_of(fields[2]) is None
                ||| address_of(fields[7]) is None
            },
        },
{
}

/// The gateway is that of the first route to everywhere that has one.
pub proof fn the_gateway_is_the_first_way_out(routes: Seq<Route>, i: int)
    requires
        0 <= i,
    ensures
        match gateway_from(routes, i) {
            Some(g) => g != 0 && exists|k: int|
                i <= k < routes.len() && (#[trigger] routes[k]).destination == 0
                    && routes[k].gateway == g && forall|j: int|
                    i <= j < k ==> !((#[trigger] routes[j]).destination == 0 && routes[j].gateway
                        != 0),
            None => forall|j: int|
                i <= j < routes.len() ==> !((#[trigger] routes[j]).destination == 0
                    && routes[j].gateway != 0),
        },
    decreases routes.len() - i,
{
    if i < routes.len() {
        if routes[i].destination == 0 && routes[i].gateway != 0 {
            assert(routes[i].gateway == gateway_from(routes, i)->0);
        } else {
            the_gateway_is_the_first_way_out(routes, i + 1);
            if gateway_from(routes, i) is Some {
                let g = gateway_from(routes, i)->0;
                let k = choose|k: int|
                    i + 1 <= k < routes.len() && (#[trigger] routes[k]).destination == 0
                        && routes[k].gateway == g && forall|j: int|
                        i + 1 <= j < k ==> !((#[trigger] routes[j]).destination == 0
                            && routes[j].gateway != 0);
                assert(routes[k].gateway == g);
            }
        }
    }
}

/// The prefix is the longest mask of the networks on the link.
pub proof fn the_prefix_is_the_longest_on_the_link(routes: Seq<Route>, n: int, k: int)
    requires
        0 <= n <= routes.len(),
    ensures
        0 <= k < n && routes[k].destination != 0 && routes[k].gateway == 0 ==> (prefix_before(
            routes,
            n,
        ) matches Some(bits) && bits >= ones(routes[k].mask as nat)),
        prefix_before(routes, n) matches Some(bits) ==> exists|j: int|
            0 <= j < n && (#[trigger] routes[j]).destination != 0 && routes[j].gateway == 0
                && ones(routes[j].mask as nat) == bits,
    decreases n,
{
    if n > 0 {
        the_prefix_is_the_longest_on_the_link(routes, n - 1, k);
        if prefix_before(routes, n) is Some {
            let bits = prefix_before(routes, n)->0;
            if on_link(routes[n - 1]) && bits == ones(routes[n - 1].mask as nat) {
                assert(routes[n - 1].destination != 0);
            } else {
                let j = choose|j: int|
                    0 <= j < n - 1 && (#[trigger] routes[j]).destination != 0 && routes[j].gateway
                        == 0 && ones(routes[j].mask as nat) == bits;
                assert(routes[j].gateway == 0);
            }
        }
    }
}

/// The bits of a number that are set, counted.
pub proof fn bits_are_counted(x: nat)
    ensures
        ones(0) == 0,
        ones(2 * x + 1) == ones(x) + 1,
        ones(2 * x) == ones(x),
{
    assert((2 * x + 1) % 2 == 1 && (2 * x + 1) / 2 == x);
    assert((2 * x) % 2 == 0 && (2 * x) / 2 == x);
}

/// A name server is the second word of a line that says so.
pub proof fn a_name_server_is_named_by_its_line(line: Seq<char>)
    ensures
        match server_of(line) {
            Some(server) => words_of(line).len() >= 2 && words_of(line)[0] == "nameserver"@
                && words_of(line)[1] == server,
            None => words_of(line).len() < 2 || words_of(line)[0] != "nameserver"@,
        },
{
}

/// Two name servers are shown at the most: the first that are addresses.
pub proof fn the_first_two_addresses_are_shown(named: Seq<String>, valid: Seq<bool>, n: int)
    requires
        0 < n <= named.len(),
        n <= valid.len(),
    ensures
        valid[n - 1] ==> addresses_before(named, valid, n) == addresses_before(
            named,
            valid,
            n - 1,
        ).push(named[n - 1]),
        !valid[n - 1] ==> addresses_before(named, valid, n) == addresses_before(
            named,
            valid,
            n - 1,
        ),
        first_two(named).len() <= 2,
        named.len() >= 2 ==> first_two(named).len() == 2 && first_two(named)[0] == named[0]
            && first_two(named)[1] == named[1],
        named.len() == 1 ==> first_two(named) == named,
{
}

/// An address that others reach is neither nothing nor the remote's own.
pub proof fn an_address_that_others_reach(address: u32)
    ensures
        !reachable(0),
        !reachable(0x7f00_0001),
        address >= 0x8000_0000 ==> reachable(address),
        0 < address < 0x7f00_0000 ==> reachable(address),
        0x7f00_0000 <= address < 0x8000_0000 ==> !reachable(address),
{
}

/// Texts in a list are set apart by commas.
pub proof fn a_list_is_set_apart_by_commas(texts: Seq<String>, next: String)
    ensures
        texts.len() == 0 ==> comma_list(texts).len() == 0 && comma_list(texts.push(next)) == next@,
        texts.len() > 0 ==> comma_list(texts.push(next)) == comma_list(texts) + ", "@ + next@,
{
    assert(texts.push(next).drop_last() =~= texts);
}

/// An address is shown bare without what follows it.
pub proof fn a_bare_address_has_no_prefix(address: Seq<char>, rest: Seq<char>)
    requires
        !address.contains(' '),
    ensures
        bare_address(address + seq![' ', '/'] + rest) == address,
        bare_address(address) == address,
    decreases address.len(),
{
    let all = address + seq![' ', '/'] + rest;
    if address.len() == 0 {
        assert(all.subrange(0, 2) =~= seq![' ', '/']);
        assert(bare_address(all) =~= address);
        assert(bare_address(address) =~= address);
    } else {
        let tail = address.subrange(1, address.len() as int);
        assert(address[0] != ' ');
        assert forall|i: int| 0 <= i < tail.len() implies tail[i] != ' ' by {
            assert(address[i + 1] != ' ');
        }
        a_bare_address_has_no_prefix(tail, rest);
        assert(all.subrange(1, all.len() as int) =~= tail + seq![' ', '/'] + rest);
        if begins(all, seq![' ', '/']) {
            assert(all.subrange(0, 2)[0] == ' ');
        }
        if begins(address, seq![' ', '/']) {
            assert(address.subrange(0, 2)[0] == ' ');
        }
        assert(seq![address[0]] + tail =~= address);
    }
}

/// The interface that is described, and the name that its web page has.
pub proof fn the_remotes_own_names()
    ensures
        INTERFACE@ == "wlan0"@,
        WEB_HOST@ == "couch.local"@,
{
}

/// The routes are those of the table's lines after its heading, in their order.
pub proof fn the_routes_follow_the_heading(
    lines: Seq<Seq<char>>,
    table: Seq<char>,
    interface: Seq<char>,
    i: int,
)
    requires
        0 <= i < lines.len(),
    ensures
        routes_of(table, interface) == routes_from(lines_of(table), interface, 1),
        route_of(lines[i], interface) matches Some(route) ==> routes_from(lines, interface, i)
            == seq![route] + routes_from(lines, interface, i + 1),
        route_of(lines[i], interface) is None ==> routes_from(lines, interface, i) == routes_from(
            lines,
            interface,
            i + 1,
        ),
        routes_from(lines, interface, lines.len() as int).len() == 0,
        server_of(lines[i]) matches Some(server) ==> servers_from(lines, i) == seq![server]
            + servers_from(lines, i + 1),
        server_of(lines[i]) is None ==> servers_from(lines, i) == servers_from(lines, i + 1),
        servers_from(lines, lines.len() as int).len() == 0,
{
}

} // verus!
