//! Target resolution: from a target specification to an ordered list of addresses.
//!
//! A specification is a single item or a comma-separated list of items. An item
//! with a `/` is a network in CIDR notation, whose host addresses are
//! enumerated up to a cap; any other item is an address or a name, which the
//! caller resolves and reports back.

use crate::text::{
    contains_char, from_chars, split, split_chars, to_chars, trim, trim_chars, views,
};
use vstd::arithmetic::power2::pow2;
use vstd::prelude::*;

verus! {

/// The most host addresses taken from one network.
pub const MAX_NETWORK_HOSTS: usize = 1024;

/// An IPv4 or IPv6 address, as the number that its bytes write in network order.
#[derive(Clone, Copy, Debug, PartialEq, Eq, Structural, Hash)]
pub enum IpAddress {
    V4(u32),
    V6(u128),
}

/// An address with a prefix length, as CIDR notation writes it.
#[derive(Clone, Copy, Debug, PartialEq, Eq, Structural, Hash)]
#[allow(inconsistent_fields)]
pub enum Network {
    V4 { addr: u32, prefix_len: u8 },
    V6 { addr: u128, prefix_len: u8 },
}

impl Network {
    /// The prefix length does not exceed the address width.
    pub open spec fn wf(self) -> bool {
        match self {
            Network::V4 { prefix_len, .. } => prefix_len <= 32,
            Network::V6 { prefix_len, .. } => prefix_len <= 128,
        }
    }
}

/// The lowest address of the block of `2^host_bits` addresses that holds `addr`.
pub open spec fn block_start(addr: int, host_bits: int) -> int {
    (addr / pow2(host_bits as nat) as int) * pow2(host_bits as nat) as int
}

/// The highest address of the block of `2^host_bits` addresses that holds `addr`.
pub open spec fn block_end(addr: int, host_bits: int) -> int {
    block_start(addr, host_bits) + pow2(host_bits as nat) - 1
}

/// The host addresses of an IPv4 network, ascending: the whole block for the
/// prefix lengths 31 and 32, else the block without its first (network) and
/// last (broadcast) address.
pub open spec fn ipv4_hosts(addr: u32, prefix_len: u8) -> Seq<u32> {
    let first = block_start(addr as int, 32 - prefix_len) + if prefix_len < 31 {
        1int
    } else {
        0int
    };
    let last = block_end(addr as int, 32 - prefix_len) - if prefix_len < 31 {
        1int
    } else {
        0int
    };
    Seq::new((last - first + 1) as nat, |i: int| (first + i) as u32)
}

/// The host addresses of an IPv6 network, ascending: every address of the block.
pub open spec fn ipv6_hosts(addr: u128, prefix_len: u8) -> Seq<u128> {
    let first = block_start(addr as int, 128 - prefix_len);
    let last = block_end(addr as int, 128 - prefix_len);
    Seq::new((last - first + 1) as nat, |i: int| (first + i) as u128)
}

/// The host addresses of a network, ascending; none if the prefix length
/// exceeds the address width.
pub open spec fn network_hosts(net: Network) -> Seq<IpAddress> {
    if !net.wf() {
        Seq::empty()
    } else {
        match net {
            Network::V4 { addr, prefix_len } => ipv4_hosts(addr, prefix_len).map_values(
                |a: u32| IpAddress::V4(a),
            ),
            Network::V6 { addr, prefix_len } => ipv6_hosts(addr, prefix_len).map_values(
                |a: u128| IpAddress::V6(a),
            ),
        }
    }
}

/// The first `MAX_NETWORK_HOSTS` of `hosts`, or all of them if there are fewer.
pub open spec fn capped(hosts: Seq<IpAddress>) -> Seq<IpAddress> {
    if hosts.len() > MAX_NETWORK_HOSTS {
        hosts.take(MAX_NETWORK_HOSTS as int)
    } else {
        hosts
    }
}

/// `ipnet::Ipv4AddrRange`, the iterator over IPv4 addresses; a value of it is
/// known only by what `v4_remaining` names.
#[verifier::external_type_specification]
#[verifier::external_body]
pub struct ExIpv4AddrRange(ipnet::Ipv4AddrRange);

/// `ipnet::Ipv6AddrRange`, the iterator over IPv6 addresses; a value of it is
/// known only by what `v6_remaining` names.
#[verifier::external_type_specification]
#[verifier::external_body]
pub struct ExIpv6AddrRange(ipnet::Ipv6AddrRange);

/// The network that `ipnet::IpNet::from_str` reads from a string, if it reads one.
pub uninterp spec fn cidr_of(item: Seq<char>) -> Option<Network>;

/// The addresses that an `ipnet::Ipv4AddrRange` has yet to yield, in order.
pub uninterp spec fn v4_remaining(range: ipnet::Ipv4AddrRange) -> Seq<u32>;

/// The addresses that an `ipnet::Ipv6AddrRange` has yet to yield, in order.
pub uninterp spec fn v6_remaining(range: ipnet::Ipv6AddrRange) -> Seq<u128>;

/// `ipnet::IpNet::from_str`: parses CIDR notation. The contract names the
/// result, and states that a parsed prefix length fits the address family,
/// which the parser checks before it builds the network.
#[verifier::external_body]
pub(crate) fn parse_network(item: &str) -> (r: Option<Network>)
    ensures
        r == cidr_of(item@),
        r matches Some(net) ==> net.wf(),
{
    match item.parse::<ipnet::IpNet>() {
        Ok(ipnet::IpNet::V4(n)) => Some(
            Network::V4 { addr: n.addr().into(), prefix_len: n.prefix_len() },
        ),
        Ok(ipnet::IpNet::V6(n)) => Some(
            Network::V6 { addr: n.addr().into(), prefix_len: n.prefix_len() },
        ),
        Err(_) => None,
    }
}

/// `ipnet::Ipv4Net::hosts`: an iterator from the network address to the
/// broadcast address, both left out when the prefix length is under 31.
#[verifier::external_body]
fn v4_hosts(addr: u32, prefix_len: u8) -> (r: ipnet::Ipv4AddrRange)
    requires
        prefix_len <= 32,
    ensures
        v4_remaining(r) == ipv4_hosts(addr, prefix_len),
{
    ipnet::Ipv4Net::new_assert(addr.into(), prefix_len).hosts()
}

/// `ipnet::Ipv6Net::hosts`: an iterator from the first to the last address of
/// the network.
#[verifier::external_body]
fn v6_hosts(addr: u128, prefix_len: u8) -> (r: ipnet::Ipv6AddrRange)
    requires
        prefix_len <= 128,
    ensures
        v6_remaining(r) == ipv6_hosts(addr, prefix_len),
{
    ipnet::Ipv6Net::new_assert(addr.into(), prefix_len).hosts()
}

/// `ipnet::Ipv4AddrRange::next`: yields the lowest remaining address and
/// leaves the others, or yields nothing when none remains.
#[verifier::external_body]
fn v4_next(range: &mut ipnet::Ipv4AddrRange) -> (r: Option<u32>)
    ensures
        v4_remaining(*old(range)).len() > 0 ==> r == Some(v4_remaining(*old(range)).first())
            && v4_remaining(*final(range)) == v4_remaining(*old(range)).drop_first(),
        v4_remaining(*old(range)).len() == 0 ==> r.is_none() && v4_remaining(*final(range)).len()
            == 0,
{
    range.next().map(u32::from)
}

/// `ipnet::Ipv6AddrRange::next`: yields the lowest remaining address and
/// leaves the others, or yields nothing when none remains.
#[verifier::external_body]
fn v6_next(range: &mut ipnet::Ipv6AddrRange) -> (r: Option<u128>)
    ensures
        v6_remaining(*old(range)).len() > 0 ==> r == Some(v6_remaining(*old(range)).first())
            && v6_remaining(*final(range)) == v6_remaining(*old(range)).drop_first(),
        v6_remaining(*old(range)).len() == 0 ==> r.is_none() && v6_remaining(*final(range)).len()
            == 0,
{
    range.next().map(u128::from)
}

/// The host addresses of `net` up to the cap, and whether the network has more.
#[verifier::rlimit(50)]
pub fn enumerate_hosts(net: &Network) -> (r: (Vec<IpAddress>, bool))
    ensures
        r.0@ == capped(network_hosts(*net)),
        r.1 == (network_hosts(*net).len() > MAX_NETWORK_HOSTS),
{
    let mut out: Vec<IpAddress> = Vec::new();
    let ghost all = network_hosts(*net);
    match *net {
        Network::V4 { addr, prefix_len } => {
            if prefix_len > 32 {
                return (out, false);
            }
            let mut range = v4_hosts(addr, prefix_len);
            let ghost hosts = ipv4_hosts(addr, prefix_len);
            assert(hosts.skip(0) =~= hosts);
            assert(out@ =~= all.take(0));
            loop
                invariant
                    all == network_hosts(*net),
                    all == hosts.map_values(|a: u32| IpAddress::V4(a)),
                    out.len() <= MAX_NETWORK_HOSTS,
                    out.len() <= hosts.len(),
                    v4_remaining(range) == hosts.skip(out.len() as int),
                    out@ == all.take(out.len() as int),
                decreases MAX_NETWORK_HOSTS - out.len(),
            {
                let ghost before = out@;
                match v4_next(&mut range) {
                    None => {
                        assert(all.take(all.len() as int) =~= all);
                        return (out, false);
                    },
                    Some(a) => {
                        if out.len() == MAX_NETWORK_HOSTS {
                            return (out, true);
                        }
                        assert(hosts.skip(before.len() as int).drop_first() =~= hosts.skip(
                            before.len() as int + 1,
                        ));
                        out.push(IpAddress::V4(a));
                        assert(out@ =~= all.take(out.len() as int));
                    },
                }
            }
        },
        Network::V6 { addr, prefix_len } => {
            if prefix_len > 128 {
                return (out, false);
            }
            let mut range = v6_hosts(addr, prefix_len);
            let ghost hosts = ipv6_hosts(addr, prefix_len);
            assert(hosts.skip(0) =~= hosts);
            assert(out@ =~= all.take(0));
            loop
                invariant
                    all == network_hosts(*net),
                    all == hosts.map_values(|a: u128| IpAddress::V6(a)),
                    out.len() <= MAX_NETWORK_HOSTS,
                    out.len() <= hosts.len(),
                    v6_remaining(range) == hosts.skip(out.len() as int),
                    out@ == all.take(out.len() as int),
                decreases MAX_NETWORK_HOSTS - out.len(),
            {
                let ghost before = out@;
                match v6_next(&mut range) {
                    None => {
                        assert(all.take(all.len() as int) =~= all);
                        return (out, false);
                    },
                    Some(a) => {
                        if out.len() == MAX_NETWORK_HOSTS {
                            return (out, true);
                        }
                        assert(hosts.skip(before.len() as int).drop_first() =~= hosts.skip(
                            before.len() as int + 1,
                        ));
                        out.push(IpAddress::V6(a));
                        assert(out@ =~= all.take(out.len() as int));
                    },
                }
            }
        },
    }
}

/// A network always has a host address, so none is rejected for being empty.
pub proof fn lemma_network_has_hosts(net: Network)
    requires
        net.wf(),
    ensures
        network_hosts(net).len() >= 1,
{
    match net {
        Network::V4 { addr, prefix_len } => {
            vstd::arithmetic::power2::lemma_pow2_pos((32 - prefix_len) as nat);
            if prefix_len < 31 {
                vstd::arithmetic::power2::lemma_pow2_strictly_increases(
                    1,
                    (32 - prefix_len) as nat,
                );
                vstd::arithmetic::power2::lemma2_to64();
            }
        },
        Network::V6 { addr, prefix_len } => {
            vstd::arithmetic::power2::lemma_pow2_pos((128 - prefix_len) as nat);
        },
    }
}

/// A network with more host addresses than the cap yields exactly
/// `MAX_NETWORK_HOSTS` targets, the first ones in ascending order.
pub proof fn lemma_large_network_is_capped(net: Network)
    requires
        network_hosts(net).len() > MAX_NETWORK_HOSTS,
    ensures
        capped(network_hosts(net)).len() == MAX_NETWORK_HOSTS,
        capped(network_hosts(net)) == network_hosts(net).take(MAX_NETWORK_HOSTS as int),
{
}

/// An IPv4 network with a prefix length of at most 21 has more host addresses
/// than the cap, and so yields exactly `MAX_NETWORK_HOSTS` targets.
pub proof fn lemma_short_prefix_is_capped(addr: u32, prefix_len: u8)
    requires
        prefix_len <= 21,
    ensures
        capped(network_hosts(Network::V4 { addr, prefix_len })).len() == MAX_NETWORK_HOSTS,
{
    vstd::arithmetic::power2::lemma_pow2_strictly_increases(10, (32 - prefix_len) as nat);
    vstd::arithmetic::power2::lemma2_to64();
}

/// What the caller found out about an item that is no network.
#[derive(Clone, Copy, Debug, PartialEq, Eq, Structural)]
pub enum Lookup {
    /// The item is an address, or a name that resolved to this address first.
    Address(IpAddress),
    /// The item is no address, and names were not to be looked up.
    NotAnAddress,
    /// The name service failed.
    Failed,
    /// The name service answered without any address.
    NoAddress,
}

/// Why a target specification was rejected; `item` counts the items from 0.
#[derive(Clone, Copy, Debug, PartialEq, Eq, Structural)]
pub enum TargetError {
    /// The item has a `/` and is not valid CIDR notation.
    InvalidCidr { item: usize },
    /// The item is neither a network nor an address, and names are not resolved.
    NotAnAddress { item: usize },
    /// The name could not be resolved.
    ResolutionFailed { item: usize },
    /// The name resolved to no address.
    NoAddressFound { item: usize },
}

/// Where the resolution of a specification stands.
#[derive(Debug)]
pub enum Resolution {
    /// Every item is resolved. `truncated` tells that some network had more
    /// host addresses than the cap.
    Done { targets: Vec<IpAddress>, truncated: bool },
    /// The caller has to find the address of this item and add it to the answers.
    NeedAddress { item: usize, lookup_allowed: bool },
    /// The specification is rejected.
    Failed(TargetError),
}

/// A `Resolution` with its targets as a sequence.
pub enum Outcome {
    Done { targets: Seq<IpAddress>, truncated: bool },
    NeedAddress { item: usize, lookup_allowed: bool },
    Failed(TargetError),
}

impl View for Resolution {
    type V = Outcome;

    open spec fn view(&self) -> Outcome {
        match *self {
            Resolution::Done { targets, truncated } => Outcome::Done {
                targets: targets@,
                truncated,
            },
            Resolution::NeedAddress { item, lookup_allowed } => Outcome::NeedAddress {
                item,
                lookup_allowed,
            },
            Resolution::Failed(e) => Outcome::Failed(e),
        }
    }
}

/// The views of a sequence of strings.
pub open spec fn string_views(v: Seq<String>) -> Seq<Seq<char>> {
    v.map_values(|s: String| s@)
}

/// The items of a specification: the trimmed pieces between commas, or the
/// specification itself, untrimmed, if it has no comma.
pub open spec fn items_of(spec: Seq<char>) -> Seq<Seq<char>> {
    if spec.contains(',') {
        split(spec, ',').map_values(|p: Seq<char>| trim(p))
    } else {
        seq![spec]
    }
}

/// Whether an item is read as a network in CIDR notation.
pub open spec fn is_network(item: Seq<char>) -> bool {
    item.contains('/')
}

/// The resolution of `items` from item `k` on, with the answers from `j` on,
/// after `acc` has been gathered from the items before `k`.
pub open spec fn resolve_from(
    items: Seq<Seq<char>>,
    fast: bool,
    answers: Seq<Lookup>,
    k: int,
    j: int,
    acc: Seq<IpAddress>,
    truncated: bool,
) -> Outcome
    decreases items.len() - k,
{
    if k < 0 || k >= items.len() {
        Outcome::Done { targets: acc, truncated }
    } else if is_network(items[k]) {
        match cidr_of(items[k]) {
            None => Outcome::Failed(TargetError::InvalidCidr { item: k as usize }),
            Some(net) => {
                let hosts = network_hosts(net);
                resolve_from(
                    items,
                    fast,
                    answers,
                    k + 1,
                    j,
                    acc + capped(hosts),
                    truncated || hosts.len() > MAX_NETWORK_HOSTS,
                )
            },
        }
    } else if j < 0 || j >= answers.len() {
        Outcome::NeedAddress { item: k as usize, lookup_allowed: !fast }
    } else {
        match answers[j] {
            Lookup::Address(a) => resolve_from(
                items,
                fast,
                answers,
                k + 1,
                j + 1,
                acc.push(a),
                truncated,
            ),
            Lookup::NotAnAddress => Outcome::Failed(TargetError::NotAnAddress { item: k as usize }),
            Lookup::Failed => Outcome::Failed(TargetError::ResolutionFailed { item: k as usize }),
            Lookup::NoAddress => Outcome::Failed(TargetError::NoAddressFound { item: k as usize }),
        }
    }
}

/// The resolution of a specification, given the answers for the first of its
/// items that are no networks: the items are taken in order, the first
/// rejected one fails the whole, a network contributes its host addresses up
/// to the cap, and any other item contributes the address that its answer
/// holds. Without an answer for such an item, that answer is asked for.
pub open spec fn resolution(spec: Seq<char>, fast: bool, answers: Seq<Lookup>) -> Outcome {
    resolve_from(items_of(spec), fast, answers, 0, 0, Seq::empty(), false)
}

/// A specification that is a single network with more host addresses than
/// the cap resolves to exactly `MAX_NETWORK_HOSTS` targets, the first host
/// addresses of the network, whatever the mode and the answers.
pub proof fn lemma_large_network_resolution(
    spec: Seq<char>,
    fast: bool,
    answers: Seq<Lookup>,
    net: Network,
)
    requires
        !spec.contains(','),
        is_network(spec),
        cidr_of(spec) == Some(net),
        network_hosts(net).len() > MAX_NETWORK_HOSTS,
    ensures
        resolution(spec, fast, answers) == (Outcome::Done {
            targets: network_hosts(net).take(MAX_NETWORK_HOSTS as int),
            truncated: true,
        }),
{
    let items = items_of(spec);
    let hosts = network_hosts(net);
    assert(items[0] == spec);
    assert(Seq::<IpAddress>::empty() + capped(hosts) =~= hosts.take(MAX_NETWORK_HOSTS as int));
    assert(resolve_from(items, fast, answers, 1, 0, Seq::empty() + capped(hosts), true)
        == Outcome::Done { targets: Seq::empty() + capped(hosts), truncated: true });
}

fn item_chars(spec: &str) -> (r: Vec<Vec<char>>)
    ensures
        views(r@) == items_of(spec@),
{
    let chars = to_chars(spec);
    let mut out: Vec<Vec<char>> = Vec::new();
    if contains_char(&chars, ',') {
        let pieces = split_chars(&chars, ',');
        let mut i: usize = 0;
        while i < pieces.len()
            invariant
                i <= pieces.len(),
                views(pieces@) == split(spec@, ','),
                views(out@) == items_of(spec@).take(i as int),
                spec@.contains(','),
            decreases pieces.len() - i,
        {
            let t = trim_chars(&pieces[i]);
            let ghost before = out@;
            out.push(t);
            assert(views(out@) =~= views(before).push(t@));
            assert(items_of(spec@).take(i as int).push(items_of(spec@)[i as int]) =~= items_of(
                spec@,
            ).take(i + 1));
            assert(views(pieces@)[i as int] == pieces@[i as int]@);
            i += 1;
        }
        assert(items_of(spec@).take(pieces.len() as int) =~= items_of(spec@));
    } else {
        out.push(chars);
        assert(views(out@) =~= seq![spec@]);
    }
    out
}

/// The items of a target specification, as `resolve_targets` counts them.
pub fn target_items(spec: &str) -> (r: Vec<String>)
    ensures
        string_views(r@) == items_of(spec@),
{
    let items = item_chars(spec);
    let mut out: Vec<String> = Vec::new();
    let mut i: usize = 0;
    while i < items.len()
        invariant
            i <= items.len(),
            string_views(out@) == views(items@).take(i as int),
        decreases items.len() - i,
    {
        let ghost before = out@;
        let s = from_chars(&items[i]);
        out.push(s);
        assert(string_views(out@) =~= string_views(before).push(s@));
        assert(views(items@).take(i as int).push(items@[i as int]@)
            =~= views(items@).take(i + 1));
        i += 1;
    }
    assert(views(items@).take(items.len() as int) =~= views(items@));
    out
}

/// The host addresses of the network that `item` writes in CIDR notation, up to
/// the cap, and whether the network has more; `None` if `item` is no network.
pub fn network_targets(item: &str) -> (r: Option<(Vec<IpAddress>, bool)>)
    ensures
        r.is_some() == cidr_of(item@).is_some(),
        r matches Some(found) ==> found.0@ == capped(network_hosts(cidr_of(item@).unwrap()))
            && found.1 == (network_hosts(cidr_of(item@).unwrap()).len() > MAX_NETWORK_HOSTS),
{
    match parse_network(item) {
        None => None,
        Some(net) => Some(enumerate_hosts(&net)),
    }
}

/// Resolves a target specification as far as the answers reach.
///
/// The caller starts without answers. As long as the result asks for the
/// address of an item, the caller finds it out, adds it to the answers and
/// calls again.
#[verifier::rlimit(50)]
pub fn resolve_targets(spec: &str, fast: bool, answers: &Vec<Lookup>) -> (r: Resolution)
    ensures
        r@ == resolution(spec@, fast, answers@),
{
    let items = item_chars(spec);
    let ghost its = items_of(spec@);
    let mut targets: Vec<IpAddress> = Vec::new();
    let mut truncated = false;
    let mut k: usize = 0;
    let mut j: usize = 0;
    while k < items.len()
        invariant
            k <= items.len(),
            j <= answers.len(),
            its == items_of(spec@),
            views(items@) == its,
            resolution(spec@, fast, answers@) == resolve_from(
                its,
                fast,
                answers@,
                k as int,
                j as int,
                targets@,
                truncated,
            ),
        decreases items.len() - k,
    {
        assert(its[k as int] == items@[k as int]@);
        if contains_char(&items[k], '/') {
            let text = from_chars(&items[k]);
            match network_targets(text.as_str()) {
                None => {
                    return Resolution::Failed(TargetError::InvalidCidr { item: k });
                },
                Some(found) => {
                    let (mut hosts, more) = found;
                    targets.append(&mut hosts);
                    truncated = truncated || more;
                },
            }
        } else if j >= answers.len() {
            return Resolution::NeedAddress { item: k, lookup_allowed: !fast };
        } else {
            match answers[j] {
                Lookup::Address(a) => {
                    targets.push(a);
                },
                Lookup::NotAnAddress => {
                    return Resolution::Failed(TargetError::NotAnAddress { item: k });
                },
                Lookup::Failed => {
                    return Resolution::Failed(TargetError::ResolutionFailed { item: k });
                },
                Lookup::NoAddress => {
                    return Resolution::Failed(TargetError::NoAddressFound { item: k });
                },
            }
            j += 1;
        }
        k += 1;
    }
    Resolution::Done { targets, truncated }
}

} // verus!
