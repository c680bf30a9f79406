//! The textual form of addresses: dotted decimal for IPv4; for IPv6 groups of
//! lower-case hexadecimal digits with the longest run of zero groups
//! shortened to `::`, and the dotted form for an IPv4-mapped address.

use crate::targets::IpAddress;
use crate::text::{append, append_str, decimal, decimal_chars, from_chars, to_chars};
use vstd::prelude::*;

verus! {

/// The character that writes the hexadecimal digit `d`.
pub open spec fn hex_digit(d: int) -> char {
    if d == 0 {
        '0'
    } else if d == 1 {
        '1'
    } else if d == 2 {
        '2'
    } else if d == 3 {
        '3'
    } else if d == 4 {
        '4'
    } else if d == 5 {
        '5'
    } else if d == 6 {
        '6'
    } else if d == 7 {
        '7'
    } else if d == 8 {
        '8'
    } else if d == 9 {
        '9'
    } else if d == 10 {
        'a'
    } else if d == 11 {
        'b'
    } else if d == 12 {
        'c'
    } else if d == 13 {
        'd'
    } else if d == 14 {
        'e'
    } else {
        'f'
    }
}

/// The hexadecimal notation of `n`, in lower case, without leading zeros.
pub open spec fn hex(n: nat) -> Seq<char>
    decreases n,
{
    if n < 16 {
        seq![hex_digit(n as int)]
    } else {
        hex(n / 16).push(hex_digit((n % 16) as int))
    }
}

/// The last `count` groups of 16 bits of `a`, the highest first.
pub open spec fn groups_of(a: nat, count: nat) -> Seq<u16>
    decreases count,
{
    if count == 0 {
        Seq::empty()
    } else {
        groups_of(a / 65536, (count - 1) as nat).push((a % 65536) as u16)
    }
}

/// The number of zero groups in a row from `at` on.
pub open spec fn zero_run(groups: Seq<u16>, at: int) -> int
    decreases groups.len() - at,
{
    if 0 <= at < groups.len() && groups[at] == 0 {
        1 + zero_run(groups, at + 1)
    } else {
        0
    }
}

/// The first of the positions below `upto` at which the longest run of zero
/// groups begins.
pub open spec fn longest_run_start(groups: Seq<u16>, upto: int) -> int
    decreases upto,
{
    if upto <= 1 {
        0
    } else {
        let best = longest_run_start(groups, upto - 1);
        if zero_run(groups, upto - 1) > zero_run(groups, best) {
            upto - 1
        } else {
            best
        }
    }
}

/// Groups written in hexadecimal with colons between them.
pub open spec fn joined_groups(groups: Seq<u16>) -> Seq<char>
    decreases groups.len(),
{
    if groups.len() == 0 {
        Seq::empty()
    } else if groups.len() == 1 {
        hex(groups[0] as nat)
    } else {
        joined_groups(groups.drop_last()) + ":"@ + hex(groups.last() as nat)
    }
}

/// The dotted decimal form of an IPv4 address.
pub open spec fn ipv4_text(a: u32) -> Seq<char> {
    decimal((a / 16777216) as nat) + "."@ + decimal((a / 65536 % 256) as nat) + "."@ + decimal(
        (a / 256 % 256) as nat,
    ) + "."@ + decimal((a % 256) as nat)
}

/// The form of an IPv6 address.
pub open spec fn ipv6_text(a: u128) -> Seq<char> {
    if a / 4294967296 == 0xffff {
        "::ffff:"@ + ipv4_text((a % 4294967296) as u32)
    } else {
        let groups = groups_of(a as nat, 8);
        let start = longest_run_start(groups, 8);
        let len = zero_run(groups, start);
        if len > 1 {
            joined_groups(groups.take(start)) + "::"@ + joined_groups(groups.skip(start + len))
        } else {
            joined_groups(groups)
        }
    }
}

impl IpAddress {
    /// The address as text.
    pub open spec fn text(self) -> Seq<char> {
        match self {
            IpAddress::V4(a) => ipv4_text(a),
            IpAddress::V6(a) => ipv6_text(a),
        }
    }
}

fn hex_digit_of(d: u16) -> (c: char)
    requires
        d < 16,
    ensures
        c == hex_digit(d as int),
{
    if d == 0 {
        '0'
    } else if d == 1 {
        '1'
    } else if d == 2 {
        '2'
    } else if d == 3 {
        '3'
    } else if d == 4 {
        '4'
    } else if d == 5 {
        '5'
    } else if d == 6 {
        '6'
    } else if d == 7 {
        '7'
    } else if d == 8 {
        '8'
    } else if d == 9 {
        '9'
    } else if d == 10 {
        'a'
    } else if d == 11 {
        'b'
    } else if d == 12 {
        'c'
    } else if d == 13 {
        'd'
    } else if d == 14 {
        'e'
    } else {
        'f'
    }
}

/// Writes `n` in hexadecimal.
pub fn hex_chars(n: u16) -> (r: Vec<char>)
    ensures
        r@ == hex(n as nat),
    decreases n,
{
    if n < 16 {
        let mut v: Vec<char> = Vec::new();
        v.push(hex_digit_of(n));
        assert(v@ =~= seq![hex_digit(n as int)]);
        v
    } else {
        let mut v = hex_chars(n / 16);
        v.push(hex_digit_of(n % 16));
        v
    }
}

fn groups(a: u128, count: usize) -> (r: Vec<u16>)
    ensures
        r@ == groups_of(a as nat, count as nat),
        r.len() == count,
    decreases count,
{
    if count == 0 {
        Vec::new()
    } else {
        let mut v = groups(a / 65536, count - 1);
        v.push((a % 65536) as u16);
        v
    }
}

fn join_groups(groups: &Vec<u16>, from: usize, to: usize) -> (r: Vec<char>)
    requires
        from <= to <= groups.len(),
    ensures
        r@ == joined_groups(groups@.subrange(from as int, to as int)),
{
    let mut out: Vec<char> = Vec::new();
    let mut i: usize = from;
    assert(groups@.subrange(from as int, from as int) =~= Seq::<u16>::empty());
    while i < to
        invariant
            from <= i <= to <= groups.len(),
            out@ == joined_groups(groups@.subrange(from as int, i as int)),
        decreases to - i,
    {
        let ghost next = groups@.subrange(from as int, i + 1);
        assert(next.drop_last() =~= groups@.subrange(from as int, i as int));
        assert(next.last() == groups@[i as int]);
        if i > from {
            append_str(&mut out, ":");
        }
        let digits = hex_chars(groups[i]);
        append(&mut out, &digits);
        proof {
            if i == from {
                assert(next.len() == 1);
                assert(Seq::<char>::empty() + hex(groups@[i as int] as nat) =~= hex(
                    groups@[i as int] as nat,
                ));
            }
        }
        i += 1;
    }
    out
}

fn ipv4_chars(a: u32) -> (r: Vec<char>)
    ensures
        r@ == ipv4_text(a),
{
    let mut out = decimal_chars((a / 16777216) as u64);
    append_str(&mut out, ".");
    let second = decimal_chars((a / 65536 % 256) as u64);
    append(&mut out, &second);
    append_str(&mut out, ".");
    let third = decimal_chars((a / 256 % 256) as u64);
    append(&mut out, &third);
    append_str(&mut out, ".");
    let fourth = decimal_chars((a % 256) as u64);
    append(&mut out, &fourth);
    out
}

#[verifier::rlimit(50)]
fn ipv6_chars(a: u128) -> (r: Vec<char>)
    ensures
        r@ == ipv6_text(a),
{
    if a / 4294967296 == 0xffff {
        let mut out = to_chars("::ffff:");
        let v4 = ipv4_chars((a % 4294967296) as u32);
        append(&mut out, &v4);
        return out;
    }
    let parts = groups(a, 8);
    // The run of zero groups that begins at each position, from the last down.
    let mut runs: Vec<usize> = Vec::new();
    let mut k: usize = 0;
    while k < 9
        invariant
            k <= 9,
            runs.len() == k,
            forall|n: int| 0 <= n < k ==> runs@[n] == 0,
        decreases 9 - k,
    {
        runs.push(0);
        k += 1;
    }
    let mut i: usize = 8;
    while i > 0
        invariant
            i <= 8,
            parts.len() == 8,
            runs.len() == 9,
            forall|j: int| i <= j <= 8 ==> #[trigger] runs@[j] == zero_run(parts@, j),
            forall|j: int| i <= j <= 8 ==> #[trigger] runs@[j] <= 8 - j,
        decreases i,
    {
        i -= 1;
        let run: usize = if parts[i] == 0 {
            1 + runs[i + 1]
        } else {
            0
        };
        runs.set(i, run);
    }
    let mut start: usize = 0;
    let mut j: usize = 1;
    while j < 8
        invariant
            1 <= j <= 8,
            start < j,
            parts.len() == 8,
            runs.len() == 9,
            forall|n: int| 0 <= n <= 8 ==> #[trigger] runs@[n] == zero_run(parts@, n),
            start == longest_run_start(parts@, j as int),
        decreases 8 - j,
    {
        if runs[j] > runs[start] {
            start = j;
        }
        j += 1;
    }
    let len = runs[start];
    assert(len == zero_run(parts@, start as int));
    assert(len <= 8 - start);
    if len > 1 {
        let mut out = join_groups(&parts, 0, start);
        append_str(&mut out, "::");
        let tail = join_groups(&parts, start + len, 8);
        append(&mut out, &tail);
        assert(parts@.subrange(0, start as int) =~= parts@.take(start as int));
        assert(parts@.subrange(start + len, 8) =~= parts@.skip(start + len));
        out
    } else {
        let out = join_groups(&parts, 0, 8);
        assert(parts@.subrange(0, 8) =~= parts@);
        out
    }
}

impl IpAddress {
    /// The address as text.
    pub fn to_text(&self) -> (r: String)
        ensures
            r@ == self.text(),
    {
        match self {
            IpAddress::V4(a) => from_chars(&ipv4_chars(*a)),
            IpAddress::V6(a) => from_chars(&ipv6_chars(*a)),
        }
    }
}

} // verus!
