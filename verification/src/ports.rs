//! The port specification parser.
//!
//! A specification is a comma-separated list of items. An item is a port, or
//! two ports joined by a dash, which stand for every port from the first to the
//! second. A port is written in decimal, with an optional `+` before it.

use crate::text::{
    all_digits, contains_char, decimal_value, digit_value, is_digit, split, split_chars, to_chars,
    trim, trim_chars, views,
};
use vstd::prelude::*;

verus! {

/// Why a port specification was rejected.
#[derive(Debug, Clone, Copy, PartialEq, Eq, Structural, Hash)]
pub enum PortSpecError {
    /// A port is not written as decimal digits with an optional `+` before them.
    MalformedNumber,
    /// A port is a number above 65535.
    OutOfRange,
    /// An item has more than one dash.
    TooManyParts,
}

/// The digits of a number: what follows the optional `+`.
pub open spec fn digits_of(token: Seq<char>) -> Seq<char> {
    if token.len() > 0 && token[0] == '+' {
        token.drop_first()
    } else {
        token
    }
}

/// Whether `token` writes a number: an optional `+`, then one or more digits.
pub open spec fn is_number(token: Seq<char>) -> bool {
    digits_of(token).len() > 0 && all_digits(digits_of(token))
}

/// The port that `token` writes.
pub open spec fn port_of(token: Seq<char>) -> Result<u16, PortSpecError> {
    if !is_number(token) {
        Err(PortSpecError::MalformedNumber)
    } else if decimal_value(digits_of(token)) > u16::MAX {
        Err(PortSpecError::OutOfRange)
    } else {
        Ok(decimal_value(digits_of(token)) as u16)
    }
}

/// The ports from `lo` to `hi`, both included, ascending; none if `lo`
/// exceeds `hi`.
pub open spec fn port_range(lo: u16, hi: u16) -> Seq<u16> {
    Seq::new(
        if lo <= hi {
            (hi - lo + 1) as nat
        } else {
            0
        },
        |i: int| (lo + i) as u16,
    )
}

/// The ports that one item stands for. An item with more than one dash is
/// rejected.
pub open spec fn item_ports(item: Seq<char>) -> Result<Seq<u16>, PortSpecError> {
    let text = trim(item);
    if text.contains('-') {
        let bounds = split(text, '-');
        if bounds.len() != 2 {
            Err(PortSpecError::TooManyParts)
        } else {
            match port_of(bounds[0]) {
                Err(e) => Err(e),
                Ok(lo) => match port_of(bounds[1]) {
                    Err(e) => Err(e),
                    Ok(hi) => Ok(port_range(lo, hi)),
                },
            }
        }
    } else {
        match port_of(text) {
            Err(e) => Err(e),
            Ok(port) => Ok(seq![port]),
        }
    }
}

/// The ports that a list of items stands for: those of each item, in the
/// order of the items; or the error of the first item that is rejected.
pub open spec fn items_ports(items: Seq<Seq<char>>) -> Result<
    Seq<u16>,
    PortSpecError,
>
    decreases items.len(),
{
    if items.len() == 0 {
        Ok(Seq::empty())
    } else {
        match items_ports(items.drop_last()) {
            Err(e) => Err(e),
            Ok(before) => match item_ports(items.last()) {
                Err(e) => Err(e),
                Ok(ports) => Ok(before + ports),
            },
        }
    }
}

/// The ports that a specification stands for.
pub open spec fn port_list(spec: Seq<char>) -> Result<Seq<u16>, PortSpecError> {
    items_ports(split(spec, ','))
}

/// A range holds its bounds and every port between them, once, ascending.
pub proof fn lemma_port_range_inclusive(lo: u16, hi: u16)
    requires
        lo <= hi,
    ensures
        port_range(lo, hi).len() == hi - lo + 1,
        port_range(lo, hi).first() == lo,
        port_range(lo, hi).last() == hi,
        forall|i: int|
            0 <= i <= hi - lo ==> #[trigger] port_range(lo, hi)[i] == lo + i,
{
}

/// The ports of a list of items are those of its first items followed by
/// those of its last items: items contribute in the order in which they are
/// written.
pub proof fn lemma_items_in_order(first: Seq<Seq<char>>, last: Seq<Seq<char>>)
    ensures
        items_ports(first + last) == match items_ports(first) {
            Err(e) => Err(e),
            Ok(a) => match items_ports(last) {
                Err(e) => Err(e),
                Ok(b) => Ok(a + b),
            },
        },
    decreases last.len(),
{
    if last.len() == 0 {
        assert(first + last =~= first);
        if let Ok(a) = items_ports(first) {
            assert(a + Seq::<u16>::empty() =~= a);
        }
    } else {
        lemma_items_in_order(first, last.drop_last());
        assert((first + last).drop_last() =~= first + last.drop_last());
        assert((first + last).last() == last.last());
        if let Ok(a) = items_ports(first) {
            if let Ok(b) = items_ports(last.drop_last()) {
                if let Ok(c) = item_ports(last.last()) {
                    assert((a + b) + c =~= a + (b + c));
                }
            }
        }
    }
}

/// Reads the port that `token` writes.
pub fn parse_port(token: &Vec<char>) -> (r: Result<u16, PortSpecError>)
    ensures
        r == port_of(token@),
{
    let start: usize = if token.len() > 0 && token[0] == '+' {
        1
    } else {
        0
    };
    let ghost digits = digits_of(token@);
    assert(digits =~= token@.skip(start as int));
    if start == token.len() {
        return Err(PortSpecError::MalformedNumber);
    }
    let mut value: u32 = 0;
    let mut i: usize = start;
    assert(digits.take(0) =~= Seq::<char>::empty());
    while i < token.len()
        invariant
            start <= i <= token.len(),
            start < token.len(),
            digits == token@.skip(start as int),
            digits == digits_of(token@),
            all_digits(digits.take(i - start)),
            value <= 65536,
            value == if decimal_value(digits.take(i - start)) > u16::MAX {
                65536
            } else {
                decimal_value(digits.take(i - start)) as int
            },
        decreases token.len() - i,
    {
        let c = token[i];
        assert(digits[i - start] == c);
        if !('0' <= c && c <= '9') {
            assert(!is_digit(digits[i - start]));
            return Err(PortSpecError::MalformedNumber);
        }
        let d: u32 = c as u32 - '0' as u32;
        let ghost next = digits.take(i - start + 1);
        assert(next.drop_last() =~= digits.take(i - start));
        assert(next.last() == c);
        assert(d == digit_value(c));
        let raised: u32 = value * 10 + d;
        value = if raised > 65535 {
            65536
        } else {
            raised
        };
        assert(all_digits(next)) by {
            assert forall|k: int| 0 <= k < next.len() implies is_digit(#[trigger] next[k]) by {
                if k < next.len() - 1 {
                    assert(next[k] == digits.take(i - start)[k]);
                }
            }
        }
        i += 1;
    }
    assert(digits.take(token.len() - start) =~= digits);
    if value > 65535 {
        Err(PortSpecError::OutOfRange)
    } else {
        Ok(value as u16)
    }
}

/// Appends the ports from `lo` to `hi` to `ports`.
fn push_ports(ports: &mut Vec<u16>, lo: u16, hi: u16)
    ensures
        final(ports)@ == old(ports)@ + port_range(lo, hi),
{
    if lo > hi {
        assert(old(ports)@ + port_range(lo, hi) =~= old(ports)@);
        return ;
    }
    let mut p: u16 = lo;
    assert(ports@ =~= old(ports)@ + port_range(lo, hi).take(0));
    loop
        invariant
            lo <= p <= hi,
            ports@ == old(ports)@ + port_range(lo, hi).take(p - lo),
        decreases hi - p,
    {
        ports.push(p);
        assert(ports@ =~= old(ports)@ + port_range(lo, hi).take(p - lo + 1));
        if p == hi {
            assert(port_range(lo, hi).take(hi - lo + 1) =~= port_range(lo, hi));
            return ;
        }
        p += 1;
    }
}

/// Appends the ports of one item to `ports`, or rejects the item and leaves
/// `ports` as it is.
fn push_item(ports: &mut Vec<u16>, item: &Vec<char>) -> (r: Result<
    (),
    PortSpecError,
>)
    ensures
        match item_ports(item@) {
            Ok(added) => r.is_ok() && final(ports)@ == old(ports)@ + added,
            Err(e) => r == Err::<(), PortSpecError>(e) && final(ports)@ == old(ports)@,
        },
{
    let text = trim_chars(item);
    if contains_char(&text, '-') {
        let bounds = split_chars(&text, '-');
        assert(views(bounds@).len() == bounds.len());
        if bounds.len() != 2 {
            return Err(PortSpecError::TooManyParts);
        }
        assert(views(bounds@)[0] == bounds@[0]@);
        assert(views(bounds@)[1] == bounds@[1]@);
        let lo = match parse_port(&bounds[0]) {
            Ok(lo) => lo,
            Err(e) => {
                return Err(e);
            },
        };
        let hi = match parse_port(&bounds[1]) {
            Ok(hi) => hi,
            Err(e) => {
                return Err(e);
            },
        };
        push_ports(ports, lo, hi);
        Ok(())
    } else {
        match parse_port(&text) {
            Ok(port) => {
                ports.push(port);
                assert(ports@ =~= old(ports)@ + seq![port]);
                Ok(())
            },
            Err(e) => Err(e),
        }
    }
}

/// The ports that a specification such as `80,443,1000-1024` stands for: the
/// ports of its items in the order in which they are written, a range with
/// both bounds. An item with more than one dash is rejected.
pub fn parse_port_specification(spec: &str) -> (r: Result<Vec<u16>, PortSpecError>)
    ensures
        match r {
            Ok(ports) => port_list(spec@) == Ok::<Seq<u16>, PortSpecError>(ports@),
            Err(e) => port_list(spec@) == Err::<Seq<u16>, PortSpecError>(e),
        },
{
    let chars = to_chars(spec);
    let items = split_chars(&chars, ',');
    let ghost all = views(items@);
    let mut ports: Vec<u16> = Vec::new();
    let mut i: usize = 0;
    assert(all.take(0) =~= Seq::<Seq<char>>::empty());
    while i < items.len()
        invariant
            i <= items.len(),
            all == views(items@),
            all == split(spec@, ','),
            items_ports(all.take(i as int)) == Ok::<Seq<u16>, PortSpecError>(ports@),
        decreases items.len() - i,
    {
        assert(all.take(i + 1).drop_last() =~= all.take(i as int));
        assert(all.take(i + 1).last() == items@[i as int]@);
        match push_item(&mut ports, &items[i]) {
            Ok(()) => {},
            Err(e) => {
                proof {
                    lemma_items_in_order(all.take(i + 1), all.skip(i + 1));
                    assert(all.take(i + 1) + all.skip(i + 1) =~= all);
                }
                return Err(e);
            },
        }
        i += 1;
    }
    assert(all.take(items.len() as int) =~= all);
    Ok(ports)
}

/// The ports that a dashboard request's specification stands for: those that
/// `parse_port_specification` reads, with the same rejections.
pub fn parse_port_spec(port_spec: &str) -> (r: Result<Vec<u16>, PortSpecError>)
    ensures
        match r {
            Ok(ports) => port_list(port_spec@) == Ok::<Seq<u16>, PortSpecError>(ports@),
            Err(e) => port_list(port_spec@) == Err::<Seq<u16>, PortSpecError>(e),
        },
{
    parse_port_specification(port_spec)
}

} // verus!
