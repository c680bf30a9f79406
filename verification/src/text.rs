//! Character-sequence utilities shared by the parsers and the banner logic.
//!
//! Every function is specified over `Seq<char>`, the view of `str` and `String`.

use vstd::prelude::*;

verus! {

/// `String::push` appends the character to the end of the string.
pub assume_specification[ String::push ](s: &mut String, c: char)
    ensures
        final(s)@ == old(s)@.push(c),
;

/// What `str::to_lowercase` returns for a string with these characters.
pub uninterp spec fn lowercase(s: Seq<char>) -> Seq<char>;

/// What `String::from_utf8_lossy` returns for these bytes.
pub uninterp spec fn utf8_lossy(bytes: Seq<u8>) -> Seq<char>;

/// `str::to_lowercase`: the lowercase equivalent of the string, by Unicode's
/// rules. The contract only names the result.
#[verifier::external_body]
pub(crate) fn to_lowercase(s: &str) -> (r: String)
    ensures
        r@ == lowercase(s@),
{
    s.to_lowercase()
}

/// `String::from_utf8_lossy`: the bytes decoded as UTF-8, with every invalid
/// sequence replaced by U+FFFD. The contract only names the result.
#[verifier::external_body]
pub(crate) fn decode_lossy(bytes: &Vec<u8>) -> (r: String)
    ensures
        r@ == utf8_lossy(bytes@),
{
    String::from_utf8_lossy(bytes).into_owned()
}

/// The views of a sequence of character vectors.
pub open spec fn views(v: Seq<Vec<char>>) -> Seq<Seq<char>> {
    v.map_values(|x: Vec<char>| x@)
}

/// The characters of `s`, in order.
pub fn to_chars(s: &str) -> (r: Vec<char>)
    ensures
        r@ == s@,
{
    let mut v: Vec<char> = Vec::new();
    for c in it: s.chars()
        invariant
            v@ == it.seq().take(it.index() as int),
            it.seq() == s@,
    {
        v.push(c);
    }
    v
}

/// A string made of the characters of `v`, in order.
pub fn from_chars(v: &Vec<char>) -> (r: String)
    ensures
        r@ == v@,
{
    let mut s = String::new();
    let mut i: usize = 0;
    while i < v.len()
        invariant
            i <= v.len(),
            s@ == v@.take(i as int),
        decreases v.len() - i,
    {
        s.push(v[i]);
        assert(v@.take(i as int).push(v@[i as int]) =~= v@.take(i + 1));
        i += 1;
    }
    assert(v@.take(v.len() as int) =~= v@);
    s
}

/// A copy of `v[from..to]`.
pub(crate) fn subrange(v: &Vec<char>, from: usize, to: usize) -> (r: Vec<char>)
    requires
        from <= to <= v.len(),
    ensures
        r@ == v@.subrange(from as int, to as int),
{
    let mut out: Vec<char> = Vec::new();
    let mut i: usize = from;
    while i < to
        invariant
            from <= i <= to <= v.len(),
            out@ == v@.subrange(from as int, i as int),
        decreases to - i,
    {
        out.push(v[i]);
        assert(v@.subrange(from as int, i as int).push(v@[i as int]) =~= v@.subrange(
            from as int,
            i + 1,
        ));
        i += 1;
    }
    out
}

/// Appends the characters of `tail` to `v`.
pub fn append(v: &mut Vec<char>, tail: &Vec<char>)
    ensures
        final(v)@ == old(v)@ + tail@,
{
    let mut i: usize = 0;
    while i < tail.len()
        invariant
            i <= tail.len(),
            v@ == old(v)@ + tail@.take(i as int),
        decreases tail.len() - i,
    {
        v.push(tail[i]);
        assert((old(v)@ + tail@.take(i as int)).push(tail@[i as int]) =~= old(v)@ + tail@.take(
            i + 1,
        ));
        i += 1;
    }
    assert(tail@.take(tail.len() as int) =~= tail@);
}

/// Appends the characters of the string `tail` to `v`.
pub fn append_str(v: &mut Vec<char>, tail: &str)
    ensures
        final(v)@ == old(v)@ + tail@,
{
    let t = to_chars(tail);
    append(v, &t);
}

/// Whether `c` has Unicode's `White_Space` property.
pub open spec fn is_whitespace(c: char) -> bool {
    let n = c as u32;
    ||| 0x09 <= n <= 0x0D
    ||| n == 0x20
    ||| n == 0x85
    ||| n == 0xA0
    ||| n == 0x1680
    ||| 0x2000 <= n <= 0x200A
    ||| n == 0x2028
    ||| n == 0x2029
    ||| n == 0x202F
    ||| n == 0x205F
    ||| n == 0x3000
}

/// Tests `c` for Unicode's `White_Space` property.
pub fn is_whitespace_char(c: char) -> (b: bool)
    ensures
        b == is_whitespace(c),
{
    let n: u32 = c as u32;
    (0x09 <= n && n <= 0x0D) || n == 0x20 || n == 0x85 || n == 0xA0 || n == 0x1680 || (0x2000 <= n
        && n <= 0x200A) || n == 0x2028 || n == 0x2029 || n == 0x202F || n == 0x205F || n == 0x3000
}

/// `s` without its leading whitespace.
pub open spec fn trim_start(s: Seq<char>) -> Seq<char>
    decreases s.len(),
{
    if s.len() > 0 && is_whitespace(s.first()) {
        trim_start(s.drop_first())
    } else {
        s
    }
}

/// `s` without its trailing whitespace.
pub open spec fn trim_end(s: Seq<char>) -> Seq<char>
    decreases s.len(),
{
    if s.len() > 0 && is_whitespace(s.last()) {
        trim_end(s.drop_last())
    } else {
        s
    }
}

/// `s` without leading and trailing whitespace.
pub open spec fn trim(s: Seq<char>) -> Seq<char> {
    trim_end(trim_start(s))
}

/// A trimmed sequence neither starts nor ends with whitespace, and is what
/// remains of `s` between two cut points.
pub proof fn lemma_trim_shape(s: Seq<char>)
    ensures
        trim(s).len() > 0 ==> !is_whitespace(trim(s).first()) && !is_whitespace(trim(s).last()),
        exists|a: int, b: int| 0 <= a <= b <= s.len() && trim(s) == #[trigger] s.subrange(a, b),
{
    lemma_trim_start_is_suffix(s);
    let a = choose|a: int| 0 <= a <= s.len() && trim_start(s) == s.skip(a);
    let t = s.skip(a);
    lemma_trim_end_is_prefix(t);
    let n = choose|n: int| 0 <= n <= t.len() && trim_end(t) == t.take(n);
    assert(t.take(n) =~= s.subrange(a, a + n));
    if trim(s).len() > 0 {
        assert(trim(s).first() == t.first());
    }
}

/// `trim_start(s)` is a suffix of `s` that does not start with whitespace.
pub proof fn lemma_trim_start_is_suffix(s: Seq<char>)
    ensures
        exists|a: int| 0 <= a <= s.len() && trim_start(s) == #[trigger] s.skip(a),
        trim_start(s).len() > 0 ==> !is_whitespace(trim_start(s).first()),
    decreases s.len(),
{
    if s.len() > 0 && is_whitespace(s.first()) {
        lemma_trim_start_is_suffix(s.drop_first());
        let a = choose|a: int|
            0 <= a <= s.drop_first().len() && trim_start(s.drop_first()) == s.drop_first().skip(a);
        assert(s.drop_first().skip(a) =~= s.skip(a + 1));
    } else {
        assert(s =~= s.skip(0));
    }
}

/// `trim_end(s)` is a prefix of `s` that does not end with whitespace.
pub proof fn lemma_trim_end_is_prefix(s: Seq<char>)
    ensures
        exists|n: int| 0 <= n <= s.len() && trim_end(s) == #[trigger] s.take(n),
        trim_end(s).len() > 0 ==> !is_whitespace(trim_end(s).last()),
        trim_end(s).len() > 0 ==> trim_end(s).first() == s.first(),
    decreases s.len(),
{
    if s.len() > 0 && is_whitespace(s.last()) {
        lemma_trim_end_is_prefix(s.drop_last());
        let n = choose|n: int|
            0 <= n <= s.drop_last().len() && trim_end(s.drop_last()) == s.drop_last().take(n);
        assert(s.drop_last().take(n) =~= s.take(n));
    } else {
        assert(s =~= s.take(s.len() as int));
    }
}

/// The characters of `v` without leading and trailing whitespace.
pub fn trim_chars(v: &Vec<char>) -> (r: Vec<char>)
    ensures
        r@ == trim(v@),
{
    let mut a: usize = 0;
    assert(v@.skip(0) =~= v@);
    while a < v.len() && is_whitespace_char(v[a])
        invariant
            a <= v.len(),
            trim_start(v@) == trim_start(v@.skip(a as int)),
        decreases v.len() - a,
    {
        assert(v@.skip(a as int).drop_first() =~= v@.skip(a + 1));
        a += 1;
    }
    let mut b: usize = v.len();
    while b > a && is_whitespace_char(v[b - 1])
        invariant
            a <= b <= v.len(),
            trim_end(v@.skip(a as int)) == trim_end(v@.subrange(a as int, b as int)),
        decreases b - a,
    {
        assert(v@.subrange(a as int, b as int).drop_last() =~= v@.subrange(a as int, b - 1));
        b -= 1;
    }
    assert(v@.skip(a as int) =~= v@.subrange(a as int, v.len() as int));
    subrange(v, a, b)
}

/// Whether `s` begins with `prefix`.
pub open spec fn starts_with(s: Seq<char>, prefix: Seq<char>) -> bool {
    prefix.len() <= s.len() && s.take(prefix.len() as int) == prefix
}

/// Tests whether `v` begins with `prefix`.
pub fn has_prefix(v: &Vec<char>, prefix: &Vec<char>) -> (b: bool)
    ensures
        b == starts_with(v@, prefix@),
{
    if prefix.len() > v.len() {
        return false;
    }
    let mut i: usize = 0;
    while i < prefix.len()
        invariant
            i <= prefix.len() <= v.len(),
            v@.take(i as int) == prefix@.take(i as int),
        decreases prefix.len() - i,
    {
        if v[i] != prefix[i] {
            assert(v@.take(prefix.len() as int)[i as int] != prefix@[i as int]);
            return false;
        }
        assert(v@.take(i + 1) =~= v@.take(i as int).push(v@[i as int]));
        assert(prefix@.take(i + 1) =~= prefix@.take(i as int).push(prefix@[i as int]));
        i += 1;
    }
    assert(prefix@.take(prefix.len() as int) =~= prefix@);
    true
}

/// Whether `needle` occurs in `hay` at offset `at`.
pub open spec fn occurs_at(hay: Seq<char>, needle: Seq<char>, at: int) -> bool {
    0 <= at && at + needle.len() <= hay.len() && hay.subrange(at, at + needle.len()) == needle
}

/// Whether `needle` occurs somewhere in `hay` as a contiguous run.
pub open spec fn contains(hay: Seq<char>, needle: Seq<char>) -> bool {
    exists|at: int| occurs_at(hay, needle, at)
}

/// Tests whether `needle` occurs in `hay` at offset `at`.
pub(crate) fn matches_at(hay: &Vec<char>, needle: &Vec<char>, at: usize) -> (b: bool)
    requires
        at + needle.len() <= hay.len(),
    ensures
        b == occurs_at(hay@, needle@, at as int),
{
    let mut i: usize = 0;
    while i < needle.len()
        invariant
            i <= needle.len(),
            at + needle.len() <= hay.len(),
            hay@.subrange(at as int, at + i) == needle@.take(i as int),
        decreases needle.len() - i,
    {
        if hay[at + i] != needle[i] {
            assert(hay@.subrange(at as int, at + needle.len())[i as int] != needle@[i as int]);
            return false;
        }
        assert(hay@.subrange(at as int, at + i + 1) =~= hay@.subrange(at as int, at + i).push(
            hay@[at + i],
        ));
        assert(needle@.take(i + 1) =~= needle@.take(i as int).push(needle@[i as int]));
        i += 1;
    }
    assert(needle@.take(needle.len() as int) =~= needle@);
    true
}

/// Tests whether `needle` occurs somewhere in `hay`.
pub fn contains_chars(hay: &Vec<char>, needle: &Vec<char>) -> (b: bool)
    ensures
        b == contains(hay@, needle@),
{
    if needle.len() > hay.len() {
        return false;
    }
    let last: usize = hay.len() - needle.len();
    let mut at: usize = 0;
    loop
        invariant
            at <= last,
            last == hay.len() - needle.len(),
            forall|k: int| 0 <= k < at ==> !occurs_at(hay@, needle@, k),
        decreases last - at,
    {
        if matches_at(hay, needle, at) {
            return true;
        }
        if at == last {
            return false;
        }
        at += 1;
    }
}

/// Whether the character `c` occurs in `s`.
pub fn contains_char(v: &Vec<char>, c: char) -> (b: bool)
    ensures
        b == v@.contains(c),
{
    let mut i: usize = 0;
    while i < v.len()
        invariant
            i <= v.len(),
            forall|k: int| 0 <= k < i ==> v@[k] != c,
        decreases v.len() - i,
    {
        if v[i] == c {
            return true;
        }
        i += 1;
    }
    false
}

/// The pieces of `s` between occurrences of `sep`; never empty.
pub open spec fn split(s: Seq<char>, sep: char) -> Seq<Seq<char>>
    decreases s.len(),
{
    if s.len() == 0 {
        seq![Seq::<char>::empty()]
    } else {
        let before = split(s.drop_last(), sep);
        if s.last() == sep {
            before.push(Seq::<char>::empty())
        } else {
            before.drop_last().push(before.last().push(s.last()))
        }
    }
}

/// The pieces written one after another with `sep` between them.
pub open spec fn joined(pieces: Seq<Seq<char>>, sep: char) -> Seq<char>
    decreases pieces.len(),
{
    if pieces.len() == 0 {
        Seq::empty()
    } else if pieces.len() == 1 {
        pieces[0]
    } else {
        joined(pieces.drop_last(), sep).push(sep) + pieces.last()
    }
}

/// A split has at least one piece, no piece holds the separator, and the
/// pieces joined by the separator give back the sequence.
#[verifier::rlimit(50)]
pub proof fn lemma_split(s: Seq<char>, sep: char)
    ensures
        split(s, sep).len() >= 1,
        forall|i: int| 0 <= i < split(s, sep).len() ==> !(#[trigger] split(s, sep)[i]).contains(sep),
        joined(split(s, sep), sep) == s,
    decreases s.len(),
{
    let pieces = split(s, sep);
    if s.len() == 0 {
        assert(!Seq::<char>::empty().contains(sep));
        assert(joined(pieces, sep) =~= s);
    } else {
        let rest = s.drop_last();
        let before = split(rest, sep);
        lemma_split(rest, sep);
        if s.last() == sep {
            assert forall|i: int| 0 <= i < pieces.len() implies !(#[trigger] pieces[i]).contains(
                sep,
            ) by {
                if i < before.len() {
                    assert(pieces[i] == before[i]);
                }
            }
            assert(pieces.drop_last() =~= before);
            assert(joined(pieces, sep) =~= joined(before, sep).push(sep) + Seq::<char>::empty());
            assert(joined(pieces, sep) =~= s);
        } else {
            let last = before.last().push(s.last());
            assert forall|i: int| 0 <= i < pieces.len() implies !(#[trigger] pieces[i]).contains(
                sep,
            ) by {
                if i < before.len() - 1 {
                    assert(pieces[i] == before[i]);
                } else {
                    if last.contains(sep) {
                        let k = choose|k: int| 0 <= k < last.len() && last[k] == sep;
                        assert(before.last()[k] == sep);
                        assert(before.last().contains(sep));
                    }
                }
            }
            assert(pieces.drop_last() =~= before.drop_last());
            assert(pieces.last() == last);
            assert(rest.push(s.last()) =~= s);
            if before.len() == 1 {
                assert(joined(before, sep) == before[0]);
                assert(pieces.len() == 1);
                assert(joined(pieces, sep) == pieces[0]);
                assert(joined(pieces, sep) =~= s);
            } else {
                assert(joined(before, sep) == joined(before.drop_last(), sep).push(sep)
                    + before.last());
                assert(joined(pieces, sep) =~= joined(before.drop_last(), sep).push(sep) + last);
                assert(joined(pieces, sep) =~= s);
            }
        }
    }
}

/// Splits `v` at every `sep`.
pub fn split_chars(v: &Vec<char>, sep: char) -> (r: Vec<Vec<char>>)
    ensures
        views(r@) == split(v@, sep),
        r@.len() >= 1,
{
    let mut pieces: Vec<Vec<char>> = Vec::new();
    let mut current: Vec<char> = Vec::new();
    let mut i: usize = 0;
    assert(views(pieces@).push(current@) =~= split(v@.take(0), sep));
    while i < v.len()
        invariant
            i <= v.len(),
            views(pieces@).push(current@) == split(v@.take(i as int), sep),
        decreases v.len() - i,
    {
        let ghost before = split(v@.take(i as int), sep);
        assert(v@.take(i + 1).drop_last() =~= v@.take(i as int));
        if v[i] == sep {
            pieces.push(current);
            current = Vec::new();
            assert(views(pieces@) =~= before);
        } else {
            current.push(v[i]);
            assert(views(pieces@) =~= before.drop_last());
        }
        i += 1;
    }
    assert(v@.take(v.len() as int) =~= v@);
    let ghost all = views(pieces@).push(current@);
    pieces.push(current);
    assert(views(pieces@) =~= all);
    pieces
}

/// The character that writes the decimal digit `d`.
pub open spec fn digit_char(d: int) -> char {
    if d == 0 {
        '0'
    } else if d == 1 {
        '1'
    } else if d == 2 {
        '2'
    } else if d == 3 {
        '3'
    } else if d == 4 {
        '4'
    } else if d == 5 {
        '5'
    } else if d == 6 {
        '6'
    } else if d == 7 {
        '7'
    } else if d == 8 {
        '8'
    } else {
        '9'
    }
}

/// Whether `c` is one of the ASCII digits `0` to `9`.
pub open spec fn is_digit(c: char) -> bool {
    '0' <= c <= '9'
}

/// The value of the ASCII digit `c`.
pub open spec fn digit_value(c: char) -> int {
    c as u32 - '0' as u32
}

/// The decimal notation of `n`, without leading zeros.
pub open spec fn decimal(n: nat) -> Seq<char>
    decreases n,
{
    if n < 10 {
        seq![digit_char(n as int)]
    } else {
        decimal(n / 10).push(digit_char((n % 10) as int))
    }
}

/// The number that a run of ASCII digits writes in decimal.
pub open spec fn decimal_value(s: Seq<char>) -> nat
    decreases s.len(),
{
    if s.len() == 0 {
        0
    } else {
        (decimal_value(s.drop_last()) * 10 + digit_value(s.last())) as nat
    }
}

/// Whether every character of `s` is an ASCII digit.
pub open spec fn all_digits(s: Seq<char>) -> bool {
    forall|i: int| 0 <= i < s.len() ==> is_digit(#[trigger] s[i])
}

/// The decimal notation of a number is made of digits and reads back as it.
pub proof fn lemma_decimal_round_trip(n: nat)
    ensures
        decimal(n).len() >= 1,
        all_digits(decimal(n)),
        decimal_value(decimal(n)) == n,
    decreases n,
{
    if n < 10 {
        assert(decimal(n).drop_last() =~= Seq::<char>::empty());
        assert(decimal_value(decimal(n).drop_last()) == 0);
    } else {
        lemma_decimal_round_trip(n / 10);
        assert(decimal(n).drop_last() =~= decimal(n / 10));
    }
}

fn digit_of(d: u64) -> (c: char)
    requires
        d < 10,
    ensures
        c == digit_char(d as int),
{
    if d == 0 {
        '0'
    } else if d == 1 {
        '1'
    } else if d == 2 {
        '2'
    } else if d == 3 {
        '3'
    } else if d == 4 {
        '4'
    } else if d == 5 {
        '5'
    } else if d == 6 {
        '6'
    } else if d == 7 {
        '7'
    } else if d == 8 {
        '8'
    } else {
        '9'
    }
}

/// Writes `n` in decimal.
pub fn decimal_chars(n: u64) -> (r: Vec<char>)
    ensures
        r@ == decimal(n as nat),
    decreases n,
{
    if n < 10 {
        let mut v: Vec<char> = Vec::new();
        v.push(digit_of(n));
        assert(v@ =~= seq![digit_char(n as int)]);
        v
    } else {
        let mut v = decimal_chars(n / 10);
        v.push(digit_of(n % 10));
        v
    }
}

/// `s` with every occurrence of `drop` removed.
pub open spec fn without(s: Seq<char>, drop: char) -> Seq<char>
    decreases s.len(),
{
    if s.len() == 0 {
        s
    } else if s.last() == drop {
        without(s.drop_last(), drop)
    } else {
        without(s.drop_last(), drop).push(s.last())
    }
}

/// `s` with every `from` replaced by `to`.
pub open spec fn replaced(s: Seq<char>, from: char, to: char) -> Seq<char> {
    s.map_values(
        |c: char|
            if c == from {
                to
            } else {
                c
            },
    )
}

/// Removes every occurrence of `drop` from `v`.
pub fn remove_char(v: &Vec<char>, drop: char) -> (r: Vec<char>)
    ensures
        r@ == without(v@, drop),
{
    let mut out: Vec<char> = Vec::new();
    let mut i: usize = 0;
    assert(v@.take(0) =~= Seq::<char>::empty());
    while i < v.len()
        invariant
            i <= v.len(),
            out@ == without(v@.take(i as int), drop),
        decreases v.len() - i,
    {
        assert(v@.take(i + 1).drop_last() =~= v@.take(i as int));
        assert(v@.take(i + 1).last() == v@[i as int]);
        if v[i] != drop {
            out.push(v[i]);
        }
        i += 1;
    }
    assert(v@.take(v.len() as int) =~= v@);
    out
}

/// Replaces every occurrence of `from` in `v` by `to`.
pub fn replace_char(v: &Vec<char>, from: char, to: char) -> (r: Vec<char>)
    ensures
        r@ == replaced(v@, from, to),
{
    let mut out: Vec<char> = Vec::new();
    let mut i: usize = 0;
    while i < v.len()
        invariant
            i <= v.len(),
            out@ == replaced(v@, from, to).take(i as int),
        decreases v.len() - i,
    {
        let c = v[i];
        out.push(if c == from { to } else { c });
        assert(replaced(v@, from, to).take(i as int).push(replaced(v@, from, to)[i as int])
            =~= replaced(v@, from, to).take(i + 1));
        i += 1;
    }
    assert(replaced(v@, from, to).take(v.len() as int) =~= replaced(v@, from, to));
    out
}

/// Tests whether `a` and `b` hold the same characters.
pub fn same_chars(a: &Vec<char>, b: &Vec<char>) -> (r: bool)
    ensures
        r == (a@ == b@),
{
    if a.len() != b.len() {
        return false;
    }
    let same = has_prefix(a, b);
    assert(a@.take(b.len() as int) =~= a@);
    same
}

/// What is left of `s` behind `prefix`, if `s` begins with it.
pub open spec fn strip_prefix(s: Seq<char>, prefix: Seq<char>) -> Option<Seq<char>> {
    if starts_with(s, prefix) {
        Some(s.skip(prefix.len() as int))
    } else {
        None
    }
}

/// What is left of `v` behind `prefix`, if `v` begins with it.
pub fn strip_prefix_chars(v: &Vec<char>, prefix: &str) -> (r: Option<Vec<char>>)
    ensures
        r.is_some() == strip_prefix(v@, prefix@).is_some(),
        r matches Some(rest) ==> Some(rest@) == strip_prefix(v@, prefix@),
{
    let p = to_chars(prefix);
    if has_prefix(v, &p) {
        let rest = subrange(v, p.len(), v.len());
        assert(v@.subrange(p.len() as int, v.len() as int) =~= v@.skip(p.len() as int));
        Some(rest)
    } else {
        None
    }
}

/// `s` with every `from` replaced by the characters `to`.
pub open spec fn replace_with(s: Seq<char>, from: char, to: Seq<char>) -> Seq<char>
    decreases s.len(),
{
    if s.len() == 0 {
        s
    } else if s.last() == from {
        replace_with(s.drop_last(), from, to) + to
    } else {
        replace_with(s.drop_last(), from, to).push(s.last())
    }
}

/// Replaces every occurrence of `from` in `v` by the string `to`.
pub fn replace_with_str(v: &Vec<char>, from: char, to: &str) -> (r: Vec<char>)
    ensures
        r@ == replace_with(v@, from, to@),
{
    let with = to_chars(to);
    let mut out: Vec<char> = Vec::new();
    let mut i: usize = 0;
    assert(v@.take(0) =~= Seq::<char>::empty());
    while i < v.len()
        invariant
            i <= v.len(),
            with@ == to@,
            out@ == replace_with(v@.take(i as int), from, to@),
        decreases v.len() - i,
    {
        assert(v@.take(i + 1).drop_last() =~= v@.take(i as int));
        assert(v@.take(i + 1).last() == v@[i as int]);
        if v[i] == from {
            append(&mut out, &with);
        } else {
            out.push(v[i]);
        }
        i += 1;
    }
    assert(v@.take(v.len() as int) =~= v@);
    out
}

/// Whether `a` comes before `b` or is `b`, in the order of a dictionary over
/// the code points.
pub open spec fn lex_le(a: Seq<char>, b: Seq<char>) -> bool
    decreases a.len(),
{
    if a.len() == 0 {
        true
    } else if b.len() == 0 {
        false
    } else if a[0] != b[0] {
        a[0] < b[0]
    } else {
        lex_le(a.drop_first(), b.drop_first())
    }
}

/// Tests whether `a` comes before `b` or is `b`.
pub fn lex_le_chars(a: &Vec<char>, b: &Vec<char>) -> (r: bool)
    ensures
        r == lex_le(a@, b@),
{
    let mut i: usize = 0;
    assert(a@.skip(0) =~= a@);
    assert(b@.skip(0) =~= b@);
    while i < a.len() && i < b.len()
        invariant
            i <= a.len(),
            i <= b.len(),
            lex_le(a@, b@) == lex_le(a@.skip(i as int), b@.skip(i as int)),
        decreases a.len() - i,
    {
        assert(a@.skip(i as int)[0] == a@[i as int]);
        assert(b@.skip(i as int)[0] == b@[i as int]);
        if a[i] != b[i] {
            return a[i] < b[i];
        }
        assert(a@.skip(i as int).drop_first() =~= a@.skip(i + 1));
        assert(b@.skip(i as int).drop_first() =~= b@.skip(i + 1));
        i += 1;
    }
    i == a.len()
}

/// In the order of a dictionary, of two sequences one comes first.
pub proof fn lemma_lex_le_total(a: Seq<char>, b: Seq<char>)
    ensures
        lex_le(a, b) || lex_le(b, a),
    decreases a.len(),
{
    if a.len() > 0 && b.len() > 0 {
        if a[0] == b[0] {
            lemma_lex_le_total(a.drop_first(), b.drop_first());
        }
    }
}

/// The order of a dictionary is transitive.
pub proof fn lemma_lex_le_transitive(a: Seq<char>, b: Seq<char>, c: Seq<char>)
    requires
        lex_le(a, b),
        lex_le(b, c),
    ensures
        lex_le(a, c),
    decreases a.len(),
{
    if a.len() > 0 && b.len() > 0 && c.len() > 0 {
        if a[0] == b[0] && b[0] == c[0] {
            lemma_lex_le_transitive(a.drop_first(), b.drop_first(), c.drop_first());
        }
    }
}

} // verus!
