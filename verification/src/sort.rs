//! A stable merge sort by an integer key.
//!
//! The result is stated without reference to the algorithm: it is ordered by
//! key, and for every key it holds the same items, in the same order, as the
//! input. There is exactly one such sequence.

use vstd::prelude::*;

verus! {

/// A value that is ordered by an integer key.
pub trait SortKey: Sized {
    /// The key by which the value is ordered.
    spec fn key(&self) -> int;
}

/// An item whose key can be computed.
pub trait Keyed: SortKey {
    /// Computes the key.
    fn key_value(&self) -> (k: u64)
        ensures
            k as int == self.key(),
    ;
}

/// A pair is ordered by its first number; the second rides along.
impl SortKey for (u64, u64) {
    open spec fn key(&self) -> int {
        self.0 as int
    }
}

impl Keyed for (u64, u64) {
    fn key_value(&self) -> (k: u64) {
        self.0
    }
}

/// The items of `s` whose key is `k`, in their order in `s`.
pub open spec fn select<T: SortKey>(s: Seq<T>, k: int) -> Seq<T>
    decreases s.len(),
{
    if s.len() == 0 {
        s
    } else if s.last().key() == k {
        select(s.drop_last(), k).push(s.last())
    } else {
        select(s.drop_last(), k)
    }
}

/// Whether the keys of `s` never decrease.
pub open spec fn sorted<T: SortKey>(s: Seq<T>) -> bool {
    forall|i: int, j: int| 0 <= i <= j < s.len() ==> s[i].key() <= s[j].key()
}

/// Whether `out` is `input` sorted by key, items of equal key in the order
/// they have in `input`.
pub open spec fn is_stable_sort_of<T: SortKey>(out: Seq<T>, input: Seq<T>) -> bool {
    &&& sorted(out)
    &&& out.len() == input.len()
    &&& forall|k: int| #[trigger] select(out, k) == select(input, k)
}

/// Selection distributes over concatenation.
pub proof fn lemma_select_concat<T: SortKey>(a: Seq<T>, b: Seq<T>, k: int)
    ensures
        select(a + b, k) == select(a, k) + select(b, k),
    decreases b.len(),
{
    if b.len() == 0 {
        assert(a + b =~= a);
        assert(select(a, k) + select(b, k) =~= select(a, k));
    } else {
        lemma_select_concat(a, b.drop_last(), k);
        assert((a + b).drop_last() =~= a + b.drop_last());
        assert((a + b).last() == b.last());
        if b.last().key() == k {
            assert((select(a, k) + select(b.drop_last(), k)).push(b.last()) =~= select(a, k)
                + select(b.drop_last(), k).push(b.last()));
        }
    }
}

/// The selection of one item is that item, if it has the key.
pub proof fn lemma_select_one<T: SortKey>(x: T, k: int)
    ensures
        select(seq![x], k) == if x.key() == k {
            seq![x]
        } else {
            Seq::<T>::empty()
        },
{
    assert(seq![x].drop_last() =~= Seq::<T>::empty());
    assert(select(Seq::<T>::empty(), k) =~= Seq::<T>::empty());
    assert(Seq::<T>::empty().push(x) =~= seq![x]);
}

/// Every selected item has the key and occurs in the sequence, so a sequence
/// without the key has an empty selection.
pub proof fn lemma_select_members<T: SortKey>(s: Seq<T>, k: int)
    ensures
        forall|i: int| 0 <= i < select(s, k).len() ==> (#[trigger] select(s, k)[i]).key() == k,
        select(s, k).len() <= s.len(),
        (forall|i: int| 0 <= i < s.len() ==> (#[trigger] s[i]).key() != k) ==> select(s, k).len()
            == 0,
    decreases s.len(),
{
    if s.len() > 0 {
        lemma_select_members(s.drop_last(), k);
        if (forall|i: int| 0 <= i < s.len() ==> (#[trigger] s[i]).key() != k) {
            assert(s.last().key() != k);
            assert forall|i: int| 0 <= i < s.drop_last().len() implies (#[trigger] s.drop_last()[i]).key()
                != k by {
                assert(s.drop_last()[i] == s[i]);
            }
        }
    }
}

/// The selected items are items of the sequence, and every item of the
/// sequence is among those selected by its key.
pub proof fn lemma_select_contains<T: SortKey>(s: Seq<T>, k: int)
    ensures
        forall|i: int| 0 <= i < select(s, k).len() ==> s.contains(#[trigger] select(s, k)[i]),
        forall|i: int| 0 <= i < s.len() && s[i].key() == k ==> select(s, k).contains(#[trigger] s[i]),
    decreases s.len(),
{
    if s.len() > 0 {
        let rest = s.drop_last();
        lemma_select_contains(rest, k);
        let w = select(s, k);
        let inner = select(rest, k);
        assert forall|i: int| 0 <= i < w.len() implies s.contains(#[trigger] w[i]) by {
            if i < inner.len() {
                assert(w[i] == inner[i]);
                assert(rest.contains(inner[i]));
                let n = choose|n: int| 0 <= n < rest.len() && rest[n] == inner[i];
                assert(s[n] == w[i]);
            } else {
                assert(s[s.len() - 1] == w[i]);
            }
        }
        assert forall|i: int| 0 <= i < s.len() && s[i].key() == k implies w.contains(
            #[trigger] s[i],
        ) by {
            if i < rest.len() {
                assert(rest[i] == s[i]);
                assert(inner.contains(rest[i]));
                let n = choose|n: int| 0 <= n < inner.len() && inner[n] == rest[i];
                assert(w[n] == s[i]);
            } else {
                assert(w[w.len() - 1] == s[i]);
            }
        }
    }
}

/// Two items of one key make the selection by that key hold two items.
pub proof fn lemma_select_two<T: SortKey>(s: Seq<T>, i: int, j: int)
    requires
        0 <= i < j < s.len(),
        s[i].key() == s[j].key(),
    ensures
        select(s, s[i].key()).len() >= 2,
    decreases s.len(),
{
    let k = s[i].key();
    let rest = s.drop_last();
    assert(rest[i] == s[i]);
    if j == s.len() - 1 {
        lemma_select_contains(rest, k);
        assert(select(rest, k).contains(rest[i]));
    } else {
        assert(rest[j] == s[j]);
        lemma_select_two(rest, i, j);
    }
}

/// Sorting neither adds nor loses an item.
pub proof fn lemma_sort_keeps_items<T: SortKey>(out: Seq<T>, input: Seq<T>)
    requires
        is_stable_sort_of(out, input),
    ensures
        forall|x: T| out.contains(x) <==> input.contains(x),
{
    assert forall|x: T| out.contains(x) <==> input.contains(x) by {
        let k = x.key();
        lemma_select_contains(out, k);
        lemma_select_contains(input, k);
        assert(select(out, k) == select(input, k));
        if out.contains(x) {
            let i = choose|i: int| 0 <= i < out.len() && out[i] == x;
            assert(select(out, k).contains(out[i]));
            let n = choose|n: int| 0 <= n < select(out, k).len() && select(out, k)[n] == x;
            assert(input.contains(select(input, k)[n]));
        }
        if input.contains(x) {
            let i = choose|i: int| 0 <= i < input.len() && input[i] == x;
            assert(select(input, k).contains(input[i]));
            let n = choose|n: int| 0 <= n < select(input, k).len() && select(input, k)[n] == x;
            assert(out.contains(select(out, k)[n]));
        }
    }
}

/// Two sorted sequences of one length that agree on the items of every key
/// are the same sequence.
#[verifier::rlimit(50)]
pub proof fn lemma_sorted_by_selection<T: SortKey>(a: Seq<T>, b: Seq<T>)
    requires
        sorted(a),
        sorted(b),
        a.len() == b.len(),
        forall|k: int| #[trigger] select(a, k) == select(b, k),
    ensures
        a == b,
    decreases a.len(),
{
    if a.len() == 0 {
        assert(a =~= b);
    } else {
        let x = a.last();
        let y = b.last();
        let m = x.key();
        let n = y.key();
        // The last item of each has its greatest key, and the keys are the same.
        assert(n <= m) by {
            lemma_select_members(a, n);
            assert(select(a, n) == select(b, n));
            if (forall|i: int| 0 <= i < a.len() ==> (#[trigger] a[i]).key() != n) {
                assert(select(b, n).len() == 0);
                assert(false);
            }
            let i = choose|i: int| 0 <= i < a.len() && (#[trigger] a[i]).key() == n;
            assert(a[i].key() <= a[a.len() - 1].key());
        }
        assert(m <= n) by {
            lemma_select_members(b, m);
            assert(select(a, m) == select(b, m));
            if (forall|i: int| 0 <= i < b.len() ==> (#[trigger] b[i]).key() != m) {
                assert(select(a, m).len() == 0);
                assert(false);
            }
            let i = choose|i: int| 0 <= i < b.len() && (#[trigger] b[i]).key() == m;
            assert(b[i].key() <= b[b.len() - 1].key());
        }
        let ra = a.drop_last();
        let rb = b.drop_last();
        assert(select(a, m) == select(ra, m).push(x));
        assert(select(b, m) == select(rb, m).push(y));
        assert(select(a, m) == select(b, m));
        assert(x == y) by {
            assert(select(ra, m).push(x).last() == x);
            assert(select(rb, m).push(y).last() == y);
        }
        assert forall|k: int| #[trigger] select(ra, k) == select(rb, k) by {
            assert(select(a, k) == select(b, k));
            if k == m {
                assert(select(ra, m).push(x).drop_last() =~= select(ra, m));
                assert(select(rb, m).push(y).drop_last() =~= select(rb, m));
            }
        }
        assert(sorted(ra)) by {
            assert forall|i: int, j: int| 0 <= i <= j < ra.len() implies ra[i].key()
                <= ra[j].key() by {
                assert(ra[i] == a[i] && ra[j] == a[j]);
            }
        }
        assert(sorted(rb)) by {
            assert forall|i: int, j: int| 0 <= i <= j < rb.len() implies rb[i].key()
                <= rb[j].key() by {
                assert(rb[i] == b[i] && rb[j] == b[j]);
            }
        }
        lemma_sorted_by_selection(ra, rb);
        assert(a =~= ra.push(x));
        assert(b =~= rb.push(y));
    }
}

/// A sequence has one stable sort only.
pub proof fn lemma_stable_sort_is_unique<T: SortKey>(a: Seq<T>, b: Seq<T>, input: Seq<T>)
    requires
        is_stable_sort_of(a, input),
        is_stable_sort_of(b, input),
    ensures
        a == b,
{
    assert forall|k: int| #[trigger] select(a, k) == select(b, k) by {
        assert(select(a, k) == select(input, k));
        assert(select(b, k) == select(input, k));
    }
    lemma_sorted_by_selection(a, b);
}

/// The items of `a` and `b`, both sorted, merged into one sorted vector; of
/// two items with the same key, one of `a` comes before one of `b`.
#[verifier::rlimit(50)]
fn merge<T: Keyed>(a: Vec<T>, b: Vec<T>) -> (r: Vec<T>)
    requires
        sorted(a@),
        sorted(b@),
        a.len() + b.len() <= usize::MAX,
    ensures
        sorted(r@),
        r.len() == a.len() + b.len(),
        forall|k: int| #[trigger] select(r@, k) == select(a@, k) + select(b@, k),
{
    let ghost a0 = a@;
    let ghost b0 = b@;
    let mut a = a;
    let mut b = b;
    // The merged items from the largest down, and `tail`, the same ascending.
    let mut rev: Vec<T> = Vec::new();
    let ghost mut tail: Seq<T> = Seq::empty();
    proof {
        assert forall|k: int|
            select(a@, k) + select(b@, k) + #[trigger] select(tail, k) == select(a0, k) + select(
                b0,
                k,
            ) by {
            assert(select(tail, k) =~= Seq::<T>::empty());
            assert(select(a@, k) + select(b@, k) + Seq::<T>::empty() =~= select(a@, k) + select(
                b@,
                k,
            ));
        }
    }
    while a.len() > 0 || b.len() > 0
        invariant
            a.len() <= a0.len(),
            b.len() <= b0.len(),
            a@ == a0.take(a.len() as int),
            b@ == b0.take(b.len() as int),
            a.len() + b.len() + rev.len() == a0.len() + b0.len(),
            a0.len() + b0.len() <= usize::MAX,
            rev.len() == tail.len(),
            forall|t: int| 0 <= t < rev.len() ==> rev@[t] == tail[tail.len() - 1 - t],
            sorted(a0),
            sorted(b0),
            sorted(tail),
            forall|x: int, y: int|
                0 <= x < a.len() && 0 <= y < tail.len() ==> (#[trigger] a0[x]).key() <= (
                #[trigger] tail[y]).key(),
            forall|x: int, y: int|
                0 <= x < b.len() && 0 <= y < tail.len() ==> (#[trigger] b0[x]).key() <= (
                #[trigger] tail[y]).key(),
            forall|k: int|
                select(a@, k) + select(b@, k) + #[trigger] select(tail, k) == select(a0, k)
                    + select(b0, k),
        decreases a.len() + b.len(),
    {
        let ghost a1 = a@;
        let ghost b1 = b@;
        let ghost tail1 = tail;
        let take_b = if a.len() == 0 {
            true
        } else if b.len() == 0 {
            false
        } else {
            b[b.len() - 1].key_value() >= a[a.len() - 1].key_value()
        };
        if take_b {
            let x = b.pop().unwrap();
            rev.push(x);
            proof {
                tail = seq![x] + tail1;
                assert(b@ =~= b0.take(b.len() as int));
                assert(b1.drop_last() =~= b@);
                assert forall|k: int|
                    select(a@, k) + select(b@, k) + #[trigger] select(tail, k) == select(a0, k)
                        + select(b0, k) by {
                    lemma_select_concat(seq![x], tail1, k);
                    lemma_select_one(x, k);
                    assert(select(a1, k) + select(b1, k) + select(tail1, k) == select(a0, k)
                        + select(b0, k));
                    if x.key() == k {
                        assert(select(a1, k) + select(b@, k).push(x) + select(tail1, k) =~= select(
                            a1,
                            k,
                        ) + select(b@, k) + (seq![x] + select(tail1, k)));
                    } else {
                        assert(Seq::<T>::empty() + select(tail1, k) =~= select(tail1, k));
                    }
                }
            }
        } else {
            let x = a.pop().unwrap();
            rev.push(x);
            proof {
                tail = seq![x] + tail1;
                assert(a@ =~= a0.take(a.len() as int));
                assert(a1.drop_last() =~= a@);
                assert forall|k: int|
                    select(a@, k) + select(b@, k) + #[trigger] select(tail, k) == select(a0, k)
                        + select(b0, k) by {
                    lemma_select_concat(seq![x], tail1, k);
                    lemma_select_one(x, k);
                    assert(select(a1, k) + select(b1, k) + select(tail1, k) == select(a0, k)
                        + select(b0, k));
                    if x.key() == k {
                        // Every item left in `b` has a smaller key.
                        lemma_select_members(b@, k);
                        assert forall|y: int| 0 <= y < b@.len() implies (#[trigger] b@[y]).key()
                            != k by {
                            assert(b@[y] == b0[y]);
                            assert(b0[y].key() <= b0[b.len() - 1].key());
                        }
                        assert(select(b@, k) =~= Seq::<T>::empty());
                        assert(select(a@, k).push(x) + select(b@, k) + select(tail1, k) =~= select(
                            a@,
                            k,
                        ) + select(b@, k) + (seq![x] + select(tail1, k)));
                    } else {
                        assert(Seq::<T>::empty() + select(tail1, k) =~= select(tail1, k));
                    }
                }
            }
        }
        proof {
            assert(sorted(tail)) by {
                assert forall|p: int, q: int| 0 <= p <= q < tail.len() implies tail[p].key()
                    <= tail[q].key() by {
                    if p > 0 {
                        assert(tail[p] == tail1[p - 1] && tail[q] == tail1[q - 1]);
                    } else if q > 0 {
                        assert(tail[q] == tail1[q - 1]);
                        if take_b {
                            assert(tail[0] == b0[b1.len() - 1]);
                        } else {
                            assert(tail[0] == a0[a1.len() - 1]);
                        }
                    }
                }
            }
            assert forall|x: int, y: int| 0 <= x < a.len() && 0 <= y < tail.len() implies (
            #[trigger] a0[x]).key() <= (#[trigger] tail[y]).key() by {
                if y > 0 {
                    assert(tail[y] == tail1[y - 1]);
                } else if take_b {
                    assert(tail[0] == b0[b1.len() - 1]);
                    assert(a0[x].key() <= a0[a1.len() - 1].key());
                } else {
                    assert(tail[0] == a0[a1.len() - 1]);
                }
            }
            assert forall|x: int, y: int| 0 <= x < b.len() && 0 <= y < tail.len() implies (
            #[trigger] b0[x]).key() <= (#[trigger] tail[y]).key() by {
                if y > 0 {
                    assert(tail[y] == tail1[y - 1]);
                } else if take_b {
                    assert(tail[0] == b0[b1.len() - 1]);
                } else {
                    assert(tail[0] == a0[a1.len() - 1]);
                    assert(b0[x].key() <= b0[b1.len() - 1].key());
                }
            }
            assert forall|t: int| 0 <= t < rev.len() implies rev@[t] == tail[tail.len() - 1
                - t] by {
                if t < rev.len() - 1 {
                    assert(tail[tail.len() - 1 - t] == tail1[tail1.len() - 1 - t]);
                }
            }
        }
    }
    proof {
        assert forall|k: int| #[trigger] select(tail, k) == select(a0, k) + select(b0, k) by {
            assert(select(a@, k) + select(b@, k) + select(tail, k) == select(a0, k) + select(
                b0,
                k,
            ));
            assert(select(a@, k) =~= Seq::<T>::empty());
            assert(select(b@, k) =~= Seq::<T>::empty());
            assert(Seq::<T>::empty() + Seq::<T>::empty() + select(tail, k) =~= select(tail, k));
        }
    }
    let mut out: Vec<T> = Vec::new();
    while rev.len() > 0
        invariant
            rev.len() + out.len() == tail.len(),
            forall|t: int| 0 <= t < rev.len() ==> rev@[t] == tail[tail.len() - 1 - t],
            out@ == tail.take(out.len() as int),
        decreases rev.len(),
    {
        let x = rev.pop().unwrap();
        out.push(x);
        assert(out@ =~= tail.take(out.len() as int));
    }
    assert(out@ =~= tail);
    out
}

/// The items of `v` sorted by key, items of equal key in the order they have
/// in `v`.
pub fn stable_sort<T: Keyed>(v: Vec<T>) -> (r: Vec<T>)
    ensures
        is_stable_sort_of(r@, v@),
    decreases v.len(),
{
    if v.len() <= 1 {
        return v;
    }
    let ghost input = v@;
    let mut left = v;
    let mid: usize = left.len() / 2;
    let right = left.split_off(mid);
    let ghost l = left@;
    let ghost r = right@;
    let sorted_left = stable_sort(left);
    let sorted_right = stable_sort(right);
    let out = merge(sorted_left, sorted_right);
    proof {
        assert(input =~= l + r);
        assert forall|k: int| #[trigger] select(out@, k) == select(input, k) by {
            lemma_select_concat(l, r, k);
            assert(select(sorted_left@, k) == select(l, k));
            assert(select(sorted_right@, k) == select(r, k));
        }
    }
    out
}

} // verus!
