//! The order in which a record store lists its entries: by up to three texts
//! (typically a timestamp, an id, a path), each compared as `String`'s `Ord`
//! compares texts, earlier keys first.
use crate::text::text_eq;
use crate::text_order::{lemma_text_lt_transitive, lemma_text_lt_irreflexive, text_less, text_lt};
use vstd::multiset::Multiset;
use vstd::prelude::*;

verus! {

/// The sort key of an entry: a number, then up to three texts.
pub type EntryKey = (int, Seq<char>, Seq<char>, Seq<char>);

/// `a < b` on the texts of keys: lexicographically, text by text.
pub open spec fn texts_lt(a: EntryKey, b: EntryKey) -> bool {
    ||| text_lt(a.1, b.1)
    ||| (a.1 == b.1 && text_lt(a.2, b.2))
    ||| (a.1 == b.1 && a.2 == b.2 && text_lt(a.3, b.3))
}

/// `a < b` on keys: by number, then by texts.
pub open spec fn key_lt(a: EntryKey, b: EntryKey) -> bool {
    a.0 < b.0 || (a.0 == b.0 && texts_lt(a, b))
}

/// A store entry with a sort key.
pub trait StoreEntry: Sized {
    spec fn sort_key(&self) -> EntryKey;

    /// Whether the entry's record passed its verification.
    spec fn is_valid(&self) -> bool;

    fn valid(&self) -> (r: bool)
        ensures
            r == self.is_valid(),
    ;

    /// Whether this entry's key is smaller than `other`'s.
    fn sorts_before(&self, other: &Self) -> (r: bool)
        ensures
            r == key_lt(self.sort_key(), other.sort_key()),
    ;
}

/// No later entry has a smaller key than an earlier one.
pub open spec fn sorted_by_key<T: StoreEntry>(s: Seq<T>) -> bool {
    forall|i: int, j: int| 0 <= i < j < s.len() ==> !key_lt(#[trigger] s[j].sort_key(), #[trigger] s[i].sort_key())
}

/// The key order is a strict order: irreflexive and transitive.
pub proof fn lemma_key_lt_strict(a: EntryKey, b: EntryKey, c: EntryKey)
    ensures
        !key_lt(a, a),
        key_lt(a, b) && key_lt(b, c) ==> key_lt(a, c),
{
    lemma_text_lt_irreflexive(a.1);
    lemma_text_lt_irreflexive(a.2);
    lemma_text_lt_irreflexive(a.3);
    lemma_text_lt_irreflexive(b.1);
    lemma_text_lt_irreflexive(b.2);
    if key_lt(a, b) && key_lt(b, c) {
        if text_lt(a.1, b.1) && text_lt(b.1, c.1) {
            lemma_text_lt_transitive(a.1, b.1, c.1);
        }
        if text_lt(a.2, b.2) && text_lt(b.2, c.2) {
            lemma_text_lt_transitive(a.2, b.2, c.2);
        }
        if text_lt(a.3, b.3) && text_lt(b.3, c.3) {
            lemma_text_lt_transitive(a.3, b.3, c.3);
        }
    }
}

/// The first position of `out` whose key is greater than `x`'s: `x` goes
/// there, after every entry with an equal or smaller key.
fn insertion_point<T: StoreEntry>(out: &Vec<T>, x: &T) -> (p: usize)
    ensures
        p <= out.len(),
        forall|k: int| 0 <= k < p ==> !key_lt(x.sort_key(), #[trigger] out@[k].sort_key()),
        p < out.len() ==> key_lt(x.sort_key(), out@[p as int].sort_key()),
{
    let mut p: usize = 0;
    while p < out.len()
        invariant
            p <= out.len(),
            forall|k: int| 0 <= k < p ==> !key_lt(x.sort_key(), #[trigger] out@[k].sort_key()),
        decreases out.len() - p,
    {
        if x.sorts_before(&out[p]) {
            return p;
        }
        p = p + 1;
    }
    p
}

/// The entries in key order, equal keys in the order given.
pub fn sort_entries<T: StoreEntry>(entries: Vec<T>) -> (r: Vec<T>)
    ensures
        r@.to_multiset() == entries@.to_multiset(),
        r.len() == entries.len(),
        sorted_by_key(r@),
{
    broadcast use vstd::seq_lib::group_to_multiset_ensures;
    broadcast use vstd::multiset::group_multiset_properties;

    let ghost original = entries@;
    let mut rest = entries;
    let mut out: Vec<T> = Vec::new();
    proof {
        assert(out@.to_multiset() =~= Multiset::empty());
        assert(out@.to_multiset().add(rest@.to_multiset()) =~= original.to_multiset());
    }
    while rest.len() > 0
        invariant
            out@.to_multiset().add(rest@.to_multiset()) == original.to_multiset(),
            out.len() + rest.len() == original.len(),
            sorted_by_key(out@),
        decreases rest.len(),
    {
        let ghost before_rest = rest@;
        let ghost before_out = out@;
        let x = rest.remove(0);
        let p = insertion_point(&out, &x);
        out.insert(p, x);
        proof {
            let xk = x.sort_key();
            before_rest.to_multiset_ensures();
            out@.to_multiset_ensures();
            assert(rest@ == before_rest.remove(0));
            assert(rest@.to_multiset() =~= before_rest.to_multiset().remove(x));
            assert(out@.remove(p as int) =~= before_out);
            assert(out@[p as int] == x);
            assert(out@.to_multiset().remove(x) =~= before_out.to_multiset());
            assert(out@.to_multiset().contains(x));
            assert(out@.to_multiset() =~= before_out.to_multiset().insert(x));
            assert(before_rest.to_multiset().contains(x)) by {
                assert(before_rest[0] == x);
            }
            assert(out@.to_multiset().add(rest@.to_multiset()) =~= original.to_multiset());
            assert forall|i: int, j: int| 0 <= i < j < out@.len() implies !key_lt(
                #[trigger] out@[j].sort_key(),
                #[trigger] out@[i].sort_key(),
            ) by {
                if j < p {
                    assert(out@[i] == before_out[i] && out@[j] == before_out[j]);
                } else if j == p {
                    assert(out@[i] == before_out[i]);
                } else if i == p {
                    let oj = before_out[j - 1];
                    assert(out@[j] == oj);
                    if p < before_out.len() {
                        let op = before_out[p as int];
                        lemma_key_lt_strict(oj.sort_key(), xk, op.sort_key());
                        lemma_key_lt_strict(oj.sort_key(), oj.sort_key(), op.sort_key());
                        if j - 1 > p {
                            assert(!key_lt(oj.sort_key(), op.sort_key()));
                        }
                    }
                } else if i < p {
                    assert(out@[i] == before_out[i] && out@[j] == before_out[j - 1]);
                } else {
                    assert(out@[i] == before_out[i - 1] && out@[j] == before_out[j - 1]);
                }
            }
        }
    }
    proof {
        assert(rest@ =~= Seq::<T>::empty());
        assert(rest@.to_multiset() =~= Multiset::empty());
    }
    out
}


/// `(0, a0, a1, a2) < (0, b0, b1, b2)` on keys.
pub fn key_less(a0: &str, a1: &str, a2: &str, b0: &str, b1: &str, b2: &str) -> (r: bool)
    ensures
        r == key_lt((0, a0@, a1@, a2@), (0, b0@, b1@, b2@)),
{
    if text_less(a0, b0) {
        return true;
    }
    if !text_eq(a0, b0) {
        return false;
    }
    if text_less(a1, b1) {
        return true;
    }
    if !text_eq(a1, b1) {
        return false;
    }
    text_less(a2, b2)
}

/// How many elements of `s` satisfy `p`.
pub open spec fn count_where<T>(s: Seq<T>, p: spec_fn(T) -> bool) -> nat
    decreases s.len(),
{
    if s.len() == 0 {
        0
    } else {
        count_where(s.drop_last(), p) + if p(s.last()) { 1nat } else { 0nat }
    }
}

/// The values `f` picks from the elements of `s`, in order, skipping the
/// elements where it picks none.
pub open spec fn pick<T, V>(s: Seq<T>, f: spec_fn(T) -> Option<V>) -> Seq<V>
    decreases s.len(),
{
    if s.len() == 0 {
        seq![]
    } else {
        let before = pick(s.drop_last(), f);
        match f(s.last()) {
            Some(v) => before.push(v),
            None => before,
        }
    }
}

/// The largest of some numbers, if there are any.
pub open spec fn max_of(s: Seq<u64>) -> Option<u64>
    decreases s.len(),
{
    if s.len() == 0 {
        None
    } else {
        match max_of(s.drop_last()) {
            Some(m) => Some(if s.last() > m { s.last() } else { m }),
            None => Some(s.last()),
        }
    }
}

/// The largest of some numbers, if there are any.
pub fn max_value(v: &Vec<u64>) -> (r: Option<u64>)
    ensures
        r == max_of(v@),
{
    let mut m: Option<u64> = None;
    let mut i: usize = 0;
    while i < v.len()
        invariant
            i <= v.len(),
            m == max_of(v@.take(i as int)),
        decreases v.len() - i,
    {
        assert(v@.take(i + 1).drop_last() =~= v@.take(i as int));
        m = match m {
            Some(x) => Some(if v[i] > x { v[i] } else { x }),
            None => Some(v[i]),
        };
        i = i + 1;
    }
    assert(v@.take(v.len() as int) =~= v@);
    m
}


/// Counting one more element adds one exactly when it satisfies `p`.
pub proof fn lemma_count_where_step<T>(s: Seq<T>, i: int, p: spec_fn(T) -> bool)
    requires
        0 <= i < s.len(),
    ensures
        count_where(s.take(i + 1), p) == count_where(s.take(i), p) + if p(s[i]) { 1nat } else { 0nat },
{
    assert(s.take(i + 1).drop_last() =~= s.take(i));
}

/// Picking from one more element adds its pick, if any, at the end.
pub proof fn lemma_pick_step<T, V>(s: Seq<T>, i: int, f: spec_fn(T) -> Option<V>)
    requires
        0 <= i < s.len(),
    ensures
        pick(s.take(i + 1), f) == match f(s[i]) {
            Some(v) => pick(s.take(i), f).push(v),
            None => pick(s.take(i), f),
        },
{
    assert(s.take(i + 1).drop_last() =~= s.take(i));
}


/// How many entries passed their verification.
pub fn count_valid<T: StoreEntry>(v: &Vec<T>) -> (r: usize)
    ensures
        r == count_where(v@, |e: T| e.is_valid()),
        r <= v.len(),
{
    let ghost f = |e: T| e.is_valid();
    let mut n: usize = 0;
    let mut i: usize = 0;
    while i < v.len()
        invariant
            i <= v.len(),
            f == (|e: T| e.is_valid()),
            n == count_where(v@.take(i as int), f),
            n <= i,
        decreases v.len() - i,
    {
        proof {
            lemma_count_where_step(v@, i as int, f);
        }
        if v[i].valid() {
            n = n + 1;
        }
        i = i + 1;
    }
    assert(v@.take(v.len() as int) =~= v@);
    n
}

} // verus!
