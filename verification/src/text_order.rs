//! The order of texts (`String`'s `Ord`: UTF-8 bytes compared
//! lexicographically, which is the order of code points) and sorting a list
//! of texts with duplicates removed.
use vstd::prelude::*;

verus! {

/// `a < b` for texts: at the first difference the smaller code point wins,
/// and a proper prefix comes first.
pub open spec fn text_lt(a: Seq<char>, b: Seq<char>) -> bool
    decreases a.len(),
{
    if a.len() == 0 {
        b.len() > 0
    } else if b.len() == 0 {
        false
    } else if a[0] != b[0] {
        (a[0] as int) < (b[0] as int)
    } else {
        text_lt(a.drop_first(), b.drop_first())
    }
}

/// Strictly increasing: sorted, and nothing listed twice.
pub open spec fn strictly_sorted(s: Seq<Seq<char>>) -> bool {
    forall|i: int, j: int| 0 <= i < j < s.len() ==> text_lt(#[trigger] s[i], #[trigger] s[j])
}

/// The two lists hold the same texts.
pub open spec fn same_texts(a: Seq<Seq<char>>, b: Seq<Seq<char>>) -> bool {
    forall|x: Seq<char>| a.contains(x) <==> b.contains(x)
}

pub proof fn lemma_text_lt_irreflexive(a: Seq<char>)
    ensures
        !text_lt(a, a),
    decreases a.len(),
{
    if a.len() > 0 {
        lemma_text_lt_irreflexive(a.drop_first());
    }
}

/// Two different texts are ordered one way or the other, never both.
pub proof fn lemma_text_lt_total(a: Seq<char>, b: Seq<char>)
    ensures
        a != b ==> text_lt(a, b) || text_lt(b, a),
        !(text_lt(a, b) && text_lt(b, a)),
    decreases a.len(),
{
    if a.len() > 0 && b.len() > 0 && a[0] == b[0] {
        lemma_text_lt_total(a.drop_first(), b.drop_first());
        if a != b {
            assert(a.drop_first() != b.drop_first()) by {
                if a.drop_first() == b.drop_first() {
                    assert(a =~= seq![a[0]] + a.drop_first());
                    assert(b =~= seq![b[0]] + b.drop_first());
                }
            }
        }
    } else if a.len() == 0 && b.len() == 0 {
        assert(a =~= b);
    } else if a.len() > 0 && b.len() > 0 {
        assert((a[0] as int) != (b[0] as int));
    }
}

pub proof fn lemma_text_lt_transitive(a: Seq<char>, b: Seq<char>, c: Seq<char>)
    requires
        text_lt(a, b),
        text_lt(b, c),
    ensures
        text_lt(a, c),
    decreases a.len(),
{
    if a.len() > 0 && b.len() > 0 && c.len() > 0 && a[0] == b[0] && b[0] == c[0] {
        lemma_text_lt_transitive(a.drop_first(), b.drop_first(), c.drop_first());
    }
}

proof fn lemma_text_lt_step(a: Seq<char>, b: Seq<char>, i: int)
    requires
        0 <= i < a.len(),
        i < b.len(),
        a[i] == b[i],
    ensures
        text_lt(a.skip(i), b.skip(i)) == text_lt(a.skip(i + 1), b.skip(i + 1)),
{
    assert(a.skip(i).drop_first() =~= a.skip(i + 1));
    assert(b.skip(i).drop_first() =~= b.skip(i + 1));
}

/// `a < b` on texts.
pub fn text_less(a: &str, b: &str) -> (r: bool)
    ensures
        r == text_lt(a@, b@),
{
    let n = a.unicode_len();
    let m = b.unicode_len();
    let mut i: usize = 0;
    assert(a@.skip(0) =~= a@);
    assert(b@.skip(0) =~= b@);
    loop
        invariant
            n == a@.len(),
            m == b@.len(),
            i <= n,
            i <= m,
            text_lt(a@, b@) == text_lt(a@.skip(i as int), b@.skip(i as int)),
        decreases n - i,
    {
        if i == n {
            return i < m;
        }
        if i == m {
            return false;
        }
        let x = a.get_char(i);
        let y = b.get_char(i);
        if x != y {
            assert(a@.skip(i as int)[0] == x);
            assert(b@.skip(i as int)[0] == y);
            return (x as u32) < (y as u32);
        }
        proof {
            lemma_text_lt_step(a@, b@, i as int);
        }
        i = i + 1;
    }
}

/// Inserts a text into a strictly sorted list, unless it is listed already.
fn insert_sorted(r: &mut Vec<String>, x: &str)
    requires
        strictly_sorted(old(r).deep_view()),
    ensures
        strictly_sorted(final(r).deep_view()),
        forall|y: Seq<char>|
            #[trigger] final(r).deep_view().contains(y) <==> (old(r).deep_view().contains(y) || y
                == x@),
{
    let ghost s = r.deep_view();
    let mut p: usize = 0;
    while p < r.len() && text_less(r[p].as_str(), x)
        invariant
            s == r.deep_view(),
            p <= r.len(),
            forall|j: int| 0 <= j < p ==> text_lt(#[trigger] s[j], x@),
        decreases r.len() - p,
    {
        p = p + 1;
    }
    if p < r.len() && crate::text::text_eq(r[p].as_str(), x) {
        assert(s[p as int] == x@);
        return;
    }
    proof {
        if p < s.len() {
            lemma_text_lt_total(s[p as int], x@);
            assert forall|j: int| p <= j < s.len() implies text_lt(x@, #[trigger] s[j]) by {
                if j > p {
                    lemma_text_lt_transitive(x@, s[p as int], s[j]);
                }
            }
        }
    }
    r.insert(p, x.to_string());
    proof {
        let t = r.deep_view();
        assert(t =~= s.insert(p as int, x@));
        assert forall|i: int, j: int| 0 <= i < j < t.len() implies text_lt(
            #[trigger] t[i],
            #[trigger] t[j],
        ) by {
            if j < p {
                assert(t[i] == s[i] && t[j] == s[j]);
            } else if j == p {
                assert(t[i] == s[i]);
            } else if i == p {
                assert(t[j] == s[j - 1]);
            } else if i < p {
                assert(t[i] == s[i] && t[j] == s[j - 1]);
                if j - 1 < p {
                } else {
                    lemma_text_lt_transitive(s[i], x@, s[j - 1]);
                }
            } else {
                assert(t[i] == s[i - 1] && t[j] == s[j - 1]);
            }
        }
        assert forall|y: Seq<char>| #[trigger] t.contains(y) <==> (s.contains(y) || y == x@) by {
            if t.contains(y) {
                let k = choose|k: int| 0 <= k < t.len() && t[k] == y;
                if k < p {
                    assert(s[k] == y);
                } else if k > p {
                    assert(s[k - 1] == y);
                }
            }
            if s.contains(y) {
                let k = choose|k: int| 0 <= k < s.len() && s[k] == y;
                if k < p {
                    assert(t[k] == y);
                } else {
                    assert(t[k + 1] == y);
                }
            }
            if y == x@ {
                assert(t[p as int] == y);
            }
        }
    }
}

/// The texts of a list in ascending order, each once (`sort` then `dedup`).
pub fn sort_dedup_texts(v: &Vec<String>) -> (r: Vec<String>)
    ensures
        strictly_sorted(r.deep_view()),
        same_texts(r.deep_view(), v.deep_view()),
{
    let mut r: Vec<String> = Vec::new();
    let mut i: usize = 0;
    while i < v.len()
        invariant
            i <= v.len(),
            strictly_sorted(r.deep_view()),
            forall|y: Seq<char>|
                #[trigger] r.deep_view().contains(y) <==> v.deep_view().subrange(0, i as int).contains(y),
        decreases v.len() - i,
    {
        let ghost before = r.deep_view();
        insert_sorted(&mut r, v[i].as_str());
        proof {
            let pre = v.deep_view().subrange(0, i as int);
            let post = v.deep_view().subrange(0, i + 1);
            assert(post =~= pre.push(v.deep_view()[i as int]));
            assert forall|y: Seq<char>| #[trigger] post.contains(y) <==> (pre.contains(y) || y == v.deep_view()[i as int]) by {
                if post.contains(y) {
                    let k = choose|k: int| 0 <= k < post.len() && post[k] == y;
                    if k < i {
                        assert(pre[k] == y);
                    }
                }
                if pre.contains(y) {
                    let k = choose|k: int| 0 <= k < pre.len() && pre[k] == y;
                    assert(post[k] == y);
                }
                if y == v.deep_view()[i as int] {
                    assert(post[i as int] == y);
                }
            }
        }
        i = i + 1;
    }
    assert(v.deep_view().subrange(0, i as int) =~= v.deep_view());
    r
}

/// Sorting with duplicates removed determines the result: two strictly
/// sorted lists that hold the same texts are the same list.
pub proof fn lemma_strictly_sorted_unique(a: Seq<Seq<char>>, b: Seq<Seq<char>>)
    requires
        strictly_sorted(a),
        strictly_sorted(b),
        same_texts(a, b),
    ensures
        a == b,
    decreases a.len(),
{
    if a.len() == 0 {
        if b.len() > 0 {
            assert(b.contains(b[0]));
        }
        assert(a =~= b);
    } else if b.len() == 0 {
        assert(a.contains(a[0]));
    } else {
        // The first elements are both the least text, hence equal.
        assert(a.contains(a[0]));
        assert(b.contains(b[0]));
        let ka = choose|k: int| 0 <= k < b.len() && b[k] == a[0];
        let kb = choose|k: int| 0 <= k < a.len() && a[k] == b[0];
        if a[0] != b[0] {
            assert(ka > 0 && kb > 0);
            assert(text_lt(b[0], b[ka]));
            assert(text_lt(a[0], a[kb]));
            lemma_text_lt_total(a[0], b[0]);
        }
        let ta = a.drop_first();
        let tb = b.drop_first();
        assert forall|i: int, j: int| 0 <= i < j < ta.len() implies text_lt(#[trigger] ta[i], #[trigger] ta[j]) by {
            assert(ta[i] == a[i + 1] && ta[j] == a[j + 1]);
        }
        assert forall|i: int, j: int| 0 <= i < j < tb.len() implies text_lt(#[trigger] tb[i], #[trigger] tb[j]) by {
            assert(tb[i] == b[i + 1] && tb[j] == b[j + 1]);
        }
        assert forall|x: Seq<char>| ta.contains(x) <==> tb.contains(x) by {
            if ta.contains(x) {
                let k = choose|k: int| 0 <= k < ta.len() && ta[k] == x;
                assert(a[k + 1] == x);
                assert(text_lt(a[0], a[k + 1]));
                lemma_text_lt_irreflexive(x);
                assert(b.contains(x));
                let m = choose|m: int| 0 <= m < b.len() && b[m] == x;
                assert(m != 0);
                assert(tb[m - 1] == x);
            }
            if tb.contains(x) {
                let k = choose|k: int| 0 <= k < tb.len() && tb[k] == x;
                assert(b[k + 1] == x);
                assert(text_lt(b[0], b[k + 1]));
                lemma_text_lt_irreflexive(x);
                assert(a.contains(x));
                let m = choose|m: int| 0 <= m < a.len() && a[m] == x;
                assert(m != 0);
                assert(ta[m - 1] == x);
            }
        }
        lemma_strictly_sorted_unique(ta, tb);
        assert(a =~= seq![a[0]] + ta);
        assert(b =~= seq![b[0]] + tb);
    }
}

} // verus!
