//! Choosing and ordering the entries of a sysfs directory: the names that
//! begin with a prefix, in ascending order of their characters.

use crate::text::texts;
use vstd::prelude::*;
use vstd::seq_lib::{to_multiset_build, to_multiset_insert};

verus! {

/// `s` begins with `prefix`.
pub open spec fn starts_with(s: Seq<char>, prefix: Seq<char>) -> bool {
    prefix.len() <= s.len() && s.take(prefix.len() as int) == prefix
}

/// The test "begins with `prefix`".
pub open spec fn has_prefix(prefix: Seq<char>) -> spec_fn(Seq<char>) -> bool {
    |t: Seq<char>| starts_with(t, prefix)
}

/// `a` comes no later than `b` in lexicographic order of their characters
/// (a text comes before every longer text that it begins).
pub open spec fn text_le(a: Seq<char>, b: Seq<char>) -> bool
    decreases a.len(),
{
    if a.len() == 0 {
        true
    } else if b.len() == 0 {
        false
    } else if a[0] != b[0] {
        (a[0] as int) < (b[0] as int)
    } else {
        text_le(a.drop_first(), b.drop_first())
    }
}

/// Every text of `s` comes no later than those after it.
pub open spec fn sorted_texts(s: Seq<Seq<char>>) -> bool {
    forall|i: int, j: int| 0 <= i < j < s.len() ==> text_le(#[trigger] s[i], #[trigger] s[j])
}

/// Of two texts, one comes no later than the other.
pub proof fn lemma_text_le_total(a: Seq<char>, b: Seq<char>)
    ensures
        text_le(a, b) || text_le(b, a),
    decreases a.len(),
{
    if a.len() > 0 && b.len() > 0 && a[0] == b[0] {
        lemma_text_le_total(a.drop_first(), b.drop_first());
    }
}

/// The order of texts is transitive.
pub proof fn lemma_text_le_transitive(a: Seq<char>, b: Seq<char>, c: Seq<char>)
    requires
        text_le(a, b),
        text_le(b, c),
    ensures
        text_le(a, c),
    decreases a.len(),
{
    if a.len() > 0 && b.len() > 0 && c.len() > 0 && a[0] == b[0] && b[0] == c[0] {
        lemma_text_le_transitive(a.drop_first(), b.drop_first(), c.drop_first());
    }
}

/// Whether `s` begins with `prefix`.
pub fn text_starts_with(s: &str, prefix: &str) -> (r: bool)
    ensures
        r == starts_with(s@, prefix@),
{
    let n = prefix.unicode_len();
    let m = s.unicode_len();
    if n > m {
        return false;
    }
    let mut i: usize = 0;
    while i < n
        invariant
            n == prefix@.len(),
            m == s@.len(),
            n <= m,
            i <= n,
            forall|k: int| 0 <= k < i ==> s@[k] == prefix@[k],
        decreases n - i,
    {
        if s.get_char(i) != prefix.get_char(i) {
            assert(s@.take(n as int)[i as int] != prefix@[i as int]);
            return false;
        }
        i = i + 1;
    }
    assert(s@.take(n as int) =~= prefix@);
    true
}

/// Whether `a` comes no later than `b`.
pub fn text_at_most(a: &str, b: &str) -> (r: bool)
    ensures
        r == text_le(a@, b@),
{
    let n = a.unicode_len();
    let m = b.unicode_len();
    let mut i: usize = 0;
    assert(a@.skip(0) =~= a@ && b@.skip(0) =~= b@);
    while i < n && i < m
        invariant
            n == a@.len(),
            m == b@.len(),
            i <= n,
            i <= m,
            text_le(a@, b@) == text_le(a@.skip(i as int), b@.skip(i as int)),
        decreases n - i,
    {
        let x = a.get_char(i);
        let y = b.get_char(i);
        assert(a@.skip(i as int)[0] == x && b@.skip(i as int)[0] == y);
        if x != y {
            return (x as u32) < (y as u32);
        }
        assert(a@.skip(i as int).drop_first() =~= a@.skip(i as int + 1));
        assert(b@.skip(i as int).drop_first() =~= b@.skip(i as int + 1));
        i = i + 1;
    }
    i == n
}

/// The first position of sorted `v` whose text comes after `x`, or the end.
fn insertion_point(v: &Vec<String>, x: &str) -> (p: usize)
    ensures
        p <= v@.len(),
        forall|k: int| 0 <= k < p ==> text_le(#[trigger] texts(v@)[k], x@),
        p < v@.len() ==> !text_le(texts(v@)[p as int], x@),
{
    let mut p: usize = 0;
    while p < v.len()
        invariant
            p <= v@.len(),
            forall|k: int| 0 <= k < p ==> text_le(#[trigger] texts(v@)[k], x@),
        decreases v@.len() - p,
    {
        if !text_at_most(v[p].as_str(), x) {
            return p;
        }
        p = p + 1;
    }
    p
}

/// Inserts `x` into sorted `v`, after every text that comes no later.
fn insert_sorted(v: &mut Vec<String>, x: String)
    requires
        sorted_texts(texts(old(v)@)),
    ensures
        sorted_texts(texts(final(v)@)),
        texts(final(v)@).to_multiset() == texts(old(v)@).to_multiset().insert(x@),
{
    let p = insertion_point(v, x.as_str());
    let ghost before = texts(v@);
    let ghost xv = x@;
    v.insert(p, x);
    proof {
        let after = texts(v@);
        assert(after =~= before.insert(p as int, xv));
        to_multiset_insert(before, p as int, xv);
        assert forall|i: int, j: int| 0 <= i < j < after.len() implies text_le(
            #[trigger] after[i],
            #[trigger] after[j],
        ) by {
            if j < p {
                assert(after[i] == before[i] && after[j] == before[j]);
            } else if j == p {
                assert(after[i] == before[i]);
            } else if i < p {
                assert(after[i] == before[i] && after[j] == before[j - 1]);
                assert(text_le(before[i], before[j - 1]));
            } else if i == p {
                assert(after[j] == before[j - 1]);
                lemma_text_le_total(before[p as int], xv);
                if j - 1 > p {
                    assert(text_le(before[p as int], before[j - 1]));
                    lemma_text_le_transitive(xv, before[p as int], before[j - 1]);
                }
            } else {
                assert(after[i] == before[i - 1] && after[j] == before[j - 1]);
                assert(text_le(before[i - 1], before[j - 1]));
            }
        }
    }
}

/// The names of `names` that begin with `prefix`, in ascending order: a
/// directory listing narrowed to the entries of one kind (such as `BAT` in
/// `/sys/class/power_supply`), ordered as the daemon walks them.
pub fn matching_names(names: &Vec<String>, prefix: &str) -> (r: Vec<String>)
    ensures
        sorted_texts(texts(r@)),
        texts(r@).to_multiset() == texts(names@).filter(has_prefix(prefix@)).to_multiset(),
{
    let mut out: Vec<String> = Vec::new();
    let mut i: usize = 0;
    proof {
        assert(texts(names@.take(0)) =~= Seq::<Seq<char>>::empty());
        assert(texts(names@.take(0)).filter(has_prefix(prefix@)) =~= Seq::<Seq<char>>::empty())
            by {
            reveal(Seq::filter);
        }
        assert(texts(out@) =~= Seq::<Seq<char>>::empty());
    }
    while i < names.len()
        invariant
            i <= names@.len(),
            sorted_texts(texts(out@)),
            texts(out@).to_multiset() == texts(names@.take(i as int)).filter(
                has_prefix(prefix@),
            ).to_multiset(),
        decreases names@.len() - i,
    {
        let ghost seen = texts(names@.take(i as int));
        let ghost name = names@[i as int]@;
        proof {
            assert(texts(names@.take(i as int + 1)) =~= seen.push(name));
            seen.lemma_filter_push(name, has_prefix(prefix@));
            to_multiset_build(seen.filter(has_prefix(prefix@)), name);
        }
        if text_starts_with(names[i].as_str(), prefix) {
            insert_sorted(&mut out, names[i].clone());
        }
        i = i + 1;
    }
    assert(names@.take(names@.len() as int) =~= names@);
    out
}

} // verus!
