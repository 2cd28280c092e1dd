//! The order in which tag lists are kept: strings compared character by
//! character by code point (the order of `str`, whose UTF-8 bytes compare
//! as their code points do), and sorted lists without repeats.
use vstd::prelude::*;

use crate::text::{char_views, string_views};

verus! {

/// Whether `a` comes strictly before `b`: at the first position where they
/// differ `a` has the smaller code point, or `a` is a proper prefix of `b`.
pub open spec fn chars_lt(a: Seq<char>, b: Seq<char>) -> bool
    decreases a.len(),
{
    if a.len() == 0 {
        b.len() > 0
    } else if b.len() == 0 {
        false
    } else if a[0] != b[0] {
        (a[0] as int) < (b[0] as int)
    } else {
        chars_lt(a.drop_first(), b.drop_first())
    }
}

/// No string comes before itself.
pub proof fn lemma_lt_irreflexive(a: Seq<char>)
    ensures
        !chars_lt(a, a),
    decreases a.len(),
{
    if a.len() > 0 {
        lemma_lt_irreflexive(a.drop_first());
    }
}

/// The order is transitive.
pub proof fn lemma_lt_transitive(a: Seq<char>, b: Seq<char>, c: Seq<char>)
    requires
        chars_lt(a, b),
        chars_lt(b, c),
    ensures
        chars_lt(a, c),
    decreases a.len(),
{
    if a.len() > 0 && b.len() > 0 && c.len() > 0 {
        if a[0] == b[0] && b[0] == c[0] {
            lemma_lt_transitive(a.drop_first(), b.drop_first(), c.drop_first());
        }
    }
}

/// Of two different strings one comes before the other.
pub proof fn lemma_lt_total(a: Seq<char>, b: Seq<char>)
    requires
        a != b,
    ensures
        chars_lt(a, b) || chars_lt(b, a),
    decreases a.len(),
{
    if a.len() == 0 && b.len() == 0 {
        assert(a =~= b);
    } else if a.len() > 0 && b.len() > 0 && a[0] == b[0] {
        if a.drop_first() == b.drop_first() {
            assert(a =~= seq![a[0]] + a.drop_first());
            assert(b =~= seq![b[0]] + b.drop_first());
        }
        lemma_lt_total(a.drop_first(), b.drop_first());
    } else if a.len() > 0 && b.len() > 0 {
        assert((a[0] as int) != (b[0] as int));
    }
}

/// The order is asymmetric.
pub proof fn lemma_lt_asymmetric(a: Seq<char>, b: Seq<char>)
    requires
        chars_lt(a, b),
    ensures
        !chars_lt(b, a),
{
    if chars_lt(b, a) {
        lemma_lt_transitive(a, b, a);
        lemma_lt_irreflexive(a);
    }
}

/// Whether every element of `s` comes before every later one: `s` is
/// sorted and holds no string twice.
pub open spec fn strictly_sorted(s: Seq<Seq<char>>) -> bool {
    forall|i: int, j: int| 0 <= i < j < s.len() ==> chars_lt(#[trigger] s[i], #[trigger] s[j])
}

/// Appending to a vector appends the contents of the new element.
pub proof fn lemma_char_views_push(s: Seq<Vec<char>>, x: Vec<char>)
    ensures
        char_views(s.push(x)) == char_views(s).push(x@),
{
    assert(char_views(s.push(x)) =~= char_views(s).push(x@));
}

/// Appending to a vector of strings appends the new string's contents.
pub proof fn lemma_string_views_push(s: Seq<String>, x: String)
    ensures
        string_views(s.push(x)) == string_views(s).push(x@),
{
    assert(string_views(s.push(x)) =~= string_views(s).push(x@));
}

/// What a sequence holds after a push: what it held, and the new element.
pub proof fn lemma_contains_push<A>(s: Seq<A>, x: A, y: A)
    ensures
        s.push(x).contains(y) <==> (s.contains(y) || y == x),
{
    let t = s.push(x);
    if t.contains(y) {
        let k = choose|k: int| 0 <= k < t.len() && t[k] == y;
        if k < s.len() {
            assert(s[k] == y);
        }
    }
    if s.contains(y) {
        let k = choose|k: int| 0 <= k < s.len() && s[k] == y;
        assert(t[k] == y);
    }
    if y == x {
        assert(t[s.len() as int] == y);
    }
}

/// Two strictly sorted lists with the same strings are the same list.
pub proof fn lemma_strictly_sorted_unique(a: Seq<Seq<char>>, b: Seq<Seq<char>>)
    requires
        strictly_sorted(a),
        strictly_sorted(b),
        forall|x: Seq<char>|
            #![trigger a.contains(x)]
            #![trigger b.contains(x)]
            a.contains(x) <==> b.contains(x),
    ensures
        a == b,
    decreases a.len(),
{
    if a.len() == 0 {
        if b.len() > 0 {
            assert(b.contains(b[0]));
        }
        assert(a =~= b);
    } else if b.len() == 0 {
        assert(a.contains(a[0]));
    } else {
        // The first elements are the least of each list, so they agree.
        assert(a.contains(a[0]));
        assert(b.contains(b[0]));
        let i = choose|i: int| 0 <= i < a.len() && a[i] == b[0];
        let j = choose|j: int| 0 <= j < b.len() && b[j] == a[0];
        if a[0] != b[0] {
            assert(i > 0 && j > 0);
            assert(chars_lt(a[0], a[i]));
            assert(chars_lt(b[0], b[j]));
            lemma_lt_asymmetric(a[0], b[0]);
        }
        let a1 = a.drop_first();
        let b1 = b.drop_first();
        assert forall|x: Seq<char>| a1.contains(x) implies b1.contains(x) by {
            let k = choose|k: int| 0 <= k < a1.len() && a1[k] == x;
            assert(a.contains(x)) by {
                assert(a[k + 1] == x);
            }
            let m = choose|m: int| 0 <= m < b.len() && b[m] == x;
            assert(chars_lt(a[0], a[k + 1]));
            if m == 0 {
                lemma_lt_irreflexive(x);
            }
            assert(b1[m - 1] == x);
        }
        assert forall|x: Seq<char>| b1.contains(x) implies a1.contains(x) by {
            let k = choose|k: int| 0 <= k < b1.len() && b1[k] == x;
            assert(b.contains(x)) by {
                assert(b[k + 1] == x);
            }
            let m = choose|m: int| 0 <= m < a.len() && a[m] == x;
            assert(chars_lt(b[0], b[k + 1]));
            if m == 0 {
                lemma_lt_irreflexive(x);
            }
            assert(a1[m - 1] == x);
        }
        assert(strictly_sorted(a1)) by {
            assert forall|p: int, q: int| 0 <= p < q < a1.len() implies chars_lt(
                #[trigger] a1[p],
                #[trigger] a1[q],
            ) by {
                assert(a1[p] == a[p + 1] && a1[q] == a[q + 1]);
            }
        }
        assert(strictly_sorted(b1)) by {
            assert forall|p: int, q: int| 0 <= p < q < b1.len() implies chars_lt(
                #[trigger] b1[p],
                #[trigger] b1[q],
            ) by {
                assert(b1[p] == b[p + 1] && b1[q] == b[q + 1]);
            }
        }
        lemma_strictly_sorted_unique(a1, b1);
        assert(a =~= seq![a[0]] + a1);
        assert(b =~= seq![b[0]] + b1);
    }
}

/// Whether `a` comes strictly before `b`.
pub fn chars_less(a: &Vec<char>, b: &Vec<char>) -> (r: bool)
    ensures
        r == chars_lt(a@, b@),
{
    let mut i: usize = 0;
    assert(a@.skip(0) =~= a@);
    assert(b@.skip(0) =~= b@);
    while i < a.len() && i < b.len() && a[i] == b[i]
        invariant
            i <= a.len(),
            i <= b.len(),
            chars_lt(a@, b@) == chars_lt(a@.skip(i as int), b@.skip(i as int)),
        decreases a.len() - i,
    {
        assert(a@.skip(i as int).drop_first() =~= a@.skip(i + 1));
        assert(b@.skip(i as int).drop_first() =~= b@.skip(i + 1));
        i = i + 1;
    }
    if i == a.len() {
        i < b.len()
    } else if i == b.len() {
        false
    } else {
        assert(a@.skip(i as int)[0] == a@[i as int]);
        assert(b@.skip(i as int)[0] == b@[i as int]);
        a[i] < b[i]
    }
}

/// Whether `a` and `b` hold the same characters.
pub fn chars_equal(a: &Vec<char>, b: &Vec<char>) -> (r: bool)
    ensures
        r == (a@ == b@),
{
    if a.len() != b.len() {
        return false;
    }
    let mut i: usize = 0;
    while i < a.len()
        invariant
            i <= a.len(),
            a.len() == b.len(),
            a@.subrange(0, i as int) == b@.subrange(0, i as int),
        decreases a.len() - i,
    {
        if a[i] != b[i] {
            return false;
        }
        assert(a@.subrange(0, i + 1) =~= a@.subrange(0, i as int).push(a@[i as int]));
        assert(b@.subrange(0, i + 1) =~= b@.subrange(0, i as int).push(b@[i as int]));
        i = i + 1;
    }
    assert(a@ =~= a@.subrange(0, a.len() as int));
    assert(b@ =~= b@.subrange(0, b.len() as int));
    true
}

/// Adds `x` to the strictly sorted `v` at its place, unless `v` holds it.
pub fn insert_sorted(v: &mut Vec<Vec<char>>, x: Vec<char>)
    requires
        strictly_sorted(char_views(old(v)@)),
    ensures
        strictly_sorted(char_views(final(v)@)),
        forall|y: Seq<char>|
            #![trigger char_views(final(v)@).contains(y)]
            #![trigger char_views(old(v)@).contains(y)]
            char_views(final(v)@).contains(y) <==> (char_views(old(v)@).contains(y)
                || y == x@),
{
    let ghost old_views = char_views(v@);
    let mut p: usize = 0;
    while p < v.len() && chars_less(&v[p], &x)
        invariant
            p <= v.len(),
            v@ == old(v)@,
            old_views == char_views(v@),
            forall|k: int| 0 <= k < p ==> chars_lt(#[trigger] old_views[k], x@),
        decreases v.len() - p,
    {
        p = p + 1;
    }
    if p < v.len() && chars_equal(&v[p], &x) {
        assert(old_views[p as int] == x@);
        return;
    }
    proof {
        if p < v.len() {
            assert(old_views[p as int] == v@[p as int]@);
            lemma_lt_total(old_views[p as int], x@);
        }
    }
    let ghost xv = x@;
    v.insert(p, x);
    let ghost new_views = char_views(v@);
    assert(new_views =~= old_views.insert(p as int, xv));
    assert forall|i: int, j: int| 0 <= i < j < new_views.len() implies chars_lt(
        #[trigger] new_views[i],
        #[trigger] new_views[j],
    ) by {
        if j < p {
        } else if j == p {
        } else if i < p {
            // old_views[i] < x < old_views[p] <= old_views[j - 1]
            assert(chars_lt(old_views[i], xv));
            if j - 1 > p {
                lemma_lt_transitive(xv, old_views[p as int], old_views[j - 1]);
            }
            lemma_lt_transitive(old_views[i], xv, old_views[j - 1]);
        } else if i == p {
            if j - 1 > p {
                lemma_lt_transitive(xv, old_views[p as int], old_views[j - 1]);
            }
        } else {
        }
    }
    assert forall|y: Seq<char>| new_views.contains(y) <==> (old_views.contains(y) || y == xv) by {
        if new_views.contains(y) {
            let k = choose|k: int| 0 <= k < new_views.len() && new_views[k] == y;
            if k < p {
                assert(old_views[k] == y);
            } else if k > p {
                assert(old_views[k - 1] == y);
            }
        }
        if old_views.contains(y) {
            let k = choose|k: int| 0 <= k < old_views.len() && old_views[k] == y;
            if k < p {
                assert(new_views[k] == y);
            } else {
                assert(new_views[k + 1] == y);
            }
        }
        if y == xv {
            assert(new_views[p as int] == y);
        }
    }
}

/// The strings of `v` in order, each once.
pub fn sorted_distinct(v: Vec<Vec<char>>) -> (r: Vec<Vec<char>>)
    ensures
        strictly_sorted(char_views(r@)),
        forall|y: Seq<char>|
            #![trigger char_views(r@).contains(y)]
            #![trigger char_views(v@).contains(y)]
            char_views(r@).contains(y) <==> char_views(v@).contains(y),
{
    let mut r: Vec<Vec<char>> = Vec::new();
    let n = v.len();
    let ghost vv = char_views(v@);
    let mut rest = v;
    // `rest` is taken from the back; what was taken is `vv[rest.len()..]`.
    while rest.len() > 0
        invariant
            rest.len() <= n,
            n == vv.len(),
            char_views(rest@) == vv.subrange(0, rest.len() as int),
            strictly_sorted(char_views(r@)),
            forall|y: Seq<char>|
                #![trigger char_views(r@).contains(y)]
                #![trigger vv.subrange(rest.len() as int, n as int).contains(y)]
                char_views(r@).contains(y) <==> vv.subrange(
                    rest.len() as int,
                    n as int,
                ).contains(y),
        decreases rest.len(),
    {
        let ghost before = rest.len() as int;
        let ghost old_rest = rest@;
        let x = rest.pop().unwrap();
        proof {
            assert(char_views(rest@) =~= vv.subrange(0, rest.len() as int));
            assert(old_rest[before - 1] == x);
            assert(char_views(old_rest)[before - 1] == vv[before - 1]);
            assert(x@ == vv[before - 1]);
            assert forall|y: Seq<char>|
                vv.subrange(before - 1, n as int).contains(y) <==> (vv.subrange(
                    before,
                    n as int,
                ).contains(y) || y == x@) by {
                let s0 = vv.subrange(before - 1, n as int);
                let s1 = vv.subrange(before, n as int);
                if s0.contains(y) {
                    let k = choose|k: int| 0 <= k < s0.len() && s0[k] == y;
                    if k > 0 {
                        assert(s1[k - 1] == y);
                    }
                }
                if s1.contains(y) {
                    let k = choose|k: int| 0 <= k < s1.len() && s1[k] == y;
                    assert(s0[k + 1] == y);
                }
                if y == x@ {
                    assert(s0[0] == y);
                }
            }
        }
        insert_sorted(&mut r, x);
    }
    assert(vv.subrange(0, n as int) =~= vv);
    r
}

} // verus!
