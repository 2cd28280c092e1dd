//! Flag tables: a list of (bit, value) pairs that converts between a BASS
//! bit mask and the list of values whose bits are set.
use vstd::prelude::*;

verus! {

/// The values of the table whose bit is set in `n`, in table order.
pub open spec fn flags_in<T>(t: Seq<(u32, T)>, n: u32) -> Seq<T>
    decreases t.len(),
{
    if t.len() == 0 {
        Seq::empty()
    } else {
        let rest = flags_in(t.drop_last(), n);
        if n & t.last().0 != 0 {
            rest.push(t.last().1)
        } else {
            rest
        }
    }
}

/// The bit mask made of the bits of the table entries whose value `v` holds.
pub open spec fn num_of<T>(t: Seq<(u32, T)>, v: Seq<T>) -> u32
    decreases t.len(),
{
    if t.len() == 0 {
        0
    } else {
        let rest = num_of(t.drop_last(), v);
        if v.contains(t.last().1) {
            rest | t.last().0
        } else {
            rest
        }
    }
}

/// The union of all bits of the table.
pub open spec fn mask_of<T>(t: Seq<(u32, T)>) -> u32
    decreases t.len(),
{
    if t.len() == 0 {
        0
    } else {
        mask_of(t.drop_last()) | t.last().0
    }
}

/// Each bit of the table is a single set bit, no two entries share a bit,
/// and no two entries share a value.
pub open spec fn well_formed_table<T>(t: Seq<(u32, T)>) -> bool {
    &&& forall|i: int| 0 <= i < t.len() ==> #[trigger] single_bit(t[i].0)
    &&& forall|i: int, j: int|
        0 <= i < t.len() && 0 <= j < t.len() && i != j ==> (#[trigger] t[i].0 & #[trigger] t[j].0)
            == 0
    &&& forall|i: int, j: int|
        0 <= i < t.len() && 0 <= j < t.len() && i != j ==> #[trigger] t[i].1 != #[trigger] t[j].1
}

/// `b` has exactly one bit set.
pub open spec fn single_bit(b: u32) -> bool {
    b != 0 && b & ((b - 1) as u32) == 0
}

proof fn lemma_single_bit_and(n: u32, b: u32)
    requires
        single_bit(b),
    ensures
        n & b == 0 || n & b == b,
        b & b == b,
        b & 0 == 0,
        0u32 & b == 0,
{
    assert(b != 0 && b & ((b - 1) as u32) == 0 ==> (n & b == 0 || n & b == b)) by (bit_vector);
    assert(b & b == b && b & 0 == 0 && 0u32 & b == 0) by (bit_vector);
}

proof fn lemma_or_and(x: u32, y: u32, b: u32)
    ensures
        (x | y) & b == (x & b) | (y & b),
        (x & b) | (x & y) == x & (b | y),
        x | 0 == x,
        x & 0 == 0,
{
    assert((x | y) & b == (x & b) | (y & b)) by (bit_vector);
    assert((x & b) | (x & y) == x & (b | y)) by (bit_vector);
    assert(x | 0 == x && x & 0 == 0) by (bit_vector);
}

proof fn lemma_table_prefix<T>(t: Seq<(u32, T)>)
    requires
        t.len() > 0,
        well_formed_table(t),
    ensures
        well_formed_table(t.drop_last()),
{
    let p = t.drop_last();
    assert forall|i: int| 0 <= i < p.len() implies #[trigger] single_bit(p[i].0) by {
        assert(p[i] == t[i]);
    }
    assert forall|i: int, j: int|
        0 <= i < p.len() && 0 <= j < p.len() && i != j implies (#[trigger] p[i].0
        & #[trigger] p[j].0) == 0 by {
        assert(p[i] == t[i] && p[j] == t[j]);
    }
    assert forall|i: int, j: int|
        0 <= i < p.len() && 0 <= j < p.len() && i != j implies #[trigger] p[i].1
        != #[trigger] p[j].1 by {
        assert(p[i] == t[i] && p[j] == t[j]);
    }
}

/// A value is among `flags_in(t, n)` exactly when some entry carries it and
/// has its bit set in `n`.
pub proof fn lemma_flags_in_contains<T>(t: Seq<(u32, T)>, n: u32, x: T)
    ensures
        flags_in(t, n).contains(x) <==> exists|i: int|
            0 <= i < t.len() && #[trigger] t[i].1 == x && n & t[i].0 != 0,
    decreases t.len(),
{
    if t.len() > 0 {
        let p = t.drop_last();
        lemma_flags_in_contains(p, n, x);
        if flags_in(t, n).contains(x) {
            if flags_in(p, n).contains(x) {
                let i = choose|i: int| 0 <= i < p.len() && #[trigger] p[i].1 == x && n & p[i].0 != 0;
                assert(t[i] == p[i]);
            } else {
                assert(n & t.last().0 != 0);
                let rest = flags_in(p, n);
                let k = choose|k: int| 0 <= k < rest.push(t.last().1).len() && rest.push(t.last().1)[k] == x;
                assert(k == rest.len());
                assert(t[t.len() - 1].1 == x);
            }
        }
        if exists|i: int| 0 <= i < t.len() && #[trigger] t[i].1 == x && n & t[i].0 != 0 {
            let i = choose|i: int| 0 <= i < t.len() && #[trigger] t[i].1 == x && n & t[i].0 != 0;
            if i < t.len() - 1 {
                assert(p[i] == t[i]);
                let rest = flags_in(p, n);
                if n & t.last().0 != 0 {
                    let k = choose|k: int| 0 <= k < rest.len() && rest[k] == x;
                    assert(rest.push(t.last().1)[k] == x);
                }
            } else {
                let rest = flags_in(p, n);
                assert(rest.push(t.last().1)[rest.len() as int] == x);
            }
        }
    }
}

/// `num_of` only looks at whether each value of the table is present.
pub proof fn lemma_num_of_membership<T>(t: Seq<(u32, T)>, v: Seq<T>, w: Seq<T>)
    requires
        forall|i: int| 0 <= i < t.len() ==> v.contains(#[trigger] t[i].1) == w.contains(t[i].1),
    ensures
        num_of(t, v) == num_of(t, w),
    decreases t.len(),
{
    if t.len() > 0 {
        let p = t.drop_last();
        assert forall|i: int| 0 <= i < p.len() implies v.contains(#[trigger] p[i].1) == w.contains(
            p[i].1,
        ) by {
            assert(p[i] == t[i]);
        }
        lemma_num_of_membership(p, v, w);
        assert(v.contains(t[t.len() - 1].1) == w.contains(t[t.len() - 1].1));
    }
}

/// Turning a mask into values and back keeps exactly the bits the table
/// knows of.
pub proof fn lemma_num_of_flags_in<T>(t: Seq<(u32, T)>, n: u32)
    requires
        well_formed_table(t),
    ensures
        num_of(t, flags_in(t, n)) == n & mask_of(t),
    decreases t.len(),
{
    if t.len() == 0 {
        lemma_or_and(n, 0, 0);
    } else {
        let p = t.drop_last();
        let e = t.last();
        lemma_table_prefix(t);
        lemma_num_of_flags_in(p, n);
        let f = flags_in(t, n);
        let fp = flags_in(p, n);
        assert forall|i: int| 0 <= i < p.len() implies f.contains(#[trigger] p[i].1) == fp.contains(
            p[i].1,
        ) by {
            assert(p[i] == t[i]);
            assert(p[i].1 != e.1);
            if n & e.0 != 0 {
                assert(f == fp.push(e.1));
                if fp.contains(p[i].1) {
                    let k = choose|k: int| 0 <= k < fp.len() && fp[k] == p[i].1;
                    assert(f[k] == p[i].1);
                }
                if f.contains(p[i].1) {
                    let k = choose|k: int| 0 <= k < f.len() && f[k] == p[i].1;
                    assert(k < fp.len());
                }
            }
        }
        lemma_num_of_membership(p, f, fp);
        lemma_flags_in_contains(p, n, e.1);
        lemma_flags_in_contains(t, n, e.1);
        if fp.contains(e.1) {
            let i = choose|i: int| 0 <= i < p.len() && #[trigger] p[i].1 == e.1 && n & p[i].0 != 0;
            assert(p[i] == t[i]);
            assert(t[i].1 != t[t.len() - 1].1);
        }
        assert(f.contains(e.1) <==> n & e.0 != 0) by {
            if f.contains(e.1) {
                let i = choose|i: int| 0 <= i < t.len() && #[trigger] t[i].1 == e.1 && n & t[i].0 != 0;
                if i != t.len() - 1 {
                    assert(t[i].1 != t[t.len() - 1].1);
                }
            }
            if n & e.0 != 0 {
                assert(t[t.len() - 1].1 == e.1);
            }
        }
        assert(single_bit(t[t.len() - 1].0));
        lemma_single_bit_and(n, e.0);
        lemma_and_or_dist(n, mask_of(p), e.0);
        lemma_or_and(n & mask_of(p), 0, 0);
    }
}

proof fn lemma_zero_or(b: u32)
    ensures
        0u32 | b == b,
        0u32 & b == 0,
{
    assert(0u32 | b == b && 0u32 & b == 0) by (bit_vector);
}

proof fn lemma_and_or_dist(n: u32, m: u32, b: u32)
    ensures
        (n & m) | (n & b) == n & (m | b),
{
    assert((n & m) | (n & b) == n & (m | b)) by (bit_vector);
}

/// The bit of entry `k` is set in `num_of(t, v)` exactly when `v` holds the
/// value of entry `k`.
pub proof fn lemma_num_of_bit<T>(t: Seq<(u32, T)>, v: Seq<T>, k: int)
    requires
        well_formed_table(t),
        0 <= k < t.len(),
    ensures
        (num_of(t, v) & t[k].0 != 0) <==> v.contains(t[k].1),
    decreases t.len(),
{
    let p = t.drop_last();
    let e = t.last();
    lemma_table_prefix(t);
    assert(single_bit(t[k].0));
    lemma_single_bit_and(num_of(p, v), t[k].0);
    lemma_or_and(num_of(p, v), e.0, t[k].0);
    if k == t.len() - 1 {
        if p.len() > 0 {
            lemma_num_of_absent(p, v, e.0);
        } else {
            lemma_single_bit_and(0, e.0);
        }
        lemma_single_bit_and(e.0, e.0);
        lemma_or_and(0, e.0, e.0);
        lemma_zero_or(e.0);
    } else {
        assert(p[k] == t[k]);
        lemma_num_of_bit(p, v, k);
        assert(t[t.len() - 1].0 & t[k].0 == 0);
        assert(num_of(p, v) & t[k].0 == (num_of(p, v) & t[k].0) | 0) by {
            lemma_or_and(num_of(p, v) & t[k].0, 0, 0);
        }
    }
}

/// No bit of `b` is set in `num_of(t, v)` when `b` shares no bit with any
/// entry of the table.
proof fn lemma_num_of_absent<T>(t: Seq<(u32, T)>, v: Seq<T>, b: u32)
    requires
        forall|i: int| 0 <= i < t.len() ==> (#[trigger] t[i].0 & b) == 0,
    ensures
        num_of(t, v) & b == 0,
    decreases t.len(),
{
    if t.len() == 0 {
        lemma_or_and(0, 0, b);
        lemma_zero_or(b);
    } else {
        let p = t.drop_last();
        assert forall|i: int| 0 <= i < p.len() implies (#[trigger] p[i].0 & b) == 0 by {
            assert(p[i] == t[i]);
        }
        lemma_num_of_absent(p, v, b);
        lemma_or_and(num_of(p, v), t.last().0, b);
        assert(t[t.len() - 1].0 & b == 0);
        lemma_zero_or(0);
    }
}

/// Turning values into a mask and back gives the table's values that were
/// present, and nothing else.
pub proof fn lemma_flags_in_num_of<T>(t: Seq<(u32, T)>, v: Seq<T>, x: T)
    requires
        well_formed_table(t),
    ensures
        flags_in(t, num_of(t, v)).contains(x) <==> (v.contains(x) && exists|i: int|
            0 <= i < t.len() && #[trigger] t[i].1 == x),
{
    lemma_flags_in_contains(t, num_of(t, v), x);
    if flags_in(t, num_of(t, v)).contains(x) {
        let i = choose|i: int|
            0 <= i < t.len() && #[trigger] t[i].1 == x && num_of(t, v) & t[i].0 != 0;
        lemma_num_of_bit(t, v, i);
    }
    if v.contains(x) && exists|i: int| 0 <= i < t.len() && #[trigger] t[i].1 == x {
        let i = choose|i: int| 0 <= i < t.len() && #[trigger] t[i].1 == x;
        lemma_num_of_bit(t, v, i);
    }
}

} // verus!
