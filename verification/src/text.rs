//! Character-level text helpers shared by the parsers and the formatters.
//!
//! Strings are handled through their `Seq<char>` views: a `&str` is turned
//! into a `Vec<char>`, worked on, and turned back into a `String`.
use vstd::prelude::*;

verus! {

broadcast use vstd::string::group_string_axioms;

/// The characters of `s`, in order.
pub fn chars_of(s: &str) -> (v: Vec<char>)
    ensures
        v@ == s@,
{
    let mut v: Vec<char> = Vec::new();
    for c in it: s.chars()
        invariant
            it.seq() == s@,
            v@ == it.seq().take(it.index() as int),
    {
        v.push(c);
    }
    v
}

/// Builds a `String` holding exactly the given characters.
///
/// Trusted: std's `FromIterator<char>` for `String` (`collect`) yields the
/// characters in iteration order.
#[verifier::external_body]
pub(crate) fn string_from_chars(v: &[char]) -> (s: String)
    ensures
        s@ == v@,
{
    v.iter().collect()
}

/// `needle` occurs in `hay` starting at index `i`.
pub open spec fn occurs_at(hay: Seq<char>, needle: Seq<char>, i: int) -> bool {
    &&& 0 <= i
    &&& i + needle.len() <= hay.len()
    &&& hay.subrange(i, i + needle.len()) == needle
}

/// The first index at or after `start` where `needle` occurs in `hay`
/// (what `str::find` reports, counted in characters).
pub open spec fn find_from(hay: Seq<char>, needle: Seq<char>, start: int) -> Option<int>
    decreases hay.len() + 1 - start,
{
    if start < 0 || start + needle.len() > hay.len() {
        None
    } else if occurs_at(hay, needle, start) {
        Some(start)
    } else {
        find_from(hay, needle, start + 1)
    }
}

/// The first occurrence of `needle` in `hay`.
pub open spec fn find_first(hay: Seq<char>, needle: Seq<char>) -> Option<int> {
    find_from(hay, needle, 0)
}

/// What `find_from` returns is an occurrence, and no occurrence lies between
/// `start` and it; when it returns `None` there is none at or after `start`.
pub proof fn lemma_find_from(hay: Seq<char>, needle: Seq<char>, start: int)
    requires
        0 <= start,
    ensures
        match find_from(hay, needle, start) {
            Some(i) => start <= i && occurs_at(hay, needle, i) && forall|j: int|
                start <= j < i ==> !occurs_at(hay, needle, j),
            None => forall|j: int| start <= j ==> !occurs_at(hay, needle, j),
        },
    decreases hay.len() + 1 - start,
{
    if start + needle.len() > hay.len() {
    } else if occurs_at(hay, needle, start) {
    } else {
        lemma_find_from(hay, needle, start + 1);
    }
}

/// A character in front of `hay` that does not begin `needle` moves the
/// first occurrence of `needle` one place on.
pub proof fn lemma_find_first_after_char(c: char, hay: Seq<char>, needle: Seq<char>)
    requires
        needle.len() > 0,
        needle[0] != c,
    ensures
        find_first(seq![c] + hay, needle) == (match find_first(hay, needle) {
            Some(i) => Some(i + 1),
            None => None::<int>,
        }),
{
    let h2 = seq![c] + hay;
    lemma_find_from(h2, needle, 0);
    lemma_find_from(hay, needle, 0);
    assert forall|j: int| 0 <= j implies occurs_at(h2, needle, j + 1) == occurs_at(hay, needle, j) by {
        if j + 1 + needle.len() <= h2.len() {
            assert(h2.subrange(j + 1, j + 1 + needle.len()) =~= hay.subrange(j, j + needle.len()));
        }
    }
    assert(!occurs_at(h2, needle, 0)) by {
        if occurs_at(h2, needle, 0) {
            assert(h2.subrange(0, needle.len() as int)[0] == c);
        }
    }
    match find_first(h2, needle) {
        Some(k) => {
            assert(k >= 1);
            assert(occurs_at(hay, needle, k - 1));
            match find_first(hay, needle) {
                Some(i) => {
                    if i < k - 1 {
                        assert(occurs_at(h2, needle, i + 1));
                    }
                },
                None => {},
            }
        },
        None => {
            match find_first(hay, needle) {
                Some(i) => {
                    assert(occurs_at(h2, needle, i + 1));
                },
                None => {},
            }
        },
    }
}

/// Whether `needle` occurs in `hay` at `i`, checked character by character.
pub fn matches_at(hay: &Vec<char>, needle: &Vec<char>, i: usize) -> (b: bool)
    requires
        i + needle.len() <= hay.len(),
    ensures
        b == occurs_at(hay@, needle@, i as int),
{
    let mut k: usize = 0;
    while k < needle.len()
        invariant
            k <= needle.len(),
            i + needle.len() <= hay.len(),
            forall|j: int| 0 <= j < k ==> hay@[i + j] == needle@[j],
        decreases needle.len() - k,
    {
        if hay[i + k] != needle[k] {
            assert(hay@.subrange(i as int, i + needle.len())[k as int] != needle@[k as int]);
            return false;
        }
        k = k + 1;
    }
    assert(hay@.subrange(i as int, i + needle.len()) =~= needle@);
    true
}

/// The first index at or after `start` where `needle` occurs in `hay`.
pub fn find_chars_from(hay: &Vec<char>, needle: &Vec<char>, start: usize) -> (r: Option<usize>)
    ensures
        r matches Some(i) ==> find_from(hay@, needle@, start as int) == Some(i as int),
        r is None ==> find_from(hay@, needle@, start as int) is None,
        r matches Some(i) ==> i + needle.len() <= hay.len(),
{
    if needle.len() > hay.len() {
        proof {
            reveal_with_fuel(find_from, 1);
        }
        return None;
    }
    let last = hay.len() - needle.len();
    let mut i = start;
    while i <= last
        invariant
            start <= i,
            last + needle.len() == hay.len(),
            find_from(hay@, needle@, start as int) == find_from(hay@, needle@, i as int),
        decreases last + 1 - i,
    {
        if matches_at(hay, needle, i) {
            return Some(i);
        }
        if i == last {
            proof {
                reveal_with_fuel(find_from, 2);
            }
            return None;
        }
        i = i + 1;
    }
    None
}

/// The first occurrence of `needle` in `hay`, as `str::find` gives it
/// (counted in characters).
pub fn find_chars(hay: &Vec<char>, needle: &Vec<char>) -> (r: Option<usize>)
    ensures
        r matches Some(i) ==> find_first(hay@, needle@) == Some(i as int),
        r is None ==> find_first(hay@, needle@) is None,
        r matches Some(i) ==> i + needle.len() <= hay.len(),
{
    find_chars_from(hay, needle, 0)
}

/// `s` with every non-overlapping occurrence of the non-empty `pat`, taken
/// from left to right, replaced by `rep` (what `str::replace` does).
pub open spec fn replace_all(s: Seq<char>, pat: Seq<char>, rep: Seq<char>) -> Seq<char>
    decreases s.len(),
{
    if pat.len() == 0 || s.len() < pat.len() {
        s
    } else if s.subrange(0, pat.len() as int) == pat {
        rep + replace_all(s.subrange(pat.len() as int, s.len() as int), pat, rep)
    } else {
        seq![s[0]] + replace_all(s.subrange(1, s.len() as int), pat, rep)
    }
}

/// Replaces every occurrence of the non-empty `pat` in `s` by `rep`.
pub fn replace_chars(s: &Vec<char>, pat: &Vec<char>, rep: &Vec<char>) -> (r: Vec<char>)
    requires
        pat.len() > 0,
    ensures
        r@ == replace_all(s@, pat@, rep@),
{
    let mut out: Vec<char> = Vec::new();
    let mut i: usize = 0;
    assert(s@.subrange(0, s.len() as int) =~= s@);
    while i < s.len()
        invariant
            i <= s.len(),
            pat.len() > 0,
            out@ + replace_all(s@.subrange(i as int, s.len() as int), pat@, rep@) == replace_all(
                s@,
                pat@,
                rep@,
            ),
        decreases s.len() - i,
    {
        let ghost rest = s@.subrange(i as int, s.len() as int);
        if pat.len() <= s.len() - i && matches_at(s, pat, i) {
            assert(rest.subrange(0, pat.len() as int) =~= s@.subrange(i as int, i + pat.len()));
            assert(rest.subrange(pat.len() as int, rest.len() as int) =~= s@.subrange(
                i + pat.len(),
                s.len() as int,
            ));
            let mut k: usize = 0;
            let ghost before = out@;
            while k < rep.len()
                invariant
                    k <= rep.len(),
                    out@ == before + rep@.take(k as int),
                decreases rep.len() - k,
            {
                out.push(rep[k]);
                k = k + 1;
                assert(rep@.take(k as int) =~= rep@.take(k - 1) + seq![rep@[k - 1]]);
            }
            assert(rep@.take(rep.len() as int) =~= rep@);
            assert(out@ + replace_all(
                s@.subrange(i + pat.len(), s.len() as int),
                pat@,
                rep@,
            ) =~= before + replace_all(rest, pat@, rep@));
            i = i + pat.len();
        } else {
            if pat.len() <= s.len() - i {
                assert(rest.subrange(0, pat.len() as int) =~= s@.subrange(
                    i as int,
                    i + pat.len(),
                ));
            }
            assert(rest.subrange(1, rest.len() as int) =~= s@.subrange(i + 1, s.len() as int));
            let ghost before = out@;
            out.push(s[i]);
            if s.len() - i < pat.len() {
                assert(rest =~= seq![s@[i as int]] + s@.subrange(i + 1, s.len() as int));
                proof {
                    lemma_replace_short(s@.subrange(i + 1, s.len() as int), pat@, rep@);
                }
            }
            assert(out@ + replace_all(s@.subrange(i + 1, s.len() as int), pat@, rep@)
                =~= before + replace_all(rest, pat@, rep@));
            i = i + 1;
        }
    }
    assert(s@.subrange(s.len() as int, s.len() as int) =~= Seq::<char>::empty());
    assert(out@ =~= replace_all(s@, pat@, rep@));
    out
}

/// A text shorter than the pattern is left as it is.
proof fn lemma_replace_short(s: Seq<char>, pat: Seq<char>, rep: Seq<char>)
    requires
        s.len() < pat.len(),
    ensures
        replace_all(s, pat, rep) == s,
{
}

/// The character of the decimal digit `d`.
pub open spec fn digit_char(d: nat) -> char {
    ((d % 10) + 48) as u8 as char
}

/// The decimal notation of `n`, without leading zeros.
pub open spec fn dec(n: nat) -> Seq<char>
    decreases n,
{
    if n < 10 {
        seq![digit_char(n)]
    } else {
        dec(n / 10) + seq![digit_char(n % 10)]
    }
}

/// The decimal notation of `n` padded with zeros to at least two characters
/// (what the format `{:02}` prints for an unsigned number).
pub open spec fn dec_pad2(n: nat) -> Seq<char> {
    if n < 10 {
        seq!['0', digit_char(n)]
    } else {
        dec(n)
    }
}

/// The decimal notation of a signed number (what `{}` prints for it).
pub open spec fn dec_signed(n: int) -> Seq<char> {
    if n < 0 {
        seq!['-'] + dec((-n) as nat)
    } else {
        dec(n as nat)
    }
}

fn digit_of(d: u64) -> (c: char)
    requires
        d < 10,
    ensures
        c == digit_char(d as nat),
{
    let b: u8 = (d as u8) + 48u8;
    b as char
}

/// Appends the decimal notation of `n` to `out`.
pub fn push_dec(out: &mut Vec<char>, n: u64)
    ensures
        final(out)@ == old(out)@ + dec(n as nat),
    decreases n,
{
    if n >= 10 {
        push_dec(out, n / 10);
    }
    let c = digit_of(n % 10);
    out.push(c);
    proof {
        if n >= 10 {
            assert(dec(n as nat) == dec((n / 10) as nat) + seq![digit_char((n % 10) as nat)]);
        }
    }
    assert(final(out)@ =~= old(out)@ + dec(n as nat)) by {
        assert(digit_char((n % 10) as nat) == digit_char(n as nat));
    }
}

/// Appends `n` formatted as `{:02}` to `out`.
pub fn push_dec_pad2(out: &mut Vec<char>, n: u64)
    ensures
        final(out)@ == old(out)@ + dec_pad2(n as nat),
{
    if n < 10 {
        out.push('0');
        let c = digit_of(n);
        out.push(c);
        assert(final(out)@ =~= old(out)@ + dec_pad2(n as nat));
    } else {
        push_dec(out, n);
    }
}

/// Appends the decimal notation of the signed `n` to `out`.
pub fn push_dec_signed(out: &mut Vec<char>, n: i32)
    ensures
        final(out)@ == old(out)@ + dec_signed(n as int),
{
    if n < 0 {
        out.push('-');
        let m: i64 = n as i64;
        let abs: u64 = (0i64 - m) as u64;
        let ghost mid = out@;
        push_dec(out, abs);
        assert(final(out)@ =~= old(out)@ + dec_signed(n as int));
    } else {
        push_dec(out, n as u64);
    }
}

/// Appends the characters of `s`.
pub(crate) fn push_str(out: &mut Vec<char>, s: &str)
    ensures
        final(out)@ == old(out)@ + s@,
{
    let v = chars_of(s);
    push_all(out, &v);
}

/// Appends all of `src` to `out`.
pub fn push_all(out: &mut Vec<char>, src: &Vec<char>)
    ensures
        final(out)@ == old(out)@ + src@,
{
    let mut k: usize = 0;
    while k < src.len()
        invariant
            k <= src.len(),
            out@ == old(out)@ + src@.take(k as int),
        decreases src.len() - k,
    {
        out.push(src[k]);
        k = k + 1;
        assert(src@.take(k as int) =~= src@.take(k - 1) + seq![src@[k - 1]]);
    }
    assert(src@.take(src.len() as int) =~= src@);
}

/// How many bytes UTF-8 takes for `c` (what `char::len_utf8` reports).
pub open spec fn utf8_width(c: char) -> nat {
    if (c as u32) < 0x80 {
        1
    } else if (c as u32) < 0x800 {
        2
    } else if (c as u32) < 0x10000 {
        3
    } else {
        4
    }
}

/// How many bytes UTF-8 takes for `s`: the byte length `str::len` reports.
pub open spec fn utf8_len(s: Seq<char>) -> nat
    decreases s.len(),
{
    if s.len() == 0 {
        0
    } else {
        utf8_len(s.drop_last()) + utf8_width(s.last())
    }
}

/// A string takes at least one byte per character.
pub proof fn lemma_utf8_len_at_least(s: Seq<char>)
    ensures
        utf8_len(s) >= s.len(),
    decreases s.len(),
{
    if s.len() > 0 {
        lemma_utf8_len_at_least(s.drop_last());
    }
}

/// The byte length of `s`, counted character by character.
pub fn utf8_len_of(s: &str) -> (r: usize)
    requires
        utf8_len(s@) <= usize::MAX,
    ensures
        r == utf8_len(s@),
{
    let v = chars_of(s);
    let mut n: usize = 0;
    let mut i: usize = 0;
    while i < v.len()
        invariant
            i <= v.len(),
            v@ == s@,
            utf8_len(s@) <= usize::MAX,
            n == utf8_len(v@.subrange(0, i as int)),
        decreases v.len() - i,
    {
        let c = v[i];
        let code: u32 = c as u32;
        let w: usize = if code < 0x80 {
            1
        } else if code < 0x800 {
            2
        } else if code < 0x10000 {
            3
        } else {
            4
        };
        proof {
            assert(v@.subrange(0, i + 1).drop_last() =~= v@.subrange(0, i as int));
            lemma_utf8_len_prefix(v@, i + 1);
        }
        n = n + w;
        i = i + 1;
    }
    assert(v@.subrange(0, v.len() as int) =~= v@);
    n
}

/// A prefix takes no more bytes than the whole.
pub proof fn lemma_utf8_len_prefix(s: Seq<char>, k: int)
    requires
        0 <= k <= s.len(),
    ensures
        utf8_len(s.subrange(0, k)) <= utf8_len(s),
    decreases s.len(),
{
    if k < s.len() {
        assert(s.drop_last().subrange(0, k) =~= s.subrange(0, k));
        lemma_utf8_len_prefix(s.drop_last(), k);
    } else {
        assert(s.subrange(0, k) =~= s);
    }
}

/// Whether `c` has the Unicode `White_Space` property, which
/// `char::is_whitespace` tests: tab to carriage return, space, next line,
/// no-break space, Ogham space mark, en quad to hair space, line and
/// paragraph separators, narrow no-break space, medium mathematical space
/// and ideographic space.
pub open spec fn is_ws(c: char) -> bool {
    let n = c as u32;
    ||| 9 <= n <= 13
    ||| n == 32 || n == 0x85 || n == 0xa0 || n == 0x1680
    ||| 0x2000 <= n <= 0x200a
    ||| n == 0x2028 || n == 0x2029 || n == 0x202f || n == 0x205f || n == 0x3000
}

/// Whether `c` is whitespace, as `char::is_whitespace` decides it.
pub(crate) fn whitespace(c: char) -> (r: bool)
    ensures
        r == is_ws(c),
{
    let n = c as u32;
    (9 <= n && n <= 13) || n == 32 || n == 0x85 || n == 0xa0 || n == 0x1680 || (0x2000 <= n && n
        <= 0x200a) || n == 0x2028 || n == 0x2029 || n == 0x202f || n == 0x205f || n == 0x3000
}

/// The number of leading characters of `s` that are whitespace.
pub open spec fn lead_ws(s: Seq<char>) -> nat
    decreases s.len(),
{
    if s.len() > 0 && is_ws(s[0]) {
        1 + lead_ws(s.drop_first())
    } else {
        0
    }
}

/// The number of trailing characters of `s` that are whitespace.
pub open spec fn trail_ws(s: Seq<char>) -> nat
    decreases s.len(),
{
    if s.len() > 0 && is_ws(s.last()) {
        1 + trail_ws(s.drop_last())
    } else {
        0
    }
}

/// `s` without its leading and trailing whitespace (what `str::trim` gives).
pub open spec fn trimmed(s: Seq<char>) -> Seq<char> {
    let a = lead_ws(s) as int;
    let rest = s.subrange(a, s.len() as int);
    rest.subrange(0, rest.len() - trail_ws(rest))
}

proof fn lemma_lead_ws_bound(s: Seq<char>)
    ensures
        lead_ws(s) <= s.len(),
    decreases s.len(),
{
    if s.len() > 0 && is_ws(s[0]) {
        lemma_lead_ws_bound(s.drop_first());
    }
}

proof fn lemma_trail_ws_bound(s: Seq<char>)
    ensures
        trail_ws(s) <= s.len(),
    decreases s.len(),
{
    if s.len() > 0 && is_ws(s.last()) {
        lemma_trail_ws_bound(s.drop_last());
    }
}

/// The characters of `s` without leading and trailing whitespace.
pub fn trim_chars(s: &Vec<char>) -> (r: Vec<char>)
    ensures
        r@ == trimmed(s@),
{
    let mut a: usize = 0;
    assert(s@.skip(0) =~= s@);
    while a < s.len() && whitespace(s[a])
        invariant
            a <= s.len(),
            lead_ws(s@) == a + lead_ws(s@.skip(a as int)),
        decreases s.len() - a,
    {
        assert(s@.skip(a as int).drop_first() =~= s@.skip(a + 1));
        a = a + 1;
    }
    proof {
        if a < s.len() {
            assert(s@.skip(a as int)[0] == s@[a as int]);
        }
        lemma_lead_ws_bound(s@);
    }
    let ghost rest = s@.subrange(a as int, s.len() as int);
    assert(rest =~= s@.skip(a as int));
    let mut b: usize = s.len();
    assert(rest.subrange(0, rest.len() as int) =~= rest);
    while b > a && whitespace(s[b - 1])
        invariant
            a <= b <= s.len(),
            rest == s@.subrange(a as int, s.len() as int),
            trail_ws(rest) == (s.len() - b) + trail_ws(rest.subrange(0, b - a)),
        decreases b - a,
    {
        assert(rest.subrange(0, b - a).drop_last() =~= rest.subrange(0, b - a - 1));
        assert(rest.subrange(0, b - a).last() == s@[b - 1]);
        b = b - 1;
    }
    proof {
        if b > a {
            assert(rest.subrange(0, b - a).last() == s@[b - 1]);
        }
        lemma_trail_ws_bound(rest);
    }
    let mut out: Vec<char> = Vec::new();
    let mut k = a;
    while k < b
        invariant
            a <= k <= b,
            b <= s.len(),
            out@ == s@.subrange(a as int, k as int),
        decreases b - k,
    {
        out.push(s[k]);
        k = k + 1;
        assert(out@ =~= s@.subrange(a as int, k as int));
    }
    assert(out@ =~= rest.subrange(0, rest.len() - trail_ws(rest)));
    out
}

/// The pieces of `s` between its `sep` characters, as `str::split(sep)`
/// yields them: one piece more than there are separators.
pub open spec fn split_on(s: Seq<char>, sep: char) -> Seq<Seq<char>>
    decreases s.len(),
{
    if s.len() == 0 {
        seq![Seq::empty()]
    } else {
        let rest = split_on(s.drop_last(), sep);
        if s.last() == sep {
            rest.push(Seq::empty())
        } else {
            rest.update(rest.len() - 1, rest.last().push(s.last()))
        }
    }
}

/// The contents of a vector of character vectors.
pub open spec fn char_views(v: Seq<Vec<char>>) -> Seq<Seq<char>> {
    v.map_values(|x: Vec<char>| x@)
}

/// The contents of a vector of strings.
pub open spec fn string_views(v: Seq<String>) -> Seq<Seq<char>> {
    v.map_values(|x: String| x@)
}

/// Splits `s` at each `sep`.
pub fn split_chars(s: &Vec<char>, sep: char) -> (r: Vec<Vec<char>>)
    ensures
        char_views(r@) == split_on(s@, sep),
{
    let mut done: Vec<Vec<char>> = Vec::new();
    let mut cur: Vec<char> = Vec::new();
    let mut i: usize = 0;
    assert(s@.subrange(0, 0) =~= Seq::<char>::empty());
    assert(char_views(done@).push(cur@) =~= seq![Seq::<char>::empty()]);
    while i < s.len()
        invariant
            i <= s.len(),
            char_views(done@).push(cur@) == split_on(s@.subrange(0, i as int), sep),
        decreases s.len() - i,
    {
        let ghost pre = s@.subrange(0, i as int);
        let ghost next = s@.subrange(0, i + 1);
        assert(next.drop_last() =~= pre);
        assert(next.last() == s@[i as int]);
        if s[i] == sep {
            let ghost old_done = done@;
            done.push(cur);
            assert(char_views(done@) =~= char_views(old_done).push(
                split_on(pre, sep).last(),
            ));
            cur = Vec::new();
            assert(char_views(done@).push(cur@) =~= split_on(pre, sep).push(Seq::empty()));
        } else {
            let ghost old_cur = cur@;
            cur.push(s[i]);
            assert(char_views(done@).push(cur@) =~= split_on(pre, sep).update(
                split_on(pre, sep).len() - 1,
                old_cur.push(s@[i as int]),
            ));
        }
        i = i + 1;
    }
    assert(s@.subrange(0, s.len() as int) =~= s@);
    let ghost old_done = done@;
    done.push(cur);
    assert(char_views(done@) =~= char_views(old_done).push(cur@));
    done
}

/// The value of the decimal digits `s`.
pub open spec fn digits_value(s: Seq<char>) -> nat
    decreases s.len(),
{
    if s.len() == 0 {
        0
    } else {
        digits_value(s.drop_last()) * 10 + ((s.last() as u32) - 48) as nat
    }
}

/// Whether every character of `s` is an ASCII digit.
pub open spec fn all_digits(s: Seq<char>) -> bool {
    forall|i: int| 0 <= i < s.len() ==> '0' <= #[trigger] s[i] <= '9'
}

/// The number that `str::parse` reads from `s` for an unsigned type, before
/// the type's range is checked: an optional `+` followed by one or more
/// ASCII digits; `None` for anything else.
pub open spec fn parse_unsigned(s: Seq<char>) -> Option<nat> {
    let body = if s.len() > 0 && s[0] == '+' {
        s.drop_first()
    } else {
        s
    };
    if body.len() > 0 && all_digits(body) {
        Some(digits_value(body))
    } else {
        None
    }
}

/// The decimal notation of `n` is digits whose value is `n`.
pub proof fn lemma_dec_value(n: nat)
    ensures
        dec(n).len() >= 1,
        all_digits(dec(n)),
        digits_value(dec(n)) == n,
    decreases n,
{
    if n < 10 {
        let d = dec(n);
        assert(digit_char(n) as u32 == n + 48);
        assert(d.drop_last() =~= Seq::<char>::empty());
        assert(d.last() == digit_char(n));
        assert(digits_value(d.drop_last()) == 0);
        assert(digits_value(d) == digits_value(d.drop_last()) * 10 + ((d.last() as u32) - 48) as nat);
    } else {
        lemma_dec_value(n / 10);
        let d = dec(n);
        assert(d.drop_last() =~= dec(n / 10));
        assert(digit_char(n % 10) as u32 == n % 10 + 48);
        assert(d.last() == digit_char(n % 10));
        assert((n / 10) * 10 + n % 10 == n) by (nonlinear_arith);
        assert(digits_value(d) == digits_value(d.drop_last()) * 10 + ((d.last() as u32) - 48) as nat);
        assert(all_digits(d)) by {
            assert forall|i: int| 0 <= i < d.len() implies '0' <= #[trigger] d[i] <= '9' by {
                if i < d.len() - 1 {
                    assert(d[i] == dec(n / 10)[i]);
                }
            }
        }
    }
}

/// Different numbers have different decimal notations.
pub proof fn lemma_dec_signed_injective(a: int, b: int)
    requires
        a != b,
    ensures
        dec_signed(a) != dec_signed(b),
{
    let na = if a < 0 { -a } else { a };
    let nb = if b < 0 { -b } else { b };
    lemma_dec_value(na as nat);
    lemma_dec_value(nb as nat);
    if a < 0 && b < 0 {
        if dec_signed(a) == dec_signed(b) {
            assert(dec_signed(a).drop_first() =~= dec(na as nat));
            assert(dec_signed(b).drop_first() =~= dec(nb as nat));
        }
    } else if a < 0 {
        assert(dec_signed(a)[0] == '-');
        assert('0' <= dec(nb as nat)[0] <= '9');
    } else if b < 0 {
        assert(dec_signed(b)[0] == '-');
        assert('0' <= dec(na as nat)[0] <= '9');
    }
}

proof fn lemma_digits_prefix_le(s: Seq<char>, k: int)
    requires
        0 <= k <= s.len(),
        all_digits(s),
    ensures
        digits_value(s.subrange(0, k)) <= digits_value(s),
    decreases s.len(),
{
    if k < s.len() {
        assert(s.drop_last().subrange(0, k) =~= s.subrange(0, k));
        assert(all_digits(s.drop_last()));
        lemma_digits_prefix_le(s.drop_last(), k);
    } else {
        assert(s.subrange(0, k) =~= s);
    }
}

/// Reads an unsigned number as `str::parse::<u64>` does: `None` when `s`
/// is not an optional `+` and digits, or the number exceeds `max`.
pub fn parse_unsigned_max(s: &str, max: u64) -> (r: Option<u64>)
    ensures
        match r {
            Some(v) => parse_unsigned(s@) == Some(v as nat) && v <= max,
            None => parse_unsigned(s@) is None || parse_unsigned(s@)->0 > max,
        },
{
    let v = chars_of(s);
    let mut i: usize = 0;
    if v.len() > 0 && v[0] == '+' {
        i = 1;
    }
    let ghost body = if s@.len() > 0 && s@[0] == '+' {
        s@.drop_first()
    } else {
        s@
    };
    assert(body =~= v@.subrange(i as int, v.len() as int));
    if i >= v.len() {
        return None;
    }
    let start = i;
    let mut n: u64 = 0;
    while i < v.len()
        invariant
            start <= i <= v.len(),
            start < v.len(),
            v@ == s@,
            body == (if s@.len() > 0 && s@[0] == '+' {
                s@.drop_first()
            } else {
                s@
            }),
            body == v@.subrange(start as int, v.len() as int),
            all_digits(v@.subrange(start as int, i as int)),
            n == digits_value(v@.subrange(start as int, i as int)),
            n <= max,
        decreases v.len() - i,
    {
        let c = v[i];
        let ghost pre = v@.subrange(start as int, i as int);
        let ghost next = v@.subrange(start as int, i + 1);
        assert(next.drop_last() =~= pre);
        if c < '0' || c > '9' {
            assert(body[i - start] == c);
            return None;
        }
        let d: u64 = (c as u32 - 48) as u64;
        assert(all_digits(next));
        if d > max || n > (max - d) / 10 {
            proof {
                assert(digits_value(next) == n * 10 + d);
                if d <= max {
                    assert(n * 10 + d > max) by (nonlinear_arith)
                        requires
                            n > (max - d) / 10,
                            d <= max,
                    ;
                }
            }
            proof {
                let k = (i + 1 - start) as int;
                assert(next =~= body.subrange(0, k));
                let tail_ok = all_digits(body);
                if tail_ok {
                    lemma_digits_prefix_le(body, k);
                }
            }
            return None;
        }
        proof {
            assert(n * 10 + d <= max) by (nonlinear_arith)
                requires
                    n <= (max - d) / 10,
                    d <= max,
            ;
        }
        n = n * 10 + d;
        i = i + 1;
    }
    Some(n)
}

} // verus!
