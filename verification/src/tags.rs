//! The tag lists the player offers: the tags linked from a Bandcamp page,
//! the genres, sub-genres and locations of the discover page, and the tag
//! list kept in the cache file.
use vstd::prelude::*;

use crate::album_parsing::{regex_capture_named, Pattern};
use crate::model::{Data, InitialState};
use crate::tag_order::{
    chars_lt, lemma_char_views_push, lemma_contains_push, lemma_string_views_push,
    sorted_distinct, strictly_sorted,
};
use crate::text::{
    char_views, chars_of, matches_at, occurs_at, replace_all, replace_chars, split_chars, split_on,
    string_from_chars, string_views,
};

verus! {

broadcast use vstd::string::group_string_axioms;

// ---------------------------------------------------------------------------
// What the outside crates and std compute.

/// Whether `scraper::Selector::parse` accepts the CSS selector `sel`.
pub uninterp spec fn css_selector_parses(sel: Seq<char>) -> bool;

/// For each element of the HTML fragment `html` that the CSS selector `sel`
/// matches, in the order `scraper`'s `select` yields them, the value of its
/// attribute `attr`, if it has one.
pub uninterp spec fn selected_attrs(html: Seq<char>, sel: Seq<char>, attr: Seq<char>) -> Seq<
    Option<Seq<char>>,
>;

/// The characters `char::to_uppercase` yields for `c`.
pub uninterp spec fn uppercase_of(c: char) -> Seq<char>;

/// Whether `char::is_alphanumeric` holds of `c`.
pub uninterp spec fn is_alnum(c: char) -> bool;

/// The contents of a vector of optional strings.
pub open spec fn opt_views(v: Seq<Option<String>>) -> Seq<Option<Seq<char>>> {
    v.map_values(
        |o: Option<String>|
            match o {
                Some(s) => Some(s@),
                None => None,
            },
    )
}

/// Trusted: parses `html` with `scraper::Html::parse_fragment`, compiles
/// `sel` with `scraper::Selector::parse`, and gives, for each element that
/// `Html::select` yields, `ElementRef::value().attr(attr)`. `None` exactly
/// when the selector is refused (`css_selector_parses`); otherwise the
/// values, which depend on the three strings alone, are `selected_attrs`.
#[verifier::external_body]
fn select_attrs(html: &str, sel: &str, attr: &str) -> (r: Option<Vec<Option<String>>>)
    ensures
        r is Some <==> css_selector_parses(sel@),
        r matches Some(v) ==> opt_views(v@) == selected_attrs(html@, sel@, attr@),
{
    let selector = scraper::Selector::parse(sel).ok()?;
    let fragment = scraper::Html::parse_fragment(html);
    Some(fragment.select(&selector).map(|el| el.value().attr(attr).map(String::from)).collect())
}

/// Trusted: collects `char::to_uppercase(c)`. Its documentation: the
/// uppercase mapping of `c`, one or more characters, or `c` itself when it
/// has none; for ASCII that is `a`..`z` to `A`..`Z` and every other
/// character unchanged.
#[verifier::external_body]
fn uppercase(c: char) -> (r: Vec<char>)
    ensures
        r@ == uppercase_of(c),
        'a' <= c <= 'z' ==> r@.len() == 1 && r@[0] as int == c as int - 32,
        (c as int) < 128 && !('a' <= c <= 'z') ==> r@ == seq![c],
{
    c.to_uppercase().collect()
}

/// Trusted: `char::is_alphanumeric(c)`, the Unicode `Alphabetic` property
/// or a numeric category; of the ASCII characters exactly the letters and
/// digits have it.
#[verifier::external_body]
fn alphanumeric(c: char) -> (r: bool)
    ensures
        r == is_alnum(c),
        (c as int) < 128 ==> (r <==> ('a' <= c <= 'z' || 'A' <= c <= 'Z' || '0' <= c <= '9')),
{
    c.is_alphanumeric()
}

// ---------------------------------------------------------------------------
// Tags from the links of a page.

/// Where the links to tag pages begin.
pub open spec fn tag_prefix() -> Seq<char> {
    "/tag/"@
}

/// The tag names that the links `hrefs` point to, in order: each link that
/// begins with `/tag/`, with every `/tag/` in it removed.
pub open spec fn tag_names(hrefs: Seq<Option<Seq<char>>>) -> Seq<Seq<char>>
    decreases hrefs.len(),
{
    if hrefs.len() == 0 {
        Seq::empty()
    } else {
        let rest = tag_names(hrefs.drop_last());
        match hrefs.last() {
            Some(h) => if occurs_at(h, tag_prefix(), 0) {
                rest.push(replace_all(h, tag_prefix(), Seq::empty()))
            } else {
                rest
            },
            None => rest,
        }
    }
}

/// The tag names linked from the page `html`: none when the `a` selector
/// is refused.
pub open spec fn page_tag_names_spec(html: Seq<char>) -> Seq<Seq<char>> {
    if css_selector_parses("a"@) {
        tag_names(selected_attrs(html, "a"@, "href"@))
    } else {
        Seq::empty()
    }
}

/// The names of the tags that the page `html` links to, in page order.
pub fn page_tag_names(html: &str) -> (r: Vec<String>)
    ensures
        string_views(r@) == page_tag_names_spec(html@),
{
    let r = page_tag_chars(html);
    to_strings(r)
}

fn page_tag_chars(html: &str) -> (r: Vec<Vec<char>>)
    ensures
        char_views(r@) == page_tag_names_spec(html@),
{
    let hrefs = match select_attrs(html, "a", "href") {
        Some(h) => h,
        None => {
            assert(char_views(Seq::<Vec<char>>::empty()) =~= Seq::<Seq<char>>::empty());
            return Vec::new();
        },
    };
    proof {
        reveal_strlit("/tag/");
    }
    let prefix = chars_of("/tag/");
    let nothing: Vec<char> = Vec::new();
    let mut out: Vec<Vec<char>> = Vec::new();
    let mut i: usize = 0;
    while i < hrefs.len()
        invariant
            i <= hrefs.len(),
            prefix@ == tag_prefix(),
            prefix@.len() == 5,
            nothing@ == Seq::<char>::empty(),
            char_views(out@) == tag_names(opt_views(hrefs@).subrange(0, i as int)),
        decreases hrefs.len() - i,
    {
        let ghost hv = opt_views(hrefs@);
        assert(hv.subrange(0, i + 1).drop_last() =~= hv.subrange(0, i as int));
        match &hrefs[i] {
            Some(h) => {
                let hc = chars_of(h.as_str());
                if prefix.len() <= hc.len() && matches_at(&hc, &prefix, 0) {
                    let name = replace_chars(&hc, &prefix, &nothing);
                    proof {
                        lemma_char_views_push(out@, name);
                    }
                    out.push(name);
                }
            },
            None => {},
        }
        i = i + 1;
    }
    assert(opt_views(hrefs@).subrange(0, hrefs.len() as int) =~= opt_views(hrefs@));
    out
}

/// Turns character vectors into strings.
fn to_strings(v: Vec<Vec<char>>) -> (r: Vec<String>)
    ensures
        string_views(r@) == char_views(v@),
{
    let mut r: Vec<String> = Vec::new();
    let mut i: usize = 0;
    while i < v.len()
        invariant
            i <= v.len(),
            string_views(r@) == char_views(v@).subrange(0, i as int),
        decreases v.len() - i,
    {
        let s = string_from_chars(v[i].as_slice());
        proof {
            lemma_string_views_push(r@, s);
            assert(char_views(v@).subrange(0, i + 1) =~= char_views(v@).subrange(0, i as int).push(
                v@[i as int]@,
            ));
        }
        r.push(s);
        i = i + 1;
    }
    assert(char_views(v@).subrange(0, v.len() as int) =~= char_views(v@));
    r
}

/// Turns strings into character vectors.
fn to_chars(v: &Vec<String>) -> (r: Vec<Vec<char>>)
    ensures
        char_views(r@) == string_views(v@),
{
    let mut r: Vec<Vec<char>> = Vec::new();
    let mut i: usize = 0;
    while i < v.len()
        invariant
            i <= v.len(),
            char_views(r@) == string_views(v@).subrange(0, i as int),
        decreases v.len() - i,
    {
        let c = chars_of(v[i].as_str());
        proof {
            lemma_char_views_push(r@, c);
            assert(string_views(v@).subrange(0, i + 1) =~= string_views(v@).subrange(
                0,
                i as int,
            ).push(v@[i as int]@));
        }
        r.push(c);
        i = i + 1;
    }
    assert(string_views(v@).subrange(0, v.len() as int) =~= string_views(v@));
    r
}

/// The names of the tags that the page `html` links to, sorted, each once.
pub fn sorted_page_tags(html: &str) -> (r: Vec<String>)
    ensures
        strictly_sorted(string_views(r@)),
        forall|x: Seq<char>|
            #![trigger string_views(r@).contains(x)]
            #![trigger page_tag_names_spec(html@).contains(x)]
            string_views(r@).contains(x) <==> page_tag_names_spec(html@).contains(x),
{
    let names = page_tag_chars(html);
    let sorted = sorted_distinct(names);
    to_strings(sorted)
}

// ---------------------------------------------------------------------------
// Capitalised, alphanumeric tag lists.

/// `s` with its first character upper-cased.
pub open spec fn capitalized(s: Seq<char>) -> Seq<char> {
    if s.len() == 0 {
        s
    } else {
        uppercase_of(s[0]) + s.drop_first()
    }
}

/// Whether a tag is kept in a tag list: it is not empty and all of its
/// characters are alphanumeric.
pub open spec fn tag_kept(s: Seq<char>) -> bool {
    s.len() > 0 && forall|i: int| 0 <= i < s.len() ==> is_alnum(#[trigger] s[i])
}

/// Whether `r` is the tag list made of the candidates `cands`: sorted, each
/// tag once, and holding exactly the candidates that are kept.
pub open spec fn tag_list_of(cands: Seq<Seq<char>>, r: Seq<Seq<char>>) -> bool {
    &&& strictly_sorted(r)
    &&& forall|x: Seq<char>|
        #![trigger r.contains(x)]
        #![trigger cands.contains(x)]
        r.contains(x) <==> (cands.contains(x) && tag_kept(x))
}

/// Each string of `s` capitalised.
pub open spec fn capitalized_all(s: Seq<Seq<char>>) -> Seq<Seq<char>> {
    s.map_values(|x: Seq<char>| capitalized(x))
}

proof fn lemma_capitalized_all_push(s: Seq<Seq<char>>, x: Seq<char>)
    ensures
        capitalized_all(s.push(x)) == capitalized_all(s).push(capitalized(x)),
{
    assert(capitalized_all(s.push(x)) =~= capitalized_all(s).push(capitalized(x)));
}

/// Upper-cases the first character of `s`.
fn capitalize(s: &Vec<char>) -> (r: Vec<char>)
    ensures
        r@ == capitalized(s@),
{
    if s.len() == 0 {
        return Vec::new();
    }
    let mut r = uppercase(s[0]);
    let ghost head = r@;
    let mut i: usize = 1;
    while i < s.len()
        invariant
            1 <= i <= s.len(),
            r@ == head + s@.subrange(1, i as int),
        decreases s.len() - i,
    {
        r.push(s[i]);
        assert(r@ =~= head + s@.subrange(1, i + 1));
        i = i + 1;
    }
    assert(s@.subrange(1, s.len() as int) =~= s@.drop_first());
    r
}

/// Whether `s` is kept in a tag list.
fn keeps(s: &Vec<char>) -> (r: bool)
    ensures
        r == tag_kept(s@),
{
    if s.len() == 0 {
        return false;
    }
    let mut i: usize = 0;
    while i < s.len()
        invariant
            i <= s.len(),
            forall|j: int| 0 <= j < i ==> is_alnum(#[trigger] s@[j]),
        decreases s.len() - i,
    {
        if !alphanumeric(s[i]) {
            return false;
        }
        i = i + 1;
    }
    true
}

/// The strings of the strictly sorted `v` that are kept in a tag list.
fn keep_tags(v: Vec<Vec<char>>) -> (r: Vec<Vec<char>>)
    requires
        strictly_sorted(char_views(v@)),
    ensures
        strictly_sorted(char_views(r@)),
        forall|x: Seq<char>|
            #![trigger char_views(r@).contains(x)]
            #![trigger char_views(v@).contains(x)]
            char_views(r@).contains(x) <==> (char_views(v@).contains(x) && tag_kept(x)),
{
    let ghost vv = char_views(v@);
    let mut r: Vec<Vec<char>> = Vec::new();
    // `from[k]` is the index in `v` of `r[k]`.
    let ghost mut from: Seq<int> = Seq::empty();
    let mut i: usize = 0;
    while i < v.len()
        invariant
            i <= v.len(),
            vv == char_views(v@),
            strictly_sorted(vv),
            strictly_sorted(char_views(r@)),
            from.len() == r@.len(),
            forall|k: int|
                0 <= k < from.len() ==> 0 <= #[trigger] from[k] < i && char_views(r@)[k]
                    == vv[from[k]],
            forall|x: Seq<char>|
                #![trigger char_views(r@).contains(x)]
                #![trigger vv.subrange(0, i as int).contains(x)]
                char_views(r@).contains(x) <==> (vv.subrange(0, i as int).contains(x)
                    && tag_kept(x)),
        decreases v.len() - i,
    {
        let ghost before = char_views(r@);
        let ghost at = i as int;
        proof {
            assert(vv.subrange(0, at + 1) =~= vv.subrange(0, at).push(vv[at]));
            assert(vv[at] == v@[at]@);
        }
        let kept = keeps(&v[i]);
        if kept {
            let c = copy_chars(&v[i]);
            proof {
                lemma_char_views_push(r@, c);
            }
            r.push(c);
            proof {
                let now = char_views(r@);
                assert forall|p: int, q: int| 0 <= p < q < now.len() implies chars_lt(
                    #[trigger] now[p],
                    #[trigger] now[q],
                ) by {
                    if q == now.len() - 1 {
                        assert(before[p] == vv[from[p]]);
                        assert(chars_lt(vv[from[p]], vv[at]));
                    } else {
                        assert(now[p] == before[p] && now[q] == before[q]);
                    }
                }
                from = from.push(at);
            }
        }
        i = i + 1;
        proof {
            assert forall|x: Seq<char>|
                #![trigger char_views(r@).contains(x)]
                #![trigger vv.subrange(0, i as int).contains(x)]
                char_views(r@).contains(x) <==> (vv.subrange(0, i as int).contains(x) && tag_kept(
                    x,
                )) by {
                lemma_contains_push(vv.subrange(0, at), vv[at], x);
                assert(before.contains(x) <==> (vv.subrange(0, at).contains(x) && tag_kept(x)));
                if kept {
                    lemma_contains_push(before, vv[at], x);
                }
            }
        }
    }
    assert(vv.subrange(0, v.len() as int) =~= vv);
    assert forall|x: Seq<char>|
        char_views(r@).contains(x) <==> (char_views(v@).contains(x) && tag_kept(x)) by {
        assert(char_views(r@).contains(x) <==> (vv.subrange(0, v.len() as int).contains(x)
            && tag_kept(x)));
    }
    r
}

/// A copy of `s`.
fn copy_chars(s: &Vec<char>) -> (r: Vec<char>)
    ensures
        r@ == s@,
{
    let mut r: Vec<char> = Vec::new();
    let mut i: usize = 0;
    while i < s.len()
        invariant
            i <= s.len(),
            r@ == s@.subrange(0, i as int),
        decreases s.len() - i,
    {
        r.push(s[i]);
        assert(r@ =~= s@.subrange(0, i + 1));
        i = i + 1;
    }
    assert(s@.subrange(0, s.len() as int) =~= s@);
    r
}

/// Capitalises each candidate, sorts them, drops repeats and keeps the
/// alphanumeric ones.
fn tag_list(cands: Vec<Vec<char>>) -> (r: Vec<String>)
    ensures
        tag_list_of(capitalized_all(char_views(cands@)), string_views(r@)),
{
    let ghost cv = char_views(cands@);
    let mut caps: Vec<Vec<char>> = Vec::new();
    let mut i: usize = 0;
    while i < cands.len()
        invariant
            i <= cands.len(),
            cv == char_views(cands@),
            char_views(caps@) == capitalized_all(cv.subrange(0, i as int)),
        decreases cands.len() - i,
    {
        let c = capitalize(&cands[i]);
        proof {
            lemma_char_views_push(caps@, c);
            assert(cv.subrange(0, i + 1) =~= cv.subrange(0, i as int).push(cands@[i as int]@));
            lemma_capitalized_all_push(cv.subrange(0, i as int), cands@[i as int]@);
        }
        caps.push(c);
        i = i + 1;
    }
    assert(cv.subrange(0, cands.len() as int) =~= cv);
    let sorted = sorted_distinct(caps);
    let ghost sv = char_views(sorted@);
    let kept = keep_tags(sorted);
    let r = to_strings(kept);
    assert forall|x: Seq<char>|
        string_views(r@).contains(x) <==> (capitalized_all(cv).contains(x) && tag_kept(x)) by {
        assert(char_views(kept@).contains(x) <==> (sv.contains(x) && tag_kept(x)));
        assert(sv.contains(x) <==> char_views(caps@).contains(x));
    }
    r
}

/// The capitalised, alphanumeric tags that the page `html` links to,
/// sorted, each once.
pub fn dig_deeper_tags(html: &str) -> (r: Vec<String>)
    ensures
        tag_list_of(
            capitalized_all(page_tag_names_spec(html@)),
            string_views(r@),
        ),
{
    let names = page_tag_chars(html);
    tag_list(names)
}

// ---------------------------------------------------------------------------
// Tags from the discover page.

/// The labels of the entries of `d` whose id is at least `min`, in order.
pub open spec fn labels_from(d: Seq<Data>, min: int) -> Seq<Seq<char>>
    decreases d.len(),
{
    if d.len() == 0 {
        Seq::empty()
    } else if d.last().id >= min {
        labels_from(d.drop_last(), min).push(d.last().label@)
    } else {
        labels_from(d.drop_last(), min)
    }
}

/// The tag candidates of the discover page: its genres but "all genres"
/// (id 0), its sub-genres but the "all ..." entries (negative ids), and its
/// locations but "from anywhere" (id 0).
pub open spec fn discover_candidates(st: InitialState) -> Seq<Seq<char>> {
    labels_from(st.genres@, 1) + labels_from(st.subgenres@, 0) + labels_from(st.locations@, 1)
}

/// Appends the labels of the entries of `d` whose id is at least `min`.
fn push_labels(out: &mut Vec<Vec<char>>, d: &Vec<Data>, min: i32)
    ensures
        char_views(final(out)@) == char_views(old(out)@) + labels_from(d@, min as int),
{
    let ghost start = char_views(out@);
    let mut i: usize = 0;
    while i < d.len()
        invariant
            i <= d.len(),
            char_views(out@) == start + labels_from(d@.subrange(0, i as int), min as int),
        decreases d.len() - i,
    {
        assert(d@.subrange(0, i + 1).drop_last() =~= d@.subrange(0, i as int));
        if d[i].id >= min {
            let c = chars_of(d[i].label.as_str());
            proof {
                lemma_char_views_push(out@, c);
            }
            out.push(c);
            assert(char_views(out@) =~= start + labels_from(d@.subrange(0, i + 1), min as int));
        }
        i = i + 1;
    }
    assert(d@.subrange(0, d.len() as int) =~= d@);
}

/// The tag list of the discover page whose state is `st`: its genres,
/// sub-genres and locations, capitalised, sorted, each once, alphanumeric.
pub fn discover_tags(st: &InitialState) -> (r: Vec<String>)
    ensures
        tag_list_of(
            capitalized_all(discover_candidates(*st)),
            string_views(r@),
        ),
{
    let mut cands: Vec<Vec<char>> = Vec::new();
    assert(char_views(cands@) =~= Seq::<Seq<char>>::empty());
    push_labels(&mut cands, &st.genres, 1);
    push_labels(&mut cands, &st.subgenres, 0);
    push_labels(&mut cands, &st.locations, 1);
    assert(char_views(cands@) =~= discover_candidates(*st));
    tag_list(cands)
}

/// Finds the discover page's state, as JSON, in the page `html`.
pub open spec fn discover_blob_pattern() -> Seq<char> {
    "<div[\\n\\s]+id=\"DiscoverApp\"[\\n\\s]+data-blob=\"(?P<data>.+?)\"[\\n\\s]*><"@
}

/// What `discover_blob` returns for the page `html`: the `data-blob`
/// attribute of the `DiscoverApp` element with `&quot;` turned into quotes;
/// `None` when the page has none (or the pattern does not compile).
pub open spec fn discover_blob_spec(html: Seq<char>) -> Option<Seq<char>> {
    if crate::album_parsing::regex_compiles(discover_blob_pattern()) {
        match regex_capture_named(discover_blob_pattern(), html, "data"@) {
            Some(d) => Some(replace_all(d, "&quot;"@, "\""@)),
            None => None,
        }
    } else {
        None
    }
}

/// The JSON state that the discover page `html` carries.
pub fn discover_blob(html: &str) -> (r: Option<String>)
    ensures
        match r {
            Some(s) => discover_blob_spec(html@) == Some(s@),
            None => discover_blob_spec(html@) is None,
        },
{
    let p = Pattern::new(
        "<div[\\n\\s]+id=\"DiscoverApp\"[\\n\\s]+data-blob=\"(?P<data>.+?)\"[\\n\\s]*><",
    )?;
    let data = p.capture_named(html, "data")?;
    let d = chars_of(data.as_str());
    proof {
        reveal_strlit("&quot;");
    }
    let quot = chars_of("&quot;");
    let dq = chars_of("\"");
    let out = replace_chars(&d, &quot, &dq);
    Some(string_from_chars(out.as_slice()))
}

// ---------------------------------------------------------------------------
// The cache file.

/// The tags joined into the text of the cache file, separated by `\n`.
pub open spec fn join_lines(t: Seq<Seq<char>>) -> Seq<char>
    decreases t.len(),
{
    if t.len() == 0 {
        Seq::empty()
    } else if t.len() == 1 {
        t[0]
    } else {
        join_lines(t.drop_last()) + seq!['\n'] + t.last()
    }
}

/// The lines of `s`, as `str::split('\n')` yields them.
pub open spec fn split_lines(s: Seq<char>) -> Seq<Seq<char>> {
    split_on(s, '\n')
}

/// Whether `s` holds no line break.
pub open spec fn no_newline(s: Seq<char>) -> bool {
    forall|i: int| 0 <= i < s.len() ==> #[trigger] s[i] != '\n'
}

proof fn lemma_split_nonempty(s: Seq<char>)
    ensures
        split_lines(s).len() >= 1,
    decreases s.len(),
{
    if s.len() > 0 {
        lemma_split_nonempty(s.drop_last());
    }
}

/// Appending text without line breaks extends the last piece.
proof fn lemma_split_plain(x: Seq<char>, b: Seq<char>)
    requires
        no_newline(b),
    ensures
        split_lines(x + b) == split_lines(x).update(
            split_lines(x).len() - 1,
            split_lines(x).last() + b,
        ),
    decreases b.len(),
{
    lemma_split_nonempty(x);
    let sx = split_lines(x);
    if b.len() == 0 {
        assert(x + b =~= x);
        assert(sx.last() + b =~= sx.last());
        assert(sx.update(sx.len() - 1, sx.last()) =~= sx);
    } else {
        let b0 = b.drop_last();
        assert(no_newline(b0));
        lemma_split_plain(x, b0);
        assert((x + b).drop_last() =~= x + b0);
        assert((x + b).last() == b.last());
        assert(b.last() == b[b.len() - 1]);
        let mid = sx.update(sx.len() - 1, sx.last() + b0);
        assert(mid.last() == sx.last() + b0);
        assert((sx.last() + b0).push(b.last()) =~= sx.last() + b);
        assert(mid.update(mid.len() - 1, mid.last().push(b.last())) =~= sx.update(
            sx.len() - 1,
            sx.last() + b,
        ));
    }
}

/// A tag list written to the cache reads back as written, provided it holds
/// at least one tag and no tag holds a line break.
pub proof fn lemma_cache_roundtrip(t: Seq<Seq<char>>)
    requires
        t.len() > 0,
        forall|i: int| 0 <= i < t.len() ==> no_newline(#[trigger] t[i]),
    ensures
        split_lines(join_lines(t)) == t,
    decreases t.len(),
{
    if t.len() == 1 {
        let e = Seq::<char>::empty();
        assert(e + t[0] =~= t[0]);
        lemma_split_plain(e, t[0]);
        assert(split_lines(e) == seq![e]);
        assert(seq![e].update(0, e + t[0]) =~= t);
    } else {
        let t0 = t.drop_last();
        assert forall|i: int| 0 <= i < t0.len() implies no_newline(#[trigger] t0[i]) by {
            assert(t0[i] == t[i]);
        }
        lemma_cache_roundtrip(t0);
        let j = join_lines(t0);
        let jn = j + seq!['\n'];
        assert(jn.drop_last() =~= j);
        assert(split_lines(jn) == t0.push(Seq::empty()));
        assert(no_newline(t.last())) by {
            assert(t.last() == t[t.len() - 1]);
        }
        lemma_split_plain(jn, t.last());
        assert(join_lines(t) == jn + t.last());
        assert(Seq::<char>::empty() + t.last() =~= t.last());
        assert(t0.push(Seq::empty()).update(t0.len() as int, Seq::<char>::empty() + t.last())
            =~= t);
    }
}

/// The text of the cache file for the tag list `tags`.
pub fn cache_text(tags: &Vec<String>) -> (r: String)
    ensures
        r@ == join_lines(string_views(tags@)),
{
    let ghost tv = string_views(tags@);
    let mut out: Vec<char> = Vec::new();
    let mut i: usize = 0;
    while i < tags.len()
        invariant
            i <= tags.len(),
            tv == string_views(tags@),
            out@ == join_lines(tv.subrange(0, i as int)),
        decreases tags.len() - i,
    {
        let ghost before = out@;
        let t = chars_of(tags[i].as_str());
        if i > 0 {
            out.push('\n');
        }
        let mut k: usize = 0;
        while k < t.len()
            invariant
                k <= t.len(),
                out@ == (if i > 0 {
                    before + seq!['\n']
                } else {
                    before
                }) + t@.subrange(0, k as int),
            decreases t.len() - k,
        {
            out.push(t[k]);
            assert(out@ =~= (if i > 0 {
                before + seq!['\n']
            } else {
                before
            }) + t@.subrange(0, k + 1));
            k = k + 1;
        }
        proof {
            let s1 = tv.subrange(0, i + 1);
            assert(s1.drop_last() =~= tv.subrange(0, i as int));
            assert(t@.subrange(0, t.len() as int) =~= t@);
            assert(tv[i as int] == t@);
            if i == 0 {
                assert(before =~= Seq::<char>::empty());
                assert(out@ =~= s1[0]);
            } else {
                assert(out@ =~= join_lines(s1.drop_last()) + seq!['\n'] + s1.last());
            }
        }
        i = i + 1;
    }
    assert(tv.subrange(0, tags.len() as int) =~= tv);
    string_from_chars(out.as_slice())
}

/// The tag list that the cache file `text` holds: its lines.
pub fn tags_from_cache(text: &str) -> (r: Vec<String>)
    ensures
        string_views(r@) == split_lines(text@),
{
    let s = chars_of(text);
    let pieces = split_chars(&s, '\n');
    to_strings(pieces)
}

/// Whether `name` is the tag name that link `j` of `hs` gives: the link
/// begins with `/tag/`, and `name` is the link with every `/tag/` removed.
pub open spec fn tag_link_name(hs: Seq<Option<Seq<char>>>, j: int, name: Seq<char>) -> bool {
    &&& 0 <= j < hs.len()
    &&& hs[j] matches Some(h) && h.len() >= 5 && h.subrange(0, 5) == "/tag/"@ && name
        == replace_all(h, "/tag/"@, Seq::empty())
}

/// Whether `name` is the tag name of some link of `hs`.
pub open spec fn named_by_a_link(hs: Seq<Option<Seq<char>>>, name: Seq<char>) -> bool {
    exists|j: int| tag_link_name(hs, j, name)
}

/// Every tag name taken from a page comes from a link that begins with
/// `/tag/`; a link that does not begin so gives none.
pub proof fn lemma_tag_names_from_tag_links(hs: Seq<Option<Seq<char>>>)
    ensures
        tag_names(hs).len() <= hs.len(),
        forall|i: int| 0 <= i < tag_names(hs).len() ==> named_by_a_link(hs, #[trigger] tag_names(hs)[i]),
    decreases hs.len(),
{
    reveal_strlit("/tag/");
    if hs.len() > 0 {
        let p = hs.drop_last();
        lemma_tag_names_from_tag_links(p);
        let rest = tag_names(p);
        assert forall|i: int| 0 <= i < tag_names(hs).len() implies named_by_a_link(
            hs,
            #[trigger] tag_names(hs)[i],
        ) by {
            if i < rest.len() {
                assert(tag_names(hs)[i] == rest[i]);
                assert(named_by_a_link(p, rest[i]));
                let j = choose|j: int| tag_link_name(p, j, rest[i]);
                assert(hs[j] == p[j]);
                assert(tag_link_name(hs, j, tag_names(hs)[i]));
            } else {
                assert(hs[hs.len() - 1] == hs.last());
                assert(tag_link_name(hs, hs.len() - 1, tag_names(hs)[i]));
            }
        }
    }
}

/// Every link that begins with `/tag/` gives its tag name.
pub proof fn lemma_tag_links_give_names(hs: Seq<Option<Seq<char>>>, j: int)
    requires
        0 <= j < hs.len(),
        hs[j] matches Some(h) && h.len() >= 5 && h.subrange(0, 5) == "/tag/"@,
    ensures
        tag_names(hs).contains(replace_all(hs[j]->0, "/tag/"@, Seq::empty())),
    decreases hs.len(),
{
    reveal_strlit("/tag/");
    let p = hs.drop_last();
    let name = replace_all(hs[j]->0, "/tag/"@, Seq::empty());
    if j < hs.len() - 1 {
        assert(p[j] == hs[j]);
        lemma_tag_links_give_names(p, j);
        let k = choose|k: int| 0 <= k < tag_names(p).len() && tag_names(p)[k] == name;
        assert(tag_names(hs)[k] == name);
    } else {
        assert(hs.last() == hs[j]);
        assert(occurs_at(hs[j]->0, tag_prefix(), 0));
        assert(tag_names(hs)[tag_names(p).len() as int] == name);
    }
}

} // verus!
