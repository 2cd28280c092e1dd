//! Extraction of the album JSON that a Bandcamp album page embeds, and the
//! regex clean-up that turns Bandcamp's JavaScript object literal into JSON.
use vstd::prelude::*;

use crate::text::{
    chars_of, find_chars, find_first, replace_all, replace_chars, string_from_chars,
};

verus! {

broadcast use vstd::string::group_string_axioms;

/// Declares `regex::Regex` so that it can be carried through verified code.
#[verifier::external_type_specification]
#[verifier::external_body]
pub struct ExRegex(regex::Regex);

/// Whether `regex::Regex::new` accepts `pattern`.
pub uninterp spec fn regex_compiles(pattern: Seq<char>) -> bool;

/// What `regex::Regex::replace_all` returns for a regex compiled from
/// `pattern`, applied to `text` with the replacement template `rep`.
pub uninterp spec fn regex_replace_all(pattern: Seq<char>, text: Seq<char>, rep: Seq<char>) -> Seq<
    char,
>;

/// What `regex::Regex::replace` (first match only) returns for a regex
/// compiled from `pattern`, applied to `text` with the template `rep`.
pub uninterp spec fn regex_replace_first(pattern: Seq<char>, text: Seq<char>, rep: Seq<char>) -> Seq<
    char,
>;

/// What `regex::Captures::name(group)` holds for the first match of the
/// regex compiled from `pattern` in `text`; `None` when there is no match or
/// the group took no part in it.
pub uninterp spec fn regex_capture_named(pattern: Seq<char>, text: Seq<char>, group: Seq<char>) -> Option<
    Seq<char>,
>;

/// Trusted: calls `regex::Regex::new(pattern)`. Its documentation says it
/// errs exactly on patterns it rejects (syntax or size limit), which depends
/// on the pattern alone; the contract names that outcome `regex_compiles`.
#[verifier::external_body]
fn compile_regex(pattern: &str) -> (r: Option<regex::Regex>)
    ensures
        r is Some <==> regex_compiles(pattern@),
{
    match regex::Regex::new(pattern) {
        Ok(re) => Some(re),
        Err(_) => None,
    }
}

/// A compiled regular expression together with the pattern it came from.
pub struct Pattern {
    re: regex::Regex,
    pattern: Ghost<Seq<char>>,
}

impl View for Pattern {
    type V = Seq<char>;

    /// The pattern the regex was compiled from.
    closed spec fn view(&self) -> Seq<char> {
        self.pattern@
    }
}

impl Pattern {
    /// Compiles `pattern`; `None` when the regex crate rejects it.
    pub fn new(pattern: &str) -> (r: Option<Pattern>)
        ensures
            r is Some <==> regex_compiles(pattern@),
            r matches Some(p) ==> p@ == pattern@,
    {
        match compile_regex(pattern) {
            Some(re) => Some(Pattern { re, pattern: Ghost(pattern@) }),
            None => None,
        }
    }

    /// Trusted: calls `regex::Regex::replace_all(text, rep)` on the regex
    /// compiled from `self@`; the result, which the regex crate computes from
    /// those three strings alone, is named `regex_replace_all`.
    #[verifier::external_body]
    pub(crate) fn replace_all(&self, text: &str, rep: &str) -> (r: String)
        ensures
            r@ == regex_replace_all(self@, text@, rep@),
    {
        self.re.replace_all(text, rep).into_owned()
    }

    /// Trusted: calls `regex::Regex::replace(text, rep)` (the first match
    /// only) on the regex compiled from `self@`; the result is named
    /// `regex_replace_first`.
    #[verifier::external_body]
    pub(crate) fn replace_first(&self, text: &str, rep: &str) -> (r: String)
        ensures
            r@ == regex_replace_first(self@, text@, rep@),
    {
        self.re.replace(text, rep).into_owned()
    }

    /// Trusted: `regex::Regex::captures(text)` on the regex compiled from
    /// `self@`, then `Captures::name(group)`; the text of that group, which
    /// depends on the three strings alone, is `regex_capture_named`.
    #[verifier::external_body]
    pub(crate) fn capture_named(&self, text: &str, group: &str) -> (r: Option<String>)
        ensures
            match r {
                Some(s) => regex_capture_named(self@, text@, group@) == Some(s@),
                None => regex_capture_named(self@, text@, group@) is None,
            },
    {
        Some(self.re.captures(text)?.name(group)?.as_str().to_string())
    }
}

/// Joins a split `url: "..." + "..."` field into one string.
pub open spec fn url_pattern() -> Seq<char> {
    "(?P<root>url: \".+)\" \\+ \"(?P<album>.+\",)"@
}

/// Four spaces and a bare property name followed by a colon.
pub open spec fn property_pattern() -> Seq<char> {
    "    (?P<property>[a-zA-Z_]+):"@
}

/// A `// ...` comment up to the end of the line.
pub open spec fn comment_pattern() -> Seq<char> {
    "// .*"@
}

/// The JSON that `fix_json` makes of `data`: the split url field is joined,
/// bare property names are quoted and comments are removed, each by one
/// regex replacement; `None` when one of the three patterns does not compile.
pub open spec fn fix_json_spec(data: Seq<char>) -> Option<Seq<char>> {
    if regex_compiles(url_pattern()) && regex_compiles(property_pattern()) && regex_compiles(
        comment_pattern(),
    ) {
        let step1 = regex_replace_all(url_pattern(), data, "$root$album"@);
        let step2 = regex_replace_all(property_pattern(), step1, "\"$property\":"@);
        Some(regex_replace_all(comment_pattern(), step2, ""@))
    } else {
        None
    }
}

/// Turns the JavaScript object literal of an album page into JSON.
pub fn fix_json(data: &str) -> (r: Option<String>)
    ensures
        r matches Some(s) ==> fix_json_spec(data@) == Some(s@),
        r is None ==> fix_json_spec(data@) is None,
{
    let url = Pattern::new("(?P<root>url: \".+)\" \\+ \"(?P<album>.+\",)")?;
    let data = url.replace_all(data, "$root$album");
    let property = Pattern::new("    (?P<property>[a-zA-Z_]+):")?;
    let data = property.replace_all(data.as_str(), "\"$property\":");
    let comment = Pattern::new("// .*")?;
    let data = comment.replace_all(data.as_str(), "");
    Some(data)
}

/// The marker in front of the album JSON on an album page.
pub open spec fn tralbum_start() -> Seq<char> {
    "data-tralbum=\"{"@
}

/// The marker behind the album JSON on an album page.
pub open spec fn tralbum_stop() -> Seq<char> {
    "}\""@
}

/// The characters from `h` between its first `start` marker and the first
/// `stop` marker after it: they begin `back` characters before the end of
/// `start`, and end `keep` characters past the beginning of `stop`; `None`
/// when a marker is missing.
pub open spec fn between_markers(
    h: Seq<char>,
    start: Seq<char>,
    stop: Seq<char>,
    back: int,
    keep: int,
) -> Option<Seq<char>> {
    match find_first(h, start) {
        None => None,
        Some(i) => {
            let rest = h.subrange(i + start.len() - back, h.len() as int);
            match find_first(rest, stop) {
                None => None,
                Some(j) => Some(rest.subrange(0, j + keep)),
            }
        },
    }
}

/// What `parse` returns for a page: the `{...}` object that follows
/// `data-tralbum="`, with `&quot;` entities turned into quotes and then
/// fixed up by `fix_json`.
pub open spec fn parse_spec(html: Seq<char>) -> Option<Seq<char>> {
    match between_markers(html, tralbum_start(), tralbum_stop(), 1, 1) {
        None => None,
        Some(obj) => fix_json_spec(replace_all(obj, "&quot;"@, "\""@)),
    }
}

/// Where the text between the markers lies in `h`: `between_markers` is the
/// characters of `h` from the first index to the second.
pub fn marker_span(h: &Vec<char>, start: &Vec<char>, stop: &Vec<char>, back: usize, keep: usize) -> (r:
    Option<(usize, usize)>)
    requires
        back <= start.len(),
        keep <= stop.len(),
    ensures
        r matches Some((a, b)) ==> a <= b <= h.len() && between_markers(
            h@,
            start@,
            stop@,
            back as int,
            keep as int,
        ) == Some(h@.subrange(a as int, b as int)),
        r is None ==> between_markers(h@, start@, stop@, back as int, keep as int) is None,
{
    let i = find_chars(h, start)?;
    let from = i + start.len() - back;
    let mut rest: Vec<char> = Vec::new();
    let mut k = from;
    while k < h.len()
        invariant
            from <= k <= h.len(),
            rest@ == h@.subrange(from as int, k as int),
        decreases h.len() - k,
    {
        rest.push(h[k]);
        k = k + 1;
        assert(rest@ =~= h@.subrange(from as int, k as int));
    }
    assert(rest@ == h@.subrange(i + start@.len() - back, h@.len() as int));
    let j = find_chars(&rest, stop)?;
    assert(rest@.subrange(0, j + keep) =~= h@.subrange(from as int, from + j + keep));
    Some((from, from + j + keep))
}

/// The characters of `h` from `a` up to `b`.
pub fn copy_range(h: &Vec<char>, a: usize, b: usize) -> (r: Vec<char>)
    requires
        a <= b <= h.len(),
    ensures
        r@ == h@.subrange(a as int, b as int),
{
    let mut out: Vec<char> = Vec::new();
    let mut m = a;
    while m < b
        invariant
            a <= m <= b,
            b <= h.len(),
            out@ == h@.subrange(a as int, m as int),
        decreases b - m,
    {
        out.push(h[m]);
        m = m + 1;
        assert(out@ =~= h@.subrange(a as int, m as int));
    }
    out
}

/// Extracts the album JSON from the HTML of a Bandcamp album page.
pub fn parse(html_code: &str) -> (r: Option<String>)
    ensures
        r matches Some(s) ==> parse_spec(html_code@) == Some(s@),
        r is None ==> parse_spec(html_code@) is None,
{
    proof {
        reveal_strlit("data-tralbum=\"{");
        reveal_strlit("}\"");
    }
    let html = chars_of(html_code);
    let start = chars_of("data-tralbum=\"{");
    let stop = chars_of("}\"");
    let (a, b) = marker_span(&html, &start, &stop, 1, 1)?;
    let obj = copy_range(&html, a, b);
    let quot = chars_of("&quot;");
    let dq = chars_of("\"");
    proof {
        reveal_strlit("&quot;");
    }
    let unquoted = replace_chars(&obj, &quot, &dq);
    let text = string_from_chars(unquoted.as_slice());
    fix_json(text.as_str())
}

} // verus!

verus! {

/// What `parse_album` returns: the same as `parse` on the page.
pub fn parse_album(html_code: String) -> (r: Option<String>)
    ensures
        r matches Some(s) ==> parse_spec(html_code@) == Some(s@),
        r is None ==> parse_spec(html_code@) is None,
{
    parse(html_code.as_str())
}

} // verus!
