//! The older album-page readers, which look for the `var TralbumData = {`
//! object of the page script instead of the `data-tralbum` attribute.
use vstd::prelude::*;

use crate::album_parsing::{between_markers, marker_span, regex_replace_first, Pattern};
use crate::text::{chars_of, find_first};

verus! {

broadcast use vstd::string::group_string_axioms;

/// The marker in front of the album object in the page script.
pub open spec fn script_start() -> Seq<char> {
    "var TralbumData = {"@
}

/// The marker behind the album object in the page script.
pub open spec fn script_stop() -> Seq<char> {
    "};"@
}

/// Returns the album object of the page script, braces included.
pub fn album_parsing(html_code: &str) -> (r: Option<&str>)
    ensures
        r matches Some(s) ==> between_markers(html_code@, script_start(), script_stop(), 1, 1)
            == Some(s@),
        r is None ==> between_markers(html_code@, script_start(), script_stop(), 1, 1) is None,
{
    proof {
        reveal_strlit("var TralbumData = {");
        reveal_strlit("};");
    }
    let html = chars_of(html_code);
    let start = chars_of("var TralbumData = {");
    let stop = chars_of("};");
    let (a, b) = marker_span(&html, &start, &stop, 1, 1)?;
    Some(html_code.substring_char(a, b))
}

/// Returns the inside of the album object of the page script, without its
/// braces.
pub fn get_album_data(html_code: &str) -> (r: Option<&str>)
    ensures
        r matches Some(s) ==> between_markers(html_code@, script_start(), script_stop(), 0, 0)
            == Some(s@),
        r is None ==> between_markers(html_code@, script_start(), script_stop(), 0, 0) is None,
{
    let html = chars_of(html_code);
    let start = chars_of("var TralbumData = {");
    let stop = chars_of("};");
    let (a, b) = marker_span(&html, &start, &stop, 0, 0)?;
    Some(html_code.substring_char(a, b))
}

/// The pattern of the split url field, in the `(?<name>...)` group syntax.
pub open spec fn url_pattern_named() -> Seq<char> {
    "(?<root>url: \".+)\" \\+ \"(?<album>.+\",)"@
}

/// Joins the first split `url: "..." + "..."` field of `album_data`;
/// `None` when the regex crate rejects the pattern.
pub fn fix_json(album_data: &str) -> (r: Option<String>)
    ensures
        r matches Some(s) ==> s@ == regex_replace_first(
            url_pattern_named(),
            album_data@,
            "${root}${album}"@,
        ),
        r is None ==> !crate::album_parsing::regex_compiles(url_pattern_named()),
{
    let reg = Pattern::new("(?<root>url: \".+)\" \\+ \"(?<album>.+\",)")?;
    Some(reg.replace_first(album_data, "${root}${album}"))
}

/// The album object that `album_parsing` returns is what `get_album_data`
/// returns, between braces: one finds it exactly when the other does.
pub proof fn lemma_object_is_braced_data(h: Seq<char>)
    ensures
        (between_markers(h, script_start(), script_stop(), 1, 1) is Some) == (between_markers(
            h,
            script_start(),
            script_stop(),
            0,
            0,
        ) is Some),
        between_markers(h, script_start(), script_stop(), 0, 0) matches Some(d)
            ==> between_markers(h, script_start(), script_stop(), 1, 1) == Some(
            seq!['{'] + d + seq!['}'],
        ),
{
    reveal_strlit("var TralbumData = {");
    reveal_strlit("};");
    let start = script_start();
    let stop = script_stop();
    crate::text::lemma_find_from(h, start, 0);
    match find_first(h, start) {
        Some(i) => {
            assert(h.subrange(i, i + start.len())[start.len() - 1] == '{');
            let rest0 = h.subrange(i + start.len(), h.len() as int);
            let rest1 = h.subrange(i + start.len() - 1, h.len() as int);
            assert(rest1 =~= seq!['{'] + rest0);
            crate::text::lemma_find_first_after_char('{', rest0, stop);
            crate::text::lemma_find_from(rest0, stop, 0);
            match find_first(rest0, stop) {
                Some(j) => {
                    assert(rest0.subrange(j, j + 2)[0] == '}');
                    assert(rest1.subrange(0, j + 2) =~= seq!['{'] + rest0.subrange(0, j) + seq!['}']);
                },
                None => {},
            }
        },
        None => {},
    }
}

} // verus!
