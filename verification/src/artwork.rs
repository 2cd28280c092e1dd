//! The artwork of the player window: the image a page links to, turned
//! into a data URI the window can show.
use vstd::prelude::*;

use crate::text::{chars_of, push_all, string_from_chars};

verus! {

broadcast use vstd::string::group_string_axioms;

/// The standard base64 text of `bytes` without `=` padding, as the
/// `base64` crate's `STANDARD_NO_PAD` engine writes it.
pub uninterp spec fn base64_no_pad(bytes: Seq<u8>) -> Seq<char>;

/// Trusted: `base64::Engine::encode` with the
/// `base64::engine::general_purpose::STANDARD_NO_PAD` engine; its output
/// depends on the bytes alone and is named `base64_no_pad`.
#[verifier::external_body]
fn encode_no_pad(bytes: &[u8]) -> (r: String)
    ensures
        r@ == base64_no_pad(bytes@),
{
    base64::Engine::encode(&base64::engine::general_purpose::STANDARD_NO_PAD, bytes)
}

/// The data URI of a JPEG image.
pub open spec fn jpeg_data_uri(bytes: Seq<u8>) -> Seq<char> {
    "data:image/jpeg;base64,"@ + base64_no_pad(bytes)
}

/// The data URI for an artwork download that answered with `status` and
/// `body`: only a `200` answer gives one.
pub fn artwork_data_uri(status: u16, body: &[u8]) -> (r: Option<String>)
    ensures
        status == 200 ==> r is Some && r->0@ == jpeg_data_uri(body@),
        status != 200 ==> r is None,
{
    if status == 200 {
        let mut out = chars_of("data:image/jpeg;base64,");
        let enc = encode_no_pad(body);
        let e = chars_of(enc.as_str());
        push_all(&mut out, &e);
        Some(string_from_chars(out.as_slice()))
    } else {
        None
    }
}

/// The album JSON of an album page, or nothing when the page holds none.
pub fn parse_album_data(html_code: String) -> (r: String)
    ensures
        match crate::album_parsing::parse_spec(html_code@) {
            Some(s) => r@ == s,
            None => r@ == Seq::<char>::empty(),
        },
{
    match crate::album_parsing::parse_album(html_code) {
        Some(s) => s,
        None => String::new(),
    }
}

} // verus!
