//! What the BASS back-end decides on its own: the stream URL it opens, how
//! it names the output devices, and which device index it accepts.
use vstd::prelude::*;

use crate::bass_init::BassDevice;
use crate::text::{chars_of, dec, push_all, push_dec, replace_all, replace_chars, string_from_chars};

verus! {

broadcast use vstd::string::group_string_axioms;

/// The URL BASS opens for `url`: every `https://` made `http://`.
pub open spec fn stream_url_spec(url: Seq<char>) -> Seq<char> {
    replace_all(url, "https://"@, "http://"@)
}

/// The URL BASS opens for a track's stream URL.
pub fn stream_url(url: &str) -> (r: String)
    ensures
        r@ == stream_url_spec(url@),
{
    let v = chars_of(url);
    let pat = chars_of("https://");
    let rep = chars_of("http://");
    proof {
        reveal_strlit("https://");
    }
    let out = replace_chars(&v, &pat, &rep);
    string_from_chars(out.as_slice())
}

/// How a device is listed: `name (id)`.
pub open spec fn device_label(d: BassDevice) -> Seq<char> {
    d.name@ + " ("@ + dec(d.id as nat) + ")"@
}

/// The labels of the devices, in order.
pub fn device_labels(devices: &Vec<BassDevice>) -> (r: Vec<String>)
    ensures
        r@.len() == devices@.len(),
        forall|i: int| 0 <= i < r@.len() ==> #[trigger] r@[i]@ == device_label(devices@[i]),
{
    let mut r: Vec<String> = Vec::new();
    let mut i: usize = 0;
    while i < devices.len()
        invariant
            i <= devices.len(),
            r@.len() == i,
            forall|k: int| 0 <= k < i ==> #[trigger] r@[k]@ == device_label(devices@[k]),
        decreases devices.len() - i,
    {
        let d = &devices[i];
        let mut out = chars_of(d.name.as_str());
        let open = chars_of(" (");
        push_all(&mut out, &open);
        push_dec(&mut out, d.id as u64);
        let close = chars_of(")");
        push_all(&mut out, &close);
        r.push(string_from_chars(out.as_slice()));
        i = i + 1;
    }
    r
}

/// Whether the back-end accepts device `index` among `count` devices:
/// `None` when it is off the list (the error the back-end reports), else
/// the index.
pub fn device_choice(index: usize, count: usize) -> (r: Option<usize>)
    ensures
        r == (if index < count {
            Some(index)
        } else {
            None::<usize>
        }),
{
    if index < count {
        Some(index)
    } else {
        None
    }
}

} // verus!
