//! The line commands of the text interface: how a typed line is read.
use vstd::prelude::*;

use crate::text::{
    chars_of, char_views, parse_unsigned, parse_unsigned_max, split_chars, split_on,
    string_from_chars, trim_chars, trimmed,
};

verus! {

broadcast use vstd::string::group_string_axioms;

/// A typed line, read.
pub enum CliCommand {
    /// `c` or `exit`: end the program.
    Exit,
    /// `voli N`: raise the volume by `N` percent (`None`: `N` is no 16-bit
    /// number).
    VolumeUp(Option<u16>),
    /// `vold N`: lower the volume by `N` percent.
    VolumeDown(Option<u16>),
    /// `seekf N`: move `N` seconds ahead.
    SeekForward(Option<u64>),
    /// `seek N`: move to second `N` of the track.
    Seek(Option<u64>),
    /// `stop`: stop playback.
    Stop,
    /// `seekb N`: move `N` seconds back.
    SeekBackward(Option<u64>),
    /// `del N`: remove the queued track `N`.
    Delete(Option<usize>),
    /// `search TEXT`: look `TEXT` up.
    Search(String),
    /// `ins ARG`: queue the search result numbered `ARG`, or the album at
    /// the URL `ARG`; the number, when `ARG` is one, and `ARG` itself.
    Insert(Option<usize>, String),
    /// `ls`: list the queue.
    List,
    /// `p N`: play the queued track `N` (`None`: `N` is no index).
    PlayAt(Option<usize>),
    /// `p`: pause or resume.
    TogglePause,
    /// `d`: show the playing position.
    Duration,
    /// `next`: move to the next track.
    Next,
    /// `prev`: move to the previous track.
    Prev,
    /// `help`: list the commands.
    Help,
    /// A command that needs an argument, given none: nothing happens.
    Ignored,
    /// Any other word.
    Unknown(String),
}

/// The words of the line `line`: the pieces of the trimmed line between
/// single spaces.
pub open spec fn words(line: Seq<char>) -> Seq<Seq<char>> {
    split_on(trimmed(line), ' ')
}

/// The number that `str::parse` gives for `s` in a type whose largest value
/// is `max`.
pub open spec fn parse_upto(s: Seq<char>, max: nat) -> Option<nat> {
    match parse_unsigned(s) {
        Some(n) => if n <= max {
            Some(n)
        } else {
            None
        },
        None => None,
    }
}

/// Whether the 16-bit `v` is what parsing `s` gives.
pub open spec fn parsed_u16(v: Option<u16>, s: Seq<char>) -> bool {
    match v {
        Some(x) => parse_upto(s, u16::MAX as nat) == Some(x as nat),
        None => parse_upto(s, u16::MAX as nat) is None,
    }
}

/// Whether the 64-bit `v` is what parsing `s` gives.
pub open spec fn parsed_u64(v: Option<u64>, s: Seq<char>) -> bool {
    match v {
        Some(x) => parse_upto(s, u64::MAX as nat) == Some(x as nat),
        None => parse_upto(s, u64::MAX as nat) is None,
    }
}

/// Whether the index `v` is what parsing `s` gives.
pub open spec fn parsed_usize(v: Option<usize>, s: Seq<char>) -> bool {
    match v {
        Some(x) => parse_upto(s, usize::MAX as nat) == Some(x as nat),
        None => parse_upto(s, usize::MAX as nat) is None,
    }
}

/// What `parse_cli` makes of a line whose words are `w` (at least one).
pub open spec fn command_of(w: Seq<Seq<char>>, r: CliCommand) -> bool {
    let c = w[0];
    let has_arg = w.len() > 1;
    let a = w[1];
    if c == "c"@ || c == "exit"@ {
        r is Exit
    } else if c == "voli"@ || c == "vold"@ || c == "seekf"@ || c == "seek"@ || c == "seekb"@
        || c == "del"@ || c == "search"@ || c == "ins"@ {
        if !has_arg {
            r is Ignored
        } else if c == "voli"@ {
            r matches CliCommand::VolumeUp(v) && parsed_u16(v, a)
        } else if c == "vold"@ {
            r matches CliCommand::VolumeDown(v) && parsed_u16(v, a)
        } else if c == "seekf"@ {
            r matches CliCommand::SeekForward(v) && parsed_u64(v, a)
        } else if c == "seek"@ {
            r matches CliCommand::Seek(v) && parsed_u64(v, a)
        } else if c == "seekb"@ {
            r matches CliCommand::SeekBackward(v) && parsed_u64(v, a)
        } else if c == "del"@ {
            r matches CliCommand::Delete(v) && parsed_usize(v, a)
        } else if c == "search"@ {
            r matches CliCommand::Search(t) && t@ == a
        } else {
            r matches CliCommand::Insert(v, t) && parsed_usize(v, a) && t@ == a
        }
    } else if c == "stop"@ {
        r is Stop
    } else if c == "ls"@ {
        r is List
    } else if c == "p"@ {
        if has_arg {
            r matches CliCommand::PlayAt(v) && parsed_usize(v, a)
        } else {
            r is TogglePause
        }
    } else if c == "d"@ {
        r is Duration
    } else if c == "next"@ {
        r is Next
    } else if c == "prev"@ {
        r is Prev
    } else if c == "help"@ {
        r is Help
    } else {
        r matches CliCommand::Unknown(t) && t@ == c
    }
}

/// Whether the characters of `v` are those of the literal `s`.
fn is_word(v: &Vec<char>, s: &str) -> (r: bool)
    ensures
        r == (v@ == s@),
{
    let w = chars_of(s);
    crate::tag_order::chars_equal(v, &w)
}

fn parse_u16(s: &str) -> (r: Option<u16>)
    ensures
        parsed_u16(r, s@),
{
    match parse_unsigned_max(s, 0xffff) {
        Some(v) => Some(v as u16),
        None => None,
    }
}

fn parse_u64(s: &str) -> (r: Option<u64>)
    ensures
        parsed_u64(r, s@),
{
    parse_unsigned_max(s, 0xffff_ffff_ffff_ffff)
}

fn parse_usize(s: &str) -> (r: Option<usize>)
    ensures
        parsed_usize(r, s@),
{
    match parse_unsigned_max(s, usize::MAX as u64) {
        Some(v) => Some(v as usize),
        None => None,
    }
}

/// Reads a typed line.
pub fn parse_cli(line: &str) -> (r: CliCommand)
    ensures
        words(line@).len() >= 1,
        command_of(words(line@), r),
{
    let chars = chars_of(line);
    let t = trim_chars(&chars);
    let pieces = split_chars(&t, ' ');
    proof {
        lemma_split_on_nonempty(t@, ' ');
        assert(char_views(pieces@)[0] == pieces@[0]@);
    }
    let c = &pieces[0];
    let has_arg = pieces.len() > 1;
    let arg = if has_arg {
        assert(char_views(pieces@)[1] == pieces@[1]@);
        string_from_chars(pieces[1].as_slice())
    } else {
        String::new()
    };
    if is_word(c, "c") || is_word(c, "exit") {
        CliCommand::Exit
    } else if is_word(c, "voli") || is_word(c, "vold") || is_word(c, "seekf") || is_word(c, "seek")
        || is_word(c, "seekb") || is_word(c, "del") || is_word(c, "search") || is_word(c, "ins") {
        if !has_arg {
            CliCommand::Ignored
        } else if is_word(c, "voli") {
            CliCommand::VolumeUp(parse_u16(arg.as_str()))
        } else if is_word(c, "vold") {
            CliCommand::VolumeDown(parse_u16(arg.as_str()))
        } else if is_word(c, "seekf") {
            CliCommand::SeekForward(parse_u64(arg.as_str()))
        } else if is_word(c, "seek") {
            CliCommand::Seek(parse_u64(arg.as_str()))
        } else if is_word(c, "seekb") {
            CliCommand::SeekBackward(parse_u64(arg.as_str()))
        } else if is_word(c, "del") {
            CliCommand::Delete(parse_usize(arg.as_str()))
        } else if is_word(c, "search") {
            CliCommand::Search(arg)
        } else {
            let n = parse_usize(arg.as_str());
            CliCommand::Insert(n, arg)
        }
    } else if is_word(c, "stop") {
        CliCommand::Stop
    } else if is_word(c, "ls") {
        CliCommand::List
    } else if is_word(c, "p") {
        if has_arg {
            CliCommand::PlayAt(parse_usize(arg.as_str()))
        } else {
            CliCommand::TogglePause
        }
    } else if is_word(c, "d") {
        CliCommand::Duration
    } else if is_word(c, "next") {
        CliCommand::Next
    } else if is_word(c, "prev") {
        CliCommand::Prev
    } else if is_word(c, "help") {
        CliCommand::Help
    } else {
        CliCommand::Unknown(string_from_chars(c.as_slice()))
    }
}

/// A split yields at least one piece.
pub proof fn lemma_split_on_nonempty(s: Seq<char>, sep: char)
    ensures
        split_on(s, sep).len() >= 1,
    decreases s.len(),
{
    if s.len() > 0 {
        lemma_split_on_nonempty(s.drop_last(), sep);
    }
}

} // verus!
