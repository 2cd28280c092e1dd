//! The text interface's decisions: what a command does to the play queue,
//! the player and the search results, what is printed, and what the
//! program around it is to do (send a command to the audio thread, look
//! something up, load an album, read the clock).
use vstd::prelude::*;

use crate::cli::CliCommand;
use crate::model::{Album, Result as SearchHit};
use crate::playback::{clock_text, format_clock, lowered_volume, seek_command_spec, Command, Player};
use crate::queue::{
    album_add_succeeds, album_added, album_files_present, files_present, next_pos, prev_pos, Queue,
    QueuedTrack,
};
use crate::text::{chars_of, dec, matches_at, occurs_at, push_all, push_dec, push_str, string_from_chars};

verus! {

broadcast use vstd::string::group_string_axioms;

/// What the program around the text interface is to do, in order.
pub enum CliEffect {
    /// Print this line.
    Print(String),
    /// Send this command to the audio thread.
    Send(Command),
    /// End the program.
    Exit,
    /// Look the text up, then hand the hits to `search_found`.
    Search(String),
    /// Load the album at the URL, then hand it to `album_loaded`; `true`
    /// when the URL came from the search results.
    LoadAlbum(String, bool),
    /// Read the playing position, then hand it to `time_shown`.
    ShowTime,
    /// Read the playing position, then hand it to `seek_to` with this
    /// target in seconds.
    SeekTo(u64),
}

/// Whether `e` prints the line `t`.
pub open spec fn printed(e: CliEffect, t: Seq<char>) -> bool {
    match e {
        CliEffect::Print(s) => s@ == t,
        _ => false,
    }
}

/// Whether `es` prints the lines `ts` and does nothing else.
pub open spec fn prints(es: Seq<CliEffect>, ts: Seq<Seq<char>>) -> bool {
    &&& es.len() == ts.len()
    &&& forall|i: int| 0 <= i < es.len() ==> printed(#[trigger] es[i], ts[i])
}

proof fn lemma_prints_push(es: Seq<CliEffect>, ts: Seq<Seq<char>>, e: CliEffect, t: Seq<char>)
    requires
        prints(es, ts),
        printed(e, t),
    ensures
        prints(es.push(e), ts.push(t)),
{
    assert forall|i: int| 0 <= i < es.len() + 1 implies printed(#[trigger] es.push(e)[i], ts.push(t)[i]) by {
        if i < es.len() {
            assert(es.push(e)[i] == es[i]);
        }
    }
}

/// The volume line.
pub open spec fn volume_text(v: u16) -> Seq<char> {
    "volume set to: "@ + dec(v as nat) + "%"@
}

/// Whether lowering the volume `vol` by `value` stays in the player's
/// 16-bit signed arithmetic.
pub open spec fn volume_down_ok(vol: u16, value: u16) -> bool {
    &&& i16::MIN <= (vol as i16) - (value as i16) <= i16::MAX
    &&& (vol as i16) - (value as i16) >= 0 ==> vol >= value
}

/// The line for the queued track `i`, marked when it is the one at `pos`.
pub open spec fn list_line(t: QueuedTrack, i: nat, pos: nat) -> Seq<char> {
    (if i == pos {
        "> "@
    } else {
        "  "@
    }) + dec(i) + " "@ + t.artist@ + " - "@ + t.title@ + " from "@ + t.album@
}

/// The lines `ls` prints for the queue `q` at position `pos`.
pub open spec fn list_lines(q: Seq<QueuedTrack>, pos: nat) -> Seq<Seq<char>> {
    (if q.len() == 0 {
        seq!["queue is empty!"@]
    } else {
        Seq::empty()
    }) + Seq::new(q.len(), |i: int| list_line(q[i], i as nat, pos))
}

/// The lines `help` prints.
pub open spec fn help_lines() -> Seq<Seq<char>> {
    seq![
        "command help:"@,
        "`c`, `exit` - closes program"@,
        "`p` - play/pause"@,
        "`d` - current track duration"@,
        "`next` - plays next track"@,
        "`prev` - plays prev track"@,
        "`ls` - current play queue items"@,
        "`ins [album/track url]` - add tracks from URL into play queue"@,
        "`del [queue index]` - remove track from play queue"@,
        "`seekf [secs]` - seek current track forward to `secs` seconds"@,
        "`seekb [secs]` - seek current track backward to `secs` seconds"@,
        "`voli [value]` - inscrease volume level"@,
        "`vold [value]` - decrease volume level"@,
        "`seek` [secs] - seek to absolute position on track"@,
    ]
}

/// The text of an optional string, empty when there is none.
pub open spec fn text_or_empty(s: Option<String>) -> Seq<char> {
    match s {
        Some(t) => t@,
        None => Seq::empty(),
    }
}

/// Whether a search hit is a track or an album, which are listed.
pub open spec fn listed_hit(h: SearchHit) -> bool {
    h.field_type@ == "t"@ || h.field_type@ == "a"@
}

/// The line for the search hit `h` at index `i`: numbered one less (but
/// not below zero), band, name and URL.
pub open spec fn hit_line(h: SearchHit, i: nat) -> Seq<char> {
    "["@ + dec(if i >= 1 {
        (i - 1) as nat
    } else {
        0
    }) + "] "@ + text_or_empty(h.band_name) + " - "@ + text_or_empty(h.name) + " @ "@ + h.url@
}

/// The lines for the listed hits among the first `n` of `hits`.
pub open spec fn hit_lines(hits: Seq<SearchHit>, n: nat) -> Seq<Seq<char>>
    decreases n,
{
    if n == 0 || n > hits.len() {
        Seq::empty()
    } else if listed_hit(hits[n - 1]) {
        hit_lines(hits, (n - 1) as nat).push(hit_line(hits[n - 1], (n - 1) as nat))
    } else {
        hit_lines(hits, (n - 1) as nat)
    }
}

/// The state of the text interface: the play queue, the player and the
/// last search results.
pub struct CliShell {
    /// The play queue.
    pub queue: Queue,
    /// The player.
    pub player: Player,
    /// The hits of the last search.
    pub search_results: Vec<SearchHit>,
}

/// Appends the line `text` to `es`.
fn say(es: &mut Vec<CliEffect>, text: &str)
    ensures
        final(es)@ == old(es)@.push(final(es)@.last()),
        printed(final(es)@.last(), text@),
{
    es.push(CliEffect::Print(text.to_string()));
}

/// Appends the line `text` to `es`, which prints `ts`.
fn say_more(es: &mut Vec<CliEffect>, text: String, Ghost(ts): Ghost<Seq<Seq<char>>>)
    requires
        prints(old(es)@, ts),
    ensures
        prints(final(es)@, ts.push(text@)),
{
    let ghost e = CliEffect::Print(text);
    proof {
        lemma_prints_push(old(es)@, ts, e, text@);
    }
    es.push(CliEffect::Print(text));
}

/// `a`, the decimal notation of `n`, and `b`.
fn number_text(a: &str, n: u64, b: &str) -> (r: String)
    ensures
        r@ == a@ + dec(n as nat) + b@,
{
    let mut out = chars_of(a);
    push_dec(&mut out, n);
    let tail = chars_of(b);
    push_all(&mut out, &tail);
    string_from_chars(out.as_slice())
}

fn list_line_text(t: &QueuedTrack, i: usize, pos: usize) -> (r: String)
    ensures
        r@ == list_line(*t, i as nat, pos as nat),
{
    let mut out: Vec<char> = Vec::new();
    if i == pos {
        push_str(&mut out, "> ");
    } else {
        push_str(&mut out, "  ");
    }
    push_dec(&mut out, i as u64);
    push_str(&mut out, " ");
    push_str(&mut out, t.artist.as_str());
    push_str(&mut out, " - ");
    push_str(&mut out, t.title.as_str());
    push_str(&mut out, " from ");
    push_str(&mut out, t.album.as_str());
    assert(out@ =~= list_line(*t, i as nat, pos as nat));
    string_from_chars(out.as_slice())
}

fn hit_line_text(h: &SearchHit, i: usize) -> (r: String)
    ensures
        r@ == hit_line(*h, i as nat),
{
    let mut out: Vec<char> = Vec::new();
    push_str(&mut out, "[");
    let n: u64 = if i >= 1 {
        (i - 1) as u64
    } else {
        0
    };
    push_dec(&mut out, n);
    push_str(&mut out, "] ");
    match &h.band_name {
        Some(b) => push_str(&mut out, b.as_str()),
        None => {},
    }
    push_str(&mut out, " - ");
    match &h.name {
        Some(b) => push_str(&mut out, b.as_str()),
        None => {},
    }
    push_str(&mut out, " @ ");
    push_str(&mut out, h.url.as_str());
    assert(out@ =~= hit_line(*h, i as nat));
    string_from_chars(out.as_slice())
}

impl CliShell {
    /// An empty queue, a new player, no search results.
    pub fn new() -> (s: Self)
        ensures
            s.queue.queue@.len() == 0,
            s.queue.queue_pos == 0,
            !s.queue.shuffle,
            s.player@ == (false, 100u16),
            s.search_results@.len() == 0,
    {
        CliShell { queue: Queue::new(), player: Player::new(), search_results: Vec::new() }
    }

    /// Carries out a command.
    pub fn apply(&mut self, cmd: CliCommand) -> (es: Vec<CliEffect>)
        ensures
            ({
                let o = *old(self);
                let f = *final(self);
                let vol = o.player@.1;
                let same = f.queue == o.queue && f.search_results == o.search_results && f.player@
                    == o.player@;
                match cmd {
                    CliCommand::Exit => same && es@.len() == 1 && es@[0] is Exit,
                    CliCommand::VolumeUp(v) => match v {
                        Some(n) => if vol + n <= u16::MAX {
                            &&& f.player@ == (o.player@.0, (vol + n) as u16)
                            &&& f.queue == o.queue && f.search_results == o.search_results
                            &&& es@.len() == 2
                            &&& es@[0] == CliEffect::Send(Command::AddVolume((vol + n) as u16))
                            &&& printed(es@[1], volume_text((vol + n) as u16))
                        } else {
                            same && prints(es@, seq!["error: invalid volume format"@])
                        },
                        None => same && prints(es@, seq!["error: invalid volume format"@]),
                    },
                    CliCommand::VolumeDown(v) => match v {
                        Some(n) => if volume_down_ok(vol, n) {
                            &&& f.queue == o.queue && f.search_results == o.search_results
                            &&& match lowered_volume(vol, n) {
                                Some(nv) => {
                                    &&& f.player@ == (o.player@.0, nv)
                                    &&& es@.len() == 2
                                    &&& es@[0] == CliEffect::Send(Command::AddVolume(nv))
                                    &&& printed(es@[1], volume_text(nv))
                                },
                                None => f.player@ == o.player@ && prints(
                                    es@,
                                    seq![volume_text(vol)],
                                ),
                            }
                        } else {
                            same && prints(es@, seq!["error: invalid volume format"@])
                        },
                        None => same && prints(es@, seq!["error: invalid volume format"@]),
                    },
                    CliCommand::SeekForward(v) => match v {
                        Some(s) => if s * 1000 <= u64::MAX {
                            &&& same
                            &&& es@.len() == 2
                            &&& printed(es@[0], "seeking forward to "@ + dec(s as nat) + " seconds"@)
                            &&& es@[1] == CliEffect::Send(Command::SeekForward((s * 1000) as u64))
                        } else {
                            same && prints(es@, seq!["error: invalid seek format"@])
                        },
                        None => same && prints(es@, seq!["error: invalid seek format"@]),
                    },
                    CliCommand::Seek(v) => match v {
                        Some(s) => {
                            &&& same
                            &&& es@.len() == 2
                            &&& printed(es@[0], "seeking to "@ + dec(s as nat) + " seconds"@)
                            &&& es@[1] == CliEffect::SeekTo(s)
                        },
                        None => same && prints(es@, seq!["error: invalid seek format"@]),
                    },
                    CliCommand::SeekBackward(v) => match v {
                        Some(s) => if s * 1000 <= u64::MAX {
                            &&& same
                            &&& es@.len() == 2
                            &&& printed(
                                es@[0],
                                "seeking backwards to "@ + dec(s as nat) + " seconds"@,
                            )
                            &&& es@[1] == CliEffect::Send(Command::SeekBackwards((s * 1000) as u64))
                        } else {
                            same && prints(es@, seq!["error: invalid seek format"@])
                        },
                        None => same && prints(es@, seq!["error: invalid seek format"@]),
                    },
                    CliCommand::Stop => {
                        &&& same
                        &&& es@.len() == 2
                        &&& es@[0] == CliEffect::Send(Command::Stop)
                        &&& printed(es@[1], "queue.player stopped!"@)
                    },
                    CliCommand::Delete(v) => match v {
                        Some(i) => if i < o.queue.queue@.len() {
                            &&& f.queue.queue@ == o.queue.queue@.remove(i as int)
                            &&& f.queue.queue_pos == o.queue.queue_pos
                            &&& f.queue.shuffle == o.queue.shuffle
                            &&& f.player@ == o.player@ && f.search_results == o.search_results
                            &&& prints(
                                es@,
                                seq!["removed queued track with position: "@ + dec(i as nat)],
                            )
                        } else {
                            same && prints(es@, seq!["error: incorrect queue index!"@])
                        },
                        None => same && prints(
                            es@,
                            seq!["error: delete position must be integer index"@],
                        ),
                    },
                    CliCommand::Search(t) => same && es@.len() == 1 && (es@[0] matches CliEffect::Search(
                        u,
                    ) && u@ == t@),
                    CliCommand::Insert(v, raw) => same && match v {
                        Some(id) => if o.search_results@.len() > 0 {
                            let k = if id < o.search_results@.len() {
                                id as int
                            } else {
                                o.search_results@.len() - 1
                            };
                            es@.len() == 1 && (es@[0] matches CliEffect::LoadAlbum(u, b) && u@
                                == o.search_results@[k].url@ && b)
                        } else {
                            prints(es@, seq!["empty!"@])
                        },
                        None => if occurs_at(raw@, "http"@, 0) {
                            es@.len() == 1 && (es@[0] matches CliEffect::LoadAlbum(u, b) && u@
                                == raw@ && !b)
                        } else {
                            es@.len() == 0
                        },
                    },
                    CliCommand::List => same && prints(
                        es@,
                        list_lines(o.queue.queue@, o.queue.queue_pos as nat),
                    ),
                    CliCommand::PlayAt(v) => match v {
                        Some(i) => {
                            &&& f.queue.queue == o.queue.queue && f.queue.shuffle == o.queue.shuffle
                            &&& f.queue.queue_pos == i
                            &&& f.player@ == o.player@ && f.search_results == o.search_results
                            &&& if i < o.queue.queue@.len() {
                                es@.len() == 1 && (es@[0] matches CliEffect::Send(
                                    Command::SwitchTrack(u),
                                ) && u@ == o.queue.queue@[i as int].audio_url@)
                            } else {
                                es@.len() == 0
                            }
                        },
                        None => same && prints(es@, seq!["incorrect format!"@]),
                    },
                    CliCommand::TogglePause => {
                        &&& f.queue == o.queue && f.search_results == o.search_results
                        &&& f.player@ == (!o.player@.0, vol)
                        &&& es@.len() == 2
                        &&& if o.player@.0 {
                            printed(es@[0], "info: playing"@) && es@[1] == CliEffect::Send(
                                Command::Play,
                            )
                        } else {
                            printed(es@[0], "info: pause"@) && es@[1] == CliEffect::Send(
                                Command::Pause,
                            )
                        }
                    },
                    CliCommand::Duration => same && es@.len() == 1 && es@[0] is ShowTime,
                    CliCommand::Next => {
                        let q = o.queue;
                        &&& f.queue.queue == q.queue && f.queue.shuffle == q.shuffle
                        &&& f.player@ == o.player@ && f.search_results == o.search_results
                        &&& f.queue.queue_pos == (if q.queue@.len() >= 1 && q.queue_pos + 1
                            <= usize::MAX {
                            match next_pos(q.queue_pos as int, q.queue@.len() as int) {
                                Some(p) => p as usize,
                                None => q.queue_pos,
                            }
                        } else {
                            q.queue_pos
                        })
                        &&& prints(es@, seq!["next track!"@])
                    },
                    CliCommand::Prev => {
                        let q = o.queue;
                        &&& f.queue.queue == q.queue && f.queue.shuffle == q.shuffle
                        &&& f.player@ == o.player@ && f.search_results == o.search_results
                        &&& f.queue.queue_pos == (if q.queue_pos > 0 && q.queue_pos - 1
                            < q.queue@.len() {
                            match prev_pos(q.queue_pos as int) {
                                Some(p) => p as usize,
                                None => q.queue_pos,
                            }
                        } else {
                            q.queue_pos
                        })
                        &&& prints(es@, seq!["prev track!"@])
                    },
                    CliCommand::Help => same && prints(es@, help_lines()),
                    CliCommand::Ignored => same && es@.len() == 0,
                    CliCommand::Unknown(w) => same && prints(
                        es@,
                        seq!["error: unknown command `"@ + w@ + "` type `help` for commands"@],
                    ),
                }
            }),
    {
        let mut es: Vec<CliEffect> = Vec::new();
        let vol = self.player.get_volume();
        match cmd {
            CliCommand::Exit => {
                es.push(CliEffect::Exit);
            },
            CliCommand::VolumeUp(v) => {
                let ok = match v {
                    Some(n) => n <= 0xffff - vol,
                    None => false,
                };
                if ok {
                    let n = v.unwrap();
                    let c = self.player.increase_volume(n);
                    es.push(CliEffect::Send(c));
                    let t = number_text("volume set to: ", self.player.get_volume() as u64, "%");
                    es.push(CliEffect::Print(t));
                } else {
                    say(&mut es, "error: invalid volume format");
                }
            },
            CliCommand::VolumeDown(v) => {
                let ok = match v {
                    Some(n) => volume_down_allowed(vol, n),
                    None => false,
                };
                if ok {
                    let n = v.unwrap();
                    let c = self.player.decrease_volume(n);
                    match c {
                        Some(c) => es.push(CliEffect::Send(c)),
                        None => {},
                    }
                    let t = number_text("volume set to: ", self.player.get_volume() as u64, "%");
                    es.push(CliEffect::Print(t));
                } else {
                    say(&mut es, "error: invalid volume format");
                }
            },
            CliCommand::SeekForward(v) => {
                match v {
                    Some(s) => {
                        proof {
                            lemma_ms_fits(s);
                        }
                        if s <= 0xffff_ffff_ffff_ffff / 1000 {
                            es.push(
                                CliEffect::Print(number_text("seeking forward to ", s, " seconds")),
                            );
                            let c = self.player.seek_forward(s * 1000);
                            es.push(CliEffect::Send(c));
                        } else {
                            say(&mut es, "error: invalid seek format");
                        }
                    },
                    None => {
                        say(&mut es, "error: invalid seek format");
                    },
                }
            },
            CliCommand::Seek(v) => {
                match v {
                    Some(s) => {
                        es.push(CliEffect::Print(number_text("seeking to ", s, " seconds")));
                        es.push(CliEffect::SeekTo(s));
                    },
                    None => {
                        say(&mut es, "error: invalid seek format");
                    },
                }
            },
            CliCommand::SeekBackward(v) => {
                match v {
                    Some(s) => {
                        proof {
                            lemma_ms_fits(s);
                        }
                        if s <= 0xffff_ffff_ffff_ffff / 1000 {
                            es.push(
                                CliEffect::Print(
                                    number_text("seeking backwards to ", s, " seconds"),
                                ),
                            );
                            let c = self.player.seek_backward(s * 1000);
                            es.push(CliEffect::Send(c));
                        } else {
                            say(&mut es, "error: invalid seek format");
                        }
                    },
                    None => {
                        say(&mut es, "error: invalid seek format");
                    },
                }
            },
            CliCommand::Stop => {
                let c = self.player.stop();
                es.push(CliEffect::Send(c));
                say(&mut es, "queue.player stopped!");
            },
            CliCommand::Delete(v) => {
                match v {
                    Some(i) => {
                        if i < self.queue.queue.len() {
                            self.queue.queue.remove(i);
                            let mut out = chars_of("removed queued track with position: ");
                            push_dec(&mut out, i as u64);
                            es.push(CliEffect::Print(string_from_chars(out.as_slice())));
                        } else {
                            say(&mut es, "error: incorrect queue index!");
                        }
                    },
                    None => {
                        say(&mut es, "error: delete position must be integer index");
                    },
                }
            },
            CliCommand::Search(t) => {
                es.push(CliEffect::Search(t));
            },
            CliCommand::Insert(v, raw) => {
                match v {
                    Some(id) => {
                        let n = self.search_results.len();
                        if n > 0 {
                            let k = if id < n {
                                id
                            } else {
                                n - 1
                            };
                            let url = self.search_results[k].url.clone();
                            es.push(CliEffect::LoadAlbum(url, true));
                        } else {
                            say(&mut es, "empty!");
                        }
                    },
                    None => {
                        let rc = chars_of(raw.as_str());
                        let http = chars_of("http");
                        proof {
                            reveal_strlit("http");
                        }
                        if http.len() <= rc.len() && matches_at(&rc, &http, 0) {
                            es.push(CliEffect::LoadAlbum(raw, false));
                        }
                    },
                }
            },
            CliCommand::List => {
                es = self.list_effects();
            },
            CliCommand::PlayAt(v) => {
                match v {
                    Some(i) => {
                        self.queue.queue_pos = i;
                        if i < self.queue.queue.len() {
                            let url = self.queue.queue[i].audio_url.clone();
                            let c = self.player.switch_track(url);
                            es.push(CliEffect::Send(c));
                        }
                    },
                    None => {
                        say(&mut es, "incorrect format!");
                    },
                }
            },
            CliCommand::TogglePause => {
                if !self.player.is_paused() {
                    say(&mut es, "info: pause");
                    let c = self.player.set_paused(true);
                    match c {
                        Some(c) => es.push(CliEffect::Send(c)),
                        None => {},
                    }
                } else {
                    say(&mut es, "info: playing");
                    let c = self.player.set_paused(false);
                    match c {
                        Some(c) => es.push(CliEffect::Send(c)),
                        None => {},
                    }
                }
            },
            CliCommand::Duration => {
                es.push(CliEffect::ShowTime);
            },
            CliCommand::Next => {
                if self.queue.queue.len() >= 1 && self.queue.queue_pos < usize::MAX {
                    let _ = self.queue.next();
                }
                say(&mut es, "next track!");
            },
            CliCommand::Prev => {
                if self.queue.queue_pos > 0 && self.queue.queue_pos - 1 < self.queue.queue.len() {
                    let _ = self.queue.prev();
                }
                say(&mut es, "prev track!");
            },
            CliCommand::Help => {
                es = help_effects();
            },
            CliCommand::Ignored => {},
            CliCommand::Unknown(w) => {
                let mut out = chars_of("error: unknown command `");
                push_str(&mut out, w.as_str());
                push_str(&mut out, "` type `help` for commands");
                es.push(CliEffect::Print(string_from_chars(out.as_slice())));
            },
        }
        proof {
            if es@.len() == 1 {
                assert(es@ =~= seq![es@[0]]);
            }
        }
        es
    }

    /// The lines `ls` prints.
    fn list_effects(&self) -> (es: Vec<CliEffect>)
        ensures
            prints(es@, list_lines(self.queue.queue@, self.queue.queue_pos as nat)),
    {
        let mut es: Vec<CliEffect> = Vec::new();
        let ghost head: Seq<Seq<char>> = if self.queue.queue.len() == 0 {
            seq!["queue is empty!"@]
        } else {
            Seq::empty()
        };
        if self.queue.queue.len() == 0 {
            say(&mut es, "queue is empty!");
        }
        assert(prints(es@, head));
        let ghost q = self.queue.queue@;
        let pos = self.queue.queue_pos;
        let mut i: usize = 0;
        while i < self.queue.queue.len()
            invariant
                i <= self.queue.queue.len(),
                q == self.queue.queue@,
                pos == self.queue.queue_pos,
                prints(es@, head + Seq::new(i as nat, |k: int| list_line(q[k], k as nat, pos as nat))),
            decreases self.queue.queue.len() - i,
        {
            let t = list_line_text(&self.queue.queue[i], i, pos);
            let ghost before = head + Seq::new(i as nat, |k: int| list_line(q[k], k as nat, pos as nat));
            say_more(&mut es, t, Ghost(before));
            assert(before.push(list_line(q[i as int], i as nat, pos as nat)) =~= head + Seq::new(
                (i + 1) as nat,
                |k: int| list_line(q[k], k as nat, pos as nat),
            ));
            i = i + 1;
        }
        es
    }

    /// Takes the hits of a search: they replace the earlier ones, and the
    /// tracks and albums among them are listed; `None` (nothing found)
    /// prints `not found`.
    pub fn search_found(&mut self, found: Option<Vec<SearchHit>>) -> (es: Vec<CliEffect>)
        ensures
            match found {
                Some(hits) => {
                    &&& final(self).search_results@ == hits@
                    &&& final(self).queue == old(self).queue
                    &&& final(self).player == old(self).player
                    &&& prints(
                        es@,
                        hit_lines(hits@, hits@.len()).push(
                            "type `ins [index]` to add search result content to queue"@,
                        ),
                    )
                },
                None => final(self).queue == old(self).queue && final(self).search_results == old(
                    self,
                ).search_results && final(self).player == old(self).player && prints(
                    es@,
                    seq!["not found"@],
                ),
            },
    {
        let mut es: Vec<CliEffect> = Vec::new();
        match found {
            Some(hits) => {
                self.search_results = hits;
                let ghost h = self.search_results@;
                let mut i: usize = 0;
                while i < self.search_results.len()
                    invariant
                        i <= self.search_results.len(),
                        h == self.search_results@,
                        prints(es@, hit_lines(h, i as nat)),
                    decreases self.search_results.len() - i,
                {
                    let hit = &self.search_results[i];
                    let listed = string_is(&hit.field_type, "t") || string_is(&hit.field_type, "a");
                    if listed {
                        let t = hit_line_text(hit, i);
                        say_more(&mut es, t, Ghost(hit_lines(h, i as nat)));
                    }
                    i = i + 1;
                }
                let ghost before = hit_lines(h, h.len());
                say_more(
                    &mut es,
                    "type `ins [index]` to add search result content to queue".to_string(),
                    Ghost(before),
                );
            },
            None => {
                say(&mut es, "not found");
                assert(es@ =~= seq![es@[0]]);
            },
        }
        es
    }

    /// Takes an album that was loaded (`None`: it could not be loaded or
    /// read) and queues its tracks. An album from the search results is
    /// queued silently; one from a URL is acknowledged. A failure, or an
    /// album with a released track without a stream, prints an error.
    pub fn album_loaded(&mut self, album: Option<Album>, from_search: bool) -> (es: Vec<CliEffect>)
        ensures
            final(self).player == old(self).player,
            final(self).search_results == old(self).search_results,
            final(self).queue.queue_pos == old(self).queue.queue_pos,
            final(self).queue.shuffle == old(self).queue.shuffle,
            match album {
                Some(a) => if files_present(a) {
                    &&& album_added(old(self).queue.queue@, final(self).queue.queue@, a)
                    &&& if album_add_succeeds(a) {
                        if from_search {
                            es@.len() == 0
                        } else {
                            prints(
                                es@,
                                seq!["track(s) inserted sucessfully type 'ls' to view it!"@],
                            )
                        }
                    } else {
                        prints(es@, seq!["error while parsing album data!"@])
                    }
                } else {
                    final(self).queue == old(self).queue && prints(
                        es@,
                        seq!["error while parsing album data!"@],
                    )
                },
                None => final(self).queue == old(self).queue && prints(
                    es@,
                    seq!["error while parsing album data!"@],
                ),
            },
    {
        let mut es: Vec<CliEffect> = Vec::new();
        match album {
            Some(a) => {
                if album_files_present(&a) {
                    let r = self.queue.add_album(&a);
                    match r {
                        Ok(()) => {
                            if !from_search {
                                say(&mut es, "track(s) inserted sucessfully type 'ls' to view it!");
                                assert(es@ =~= seq![es@[0]]);
                            }
                        },
                        Err(_) => {
                            say(&mut es, "error while parsing album data!");
                            assert(es@ =~= seq![es@[0]]);
                        },
                    }
                } else {
                    say(&mut es, "error while parsing album data!");
                    assert(es@ =~= seq![es@[0]]);
                }
            },
            None => {
                say(&mut es, "error while parsing album data!");
                assert(es@ =~= seq![es@[0]]);
            },
        }
        es
    }

    /// Shows the playing position, in whole seconds, as `mm:ss`; nothing
    /// when nothing plays.
    pub fn time_shown(&self, secs: Option<u64>) -> (es: Vec<CliEffect>)
        ensures
            match secs {
                Some(s) => prints(es@, seq![clock_text(s as nat)]),
                None => es@.len() == 0,
            },
    {
        let mut es: Vec<CliEffect> = Vec::new();
        match secs {
            Some(s) => {
                es.push(CliEffect::Print(format_clock(s)));
                assert(es@ =~= seq![es@[0]]);
            },
            None => {},
        }
        es
    }

    /// Moves to second `target` of the track, which plays at second
    /// `current` (none: 0); an error when the distance does not fit the
    /// player's 32-bit arithmetic.
    pub fn seek_to(&mut self, current: Option<u64>, target: u64) -> (es: Vec<CliEffect>)
        ensures
            final(self).queue == old(self).queue,
            final(self).search_results == old(self).search_results,
            final(self).player@ == old(self).player@,
            ({
                let cur = match current {
                    Some(s) => s,
                    None => 0u64,
                };
                let d = (cur as i32) - (target as i32);
                if i32::MIN < d <= i32::MAX {
                    let (ahead, ms) = seek_command_spec(cur, target);
                    es@.len() == 1 && es@[0] == CliEffect::Send(
                        if ahead {
                            Command::SeekForward(ms as u64)
                        } else {
                            Command::SeekBackwards(ms as u64)
                        },
                    )
                } else {
                    prints(es@, seq!["error: invalid seek format"@])
                }
            }),
    {
        let mut es: Vec<CliEffect> = Vec::new();
        let cur = match current {
            Some(s) => s,
            None => 0,
        };
        let d: i64 = (cur as i32) as i64 - (target as i32) as i64;
        if d > i32::MIN as i64 && d <= i32::MAX as i64 {
            let c = self.player.seek(current, target);
            es.push(CliEffect::Send(c));
            assert(es@ =~= seq![es@[0]]);
        } else {
            say(&mut es, "error: invalid seek format");
            assert(es@ =~= seq![es@[0]]);
        }
        es
    }
}

/// A number of seconds fits in milliseconds exactly when it is at most a
/// thousandth of the largest 64-bit number.
proof fn lemma_ms_fits(s: u64)
    ensures
        (s <= 0xffff_ffff_ffff_ffffu64 / 1000) <==> s * 1000 <= u64::MAX,
{
    assert((s <= 0xffff_ffff_ffff_ffffu64 / 1000) ==> s * 1000 <= u64::MAX) by (nonlinear_arith);
    assert((s > 0xffff_ffff_ffff_ffffu64 / 1000) ==> s * 1000 > u64::MAX) by (nonlinear_arith);
}

/// Whether the string `s` is the literal `t`.
pub(crate) fn string_is(s: &String, t: &str) -> (r: bool)
    ensures
        r == (s@ == t@),
{
    let a = chars_of(s.as_str());
    let b = chars_of(t);
    crate::tag_order::chars_equal(&a, &b)
}

/// Whether the player may lower the volume `vol` by `value`.
pub(crate) fn volume_down_allowed(vol: u16, value: u16) -> (r: bool)
    ensures
        r == volume_down_ok(vol, value),
{
    let d: i32 = (vol as i16) as i32 - (value as i16) as i32;
    d >= -32768 && d <= 32767 && (d < 0 || vol >= value)
}

/// The lines of `help`.
fn help_effects() -> (es: Vec<CliEffect>)
    ensures
        prints(es@, help_lines()),
{
    let mut es: Vec<CliEffect> = Vec::new();
    let ghost mut ts: Seq<Seq<char>> = Seq::empty();
    say_more(&mut es, "command help:".to_string(), Ghost(ts));
    proof { ts = ts.push("command help:"@); }
    say_more(&mut es, "`c`, `exit` - closes program".to_string(), Ghost(ts));
    proof { ts = ts.push("`c`, `exit` - closes program"@); }
    say_more(&mut es, "`p` - play/pause".to_string(), Ghost(ts));
    proof { ts = ts.push("`p` - play/pause"@); }
    say_more(&mut es, "`d` - current track duration".to_string(), Ghost(ts));
    proof { ts = ts.push("`d` - current track duration"@); }
    say_more(&mut es, "`next` - plays next track".to_string(), Ghost(ts));
    proof { ts = ts.push("`next` - plays next track"@); }
    say_more(&mut es, "`prev` - plays prev track".to_string(), Ghost(ts));
    proof { ts = ts.push("`prev` - plays prev track"@); }
    say_more(&mut es, "`ls` - current play queue items".to_string(), Ghost(ts));
    proof { ts = ts.push("`ls` - current play queue items"@); }
    say_more(
        &mut es,
        "`ins [album/track url]` - add tracks from URL into play queue".to_string(),
        Ghost(ts),
    );
    proof { ts = ts.push("`ins [album/track url]` - add tracks from URL into play queue"@); }
    say_more(&mut es, "`del [queue index]` - remove track from play queue".to_string(), Ghost(ts));
    proof { ts = ts.push("`del [queue index]` - remove track from play queue"@); }
    say_more(
        &mut es,
        "`seekf [secs]` - seek current track forward to `secs` seconds".to_string(),
        Ghost(ts),
    );
    proof { ts = ts.push("`seekf [secs]` - seek current track forward to `secs` seconds"@); }
    say_more(
        &mut es,
        "`seekb [secs]` - seek current track backward to `secs` seconds".to_string(),
        Ghost(ts),
    );
    proof { ts = ts.push("`seekb [secs]` - seek current track backward to `secs` seconds"@); }
    say_more(&mut es, "`voli [value]` - inscrease volume level".to_string(), Ghost(ts));
    proof { ts = ts.push("`voli [value]` - inscrease volume level"@); }
    say_more(&mut es, "`vold [value]` - decrease volume level".to_string(), Ghost(ts));
    proof { ts = ts.push("`vold [value]` - decrease volume level"@); }
    say_more(&mut es, "`seek` [secs] - seek to absolute position on track".to_string(), Ghost(ts));
    proof { ts = ts.push("`seek` [secs] - seek to absolute position on track"@); }
    assert(ts =~= help_lines());
    es
}

/// In the list `ls` prints, a line begins with `> ` exactly when it is the
/// line of the track at the queue's position, and with two spaces
/// otherwise.
pub proof fn lemma_list_line_marks_position(t: QueuedTrack, i: nat, pos: nat)
    ensures
        list_line(t, i, pos).len() >= 2,
        list_line(t, i, pos).subrange(0, 2) == (if i == pos {
            "> "@
        } else {
            "  "@
        }),
{
    reveal_strlit("> ");
    reveal_strlit("  ");
    let head = if i == pos {
        "> "@
    } else {
        "  "@
    };
    assert(list_line(t, i, pos).subrange(0, 2) =~= head);
}

} // verus!
