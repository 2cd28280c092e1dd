//! The decisions of the frame-based console front-end: three list boxes
//! (tags, discovered releases, play queue) of which the focused one fills
//! the screen, a state bar, and the player's keys.
//!
//! The program around it draws a frame, reads the keys and the mouse, the
//! clock and the terminal size, loads pages and albums, and hands each
//! input to the state here; it carries out the effects that come back.
use vstd::prelude::*;

use crate::cli_drawing::{next_page, page_count, prev_page};
use crate::cli_shell::volume_down_ok;
use crate::discover::{has_tag, request_for, State};
use crate::listbox::{get_focus_at, line_index, scrolled_down, scrolled_up, setup_focus_at, ListBox};
use crate::model::{Album, DiscoverRequest, Item};
use crate::playback::{clock_text, format_clock, lowered_volume, Command, Player};
use crate::queue::{
    album_add_succeeds, album_added, album_files_present, entry_text, error_text, files_present, next_pos,
    set_pos, Queue, QueueError, QueuedTrack,
};
use crate::text::{chars_of, dec, push_dec, push_str, string_from_chars, string_views};

verus! {

broadcast use vstd::string::group_string_axioms;

/// The list box of the tags.
pub const LIST_TAGS: usize = 0;

/// The list box of the discovered releases.
pub const LIST_DISCOVER: usize = 1;

/// The list box of the play queue.
pub const LIST_QUEUE: usize = 2;

/// What the console hands in: a key, a mouse click or wheel turn, or a new
/// terminal size.
pub enum ConsoleInput {
    Esc,
    CtrlC,
    Down,
    Up,
    Char(char),
    Enter,
    Tab,
    F1,
    Left,
    Right,
    PageDown,
    PageUp,
    /// The left button pressed at a column and row.
    Click(u32, u32),
    ScrollDown,
    ScrollUp,
    /// The terminal now has this many columns and rows.
    Resize(u16, u16),
    Other,
}

/// What the program around the console front-end is to do, in order.
pub enum ConsoleEffect {
    /// End the front-end.
    Quit,
    /// Send this command to the audio thread.
    Send(Command),
    /// Show this text in the state bar.
    Information(String),
    /// Show this text in the state bar as an error.
    Error(String),
    /// Show this text at the bottom of the screen.
    BottomInfo(String),
    /// Load this page of releases, then hand it to `discover_loaded`
    /// (`true`: Enter asked for it, and goes on once it is there).
    LoadDiscover(DiscoverRequest, bool),
    /// Load the album at this URL, then hand it to `album_loaded`.
    LoadAlbum(String),
    /// Open this URL in the web browser.
    OpenBrowser(String),
    /// Show or hide the overlay with the terminal size and frame rate.
    ToggleOverlay,
}

/// A move of a list box.
pub enum BoxMove {
    /// One line down, to the next page at the bottom of a page.
    Down,
    /// One line up, to the previous page at the top of a page.
    Up,
    /// To the next page.
    PageForward,
    /// To the previous page.
    PageBack,
}

/// The state of the console front-end.
pub struct ConsoleUi {
    /// The list boxes: tags, releases, queue.
    pub listboxes: Vec<ListBox>,
    /// The chosen tags and the releases loaded for them.
    pub state: State,
    /// The play queue.
    pub queue: Queue,
    /// The player.
    pub player: Player,
    /// The number of rows of the terminal.
    pub rows: u32,
}

/// Whether list box `n` is `o` after the move `m`. A box with no room for a
/// line (two rows or less) moves only back a page.
pub open spec fn moved(o: ListBox, n: ListBox, m: BoxMove) -> bool {
    let per = (o.height - 2) as nat;
    let count = page_count(o.display@.len(), per);
    &&& n.display == o.display && n.width == o.width && n.height == o.height
    &&& n.focused == o.focused && n.description == o.description
    &&& match m {
        BoxMove::PageBack => n.page == prev_page(o.page as nat) && n.position == o.position,
        _ => if o.height <= 2 {
            n.page == o.page && n.position == o.position
        } else {
            match m {
                BoxMove::Down => (n.position as nat, n.page as nat) == scrolled_down(
                    o.position as nat,
                    o.page as nat,
                    per,
                    count,
                ),
                BoxMove::Up => (n.position as nat, n.page as nat) == scrolled_up(
                    o.position as nat,
                    o.page as nat,
                    per,
                ),
                _ => n.page == next_page(o.page as nat, count) && n.position == (if o.page < count {
                    0
                } else {
                    o.position
                }),
            }
        },
    }
}

/// Whether the boxes `n` are `o` with every focused box moved by `m`.
pub open spec fn focused_moved(o: Seq<ListBox>, n: Seq<ListBox>, m: BoxMove) -> bool {
    &&& n.len() == o.len()
    &&& forall|k: int|
        0 <= k < o.len() ==> if o[k].focused {
            moved(o[k], #[trigger] n[k], m)
        } else {
            n[k] == o[k]
        }
}

/// Whether `n` keeps the state, the queue, the player and the size of `o`.
pub open spec fn keeps_all_but_boxes(o: ConsoleUi, n: ConsoleUi) -> bool {
    &&& n.state == o.state
    &&& n.queue == o.queue
    &&& n.player@ == o.player@
    &&& n.rows == o.rows
}

/// Whether `n` is `o`, as far as the contracts look.
pub open spec fn unchanged(o: ConsoleUi, n: ConsoleUi) -> bool {
    keeps_all_but_boxes(o, n) && n.listboxes == o.listboxes
}

impl ConsoleUi {
    /// A front-end for a terminal of `cols` by `rows` offering `tags`: the
    /// three boxes fill the screen, the tag box has the focus.
    pub fn new(cols: u16, rows: u16, tags: Vec<String>) -> (s: Self)
        ensures
            s.listboxes@.len() == 3,
            forall|k: int|
                0 <= k < 3 ==> (#[trigger] s.listboxes@[k]).width == cols && s.listboxes@[k].height
                    == rows && s.listboxes@[k].page == 0 && s.listboxes@[k].position == 0
                    && s.listboxes@[k].focused == (k == 0),
            s.listboxes@[0].display@ == tags@,
            s.listboxes@[1].display@.len() == 0,
            s.listboxes@[2].display@.len() == 0,
            s.listboxes@[0].description@ == "Tags"@,
            s.listboxes@[1].description@ == "Discover"@,
            s.listboxes@[2].description@ == "Play queue"@,
            s.state.pages() == 0,
            s.state.selected().len() == 0,
            s.state.loaded().len() == 0,
            s.queue.queue@.len() == 0 && s.queue.queue_pos == 0 && !s.queue.shuffle,
            s.player@ == (false, 100u16),
            s.rows == rows,
    {
        let mut tags_box = ListBox::new(cols, rows, true, "Tags".to_string());
        tags_box.display = tags;
        let mut listboxes: Vec<ListBox> = Vec::new();
        listboxes.push(tags_box);
        listboxes.push(ListBox::new(cols, rows, false, "Discover".to_string()));
        listboxes.push(ListBox::new(cols, rows, false, "Play queue".to_string()));
        ConsoleUi {
            listboxes,
            state: State::new(),
            queue: Queue::new(),
            player: Player::new(),
            rows: rows as u32,
        }
    }

    /// Moves every focused box by `m`.
    fn move_focused(&mut self, m: BoxMove)
        ensures
            focused_moved(old(self).listboxes@, final(self).listboxes@, m),
            keeps_all_but_boxes(*old(self), *final(self)),
    {
        let mut i: usize = 0;
        while i < self.listboxes.len()
            invariant
                i <= self.listboxes.len(),
                self.listboxes@.len() == old(self).listboxes@.len(),
                keeps_all_but_boxes(*old(self), *self),
                forall|k: int|
                    0 <= k < i ==> if old(self).listboxes@[k].focused {
                        moved(old(self).listboxes@[k], #[trigger] self.listboxes@[k], m)
                    } else {
                        self.listboxes@[k] == old(self).listboxes@[k]
                    },
                forall|k: int|
                    i <= k < self.listboxes@.len() ==> #[trigger] self.listboxes@[k] == old(
                        self,
                    ).listboxes@[k],
            decreases self.listboxes.len() - i,
        {
            if self.listboxes[i].focused {
                let mut b = self.listboxes.remove(i);
                match m {
                    BoxMove::Down => {
                        if b.height > 2 {
                            b.scroll_down();
                        }
                    },
                    BoxMove::Up => {
                        if b.height > 2 {
                            b.scroll_up();
                        }
                    },
                    BoxMove::PageForward => {
                        if b.height > 2 {
                            b.switch_page_up();
                        }
                    },
                    BoxMove::PageBack => {
                        b.switch_page_down();
                    },
                }
                self.listboxes.insert(i, b);
            }
            i = i + 1;
        }
    }

    /// Gives every box the size `w` by `h`, and takes `h` as the number of
    /// rows.
    fn resize_all(&mut self, w: u16, h: u16)
        ensures
            final(self).listboxes@.len() == old(self).listboxes@.len(),
            forall|k: int|
                0 <= k < old(self).listboxes@.len() ==> {
                    let ob = old(self).listboxes@[k];
                    let nb = #[trigger] final(self).listboxes@[k];
                    &&& nb.width == w && nb.height == h && nb.position == 0
                    &&& nb.display == ob.display && nb.page == ob.page
                    &&& nb.focused == ob.focused && nb.description == ob.description
                },
            final(self).state == old(self).state,
            final(self).queue == old(self).queue,
            final(self).player@ == old(self).player@,
            final(self).rows == h,
    {
        let mut i: usize = 0;
        while i < self.listboxes.len()
            invariant
                i <= self.listboxes.len(),
                self.listboxes@.len() == old(self).listboxes@.len(),
                self.state == old(self).state,
                self.queue == old(self).queue,
                self.player@ == old(self).player@,
                self.rows == old(self).rows,
                forall|k: int|
                    0 <= k < i ==> {
                        let ob = old(self).listboxes@[k];
                        let nb = #[trigger] self.listboxes@[k];
                        &&& nb.width == w && nb.height == h && nb.position == 0
                        &&& nb.display == ob.display && nb.page == ob.page
                        &&& nb.focused == ob.focused && nb.description == ob.description
                    },
                forall|k: int|
                    i <= k < self.listboxes@.len() ==> #[trigger] self.listboxes@[k] == old(
                        self,
                    ).listboxes@[k],
            decreases self.listboxes.len() - i,
        {
            let mut b = self.listboxes.remove(i);
            b.resize(w, h);
            self.listboxes.insert(i, b);
            i = i + 1;
        }
        self.rows = h as u32;
    }
}


/// What an effect asks for, its texts taken as characters.
pub enum Shown {
    Quit,
    Send(Command),
    Information(Seq<char>),
    Error(Seq<char>),
    BottomInfo(Seq<char>),
    LoadDiscover(DiscoverRequest, bool),
    LoadAlbum(Seq<char>),
    OpenBrowser(Seq<char>),
    ToggleOverlay,
}

/// What the effect `e` asks for.
pub open spec fn shown(e: ConsoleEffect) -> Shown {
    match e {
        ConsoleEffect::Quit => Shown::Quit,
        ConsoleEffect::Send(c) => Shown::Send(c),
        ConsoleEffect::Information(t) => Shown::Information(t@),
        ConsoleEffect::Error(t) => Shown::Error(t@),
        ConsoleEffect::BottomInfo(t) => Shown::BottomInfo(t@),
        ConsoleEffect::LoadDiscover(r, f) => Shown::LoadDiscover(r, f),
        ConsoleEffect::LoadAlbum(u) => Shown::LoadAlbum(u@),
        ConsoleEffect::OpenBrowser(u) => Shown::OpenBrowser(u@),
        ConsoleEffect::ToggleOverlay => Shown::ToggleOverlay,
    }
}

/// What the effects `es` ask for, in order.
pub open spec fn shown_all(es: Seq<ConsoleEffect>) -> Seq<Shown> {
    es.map_values(|e: ConsoleEffect| shown(e))
}

/// The texts `t` joined with `sep` between them.
pub open spec fn joined(t: Seq<Seq<char>>, sep: Seq<char>) -> Seq<char>
    decreases t.len(),
{
    if t.len() == 0 {
        Seq::empty()
    } else if t.len() == 1 {
        t[0]
    } else {
        joined(t.drop_last(), sep) + sep + t.last()
    }
}

/// The line a release is listed with: `artist - title`.
pub open spec fn release_line(it: Item) -> Seq<char> {
    it.artist@ + " - "@ + it.title@
}

/// The box that has the focus: the first focused of the three, or the
/// first box when none is.
pub open spec fn focus_index(bs: Seq<ListBox>) -> int {
    if bs[0].focused {
        0
    } else if bs[1].focused {
        1
    } else if bs[2].focused {
        2
    } else {
        0
    }
}

/// Whether the boxes `n` are `o` with the focus on box `id` alone.
pub open spec fn refocused(o: Seq<ListBox>, n: Seq<ListBox>, id: int) -> bool {
    &&& n.len() == o.len()
    &&& forall|k: int|
        0 <= k < o.len() ==> {
            let ob = o[k];
            let nb = #[trigger] n[k];
            &&& nb.focused == (k == id)
            &&& nb.display == ob.display && nb.page == ob.page && nb.position == ob.position
            &&& nb.width == ob.width && nb.height == ob.height && nb.description == ob.description
        }
}

/// The player paused or resumed, and the command that says so.
pub open spec fn toggled(o: ConsoleUi, n: ConsoleUi, s: Seq<Shown>) -> bool {
    &&& n.player@ == (!o.player@.0, o.player@.1)
    &&& s == seq![
        Shown::Send(
            if o.player@.0 {
                Command::Play
            } else {
                Command::Pause
            },
        ),
    ]
}

/// Tab: the focus goes to the next box (after the last, to the first), and
/// the bar shows its caption.
pub open spec fn tabbed(o: ConsoleUi, n: ConsoleUi, s: Seq<Shown>) -> bool {
    let r = focus_index(o.listboxes@);
    let t = if r + 1 > 2 {
        0
    } else {
        r + 1
    };
    &&& keeps_all_but_boxes(o, n)
    &&& refocused(o.listboxes@, n.listboxes@, t)
    &&& s == seq![Shown::Information(o.listboxes@[t].description@)]
}

/// Space: in the tag box, the tag under the cursor is chosen (unless it is
/// already); elsewhere the player pauses or resumes.
pub open spec fn spaced(o: ConsoleUi, n: ConsoleUi, s: Seq<Shown>) -> bool {
    let b = o.listboxes@[0];
    let sel = o.state.selected();
    &&& n.listboxes == o.listboxes && n.queue == o.queue && n.rows == o.rows
    &&& if b.focused {
        &&& n.player@ == o.player@ && s.len() == 0
        &&& n.state.loaded() == o.state.loaded() && n.state.pages() == o.state.pages()
        &&& if b.position < b.display@.len() && !has_tag(sel, b.display@[b.position as int]@) {
            &&& n.state.selected().len() == sel.len() + 1
            &&& n.state.selected().drop_last() == sel
            &&& n.state.selected().last()@ == b.display@[b.position as int]@
        } else {
            n.state.selected() == sel
        }
    } else {
        n.state == o.state && toggled(o, n, s)
    }
}

/// A click at column `x` and row `y`: on the first cell of the last row
/// the player pauses or resumes; in every box at least `x + 1` wide, a
/// click above the last two rows puts the cursor on row `y`.
pub open spec fn clicked(o: ConsoleUi, n: ConsoleUi, x: u32, y: u32, s: Seq<Shown>) -> bool {
    &&& n.state == o.state && n.queue == o.queue && n.rows == o.rows
    &&& n.listboxes@.len() == o.listboxes@.len()
    &&& forall|k: int|
        0 <= k < o.listboxes@.len() ==> {
            let ob = o.listboxes@[k];
            let nb = #[trigger] n.listboxes@[k];
            &&& nb.display == ob.display && nb.page == ob.page && nb.width == ob.width
            &&& nb.height == ob.height && nb.focused == ob.focused && nb.description == ob.description
            &&& nb.position == (if x < ob.width && o.rows >= 2 && y < o.rows - 2 {
                y as usize
            } else {
                ob.position
            })
        }
    &&& if x == 0 && o.rows >= 1 && y == o.rows - 1 {
        toggled(o, n, s)
    } else {
        n.player@ == o.player@ && s.len() == 0
    }
}

/// `a`: the volume goes down by 5 while it is above 0, as the player
/// computes it with 16-bit signed numbers; nothing where that computation
/// would overflow.
pub open spec fn volume_lowered(o: ConsoleUi, n: ConsoleUi, s: Seq<Shown>) -> bool {
    let vol = o.player@.1;
    &&& n.listboxes == o.listboxes && n.state == o.state && n.queue == o.queue && n.rows == o.rows
    &&& match (if vol > 0 && volume_down_ok(vol, 5) {
        lowered_volume(vol, 5)
    } else {
        None
    }) {
        Some(nv) => n.player@ == (o.player@.0, nv) && s == seq![Shown::Send(Command::AddVolume(nv))],
        None => n.player@ == o.player@ && s.len() == 0,
    }
}

/// `d`: the volume goes up by 5 while it is below 100.
pub open spec fn volume_raised(o: ConsoleUi, n: ConsoleUi, s: Seq<Shown>) -> bool {
    let vol = o.player@.1;
    &&& n.listboxes == o.listboxes && n.state == o.state && n.queue == o.queue && n.rows == o.rows
    &&& if vol < 100 {
        &&& n.player@ == (o.player@.0, (vol + 5) as u16)
        &&& s == seq![Shown::Send(Command::AddVolume((vol + 5) as u16))]
    } else {
        n.player@ == o.player@ && s.len() == 0
    }
}

/// `o`: the album page of the current track opens in the browser; an
/// empty queue is an error.
pub open spec fn browsed(o: ConsoleUi, n: ConsoleUi, s: Seq<Shown>) -> bool {
    let q = o.queue;
    &&& unchanged(o, n)
    &&& if q.queue@.len() > 0 {
        if q.queue_pos < q.queue@.len() {
            s == seq![Shown::OpenBrowser(q.queue@[q.queue_pos as int].album_url@)]
        } else {
            s.len() == 0
        }
    } else {
        s == seq![Shown::Error("Queue list is empty!"@)]
    }
}

/// `l`: the next page of releases for the chosen tags is asked for.
pub open spec fn asked_more(o: ConsoleUi, n: ConsoleUi, s: Seq<Shown>) -> bool {
    &&& n.listboxes == o.listboxes && n.queue == o.queue && n.player@ == o.player@ && n.rows == o.rows
    &&& n.state.selected() == o.state.selected() && n.state.loaded() == o.state.loaded()
    &&& if o.state.pages() < usize::MAX && o.state.selected().len() > 0 {
        &&& n.state.pages() == o.state.pages() + 1
        &&& s.len() == 1
        &&& s[0] matches Shown::LoadDiscover(req, f) && !f && request_for(
            o.state.selected(),
            n.state.pages() as i64,
            req,
        )
    } else {
        n.state.pages() == o.state.pages() && s.len() == 0
    }
}

/// Enter in the release box: the release under the cursor is loaded; with
/// no release loaded, an error names the chosen tags.
pub open spec fn release_effects(o: ConsoleUi) -> Seq<Shown> {
    let b = o.listboxes@[1];
    let d = o.state.loaded();
    if b.focused {
        if d.len() > 0 {
            if b.height >= 2 && line_index(b.position as nat, b.page as nat, b.height as nat)
                <= usize::MAX {
                let i = line_index(b.position as nat, b.page as nat, b.height as nat);
                if i < d.len() {
                    seq![Shown::LoadAlbum(d[i as int].tralbum_url@)]
                } else {
                    Seq::empty()
                }
            } else {
                Seq::empty()
            }
        } else {
            seq![
                Shown::Error(
                    "Cannot load discover! Please select another tags: "@ + joined(
                        string_views(o.state.selected()),
                        ", "@,
                    ),
                ),
            ]
        }
    } else {
        Seq::empty()
    }
}

/// Enter in the queue box: the track under the cursor plays.
pub open spec fn played_selected(o: ConsoleUi, n: ConsoleUi, s: Seq<Shown>) -> bool {
    let b = o.listboxes@[2];
    let q = o.queue;
    &&& n.queue.queue == q.queue && n.queue.shuffle == q.shuffle
    &&& if b.focused && b.height >= 2 && line_index(b.position as nat, b.page as nat, b.height as nat)
        <= usize::MAX {
        match set_pos(
            q.queue@.len() as int,
            line_index(b.position as nat, b.page as nat, b.height as nat) as int,
        ) {
            Some(p) => n.queue.queue_pos == p && s == seq![
                Shown::Send(Command::SwitchTrack(q.queue@[p].audio_url)),
            ],
            None => n.queue.queue_pos == q.queue_pos && s.len() == 0,
        }
    } else {
        n.queue.queue_pos == q.queue_pos && s.len() == 0
    }
}

/// Enter: in the tag box with tags chosen, the focus goes to the release
/// box and the first page of releases is asked for (the rest of the key
/// waits for it); with none chosen, an error. Then the release box and the
/// queue box, if focused, do their part.
pub open spec fn entered(o: ConsoleUi, n: ConsoleUi, s: Seq<Shown>) -> bool {
    let sel = o.state.selected();
    if o.listboxes@[0].focused && sel.len() > 0 {
        &&& refocused(o.listboxes@, n.listboxes@, 1)
        &&& n.queue == o.queue && n.player@ == o.player@ && n.rows == o.rows
        &&& n.state.selected() == sel && n.state.loaded() == o.state.loaded()
        &&& s.len() >= 2
        &&& s[0] == Shown::Information("Loading discover..."@)
        &&& s[1] == Shown::Information(o.listboxes@[1].description@)
        &&& if o.state.pages() < usize::MAX {
            &&& n.state.pages() == o.state.pages() + 1
            &&& s.len() == 3
            &&& s[2] matches Shown::LoadDiscover(req, f) && f && request_for(
                sel,
                n.state.pages() as i64,
                req,
            )
        } else {
            n.state.pages() == o.state.pages() && s.len() == 2
        }
    } else {
        let head = if o.listboxes@[0].focused {
            seq![Shown::Error("Please select at least 1 tag!"@)]
        } else {
            Seq::empty()
        };
        let first = head + release_effects(o);
        &&& n.listboxes == o.listboxes && n.state == o.state && n.player@ == o.player@
        &&& n.rows == o.rows
        &&& s.len() >= first.len()
        &&& s.subrange(0, first.len() as int) == first
        &&& played_selected(o, n, s.subrange(first.len() as int, s.len() as int))
    }
}

/// What an input does to `o`, giving `n` and the effects `s`.
pub open spec fn input_done(o: ConsoleUi, n: ConsoleUi, input: ConsoleInput, s: Seq<Shown>) -> bool {
    match input {
        ConsoleInput::Esc => unchanged(o, n) && s == seq![Shown::Quit],
        ConsoleInput::CtrlC => unchanged(o, n) && s == seq![Shown::Quit],
        ConsoleInput::Down => keeps_all_but_boxes(o, n) && focused_moved(
            o.listboxes@,
            n.listboxes@,
            BoxMove::Down,
        ) && s.len() == 0,
        ConsoleInput::Up => keeps_all_but_boxes(o, n) && focused_moved(
            o.listboxes@,
            n.listboxes@,
            BoxMove::Up,
        ) && s.len() == 0,
        ConsoleInput::PageDown => keeps_all_but_boxes(o, n) && focused_moved(
            o.listboxes@,
            n.listboxes@,
            BoxMove::PageForward,
        ) && s.len() == 0,
        ConsoleInput::ScrollDown => keeps_all_but_boxes(o, n) && focused_moved(
            o.listboxes@,
            n.listboxes@,
            BoxMove::PageForward,
        ) && s.len() == 0,
        ConsoleInput::PageUp => keeps_all_but_boxes(o, n) && focused_moved(
            o.listboxes@,
            n.listboxes@,
            BoxMove::PageBack,
        ) && s.len() == 0,
        ConsoleInput::ScrollUp => keeps_all_but_boxes(o, n) && focused_moved(
            o.listboxes@,
            n.listboxes@,
            BoxMove::PageBack,
        ) && s.len() == 0,
        ConsoleInput::Enter => entered(o, n, s),
        ConsoleInput::Tab => tabbed(o, n, s),
        ConsoleInput::F1 => unchanged(o, n) && s == seq![Shown::ToggleOverlay],
        ConsoleInput::Left => unchanged(o, n) && s == seq![Shown::Send(Command::SeekBackwards(5000))],
        ConsoleInput::Right => unchanged(o, n) && s == seq![Shown::Send(Command::SeekForward(5000))],
        ConsoleInput::Char(c) => if c == ' ' {
            spaced(o, n, s)
        } else if c == 's' {
            unchanged(o, n) && s == seq![Shown::Send(Command::Stop)]
        } else if c == 'a' {
            volume_lowered(o, n, s)
        } else if c == 'd' {
            volume_raised(o, n, s)
        } else if c == 'o' {
            browsed(o, n, s)
        } else if c == 'l' {
            asked_more(o, n, s)
        } else {
            unchanged(o, n) && s.len() == 0
        },
        ConsoleInput::Click(x, y) => clicked(o, n, x, y, s),
        ConsoleInput::Resize(w, h) => {
            &&& n.state == o.state && n.queue == o.queue && n.player@ == o.player@
            &&& n.rows == h
            &&& n.listboxes@.len() == o.listboxes@.len()
            &&& forall|k: int|
                0 <= k < o.listboxes@.len() ==> {
                    let ob = o.listboxes@[k];
                    let nb = #[trigger] n.listboxes@[k];
                    &&& nb.width == w && nb.height == h && nb.position == 0
                    &&& nb.display == ob.display && nb.page == ob.page
                    &&& nb.focused == ob.focused && nb.description == ob.description
                }
            &&& s.len() == 0
        },
        ConsoleInput::Other => unchanged(o, n) && s.len() == 0,
    }
}

/// The bottom line while a track plays: a pause or play sign, the volume,
/// the track, and the time played and the length.
pub open spec fn now_playing_text(paused: bool, vol: u16, tr: QueuedTrack, t: u64) -> Seq<char> {
    (if paused {
        "\u{23f8}"@
    } else {
        "\u{25b6}"@
    }) + " \u{1f508}"@ + dec(vol as nat) + "% "@ + tr.artist@ + " - "@ + tr.title@ + " from "@
        + tr.album@ + " "@ + clock_text((t / 1000) as nat) + "/"@ + clock_text(tr.duration as nat)
}

/// The bottom line while nothing plays: the stop sign and the volume.
pub open spec fn idle_text(vol: u16) -> Seq<char> {
    "\u{25fc} \u{1f508}"@ + dec(vol as nat) + "%"@
}

/// Three presses of Tab bring the focus back to the box that had it, when
/// one box alone had it.
pub proof fn lemma_three_tabs(
    a: ConsoleUi,
    b: ConsoleUi,
    c: ConsoleUi,
    d: ConsoleUi,
    s1: Seq<Shown>,
    s2: Seq<Shown>,
    s3: Seq<Shown>,
    i: int,
)
    requires
        a.listboxes@.len() == 3,
        0 <= i < 3,
        forall|k: int| 0 <= k < 3 ==> (#[trigger] a.listboxes@[k]).focused == (k == i),
        tabbed(a, b, s1),
        tabbed(b, c, s2),
        tabbed(c, d, s3),
    ensures
        forall|k: int| 0 <= k < 3 ==> (#[trigger] d.listboxes@[k]).focused == (k == i),
{
    assert(a.listboxes@[0].focused == (0 == i));
    assert(a.listboxes@[1].focused == (1 == i));
    assert(a.listboxes@[2].focused == (2 == i));
}

/// What an effect list asks for is what its parts ask for, in order.
proof fn lemma_shown_append(a: Seq<ConsoleEffect>, b: Seq<ConsoleEffect>)
    ensures
        shown_all(a + b) == shown_all(a) + shown_all(b),
{
    assert(shown_all(a + b) =~= shown_all(a) + shown_all(b));
}

/// The texts of `v` joined with `sep` between them.
fn join_with(v: &Vec<String>, sep: &str) -> (r: String)
    ensures
        r@ == joined(string_views(v@), sep@),
{
    let mut out: Vec<char> = Vec::new();
    let mut i: usize = 0;
    while i < v.len()
        invariant
            i <= v.len(),
            out@ == joined(string_views(v@.subrange(0, i as int)), sep@),
        decreases v.len() - i,
    {
        let ghost before = string_views(v@.subrange(0, i as int));
        if i > 0 {
            push_str(&mut out, sep);
        }
        push_str(&mut out, v[i].as_str());
        let ghost after = string_views(v@.subrange(0, i + 1));
        assert(after.drop_last() =~= before);
        assert(after.last() == v@[i as int]@);
        i = i + 1;
    }
    assert(v@.subrange(0, v.len() as int) =~= v@);
    string_from_chars(out.as_slice())
}

/// The index of the line under the cursor of `b`, counted over all
/// pages; `None` when the box has no room for lines or the count does not
/// fit.
fn cursor_index(b: &ListBox) -> (r: Option<usize>)
    ensures
        r == (if b.height >= 2 && line_index(b.position as nat, b.page as nat, b.height as nat)
            <= usize::MAX {
            Some(line_index(b.position as nat, b.page as nat, b.height as nat) as usize)
        } else {
            None::<usize>
        }),
{
    if b.height < 2 {
        return None;
    }
    let per = (b.height - 2) as usize;
    match b.page.checked_mul(per) {
        Some(m) => b.position.checked_add(m),
        None => {
            proof {
                assert(b.page * per <= b.page * per + b.position) by (nonlinear_arith)
                    requires
                        b.position >= 0,
                ;
            }
            None
        },
    }
}

/// The line a release is listed with.
fn release_text(it: &Item) -> (r: String)
    ensures
        r@ == release_line(*it),
{
    let mut out = chars_of(it.artist.as_str());
    push_str(&mut out, " - ");
    push_str(&mut out, it.title.as_str());
    string_from_chars(out.as_slice())
}

/// The bottom line while `tr` plays at `t` milliseconds.
fn now_playing(paused: bool, vol: u16, tr: &QueuedTrack, t: u64) -> (r: String)
    ensures
        r@ == now_playing_text(paused, vol, *tr, t),
{
    let mut out = if paused {
        chars_of("\u{23f8}")
    } else {
        chars_of("\u{25b6}")
    };
    push_str(&mut out, " \u{1f508}");
    push_dec(&mut out, vol as u64);
    push_str(&mut out, "% ");
    push_str(&mut out, tr.artist.as_str());
    push_str(&mut out, " - ");
    push_str(&mut out, tr.title.as_str());
    push_str(&mut out, " from ");
    push_str(&mut out, tr.album.as_str());
    push_str(&mut out, " ");
    let played = format_clock(t / 1000);
    push_str(&mut out, played.as_str());
    push_str(&mut out, "/");
    let length = format_clock(tr.duration);
    push_str(&mut out, length.as_str());
    string_from_chars(out.as_slice())
}

/// The bottom line while nothing plays.
fn idle(vol: u16) -> (r: String)
    ensures
        r@ == idle_text(vol),
{
    let mut out = chars_of("\u{25fc} \u{1f508}");
    push_dec(&mut out, vol as u64);
    push_str(&mut out, "%");
    string_from_chars(out.as_slice())
}

/// The error a queue gives for an album whose tracks cannot all be queued.
pub open spec fn add_error(a: Album) -> QueueError {
    if a.trackinfo is None {
        QueueError::NoTrackList
    } else {
        QueueError::NoTrackUrl
    }
}

/// The lines listing the whole queue `q`.
pub open spec fn queue_lines(q: Seq<QueuedTrack>) -> Seq<Seq<char>> {
    Seq::new(q.len(), |k: int| entry_text(q[k]))
}

impl ConsoleUi {
    /// Pauses or resumes the player.
    fn toggle(&mut self) -> (es: Vec<ConsoleEffect>)
        ensures
            toggled(*old(self), *final(self), shown_all(es@)),
            final(self).listboxes == old(self).listboxes,
            final(self).state == old(self).state,
            final(self).queue == old(self).queue,
            final(self).rows == old(self).rows,
    {
        let mut es: Vec<ConsoleEffect> = Vec::new();
        let paused = self.player.is_paused();
        match self.player.set_paused(!paused) {
            Some(c) => es.push(ConsoleEffect::Send(c)),
            None => {},
        }
        assert(shown_all(es@) =~= seq![
            Shown::Send(
                if old(self).player@.0 {
                    Command::Play
                } else {
                    Command::Pause
                },
            ),
        ]);
        es
    }

    /// Tab.
    fn tab(&mut self) -> (es: Vec<ConsoleEffect>)
        requires
            old(self).listboxes@.len() == 3,
        ensures
            final(self).listboxes@.len() == 3,
            tabbed(*old(self), *final(self), shown_all(es@)),
    {
        let r = get_focus_at(&self.listboxes);
        proof {
            let bs = self.listboxes@;
            if bs[0].focused {
                assert(r == 0);
            } else if bs[1].focused {
                assert(r == 1);
            } else if bs[2].focused {
                assert(r == 2);
            } else {
                assert(!(exists|k: int| 0 <= k < bs.len() && bs[k].focused));
            }
            assert(r == focus_index(bs));
        }
        let t: usize = if r + 1 > self.listboxes.len() - 1 {
            LIST_TAGS
        } else {
            r + 1
        };
        setup_focus_at(t, &mut self.listboxes);
        let mut es: Vec<ConsoleEffect> = Vec::new();
        es.push(ConsoleEffect::Information(self.listboxes[t].description.clone()));
        assert(shown_all(es@) =~= seq![Shown::Information(old(self).listboxes@[t as int].description@)]);
        es
    }

    /// Space.
    fn space(&mut self) -> (es: Vec<ConsoleEffect>)
        requires
            old(self).listboxes@.len() == 3,
        ensures
            final(self).listboxes@.len() == 3,
            spaced(*old(self), *final(self), shown_all(es@)),
    {
        if self.listboxes[LIST_TAGS].focused {
            let pos = self.listboxes[LIST_TAGS].position;
            if pos < self.listboxes[LIST_TAGS].display.len() {
                let tag = self.listboxes[LIST_TAGS].display[pos].clone();
                let ghost sel = self.state.selected();
                self.state.add_tag(tag);
                proof {
                    if !has_tag(sel, tag@) {
                        assert(self.state.selected().drop_last() =~= sel);
                    }
                }
            }
            let es: Vec<ConsoleEffect> = Vec::new();
            assert(shown_all(es@) =~= Seq::<Shown>::empty());
            es
        } else {
            self.toggle()
        }
    }

    /// A click at column `x` and row `y`.
    fn click(&mut self, x: u32, y: u32) -> (es: Vec<ConsoleEffect>)
        requires
            old(self).listboxes@.len() == 3,
        ensures
            final(self).listboxes@.len() == 3,
            clicked(*old(self), *final(self), x, y, shown_all(es@)),
    {
        let mut es: Vec<ConsoleEffect> = Vec::new();
        if x == 0 && self.rows >= 1 && y == self.rows - 1 {
            es = self.toggle();
        }
        let ghost mid = *self;
        let rows = self.rows;
        let mut i: usize = 0;
        while i < self.listboxes.len()
            invariant
                i <= self.listboxes.len(),
                self.listboxes@.len() == old(self).listboxes@.len(),
                mid.listboxes == old(self).listboxes,
                rows == old(self).rows,
                self.rows == mid.rows && self.state == mid.state && self.queue == mid.queue
                    && self.player@ == mid.player@,
                forall|k: int|
                    0 <= k < i ==> {
                        let ob = old(self).listboxes@[k];
                        let nb = #[trigger] self.listboxes@[k];
                        &&& nb.display == ob.display && nb.page == ob.page && nb.width == ob.width
                        &&& nb.height == ob.height && nb.focused == ob.focused
                        &&& nb.description == ob.description
                        &&& nb.position == (if x < ob.width && rows >= 2 && y < rows - 2 {
                            y as usize
                        } else {
                            ob.position
                        })
                    },
                forall|k: int|
                    i <= k < self.listboxes@.len() ==> #[trigger] self.listboxes@[k] == old(
                        self,
                    ).listboxes@[k],
            decreases self.listboxes.len() - i,
        {
            let mut b = self.listboxes.remove(i);
            if x < b.width && rows >= 2 && y < rows - 2 {
                b.position = y as usize;
            }
            self.listboxes.insert(i, b);
            i = i + 1;
        }
        es
    }

    /// `a`.
    fn volume_down(&mut self) -> (es: Vec<ConsoleEffect>)
        ensures
            volume_lowered(*old(self), *final(self), shown_all(es@)),
    {
        let mut es: Vec<ConsoleEffect> = Vec::new();
        let vol = self.player.get_volume();
        if vol > 0 && crate::cli_shell::volume_down_allowed(vol, 5) {
            match self.player.decrease_volume(5) {
                Some(c) => es.push(ConsoleEffect::Send(c)),
                None => {},
            }
        }
        assert(shown_all(es@) =~= es@.map_values(|e: ConsoleEffect| shown(e)));
        proof {
            if es@.len() == 1 {
                assert(shown_all(es@) =~= seq![shown(es@[0])]);
            }
        }
        es
    }

    /// `d`.
    fn volume_up(&mut self) -> (es: Vec<ConsoleEffect>)
        ensures
            volume_raised(*old(self), *final(self), shown_all(es@)),
    {
        let mut es: Vec<ConsoleEffect> = Vec::new();
        let vol = self.player.get_volume();
        if vol < 100 {
            let c = self.player.increase_volume(5);
            es.push(ConsoleEffect::Send(c));
            assert(shown_all(es@) =~= seq![Shown::Send(Command::AddVolume((vol + 5) as u16))]);
        }
        es
    }

    /// `o`.
    fn browse(&mut self) -> (es: Vec<ConsoleEffect>)
        ensures
            browsed(*old(self), *final(self), shown_all(es@)),
    {
        let mut es: Vec<ConsoleEffect> = Vec::new();
        if self.queue.queue.len() > 0 {
            if self.queue.queue_pos < self.queue.queue.len() {
                let url = self.queue.queue[self.queue.queue_pos].album_url.clone();
                es.push(ConsoleEffect::OpenBrowser(url));
                assert(shown_all(es@) =~= seq![
                    Shown::OpenBrowser(old(self).queue.queue@[old(self).queue.queue_pos as int].album_url@),
                ]);
            }
        } else {
            es.push(ConsoleEffect::Error("Queue list is empty!".to_string()));
            assert(shown_all(es@) =~= seq![Shown::Error("Queue list is empty!"@)]);
        }
        es
    }

    /// `l`.
    fn load_more(&mut self) -> (es: Vec<ConsoleEffect>)
        ensures
            asked_more(*old(self), *final(self), shown_all(es@)),
    {
        let mut es: Vec<ConsoleEffect> = Vec::new();
        if self.state.pages_asked() < usize::MAX {
            match self.state.extend_discover() {
                Some(req) => es.push(ConsoleEffect::LoadDiscover(req, false)),
                None => {},
            }
        }
        proof {
            if es@.len() == 1 {
                assert(shown_all(es@) =~= seq![shown(es@[0])]);
            }
        }
        es
    }

    /// Enter in the release box.
    fn open_release(&self) -> (es: Vec<ConsoleEffect>)
        requires
            self.listboxes@.len() == 3,
        ensures
            shown_all(es@) == release_effects(*self),
    {
        let mut es: Vec<ConsoleEffect> = Vec::new();
        let b = &self.listboxes[LIST_DISCOVER];
        if b.focused {
            if self.state.loaded_count() > 0 {
                match cursor_index(b) {
                    Some(i) => {
                        if i < self.state.loaded_count() {
                            let url = self.state.release(i).tralbum_url.clone();
                            es.push(ConsoleEffect::LoadAlbum(url));
                            assert(shown_all(es@) =~= seq![
                                Shown::LoadAlbum(self.state.loaded()[i as int].tralbum_url@),
                            ]);
                        }
                    },
                    None => {},
                }
            } else {
                let mut text = chars_of("Cannot load discover! Please select another tags: ");
                let tags = join_with(self.state.tags(), ", ");
                push_str(&mut text, tags.as_str());
                es.push(ConsoleEffect::Error(string_from_chars(text.as_slice())));
                assert(shown_all(es@) =~= release_effects(*self));
            }
        }
        proof {
            if es@.len() == 0 {
                assert(shown_all(es@) =~= Seq::<Shown>::empty());
            }
        }
        es
    }

    /// Enter in the queue box.
    fn play_selected(&mut self) -> (es: Vec<ConsoleEffect>)
        requires
            old(self).listboxes@.len() == 3,
        ensures
            played_selected(*old(self), *final(self), shown_all(es@)),
            final(self).listboxes == old(self).listboxes,
            final(self).state == old(self).state,
            final(self).player@ == old(self).player@,
            final(self).rows == old(self).rows,
    {
        let mut es: Vec<ConsoleEffect> = Vec::new();
        if self.listboxes[LIST_QUEUE].focused {
            match cursor_index(&self.listboxes[LIST_QUEUE]) {
                Some(i) => {
                    match self.queue.set(i) {
                        Some(t) => {
                            let c = self.player.switch_track(t.audio_url);
                            es.push(ConsoleEffect::Send(c));
                        },
                        None => {},
                    }
                },
                None => {},
            }
        }
        proof {
            if es@.len() == 1 {
                assert(shown_all(es@) =~= seq![shown(es@[0])]);
            } else {
                assert(shown_all(es@) =~= Seq::<Shown>::empty());
            }
        }
        es
    }

    /// Enter.
    fn enter(&mut self) -> (es: Vec<ConsoleEffect>)
        requires
            old(self).listboxes@.len() == 3,
        ensures
            final(self).listboxes@.len() == 3,
            entered(*old(self), *final(self), shown_all(es@)),
    {
        let mut es: Vec<ConsoleEffect> = Vec::new();
        if self.listboxes[LIST_TAGS].focused {
            if self.state.tags().len() > 0 {
                es.push(ConsoleEffect::Information("Loading discover...".to_string()));
                setup_focus_at(LIST_DISCOVER, &mut self.listboxes);
                es.push(ConsoleEffect::Information(self.listboxes[LIST_DISCOVER].description.clone()));
                if self.state.pages_asked() < usize::MAX {
                    match self.state.extend_discover() {
                        Some(req) => es.push(ConsoleEffect::LoadDiscover(req, true)),
                        None => {},
                    }
                }
                assert(shown_all(es@)[0] == shown(es@[0]));
                assert(shown_all(es@)[1] == shown(es@[1]));
                proof {
                    if es@.len() == 3 {
                        assert(shown_all(es@)[2] == shown(es@[2]));
                    }
                }
                return es;
            }
            es.push(ConsoleEffect::Error("Please select at least 1 tag!".to_string()));
        }
        let ghost head = es@;
        let mut rel = self.open_release();
        let ghost r = rel@;
        es.append(&mut rel);
        let ghost first = es@;
        let mut played = self.play_selected();
        let ghost p = played@;
        es.append(&mut played);
        proof {
            lemma_shown_append(head, r);
            lemma_shown_append(first, p);
            if old(self).listboxes@[0].focused {
                assert(shown_all(head) =~= seq![Shown::Error("Please select at least 1 tag!"@)]);
            } else {
                assert(shown_all(head) =~= Seq::<Shown>::empty());
            }
            assert(shown_all(es@).subrange(0, shown_all(first).len() as int) =~= shown_all(first));
            assert(shown_all(es@).subrange(shown_all(first).len() as int, shown_all(es@).len() as int)
                =~= shown_all(p));
        }
        es
    }

    /// Reacts to an input.
    pub fn on_input(&mut self, input: ConsoleInput) -> (es: Vec<ConsoleEffect>)
        requires
            old(self).listboxes@.len() == 3,
        ensures
            final(self).listboxes@.len() == 3,
            input_done(*old(self), *final(self), input, shown_all(es@)),
    {
        let mut es: Vec<ConsoleEffect> = Vec::new();
        match input {
            ConsoleInput::Esc => {
                es.push(ConsoleEffect::Quit);
            },
            ConsoleInput::CtrlC => {
                es.push(ConsoleEffect::Quit);
            },
            ConsoleInput::Down => self.move_focused(BoxMove::Down),
            ConsoleInput::Up => self.move_focused(BoxMove::Up),
            ConsoleInput::PageDown => self.move_focused(BoxMove::PageForward),
            ConsoleInput::ScrollDown => self.move_focused(BoxMove::PageForward),
            ConsoleInput::PageUp => self.move_focused(BoxMove::PageBack),
            ConsoleInput::ScrollUp => self.move_focused(BoxMove::PageBack),
            ConsoleInput::Enter => {
                es = self.enter();
            },
            ConsoleInput::Tab => {
                es = self.tab();
            },
            ConsoleInput::F1 => {
                es.push(ConsoleEffect::ToggleOverlay);
            },
            ConsoleInput::Left => {
                let c = self.player.seek_backward(5000);
                es.push(ConsoleEffect::Send(c));
            },
            ConsoleInput::Right => {
                let c = self.player.seek_forward(5000);
                es.push(ConsoleEffect::Send(c));
            },
            ConsoleInput::Char(c) => {
                if c == ' ' {
                    es = self.space();
                } else if c == 's' {
                    let cmd = self.player.stop();
                    es.push(ConsoleEffect::Send(cmd));
                } else if c == 'a' {
                    es = self.volume_down();
                } else if c == 'd' {
                    es = self.volume_up();
                } else if c == 'o' {
                    es = self.browse();
                } else if c == 'l' {
                    es = self.load_more();
                }
            },
            ConsoleInput::Click(x, y) => {
                es = self.click(x, y);
            },
            ConsoleInput::Resize(w, h) => self.resize_all(w, h),
            ConsoleInput::Other => {},
        }
        proof {
            if es@.len() == 1 {
                assert(shown_all(es@) =~= seq![shown(es@[0])]);
            } else if es@.len() == 0 {
                assert(shown_all(es@) =~= Seq::<Shown>::empty());
            }
        }
        es
    }

    /// Takes a page of releases loaded for `l` or Enter (`from_enter`): the
    /// releases are added, every release loaded so far is listed (again) in
    /// the release box, and Enter goes on in the release box.
    pub fn discover_loaded(&mut self, items: Vec<Item>, from_enter: bool) -> (es: Vec<ConsoleEffect>)
        requires
            old(self).listboxes@.len() == 3,
        ensures
            final(self).listboxes@.len() == 3,
            final(self).state.loaded() == old(self).state.loaded() + items@,
            final(self).state.selected() == old(self).state.selected(),
            final(self).state.pages() == old(self).state.pages(),
            final(self).queue == old(self).queue,
            final(self).player@ == old(self).player@,
            final(self).rows == old(self).rows,
            final(self).listboxes@[0] == old(self).listboxes@[0],
            final(self).listboxes@[2] == old(self).listboxes@[2],
            ({
                let ob = old(self).listboxes@[1];
                let nb = final(self).listboxes@[1];
                &&& nb.page == ob.page && nb.position == ob.position && nb.width == ob.width
                &&& nb.height == ob.height && nb.focused == ob.focused
                &&& nb.description == ob.description
                &&& string_views(nb.display@) == string_views(ob.display@) + Seq::new(
                    final(self).state.loaded().len(),
                    |i: int| release_line(final(self).state.loaded()[i]),
                )
            }),
            shown_all(es@) == (if from_enter {
                release_effects(*final(self))
            } else {
                Seq::<Shown>::empty()
            }),
    {
        self.state.append_discover(items);
        let mut b = self.listboxes.remove(LIST_DISCOVER);
        let ghost start = b.display@;
        let mut i: usize = 0;
        while i < self.state.loaded_count()
            invariant
                i <= self.state.loaded().len(),
                b.page == old(self).listboxes@[1].page && b.position == old(self).listboxes@[1].position,
                b.width == old(self).listboxes@[1].width && b.height == old(self).listboxes@[1].height,
                b.focused == old(self).listboxes@[1].focused,
                b.description == old(self).listboxes@[1].description,
                start == old(self).listboxes@[1].display@,
                string_views(b.display@) == string_views(start) + Seq::new(
                    i as nat,
                    |k: int| release_line(self.state.loaded()[k]),
                ),
            decreases self.state.loaded().len() - i,
        {
            let line = release_text(self.state.release(i));
            let ghost before = b.display@;
            b.display.push(line);
            assert(string_views(b.display@) =~= string_views(before).push(line@));
            assert(string_views(b.display@) =~= string_views(start) + Seq::new(
                (i + 1) as nat,
                |k: int| release_line(self.state.loaded()[k]),
            ));
            i = i + 1;
        }
        self.listboxes.insert(LIST_DISCOVER, b);
        assert(self.listboxes@[0] == old(self).listboxes@[0]);
        assert(self.listboxes@[2] == old(self).listboxes@[2]);
        if from_enter {
            self.open_release()
        } else {
            let es: Vec<ConsoleEffect> = Vec::new();
            assert(shown_all(es@) =~= Seq::<Shown>::empty());
            es
        }
    }

    /// Takes the album loaded for Enter in the release box (`None`: it
    /// could not be loaded): its tracks are queued and the whole queue is
    /// listed (again) in the queue box; a failure is shown as an error.
    pub fn album_loaded(&mut self, album: Option<Album>) -> (es: Vec<ConsoleEffect>)
        requires
            old(self).listboxes@.len() == 3,
        ensures
            final(self).listboxes@.len() == 3,
            final(self).listboxes@[0] == old(self).listboxes@[0],
            final(self).listboxes@[1] == old(self).listboxes@[1],
            final(self).state == old(self).state,
            final(self).player@ == old(self).player@,
            final(self).rows == old(self).rows,
            final(self).queue.queue_pos == old(self).queue.queue_pos,
            final(self).queue.shuffle == old(self).queue.shuffle,
            ({
                let ob = old(self).listboxes@[2];
                let nb = final(self).listboxes@[2];
                &&& nb.page == ob.page && nb.position == ob.position && nb.width == ob.width
                &&& nb.height == ob.height && nb.focused == ob.focused
                &&& nb.description == ob.description
            }),
            match album {
                Some(a) => if files_present(a) {
                    &&& album_added(old(self).queue.queue@, final(self).queue.queue@, a)
                    &&& if album_add_succeeds(a) {
                        &&& es@.len() == 0
                        &&& string_views(final(self).listboxes@[2].display@) == string_views(
                            old(self).listboxes@[2].display@,
                        ) + queue_lines(final(self).queue.queue@)
                    } else {
                        &&& shown_all(es@) == seq![Shown::Error(error_text(add_error(a)))]
                        &&& final(self).listboxes@[2] == old(self).listboxes@[2]
                    }
                } else {
                    &&& final(self).queue == old(self).queue
                    &&& final(self).listboxes@[2] == old(self).listboxes@[2]
                    &&& shown_all(es@) == seq![Shown::Error("Cannot get track URL!"@)]
                },
                None => {
                    &&& final(self).queue == old(self).queue
                    &&& final(self).listboxes@[2] == old(self).listboxes@[2]
                    &&& shown_all(es@) == seq![Shown::Error("Cannot get album data"@)]
                },
            },
    {
        let mut es: Vec<ConsoleEffect> = Vec::new();
        match album {
            None => {
                let e = QueueError::NoAlbumData;
                es.push(ConsoleEffect::Error(e.to_string()));
                assert(shown_all(es@) =~= seq![Shown::Error("Cannot get album data"@)]);
            },
            Some(a) => {
                if !album_files_present(&a) {
                    es.push(ConsoleEffect::Error("Cannot get track URL!".to_string()));
                    assert(shown_all(es@) =~= seq![Shown::Error("Cannot get track URL!"@)]);
                } else {
                    match self.queue.add_album(&a) {
                        Ok(()) => {
                            let mut b = self.listboxes.remove(LIST_QUEUE);
                            let ghost start = b.display@;
                            let mut k: usize = 0;
                            while k < self.queue.queue.len()
                                invariant
                                    k <= self.queue.queue.len(),
                                    b.page == old(self).listboxes@[2].page,
                                    b.position == old(self).listboxes@[2].position,
                                    b.width == old(self).listboxes@[2].width,
                                    b.height == old(self).listboxes@[2].height,
                                    b.focused == old(self).listboxes@[2].focused,
                                    b.description == old(self).listboxes@[2].description,
                                    start == old(self).listboxes@[2].display@,
                                    string_views(b.display@) == string_views(start) + queue_lines(
                                        self.queue.queue@.subrange(0, k as int),
                                    ),
                                decreases self.queue.queue.len() - k,
                            {
                                let line = self.queue.queue[k].to_string();
                                let ghost before = b.display@;
                                b.display.push(line);
                                assert(string_views(b.display@) =~= string_views(before).push(line@));
                                assert(queue_lines(self.queue.queue@.subrange(0, k + 1)) =~= queue_lines(
                                    self.queue.queue@.subrange(0, k as int),
                                ).push(entry_text(self.queue.queue@[k as int])));
                                k = k + 1;
                            }
                            assert(self.queue.queue@.subrange(0, self.queue.queue@.len() as int)
                                =~= self.queue.queue@);
                            self.listboxes.insert(LIST_QUEUE, b);
                        },
                        Err(e) => {
                            es.push(ConsoleEffect::Error(e.to_string()));
                            assert(shown_all(es@) =~= seq![Shown::Error(error_text(add_error(a)))]);
                        },
                    }
                }
            },
        }
        es
    }

    /// What happens at each frame: the bottom line shows what plays at
    /// `time_ms` milliseconds (none: nothing plays); at the end of a track
    /// the queue moves on, or playback stops after the last one.
    pub fn tick(&mut self, time_ms: Option<u64>) -> (es: Vec<ConsoleEffect>)
        ensures
            final(self).listboxes == old(self).listboxes,
            final(self).state == old(self).state,
            final(self).rows == old(self).rows,
            final(self).player@ == old(self).player@,
            final(self).queue.queue == old(self).queue.queue,
            final(self).queue.shuffle == old(self).queue.shuffle,
            ({
                let q = old(self).queue;
                let (paused, vol) = old(self).player@;
                let s = shown_all(es@);
                match time_ms {
                    Some(t) => if q.queue@.len() > 0 && q.queue_pos < q.queue@.len() {
                        let tr = q.queue@[q.queue_pos as int];
                        let line = Shown::BottomInfo(now_playing_text(paused, vol, tr, t));
                        if t / 1000 >= tr.duration {
                            match next_pos(q.queue_pos as int, q.queue@.len() as int) {
                                Some(p) => final(self).queue.queue_pos == p && s == seq![
                                    Shown::BottomInfo("Loading next track..."@),
                                    Shown::Send(Command::SwitchTrack(q.queue@[p].audio_url)),
                                    line,
                                ],
                                None => final(self).queue.queue_pos == q.queue_pos && s == seq![
                                    Shown::BottomInfo("Loading next track..."@),
                                    Shown::Send(Command::Stop),
                                    Shown::Information("Finished playback!"@),
                                    line,
                                ],
                            }
                        } else {
                            final(self).queue == q && s == seq![line]
                        }
                    } else {
                        final(self).queue == q && s.len() == 0
                    },
                    None => final(self).queue == q && s == seq![Shown::BottomInfo(idle_text(vol))],
                }
            }),
    {
        let mut es: Vec<ConsoleEffect> = Vec::new();
        let vol = self.player.get_volume();
        match time_ms {
            Some(t) => {
                if self.queue.queue.len() > 0 && self.queue.queue_pos < self.queue.queue.len() {
                    let track = self.queue.queue[self.queue.queue_pos].clone();
                    if t / 1000 >= track.duration {
                        es.push(ConsoleEffect::BottomInfo("Loading next track...".to_string()));
                        match self.queue.next() {
                            Some(nt) => {
                                let c = self.player.switch_track(nt.audio_url);
                                es.push(ConsoleEffect::Send(c));
                            },
                            None => {
                                let c = self.player.stop();
                                es.push(ConsoleEffect::Send(c));
                                es.push(ConsoleEffect::Information("Finished playback!".to_string()));
                            },
                        }
                    }
                    let paused = self.player.is_paused();
                    es.push(ConsoleEffect::BottomInfo(now_playing(paused, vol, &track, t)));
                }
            },
            None => {
                es.push(ConsoleEffect::BottomInfo(idle(vol)));
            },
        }
        proof {
            let s = shown_all(es@);
            if es@.len() == 1 {
                assert(s =~= seq![shown(es@[0])]);
            } else if es@.len() == 3 {
                assert(s =~= seq![shown(es@[0]), shown(es@[1]), shown(es@[2])]);
            } else if es@.len() == 4 {
                assert(s =~= seq![shown(es@[0]), shown(es@[1]), shown(es@[2]), shown(es@[3])]);
            } else {
                assert(s =~= Seq::<Shown>::empty());
            }
        }
        es
    }
}

} // verus!
