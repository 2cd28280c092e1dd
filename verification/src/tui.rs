//! The decisions of the full-screen terminal front-end: three list boxes
//! (tags, discovered releases, play queue), the key bindings, and the
//! bottom line that shows what plays.
//!
//! The program around it reads keys, the clock and the clipboard, loads
//! pages and albums, and draws; it hands each event to the state here and
//! carries out the effects that come back.
use vstd::prelude::*;

use crate::cli_drawing::{
    next_page, page_count, prev_page, run_string, run_string_spec, selected_index, utf8_longer_than,
    ListBox,
};
use crate::discover::{discover_request, request_for};
use crate::model::{Album, DiscoverRequest, Item};
use crate::playback::{lowered_volume, Command, Player};
use crate::queue::{album_files_present, entry_text, files_present, next_pos, set_pos, Queue, QueuedTrack};
use crate::playback::clock_text;
use crate::text::{
    chars_of, dec, dec_pad2, find_chars, find_first, push_all, push_dec, push_dec_pad2, push_str, string_from_chars,
    string_views, utf8_len, utf8_len_of,
};

verus! {

broadcast use vstd::string::group_string_axioms;

/// The list box of the tags.
pub const LIST_BOX_TAGS: usize = 0;

/// The list box of the discovered releases.
pub const LIST_BOX_DISCOVER: usize = 1;

/// The list box of the play queue.
pub const LIST_BOX_QUEUE: usize = 2;

/// A key the front-end reacts to.
pub enum TuiKey {
    Esc,
    Enter,
    Delete,
    Char(char),
    Tab,
    Up,
    Down,
    Left,
    Right,
    PageUp,
    PageDown,
    /// Any other key.
    Other,
}

/// What the program around the front-end is to do, in order.
pub enum TuiEffect {
    /// Restore the terminal and end.
    Quit,
    /// Send this command to the audio thread.
    Send(Command),
    /// Load this page of releases, then hand them to `discover_loaded`
    /// (`true`: to fill the release list) or to `discover_appended`.
    LoadDiscover(DiscoverRequest, bool),
    /// Load the album at this URL, then hand it to `album_loaded`.
    LoadAlbum(String),
    /// Open this URL in the web browser.
    OpenBrowser(String),
    /// Read the clipboard, then hand its text to `clipboard_read`.
    ReadClipboard,
    /// Clear the screen.
    ClearScreen,
    /// Draw the list boxes and the status bar again.
    Redraw,
    /// Draw the bottom line again.
    RedrawBottom,
}

/// The state of the front-end.
pub struct TuiState {
    /// The text of the status bar.
    pub statusbar_text: String,
    /// The text of the bottom line.
    pub bottom_text: String,
    /// Whether the status bar shows an error.
    pub error: bool,
    /// The list box that has the focus.
    pub current_view: usize,
    /// The tags chosen.
    pub selected_tags: Vec<String>,
    /// The releases discovered for them.
    pub discover: Vec<Item>,
    /// The cursor in the focused list box.
    pub selected_position: usize,
    /// The three list boxes: tags, releases, queue.
    pub listboxes: Vec<ListBox>,
    /// The number of release pages asked for.
    pub loaded_pages: usize,
    /// The play queue.
    pub queue: Queue,
    /// The player.
    pub player: Player,
    /// How far the running title has scrolled.
    pub running_text_offset: usize,
}

/// The line a release is listed with: `artist - title`.
pub open spec fn item_line(it: Item) -> Seq<char> {
    it.artist@ + " - "@ + it.title@
}

/// The lines of some releases.
pub open spec fn item_lines(items: Seq<Item>) -> Seq<Seq<char>> {
    Seq::new(items.len(), |i: int| item_line(items[i]))
}

impl TuiState {
    /// Whether the state is whole: three list boxes each with room for a
    /// line, and the focus on one of them.
    pub open spec fn wf(&self) -> bool {
        &&& self.listboxes@.len() == 3
        &&& self.current_view < 3
        &&& forall|i: int| 0 <= i < 3 ==> #[trigger] self.listboxes@[i].height > 2
    }

    /// Whether `self` differs from `o` at most in what the listed parts
    /// name: everything else is kept.
    pub open spec fn keeps_all_but_boxes(&self, o: TuiState) -> bool {
        &&& self.statusbar_text == o.statusbar_text
        &&& self.bottom_text == o.bottom_text
        &&& self.error == o.error
        &&& self.current_view == o.current_view
        &&& self.selected_tags == o.selected_tags
        &&& self.discover == o.discover
        &&& self.selected_position == o.selected_position
        &&& self.loaded_pages == o.loaded_pages
        &&& self.queue == o.queue
        &&& self.player@ == o.player@
        &&& self.running_text_offset == o.running_text_offset
    }

    /// A front-end for a terminal of `cols` columns and `rows` rows that
    /// offers the tags `tags`: the tag box (15 wide) has the focus, the
    /// release and queue boxes take half the width each.
    pub fn new(cols: u16, rows: u16, tags: Vec<String>) -> (s: Self)
        requires
            rows >= 4,
        ensures
            s.wf(),
            s.statusbar_text@ == "[Space]: Select Tags [Enter]: Load tag albums"@,
            s.bottom_text@ == "Nothing..."@,
            !s.error,
            s.current_view == LIST_BOX_TAGS,
            s.selected_tags@.len() == 0,
            s.discover@.len() == 0,
            s.selected_position == 0,
            s.loaded_pages == 1,
            s.listboxes@[0].display@ == tags@,
            s.listboxes@[0].width == 15 && s.listboxes@[0].x == 0 && s.listboxes@[0].focused,
            s.listboxes@[1].width == cols / 2 && s.listboxes@[1].x == 17
                && !s.listboxes@[1].focused && s.listboxes@[1].display@.len() == 0,
            s.listboxes@[2].width == cols / 2 && s.listboxes@[2].x == cols / 2 + 2
                && !s.listboxes@[2].focused && s.listboxes@[2].display@.len() == 0,
            forall|i: int| 0 <= i < 3 ==> #[trigger] s.listboxes@[i].height == rows - 1,
            forall|i: int| 0 <= i < 3 ==> #[trigger] s.listboxes@[i].page == 0,
            s.queue.queue@.len() == 0 && s.queue.queue_pos == 0 && !s.queue.shuffle,
            s.player@ == (false, 100u16),
    {
        let mut listboxes: Vec<ListBox> = Vec::new();
        let mut tag_box = ListBox::new(15, rows - 1, 0, true);
        tag_box.add_range(tags);
        listboxes.push(tag_box);
        listboxes.push(ListBox::new(cols / 2, rows - 1, 15 + 2, false));
        listboxes.push(ListBox::new(cols / 2, rows - 1, cols / 2 + 2, false));
        TuiState {
            statusbar_text: "[Space]: Select Tags [Enter]: Load tag albums".to_string(),
            bottom_text: "Nothing...".to_string(),
            error: false,
            current_view: LIST_BOX_TAGS,
            selected_tags: Vec::new(),
            discover: Vec::new(),
            selected_position: 0,
            listboxes,
            loaded_pages: 1,
            queue: Queue::new(),
            player: Player::new(),
            running_text_offset: 0,
        }
    }

    /// Shows `message` in the status bar, as an error or not.
    pub fn status_bar(&mut self, message: String, is_error: bool)
        ensures
            final(self).statusbar_text == message,
            final(self).error == is_error,
            final(self).current_view == old(self).current_view,
            final(self).listboxes == old(self).listboxes,
            final(self).selected_tags == old(self).selected_tags,
            final(self).discover == old(self).discover,
            final(self).selected_position == old(self).selected_position,
            final(self).loaded_pages == old(self).loaded_pages,
            final(self).queue == old(self).queue,
            final(self).player@ == old(self).player@,
            final(self).bottom_text == old(self).bottom_text,
            final(self).running_text_offset == old(self).running_text_offset,
    {
        self.error = is_error;
        self.statusbar_text = message;
    }
}

/// Whether the effects `es` are exactly the one effect `e`.
pub open spec fn only(es: Seq<TuiEffect>, e: TuiEffect) -> bool {
    es.len() == 1 && es[0] == e
}

/// Whether a text holds `bandcamp.com`.
pub open spec fn names_bandcamp(t: Seq<char>) -> bool {
    find_first(t, "bandcamp.com"@) is Some
}

impl TuiState {
    /// Swaps the list box `i` for `b`; gives back the one it held.
    fn swap_box(&mut self, i: usize, b: ListBox) -> (r: ListBox)
        requires
            i < old(self).listboxes@.len(),
        ensures
            r == old(self).listboxes@[i as int],
            final(self).listboxes@ == old(self).listboxes@.update(i as int, b),
            final(self).keeps_all_but_boxes(*old(self)),
    {
        let r = self.listboxes.remove(i);
        self.listboxes.insert(i, b);
        assert(self.listboxes@ =~= old(self).listboxes@.update(i as int, b));
        r
    }

    /// Adds `lines` to the list box `i`.
    fn add_lines(&mut self, i: usize, lines: Vec<String>)
        requires
            i < old(self).listboxes@.len(),
        ensures
            final(self).listboxes@.len() == old(self).listboxes@.len(),
            forall|k: int|
                0 <= k < old(self).listboxes@.len() && k != i ==> #[trigger] final(self).listboxes@[k]
                    == old(self).listboxes@[k],
            final(self).listboxes@[i as int].display@ == old(self).listboxes@[i as int].display@
                + lines@,
            final(self).listboxes@[i as int].page == old(self).listboxes@[i as int].page,
            final(self).listboxes@[i as int].height == old(self).listboxes@[i as int].height,
            final(self).listboxes@[i as int].width == old(self).listboxes@[i as int].width,
            final(self).listboxes@[i as int].x == old(self).listboxes@[i as int].x,
            final(self).listboxes@[i as int].focused == old(self).listboxes@[i as int].focused,
            final(self).keeps_all_but_boxes(*old(self)),
    {
        let mut b = self.swap_box(i, ListBox::new(0, 0, 0, false));
        b.add_range(lines);
        let _ = self.swap_box(i, b);
    }

    /// Empties the list box `i`.
    fn clear_box(&mut self, i: usize)
        requires
            i < old(self).listboxes@.len(),
        ensures
            final(self).listboxes@.len() == old(self).listboxes@.len(),
            forall|k: int|
                0 <= k < old(self).listboxes@.len() && k != i ==> #[trigger] final(self).listboxes@[k]
                    == old(self).listboxes@[k],
            final(self).listboxes@[i as int].display@.len() == 0,
            final(self).listboxes@[i as int].page == old(self).listboxes@[i as int].page,
            final(self).listboxes@[i as int].height == old(self).listboxes@[i as int].height,
            final(self).listboxes@[i as int].width == old(self).listboxes@[i as int].width,
            final(self).listboxes@[i as int].x == old(self).listboxes@[i as int].x,
            final(self).listboxes@[i as int].focused == old(self).listboxes@[i as int].focused,
            final(self).keeps_all_but_boxes(*old(self)),
    {
        let mut b = self.swap_box(i, ListBox::new(0, 0, 0, false));
        b.clear();
        let _ = self.swap_box(i, b);
    }

    /// Pages the list box `i` back (`back`) or forward.
    fn page_box(&mut self, i: usize, back: bool)
        requires
            i < old(self).listboxes@.len(),
            old(self).listboxes@[i as int].height > 2,
        ensures
            final(self).listboxes@.len() == old(self).listboxes@.len(),
            forall|k: int|
                0 <= k < old(self).listboxes@.len() && k != i ==> #[trigger] final(self).listboxes@[k]
                    == old(self).listboxes@[k],
            ({
                let ob = old(self).listboxes@[i as int];
                let nb = final(self).listboxes@[i as int];
                &&& nb.display == ob.display
                &&& nb.height == ob.height && nb.width == ob.width && nb.x == ob.x
                &&& nb.focused == ob.focused
                &&& nb.page == if back {
                    prev_page(ob.page as nat)
                } else {
                    next_page(ob.page as nat, page_count(ob.display@.len(), (ob.height - 2) as nat))
                }
            }),
            final(self).keeps_all_but_boxes(*old(self)),
    {
        let mut b = self.swap_box(i, ListBox::new(0, 0, 0, false));
        if back {
            b.switch_page_down();
        } else {
            b.switch_page_up();
        }
        let _ = self.swap_box(i, b);
    }

    /// The lines listing `items`.
    fn lines_of(items: &Vec<Item>) -> (r: Vec<String>)
        ensures
            string_views(r@) == item_lines(items@),
    {
        let mut r: Vec<String> = Vec::new();
        let mut i: usize = 0;
        while i < items.len()
            invariant
                i <= items.len(),
                string_views(r@) == item_lines(items@.subrange(0, i as int)),
            decreases items.len() - i,
        {
            let mut out = chars_of(items[i].artist.as_str());
            let sep = chars_of(" - ");
            push_all(&mut out, &sep);
            let t = chars_of(items[i].title.as_str());
            push_all(&mut out, &t);
            let line = string_from_chars(out.as_slice());
            proof {
                crate::tag_order::lemma_string_views_push(r@, line);
            }
            r.push(line);
            assert(string_views(r@) =~= item_lines(items@.subrange(0, i + 1)));
            i = i + 1;
        }
        assert(items@.subrange(0, items.len() as int) =~= items@);
        r
    }

    /// Asks for the next page of releases for the chosen tags, or, when
    /// `rows - 2` releases are there, lists them all in the release box.
    fn fill_discover(&mut self, rows: u16) -> (es: Vec<TuiEffect>)
        requires
            old(self).wf(),
            rows >= 2,
            old(self).loaded_pages < usize::MAX,
        ensures
            final(self).wf(),
            final(self).discover == old(self).discover,
            final(self).selected_tags == old(self).selected_tags,
            final(self).current_view == old(self).current_view,
            final(self).selected_position == old(self).selected_position,
            final(self).queue == old(self).queue,
            final(self).player@ == old(self).player@,
            final(self).error == old(self).error,
            final(self).statusbar_text == old(self).statusbar_text,
            final(self).bottom_text == old(self).bottom_text,
            final(self).running_text_offset == old(self).running_text_offset,
            if old(self).discover@.len() <= rows - 2 {
                &&& final(self).loaded_pages == old(self).loaded_pages + 1
                &&& final(self).listboxes == old(self).listboxes
                &&& es@.len() == 1
                &&& es@[0] matches TuiEffect::LoadDiscover(req, fill) && fill && request_for(
                    old(self).selected_tags@,
                    final(self).loaded_pages as i64,
                    req,
                )
            } else {
                &&& final(self).loaded_pages == old(self).loaded_pages
                &&& es@.len() == 0
                &&& final(self).listboxes@[1].display@ == old(self).listboxes@[1].display@
                    + final(self).listboxes@[1].display@.subrange(
                    old(self).listboxes@[1].display@.len() as int,
                    final(self).listboxes@[1].display@.len() as int,
                )
                &&& string_views(
                    final(self).listboxes@[1].display@.subrange(
                        old(self).listboxes@[1].display@.len() as int,
                        final(self).listboxes@[1].display@.len() as int,
                    ),
                ) == item_lines(old(self).discover@)
                &&& final(self).listboxes@[0] == old(self).listboxes@[0]
                &&& final(self).listboxes@[2] == old(self).listboxes@[2]
            },
    {
        let mut es: Vec<TuiEffect> = Vec::new();
        if self.discover.len() <= (rows - 2) as usize {
            self.loaded_pages = self.loaded_pages + 1;
            let tags = clone_tags(&self.selected_tags);
            let req = discover_request(tags, self.loaded_pages);
            proof {
                assert(request_for(self.selected_tags@, self.loaded_pages as i64, req));
            }
            es.push(TuiEffect::LoadDiscover(req, true));
        } else {
            let lines = Self::lines_of(&self.discover);
            let ghost before = self.listboxes@[1].display@;
            self.add_lines(LIST_BOX_DISCOVER, lines);
            assert(self.listboxes@[1].display@.subrange(
                before.len() as int,
                self.listboxes@[1].display@.len() as int,
            ) =~= lines@);
            assert(self.listboxes@[0] == old(self).listboxes@[0]);
            assert(self.listboxes@[2] == old(self).listboxes@[2]);
        }
        es
    }

    /// Takes a page of releases loaded to fill the release box: they are
    /// added, and more are asked for until `rows - 2` are there.
    pub fn discover_loaded(&mut self, items: Vec<Item>, rows: u16) -> (es: Vec<TuiEffect>)
        requires
            old(self).wf(),
            rows >= 2,
            old(self).loaded_pages < usize::MAX,
        ensures
            final(self).wf(),
            final(self).discover@ == old(self).discover@ + items@,
            final(self).selected_tags == old(self).selected_tags,
            final(self).current_view == old(self).current_view,
            final(self).queue == old(self).queue,
            if old(self).discover@.len() + items@.len() <= rows - 2 {
                &&& final(self).loaded_pages == old(self).loaded_pages + 1
                &&& final(self).listboxes == old(self).listboxes
                &&& es@.len() == 2
                &&& es@[0] matches TuiEffect::LoadDiscover(req, fill) && fill && request_for(
                    old(self).selected_tags@,
                    final(self).loaded_pages as i64,
                    req,
                )
                &&& es@[1] is Redraw
            } else {
                &&& final(self).loaded_pages == old(self).loaded_pages
                &&& es@.len() == 1 && es@[0] is Redraw
                &&& string_views(
                    final(self).listboxes@[1].display@.subrange(
                        old(self).listboxes@[1].display@.len() as int,
                        final(self).listboxes@[1].display@.len() as int,
                    ),
                ) == item_lines(old(self).discover@ + items@)
            },
    {
        let mut items = items;
        self.discover.append(&mut items);
        let mut es = self.fill_discover(rows);
        es.push(TuiEffect::Redraw);
        es
    }

    /// Takes a page of releases loaded by scrolling down: they are added
    /// and listed.
    pub fn discover_appended(&mut self, items: Vec<Item>) -> (es: Vec<TuiEffect>)
        requires
            old(self).wf(),
        ensures
            final(self).wf(),
            final(self).discover@ == old(self).discover@ + items@,
            string_views(final(self).listboxes@[1].display@) == string_views(
                old(self).listboxes@[1].display@,
            ) + item_lines(items@),
            final(self).listboxes@[0] == old(self).listboxes@[0],
            final(self).listboxes@[2] == old(self).listboxes@[2],
            final(self).listboxes@[1].page == old(self).listboxes@[1].page,
            final(self).selected_tags == old(self).selected_tags,
            final(self).loaded_pages == old(self).loaded_pages,
            final(self).queue == old(self).queue,
            only(es@, TuiEffect::Redraw),
    {
        let lines = Self::lines_of(&items);
        let mut items = items;
        self.discover.append(&mut items);
        let ghost before = self.listboxes@[1].display@;
        self.add_lines(LIST_BOX_DISCOVER, lines);
        assert(string_views(self.listboxes@[1].display@) =~= string_views(before) + string_views(lines@));
        assert(self.listboxes@[0] == old(self).listboxes@[0]);
        assert(self.listboxes@[2] == old(self).listboxes@[2]);
        let mut es: Vec<TuiEffect> = Vec::new();
        es.push(TuiEffect::Redraw);
        assert(es@ =~= seq![TuiEffect::Redraw]);
        es
    }

    /// Takes an album that was loaded (`None`: it could not be): its
    /// tracks are queued and listed in the queue box. An album that cannot
    /// be queued is shown as an error.
    pub fn album_loaded(&mut self, album: Option<Album>) -> (es: Vec<TuiEffect>)
        requires
            old(self).wf(),
        ensures
            final(self).wf(),
            final(self).queue.queue_pos == old(self).queue.queue_pos,
            final(self).discover == old(self).discover,
            final(self).selected_tags == old(self).selected_tags,
            final(self).current_view == old(self).current_view,
            final(self).listboxes@[0] == old(self).listboxes@[0],
            final(self).listboxes@[1] == old(self).listboxes@[1],
            match album {
                Some(a) => if files_present(a) {
                    &&& crate::queue::album_added(old(self).queue.queue@, final(self).queue.queue@, a)
                    &&& string_views(final(self).listboxes@[2].display@) == string_views(
                        old(self).listboxes@[2].display@,
                    ) + Seq::new(
                        (final(self).queue.queue@.len() - old(self).queue.queue@.len()) as nat,
                        |k: int| entry_text(final(self).queue.queue@[old(self).queue.queue@.len() + k]),
                    )
                } else {
                    final(self).queue == old(self).queue && final(self).error
                        && final(self).statusbar_text@ == "Cannot get track URL!"@
                },
                None => final(self).queue == old(self).queue && final(self).error
                    && final(self).statusbar_text@ == "Cannot get album data"@,
            },
            only(es@, TuiEffect::Redraw),
    {
        match album {
            Some(a) => {
                if album_files_present(&a) {
                    let start = self.queue.queue.len();
                    let _ = self.queue.add_album(&a);
                    let mut lines: Vec<String> = Vec::new();
                    let mut k = start;
                    while k < self.queue.queue.len()
                        invariant
                            start <= k <= self.queue.queue.len(),
                            start == old(self).queue.queue@.len(),
                            string_views(lines@) == Seq::new(
                                (k - start) as nat,
                                |j: int| entry_text(self.queue.queue@[start + j]),
                            ),
                        decreases self.queue.queue.len() - k,
                    {
                        let line = self.queue.queue[k].to_string();
                        proof {
                            crate::tag_order::lemma_string_views_push(lines@, line);
                        }
                        lines.push(line);
                        assert(string_views(lines@) =~= Seq::new(
                            (k + 1 - start) as nat,
                            |j: int| entry_text(self.queue.queue@[start + j]),
                        ));
                        k = k + 1;
                    }
                    let ghost before = self.listboxes@[2].display@;
                    self.add_lines(LIST_BOX_QUEUE, lines);
                    assert(string_views(self.listboxes@[2].display@) =~= string_views(before)
                        + string_views(lines@));
                    assert(self.listboxes@[0] == old(self).listboxes@[0]);
                    assert(self.listboxes@[1] == old(self).listboxes@[1]);
                } else {
                    self.status_bar("Cannot get track URL!".to_string(), true);
                }
            },
            None => {
                self.status_bar("Cannot get album data".to_string(), true);
            },
        }
        let mut es: Vec<TuiEffect> = Vec::new();
        es.push(TuiEffect::Redraw);
        assert(es@ =~= seq![TuiEffect::Redraw]);
        es
    }

    /// Takes the text of the clipboard (`None`: it holds no text): a
    /// bandcamp.com URL is loaded as an album; anything else is shown as an
    /// error.
    pub fn clipboard_read(&mut self, content: Option<String>) -> (es: Vec<TuiEffect>)
        ensures
            final(self).listboxes == old(self).listboxes,
            final(self).queue == old(self).queue,
            final(self).current_view == old(self).current_view,
            final(self).discover == old(self).discover,
            final(self).selected_tags == old(self).selected_tags,
            match content {
                Some(c) => if names_bandcamp(c@) {
                    es@.len() == 2 && (es@[0] matches TuiEffect::LoadAlbum(u) && u@ == c@)
                        && es@[1] is Redraw && final(self).error == old(self).error
                        && final(self).statusbar_text == old(self).statusbar_text
                } else {
                    only(es@, TuiEffect::Redraw) && final(self).error
                        && final(self).statusbar_text@ == "Clipboard contains non-bandcamp URL!"@
                },
                None => only(es@, TuiEffect::Redraw) && final(self).error
                    && final(self).statusbar_text@ == "Clipboard contains invalid data!"@,
            },
    {
        let mut es: Vec<TuiEffect> = Vec::new();
        match content {
            Some(c) => {
                let cv = chars_of(c.as_str());
                let pat = chars_of("bandcamp.com");
                if find_chars(&cv, &pat).is_some() {
                    es.push(TuiEffect::LoadAlbum(c));
                } else {
                    self.status_bar("Clipboard contains non-bandcamp URL!".to_string(), true);
                }
            },
            None => {
                self.status_bar("Clipboard contains invalid data!".to_string(), true);
            },
        }
        es.push(TuiEffect::Redraw);
        proof {
            if es@.len() == 1 {
                assert(es@ =~= seq![TuiEffect::Redraw]);
            }
        }
        es
    }
}

/// A copy of each tag.
fn clone_tags(v: &Vec<String>) -> (r: Vec<String>)
    ensures
        r@ == v@,
{
    let mut r: Vec<String> = Vec::new();
    let mut i: usize = 0;
    while i < v.len()
        invariant
            i <= v.len(),
            r@ == v@.subrange(0, i as int),
        decreases v.len() - i,
    {
        r.push(v[i].clone());
        assert(r@ =~= v@.subrange(0, i + 1));
        i = i + 1;
    }
    assert(v@.subrange(0, v.len() as int) =~= v@);
    r
}

/// The state after a key, before the key's own work: an error shown in the
/// status bar is cleared.
pub open spec fn error_cleared(o: TuiState, n: TuiState) -> bool {
    if o.error {
        !n.error && n.statusbar_text@ == Seq::<char>::empty()
    } else {
        n.error == o.error && n.statusbar_text == o.statusbar_text
    }
}

/// The effects of a key: a redraw first when an error was cleared, then
/// `rest`.
pub open spec fn effects_after(o: TuiState, es: Seq<TuiEffect>, rest: Seq<TuiEffect>) -> bool {
    if o.error {
        es =~= seq![TuiEffect::Redraw] + rest
    } else {
        es =~= rest
    }
}

/// Whether `n` keeps everything of `o` but its status bar.
pub open spec fn same_but_status(o: TuiState, n: TuiState) -> bool {
    &&& n.bottom_text == o.bottom_text
    &&& n.current_view == o.current_view
    &&& n.selected_tags == o.selected_tags
    &&& n.discover == o.discover
    &&& n.selected_position == o.selected_position
    &&& n.listboxes == o.listboxes
    &&& n.loaded_pages == o.loaded_pages
    &&& n.queue == o.queue
    &&& n.player@ == o.player@
    &&& n.running_text_offset == o.running_text_offset
}

/// What Enter does to the state `o` (but for the error it clears), giving `n`
/// and the effects `rest`: in the tag box, with tags chosen, the release
/// box is filled (another page is asked for while no more than `rows - 2`
/// releases are there); in the release box, the release under the cursor
/// is loaded; in the queue box, the track under the cursor is played.
pub open spec fn enter_result(o: TuiState, n: TuiState, rest: Seq<TuiEffect>, rows: u16) -> bool {
    let v = o.current_view;
    let pos = o.selected_position;
    &&& n.bottom_text == o.bottom_text && n.running_text_offset == o.running_text_offset
    &&& n.current_view == v && n.selected_position == pos
    &&& n.selected_tags == o.selected_tags && n.discover == o.discover
    &&& n.player@ == o.player@
    &&& if v == LIST_BOX_TAGS && o.selected_tags@.len() > 0 {
        &&& n.queue == o.queue
        &&& if o.discover@.len() <= rows - 2 {
            &&& n.loaded_pages == o.loaded_pages + 1
            &&& n.listboxes == o.listboxes
            &&& rest.len() == 2
            &&& rest[0] matches TuiEffect::LoadDiscover(req, fill) && fill && request_for(
                o.selected_tags@,
                n.loaded_pages as i64,
                req,
            )
            &&& rest[1] is Redraw
        } else {
            &&& n.loaded_pages == o.loaded_pages
            &&& rest =~= seq![TuiEffect::Redraw]
            &&& n.listboxes@[0] == o.listboxes@[0] && n.listboxes@[2] == o.listboxes@[2]
            &&& n.listboxes@[1].display@ == o.listboxes@[1].display@ + n.listboxes@[1].display@.subrange(
                o.listboxes@[1].display@.len() as int,
                n.listboxes@[1].display@.len() as int,
            )
            &&& string_views(
                n.listboxes@[1].display@.subrange(
                    o.listboxes@[1].display@.len() as int,
                    n.listboxes@[1].display@.len() as int,
                ),
            ) == item_lines(o.discover@)
        }
    } else if v == LIST_BOX_QUEUE {
        &&& n.listboxes == o.listboxes && n.loaded_pages == o.loaded_pages
        &&& n.queue.queue == o.queue.queue && n.queue.shuffle == o.queue.shuffle
        &&& match set_pos(o.queue.queue@.len() as int, pos as int) {
            Some(p) => n.queue.queue_pos == p && rest =~= seq![
                TuiEffect::Send(Command::SwitchTrack(o.queue.queue@[p].audio_url)),
                TuiEffect::Redraw,
            ],
            None => n.queue.queue_pos == o.queue.queue_pos && rest =~= seq![TuiEffect::Redraw],
        }
    } else {
        &&& n.listboxes == o.listboxes && n.loaded_pages == o.loaded_pages && n.queue == o.queue
        &&& rest =~= if v == LIST_BOX_DISCOVER && pos < o.discover@.len() {
            seq![TuiEffect::LoadAlbum(o.discover@[pos as int].tralbum_url), TuiEffect::Redraw]
        } else {
            seq![TuiEffect::Redraw]
        }
    }
}

/// What Delete does to the state `o` (but for the error it clears), giving
/// `n` and the effects `rest`: the screen is cleared, then in the tag box
/// the chosen tags are dropped; in the queue box the player is paused and
/// stopped (twice over) and the box emptied; in the release box the box and
/// the releases are emptied.
pub open spec fn delete_result(o: TuiState, n: TuiState, rest: Seq<TuiEffect>) -> bool {
    let v = o.current_view;
    &&& n.bottom_text == o.bottom_text && n.running_text_offset == o.running_text_offset
    &&& n.current_view == v && n.selected_position == o.selected_position
    &&& n.loaded_pages == o.loaded_pages && n.queue == o.queue && n.player@ == o.player@
    &&& if v == LIST_BOX_TAGS {
        &&& n.selected_tags@.len() == 0 && n.discover == o.discover
        &&& n.listboxes == o.listboxes
        &&& rest =~= seq![TuiEffect::ClearScreen, TuiEffect::Redraw]
    } else if v == LIST_BOX_QUEUE {
        &&& n.selected_tags == o.selected_tags && n.discover == o.discover
        &&& n.listboxes@[0] == o.listboxes@[0] && n.listboxes@[1] == o.listboxes@[1]
        &&& n.listboxes@[2].display@.len() == 0
        &&& n.listboxes@[2].page == o.listboxes@[2].page
        &&& n.listboxes@[2].focused == o.listboxes@[2].focused
        &&& rest =~= seq![
            TuiEffect::ClearScreen,
            TuiEffect::Send(Command::Pause),
            TuiEffect::Send(Command::Stop),
            TuiEffect::Send(Command::Pause),
            TuiEffect::Send(Command::Stop),
            TuiEffect::Redraw,
        ]
    } else {
        &&& n.selected_tags == o.selected_tags && n.discover@.len() == 0
        &&& n.listboxes@[0] == o.listboxes@[0] && n.listboxes@[2] == o.listboxes@[2]
        &&& n.listboxes@[1].display@.len() == 0
        &&& n.listboxes@[1].page == o.listboxes@[1].page
        &&& n.listboxes@[1].focused == o.listboxes@[1].focused
        &&& rest =~= seq![TuiEffect::ClearScreen, TuiEffect::Redraw]
    }
}

/// What `s` does to the state `o`, giving `n` and the effects `rest`: the
/// volume goes down by one, as the player computes it with 16-bit signed
/// numbers; nothing changes at 0, nor at a volume where that computation
/// would overflow.
pub open spec fn volume_down_result(o: TuiState, n: TuiState, rest: Seq<TuiEffect>) -> bool {
    let vol = o.player@.1;
    &&& n.bottom_text == o.bottom_text && n.current_view == o.current_view
    &&& n.selected_tags == o.selected_tags && n.discover == o.discover
    &&& n.selected_position == o.selected_position && n.listboxes == o.listboxes
    &&& n.loaded_pages == o.loaded_pages && n.queue == o.queue
    &&& n.running_text_offset == o.running_text_offset
    &&& match (if crate::cli_shell::volume_down_ok(vol, 1) { lowered_volume(vol, 1) } else { None }) {
        Some(nv) => n.player@ == (o.player@.0, nv) && rest =~= seq![
            TuiEffect::Send(Command::AddVolume(nv)),
            TuiEffect::Redraw,
        ],
        None => n.player@ == o.player@ && rest =~= seq![TuiEffect::Redraw],
    }
}

/// Whether `n` keeps the chosen tags, the releases, the pages asked for,
/// the queue, the player and the running title of `o`.
pub open spec fn keeps_rest(o: TuiState, n: TuiState) -> bool {
    &&& n.selected_tags == o.selected_tags
    &&& n.discover == o.discover
    &&& n.loaded_pages == o.loaded_pages
    &&& n.queue == o.queue
    &&& n.player@ == o.player@
    &&& n.running_text_offset == o.running_text_offset
}

/// Whether `n` keeps the list boxes of `o` but for the page of box `v`.
pub open spec fn only_paged(o: TuiState, n: TuiState, v: int) -> bool {
    &&& n.listboxes@.len() == o.listboxes@.len()
    &&& forall|k: int| 0 <= k < o.listboxes@.len() && k != v ==> #[trigger] n.listboxes@[k] == o.listboxes@[k]
    &&& n.listboxes@[v].display == o.listboxes@[v].display
    &&& n.listboxes@[v].focused == o.listboxes@[v].focused
    &&& n.listboxes@[v].height == o.listboxes@[v].height
}

/// Whether the effects of a key begin with the redraw that clearing the
/// error of `o` asks for, when it had one.
pub open spec fn clear_prefix(o: TuiState, es: Seq<TuiEffect>) -> bool {
    o.error ==> es.len() >= 1 && es[0] == TuiEffect::Redraw
}

/// The effects of a key after that redraw.
pub open spec fn after_clear(o: TuiState, es: Seq<TuiEffect>) -> Seq<TuiEffect> {
    if o.error {
        es.subrange(1, es.len() as int)
    } else {
        es
    }
}

impl TuiState {
    /// Enter, the error aside.
    fn enter_key(&mut self, rows: u16) -> (es: Vec<TuiEffect>)
        requires
            old(self).wf(),
            rows >= 2,
            old(self).loaded_pages < usize::MAX,
        ensures
            final(self).wf(),
            final(self).error == old(self).error,
            final(self).statusbar_text == old(self).statusbar_text,
            enter_result(*old(self), *final(self), es@, rows),
    {
        let mut es: Vec<TuiEffect> = Vec::new();
        let v = self.current_view;
        if v == LIST_BOX_TAGS && self.selected_tags.len() > 0 {
            es = self.fill_discover(rows);
        } else if v == LIST_BOX_DISCOVER {
            if self.selected_position < self.discover.len() {
                let url = self.discover[self.selected_position].tralbum_url.clone();
                es.push(TuiEffect::LoadAlbum(url));
            }
        } else if v == LIST_BOX_QUEUE {
            match self.queue.set(self.selected_position) {
                Some(t) => {
                    let c = self.player.switch_track(t.audio_url);
                    es.push(TuiEffect::Send(c));
                },
                None => {},
            }
        }
        es.push(TuiEffect::Redraw);
        es
    }

    /// Delete, the error aside.
    fn delete_key(&mut self) -> (es: Vec<TuiEffect>)
        requires
            old(self).wf(),
        ensures
            final(self).wf(),
            final(self).error == old(self).error,
            final(self).statusbar_text == old(self).statusbar_text,
            delete_result(*old(self), *final(self), es@),
    {
        let mut es: Vec<TuiEffect> = Vec::new();
        let v = self.current_view;
        es.push(TuiEffect::ClearScreen);
        if v == LIST_BOX_TAGS {
            self.selected_tags.clear();
        } else if v == LIST_BOX_QUEUE {
            let c = self.player.pause();
            es.push(TuiEffect::Send(c));
            let c = self.player.stop();
            es.push(TuiEffect::Send(c));
            self.clear_box(LIST_BOX_QUEUE);
        } else {
            self.clear_box(LIST_BOX_DISCOVER);
            self.discover.clear();
        }
        if v == LIST_BOX_QUEUE {
            let c = self.player.pause();
            es.push(TuiEffect::Send(c));
            let c = self.player.stop();
            es.push(TuiEffect::Send(c));
        }
        es.push(TuiEffect::Redraw);
        es
    }

    /// `s`, the error aside.
    fn volume_down_key(&mut self) -> (es: Vec<TuiEffect>)
        ensures
            final(self).error == old(self).error,
            final(self).statusbar_text == old(self).statusbar_text,
            volume_down_result(*old(self), *final(self), es@),
    {
        let mut es: Vec<TuiEffect> = Vec::new();
        let vol = self.player.get_volume();
        if crate::cli_shell::volume_down_allowed(vol, 1) {
            match self.player.decrease_volume(1) {
                Some(c) => es.push(TuiEffect::Send(c)),
                None => {},
            }
        }
        es.push(TuiEffect::Redraw);
        es
    }
}

impl TuiState {
    /// Reacts to a key. `rows` is the height of the terminal.
    pub fn on_key(&mut self, key: TuiKey, rows: u16) -> (es: Vec<TuiEffect>)
        requires
            old(self).wf(),
            rows >= 2,
            old(self).loaded_pages < usize::MAX,
        ensures
            final(self).wf(),
            ({
                let o = *old(self);
                let n = *final(self);
                let v = o.current_view;
                let pos = o.selected_position;
                let b = o.listboxes@[v as int];
                match key {
                    TuiKey::Esc => effects_after(o, es@, seq![TuiEffect::Quit]) && same_but_status(
                        o,
                        n,
                    ) && error_cleared(o, n),
                    TuiKey::Char(c) => if c == 'q' {
                        &&& error_cleared(o, n) && n.player@ == o.player@
                        &&& n.selected_tags == o.selected_tags && n.discover == o.discover
                        &&& n.loaded_pages == o.loaded_pages && n.bottom_text == o.bottom_text
                        &&& n.running_text_offset == o.running_text_offset
                        &&& n.queue.shuffle == !o.queue.shuffle
                        &&& n.queue.queue == o.queue.queue && n.queue.queue_pos == o.queue.queue_pos
                        &&& n.current_view == LIST_BOX_QUEUE
                        &&& n.listboxes == o.listboxes && n.selected_position == pos
                        &&& effects_after(o, es@, seq![TuiEffect::Redraw])
                    } else if c == 'e' {
                        &&& same_but_status(o, n) && error_cleared(o, n)
                        &&& effects_after(
                            o,
                            es@,
                            seq![TuiEffect::Send(Command::Stop), TuiEffect::Redraw],
                        )
                    } else if c == 'c' {
                        &&& same_but_status(o, n) && error_cleared(o, n)
                        &&& effects_after(o, es@, seq![TuiEffect::ReadClipboard, TuiEffect::Redraw])
                    } else if c == 'w' {
                        &&& error_cleared(o, n) && n.bottom_text == o.bottom_text
                        &&& n.current_view == v && n.selected_position == pos
                        &&& n.selected_tags == o.selected_tags && n.discover == o.discover
                        &&& n.loaded_pages == o.loaded_pages
                        &&& n.running_text_offset == o.running_text_offset
                        &&& n.queue == o.queue && n.listboxes == o.listboxes
                        &&& if o.player@.1 < 100 {
                            &&& n.player@ == (o.player@.0, (o.player@.1 + 1) as u16)
                            &&& effects_after(
                                o,
                                es@,
                                seq![
                                    TuiEffect::Send(Command::AddVolume((o.player@.1 + 1) as u16)),
                                    TuiEffect::Redraw,
                                ],
                            )
                        } else {
                            n.player@ == o.player@ && effects_after(o, es@, seq![TuiEffect::Redraw])
                        }
                    } else if c == 's' {
                        &&& error_cleared(o, n) && clear_prefix(o, es@)
                        &&& volume_down_result(o, n, after_clear(o, es@))
                    } else if c == 'o' {
                        &&& keeps_rest(o, n) && n.bottom_text == o.bottom_text
                        &&& n.current_view == v && n.selected_position == pos
                        &&& n.queue == o.queue && n.listboxes == o.listboxes
                        &&& if o.queue.queue@.len() > 0 && o.queue.queue_pos < o.queue.queue@.len() {
                            error_cleared(o, n) && effects_after(
                                o,
                                es@,
                                seq![
                                    TuiEffect::OpenBrowser(
                                        o.queue.queue@[o.queue.queue_pos as int].album_url,
                                    ),
                                    TuiEffect::Redraw,
                                ],
                            )
                        } else {
                            n.error && n.statusbar_text@ == "Queue list is empty!"@
                                && effects_after(o, es@, seq![TuiEffect::Redraw])
                        }
                    } else if c == ' ' {
                        &&& error_cleared(o, n) && n.bottom_text == o.bottom_text
                        &&& n.current_view == v && n.selected_position == pos
                        &&& n.discover == o.discover && n.loaded_pages == o.loaded_pages
                        &&& n.running_text_offset == o.running_text_offset
                        &&& n.queue == o.queue && n.listboxes == o.listboxes
                        &&& if v == LIST_BOX_TAGS {
                            &&& n.player@ == o.player@
                            &&& if pos + b.page * b.height <= usize::MAX && selected_index(
                                pos as nat,
                                b.page as nat,
                                b.height as nat,
                            ) < b.display@.len() {
                                n.selected_tags@.len() == o.selected_tags@.len() + 1
                                    && n.selected_tags@.last()@ == b.display@[selected_index(
                                    pos as nat,
                                    b.page as nat,
                                    b.height as nat,
                                ) as int]@
                            } else {
                                n.selected_tags == o.selected_tags
                            }
                            &&& effects_after(o, es@, seq![TuiEffect::Redraw])
                        } else {
                            &&& n.selected_tags == o.selected_tags
                            &&& n.player@ == (!o.player@.0, o.player@.1)
                            &&& effects_after(
                                o,
                                es@,
                                seq![
                                    TuiEffect::Send(
                                        if o.player@.0 {
                                            Command::Play
                                        } else {
                                            Command::Pause
                                        },
                                    ),
                                    TuiEffect::Redraw,
                                ],
                            )
                        }
                    } else {
                        same_but_status(o, n) && error_cleared(o, n) && effects_after(
                            o,
                            es@,
                            seq![TuiEffect::Redraw],
                        )
                    },
                    TuiKey::Tab => {
                        &&& error_cleared(o, n) && keeps_rest(o, n)
                        &&& n.selected_position == pos && n.bottom_text == o.bottom_text
                        &&& n.current_view == (if v == 2 {
                            0
                        } else {
                            v + 1
                        })
                        &&& forall|i: int|
                            0 <= i < 3 ==> (#[trigger] n.listboxes@[i]).focused == (i
                                == n.current_view)
                        &&& forall|i: int|
                            0 <= i < 3 ==> (#[trigger] n.listboxes@[i]).display
                                == o.listboxes@[i].display && n.listboxes@[i].page
                                == o.listboxes@[i].page
                        &&& effects_after(o, es@, seq![TuiEffect::Redraw])
                    },
                    TuiKey::Up => {
                        &&& error_cleared(o, n) && keeps_rest(o, n)
                        &&& n.current_view == v && n.bottom_text == o.bottom_text
                        &&& only_paged(o, n, v as int)
                        &&& if pos > 0 {
                            n.selected_position == pos - 1 && n.listboxes == o.listboxes
                        } else {
                            &&& n.selected_position == b.height - 2
                            &&& n.listboxes@[v as int].page == prev_page(b.page as nat)
                        }
                        &&& effects_after(o, es@, seq![TuiEffect::Redraw])
                    },
                    TuiKey::Down => {
                        &&& error_cleared(o, n) && n.current_view == v
                        &&& n.bottom_text == o.bottom_text && only_paged(o, n, v as int)
                        &&& n.selected_tags == o.selected_tags && n.discover == o.discover
                        &&& n.queue == o.queue && n.player@ == o.player@
                        &&& n.running_text_offset == o.running_text_offset
                        &&& if pos < b.height - 2 {
                            &&& n.selected_position == pos + 1 && n.listboxes == o.listboxes
                            &&& effects_after(o, es@, seq![TuiEffect::Redraw])
                        } else {
                            &&& n.selected_position == 0
                            &&& n.listboxes@[v as int].page == next_page(
                                b.page as nat,
                                page_count(b.display@.len(), (b.height - 2) as nat),
                            )
                            &&& if o.loaded_pages > 0 && v == LIST_BOX_DISCOVER {
                                &&& n.loaded_pages == o.loaded_pages + 1
                                &&& es@.len() >= 2
                                &&& es@[es@.len() - 2] matches TuiEffect::LoadDiscover(req, fill)
                                    && !fill && request_for(
                                    o.selected_tags@,
                                    n.loaded_pages as i64,
                                    req,
                                )
                                &&& es@.last() is Redraw
                            } else {
                                n.loaded_pages == o.loaded_pages && effects_after(
                                    o,
                                    es@,
                                    seq![TuiEffect::Redraw],
                                )
                            }
                        }
                    },
                    TuiKey::Left => {
                        &&& error_cleared(o, n) && keeps_rest(o, n)
                        &&& n.current_view == v && n.selected_position == pos
                        &&& n.bottom_text@ == "Tracking back by 5 seconds... Please wait..."@
                        &&& n.listboxes == o.listboxes && n.queue == o.queue
                        &&& effects_after(
                            o,
                            es@,
                            seq![TuiEffect::Send(Command::SeekBackwards(5000)), TuiEffect::Redraw],
                        )
                    },
                    TuiKey::Right => {
                        &&& error_cleared(o, n) && keeps_rest(o, n)
                        &&& n.current_view == v && n.selected_position == pos
                        &&& n.bottom_text@ == "Tracking forward by 5 seconds... Please wait..."@
                        &&& n.listboxes == o.listboxes && n.queue == o.queue
                        &&& effects_after(
                            o,
                            es@,
                            seq![TuiEffect::Send(Command::SeekForward(5000)), TuiEffect::Redraw],
                        )
                    },
                    TuiKey::PageUp => {
                        &&& error_cleared(o, n) && keeps_rest(o, n)
                        &&& n.current_view == v && n.bottom_text == o.bottom_text
                        &&& only_paged(o, n, v as int)
                        &&& n.listboxes@[v as int].page == prev_page(b.page as nat)
                        &&& n.selected_position == pos
                        &&& effects_after(o, es@, seq![TuiEffect::Redraw])
                    },
                    TuiKey::PageDown => {
                        &&& error_cleared(o, n) && keeps_rest(o, n)
                        &&& n.current_view == v && n.bottom_text == o.bottom_text
                        &&& only_paged(o, n, v as int)
                        &&& n.listboxes@[v as int].page == next_page(
                            b.page as nat,
                            page_count(b.display@.len(), (b.height - 2) as nat),
                        )
                        &&& n.selected_position == pos
                        &&& effects_after(o, es@, seq![TuiEffect::Redraw])
                    },
                    TuiKey::Delete => error_cleared(o, n) && clear_prefix(o, es@) && delete_result(
                        o,
                        n,
                        after_clear(o, es@),
                    ),
                    TuiKey::Enter => error_cleared(o, n) && clear_prefix(o, es@) && enter_result(
                        o,
                        n,
                        after_clear(o, es@),
                        rows,
                    ),
                    TuiKey::Other => same_but_status(o, n) && error_cleared(o, n) && effects_after(
                        o,
                        es@,
                        seq![TuiEffect::Redraw],
                    ),
                }
            }),
    {
        let mut es: Vec<TuiEffect> = Vec::new();
        if self.error {
            self.status_bar(String::new(), false);
            es.push(TuiEffect::Redraw);
        }
        let ghost cleared = *self;
        let ghost pre = es@;
        let v = self.current_view;
        match key {
            TuiKey::Esc => {
                es.push(TuiEffect::Quit);
                return es;
            },
            TuiKey::Enter => {
                let mut more = self.enter_key(rows);
                let ghost m = more@;
                es.append(&mut more);
                assert(after_clear(*old(self), es@) =~= m);
                return es;
            },
            TuiKey::Delete => {
                let mut more = self.delete_key();
                let ghost m = more@;
                es.append(&mut more);
                assert(after_clear(*old(self), es@) =~= m);
                return es;
            },
            TuiKey::Char(c) => {
                if c == 'o' {
                    if self.queue.queue.len() > 0 && self.queue.queue_pos < self.queue.queue.len() {
                        let url = self.queue.queue[self.queue.queue_pos].album_url.clone();
                        es.push(TuiEffect::OpenBrowser(url));
                    } else {
                        self.status_bar("Queue list is empty!".to_string(), true);
                    }
                } else if c == 'q' {
                    self.queue.shuffle = !self.queue.shuffle;
                    self.current_view = LIST_BOX_QUEUE;
                } else if c == 'e' {
                    let c = self.player.stop();
                    es.push(TuiEffect::Send(c));
                } else if c == 'c' {
                    es.push(TuiEffect::ReadClipboard);
                } else if c == 'w' {
                    if self.player.get_volume() < 100 {
                        let c = self.player.increase_volume(1);
                        es.push(TuiEffect::Send(c));
                    }
                } else if c == 's' {
                    let mut more = self.volume_down_key();
                    let ghost m = more@;
                    es.append(&mut more);
                    assert(after_clear(*old(self), es@) =~= m);
                    return es;
                } else if c == ' ' {
                    if v == LIST_BOX_TAGS {
                        let b = &self.listboxes[LIST_BOX_TAGS];
                        let h = b.height as usize;
                        let pos = self.selected_position;
                        let glob = match b.page.checked_mul(h) {
                            Some(m) => pos.checked_add(m),
                            None => None,
                        };
                        match glob {
                            Some(g) => {
                                let idx = if g >= 1 {
                                    g - 1
                                } else {
                                    0
                                };
                                if idx < b.display.len() {
                                    let item = b.display[idx].clone();
                                    self.selected_tags.push(item);
                                }
                            },
                            None => {},
                        }
                    } else {
                        let paused = self.player.is_paused();
                        match self.player.set_paused(!paused) {
                            Some(c) => es.push(TuiEffect::Send(c)),
                            None => {},
                        }
                    }
                }
            },
            TuiKey::Tab => {
                if v == 2 {
                    self.current_view = 0;
                } else {
                    self.current_view = v + 1;
                }
                let ghost before = *self;
                let mut i: usize = 0;
                while i < 3
                    invariant
                        i <= 3,
                        self.keeps_all_but_boxes(before),
                        self.listboxes@.len() == 3,
                        self.current_view < 3,
                        self.current_view == (if v == 2 {
                            0
                        } else {
                            v + 1
                        }),
                        forall|k: int| 0 <= k < 3 ==> #[trigger] self.listboxes@[k].height > 2,
                        forall|k: int|
                            0 <= k < 3 ==> (#[trigger] self.listboxes@[k]).display
                                == old(self).listboxes@[k].display && self.listboxes@[k].page
                                == old(self).listboxes@[k].page,
                        forall|k: int|
                            0 <= k < i ==> (#[trigger] self.listboxes@[k]).focused == (k
                                == self.current_view),
                    decreases 3 - i,
                {
                    let mut b = self.swap_box(i, ListBox::new(0, 0, 0, false));
                    b.focused = i == self.current_view;
                    let _ = self.swap_box(i, b);
                    i = i + 1;
                }
            },
            TuiKey::Up => {
                if self.selected_position > 0 {
                    self.selected_position = self.selected_position - 1;
                } else {
                    self.page_box(v, true);
                    self.selected_position = self.listboxes[v].height as usize - 2;
                }
            },
            TuiKey::Down => {
                let h = self.listboxes[v].height as usize;
                if self.selected_position < h - 2 {
                    self.selected_position = self.selected_position + 1;
                } else {
                    self.page_box(v, false);
                    self.selected_position = 0;
                    if self.loaded_pages > 0 && v == LIST_BOX_DISCOVER {
                        self.loaded_pages = self.loaded_pages + 1;
                        let tags = clone_tags(&self.selected_tags);
                        let req = discover_request(tags, self.loaded_pages);
                        es.push(TuiEffect::LoadDiscover(req, false));
                    }
                }
            },
            TuiKey::Left => {
                self.bottom_text = "Tracking back by 5 seconds... Please wait...".to_string();
                let c = self.player.seek_backward(5000);
                es.push(TuiEffect::Send(c));
            },
            TuiKey::Right => {
                self.bottom_text = "Tracking forward by 5 seconds... Please wait...".to_string();
                let c = self.player.seek_forward(5000);
                es.push(TuiEffect::Send(c));
            },
            TuiKey::PageUp => {
                self.page_box(v, true);
            },
            TuiKey::PageDown => {
                self.page_box(v, false);
            },
            TuiKey::Other => {},
        }
        es.push(TuiEffect::Redraw);
        es
    }
}

/// The volume and shuffle part of the bottom line.
pub open spec fn ctrl_text(volume: u16, shuffle: bool) -> Seq<char> {
    "volume: "@ + dec(volume as nat) + "% shuffle: "@ + (if shuffle {
        "true"@
    } else {
        "false"@
    })
}

/// The bottom line when nothing plays.
pub open spec fn idle_line(volume: u16, shuffle: bool) -> Seq<char> {
    "\u{2bc0} "@ + ctrl_text(volume, shuffle)
}

/// The running title of a track: `artist - title ` .
pub open spec fn title_base(t: QueuedTrack) -> Seq<char> {
    t.artist@ + " - "@ + t.title@ + " "@
}

/// The offset of the running title after a tick: one further while it is
/// within the title's bytes, else back to the start.
pub open spec fn next_offset(base: Seq<char>, offset: nat) -> nat {
    if utf8_len(base) >= offset {
        offset + 1
    } else {
        0
    }
}

/// The bottom line while the track `t` plays at `time_ms` milliseconds,
/// the title scrolled to `offset` in a terminal of `cols` columns.
pub open spec fn playing_line(
    t: QueuedTrack,
    time_ms: u64,
    offset: nat,
    cols: nat,
    pos: nat,
    volume: u16,
    shuffle: bool,
) -> Seq<char> {
    let base = title_base(t);
    let half = cols / 2;
    let split = if utf8_len(base) > half {
        half
    } else {
        0
    };
    let title = run_string_spec(base, half, offset);
    let pad = if split >= utf8_len(title) {
        (split - utf8_len(title)) as nat
    } else {
        0
    };
    seq!['\r'] + clock_text((time_ms / 1000) as nat) + seq!['/'] + dec_pad2(t.duration as nat / 60)
        + seq![':'] + dec_pad2(t.duration as nat % 60) + seq![' '] + title + seq![' '] + Seq::new(
        pad,
        |_i: int| ' ',
    ) + " pos: "@ + dec(pos) + seq![' '] + ctrl_text(volume, shuffle)
}

/// Appends `n` spaces.
fn push_spaces(out: &mut Vec<char>, n: usize)
    ensures
        final(out)@ == old(out)@ + Seq::new(n as nat, |_i: int| ' '),
{
    let mut k: usize = 0;
    while k < n
        invariant
            k <= n,
            out@ == old(out)@ + Seq::new(k as nat, |_i: int| ' '),
        decreases n - k,
    {
        out.push(' ');
        k = k + 1;
        assert(out@ =~= old(out)@ + Seq::new(k as nat, |_i: int| ' '));
    }
}

/// The characters of `title_base(t)`.
fn title_base_chars(t: &QueuedTrack) -> (r: Vec<char>)
    ensures
        r@ == title_base(*t),
{
    let mut base = chars_of(t.artist.as_str());
    push_str(&mut base, " - ");
    push_str(&mut base, t.title.as_str());
    push_str(&mut base, " ");
    base
}

/// The start of the bottom line: the position and the length of the
/// track, and a space.
fn clock_pair(t: u64, duration: u64) -> (r: Vec<char>)
    ensures
        r@ == seq!['\r'] + clock_text((t / 1000) as nat) + seq!['/'] + dec_pad2(duration as nat / 60)
            + seq![':'] + dec_pad2(duration as nat % 60) + seq![' '],
{
    let mut line: Vec<char> = Vec::new();
    line.push('\r');
    let mins = t / 1000 / 60;
    let secs = t / 1000 % 60;
    push_dec_pad2(&mut line, mins);
    line.push(':');
    push_dec_pad2(&mut line, secs);
    line.push('/');
    push_dec_pad2(&mut line, duration / 60);
    line.push(':');
    push_dec_pad2(&mut line, duration % 60);
    line.push(' ');
    assert(line@ =~= seq!['\r'] + clock_text((t / 1000) as nat) + seq!['/'] + dec_pad2(
        duration as nat / 60,
    ) + seq![':'] + dec_pad2(duration as nat % 60) + seq![' ']);
    line
}

/// The bottom line while `track` plays; `ctrl` is its volume and shuffle
/// part.
#[verifier::rlimit(40)]
fn playing_text(
    track: &QueuedTrack,
    t: u64,
    offset: usize,
    cols: u16,
    pos: usize,
    ctrl: &Vec<char>,
    Ghost(volume): Ghost<u16>,
    Ghost(shuffle): Ghost<bool>,
) -> (r: String)
    requires
        ctrl@ == ctrl_text(volume, shuffle),
    ensures
        r@ == playing_line(*track, t, offset as nat, cols as nat, pos as nat, volume, shuffle),
{
    let base = title_base_chars(track);
    let half = (cols / 2) as usize;
    let split: usize = if utf8_longer_than(&base, half) {
        half
    } else {
        0
    };
    let base_s = string_from_chars(base.as_slice());
    let title = run_string(base_s, half, offset);
    let tv = chars_of(title.as_str());
    let pad: usize = if utf8_longer_than(&tv, split) {
        0
    } else {
        split - utf8_len_of(title.as_str())
    };
    let mut line = clock_pair(t, track.duration);
    push_all(&mut line, &tv);
    line.push(' ');
    push_spaces(&mut line, pad);
    push_str(&mut line, " pos: ");
    push_dec(&mut line, pos as u64);
    line.push(' ');
    push_all(&mut line, ctrl);
    assert(line@ =~= playing_line(*track, t, offset as nat, cols as nat, pos as nat, volume, shuffle));
    string_from_chars(line.as_slice())
}

impl TuiState {
    fn ctrl_chars(&mut self, out: &mut Vec<char>)
        ensures
            final(out)@ == old(out)@ + ctrl_text(old(self).player@.1, old(self).queue.shuffle),
            final(self).player@ == old(self).player@,
            final(self).queue == old(self).queue,
            final(self).listboxes == old(self).listboxes,
            final(self).bottom_text == old(self).bottom_text,
            final(self).running_text_offset == old(self).running_text_offset,
            final(self).current_view == old(self).current_view,
            final(self).discover == old(self).discover,
            final(self).selected_tags == old(self).selected_tags,
            final(self).loaded_pages == old(self).loaded_pages,
            final(self).selected_position == old(self).selected_position,
            final(self).error == old(self).error,
            final(self).statusbar_text == old(self).statusbar_text,
    {
        push_str(out, "volume: ");
        let v = self.player.get_volume();
        push_dec(out, v as u64);
        push_str(out, "% shuffle: ");
        if self.queue.shuffle {
            push_str(out, "true");
        } else {
            push_str(out, "false");
        }
        assert(out@ =~= old(out)@ + ctrl_text(old(self).player@.1, old(self).queue.shuffle));
    }

    /// Updates the bottom line: what plays at `time_ms` milliseconds (none:
    /// nothing plays) in a terminal of `cols` columns. Within a second of
    /// the end of the track, without shuffle, the queue moves on.
    pub fn tick(&mut self, time_ms: Option<u64>, cols: u16) -> (es: Vec<TuiEffect>)
        requires
            old(self).wf(),
        ensures
            final(self).wf(),
            final(self).listboxes == old(self).listboxes,
            final(self).player@ == old(self).player@,
            final(self).queue.queue == old(self).queue.queue,
            final(self).queue.shuffle == old(self).queue.shuffle,
            final(self).error == old(self).error,
            final(self).statusbar_text == old(self).statusbar_text,
            final(self).current_view == old(self).current_view,
            final(self).selected_tags == old(self).selected_tags,
            final(self).discover == old(self).discover,
            final(self).selected_position == old(self).selected_position,
            final(self).loaded_pages == old(self).loaded_pages,
            ({
                let o = *old(self);
                let n = *final(self);
                let q = o.queue;
                let vol = o.player@.1;
                let off = o.running_text_offset;
                match time_ms {
                    Some(t) => if q.queue@.len() > 0 && q.queue_pos < q.queue@.len() {
                        let track = q.queue@[q.queue_pos as int];
                        if o.listboxes@[2].display@.len() > 0 {
                            &&& n.running_text_offset == (if utf8_len(title_base(track)) >= off && off
                                < usize::MAX {
                                off + 1
                            } else {
                                0
                            })
                            &&& n.bottom_text@ == playing_line(
                                track,
                                t,
                                n.running_text_offset as nat,
                                cols as nat,
                                q.queue_pos as nat,
                                vol,
                                q.shuffle,
                            )
                            &&& if track.duration * 1000 < t + 1000 && !q.shuffle {
                                match next_pos(q.queue_pos as int, q.queue@.len() as int) {
                                    Some(p) => n.queue.queue_pos == p && es@ =~= seq![
                                        TuiEffect::Send(Command::SwitchTrack(q.queue@[p].audio_url)),
                                        TuiEffect::RedrawBottom,
                                    ],
                                    None => n.queue == q && es@ =~= seq![TuiEffect::RedrawBottom],
                                }
                            } else {
                                n.queue == q && es@ =~= seq![TuiEffect::RedrawBottom]
                            }
                        } else {
                            &&& n.bottom_text == o.bottom_text && n.queue == q
                            &&& n.running_text_offset == off
                            &&& es@ =~= seq![TuiEffect::RedrawBottom]
                        }
                    } else {
                        &&& n.bottom_text@ == idle_line(vol, q.shuffle) && n.queue == q
                        &&& n.running_text_offset == off
                        &&& es@ =~= seq![TuiEffect::RedrawBottom]
                    },
                    None => {
                        &&& n.bottom_text@ == idle_line(vol, q.shuffle) && n.queue == q
                        &&& n.running_text_offset == off
                        &&& es@ =~= seq![TuiEffect::RedrawBottom]
                    },
                }
            }),
    {
        let mut es: Vec<TuiEffect> = Vec::new();
        let mut ctrl: Vec<char> = Vec::new();
        self.ctrl_chars(&mut ctrl);
        let playing = match time_ms {
            Some(_) => self.queue.queue.len() > 0 && self.queue.queue_pos < self.queue.queue.len(),
            None => false,
        };
        if !playing {
            let mut line = chars_of("\u{2bc0} ");
            push_all(&mut line, &ctrl);
            self.bottom_text = string_from_chars(line.as_slice());
        } else if self.listboxes[LIST_BOX_QUEUE].display.len() > 0 {
            let t = time_ms.unwrap();
            let pos = self.queue.queue_pos;
            let track = self.queue.queue[pos].clone();
            let base = title_base_chars(&track);
            let off = self.running_text_offset;
            let within = off == 0 || utf8_longer_than(&base, off - 1);
            if within && off < usize::MAX {
                self.running_text_offset = off + 1;
            } else {
                self.running_text_offset = 0;
            }
            let text = playing_text(
                &track,
                t,
                self.running_text_offset,
                cols,
                pos,
                &ctrl,
                Ghost(old(self).player@.1),
                Ghost(old(self).queue.shuffle),
            );
            self.bottom_text = text;
            if track_ends(track.duration, t) && !self.queue.shuffle {
                match self.queue.next() {
                    Some(nt) => {
                        let c = self.player.switch_track(nt.audio_url);
                        es.push(TuiEffect::Send(c));
                    },
                    None => {},
                }
            }
        }
        es.push(TuiEffect::RedrawBottom);
        es
    }
}

/// Whether a track of `duration` seconds is within a second of its end at
/// `t` milliseconds.
fn track_ends(duration: u64, t: u64) -> (r: bool)
    ensures
        r == (duration * 1000 < t + 1000),
{
    if duration == 0 {
        true
    } else if t == 0 {
        false
    } else {
        let d = duration - 1;
        let m = t - 1;
        proof {
            lemma_before_end(d as int, m as int);
        }
        d <= m / 1000
    }
}

proof fn lemma_before_end(d: int, m: int)
    requires
        d >= 0,
        m >= 0,
    ensures
        (d <= m / 1000) == (d * 1000 <= m),
{
    assert((d <= m / 1000) == (d * 1000 <= m)) by (nonlinear_arith)
        requires
            d >= 0,
            m >= 0,
    ;
}

} // verus!
