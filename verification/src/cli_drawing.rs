//! The list boxes of the terminal front-end, as pages of lines, and the
//! running title text of the bottom bar.
use vstd::prelude::*;

use crate::tag_order::lemma_string_views_push;
use crate::text::string_views;
use crate::text::{chars_of, lemma_utf8_len_prefix, string_from_chars, utf8_len, utf8_width};

verus! {

broadcast use vstd::string::group_string_axioms;

/// A list of lines shown a page at a time in a column of the terminal.
pub struct ListBox {
    /// The lines.
    pub display: Vec<String>,
    /// The page shown.
    pub page: usize,
    /// The width of the column.
    pub width: u16,
    /// The height of the column, two rows of which are the frame.
    pub height: u16,
    /// The column where the box begins.
    pub x: u16,
    /// Whether the box has the focus.
    pub focused: bool,
}

/// How many pages of `per` lines `n` lines fill, the last one possibly in
/// part (the number of `chunks(per)`).
pub open spec fn page_count(n: nat, per: nat) -> nat
    recommends
        per > 0,
{
    if n % per == 0 {
        n / per
    } else {
        n / per + 1
    }
}

/// The page after paging forward from `page` when there are `count` pages:
/// one more, up to `count` itself.
pub open spec fn next_page(page: nat, count: nat) -> nat {
    if page < count {
        page + 1
    } else {
        page
    }
}

/// The page after paging back from `page`: one less, down to the first.
pub open spec fn prev_page(page: nat) -> nat {
    if page > 0 {
        (page - 1) as nat
    } else {
        0
    }
}

/// The line that position `pos` of page `page` selects in a box of height
/// `height`: the one before `pos + page * height`, or the first.
pub open spec fn selected_index(pos: nat, page: nat, height: nat) -> nat {
    if pos + page * height >= 1 {
        (pos + page * height - 1) as nat
    } else {
        0
    }
}

/// The lines of `s` equal to `v`, in order.
pub open spec fn only_equal(s: Seq<Seq<char>>, v: Seq<char>) -> Seq<Seq<char>>
    decreases s.len(),
{
    if s.len() == 0 {
        Seq::empty()
    } else if s.last() == v {
        only_equal(s.drop_last(), v).push(v)
    } else {
        only_equal(s.drop_last(), v)
    }
}

/// Paging forward and then back comes back to the page where it started,
/// unless it started on the last page or beyond.
pub proof fn lemma_page_forward_back(page: nat, count: nat)
    requires
        page < count,
    ensures
        prev_page(next_page(page, count)) == page,
{
}

impl ListBox {
    /// An empty box of the given size and place, on its first page.
    pub fn new(width: u16, height: u16, x: u16, focused: bool) -> (l: Self)
        ensures
            l.display@ == Seq::<String>::empty(),
            l.page == 0,
            l.width == width,
            l.height == height,
            l.x == x,
            l.focused == focused,
    {
        Self { display: Vec::new(), page: 0, width, height, focused, x }
    }

    /// Adds a line at the end.
    pub fn add(&mut self, value: String)
        ensures
            final(self).display@ == old(self).display@.push(value),
            final(self).page == old(self).page,
            final(self).width == old(self).width,
            final(self).height == old(self).height,
            final(self).x == old(self).x,
            final(self).focused == old(self).focused,
    {
        self.display.push(value);
    }

    /// Adds lines at the end.
    pub fn add_range(&mut self, value: Vec<String>)
        ensures
            final(self).display@ == old(self).display@ + value@,
            final(self).page == old(self).page,
            final(self).width == old(self).width,
            final(self).height == old(self).height,
            final(self).x == old(self).x,
            final(self).focused == old(self).focused,
    {
        let mut value = value;
        self.display.append(&mut value);
    }

    /// Whether the box holds no line.
    pub fn is_empty(&mut self) -> (r: bool)
        ensures
            *final(self) == *old(self),
            r == (old(self).display@.len() == 0),
    {
        self.display.len() == 0
    }

    /// Moves and resizes the box.
    pub fn resize(&mut self, w: u16, h: u16, x: u16)
        ensures
            final(self).display == old(self).display,
            final(self).page == old(self).page,
            final(self).focused == old(self).focused,
            final(self).width == w,
            final(self).height == h,
            final(self).x == x,
    {
        self.width = w;
        self.height = h;
        self.x = x;
    }

    /// How many pages the lines fill, `height - 2` lines to a page.
    pub fn get_page_count(&mut self) -> (r: usize)
        requires
            old(self).height > 2,
        ensures
            *final(self) == *old(self),
            r == page_count(old(self).display@.len(), (old(self).height - 2) as nat),
    {
        let per = (self.height - 2) as usize;
        let n = self.display.len();
        if n % per == 0 {
            n / per
        } else {
            assert(per >= 2);
            assert(n / per <= n / 2) by (nonlinear_arith)
                requires
                    per >= 2,
            ;
            n / per + 1
        }
    }

    /// Shows the next page, unless the last one is shown already.
    pub fn switch_page_up(&mut self)
        requires
            old(self).height > 2,
        ensures
            final(self).page == next_page(
                old(self).page as nat,
                page_count(old(self).display@.len(), (old(self).height - 2) as nat),
            ),
            final(self).display == old(self).display,
            final(self).width == old(self).width,
            final(self).height == old(self).height,
            final(self).x == old(self).x,
            final(self).focused == old(self).focused,
    {
        if self.page < self.get_page_count() {
            self.page = self.page + 1;
        }
    }

    /// Shows the previous page, unless the first one is shown.
    pub fn switch_page_down(&mut self)
        ensures
            final(self).page == prev_page(old(self).page as nat),
            final(self).display == old(self).display,
            final(self).width == old(self).width,
            final(self).height == old(self).height,
            final(self).x == old(self).x,
            final(self).focused == old(self).focused,
    {
        if self.page > 0 {
            self.page = self.page - 1;
        }
    }

    /// The line that the cursor at `pos` on the shown page selects.
    pub fn get_selected_item(&mut self, pos: usize) -> (r: String)
        requires
            pos + old(self).page * old(self).height <= usize::MAX,
            selected_index(pos as nat, old(self).page as nat, old(self).height as nat)
                < old(self).display@.len(),
        ensures
            *final(self) == *old(self),
            r@ == old(self).display@[selected_index(
                pos as nat,
                old(self).page as nat,
                old(self).height as nat,
            ) as int]@,
    {
        let glob = self.sel_idx_glob(pos);
        let idx = if glob >= 1 {
            glob - 1
        } else {
            0
        };
        self.display[idx].clone()
    }

    /// Keeps the lines equal to `value` and drops the others.
    pub fn remove(&mut self, value: String)
        ensures
            string_views(final(self).display@) == only_equal(
                string_views(old(self).display@),
                value@,
            ),
            final(self).page == old(self).page,
            final(self).width == old(self).width,
            final(self).height == old(self).height,
            final(self).x == old(self).x,
            final(self).focused == old(self).focused,
    {
        let ghost dv = string_views(self.display@);
        let mut kept: Vec<String> = Vec::new();
        let mut i: usize = 0;
        while i < self.display.len()
            invariant
                i <= self.display.len(),
                dv == string_views(self.display@),
                string_views(kept@) == only_equal(dv.subrange(0, i as int), value@),
            decreases self.display.len() - i,
        {
            assert(dv.subrange(0, i + 1).drop_last() =~= dv.subrange(0, i as int));
            assert(dv[i as int] == self.display@[i as int]@);
            if self.display[i] == value {
                let line = self.display[i].clone();
                proof {
                    lemma_string_views_push(kept@, line);
                }
                kept.push(line);
            }
            i = i + 1;
        }
        assert(dv.subrange(0, self.display.len() as int) =~= dv);
        self.display = kept;
    }

    /// Removes every line.
    pub fn clear(&mut self)
        ensures
            final(self).display@ == Seq::<String>::empty(),
            final(self).page == old(self).page,
            final(self).width == old(self).width,
            final(self).height == old(self).height,
            final(self).x == old(self).x,
            final(self).focused == old(self).focused,
    {
        self.display.clear();
    }

    /// The position `pos` of the shown page counted from the first line of
    /// the first page, pages taken `height` lines apart.
    pub fn sel_idx_glob(&mut self, pos: usize) -> (r: usize)
        requires
            pos + old(self).page * old(self).height <= usize::MAX,
        ensures
            *final(self) == *old(self),
            r == pos + old(self).page * old(self).height,
    {
        let h = self.height as usize;
        proof {
            assert(self.page * h <= pos + self.page * h) by (nonlinear_arith)
                requires
                    pos >= 0,
            ;
        }
        pos + self.page * h
    }
}

/// Whether `s` takes more than `max` bytes in UTF-8.
pub fn utf8_longer_than(s: &Vec<char>, max: usize) -> (r: bool)
    ensures
        r == (utf8_len(s@) > max),
{
    let mut n: usize = 0;
    let mut i: usize = 0;
    while i < s.len()
        invariant
            i <= s.len(),
            n == utf8_len(s@.subrange(0, i as int)),
            n <= max,
        decreases s.len() - i,
    {
        let code: u32 = s[i] as u32;
        let w: usize = if code < 0x80 {
            1
        } else if code < 0x800 {
            2
        } else if code < 0x10000 {
            3
        } else {
            4
        };
        proof {
            assert(s@.subrange(0, i + 1).drop_last() =~= s@.subrange(0, i as int));
            assert(w == utf8_width(s@[i as int]));
        }
        if w > max - n {
            proof {
                lemma_utf8_len_prefix(s@, i + 1);
            }
            return true;
        }
        n = n + w;
        i = i + 1;
    }
    assert(s@.subrange(0, s.len() as int) =~= s@);
    false
}

/// What `run_string` shows of `s`: all of it when it takes at most
/// `max_width` bytes, else the `max_width` characters from `offset` on
/// (fewer when the text ends first).
pub open spec fn run_string_spec(s: Seq<char>, max_width: nat, offset: nat) -> Seq<char> {
    if utf8_len(s) > max_width {
        let from = if offset <= s.len() {
            offset as int
        } else {
            s.len() as int
        };
        let to = if offset + max_width <= s.len() {
            (offset + max_width) as int
        } else {
            s.len() as int
        };
        s.subrange(from, to)
    } else {
        s
    }
}

/// The part of a running text that fits `max_width`, scrolled to
/// `current_offset`.
pub fn run_string(s: String, max_width: usize, current_offset: usize) -> (r: String)
    ensures
        r@ == run_string_spec(s@, max_width as nat, current_offset as nat),
{
    let v = chars_of(s.as_str());
    if utf8_longer_than(&v, max_width) {
        let from = if current_offset <= v.len() {
            current_offset
        } else {
            v.len()
        };
        let to = if max_width <= v.len() - from && current_offset <= v.len() {
            from + max_width
        } else {
            v.len()
        };
        let mut out: Vec<char> = Vec::new();
        let mut k = from;
        while k < to
            invariant
                from <= k <= to,
                to <= v.len(),
                out@ == v@.subrange(from as int, k as int),
            decreases to - k,
        {
            out.push(v[k]);
            k = k + 1;
            assert(out@ =~= v@.subrange(from as int, k as int));
        }
        string_from_chars(out.as_slice())
    } else {
        s
    }
}

/// The name shown at the left of the status bar.
pub open spec fn program_name() -> Seq<char> {
    "\u{25b6} BandcampOnlinePlayer RS | "@
}

/// `n` spaces.
pub open spec fn spaces(n: nat) -> Seq<char> {
    Seq::new(n, |_i: int| ' ')
}

/// What is left of `a` after taking `b` away, or nothing.
pub open spec fn sat_sub(a: int, b: int) -> nat {
    if a >= b {
        (a - b) as nat
    } else {
        0
    }
}

/// The status bar of a terminal `cols` wide showing `text`: the program's
/// name, the text, and spaces up to the width (the text counted in bytes,
/// the name in characters).
pub open spec fn status_line_spec(cols: nat, text: Seq<char>) -> Seq<char> {
    program_name() + text + spaces(sat_sub(sat_sub(cols as int, utf8_len(text) as int) as int, program_name().len() as int))
}

/// The bottom bar of a terminal `cols` wide showing `text`, filled with
/// spaces up to the width.
pub open spec fn bottom_line_spec(cols: nat, text: Seq<char>) -> Seq<char> {
    text + spaces(sat_sub(cols as int, utf8_len(text) as int))
}

/// Appends `n` spaces.
fn push_spaces(out: &mut Vec<char>, n: usize)
    ensures
        final(out)@ == old(out)@ + spaces(n as nat),
{
    let mut k: usize = 0;
    while k < n
        invariant
            k <= n,
            out@ == old(out)@ + spaces(k as nat),
        decreases n - k,
    {
        out.push(' ');
        k = k + 1;
        assert(out@ =~= old(out)@ + spaces(k as nat));
    }
}

/// What of `cols` is left after the bytes of `text`.
fn room_after(cols: usize, text: &Vec<char>) -> (r: usize)
    ensures
        r == sat_sub(cols as int, utf8_len(text@) as int),
{
    if utf8_longer_than(text, cols) {
        0
    } else {
        let s = string_from_chars(text.as_slice());
        cols - crate::text::utf8_len_of(s.as_str())
    }
}

/// The status bar line of a terminal `cols` wide showing `text`.
pub fn status_line(cols: u16, text: &str) -> (r: String)
    ensures
        r@ == status_line_spec(cols as nat, text@),
{
    let name = chars_of("\u{25b6} BandcampOnlinePlayer RS | ");
    let t = chars_of(text);
    let room = room_after(cols as usize, &t);
    let fill = if room >= name.len() {
        room - name.len()
    } else {
        0
    };
    let mut out = name;
    crate::text::push_all(&mut out, &t);
    push_spaces(&mut out, fill);
    string_from_chars(out.as_slice())
}

/// The bottom bar line of a terminal `cols` wide showing `text`.
pub fn bottom_line(cols: u16, text: &str) -> (r: String)
    ensures
        r@ == bottom_line_spec(cols as nat, text@),
{
    let t = chars_of(text);
    let room = room_after(cols as usize, &t);
    let mut out = chars_of(text);
    push_spaces(&mut out, room);
    string_from_chars(out.as_slice())
}

/// The lines of page `page` when `lines` are cut into pages of `per`.
pub open spec fn page_of(lines: Seq<String>, page: nat, per: nat) -> Seq<String> {
    let from = page * per;
    if from < lines.len() {
        lines.subrange(from as int, if from + per <= lines.len() {
            (from + per) as int
        } else {
            lines.len() as int
        })
    } else {
        Seq::empty()
    }
}

/// The lines of page `page` (pages of `per` lines), each with whether the
/// cursor at `cursor` marks it.
pub fn page_lines(lines: &Vec<String>, page: usize, per: usize, cursor: usize, marked: bool) -> (r: Vec<(String, bool)>)
    requires
        per > 0,
    ensures
        r@.len() == page_of(lines@, page as nat, per as nat).len(),
        forall|i: int|
            0 <= i < r@.len() ==> (#[trigger] r@[i]).0@ == page_of(lines@, page as nat, per as nat)[i]@
                && r@[i].1 == (marked && i == cursor),
{
    let mut r: Vec<(String, bool)> = Vec::new();
    let n = lines.len();
    if page > n / per {
        assert(page * per > n) by (nonlinear_arith)
            requires
                page > n / per,
                per > 0,
        ;
        return r;
    }
    assert(page * per <= (n / per) * per) by (nonlinear_arith)
        requires
            page <= n / per,
            per > 0,
    ;
    assert((n / per) * per <= n) by (nonlinear_arith)
        requires
            per > 0,
    ;
    let from = page * per;
    if from >= n {
        return r;
    }
    let to = if per <= n - from {
        from + per
    } else {
        n
    };
    let mut k = from;
    while k < to
        invariant
            from <= k <= to,
            to <= n,
            n == lines.len(),
            from == page * per,
            from < n,
            to == (if from + per <= n {
                (from + per) as int
            } else {
                n as int
            }),
            r@.len() == k - from,
            forall|i: int|
                0 <= i < r@.len() ==> (#[trigger] r@[i]).0@ == lines@[from + i]@ && r@[i].1 == (
                marked && i == cursor),
        decreases to - k,
    {
        let i = k - from;
        let line = lines[k].clone();
        r.push((line, marked && i == cursor));
        k = k + 1;
    }
    r
}

impl ListBox {
    /// The lines the box shows on its page (pages of `height - 1` lines, as
    /// it draws them), each with whether the cursor at `cursor` marks it
    /// (only when the box has the focus).
    pub fn visible_lines(&self, cursor: usize) -> (r: Vec<(String, bool)>)
        requires
            self.height >= 2,
        ensures
            r@.len() == page_of(self.display@, self.page as nat, (self.height - 1) as nat).len(),
            forall|i: int|
                0 <= i < r@.len() ==> (#[trigger] r@[i]).0@ == page_of(
                    self.display@,
                    self.page as nat,
                    (self.height - 1) as nat,
                )[i]@ && r@[i].1 == (self.focused && i == cursor),
    {
        page_lines(&self.display, self.page, (self.height - 1) as usize, cursor, self.focused)
    }
}

} // verus!
