//! The list box of the full-screen front-end: lines shown a page at a time
//! with a cursor on the shown page.
use vstd::prelude::*;

use crate::cli_drawing::{next_page, page_count, page_lines, page_of, prev_page};
use crate::tag_order::lemma_string_views_push;
use crate::text::string_views;

verus! {

broadcast use vstd::string::group_string_axioms;

/// A list box: its lines, the page shown, the cursor on that page, its size
/// on the screen, whether it has the focus and the caption under it.
pub struct ListBox {
    /// The lines.
    pub display: Vec<String>,
    /// The page shown.
    pub page: usize,
    /// The cursor on the shown page.
    pub position: usize,
    /// The width of the box's screen.
    pub width: u32,
    /// The height of the box's screen, two rows of which are the frame.
    pub height: u32,
    /// Whether the box has the focus.
    pub focused: bool,
    /// The caption: name, keys and usage.
    pub description: String,
}

/// The cursor and page after scrolling down from cursor `position` on page
/// `page` of a box showing `per` lines a page over `count` pages: the next
/// line, or the top of the next page at the bottom of a page.
pub open spec fn scrolled_down(position: nat, page: nat, per: nat, count: nat) -> (nat, nat) {
    if position < per {
        (position + 1, page)
    } else if page < count {
        (0, page + 1)
    } else {
        (position, page)
    }
}

/// The cursor and page after scrolling up: the line before, or the bottom
/// of the previous page at the top of a page.
pub open spec fn scrolled_up(position: nat, page: nat, per: nat) -> (nat, nat) {
    if position > 0 {
        ((position - 1) as nat, page)
    } else {
        (per, prev_page(page))
    }
}

/// Scrolling down and then up, within a page, comes back to the same line.
pub proof fn lemma_scroll_down_up(position: nat, page: nat, per: nat, count: nat)
    requires
        position < per,
    ensures
        ({
            let (p, g) = scrolled_down(position, page, per, count);
            scrolled_up(p, g, per)
        }) == (position, page),
{
}

/// The lines of `s` other than `v`, in order.
pub open spec fn without(s: Seq<Seq<char>>, v: Seq<char>) -> Seq<Seq<char>>
    decreases s.len(),
{
    if s.len() == 0 {
        Seq::empty()
    } else if s.last() == v {
        without(s.drop_last(), v)
    } else {
        without(s.drop_last(), v).push(s.last())
    }
}

/// The index, counted over all pages, of row `pos` of page `page` in a box
/// `height` rows high, whose pages hold `height - 2` lines.
pub open spec fn line_index(pos: nat, page: nat, height: nat) -> nat {
    page * ((height - 2) as nat) + pos
}

impl ListBox {
    /// An empty box of `w` by `h` cells, on its first page with the cursor
    /// at the top.
    pub fn new(w: u16, h: u16, focused: bool, description: String) -> (l: Self)
        ensures
            l.display@ == Seq::<String>::empty(),
            l.page == 0,
            l.position == 0,
            l.width == w as u32,
            l.height == h as u32,
            l.focused == focused,
            l.description == description,
    {
        Self {
            display: Vec::new(),
            page: 0,
            position: 0,
            width: w as u32,
            height: h as u32,
            focused,
            description,
        }
    }

    /// How many pages the lines fill, `height - 2` lines to a page.
    pub fn get_page_count(&mut self) -> (r: usize)
        requires
            old(self).height > 2,
        ensures
            *final(self) == *old(self),
            r == page_count(old(self).display@.len(), (old(self).height - 2) as nat),
    {
        let per = (self.height - 2) as usize;
        let n = self.display.len();
        if n % per == 0 {
            n / per
        } else {
            assert(n / per <= n / 2) by (nonlinear_arith)
                requires
                    per >= 2,
            ;
            n / per + 1
        }
    }

    /// Moves the cursor one line down, to the next page at the bottom of a
    /// page.
    pub fn scroll_down(&mut self)
        requires
            old(self).height > 2,
        ensures
            (final(self).position as nat, final(self).page as nat) == scrolled_down(
                old(self).position as nat,
                old(self).page as nat,
                (old(self).height - 2) as nat,
                page_count(old(self).display@.len(), (old(self).height - 2) as nat),
            ),
            final(self).display == old(self).display,
            final(self).width == old(self).width,
            final(self).height == old(self).height,
            final(self).focused == old(self).focused,
            final(self).description == old(self).description,
    {
        if self.position < self.height as usize - 2 {
            self.position = self.position + 1;
        } else {
            self.switch_page_up();
        }
    }

    /// Moves the cursor one line up, to the bottom of the previous page at
    /// the top of a page.
    pub fn scroll_up(&mut self)
        requires
            old(self).height >= 2,
        ensures
            (final(self).position as nat, final(self).page as nat) == scrolled_up(
                old(self).position as nat,
                old(self).page as nat,
                (old(self).height - 2) as nat,
            ),
            final(self).display == old(self).display,
            final(self).width == old(self).width,
            final(self).height == old(self).height,
            final(self).focused == old(self).focused,
            final(self).description == old(self).description,
    {
        if self.position > 0 {
            self.position = self.position - 1;
        } else {
            self.switch_page_down();
            self.position = self.height as usize - 2;
        }
    }

    /// Shows the next page with the cursor at its top, unless the last one
    /// is shown already.
    pub fn switch_page_up(&mut self)
        requires
            old(self).height > 2,
        ensures
            old(self).page < page_count(old(self).display@.len(), (old(self).height - 2) as nat)
                ==> final(self).page == old(self).page + 1 && final(self).position == 0,
            old(self).page >= page_count(old(self).display@.len(), (old(self).height - 2) as nat)
                ==> final(self).page == old(self).page && final(self).position == old(
                self,
            ).position,
            final(self).page == next_page(
                old(self).page as nat,
                page_count(old(self).display@.len(), (old(self).height - 2) as nat),
            ),
            final(self).display == old(self).display,
            final(self).width == old(self).width,
            final(self).height == old(self).height,
            final(self).focused == old(self).focused,
            final(self).description == old(self).description,
    {
        if self.page < self.get_page_count() {
            self.page = self.page + 1;
            self.position = 0;
        }
    }

    /// Shows the previous page, unless the first one is shown.
    pub fn switch_page_down(&mut self)
        ensures
            final(self).page == prev_page(old(self).page as nat),
            final(self).position == old(self).position,
            final(self).display == old(self).display,
            final(self).width == old(self).width,
            final(self).height == old(self).height,
            final(self).focused == old(self).focused,
            final(self).description == old(self).description,
    {
        if self.page > 0 {
            self.page = self.page - 1;
        }
    }

    /// The index in `display` of the line under the cursor: the lines of
    /// the pages before (each of `height - 2` lines) and the cursor's row.
    pub fn get_selected_idx(&mut self) -> (r: usize)
        requires
            old(self).height >= 2,
            line_index(old(self).position as nat, old(self).page as nat, old(self).height as nat)
                <= usize::MAX,
        ensures
            *final(self) == *old(self),
            r == line_index(old(self).position as nat, old(self).page as nat, old(self).height as nat),
    {
        let per = (self.height - 2) as usize;
        proof {
            assert(self.page * per <= self.position + self.page * per) by (nonlinear_arith)
                requires
                    self.position >= 0,
            ;
        }
        self.page * per + self.position
    }

    /// Removes every line equal to `value`; the others stay, in order.
    pub fn remove(&mut self, value: String)
        ensures
            string_views(final(self).display@) == without(string_views(old(self).display@), value@),
            final(self).page == old(self).page,
            final(self).position == old(self).position,
            final(self).width == old(self).width,
            final(self).height == old(self).height,
            final(self).focused == old(self).focused,
            final(self).description == old(self).description,
    {
        let ghost dv = string_views(self.display@);
        let mut kept: Vec<String> = Vec::new();
        let mut i: usize = 0;
        while i < self.display.len()
            invariant
                i <= self.display.len(),
                dv == string_views(self.display@),
                string_views(kept@) == without(dv.subrange(0, i as int), value@),
            decreases self.display.len() - i,
        {
            assert(dv.subrange(0, i + 1).drop_last() =~= dv.subrange(0, i as int));
            assert(dv[i as int] == self.display@[i as int]@);
            if !(self.display[i] == value) {
                let line = self.display[i].clone();
                proof {
                    lemma_string_views_push(kept@, line);
                }
                kept.push(line);
            }
            i = i + 1;
        }
        assert(dv.subrange(0, self.display.len() as int) =~= dv);
        self.display = kept;
    }

    /// The line at the cursor's place counted from the first line.
    pub fn get_selected_str(&mut self) -> (r: String)
        requires
            old(self).position < old(self).display@.len(),
        ensures
            *final(self) == *old(self),
            r@ == old(self).display@[old(self).position as int]@,
    {
        self.display[self.position].clone()
    }

    /// The position `pos` of the shown page counted from the first line of
    /// the first page, pages taken `height` lines apart.
    pub fn sel_idx_glob(&mut self, pos: usize) -> (r: usize)
        requires
            pos + old(self).page * old(self).height <= usize::MAX,
        ensures
            *final(self) == *old(self),
            r == pos + old(self).page * old(self).height,
    {
        let h = self.height as usize;
        proof {
            assert(self.page * h <= pos + self.page * h) by (nonlinear_arith)
                requires
                    pos >= 0,
            ;
        }
        pos + self.page * h
    }

    /// The lines the box shows on its page (pages of `height - 2` lines),
    /// each with whether the cursor is on it.
    pub fn visible_lines(&self) -> (r: Vec<(String, bool)>)
        requires
            self.height > 2,
        ensures
            r@.len() == page_of(self.display@, self.page as nat, (self.height - 2) as nat).len(),
            forall|i: int|
                0 <= i < r@.len() ==> (#[trigger] r@[i]).0@ == page_of(
                    self.display@,
                    self.page as nat,
                    (self.height - 2) as nat,
                )[i]@ && r@[i].1 == (i == self.position),
    {
        page_lines(&self.display, self.page, (self.height - 2) as usize, self.position, true)
    }

    /// Resizes the box to `w` by `h` cells and puts the cursor at the top.
    pub fn resize(&mut self, w: u16, h: u16)
        ensures
            final(self).position == 0,
            final(self).width == w as u32,
            final(self).height == h as u32,
            final(self).display == old(self).display,
            final(self).page == old(self).page,
            final(self).focused == old(self).focused,
            final(self).description == old(self).description,
    {
        self.position = 0;
        self.width = w as u32;
        self.height = h as u32;
    }
}

/// The index of the first list box that has the focus; the first box when
/// none has it.
pub fn get_focus_at(lbx: &Vec<ListBox>) -> (r: usize)
    ensures
        (exists|k: int| 0 <= k < lbx@.len() && lbx@[k].focused) ==> (r < lbx@.len()
            && lbx@[r as int].focused && forall|k: int| 0 <= k < r ==> !lbx@[k].focused),
        !(exists|k: int| 0 <= k < lbx@.len() && lbx@[k].focused) ==> r == 0,
{
    let mut i: usize = 0;
    while i < lbx.len()
        invariant
            i <= lbx.len(),
            forall|k: int| 0 <= k < i ==> !lbx@[k].focused,
        decreases lbx.len() - i,
    {
        if lbx[i].focused {
            return i;
        }
        i = i + 1;
    }
    0
}

/// Gives the focus to list box `id` alone.
pub fn setup_focus_at(id: usize, lbx: &mut Vec<ListBox>)
    requires
        id < old(lbx)@.len(),
    ensures
        final(lbx)@.len() == old(lbx)@.len(),
        forall|k: int|
            0 <= k < final(lbx)@.len() ==> (#[trigger] final(lbx)@[k]).focused == (k == id),
        forall|k: int|
            0 <= k < final(lbx)@.len() ==> (#[trigger] final(lbx)@[k]).display == old(
                lbx,
            )@[k].display && final(lbx)@[k].page == old(lbx)@[k].page && final(lbx)@[k].position
                == old(lbx)@[k].position,
        forall|k: int|
            0 <= k < final(lbx)@.len() ==> (#[trigger] final(lbx)@[k]).width == old(lbx)@[k].width
                && final(lbx)@[k].height == old(lbx)@[k].height && final(lbx)@[k].description
                == old(lbx)@[k].description,
{
    let mut i: usize = 0;
    while i < lbx.len()
        invariant
            i <= lbx.len(),
            lbx@.len() == old(lbx)@.len(),
            id < lbx@.len(),
            forall|k: int| 0 <= k < i ==> (#[trigger] lbx@[k]).focused == (k == id),
            forall|k: int|
                0 <= k < lbx@.len() ==> (#[trigger] lbx@[k]).display == old(lbx)@[k].display
                    && lbx@[k].page == old(lbx)@[k].page && lbx@[k].position == old(
                    lbx,
                )@[k].position,
            forall|k: int|
                0 <= k < lbx@.len() ==> (#[trigger] lbx@[k]).width == old(lbx)@[k].width
                    && lbx@[k].height == old(lbx)@[k].height && lbx@[k].description == old(
                    lbx,
                )@[k].description,
        decreases lbx.len() - i,
    {
        let mut b = lbx.remove(i);
        b.focused = i == id;
        lbx.insert(i, b);
        i = i + 1;
    }
}

} // verus!
