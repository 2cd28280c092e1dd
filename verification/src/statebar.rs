//! The state bar of the terminal front-end: a row of text widgets that
//! notice clicks.
use vstd::prelude::*;

use crate::text::{utf8_len, utf8_len_of};

verus! {

broadcast use vstd::string::group_string_axioms;

/// Whether the rectangle at (`x1`, `y1`) of size `w1` by `h1` overlaps the
/// one at (`x2`, `y2`) of size `w2` by `h2`.
pub open spec fn overlaps(
    x1: int,
    y1: int,
    w1: int,
    h1: int,
    x2: int,
    y2: int,
    w2: int,
    h2: int,
) -> bool {
    x1 < x2 + w2 && x2 < x1 + w1 && y1 < y2 + h2 && y2 < y1 + h1
}

/// Whether two axis-aligned rectangles overlap.
pub fn aabr(x1: u32, y1: u32, w1: u32, h1: u32, x2: u32, y2: u32, w2: u32, h2: u32) -> (r: bool)
    requires
        x1 + w1 <= u32::MAX,
        y1 + h1 <= u32::MAX,
        x2 + w2 <= u32::MAX,
        y2 + h2 <= u32::MAX,
    ensures
        r == overlaps(
            x1 as int,
            y1 as int,
            w1 as int,
            h1 as int,
            x2 as int,
            y2 as int,
            w2 as int,
            h2 as int,
        ),
{
    x1 < x2 + w2 && x2 < x1 + w1 && y1 < y2 + h2 && y2 < y1 + h1
}

/// Overlap does not depend on which rectangle comes first.
pub proof fn lemma_overlaps_symmetric(
    x1: int,
    y1: int,
    w1: int,
    h1: int,
    x2: int,
    y2: int,
    w2: int,
    h2: int,
)
    ensures
        overlaps(x1, y1, w1, h1, x2, y2, w2, h2) == overlaps(x2, y2, w2, h2, x1, y1, w1, h1),
{
}

/// A rectangle of positive size overlaps itself.
pub proof fn lemma_overlaps_itself(x: int, y: int, w: int, h: int)
    requires
        w > 0,
        h > 0,
    ensures
        overlaps(x, y, w, h, x, y, w, h),
{
}

/// A text widget of the state bar.
pub struct StateBarWidget {
    /// The text shown.
    pub text: String,
    clicked: bool,
    x: u32,
    y: u32,
}

impl StateBarWidget {
    /// Whether the last click hit the widget.
    pub closed spec fn is_clicked(&self) -> bool {
        self.clicked
    }

    /// The cell where the widget is.
    pub closed spec fn pos(&self) -> (u32, u32) {
        (self.x, self.y)
    }

    /// The text shown.
    pub closed spec fn shown(&self) -> Seq<char> {
        self.text@
    }

    /// A widget with no text, not clicked, at the first cell.
    pub fn new() -> (w: Self)
        ensures
            w.shown() == Seq::<char>::empty(),
            !w.is_clicked(),
            w.pos() == (0u32, 0u32),
    {
        StateBarWidget { text: String::new(), clicked: false, x: 0, y: 0 }
    }

    /// Records whether a click at (`x`, `y`) hits the widget: the click,
    /// taken as a rectangle as wide as the text's bytes and one row high,
    /// overlaps the widget's cell.
    pub fn update_click(&mut self, x: u32, y: u32)
        requires
            utf8_len(old(self).shown()) <= u32::MAX,
            x + utf8_len(old(self).shown()) <= u32::MAX,
            y + 1 <= u32::MAX,
            old(self).pos().0 + 1 <= u32::MAX,
            old(self).pos().1 + 1 <= u32::MAX,
        ensures
            final(self).shown() == old(self).shown(),
            final(self).pos() == old(self).pos(),
            final(self).is_clicked() == overlaps(
                x as int,
                y as int,
                utf8_len(old(self).shown()) as int,
                1,
                old(self).pos().0 as int,
                old(self).pos().1 as int,
                1,
                1,
            ),
    {
        let len = utf8_len_of(self.text.as_str());
        self.clicked = aabr(x, y, len as u32, 1, self.x, self.y, 1, 1);
    }

    /// Shows `item`.
    pub fn set_text(&mut self, item: &str)
        ensures
            final(self).shown() == item@,
            final(self).pos() == old(self).pos(),
            final(self).is_clicked() == old(self).is_clicked(),
    {
        self.text = item.to_string();
    }
}

/// The state bar: its widgets, whether it shows an error, its width in
/// cells and the row it is drawn on.
pub struct StateBar {
    /// The widgets, left to right.
    pub widgets: Vec<StateBarWidget>,
    error: bool,
    width: u32,
    /// The row of the bar.
    pub y: u32,
}

/// The bytes of the texts `texts` together.
pub open spec fn text_total(texts: Seq<Seq<char>>) -> int
    decreases texts.len(),
{
    if texts.len() == 0 {
        0
    } else {
        text_total(texts.drop_last()) + utf8_len(texts.last())
    }
}

/// The column where the widget `i` of the widgets with texts `texts`
/// begins: where the bytes of the texts before it end.
pub open spec fn widget_column(texts: Seq<Seq<char>>, i: int) -> int {
    text_total(texts.subrange(0, i))
}

/// The texts before a widget take no more bytes than all texts, and each
/// text takes no more than all of them.
pub proof fn lemma_text_total_prefix(texts: Seq<Seq<char>>, n: int)
    requires
        0 <= n <= texts.len(),
    ensures
        0 <= text_total(texts.subrange(0, n)) <= text_total(texts),
        n < texts.len() ==> text_total(texts.subrange(0, n)) + utf8_len(texts[n]) <= text_total(
            texts,
        ),
    decreases texts.len() - n,
{
    lemma_text_total_nonneg(texts.subrange(0, n));
    if n < texts.len() {
        lemma_text_total_prefix(texts, n + 1);
        assert(texts.subrange(0, n + 1).drop_last() =~= texts.subrange(0, n));
    } else {
        assert(texts.subrange(0, n) =~= texts);
        lemma_text_total_nonneg(texts);
    }
}

proof fn lemma_text_total_nonneg(texts: Seq<Seq<char>>)
    ensures
        text_total(texts) >= 0,
    decreases texts.len(),
{
    if texts.len() > 0 {
        lemma_text_total_nonneg(texts.drop_last());
    }
}

/// Each text takes no more bytes than all texts.
proof fn lemma_utf8_len_at_most(texts: Seq<Seq<char>>, n: int)
    requires
        0 <= n < texts.len(),
    ensures
        utf8_len(texts[n]) <= text_total(texts),
{
    lemma_text_total_prefix(texts, n);
}

/// The texts of some widgets.
pub open spec fn widget_texts(w: Seq<StateBarWidget>) -> Seq<Seq<char>> {
    w.map_values(|x: StateBarWidget| x.shown())
}

impl StateBar {
    /// The widgets, left to right.
    pub closed spec fn items(&self) -> Seq<StateBarWidget> {
        self.widgets@
    }

    /// The row of the bar.
    pub closed spec fn row(&self) -> u32 {
        self.y
    }

    /// Whether the bar shows an error.
    pub closed spec fn has_error(&self) -> bool {
        self.error
    }

    /// The width of the bar in cells.
    pub closed spec fn bar_width(&self) -> u32 {
        self.width
    }

    /// An empty bar as wide as the terminal's `cols` columns, on its last
    /// row `rows`.
    pub fn new(cols: u16, rows: u16) -> (b: Self)
        ensures
            b.items() == Seq::<StateBarWidget>::empty(),
            !b.has_error(),
            b.bar_width() == cols as u32,
            b.row() == rows as u32,
    {
        StateBar { widgets: Vec::new(), error: false, width: cols as u32, y: rows as u32 }
    }

    /// The columns where the widgets are drawn, left to right.
    pub fn widget_positions(&self) -> (r: Vec<i32>)
        requires
            text_total(widget_texts(self.items())) <= i32::MAX,
        ensures
            r@.len() == self.items().len(),
            forall|i: int|
                0 <= i < r@.len() ==> #[trigger] r@[i] == widget_column(
                    widget_texts(self.items()),
                    i,
                ),
    {
        let ghost texts = widget_texts(self.widgets@);
        let mut r: Vec<i32> = Vec::new();
        let mut xpos: i32 = 0;
        let mut i: usize = 0;
        assert(texts.subrange(0, 0) =~= Seq::<Seq<char>>::empty());
        while i < self.widgets.len()
            invariant
                i <= self.widgets.len(),
                texts == widget_texts(self.widgets@),
                text_total(texts) <= i32::MAX,
                xpos == text_total(texts.subrange(0, i as int)),
                r@.len() == i,
                forall|k: int| 0 <= k < i ==> #[trigger] r@[k] == widget_column(texts, k),
            decreases self.widgets.len() - i,
        {
            proof {
                lemma_text_total_prefix(texts, i as int);
                lemma_utf8_len_at_most(texts, i as int);
                assert(texts.subrange(0, i + 1).drop_last() =~= texts.subrange(0, i as int));
                assert(texts[i as int] == self.widgets@[i as int].text@);
            }
            r.push(xpos);
            let len = utf8_len_of(self.widgets[i].text.as_str());
            xpos = xpos + len as i32;
            i = i + 1;
        }
        r
    }

    /// Records for each widget whether a click at (`x`, `y`) hits it.
    pub fn update_click(&mut self, x: u32, y: u32)
        requires
            y + 1 <= u32::MAX,
            forall|i: int|
                0 <= i < old(self).items().len() ==> {
                    let w = #[trigger] old(self).items()[i];
                    &&& x + utf8_len(w.shown()) <= u32::MAX
                    &&& w.pos().0 + 1 <= u32::MAX
                    &&& w.pos().1 + 1 <= u32::MAX
                },
        ensures
            final(self).items().len() == old(self).items().len(),
            forall|i: int|
                0 <= i < old(self).items().len() ==> {
                    let w = #[trigger] old(self).items()[i];
                    let v = final(self).items()[i];
                    &&& v.shown() == w.shown()
                    &&& v.pos() == w.pos()
                    &&& v.is_clicked() == overlaps(
                        x as int,
                        y as int,
                        utf8_len(w.shown()) as int,
                        1,
                        w.pos().0 as int,
                        w.pos().1 as int,
                        1,
                        1,
                    )
                },
            final(self).has_error() == old(self).has_error(),
            final(self).bar_width() == old(self).bar_width(),
            final(self).row() == old(self).row(),
    {
        let mut i: usize = 0;
        while i < self.widgets.len()
            invariant
                i <= self.widgets.len(),
                self.widgets@.len() == old(self).widgets@.len(),
                self.error == old(self).error,
                self.width == old(self).width,
                self.y == old(self).y,
                y + 1 <= u32::MAX,
                forall|k: int|
                    i <= k < self.items().len() ==> #[trigger] self.items()[k] == old(
                        self,
                    ).items()[k],
                forall|k: int|
                    0 <= k < old(self).items().len() ==> {
                        let w = #[trigger] old(self).items()[k];
                        &&& x + utf8_len(w.shown()) <= u32::MAX
                        &&& w.pos().0 + 1 <= u32::MAX
                        &&& w.pos().1 + 1 <= u32::MAX
                    },
                forall|k: int|
                    0 <= k < i ==> {
                        let w = #[trigger] old(self).items()[k];
                        let v = self.items()[k];
                        &&& v.shown() == w.shown()
                        &&& v.pos() == w.pos()
                        &&& v.is_clicked() == overlaps(
                            x as int,
                            y as int,
                            utf8_len(w.shown()) as int,
                            1,
                            w.pos().0 as int,
                            w.pos().1 as int,
                            1,
                            1,
                        )
                    },
            decreases self.widgets.len() - i,
        {
            let ghost before = self.widgets@;
            proof {
                assert(self.items()[i as int] == old(self).items()[i as int]);
                assert forall|k: int| i < k < before.len() implies before[k] == old(self).items()[k] by {
                    assert(self.items()[k] == old(self).items()[k]);
                }
                assert forall|k: int| 0 <= k < i implies before[k] == self.items()[k] by {}
            }
            let mut w = self.widgets.remove(i);
            assert(w == old(self).items()[i as int]);
            w.update_click(x, y);
            self.widgets.insert(i, w);
            proof {
                assert forall|k: int| 0 <= k < before.len() && k != i implies #[trigger] self.items()[k] == before[k] by {
                    assert(self.widgets@[k] == before[k]);
                }
            }
            i = i + 1;
        }
    }

    /// Follows a resize of the terminal to `w` columns and `h` rows.
    pub fn resize(&mut self, w: u16, h: u16)
        ensures
            final(self).items() == old(self).items(),
            final(self).has_error() == old(self).has_error(),
            final(self).bar_width() == w as u32,
            final(self).row() == h as u32,
    {
        self.width = w as u32;
        self.y = h as u32;
    }
}

} // verus!
