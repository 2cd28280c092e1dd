//! A character frame buffer for the terminal: a grid of cells, one
//! character each, stored row after row.
use vstd::prelude::*;

use crate::text::chars_of;

verus! {

broadcast use vstd::string::group_string_axioms;

/// A grid of `width` by `height` cells, stored row after row.
pub struct FrameBuffer {
    frame: Vec<char>,
    width: u16,
    height: u16,
}

impl View for FrameBuffer {
    /// The cells, the width and the height.
    type V = (Seq<char>, u16, u16);

    closed spec fn view(&self) -> (Seq<char>, u16, u16) {
        (self.frame@, self.width, self.height)
    }
}

/// The cells of `frame` with `text` written from index `at` on.
pub open spec fn painted(frame: Seq<char>, at: int, text: Seq<char>) -> Seq<char> {
    Seq::new(
        frame.len(),
        |k: int|
            if at <= k < at + text.len() {
                text[k - at]
            } else {
                frame[k]
            },
    )
}

/// Whether writing `len` characters at column `x` of row `y` stays inside
/// the cells of `frame` and inside the 16-bit arithmetic of the index.
pub open spec fn fits(frame: Seq<char>, width: u16, x: u16, y: u16, len: nat) -> bool {
    len > 0 ==> (y * width + x + len - 1 <= u16::MAX && y * width + x + len <= frame.len())
}

/// After writing `text` at column `x` of row `y`, the cell `i` places to the
/// right holds the `i`-th character of `text`, and the cells outside the
/// text are as they were.
pub proof fn lemma_get_after_set(
    frame: Seq<char>,
    width: u16,
    x: u16,
    y: u16,
    text: Seq<char>,
    i: int,
    k: int,
)
    requires
        fits(frame, width, x, y, text.len()),
        0 <= i < text.len(),
        0 <= k < frame.len(),
    ensures
        painted(frame, y * width + x, text)[y * width + x + i] == text[i],
        !(y * width + x <= k < y * width + x + text.len()) ==> painted(
            frame,
            y * width + x,
            text,
        )[k] == frame[k],
{
}

impl FrameBuffer {
    /// A grid of `width` by `height` blank cells.
    pub fn create(width: u16, height: u16) -> (fb: Self)
        requires
            width * height <= u16::MAX,
        ensures
            fb@.0 == Seq::new((width * height) as nat, |_i: int| ' '),
            fb@.1 == width,
            fb@.2 == height,
    {
        let cells: u16 = width * height;
        let mut frame: Vec<char> = Vec::with_capacity(cells as usize);
        let mut k: u16 = 0;
        while k < cells
            invariant
                k <= cells,
                frame@ == Seq::new(k as nat, |_i: int| ' '),
            decreases cells - k,
        {
            frame.push(' ');
            k = k + 1;
            assert(frame@ =~= Seq::new(k as nat, |_i: int| ' '));
        }
        FrameBuffer { frame, width, height }
    }

    /// Replaces the cells by `frame`.
    pub fn push_fb(&mut self, frame: Vec<char>)
        ensures
            final(self)@ == (frame@, old(self)@.1, old(self)@.2),
    {
        self.frame = frame;
    }

    /// The character at column `x` of row `y`.
    pub fn get(&mut self, x: u16, y: u16) -> (c: char)
        requires
            old(self)@.1 * y + x <= u16::MAX,
            old(self)@.1 * y + x < old(self)@.0.len(),
        ensures
            *final(self) == *old(self),
            c == old(self)@.0[y * old(self)@.1 + x],
    {
        proof {
            assert(y * self.width == self.width * y) by (nonlinear_arith);
        }
        self.frame[(y * self.width + x) as usize]
    }

    /// Writes `text` from column `x` of row `y` on.
    pub fn set(&mut self, text: &str, x: u16, y: u16)
        requires
            fits(old(self)@.0, old(self)@.1, x, y, text@.len()),
        ensures
            final(self)@ == (
                painted(old(self)@.0, y * old(self)@.1 + x, text@),
                old(self)@.1,
                old(self)@.2,
            ),
    {
        let t = chars_of(text);
        let ghost start = self.frame@;
        let ghost at: int = y * self.width + x;
        let mut i: usize = 0;
        while i < t.len()
            invariant
                i <= t.len(),
                t@ == text@,
                self.width == old(self).width,
                self.height == old(self).height,
                at == y * self.width + x,
                fits(start, self.width, x, y, t@.len()),
                self.frame@ == painted(start, at, t@.subrange(0, i as int)),
            decreases t.len() - i,
        {
            let idx: u16 = y * self.width + (x + i as u16);
            self.frame.set(idx as usize, t[i]);
            assert(self.frame@ =~= painted(start, at, t@.subrange(0, i + 1)));
            i = i + 1;
        }
        assert(t@.subrange(0, t.len() as int) =~= text@);
    }
}

} // verus!
