//! The reference widget: a single-line text entry with a maximum length.

use vstd::prelude::*;
use vstd::math::max;

use crate::buffer::ScreenBuffer;
use crate::format::Format;
use crate::widget::Widget;

verus! {

/// A single-line text entry at `(x, y)`: it paints its text followed by
/// enough padding spaces to cover `max` cells, clipped at the frame's
/// bounds, and appends or removes bytes on keypresses.
pub struct Entry {
    pub x: usize,
    pub y: usize,
    pub format: Format,
    pub text: Vec<u8>,
    pub max: usize,
}

/// One cell write, clipped: outside the `w`-wide, whole-rowed grid the
/// frame is left untouched; a write past the row end never wraps.
pub open spec fn put_cell(chars: Seq<u8>, formats: Seq<Format>, w: int, x: int, y: int, ch: u8, f: Format)
    -> (Seq<u8>, Seq<Format>)
{
    if 0 <= x < w && 0 <= y < chars.len() as int / w {
        (chars.update(y * w + x, ch), formats.update(y * w + x, f))
    } else {
        (chars, formats)
    }
}

impl Entry {
    /// The number of cells the entry paints: its text, padded to `max`.
    pub open spec fn rendered_len(self) -> int {
        max(self.text@.len() as int, self.max as int)
    }

    /// The character painted at offset `i`: a text byte, or padding.
    pub open spec fn char_at(self, i: int) -> u8 {
        if i < self.text@.len() {
            self.text@[i]
        } else {
            32u8
        }
    }

    /// The frame after the entry has painted its first `k` cells into a
    /// `w`-wide frame, each write clipped at the frame's bounds.
    pub open spec fn painted_upto(self, chars: Seq<u8>, formats: Seq<Format>, w: int, k: int)
        -> (Seq<u8>, Seq<Format>)
        decreases k,
    {
        if k <= 0 {
            (chars, formats)
        } else {
            let prior = self.painted_upto(chars, formats, w, k - 1);
            put_cell(prior.0, prior.1, w, self.x as int + (k - 1), self.y as int, self.char_at(k - 1), self.format)
        }
    }

    /// Whether painting the entry's first `k` cells touches linear index
    /// `j`: `j` is on the entry's row, at an offset below `k`, and before
    /// the row end.
    pub open spec fn writes_cell(self, w: int, h: int, k: int, j: int) -> bool {
        let base = self.y as int * w + self.x as int;
        &&& 0 <= self.y < h
        &&& base <= j < base + k
        &&& j - base + self.x < w
    }
}

/// Cell-level reading of [`Entry::painted_upto`]: painting the first `k`
/// cells overwrites exactly the cells [`Entry::writes_cell`] names — the
/// entry's row, clipped at the row end — with the entry's characters and
/// format, and leaves every other cell of the frame unchanged.
pub proof fn lemma_entry_cells(e: Entry, chars: Seq<u8>, formats: Seq<Format>, w: int, k: int)
    requires
        w > 0,
        chars.len() as int % w == 0,
        chars.len() == formats.len(),
        k >= 0,
    ensures
        ({
            let r = e.painted_upto(chars, formats, w, k);
            let h = chars.len() as int / w;
            let base = e.y as int * w + e.x as int;
            &&& r.0.len() == chars.len()
            &&& r.1.len() == formats.len()
            &&& forall|j: int| 0 <= j < chars.len() ==> #[trigger] r.0[j]
                == if e.writes_cell(w, h, k, j) { e.char_at(j - base) } else { chars[j] }
            &&& forall|j: int| 0 <= j < formats.len() ==> #[trigger] r.1[j]
                == if e.writes_cell(w, h, k, j) { e.format } else { formats[j] }
        }),
    decreases k,
{
    if k > 0 {
        lemma_entry_cells(e, chars, formats, w, k - 1);
        let h = chars.len() as int / w;
        let x = e.x as int + (k - 1);
        if 0 <= x < w && 0 <= e.y < h {
            crate::buffer::lemma_row_start_in_range(chars.len() as int, w, x, e.y as int);
        }
    }
}

impl Widget for Entry {
    /// A text entry always accepts focus.
    open spec fn spec_focusable(&self) -> bool {
        true
    }

    /// Painting covers the entry's `rendered_len` cells, clipped at the
    /// frame's bounds, and asks for the cursor one past the text's end.
    open spec fn draw_ens(&self, prior: ScreenBuffer, painted: ScreenBuffer, pos: (usize, usize)) -> bool {
        let r = self.painted_upto(prior.chars@, prior.formats@, prior.width as int, self.rendered_len());
        &&& painted.chars@ == r.0
        &&& painted.formats@ == r.1
        &&& pos.0 == if self.x + self.text@.len() <= usize::MAX {
            self.x + self.text@.len()
        } else {
            usize::MAX as int
        }
        &&& pos.1 == self.y
    }

    /// Backspace or DEL removes the last byte if any; any other byte is
    /// appended while the text is below `max`, else silently dropped.
    open spec fn keypress_ens(&self, after: Self, ch: u8) -> bool {
        &&& after.x == self.x
        &&& after.y == self.y
        &&& after.format == self.format
        &&& after.max == self.max
        &&& after.text@ == if ch == 8 || ch == 127 {
            if self.text@.len() > 0 {
                self.text@.drop_last()
            } else {
                self.text@
            }
        } else {
            if self.text@.len() < self.max {
                self.text@.push(ch)
            } else {
                self.text@
            }
        }
    }

    fn draw(&self, buf: &mut ScreenBuffer) -> (pos: (usize, usize)) {
        let ghost orig_chars = buf.chars@;
        let ghost orig_formats = buf.formats@;
        let w = buf.width;
        let n = if self.text.len() > self.max {
            self.text.len()
        } else {
            self.max
        };
        let mut i: usize = 0;
        while i < n
            invariant
                i <= n,
                n == self.rendered_len(),
                buf.wf(),
                buf.width == w,
                buf.chars@.len() == orig_chars.len(),
                orig_chars.len() == orig_formats.len(),
                buf.chars@ == self.painted_upto(orig_chars, orig_formats, w as int, i as int).0,
                buf.formats@ == self.painted_upto(orig_chars, orig_formats, w as int, i as int).1,
            decreases n - i,
        {
            let ch = if i < self.text.len() {
                self.text[i]
            } else {
                32
            };
            match self.x.checked_add(i) {
                Some(cx) => {
                    buf.put(cx, self.y, ch, self.format);
                },
                None => {
                    proof {
                        assert(self.x + i as int >= w);
                    }
                },
            }
            i = i + 1;
        }
        let pos_x = if self.text.len() <= usize::MAX - self.x {
            self.x + self.text.len()
        } else {
            usize::MAX
        };
        (pos_x, self.y)
    }

    fn focusable(&self) -> (r: bool) {
        true
    }

    fn keypress(&mut self, ch: u8) {
        if ch == 8 || ch == 127 {
            let _ = self.text.pop();
        } else {
            if self.text.len() < self.max {
                self.text.push(ch);
            }
        }
    }
}

} // verus!
