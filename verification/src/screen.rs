//! An ordered collection of widgets plus the input focus, orchestrating
//! a full paint pass and the byte-level focus/keyboard routing.

use vstd::prelude::*;

use crate::buffer::{diff, diff_bytes, ScreenBuffer};
use crate::format::{Color, Format};
use crate::widget::Widget;

verus! {

/// The byte reserved for focus navigation.
pub const TAB: u8 = 9;

/// The style a fresh frame is filled with before the widgets paint.
pub open spec fn fill_format() -> Format {
    Format { fg: Color::White, bg: Color::Black, bold: false, underline: false }
}

/// A frame of blank cells: `len` space characters styled `fill`.
pub open spec fn is_blank(b: ScreenBuffer, width: int, len: int, fill: Format) -> bool {
    &&& b.wf()
    &&& b.width == width
    &&& b.chars@.len() == len
    &&& forall|i: int| 0 <= i < len ==> #[trigger] b.chars@[i] == 32u8
    &&& forall|i: int| 0 <= i < len ==> #[trigger] b.formats@[i] == fill
}

/// An ordered collection of widgets (possibly shared with other screens),
/// the index holding input focus, and the frame dimensions.
pub struct Screen<W> {
    pub widgets: Vec<W>,
    pub active: Option<usize>,
    pub width: usize,
    pub height: usize,
}

/// The index the focus rotation visits `k + 1` steps after `start`:
/// one full pass wraps around the widget list exactly once.
pub open spec fn rotation_candidate(n: int, start: int, k: int) -> int {
    if start + 1 + k < n {
        start + 1 + k
    } else {
        start + 1 + k - n
    }
}

impl<W: Widget> Screen<W> {
    /// Well-formedness: positive dimensions that fit one allocation, and
    /// a focus index, when present, that points into the widget list.
    pub open spec fn wf(self) -> bool {
        &&& self.width > 0
        &&& self.width as int * self.height as int <= usize::MAX as int
        &&& match self.active {
            Some(i) => i < self.widgets@.len(),
            None => true,
        }
    }

    /// One full paint pass: `steps[0]` is a blank frame the shape of the
    /// prior one, `steps[k + 1]` the frame after widget `k` drew onto
    /// `steps[k]`, and `curs[k]` the cursor position widget `k` returned.
    pub open spec fn paint_steps(self, prior: ScreenBuffer, steps: Seq<ScreenBuffer>, curs: Seq<(usize, usize)>) -> bool {
        let n = self.widgets@.len() as int;
        &&& steps.len() == n + 1
        &&& curs.len() == n
        &&& is_blank(steps[0], prior.width as int, prior.chars@.len() as int, fill_format())
        &&& forall|k: int| 0 <= k < n ==> self.widgets@[k].draw_ens(steps[k], #[trigger] steps[k + 1], curs[k])
    }


    /// The focus rotation's starting point: the focused index, or the
    /// list's end when nothing is focused (so scanning begins at index 0).
    pub open spec fn focus_start(before: Screen<W>) -> int {
        match before.active {
            Some(i) => i as int,
            None => before.widgets@.len() - 1,
        }
    }

    /// `k` is the offset, in rotation order after `start`, of the first
    /// widget that accepts focus: the widget visited at step `k` is
    /// focusable and none visited earlier is.
    pub open spec fn focus_target(ws: Seq<W>, start: int, k: int) -> bool {
        &&& 0 <= k < ws.len()
        &&& ws[rotation_candidate(ws.len() as int, start, k)].spec_focusable()
        &&& forall|j: int| 0 <= j < k
            ==> !(#[trigger] ws[rotation_candidate(ws.len() as int, start, j)]).spec_focusable()
    }

    /// One focus-navigation step (the tab byte): starting after the
    /// focused index (or at the list's start when nothing is focused),
    /// focus moves to the first widget in rotation order that accepts it;
    /// when no widget does, focus is unchanged — in particular, a screen
    /// with no focusable widget never gains a focus.
    pub open spec fn focus_rotated(before: Screen<W>, after: Screen<W>) -> bool {
        let n = before.widgets@.len() as int;
        let start = Self::focus_start(before);
        &&& after.widgets == before.widgets
        &&& after.width == before.width
        &&& after.height == before.height
        &&& if exists|k: int| #[trigger] Self::focus_target(before.widgets@, start, k) {
            exists|k: int| #[trigger] Self::focus_target(before.widgets@, start, k)
                && after.active == Some(rotation_candidate(n, start, k) as usize)
        } else {
            after.active == before.active
        }
    }

    /// Routing of a non-tab byte: with a focused widget the byte goes to
    /// that widget alone and every other widget is untouched; with no
    /// focus the byte is dropped and the screen is unchanged.
    pub open spec fn key_forwarded(before: Screen<W>, after: Screen<W>, ch: u8) -> bool {
        &&& after.active == before.active
        &&& after.width == before.width
        &&& after.height == before.height
        &&& match before.active {
            None => after.widgets == before.widgets,
            Some(a) => {
                &&& after.widgets@.len() == before.widgets@.len()
                &&& after.widgets@ == before.widgets@.update(a as int, after.widgets@[a as int])
                &&& before.widgets@[a as int].keypress_ens(after.widgets@[a as int], ch)
            },
        }
    }

    /// Paints a fresh frame the shape of `prior`: blank cells first, then
    /// every widget in order, later widgets overwriting earlier ones.
    /// Returns the new frame and the cursor position reported by the
    /// focused widget — `(0, 0)` when no widget is focused.
    pub fn paint(&self, prior: &ScreenBuffer) -> (r: (ScreenBuffer, (usize, usize)))
        requires
            self.wf(),
            prior.wf(),
        ensures
            r.0.wf(),
            r.0.width == prior.width,
            r.0.chars@.len() == prior.chars@.len(),
            exists|steps: Seq<ScreenBuffer>, curs: Seq<(usize, usize)>| {
                &&& #[trigger] self.paint_steps(*prior, steps, curs)
                &&& r.0 == steps.last()
                &&& r.1 == match self.active {
                    Some(a) => curs[a as int],
                    None => (0usize, 0usize),
                }
            },
    {
        proof {
            vstd::arithmetic::div_mod::lemma_fundamental_div_mod(
                prior.chars@.len() as int, prior.width as int);
        }
        let height = prior.chars.len() / prior.width;
        let fill = Format { fg: Color::White, bg: Color::Black, bold: false, underline: false };
        let mut buf = ScreenBuffer::blank(prior.width, height, fill);
        let mut cursor: (usize, usize) = (0, 0);
        let ghost mut steps: Seq<ScreenBuffer> = seq![buf];
        let ghost mut curs: Seq<(usize, usize)> = Seq::empty();
        let n = self.widgets.len();
        let mut i: usize = 0;
        while i < n
            invariant
                i <= n,
                n == self.widgets@.len(),
                self.wf(),
                prior.wf(),
                buf.wf(),
                buf.width == prior.width,
                buf.chars@.len() == prior.chars@.len(),
                steps.len() == i + 1,
                curs.len() == i,
                is_blank(steps[0], prior.width as int, prior.chars@.len() as int, fill_format()),
                forall|k: int| 0 <= k < i ==> self.widgets@[k].draw_ens(steps[k], #[trigger] steps[k + 1], curs[k]),
                buf == steps.last(),
                cursor == match self.active {
                    Some(a) => if a < i { curs[a as int] } else { (0usize, 0usize) },
                    None => (0usize, 0usize),
                },
            decreases n - i,
        {
            let pos = self.widgets[i].draw(&mut buf);
            proof {
                steps = steps.push(buf);
                curs = curs.push(pos);
            }
            let is_active = match self.active {
                Some(a) => a == i,
                None => false,
            };
            if is_active {
                cursor = pos;
            }
            i = i + 1;
        }
        proof {
            assert(self.paint_steps(*prior, steps, curs));
        }
        (buf, cursor)
    }

    /// Focus navigation: scan the widgets after `start` in rotation order,
    /// one full pass at most, and focus the first that accepts it.
    fn rotate_focus(&mut self)
        requires
            old(self).wf(),
        ensures
            final(self).wf(),
            Screen::focus_rotated(*old(self), *final(self)),
    {
        let n = self.widgets.len();
        if n == 0 {
            return;
        }
        let start = match self.active {
            Some(i) => i,
            None => n - 1,
        };
        let ghost gstart = start as int;
        let mut cand = start;
        let mut k: usize = 0;
        while k < n
            invariant
                n == self.widgets@.len(),
                n > 0,
                *self == *old(self),
                self.wf(),
                k <= n,
                0 <= gstart < n,
                gstart == match old(self).active {
                    Some(i) => i as int,
                    None => n as int - 1,
                },
                cand < n,
                cand as int == if k == 0 { gstart } else { rotation_candidate(n as int, gstart, k - 1) },
                forall|j: int| 0 <= j < k
                    ==> !(#[trigger] self.widgets@[rotation_candidate(n as int, gstart, j)]).spec_focusable(),
            decreases n - k,
        {
            cand = if cand + 1 == n {
                0
            } else {
                cand + 1
            };
            assert(cand as int == rotation_candidate(n as int, gstart, k as int));
            if self.widgets[cand].focusable() {
                self.active = Some(cand);
                proof {
                    let before = *old(self);
                    let ws = before.widgets@;
                    let n_ = ws.len() as int;
                    let start_ = Self::focus_start(before);
                    assert(self.widgets@ == ws);
                    assert(n_ == n as int);
                    assert(start_ == gstart);
                    assert(forall|j: int| 0 <= j < k
                        ==> !(#[trigger] ws[rotation_candidate(n_, start_, j)]).spec_focusable());
                    assert(Self::focus_target(ws, start_, k as int));
                    assert(self.active == Some(rotation_candidate(n_, start_, k as int) as usize));
                    assert(Self::focus_rotated(before, *self));
                }
                return;
            }
            k = k + 1;
        }
        proof {
            let before = *old(self);
            let ws = before.widgets@;
            let n_ = ws.len() as int;
            let start_ = Self::focus_start(before);
            assert(self.widgets@ == ws);
            assert(n_ == n as int);
            assert(start_ == gstart);
            assert(forall|k2: int| !(#[trigger] Self::focus_target(ws, start_, k2))) by {
                assert(forall|j: int| 0 <= j < n_
                    ==> !(#[trigger] ws[rotation_candidate(n_, start_, j)]).spec_focusable());
            }
            assert(Self::focus_rotated(before, *self));
        }
    }

    /// Routes one raw input byte: the tab byte rotates focus per
    /// [`Screen::focus_rotated`]; any other byte goes to the focused
    /// widget per [`Screen::key_forwarded`].
    pub fn handle_key(&mut self, ch: u8)
        requires
            old(self).wf(),
        ensures
            final(self).wf(),
            ch == TAB ==> Screen::focus_rotated(*old(self), *final(self)),
            ch != TAB ==> Screen::key_forwarded(*old(self), *final(self), ch),
    {
        if ch == TAB {
            self.rotate_focus();
        } else {
            match self.active {
                Some(a) => {
                    self.widgets[a].keypress(ch);
                },
                None => {},
            }
        }
    }

    /// One full render cycle against the previously displayed frame:
    /// paint a fresh frame, diff it against `prior`, and return the new
    /// frame together with the escape bytes that update the terminal.
    pub fn draw(&self, prior: &ScreenBuffer) -> (r: (ScreenBuffer, Vec<u8>))
        requires
            self.wf(),
            prior.wf(),
        ensures
            r.0.wf(),
            r.0.width == prior.width,
            r.0.chars@.len() == prior.chars@.len(),
            frame_rendered(*self, *prior, r.0, r.1@),
    {
        let (new_buf, pos) = self.paint(prior);
        let msg = diff(prior, &new_buf, pos.1, pos.0);
        (new_buf, msg)
    }
}

/// Focus safety under rotation: a screen none of whose widgets accepts
/// focus never gains one — every tab press leaves `active` exactly as it
/// was, so a screen that starts with no focus keeps none, however many
/// tab presses arrive.
pub proof fn lemma_no_focusable_keeps_active<W: Widget>(before: Screen<W>, after: Screen<W>)
    requires
        before.wf(),
        Screen::focus_rotated(before, after),
        forall|i: int| 0 <= i < before.widgets@.len()
            ==> !(#[trigger] before.widgets@[i]).spec_focusable(),
    ensures
        after.active == before.active,
{
    let ws = before.widgets@;
    let n = ws.len() as int;
    let start = Screen::<W>::focus_start(before);
    if exists|k: int| #[trigger] Screen::<W>::focus_target(ws, start, k) {
        let k0 = choose|k: int| #[trigger] Screen::<W>::focus_target(ws, start, k);
        assert(0 <= rotation_candidate(n, start, k0) < n);
        assert(!ws[rotation_candidate(n, start, k0)].spec_focusable());
    }
}

/// One frame was rendered against `prior`: some paint pass of `screen`
/// produced `painted`, and `bytes` is exactly the diff of `painted`
/// against `prior`, with the trailing cursor placed at the position the
/// focused widget reported — at `(0, 0)` when no widget is focused.
pub open spec fn frame_rendered<W: Widget>(screen: Screen<W>, prior: ScreenBuffer, painted: ScreenBuffer, bytes: Seq<u8>) -> bool {
    exists|steps: Seq<ScreenBuffer>, curs: Seq<(usize, usize)>| {
        &&& #[trigger] screen.paint_steps(prior, steps, curs)
        &&& painted == steps.last()
        &&& ({
            let pos = match screen.active {
                Some(a) => curs[a as int],
                None => (0usize, 0usize),
            };
            bytes == diff_bytes(prior, painted, pos.1 as nat, pos.0 as nat)
        })
    }
}

} // verus!
