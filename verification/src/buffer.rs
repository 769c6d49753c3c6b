//! The flat grid of rendered cells, and the diff between two consecutive
//! frames: the minimal escape-sequence patch that turns the previously
//! displayed frame into the newly painted one.

use vstd::prelude::*;
use vstd::arithmetic::div_mod::lemma_fundamental_div_mod;
use vstd::arithmetic::mul::lemma_mul_inequality;

use crate::format::{dec_of, sgr_of, Format};

verus! {

/// One rendered frame: a row-major grid of `(character, format)` cells.
/// The cell at `(x, y)` lives at linear index `y * width + x`.
#[derive(Clone)]
pub struct ScreenBuffer {
    pub chars: Vec<u8>,
    pub formats: Vec<Format>,
    pub width: usize,
}

impl ScreenBuffer {
    /// Well-formedness: one format per character, a positive width, and a
    /// whole number of rows.
    pub open spec fn wf(self) -> bool {
        &&& self.chars@.len() == self.formats@.len()
        &&& self.width > 0
        &&& self.chars@.len() as int % self.width as int == 0
    }

    /// The number of rows.
    pub open spec fn spec_height(self) -> int {
        self.chars@.len() as int / self.width as int
    }

    /// A `width` x `height` buffer of space characters, all styled `fill`.
    pub fn blank(width: usize, height: usize, fill: Format) -> (r: ScreenBuffer)
        requires
            width > 0,
            width as int * height as int <= usize::MAX as int,
        ensures
            r.wf(),
            r.width == width,
            r.chars@.len() == width as int * height as int,
            forall|i: int| 0 <= i < r.chars@.len() ==> r.chars@[i] == 32u8,
            forall|i: int| 0 <= i < r.formats@.len() ==> r.formats@[i] == fill,
    {
        let n = width * height;
        let mut chars: Vec<u8> = Vec::new();
        let mut formats: Vec<Format> = Vec::new();
        let mut i: usize = 0;
        while i < n
            invariant
                i <= n,
                chars@.len() == i,
                formats@.len() == i,
                forall|j: int| 0 <= j < i ==> chars@[j] == 32u8,
                forall|j: int| 0 <= j < i ==> formats@[j] == fill,
            decreases n - i,
        {
            chars.push(32);
            formats.push(fill);
            i = i + 1;
        }
        proof {
            lemma_mod_of_mul(width as int, height as int);
        }
        ScreenBuffer { chars, formats, width }
    }

    /// Whether `(x, y)` is a cell of this buffer.
    pub open spec fn in_bounds(self, x: int, y: int) -> bool {
        0 <= x < self.width && 0 <= y < self.spec_height()
    }

    /// Writes one cell, silently clipping any write outside the grid:
    /// a write past the row end is dropped, never wrapped to the next row.
    pub fn put(&mut self, x: usize, y: usize, ch: u8, f: Format)
        requires
            old(self).wf(),
        ensures
            final(self).wf(),
            final(self).width == old(self).width,
            final(self).chars@.len() == old(self).chars@.len(),
            old(self).in_bounds(x as int, y as int) ==> {
                &&& final(self).chars@ == old(self).chars@.update(
                    y as int * old(self).width as int + x as int, ch)
                &&& final(self).formats@ == old(self).formats@.update(
                    y as int * old(self).width as int + x as int, f)
            },
            !old(self).in_bounds(x as int, y as int) ==> *final(self) == *old(self),
    {
        if x >= self.width {
            return;
        }
        let height = self.chars.len() / self.width;
        if y >= height {
            return;
        }
        proof {
            lemma_row_start_in_range(
                self.chars@.len() as int, self.width as int, x as int, y as int);
        }
        let idx = y * self.width + x;
        self.chars[idx] = ch;
        self.formats[idx] = f;
    }
}

/// `w * h` is divisible by `w`.
proof fn lemma_mod_of_mul(w: int, h: int)
    requires
        w > 0,
        h >= 0,
    ensures
        (w * h) % w == 0,
        (w * h) / w == h,
{
    vstd::arithmetic::div_mod::lemma_div_multiples_vanish(h, w);
    vstd::arithmetic::div_mod::lemma_mod_multiples_basic(h, w);
    assert(w * h == h * w) by (nonlinear_arith);
}

/// Inside a whole-rowed buffer of `len` cells, the cell `(x, y)` sits at
/// index `y * w + x`, which is a valid index.
pub(crate) proof fn lemma_row_start_in_range(len: int, w: int, x: int, y: int)
    requires
        w > 0,
        len >= 0,
        len % w == 0,
        0 <= x < w,
        0 <= y < len / w,
    ensures
        0 <= y * w + x < len,
{
    lemma_fundamental_div_mod(len, w);
    lemma_mul_inequality(y + 1, len / w, w);
    assert((y + 1) * w == y * w + w) by (nonlinear_arith);
    assert(y * w >= 0) by (nonlinear_arith)
        requires
            y >= 0,
            w > 0,
    ;
}

/// Whether cell `i` differs between the two frames, in character or format.
pub open spec fn cell_changed(old: ScreenBuffer, new: ScreenBuffer, i: int) -> bool {
    new.chars@[i] != old.chars@[i] || new.formats@[i] != old.formats@[i]
}

/// The `(index, character, format)` triples the diff emits for the first
/// `n` cells: exactly one triple per changed cell, in index order.
pub open spec fn patch_list(old: ScreenBuffer, new: ScreenBuffer, n: int) -> Seq<(int, u8, Format)>
    decreases n,
{
    if n <= 0 {
        Seq::empty()
    } else if cell_changed(old, new, n - 1) {
        patch_list(old, new, n - 1).push((n - 1, new.chars@[n - 1], new.formats@[n - 1]))
    } else {
        patch_list(old, new, n - 1)
    }
}

/// The cursor-position escape `ESC [ {y} ; {x} H`.
pub open spec fn cursor_to(y: nat, x: nat) -> Seq<u8> {
    seq![27u8, 91u8] + dec_of(y) + seq![59u8] + dec_of(x) + seq![72u8]
}

/// The bytes emitted for one patch triple in a buffer `w` cells wide:
/// position the cursor on the cell, select the format, write the character.
pub open spec fn patch_bytes(p: (int, u8, Format), w: int) -> Seq<u8> {
    cursor_to((p.0 / w) as nat, (p.0 % w) as nat) + sgr_of(p.2) + seq![p.1]
}

/// The concatenated bytes of a patch sequence.
pub open spec fn patches_bytes(ps: Seq<(int, u8, Format)>, w: int) -> Seq<u8>
    decreases ps.len(),
{
    if ps.len() == 0 {
        Seq::empty()
    } else {
        patches_bytes(ps.drop_last(), w) + patch_bytes(ps.last(), w)
    }
}

/// The full byte output of one diff: the patches for every changed cell,
/// in row-major order, then one trailing cursor placement.
pub open spec fn diff_bytes(old: ScreenBuffer, new: ScreenBuffer, cursor_y: nat, cursor_x: nat) -> Seq<u8> {
    patches_bytes(patch_list(old, new, new.chars@.len() as int), new.width as int)
        + cursor_to(cursor_y, cursor_x)
}

/// Appends `ESC [ {y} ; {x} H` to `out`.
pub fn push_cursor_to(out: &mut Vec<u8>, y: usize, x: usize)
    ensures
        final(out)@ == old(out)@ + cursor_to(y as nat, x as nat),
{
    out.push(27);
    out.push(91);
    crate::format::push_dec(out, y);
    out.push(59);
    crate::format::push_dec(out, x);
    out.push(72);
    assert(out@ =~= old(out)@ + cursor_to(y as nat, x as nat));
}

/// The escape sequence that repaints every cell on which `new` differs
/// from `old`, and nothing else, then places the cursor at
/// `(cursor_x, cursor_y)`.
pub fn diff(old: &ScreenBuffer, new: &ScreenBuffer, cursor_y: usize, cursor_x: usize) -> (r: Vec<u8>)
    requires
        old.wf(),
        new.wf(),
        new.width == old.width,
        new.chars@.len() == old.chars@.len(),
    ensures
        r@ == diff_bytes(*old, *new, cursor_y as nat, cursor_x as nat),
{
    let mut msg: Vec<u8> = Vec::new();
    let len = new.chars.len();
    let mut idx: usize = 0;
    while idx < len
        invariant
            idx <= len,
            len == new.chars@.len(),
            old.wf(),
            new.wf(),
            new.width == old.width,
            new.chars@.len() == old.chars@.len(),
            msg@ == patches_bytes(patch_list(*old, *new, idx as int), new.width as int),
        decreases len - idx,
    {
        if new.chars[idx] != old.chars[idx] || new.formats[idx] != old.formats[idx] {
            let y = idx / new.width;
            let x = idx % new.width;
            push_cursor_to(&mut msg, y, x);
            let f = new.formats[idx];
            f.write(&mut msg);
            msg.push(new.chars[idx]);
            proof {
                let ps = patch_list(*old, *new, idx as int);
                let p = (idx as int, new.chars@[idx as int], new.formats@[idx as int]);
                assert(patch_list(*old, *new, idx as int + 1) == ps.push(p));
                assert(ps.push(p).drop_last() =~= ps);
                assert(msg@ =~= patches_bytes(ps, new.width as int) + patch_bytes(p, new.width as int));
            }
        } else {
            proof {
                assert(patch_list(*old, *new, idx as int + 1)
                    == patch_list(*old, *new, idx as int));
            }
        }
        idx = idx + 1;
    }
    push_cursor_to(&mut msg, cursor_y, cursor_x);
    msg
}

/// The number of cells, among the first `n`, on which the frames differ.
pub open spec fn changed_count(old: ScreenBuffer, new: ScreenBuffer, n: int) -> int
    decreases n,
{
    if n <= 0 {
        0
    } else {
        changed_count(old, new, n - 1) + if cell_changed(old, new, n - 1) { 1int } else { 0int }
    }
}

/// A model terminal applying a patch sequence to a frame: each triple
/// overwrites the character and format of the cell at its index.
pub open spec fn apply_patches(chars: Seq<u8>, formats: Seq<Format>, ps: Seq<(int, u8, Format)>)
    -> (Seq<u8>, Seq<Format>)
    decreases ps.len(),
{
    if ps.len() == 0 {
        (chars, formats)
    } else {
        let prior = apply_patches(chars, formats, ps.drop_last());
        let p = ps.last();
        (prior.0.update(p.0, p.1), prior.1.update(p.0, p.2))
    }
}

proof fn lemma_patch_list_upto(old: ScreenBuffer, new: ScreenBuffer, n: int)
    requires
        old.chars@.len() == old.formats@.len(),
        new.chars@.len() == new.formats@.len(),
        new.chars@.len() == old.chars@.len(),
        0 <= n <= new.chars@.len(),
    ensures
        ({
            let ps = patch_list(old, new, n);
            let applied = apply_patches(old.chars@, old.formats@, ps);
            &&& ps.len() == changed_count(old, new, n)
            &&& forall|k: int| 0 <= k < ps.len() ==> {
                &&& 0 <= #[trigger] ps[k].0 < n
                &&& cell_changed(old, new, ps[k].0)
                &&& ps[k].1 == new.chars@[ps[k].0]
                &&& ps[k].2 == new.formats@[ps[k].0]
            }
            &&& forall|k1: int, k2: int| 0 <= k1 < k2 < ps.len() ==> #[trigger] ps[k1].0 < #[trigger] ps[k2].0
            &&& applied.0.len() == new.chars@.len()
            &&& applied.1.len() == new.formats@.len()
            &&& forall|i: int| 0 <= i < n ==> #[trigger] applied.0[i] == new.chars@[i]
            &&& forall|i: int| 0 <= i < n ==> #[trigger] applied.1[i] == new.formats@[i]
            &&& forall|i: int| n <= i < new.chars@.len() ==> #[trigger] applied.0[i] == old.chars@[i]
            &&& forall|i: int| n <= i < new.chars@.len() ==> #[trigger] applied.1[i] == old.formats@[i]
        }),
    decreases n,
{
    if n > 0 {
        lemma_patch_list_upto(old, new, n - 1);
        let prev = patch_list(old, new, n - 1);
        if cell_changed(old, new, n - 1) {
            let p = (n - 1, new.chars@[n - 1], new.formats@[n - 1]);
            assert(prev.push(p).drop_last() =~= prev);
        }
    }
}

/// Diff exactness: the diff's patch list holds exactly one triple per cell
/// on which the frames differ (in character or format), in strictly
/// increasing index order and none elsewhere, and a model terminal showing
/// `old` shows exactly `new` after applying the patches.
pub proof fn lemma_diff_exact(old: ScreenBuffer, new: ScreenBuffer)
    requires
        old.wf(),
        new.wf(),
        new.width == old.width,
        new.chars@.len() == old.chars@.len(),
    ensures
        ({
            let ps = patch_list(old, new, new.chars@.len() as int);
            let applied = apply_patches(old.chars@, old.formats@, ps);
            &&& ps.len() == changed_count(old, new, new.chars@.len() as int)
            &&& forall|k: int| 0 <= k < ps.len() ==> {
                &&& 0 <= #[trigger] ps[k].0 < new.chars@.len()
                &&& cell_changed(old, new, ps[k].0)
                &&& ps[k].1 == new.chars@[ps[k].0]
                &&& ps[k].2 == new.formats@[ps[k].0]
            }
            &&& forall|k1: int, k2: int| 0 <= k1 < k2 < ps.len() ==> #[trigger] ps[k1].0 < #[trigger] ps[k2].0
            &&& applied.0 =~= new.chars@
            &&& applied.1 =~= new.formats@
        }),
{
    lemma_patch_list_upto(old, new, new.chars@.len() as int);
}

} // verus!
