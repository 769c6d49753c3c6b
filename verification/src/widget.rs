//! The capability contract every widget implements: paint itself into a
//! frame, say whether it accepts keyboard focus, and consume raw
//! keypresses. Each implementation supplies a specification-level model
//! of its own behaviour alongside the executable methods.

use vstd::prelude::*;

use crate::buffer::ScreenBuffer;

verus! {

pub trait Widget: Sized {
    /// Model of [`Widget::focusable`]. Defaults to "never focusable",
    /// matching the default `focusable` body.
    open spec fn spec_focusable(&self) -> bool {
        false
    }

    /// Model of [`Widget::draw`]: relates the frame before the call, the
    /// frame after it, and the returned cursor position. The default
    /// claims nothing beyond the shape preservation every draw promises.
    open spec fn draw_ens(&self, prior: ScreenBuffer, painted: ScreenBuffer, pos: (usize, usize)) -> bool {
        true
    }

    /// Model of [`Widget::keypress`]: relates the widget's state before
    /// and after consuming one byte. The default claims nothing.
    open spec fn keypress_ens(&self, after: Self, ch: u8) -> bool {
        true
    }

    /// Paints the widget into `buf`, clipping at the buffer's bounds, and
    /// returns the cell where the terminal cursor belongs while this
    /// widget holds focus.
    fn draw(&self, buf: &mut ScreenBuffer) -> (pos: (usize, usize))
        requires
            old(buf).wf(),
        ensures
            final(buf).wf(),
            final(buf).width == old(buf).width,
            final(buf).chars@.len() == old(buf).chars@.len(),
            self.draw_ens(*old(buf), *final(buf), pos),
    ;

    /// Whether the widget accepts keyboard focus right now. The answer
    /// may change over the widget's lifetime; focus navigation samples it
    /// at navigation time only.
    fn focusable(&self) -> (r: bool)
        ensures
            r == self.spec_focusable(),
    ;

    /// Feeds one raw input byte to the widget.
    fn keypress(&mut self, ch: u8)
        ensures
            old(self).keypress_ens(*final(self), ch),
    ;
}

} // verus!
