//! The per-connection session: its lifecycle state machine, the retained
//! frame that each render cycle diffs against, and the routing of stream
//! events to focus navigation, keypresses and re-renders. The surrounding
//! event loop performs the socket reads and writes and feeds the outcomes
//! in as events.

use vstd::prelude::*;

use crate::buffer::ScreenBuffer;
use crate::format::{Color, Format};
use crate::screen::{frame_rendered, Screen, TAB};
use crate::widget::Widget;

verus! {

/// The lifecycle of one connection's session.
#[derive(Clone, Copy, PartialEq, Eq, Structural, Debug)]
pub enum SessionState {
    /// The terminal has been reset but no frame has been painted yet.
    Initializing,
    /// The session is processing one input byte at a time.
    Active,
    /// The stream ended or failed; the session is over for good.
    Terminated,
}

/// One outcome of waiting on the session's input stream.
#[derive(Clone, Copy, PartialEq, Eq, Structural, Debug)]
pub enum SessionEvent {
    /// One raw byte arrived.
    ByteRead(u8),
    /// The stream closed cleanly (a read of zero bytes).
    EndOfStream,
    /// The read failed.
    ReadFailed,
    /// The session's registry entry is gone: its state was invalidated
    /// externally, so the session ends silently.
    SessionMissing,
}

/// What the event loop must do after one event was handled.
pub enum SessionStep {
    /// Write these bytes to the terminal, best effort, and keep looping.
    Frame(Vec<u8>),
    /// Leave the loop; the session has terminated.
    Stop,
}

/// The style the very first retained frame is filled with.
pub open spec fn initial_fill() -> Format {
    Format { fg: Color::Default, bg: Color::Default, bold: false, underline: false }
}

/// The byte sequence that resets the remote terminal at session start:
/// full reset, background reset, home cursor, clear screen, clear
/// scrollback.
pub open spec fn reset_bytes() -> Seq<u8> {
    seq![
        27u8, 99u8,
        27u8, 91u8, 52u8, 57u8, 109u8,
        27u8, 91u8, 72u8,
        27u8, 91u8, 50u8, 74u8,
        27u8, 91u8, 51u8, 74u8,
    ]
}

/// One connection's session: its lifecycle state, the frame currently
/// shown on the remote terminal (retained to diff the next frame
/// against), and whether its registry entries were already released.
pub struct Session {
    pub state: SessionState,
    pub buffer: ScreenBuffer,
    pub deregistered: bool,
}

impl Session {
    /// Well-formedness: the retained frame is a whole-rowed grid.
    pub open spec fn wf(self) -> bool {
        self.buffer.wf()
    }

    /// Opens a session for a `width` x `height` screen: returns the
    /// session, holding a blank retained frame, together with the reset
    /// bytes the event loop must write to the terminal first.
    pub fn start(width: usize, height: usize) -> (r: (Session, Vec<u8>))
        requires
            width > 0,
            width as int * height as int <= usize::MAX as int,
        ensures
            r.0.wf(),
            r.0.state == SessionState::Initializing,
            !r.0.deregistered,
            r.0.buffer.width == width,
            r.0.buffer.chars@.len() == width as int * height as int,
            forall|i: int| 0 <= i < r.0.buffer.chars@.len() ==> r.0.buffer.chars@[i] == 32u8,
            forall|i: int| 0 <= i < r.0.buffer.formats@.len() ==> r.0.buffer.formats@[i] == initial_fill(),
            r.1@ == reset_bytes(),
    {
        let fill = Format { fg: Color::Default, bg: Color::Default, bold: false, underline: false };
        let buffer = ScreenBuffer::blank(width, height, fill);
        let mut reset: Vec<u8> = Vec::new();
        reset.push(27);
        reset.push(99);
        reset.push(27);
        reset.push(91);
        reset.push(52);
        reset.push(57);
        reset.push(109);
        reset.push(27);
        reset.push(91);
        reset.push(72);
        reset.push(27);
        reset.push(91);
        reset.push(50);
        reset.push(74);
        reset.push(27);
        reset.push(91);
        reset.push(51);
        reset.push(74);
        assert(reset@ =~= reset_bytes());
        let session = Session {
            state: SessionState::Initializing,
            buffer,
            deregistered: false,
        };
        (session, reset)
    }

    /// One render cycle: paints `screen`, diffs against the retained
    /// frame, retains the painted frame, and returns the bytes to write.
    /// The event loop treats a failed write as best effort: the frame
    /// stays retained as if it had been displayed.
    pub fn render<W: Widget>(&mut self, screen: &Screen<W>) -> (frame: Vec<u8>)
        requires
            old(self).wf(),
            screen.wf(),
        ensures
            final(self).wf(),
            final(self).state == old(self).state,
            final(self).deregistered == old(self).deregistered,
            final(self).buffer.width == old(self).buffer.width,
            final(self).buffer.chars@.len() == old(self).buffer.chars@.len(),
            frame_rendered(*screen, old(self).buffer, final(self).buffer, frame@),
    {
        let (new_buf, msg) = screen.draw(&self.buffer);
        self.buffer = new_buf;
        msg
    }

    /// The first frame: renders against the blank retained frame and
    /// moves the session from `Initializing` to `Active`.
    pub fn first_frame<W: Widget>(&mut self, screen: &Screen<W>) -> (frame: Vec<u8>)
        requires
            old(self).wf(),
            old(self).state == SessionState::Initializing,
            screen.wf(),
        ensures
            final(self).wf(),
            final(self).state == SessionState::Active,
            final(self).deregistered == old(self).deregistered,
            frame_rendered(*screen, old(self).buffer, final(self).buffer, frame@),
    {
        self.state = SessionState::Active;
        self.render(screen)
    }

    /// Handles one stream event against the session's current screen.
    /// A byte is routed per the focus rules, then a new frame is rendered
    /// and returned for writing; end of stream, a read failure or a
    /// missing registry entry terminates this session — and only this
    /// session: nothing here touches any other session's state.
    pub fn handle_event<W: Widget>(&mut self, screen: &mut Screen<W>, ev: SessionEvent) -> (step: SessionStep)
        requires
            old(self).wf(),
            old(self).state == SessionState::Active,
            old(screen).wf(),
        ensures
            final(self).wf(),
            final(self).deregistered == old(self).deregistered,
            final(screen).wf(),
            match ev {
                SessionEvent::ByteRead(ch) => {
                    &&& final(self).state == SessionState::Active
                    &&& (ch == TAB ==> Screen::focus_rotated(*old(screen), *final(screen)))
                    &&& (ch != TAB ==> Screen::key_forwarded(*old(screen), *final(screen), ch))
                    &&& (step matches SessionStep::Frame(frame)
                        && frame_rendered(*final(screen), old(self).buffer, final(self).buffer, frame@))
                },
                _ => {
                    &&& final(self).state == SessionState::Terminated
                    &&& (step matches SessionStep::Stop)
                    &&& final(self).buffer == old(self).buffer
                    &&& *final(screen) == *old(screen)
                },
            },
    {
        match ev {
            SessionEvent::ByteRead(ch) => {
                screen.handle_key(ch);
                let frame = self.render(screen);
                SessionStep::Frame(frame)
            },
            SessionEvent::EndOfStream => {
                self.state = SessionState::Terminated;
                SessionStep::Stop
            },
            SessionEvent::ReadFailed => {
                self.state = SessionState::Terminated;
                SessionStep::Stop
            },
            SessionEvent::SessionMissing => {
                self.state = SessionState::Terminated;
                SessionStep::Stop
            },
        }
    }

    /// Claims the right to release this session's registry entries.
    /// Returns true exactly once, however many termination paths race to
    /// call it, so the entries are removed exactly once.
    pub fn take_deregistration(&mut self) -> (r: bool)
        requires
            old(self).state == SessionState::Terminated,
        ensures
            r == !old(self).deregistered,
            final(self).deregistered,
            final(self).state == old(self).state,
            final(self).buffer == old(self).buffer,
    {
        if self.deregistered {
            false
        } else {
            self.deregistered = true;
            true
        }
    }
}

} // verus!
