use std::cell::RefCell;
use std::rc::Rc;

use nui::{Color, Entry, Format, Screen, ScreenBuffer, Session, SessionEvent, SessionState, SessionStep, Widget};

fn plain() -> Format {
    Format { fg: Color::White, bg: Color::Black, bold: false, underline: false }
}

fn entry_screen(text: &[u8]) -> Screen<Entry> {
    Screen {
        widgets: vec![Entry { x: 0, y: 0, format: plain(), text: text.to_vec(), max: 4 }],
        active: Some(0),
        width: 4,
        height: 1,
    }
}

#[test]
fn session_start_emits_reset_sequence() {
    let (session, reset) = Session::start(4, 2);
    assert_eq!(reset, b"\x1bc\x1b[49m\x1b[H\x1b[2J\x1b[3J".to_vec());
    assert!(matches!(session.state, SessionState::Initializing));
    assert!(!session.deregistered);
    assert_eq!(session.buffer.chars.len(), 8);
    assert_eq!(session.buffer.width, 4);
}

#[test]
fn first_frame_activates_and_paints() {
    let screen = entry_screen(b"ab");
    let (mut session, _reset) = Session::start(4, 1);
    let frame = session.first_frame(&screen);
    assert!(matches!(session.state, SessionState::Active));
    // The initial retained frame is styled with the terminal's default
    // colors, so even the blank cells repaint once in white-on-black.
    assert_eq!(session.buffer.chars, b"ab\x20\x20".to_vec());
    let mut expect: Vec<u8> = Vec::new();
    expect.extend_from_slice(b"\x1b[0;0H\x1b[22;24;37;40ma");
    expect.extend_from_slice(b"\x1b[0;1H\x1b[22;24;37;40mb");
    expect.extend_from_slice(b"\x1b[0;2H\x1b[22;24;37;40m\x20");
    expect.extend_from_slice(b"\x1b[0;3H\x1b[22;24;37;40m\x20");
    expect.extend_from_slice(b"\x1b[0;2H");
    assert_eq!(frame, expect);
}

#[test]
fn byte_event_feeds_widget_and_rerenders() {
    let mut screen = entry_screen(b"a");
    let (mut session, _reset) = Session::start(4, 1);
    let _ = session.first_frame(&screen);
    let step = session.handle_event(&mut screen, SessionEvent::ByteRead(b'b'));
    assert!(matches!(session.state, SessionState::Active));
    assert_eq!(screen.widgets[0].text, b"ab".to_vec());
    match step {
        SessionStep::Frame(frame) => {
            // Only the cell that gained 'b' changed; the cursor follows the
            // focused entry's end of text.
            let mut expect: Vec<u8> = Vec::new();
            expect.extend_from_slice(b"\x1b[0;1H\x1b[22;24;37;40mb");
            expect.extend_from_slice(b"\x1b[0;2H");
            assert_eq!(frame, expect);
        },
        SessionStep::Stop => panic!("a byte must produce a frame"),
    }
}

#[test]
fn end_of_stream_terminates() {
    let mut screen = entry_screen(b"");
    let (mut session, _reset) = Session::start(4, 1);
    let _ = session.first_frame(&screen);
    let step = session.handle_event(&mut screen, SessionEvent::EndOfStream);
    assert!(matches!(step, SessionStep::Stop));
    assert!(matches!(session.state, SessionState::Terminated));
}

#[test]
fn missing_session_terminates_silently() {
    let mut screen = entry_screen(b"");
    let (mut session, _reset) = Session::start(4, 1);
    let _ = session.first_frame(&screen);
    let step = session.handle_event(&mut screen, SessionEvent::SessionMissing);
    assert!(matches!(step, SessionStep::Stop));
    assert!(matches!(session.state, SessionState::Terminated));
}

#[test]
fn deregistration_happens_exactly_once() {
    let mut screen = entry_screen(b"");
    let (mut session, _reset) = Session::start(4, 1);
    let _ = session.first_frame(&screen);
    let _ = session.handle_event(&mut screen, SessionEvent::ReadFailed);
    assert!(session.take_deregistration());
    assert!(!session.take_deregistration());
    assert!(!session.take_deregistration());
}

#[test]
fn read_error_terminates_only_that_session() {
    let mut screen_a = entry_screen(b"");
    let mut screen_b = entry_screen(b"");
    let (mut session_a, _) = Session::start(4, 1);
    let (mut session_b, _) = Session::start(4, 1);
    let _ = session_a.first_frame(&screen_a);
    let _ = session_b.first_frame(&screen_b);

    let step_a = session_a.handle_event(&mut screen_a, SessionEvent::ReadFailed);
    assert!(matches!(step_a, SessionStep::Stop));
    assert!(matches!(session_a.state, SessionState::Terminated));

    // Session B saw nothing of A's failure and keeps processing bytes.
    assert!(matches!(session_b.state, SessionState::Active));
    let step_b = session_b.handle_event(&mut screen_b, SessionEvent::ByteRead(b'x'));
    assert!(matches!(step_b, SessionStep::Frame(_)));
    assert!(matches!(session_b.state, SessionState::Active));
    assert_eq!(screen_b.widgets[0].text, b"x".to_vec());
}

/// A widget instance shared by several screens, mutated through one
/// internally synchronized handle.
struct SharedEntry(Rc<RefCell<Entry>>);

impl Widget for SharedEntry {
    fn draw(&self, buf: &mut ScreenBuffer) -> (usize, usize) {
        self.0.borrow().draw(buf)
    }

    fn focusable(&self) -> bool {
        self.0.borrow().focusable()
    }

    fn keypress(&mut self, ch: u8) {
        self.0.borrow_mut().keypress(ch)
    }
}

#[test]
fn shared_widget_update_reaches_other_session() {
    let shared = Rc::new(RefCell::new(Entry {
        x: 0,
        y: 0,
        format: plain(),
        text: Vec::new(),
        max: 4,
    }));
    let mut screen_1: Screen<SharedEntry> = Screen {
        widgets: vec![SharedEntry(Rc::clone(&shared))],
        active: Some(0),
        width: 4,
        height: 1,
    };
    let screen_2: Screen<SharedEntry> = Screen {
        widgets: vec![SharedEntry(Rc::clone(&shared))],
        active: None,
        width: 4,
        height: 1,
    };
    let (mut session_1, _) = Session::start(4, 1);
    let (mut session_2, _) = Session::start(4, 1);
    let _ = session_1.first_frame(&screen_1);
    let _ = session_2.first_frame(&screen_2);

    // A keypress arrives through session 1 and lands in the shared widget.
    let _ = session_1.handle_event(&mut screen_1, SessionEvent::ByteRead(b'Q'));
    assert_eq!(shared.borrow().text, b"Q".to_vec());

    // A "redraw all" makes session 2 re-render without any input of its
    // own; its next frame shows the shared widget's new state.
    let frame_2 = session_2.render(&screen_2);
    let mut expect: Vec<u8> = Vec::new();
    expect.extend_from_slice(b"\x1b[0;0H\x1b[22;24;37;40mQ");
    expect.extend_from_slice(b"\x1b[0;0H");
    assert_eq!(frame_2, expect);
    assert_eq!(session_2.buffer.chars, b"Q\x20\x20\x20".to_vec());
}
