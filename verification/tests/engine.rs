use nui::{Color, Entry, Format, Screen, ScreenBuffer, Widget};

fn fmt(fg: Color, bg: Color, bold: bool, underline: bool) -> Format {
    Format { fg, bg, bold, underline }
}

fn plain() -> Format {
    fmt(Color::White, Color::Black, false, false)
}

fn blank(width: usize, height: usize, fill: Format) -> ScreenBuffer {
    ScreenBuffer::blank(width, height, fill)
}

#[test]
fn format_write_bright_underline() {
    let f = fmt(Color::BrightGreen, Color::Black, false, true);
    let mut out: Vec<u8> = Vec::new();
    f.write(&mut out);
    assert_eq!(out, b"\x1b[22;4;92;40m".to_vec());
}

#[test]
fn format_write_bold_default() {
    let f = fmt(Color::Default, Color::Default, true, false);
    let mut out: Vec<u8> = Vec::new();
    f.write(&mut out);
    assert_eq!(out, b"\x1b[1;24;39;49m".to_vec());
}

#[test]
fn diff_of_identical_frames_is_cursor_only() {
    let a = blank(8, 4, plain());
    let b = blank(8, 4, plain());
    let out = nui::diff(&a, &b, 0, 0);
    assert_eq!(out, b"\x1b[0;0H".to_vec());
}

#[test]
fn diff_emits_one_triple_per_changed_cell() {
    let a = blank(4, 2, plain());
    let mut b = blank(4, 2, plain());
    b.put(2, 1, b'X', plain());
    b.put(0, 0, b'A', fmt(Color::Red, Color::Black, true, false));
    let out = nui::diff(&a, &b, 1, 2);
    let mut expect: Vec<u8> = Vec::new();
    expect.extend_from_slice(b"\x1b[0;0H\x1b[1;24;31;40mA");
    expect.extend_from_slice(b"\x1b[1;2H\x1b[22;24;37;40mX");
    expect.extend_from_slice(b"\x1b[1;2H");
    assert_eq!(out, expect);
}

#[test]
fn diff_detects_format_only_changes() {
    let a = blank(2, 1, plain());
    let mut b = blank(2, 1, plain());
    b.put(1, 0, b' ', fmt(Color::White, Color::Black, false, true));
    let out = nui::diff(&a, &b, 0, 0);
    let mut expect: Vec<u8> = Vec::new();
    expect.extend_from_slice(b"\x1b[0;1H\x1b[22;4;37;40m ");
    expect.extend_from_slice(b"\x1b[0;0H");
    assert_eq!(out, expect);
}

#[test]
fn put_clips_out_of_bounds_writes() {
    let mut b = blank(3, 2, plain());
    b.put(3, 0, b'X', plain());
    b.put(0, 2, b'Y', plain());
    let untouched = blank(3, 2, plain());
    assert_eq!(b.chars, untouched.chars);
}

#[test]
fn entry_draw_paints_text_and_padding() {
    let e = Entry { x: 1, y: 0, format: plain(), text: b"Hi".to_vec(), max: 4 };
    let mut b = blank(8, 1, plain());
    let pos = e.draw(&mut b);
    assert_eq!(b.chars, b"\x20Hi\x20\x20\x20\x20\x20".to_vec());
    assert_eq!(pos, (3, 0));
}

#[test]
fn entry_draw_clips_at_row_end() {
    // A 3-character payload at x = width - 1 touches only that last cell:
    // nothing lands out of bounds and nothing wraps to the next row.
    let e = Entry { x: 3, y: 0, format: plain(), text: b"abc".to_vec(), max: 3 };
    let mut b = blank(4, 2, plain());
    e.draw(&mut b);
    assert_eq!(b.chars, b"\x20\x20\x20a\x20\x20\x20\x20".to_vec());
}

#[test]
fn entry_keypress_appends_below_max() {
    let mut e = Entry { x: 0, y: 0, format: plain(), text: b"Hi".to_vec(), max: 16 };
    e.keypress(b'!');
    assert_eq!(e.text, b"Hi!".to_vec());
}

#[test]
fn entry_keypress_backspace_removes_last() {
    let mut e = Entry { x: 0, y: 0, format: plain(), text: b"Hi".to_vec(), max: 16 };
    e.keypress(8);
    assert_eq!(e.text, b"H".to_vec());
    e.keypress(127);
    assert_eq!(e.text, b"".to_vec());
    e.keypress(8);
    assert_eq!(e.text, b"".to_vec());
}

#[test]
fn entry_keypress_drops_beyond_max() {
    let mut e = Entry { x: 0, y: 0, format: plain(), text: Vec::new(), max: 16 };
    for _ in 0..20 {
        e.keypress(b'x');
    }
    assert_eq!(e.text.len(), 16);
}

struct Still {
    focus: bool,
}

impl Widget for Still {
    fn draw(&self, _buf: &mut ScreenBuffer) -> (usize, usize) {
        (0, 0)
    }

    fn focusable(&self) -> bool {
        self.focus
    }

    fn keypress(&mut self, _ch: u8) {}
}

#[test]
fn focus_rotation_skips_nonfocusable() {
    let mut s = Screen {
        widgets: vec![
            Still { focus: false },
            Still { focus: true },
            Still { focus: false },
            Still { focus: true },
        ],
        active: None,
        width: 4,
        height: 1,
    };
    s.handle_key(9);
    assert_eq!(s.active, Some(1));
    s.handle_key(9);
    assert_eq!(s.active, Some(3));
    s.handle_key(9);
    assert_eq!(s.active, Some(1));
}

#[test]
fn focus_never_lands_without_focusable_widgets() {
    let mut s = Screen {
        widgets: vec![Still { focus: false }, Still { focus: false }],
        active: None,
        width: 4,
        height: 1,
    };
    for _ in 0..5 {
        s.handle_key(9);
    }
    assert_eq!(s.active, None);
}

#[test]
fn nonfocus_bytes_are_dropped_without_focus() {
    let mut s = Screen {
        widgets: vec![Entry { x: 0, y: 0, format: plain(), text: Vec::new(), max: 8 }],
        active: None,
        width: 8,
        height: 1,
    };
    s.handle_key(b'a');
    assert_eq!(s.widgets[0].text, b"".to_vec());
}

#[test]
fn keypress_routes_to_focused_widget() {
    let mut s = Screen {
        widgets: vec![
            Entry { x: 0, y: 0, format: plain(), text: Vec::new(), max: 8 },
            Entry { x: 0, y: 1, format: plain(), text: Vec::new(), max: 8 },
        ],
        active: Some(1),
        width: 8,
        height: 2,
    };
    s.handle_key(b'z');
    assert_eq!(s.widgets[0].text, b"".to_vec());
    assert_eq!(s.widgets[1].text, b"z".to_vec());
}

#[test]
fn screen_draw_renders_widget_text() {
    let s = Screen {
        widgets: vec![Entry { x: 0, y: 0, format: plain(), text: b"ok".to_vec(), max: 2 }],
        active: Some(0),
        width: 4,
        height: 1,
    };
    let prior = blank(4, 1, plain());
    let (painted, msg) = s.draw(&prior);
    assert_eq!(painted.chars, b"ok\x20\x20".to_vec());
    let mut expect: Vec<u8> = Vec::new();
    expect.extend_from_slice(b"\x1b[0;0H\x1b[22;24;37;40mo");
    expect.extend_from_slice(b"\x1b[0;1H\x1b[22;24;37;40mk");
    expect.extend_from_slice(b"\x1b[0;2H");
    assert_eq!(msg, expect);
}

#[test]
fn diff_renders_two_digit_coordinates() {
    let a = blank(12, 2, plain());
    let mut b = blank(12, 2, plain());
    b.put(11, 1, b'Z', plain());
    let out = nui::diff(&a, &b, 1, 11);
    let mut expect: Vec<u8> = Vec::new();
    expect.extend_from_slice(b"\x1b[1;11H\x1b[22;24;37;40mZ");
    expect.extend_from_slice(b"\x1b[1;11H");
    assert_eq!(out, expect);
}

#[test]
fn entry_draws_text_beyond_max() {
    // The entry paints its whole text even past `max`; only the row end
    // clips it.
    let e = Entry { x: 0, y: 0, format: plain(), text: b"abcd".to_vec(), max: 2 };
    let mut b = blank(6, 1, plain());
    e.draw(&mut b);
    assert_eq!(b.chars, b"abcd\x20\x20".to_vec());
}

#[test]
fn color_codes_cover_bright_variants() {
    let f = fmt(Color::BrightWhite, Color::BrightBlack, true, true);
    let mut out: Vec<u8> = Vec::new();
    f.write(&mut out);
    assert_eq!(out, b"\x1b[1;4;97;100m".to_vec());
}
