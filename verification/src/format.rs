//! Styling of screen cells: colors and the `Format` descriptor, together
//! with the encoding of a `Format` into an ANSI SGR escape sequence.

use vstd::prelude::*;

verus! {

/// The terminal colors, mapped to ANSI SGR parameter offsets by
/// [`Color::code`] (foreground = offset + 30, background = offset + 40).
#[derive(Clone, Copy, PartialEq, Eq, Structural)]
pub enum Color {
    Black,
    Red,
    Green,
    Yellow,
    Blue,
    Magenta,
    Cyan,
    White,
    Default,
    BrightBlack,
    BrightRed,
    BrightGreen,
    BrightYellow,
    BrightBlue,
    BrightMagenta,
    BrightCyan,
    BrightWhite,
}

impl Color {
    /// The ANSI SGR parameter offset of this color: the bright variants
    /// sit 60 above their plain counterparts, and `Default` is 9.
    pub open spec fn spec_code(self) -> u8 {
        match self {
            Color::Black => 0,
            Color::Red => 1,
            Color::Green => 2,
            Color::Yellow => 3,
            Color::Blue => 4,
            Color::Magenta => 5,
            Color::Cyan => 6,
            Color::White => 7,
            Color::Default => 9,
            Color::BrightBlack => 60,
            Color::BrightRed => 61,
            Color::BrightGreen => 62,
            Color::BrightYellow => 63,
            Color::BrightBlue => 64,
            Color::BrightMagenta => 65,
            Color::BrightCyan => 66,
            Color::BrightWhite => 67,
        }
    }

    /// The ANSI SGR parameter offset of this color.
    pub fn code(self) -> (r: u8)
        ensures
            r == self.spec_code(),
    {
        match self {
            Color::Black => 0,
            Color::Red => 1,
            Color::Green => 2,
            Color::Yellow => 3,
            Color::Blue => 4,
            Color::Magenta => 5,
            Color::Cyan => 6,
            Color::White => 7,
            Color::Default => 9,
            Color::BrightBlack => 60,
            Color::BrightRed => 61,
            Color::BrightGreen => 62,
            Color::BrightYellow => 63,
            Color::BrightBlue => 64,
            Color::BrightMagenta => 65,
            Color::BrightCyan => 66,
            Color::BrightWhite => 67,
        }
    }
}

/// The style of one screen cell. A value type: the SGR encoding is a pure
/// function of the four fields.
#[derive(Clone, Copy, PartialEq, Eq, Structural)]
pub struct Format {
    pub fg: Color,
    pub bg: Color,
    pub bold: bool,
    pub underline: bool,
}

/// The decimal digits of `n` as ASCII bytes, most significant first.
pub open spec fn dec_of(n: nat) -> Seq<u8>
    decreases n,
{
    if n < 10 {
        seq![(48 + n) as u8]
    } else {
        dec_of(n / 10) + seq![(48 + n % 10) as u8]
    }
}

/// Appends the decimal digits of `n`, most significant first, to `out`.
pub fn push_dec(out: &mut Vec<u8>, n: usize)
    ensures
        final(out)@ == old(out)@ + dec_of(n as nat),
    decreases n,
{
    if n < 10 {
        out.push((48 + n) as u8);
        assert(out@ =~= old(out)@ + dec_of(n as nat));
    } else {
        push_dec(out, n / 10);
        out.push((48 + n % 10) as u8);
        assert(out@ =~= old(out)@ + dec_of(n as nat));
    }
}

/// The ANSI SGR escape sequence selecting `f`:
/// `ESC [ {bold} ; {underline} ; {30 + fg} ; {40 + bg} m`, where the bold
/// parameter is 1 or 22 and the underline parameter is 4 or 24.
pub open spec fn sgr_of(f: Format) -> Seq<u8> {
    seq![27u8, 91u8] + dec_of(if f.bold { 1nat } else { 22nat }) + seq![59u8]
        + dec_of(if f.underline { 4nat } else { 24nat }) + seq![59u8]
        + dec_of((f.fg.spec_code() + 30) as nat) + seq![59u8]
        + dec_of((f.bg.spec_code() + 40) as nat) + seq![109u8]
}

impl Format {
    /// Appends the SGR escape sequence selecting this format to `out`.
    #[verifier::rlimit(50)]
    pub fn write(&self, out: &mut Vec<u8>)
        ensures
            final(out)@ == old(out)@ + sgr_of(*self),
    {
        out.push(27);
        out.push(91);
        push_dec(out, if self.bold { 1 } else { 22 });
        out.push(59);
        push_dec(out, if self.underline { 4 } else { 24 });
        out.push(59);
        push_dec(out, (self.fg.code() + 30) as usize);
        out.push(59);
        push_dec(out, (self.bg.code() + 40) as usize);
        out.push(109);
        assert(out@ =~= old(out)@ + sgr_of(*self));
    }
}

} // verus!
