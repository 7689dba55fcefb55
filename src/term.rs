//! Text attributes for the terminal (bold, underline, overline, frames,
//! colours) as ANSI escape sequences, and a printer style that combines them.
use vstd::prelude::*;
use crate::colour::Colour;

verus! {

pub const CLEAR_TERMINAL: &'static str = "\x1B[2J";
pub const CLEAR_LINE: &'static str = "\x1B[2K";
pub const RESET: &'static str = "\x1B[0m";
pub const BOLD_ON: &'static str = "\x1B[1m";
pub const BOLD_OFF: &'static str = "\x1B[22m";
pub const UNDERLINE_ON: &'static str = "\x1B[4m";
pub const UNDERLINE_OFF: &'static str = "\x1B[24m";
pub const OVERLINE_ON: &'static str = "\x1B[53m";
pub const OVERLINE_OFF: &'static str = "\x1B[55m";
pub const FRAMED_ON: &'static str = "\x1B[51m";
pub const ENCIRCLED_ON: &'static str = "\x1B[52m";
pub const FRAMED_ENCIRCLED_OFF: &'static str = "\x1B[54m";

/// `on`, then `s`, then `off`, as a new string.
fn wrapped(on: &str, s: &str, off: &str) -> (r: String)
    ensures
        r@ == on@ + s@ + off@,
{
    let mut r = String::from_str(on);
    r.append(s);
    r.append(off);
    r
}

/// `s` in bold.
pub fn bold(s: &str) -> (r: String)
    ensures
        r@ == BOLD_ON@ + s@ + BOLD_OFF@,
{
    wrapped(BOLD_ON, s, BOLD_OFF)
}

/// `s` underlined.
pub fn underline(s: &str) -> (r: String)
    ensures
        r@ == UNDERLINE_ON@ + s@ + UNDERLINE_OFF@,
{
    wrapped(UNDERLINE_ON, s, UNDERLINE_OFF)
}

/// `s` overlined.
pub fn overline(s: &str) -> (r: String)
    ensures
        r@ == OVERLINE_ON@ + s@ + OVERLINE_OFF@,
{
    wrapped(OVERLINE_ON, s, OVERLINE_OFF)
}

/// `s` framed.
pub fn frame(s: &str) -> (r: String)
    ensures
        r@ == FRAMED_ON@ + s@ + FRAMED_ENCIRCLED_OFF@,
{
    wrapped(FRAMED_ON, s, FRAMED_ENCIRCLED_OFF)
}

/// `s` encircled.
pub fn encircled(s: &str) -> (r: String)
    ensures
        r@ == ENCIRCLED_ON@ + s@ + FRAMED_ENCIRCLED_OFF@,
{
    wrapped(ENCIRCLED_ON, s, FRAMED_ENCIRCLED_OFF)
}

/// A combination of text attributes, each an opening and a closing code
/// (both empty while the attribute is unset).
pub struct Printer {
    bold_prefix: &'static str,
    bold_suffix: &'static str,
    colour_prefix: &'static str,
    colour_suffix: &'static str,
    bg_prefix: &'static str,
    bg_suffix: &'static str,
    underline_prefix: &'static str,
    underline_suffix: &'static str,
    overline_prefix: &'static str,
    overline_suffix: &'static str,
    frame_prefix: &'static str,
    frame_suffix: &'static str,
}

/// The codes of a `Printer`: for each attribute, its opening and closing code.
pub struct PrinterView {
    pub bold: (Seq<char>, Seq<char>),
    pub colour: (Seq<char>, Seq<char>),
    pub bg: (Seq<char>, Seq<char>),
    pub underline: (Seq<char>, Seq<char>),
    pub overline: (Seq<char>, Seq<char>),
    pub frame: (Seq<char>, Seq<char>),
}

impl View for Printer {
    type V = PrinterView;

    closed spec fn view(&self) -> PrinterView {
        PrinterView {
            bold: (self.bold_prefix@, self.bold_suffix@),
            colour: (self.colour_prefix@, self.colour_suffix@),
            bg: (self.bg_prefix@, self.bg_suffix@),
            underline: (self.underline_prefix@, self.underline_suffix@),
            overline: (self.overline_prefix@, self.overline_suffix@),
            frame: (self.frame_prefix@, self.frame_suffix@),
        }
    }
}

impl PrinterView {
    /// `s` with every opening code before it, outermost first (frame,
    /// overline, underline, bold, background, colour), and the closing codes
    /// after it in the reverse order.
    pub open spec fn styled(self, s: Seq<char>) -> Seq<char> {
        self.frame.0 + self.overline.0 + self.underline.0 + self.bold.0 + self.bg.0 + self.colour.0
            + s + self.colour.1 + self.bg.1 + self.bold.1 + self.underline.1 + self.overline.1
            + self.frame.1
    }
}

impl Printer {
    /// A printer with no attribute set.
    pub fn new() -> (r: Printer)
        ensures
            r@ == (PrinterView {
                bold: (Seq::empty(), Seq::empty()),
                colour: (Seq::empty(), Seq::empty()),
                bg: (Seq::empty(), Seq::empty()),
                underline: (Seq::empty(), Seq::empty()),
                overline: (Seq::empty(), Seq::empty()),
                frame: (Seq::empty(), Seq::empty()),
            }),
    {
        proof {
            reveal_strlit("");
            assert(""@ =~= Seq::<char>::empty());
        }
        Printer {
            bold_prefix: "",
            bold_suffix: "",
            colour_prefix: "",
            colour_suffix: "",
            bg_prefix: "",
            bg_suffix: "",
            underline_prefix: "",
            underline_suffix: "",
            overline_prefix: "",
            overline_suffix: "",
            frame_prefix: "",
            frame_suffix: "",
        }
    }

    /// Adds bold.
    pub fn set_bold(self) -> (r: Printer)
        ensures
            r@ == (PrinterView { bold: (BOLD_ON@, BOLD_OFF@), ..self@ }),
    {
        let mut p = self;
        p.bold_prefix = BOLD_ON;
        p.bold_suffix = BOLD_OFF;
        p
    }

    /// Adds underlining.
    pub fn set_underline(self) -> (r: Printer)
        ensures
            r@ == (PrinterView { underline: (UNDERLINE_ON@, UNDERLINE_OFF@), ..self@ }),
    {
        let mut p = self;
        p.underline_prefix = UNDERLINE_ON;
        p.underline_suffix = UNDERLINE_OFF;
        p
    }

    /// Sets the foreground colour.
    pub fn set_colour(self, colour: Colour) -> (r: Printer)
        ensures
            r@ == (PrinterView { colour: (colour.code(), Colour::Off.code()), ..self@ }),
    {
        let mut p = self;
        p.colour_prefix = colour.as_str();
        p.colour_suffix = Colour::Off.as_str();
        p
    }

    /// Sets the background colour.
    pub fn set_bg_colour(self, colour: Colour) -> (r: Printer)
        ensures
            r@ == (PrinterView { bg: (colour.bg_code(), Colour::Off.bg_code()), ..self@ }),
    {
        let mut p = self;
        p.bg_prefix = colour.as_bg_str();
        p.bg_suffix = Colour::Off.as_bg_str();
        p
    }

    /// Adds overlining.
    pub fn set_overline(self) -> (r: Printer)
        ensures
            r@ == (PrinterView { overline: (OVERLINE_ON@, OVERLINE_OFF@), ..self@ }),
    {
        let mut p = self;
        p.overline_prefix = OVERLINE_ON;
        p.overline_suffix = OVERLINE_OFF;
        p
    }

    /// Frames the text; replaces encircling, the two share one slot.
    pub fn set_framed(self) -> (r: Printer)
        ensures
            r@ == (PrinterView { frame: (FRAMED_ON@, FRAMED_ENCIRCLED_OFF@), ..self@ }),
    {
        let mut p = self;
        p.frame_prefix = FRAMED_ON;
        p.frame_suffix = FRAMED_ENCIRCLED_OFF;
        p
    }

    /// Encircles the text; replaces framing, the two share one slot.
    pub fn set_encircled(self) -> (r: Printer)
        ensures
            r@ == (PrinterView { frame: (ENCIRCLED_ON@, FRAMED_ENCIRCLED_OFF@), ..self@ }),
    {
        let mut p = self;
        p.frame_prefix = ENCIRCLED_ON;
        p.frame_suffix = FRAMED_ENCIRCLED_OFF;
        p
    }

    /// `s` with this printer's attributes applied.
    pub fn format(&self, s: &str) -> (r: String)
        ensures
            r@ == self@.styled(s@),
    {
        let mut r = String::from_str(self.frame_prefix);
        r.append(self.overline_prefix);
        r.append(self.underline_prefix);
        r.append(self.bold_prefix);
        r.append(self.bg_prefix);
        r.append(self.colour_prefix);
        r.append(s);
        r.append(self.colour_suffix);
        r.append(self.bg_suffix);
        r.append(self.bold_suffix);
        r.append(self.underline_suffix);
        r.append(self.overline_suffix);
        r.append(self.frame_suffix);
        r
    }
}

} // verus!
