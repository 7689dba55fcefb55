//! Terminal colours as ANSI escape sequences, and the colour of each severity.
use vstd::prelude::*;
use crate::level::LogLevel;
use crate::text::{push_decimal, decimal};

verus! {

/// A catalogue colour. `Off` restores the terminal's default colour.
#[derive(Debug, Clone, Copy, PartialEq, Eq, Structural)]
pub enum Colour {
    Black,
    Blue,
    Cyan,
    Green,
    Grey,
    Magenta,
    Orange,
    Red,
    Yellow,
    White,
    Off,
}

impl Colour {
    /// The escape sequence that selects this colour for the foreground.
    pub open spec fn code(self) -> Seq<char> {
        match self {
            Colour::Off => "\x1B[39m"@,
            Colour::Black => "\x1B[30m"@,
            Colour::Blue => "\x1B[34m"@,
            Colour::Cyan => "\x1B[36m"@,
            Colour::Green => "\x1B[32m"@,
            Colour::Grey => "\x1B[90m"@,
            Colour::Magenta => "\x1B[35m"@,
            Colour::Orange => "\x1B[91m"@,
            Colour::Red => "\x1B[31m"@,
            Colour::Yellow => "\x1B[33m"@,
            Colour::White => "\x1B[37m"@,
        }
    }

    /// The escape sequence that selects this colour for the background.
    pub open spec fn bg_code(self) -> Seq<char> {
        match self {
            Colour::Off => "\x1B[49m"@,
            Colour::Black => "\x1B[40m"@,
            Colour::Blue => "\x1B[44m"@,
            Colour::Cyan => "\x1B[46m"@,
            Colour::Green => "\x1B[42m"@,
            Colour::Grey => "\x1B[100m"@,
            Colour::Magenta => "\x1B[45m"@,
            Colour::Orange => "\x1B[101m"@,
            Colour::Red => "\x1B[41m"@,
            Colour::Yellow => "\x1B[43m"@,
            Colour::White => "\x1B[47m"@,
        }
    }

    /// The foreground escape sequence of this colour.
    pub fn as_str(&self) -> (r: &'static str)
        ensures
            r@ == self.code(),
    {
        match self {
            Colour::Off => "\x1B[39m",
            Colour::Black => "\x1B[30m",
            Colour::Blue => "\x1B[34m",
            Colour::Cyan => "\x1B[36m",
            Colour::Green => "\x1B[32m",
            Colour::Grey => "\x1B[90m",
            Colour::Magenta => "\x1B[35m",
            Colour::Orange => "\x1B[91m",
            Colour::Red => "\x1B[31m",
            Colour::Yellow => "\x1B[33m",
            Colour::White => "\x1B[37m",
        }
    }

    /// The background escape sequence of this colour.
    pub fn as_bg_str(&self) -> (r: &'static str)
        ensures
            r@ == self.bg_code(),
    {
        match self {
            Colour::Off => "\x1B[49m",
            Colour::Black => "\x1B[40m",
            Colour::Blue => "\x1B[44m",
            Colour::Cyan => "\x1B[46m",
            Colour::Green => "\x1B[42m",
            Colour::Grey => "\x1B[100m",
            Colour::Magenta => "\x1B[45m",
            Colour::Orange => "\x1B[101m",
            Colour::Red => "\x1B[41m",
            Colour::Yellow => "\x1B[43m",
            Colour::White => "\x1B[47m",
        }
    }

    /// `s` in the given foreground colour, followed by the code that turns colour off.
    pub fn paint_with(colour: Colour, s: &str) -> (r: String)
        ensures
            r@ == colour.code() + s@ + Colour::Off.code(),
    {
        colour.paint(s)
    }

    /// `s` in this foreground colour, followed by the code that turns colour off.
    pub fn paint(&self, s: &str) -> (r: String)
        ensures
            r@ == self.code() + s@ + Colour::Off.code(),
    {
        let mut r = String::from_str(self.as_str());
        r.append(s);
        r.append(Colour::Off.as_str());
        r
    }

    /// `s` on the given background colour, followed by the code that turns it off.
    pub fn paint_bg_with(colour: Colour, s: &str) -> (r: String)
        ensures
            r@ == colour.bg_code() + s@ + Colour::Off.bg_code(),
    {
        colour.paint_bg(s)
    }

    /// `s` on this background colour, followed by the code that turns it off.
    pub fn paint_bg(&self, s: &str) -> (r: String)
        ensures
            r@ == self.bg_code() + s@ + Colour::Off.bg_code(),
    {
        let mut r = String::from_str(self.as_bg_str());
        r.append(s);
        r.append(Colour::Off.as_bg_str());
        r
    }

    /// A 24-bit colour from its red, green and blue components.
    pub fn custom(r: usize, g: usize, b: usize) -> (c: CustomColour)
        ensures
            c.foreground() == rgb_code("38"@, r as nat, g as nat, b as nat),
            c.background() == rgb_code("48"@, r as nat, g as nat, b as nat),
    {
        CustomColour { value: rgb_text("38", r, g, b), bg_value: rgb_text("48", r, g, b) }
    }
}

/// The escape sequence of a 24-bit colour; `layer` is `38` for the
/// foreground and `48` for the background.
pub open spec fn rgb_code(layer: Seq<char>, r: nat, g: nat, b: nat) -> Seq<char> {
    "\x1B["@ + layer + ";2;"@ + decimal(r) + ";"@ + decimal(g) + ";"@ + decimal(b) + "m"@
}

fn rgb_text(layer: &str, r: usize, g: usize, b: usize) -> (s: String)
    ensures
        s@ == rgb_code(layer@, r as nat, g as nat, b as nat),
{
    let mut s = String::from_str("\x1B[");
    s.append(layer);
    s.append(";2;");
    push_decimal(&mut s, r);
    s.append(";");
    push_decimal(&mut s, g);
    s.append(";");
    push_decimal(&mut s, b);
    s.append("m");
    s
}

/// A 24-bit colour, held as its two escape sequences.
pub struct CustomColour {
    value: String,
    bg_value: String,
}

impl CustomColour {
    /// The escape sequence that selects this colour for the foreground.
    pub closed spec fn foreground(&self) -> Seq<char> {
        self.value@
    }

    /// The escape sequence that selects this colour for the background.
    pub closed spec fn background(&self) -> Seq<char> {
        self.bg_value@
    }

    /// `s` in this foreground colour, followed by the code that turns colour off.
    pub fn paint(&self, s: &str) -> (r: String)
        ensures
            r@ == self.foreground() + s@ + Colour::Off.code(),
    {
        let mut r = self.value.clone();
        r.append(s);
        r.append(Colour::Off.as_str());
        r
    }

    /// `s` on this background colour, followed by the code that turns it off.
    pub fn paint_bg(&self, s: &str) -> (r: String)
        ensures
            r@ == self.background() + s@ + Colour::Off.bg_code(),
    {
        let mut r = self.bg_value.clone();
        r.append(s);
        r.append(Colour::Off.as_bg_str());
        r
    }
}

/// The colour in which a severity is shown.
pub open spec fn level_colour(level: LogLevel) -> Colour {
    match level {
        LogLevel::Trace => Colour::Grey,
        LogLevel::Debug => Colour::Magenta,
        LogLevel::Info => Colour::Blue,
        LogLevel::Warn => Colour::Yellow,
        LogLevel::Error => Colour::Red,
        LogLevel::Fatal => Colour::Red,
        LogLevel::Silent => Colour::Off,
    }
}

/// The colour in which a severity is shown; a level without a colour of its
/// own (`Silent`) gets `Off`.
pub fn default_colour_for(level: LogLevel) -> (c: Colour)
    ensures
        c == level_colour(level),
{
    match level {
        LogLevel::Trace => Colour::Grey,
        LogLevel::Debug => Colour::Magenta,
        LogLevel::Info => Colour::Blue,
        LogLevel::Warn => Colour::Yellow,
        LogLevel::Error => Colour::Red,
        LogLevel::Fatal => Colour::Red,
        LogLevel::Silent => Colour::Off,
    }
}

impl From<LogLevel> for Colour {
    fn from(level: LogLevel) -> (c: Colour) {
        default_colour_for(level)
    }
}

impl vstd::std_specs::convert::FromSpecImpl<LogLevel> for Colour {
    open spec fn obeys_from_spec() -> bool {
        true
    }

    open spec fn from_spec(level: LogLevel) -> Colour {
        level_colour(level)
    }
}

} // verus!
