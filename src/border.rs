//! Borders drawn around a line of text: the strings that go above, before,
//! after and below it.
use vstd::prelude::*;
use crate::text::{push_char, push_repeated, repeated};

verus! {

/// A border style; `Off` draws nothing.
#[derive(Debug, Clone, Copy, PartialEq, Eq, Structural)]
pub enum Border {
    Off,
    Hash,
    Line,
    DoubleLine,
}

/// The characters of a border: corners, top and bottom edges, sides.
#[derive(Debug, Clone, Copy, PartialEq, Eq, Structural)]
pub struct BorderCharSet {
    pub tl: char,
    pub t: char,
    pub tr: char,
    pub l: char,
    pub r: char,
    pub bl: char,
    pub b: char,
    pub br: char,
}

/// The four parts of a border around content of `len` characters: the top
/// line (with its newline), what goes before the content, what goes after it
/// (with a newline), and the bottom line. The edges are two characters longer
/// than the content, for the spaces beside it.
pub open spec fn components(set: BorderCharSet, len: nat) -> (Seq<char>, Seq<char>, Seq<char>, Seq<char>) {
    (
        seq![set.tl] + repeated(set.t, len + 2) + seq![set.tr, '\n'],
        seq![set.l, ' '],
        seq![' ', set.r, '\n'],
        seq![set.bl] + repeated(set.b, len + 2) + seq![set.br],
    )
}

impl Border {
    /// The characters of this style, if it draws anything.
    pub open spec fn char_set(self) -> Option<BorderCharSet> {
        match self {
            Border::Hash => Some(
                BorderCharSet { tl: '#', t: '#', tr: '#', l: '#', r: '#', bl: '#', b: '#', br: '#' },
            ),
            Border::Line => Some(
                BorderCharSet {
                    tl: '\u{250C}',
                    t: '\u{2500}',
                    tr: '\u{2510}',
                    l: '\u{2502}',
                    r: '\u{2502}',
                    bl: '\u{2514}',
                    b: '\u{2500}',
                    br: '\u{2518}',
                },
            ),
            Border::DoubleLine => Some(
                BorderCharSet {
                    tl: '\u{2554}',
                    t: '\u{2550}',
                    tr: '\u{2557}',
                    l: '\u{2551}',
                    r: '\u{2551}',
                    bl: '\u{255A}',
                    b: '\u{2550}',
                    br: '\u{255D}',
                },
            ),
            Border::Off => None,
        }
    }

    /// The characters of this style, if it draws anything.
    pub fn as_border_char_set(&self) -> (r: Option<BorderCharSet>)
        ensures
            r == self.char_set(),
    {
        match self {
            Border::Hash => Some(
                BorderCharSet { tl: '#', t: '#', tr: '#', l: '#', r: '#', bl: '#', b: '#', br: '#' },
            ),
            Border::Line => Some(
                BorderCharSet {
                    tl: '\u{250C}',
                    t: '\u{2500}',
                    tr: '\u{2510}',
                    l: '\u{2502}',
                    r: '\u{2502}',
                    bl: '\u{2514}',
                    b: '\u{2500}',
                    br: '\u{2518}',
                },
            ),
            Border::DoubleLine => Some(
                BorderCharSet {
                    tl: '\u{2554}',
                    t: '\u{2550}',
                    tr: '\u{2557}',
                    l: '\u{2551}',
                    r: '\u{2551}',
                    bl: '\u{255A}',
                    b: '\u{2550}',
                    br: '\u{255D}',
                },
            ),
            Border::Off => None,
        }
    }

    /// The top line, the part before the content, the part after it and the
    /// bottom line of a border around `content_len` characters; four empty
    /// strings for `Border::Off`.
    pub fn generate_border_components(&self, content_len: usize) -> (r: (String, String, String, String))
        requires
            content_len + 2 <= usize::MAX,
        ensures
            match self.char_set() {
                Some(set) => (r.0@, r.1@, r.2@, r.3@) == components(set, content_len as nat),
                None => r.0@.len() == 0 && r.1@.len() == 0 && r.2@.len() == 0 && r.3@.len() == 0,
            },
    {
        let set = match self.as_border_char_set() {
            Some(set) => set,
            None => {
                return (String::new(), String::new(), String::new(), String::new());
            },
        };
        let width = content_len + 2;

        let mut top = String::new();
        push_char(&mut top, set.tl);
        push_repeated(&mut top, set.t, width);
        push_char(&mut top, set.tr);
        push_char(&mut top, '\n');

        let mut bottom = String::new();
        push_char(&mut bottom, set.bl);
        push_repeated(&mut bottom, set.b, width);
        push_char(&mut bottom, set.br);

        let mut prefix = String::new();
        push_char(&mut prefix, set.l);
        push_char(&mut prefix, ' ');

        let mut suffix = String::new();
        push_char(&mut suffix, ' ');
        push_char(&mut suffix, set.r);
        push_char(&mut suffix, '\n');

        assert(top@ =~= components(set, content_len as nat).0);
        assert(prefix@ =~= components(set, content_len as nat).1);
        assert(suffix@ =~= components(set, content_len as nat).2);
        assert(bottom@ =~= components(set, content_len as nat).3);
        (top, prefix, suffix, bottom)
    }
}

} // verus!
