//! Which keys draw a glyph, start a sound cue or show an image.
use vstd::prelude::*;

verus! {

/// A physical key, as the input layer names it.
#[derive(Clone, Copy, Debug, PartialEq, Eq, Structural)]
pub enum Key {
    /// A key labelled with one character (`A`, `7`, `-`); a letter names the
    /// same key in either case.
    Char(char),
    /// A function key, by its number (`F1` is `Function(1)`).
    Function(u8),
    Return,
    Escape,
    /// Any key the table does not know (a modifier, an arrow).
    Other,
}

/// The one name of the key labelled `c`: letters in upper case.
pub open spec fn canonical(c: char) -> char {
    if 'a' <= c && c <= 'z' {
        ((c as u32 - 32) as u8) as char
    } else {
        c
    }
}

/// The one name of the key labelled `c`: letters in upper case.
pub fn canonical_char(c: char) -> (r: char)
    ensures
        r == canonical(c),
{
    if 'a' <= c && c <= 'z' {
        ((c as u32 - 32) as u8) as char
    } else {
        c
    }
}

/// The drawable alphabet: letters `A` to `Z` and digits `0` to `9`.
pub open spec fn in_alphabet(c: char) -> bool {
    ('A' <= c && c <= 'Z') || ('0' <= c && c <= '9')
}

/// The label of the glyph that `key` draws, if it draws one.
pub open spec fn glyph_of(key: Key) -> Option<char> {
    match key {
        Key::Char(c) => if in_alphabet(canonical(c)) {
            Some(canonical(c))
        } else {
            None
        },
        _ => None,
    }
}

/// The sound cue of a function key.
pub open spec fn note_cue(n: u8) -> Option<Seq<char>> {
    match n {
        1 => Some("37a"@),
        2 => Some("38b"@),
        3 => Some("39bb"@),
        4 => Some("40c"@),
        5 => Some("41c"@),
        6 => Some("42d"@),
        7 => Some("43e"@),
        8 => Some("44eb"@),
        9 => Some("45f"@),
        10 => Some("46f"@),
        11 => Some("47g"@),
        12 => Some("48g"@),
        _ => None,
    }
}

/// The sound cue of a letter key.
pub open spec fn letter_cue(c: char) -> Option<Seq<char>> {
    match c {
        'A' => Some("alpha-a"@),
        'B' => Some("alpha-b"@),
        'C' => Some("alpha-c"@),
        'D' => Some("alpha-d"@),
        'E' => Some("alpha-e"@),
        'F' => Some("alpha-f"@),
        'G' => Some("alpha-g"@),
        'H' => Some("alpha-h"@),
        'I' => Some("alpha-i"@),
        'J' => Some("alpha-j"@),
        'K' => Some("alpha-k"@),
        'L' => Some("alpha-l"@),
        'M' => Some("alpha-m"@),
        'N' => Some("alpha-n"@),
        'O' => Some("alpha-o"@),
        'P' => Some("alpha-p"@),
        'Q' => Some("alpha-q"@),
        'R' => Some("alpha-r"@),
        'S' => Some("alpha-s"@),
        'T' => Some("alpha-t"@),
        'U' => Some("alpha-u"@),
        'V' => Some("alpha-v"@),
        'W' => Some("alpha-w"@),
        'X' => Some("alpha-x"@),
        'Y' => Some("alpha-y"@),
        'Z' => Some("alpha-z"@),
        _ => None,
    }
}

/// The name of the sound cue that `key` starts, if it starts one.
pub open spec fn cue_of(key: Key) -> Option<Seq<char>> {
    match key {
        Key::Function(n) => note_cue(n),
        Key::Char(c) => letter_cue(canonical(c)),
        _ => None,
    }
}

/// The name of the image that `key` shows, if it shows one.
pub open spec fn image_of(key: Key) -> Option<Seq<char>> {
    match key {
        Key::Char(c) => if canonical(c) == 'T' {
            Some("T"@)
        } else {
            None
        },
        _ => None,
    }
}

/// The label of the glyph that `key` draws, if it draws one.
pub fn glyph_label(key: Key) -> (r: Option<char>)
    ensures
        r == glyph_of(key),
{
    match key {
        Key::Char(c) => {
            let c = canonical_char(c);
            if ('A' <= c && c <= 'Z') || ('0' <= c && c <= '9') {
                Some(c)
            } else {
                None
            }
        },
        _ => None,
    }
}

/// The name of the sound cue that `key` starts, if it starts one.
pub fn cue_for_key(key: Key) -> (r: Option<&'static str>)
    ensures
        match r {
            Some(s) => cue_of(key) == Some(s@),
            None => cue_of(key) is None,
        },
{
    match key {
        Key::Function(n) => match n {
            1 => Some("37a"),
            2 => Some("38b"),
            3 => Some("39bb"),
            4 => Some("40c"),
            5 => Some("41c"),
            6 => Some("42d"),
            7 => Some("43e"),
            8 => Some("44eb"),
            9 => Some("45f"),
            10 => Some("46f"),
            11 => Some("47g"),
            12 => Some("48g"),
            _ => None,
        },
        Key::Char(c) => match canonical_char(c) {
            'A' => Some("alpha-a"),
            'B' => Some("alpha-b"),
            'C' => Some("alpha-c"),
            'D' => Some("alpha-d"),
            'E' => Some("alpha-e"),
            'F' => Some("alpha-f"),
            'G' => Some("alpha-g"),
            'H' => Some("alpha-h"),
            'I' => Some("alpha-i"),
            'J' => Some("alpha-j"),
            'K' => Some("alpha-k"),
            'L' => Some("alpha-l"),
            'M' => Some("alpha-m"),
            'N' => Some("alpha-n"),
            'O' => Some("alpha-o"),
            'P' => Some("alpha-p"),
            'Q' => Some("alpha-q"),
            'R' => Some("alpha-r"),
            'S' => Some("alpha-s"),
            'T' => Some("alpha-t"),
            'U' => Some("alpha-u"),
            'V' => Some("alpha-v"),
            'W' => Some("alpha-w"),
            'X' => Some("alpha-x"),
            'Y' => Some("alpha-y"),
            'Z' => Some("alpha-z"),
            _ => None,
        },
        _ => None,
    }
}

/// The name of the image that `key` shows, if it shows one.
pub fn image_for_key(key: Key) -> (r: Option<&'static str>)
    ensures
        match r {
            Some(s) => image_of(key) == Some(s@),
            None => image_of(key) is None,
        },
{
    match key {
        Key::Char(c) => if canonical_char(c) == 'T' {
            Some("T")
        } else {
            None
        },
        _ => None,
    }
}

} // verus!
