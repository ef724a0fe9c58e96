//! `#RRGGBB` colours and 24-bit ANSI foreground colouring.

use vstd::prelude::*;

use crate::text::{decimal, decimal_string};

verus! {

/// The value of a base-16 digit of either case.
pub open spec fn hex_digit_value(c: char) -> Option<u8> {
    if '0' <= c && c <= '9' {
        Some((c as u32 - '0' as u32) as u8)
    } else if 'a' <= c && c <= 'f' {
        Some((c as u32 - 'a' as u32 + 10) as u8)
    } else if 'A' <= c && c <= 'F' {
        Some((c as u32 - 'A' as u32 + 10) as u8)
    } else {
        None
    }
}

/// The byte that two characters spell in base 16: two digits, or a plus sign
/// followed by one digit (the sign that an unsigned number may carry).
pub open spec fn hex_pair_value(a: char, b: char) -> Option<u8> {
    if a == '+' {
        hex_digit_value(b)
    } else {
        match (hex_digit_value(a), hex_digit_value(b)) {
            (Some(x), Some(y)) => Some((x * 16 + y) as u8),
            _ => None,
        }
    }
}

/// `s` without the `#` characters that it starts with.
pub open spec fn strip_hashes(s: Seq<char>) -> Seq<char>
    decreases s.len(),
{
    if s.len() > 0 && s[0] == '#' {
        strip_hashes(s.drop_first())
    } else {
        s
    }
}

/// The red, green and blue bytes that `s` spells after its leading `#`s, if
/// exactly six characters are left and each pair of them is a byte.
pub open spec fn rgb_of(s: Seq<char>) -> Option<(u8, u8, u8)> {
    let h = strip_hashes(s);
    if h.len() != 6 {
        None
    } else {
        match (
            hex_pair_value(h[0], h[1]),
            hex_pair_value(h[2], h[3]),
            hex_pair_value(h[4], h[5]),
        ) {
            (Some(r), Some(g), Some(b)) => Some((r, g, b)),
            _ => None,
        }
    }
}

fn hex_digit(c: char) -> (r: Option<u8>)
    ensures
        r == hex_digit_value(c),
{
    if '0' <= c && c <= '9' {
        Some((c as u32 - '0' as u32) as u8)
    } else if 'a' <= c && c <= 'f' {
        Some((c as u32 - 'a' as u32 + 10) as u8)
    } else if 'A' <= c && c <= 'F' {
        Some((c as u32 - 'A' as u32 + 10) as u8)
    } else {
        None
    }
}

fn hex_pair(a: char, b: char) -> (r: Option<u8>)
    ensures
        r == hex_pair_value(a, b),
{
    if a == '+' {
        hex_digit(b)
    } else {
        match (hex_digit(a), hex_digit(b)) {
            (Some(x), Some(y)) => Some(x * 16 + y),
            _ => None,
        }
    }
}

proof fn lemma_strip_skips(s: Seq<char>, i: int)
    requires
        0 <= i <= s.len(),
        forall|j: int| 0 <= j < i ==> s[j] == '#',
    ensures
        strip_hashes(s) == strip_hashes(s.subrange(i, s.len() as int)),
    decreases i,
{
    if i > 0 {
        assert(s.drop_first() =~= s.subrange(1, s.len() as int));
        lemma_strip_skips(s.drop_first(), i - 1);
        assert(s.drop_first().subrange(i - 1, s.len() - 1) =~= s.subrange(i, s.len() as int));
    } else {
        assert(s.subrange(0, s.len() as int) =~= s);
    }
}

/// Red, green and blue of a `#RRGGBB` colour.
pub fn hex_to_rgb(hex: &str) -> (r: Option<(u8, u8, u8)>)
    ensures
        r == rgb_of(hex@),
{
    let n = hex.unicode_len();
    let mut i: usize = 0;
    while i < n && hex.get_char(i) == '#'
        invariant
            n == hex@.len(),
            i <= n,
            forall|j: int| 0 <= j < i ==> hex@[j] == '#',
        decreases n - i,
    {
        i = i + 1;
    }
    proof {
        lemma_strip_skips(hex@, i as int);
        let rest = hex@.subrange(i as int, n as int);
        if rest.len() > 0 {
            assert(rest[0] != '#');
        }
    }
    if n - i != 6 {
        return None;
    }
    let red = hex_pair(hex.get_char(i), hex.get_char(i + 1));
    let green = hex_pair(hex.get_char(i + 2), hex.get_char(i + 3));
    let blue = hex_pair(hex.get_char(i + 4), hex.get_char(i + 5));
    match (red, green, blue) {
        (Some(r), Some(g), Some(b)) => Some((r, g, b)),
        _ => None,
    }
}

/// `text` in the 24-bit foreground colour `(r, g, b)`, followed by a reset.
pub open spec fn ansi_colored(text: Seq<char>, r: u8, g: u8, b: u8) -> Seq<char> {
    "\x1b[38;2;"@ + decimal(r as nat) + ";"@ + decimal(g as nat) + ";"@ + decimal(b as nat) + "m"@
        + text + "\x1b[0m"@
}

/// `text` coloured by `hex` where colour is on and `hex` parses, else `text` itself.
pub open spec fn colorized(text: Seq<char>, hex: Seq<char>, use_color: bool) -> Seq<char> {
    if !use_color {
        text
    } else {
        match rgb_of(hex) {
            Some((r, g, b)) => ansi_colored(text, r, g, b),
            None => text,
        }
    }
}

/// `text` in the colour `hex_color`, for a terminal that takes 24-bit colour.
pub fn colorize(text: &str, hex_color: &str, use_color: bool) -> (r: String)
    ensures
        r@ == colorized(text@, hex_color@, use_color),
{
    if !use_color {
        return String::from_str(text);
    }
    match hex_to_rgb(hex_color) {
        Some((r, g, b)) => {
            let out = String::from_str("\x1b[38;2;").concat(decimal_string(r as u64).as_str()).concat(
                ";",
            ).concat(decimal_string(g as u64).as_str()).concat(";").concat(
                decimal_string(b as u64).as_str(),
            ).concat("m").concat(text).concat("\x1b[0m");
            out
        },
        None => String::from_str(text),
    }
}

} // verus!
