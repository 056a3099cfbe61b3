//! Paint colors of color-font layers and their hex rendering.

use vstd::prelude::*;
use vstd::string::StringExecFns;

verus! {

/// An RGBA color of a color-glyph paint layer, in the sRGB color space.
#[derive(Clone, Copy, PartialEq, Eq, Structural, Debug)]
pub struct Rgba {
    pub red: u8,
    pub green: u8,
    pub blue: u8,
    pub alpha: u8,
}

impl Rgba {
    /// Fully transparent black: the color reported for a layer that never
    /// recorded a paint.
    pub fn zero() -> (r: Rgba)
        ensures
            r == (Rgba { red: 0, green: 0, blue: 0, alpha: 0 }),
    {
        Rgba { red: 0, green: 0, blue: 0, alpha: 0 }
    }

    /// Opaque black: the foreground color handed to a paint traversal and
    /// the fallback for a gradient without stops.
    pub fn opaque_black() -> (r: Rgba)
        ensures
            r == (Rgba { red: 0, green: 0, blue: 0, alpha: 255 }),
    {
        Rgba { red: 0, green: 0, blue: 0, alpha: 255 }
    }
}

/// The lower-case hex digit of a value below sixteen.
pub open spec fn hex_digit(v: int) -> char {
    if v == 0 {
        '0'
    } else if v == 1 {
        '1'
    } else if v == 2 {
        '2'
    } else if v == 3 {
        '3'
    } else if v == 4 {
        '4'
    } else if v == 5 {
        '5'
    } else if v == 6 {
        '6'
    } else if v == 7 {
        '7'
    } else if v == 8 {
        '8'
    } else if v == 9 {
        '9'
    } else if v == 10 {
        'a'
    } else if v == 11 {
        'b'
    } else if v == 12 {
        'c'
    } else if v == 13 {
        'd'
    } else if v == 14 {
        'e'
    } else {
        'f'
    }
}

/// A byte as two lower-case hex digits.
pub open spec fn hex_byte_chars(v: u8) -> Seq<char> {
    seq![hex_digit(v as int / 16), hex_digit(v as int % 16)]
}

/// A color as `#rrggbbaa`.
pub open spec fn hex_color_chars(c: Rgba) -> Seq<char> {
    seq!['#'] + hex_byte_chars(c.red) + hex_byte_chars(c.green) + hex_byte_chars(c.blue)
        + hex_byte_chars(c.alpha)
}

/// The color column entry of a layer: its recorded paint color, or
/// `#00000000` when the layer never recorded one.
pub open spec fn layer_color_chars(c: Option<Rgba>) -> Seq<char> {
    match c {
        Some(col) => hex_color_chars(col),
        None => hex_color_chars(Rgba { red: 0, green: 0, blue: 0, alpha: 0 }),
    }
}

/// One lower-case hex digit as a string slice.
fn hex_digit_str(v: u8) -> (r: &'static str)
    requires
        v < 16,
    ensures
        r@ == seq![hex_digit(v as int)],
{
    proof {
        reveal_strlit("0");
        reveal_strlit("1");
        reveal_strlit("2");
        reveal_strlit("3");
        reveal_strlit("4");
        reveal_strlit("5");
        reveal_strlit("6");
        reveal_strlit("7");
        reveal_strlit("8");
        reveal_strlit("9");
        reveal_strlit("a");
        reveal_strlit("b");
        reveal_strlit("c");
        reveal_strlit("d");
        reveal_strlit("e");
        reveal_strlit("f");
    }
    let r: &'static str = match v {
        0 => "0",
        1 => "1",
        2 => "2",
        3 => "3",
        4 => "4",
        5 => "5",
        6 => "6",
        7 => "7",
        8 => "8",
        9 => "9",
        10 => "a",
        11 => "b",
        12 => "c",
        13 => "d",
        14 => "e",
        _ => "f",
    };
    proof {
        assert(r@ =~= seq![hex_digit(v as int)]);
    }
    r
}

/// Appends a byte as two lower-case hex digits.
fn push_hex_byte(s: &mut String, v: u8)
    ensures
        final(s)@ == old(s)@ + hex_byte_chars(v),
{
    s.append(hex_digit_str(v / 16));
    s.append(hex_digit_str(v % 16));
    proof {
        assert(s@ =~= old(s)@ + hex_byte_chars(v));
    }
}

/// Renders a layer's color column entry: `#rrggbbaa` for a recorded color,
/// `#00000000` for a layer without one.
pub fn format_layer_color(c: &Option<Rgba>) -> (r: String)
    ensures
        r@ == layer_color_chars(*c),
{
    let col: Rgba = match c {
        Some(x) => *x,
        None => Rgba::zero(),
    };
    let mut s = String::new();
    s.append("#");
    push_hex_byte(&mut s, col.red);
    push_hex_byte(&mut s, col.green);
    push_hex_byte(&mut s, col.blue);
    push_hex_byte(&mut s, col.alpha);
    proof {
        reveal_strlit("#");
        assert(s@ =~= layer_color_chars(*c));
    }
    s
}

} // verus!
