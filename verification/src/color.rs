//! Color encoding of animation-art characters.
//!
//! Each character of the art alphabet maps to one fixed escape sequence: a
//! 256-color background selector followed by two blank cells, so that one
//! art character occupies two character columns on the client display. The
//! mapping is a closed, pure function of the character alone; identical
//! input yields byte-identical output on every transport.

use vstd::prelude::*;

verus! {

/// Byte value of `,` (rain).
pub const ART_COMMA: u8 = 44;

/// Byte value of `.` (stars).
pub const ART_DOT: u8 = 46;

/// Byte value of `'` (void).
pub const ART_QUOTE: u8 = 39;

/// Byte value of `@` (toast).
pub const ART_AT: u8 = 64;

/// Byte value of `$` (fur).
pub const ART_DOLLAR: u8 = 36;

/// Byte value of `-` (blush).
pub const ART_DASH: u8 = 45;

/// Byte value of `>` (rainbow red).
pub const ART_GT: u8 = 62;

/// Byte value of `&` (outline).
pub const ART_AMP: u8 = 38;

/// Byte value of `+` (sparkle).
pub const ART_PLUS: u8 = 43;

/// Byte value of `#` (rainbow orange).
pub const ART_HASH: u8 = 35;

/// Byte value of `=` (rainbow yellow).
pub const ART_EQ: u8 = 61;

/// Byte value of `;` (rainbow green).
pub const ART_SEMI: u8 = 59;

/// Byte value of `*` (rainbow cyan).
pub const ART_STAR: u8 = 42;

/// Byte value of `%` (rainbow violet).
pub const ART_PCT: u8 = 37;

/// The closed alphabet of art characters the animation data may contain.
pub open spec fn is_art_char(c: u8) -> bool {
    ||| c == ART_COMMA
    ||| c == ART_DOT
    ||| c == ART_QUOTE
    ||| c == ART_AT
    ||| c == ART_DOLLAR
    ||| c == ART_DASH
    ||| c == ART_GT
    ||| c == ART_AMP
    ||| c == ART_PLUS
    ||| c == ART_HASH
    ||| c == ART_EQ
    ||| c == ART_SEMI
    ||| c == ART_STAR
    ||| c == ART_PCT
}

/// The 256-color palette index each art character is drawn with. Every
/// index has three decimal digits, so every encoded cell has the same
/// byte length.
pub open spec fn color_index(c: u8) -> int {
    if c == ART_COMMA {
        111  // rain: blue
    } else if c == ART_DOT {
        231  // stars: white
    } else if c == ART_QUOTE {
        232  // void: black
    } else if c == ART_AT {
        223  // toast: tan
    } else if c == ART_DOLLAR {
        218  // fur: pink
    } else if c == ART_DASH {
        161  // blush: dark pink
    } else if c == ART_GT {
        196  // rainbow: red
    } else if c == ART_AMP {
        243  // outline: gray
    } else if c == ART_PLUS {
        217  // sparkle: salmon
    } else if c == ART_HASH {
        208  // rainbow: orange
    } else if c == ART_EQ {
        226  // rainbow: yellow
    } else if c == ART_SEMI {
        118  // rainbow: green
    } else if c == ART_STAR {
        123  // rainbow: cyan
    } else {
        135  // rainbow: violet
    }
}

/// The exact escape sequence an art character is rendered as: set the
/// background to `color_index(c)` and emit two blank cells. Thirteen bytes:
/// `ESC [ 4 8 ; 5 ; d d d m SPACE SPACE`.
pub open spec fn color_cell(c: u8) -> Seq<u8> {
    seq![
        27u8,
        91u8,
        52u8,
        56u8,
        59u8,
        53u8,
        59u8,
        (48 + color_index(c) / 100) as u8,
        (48 + (color_index(c) / 10) % 10) as u8,
        (48 + color_index(c) % 10) as u8,
        109u8,
        32u8,
        32u8,
    ]
}

/// Number of bytes in every encoded cell.
pub const CELL_BYTES: usize = 13;

/// Palette index of an art character, as executable code.
pub fn palette_index(c: u8) -> (r: u8)
    requires
        is_art_char(c),
    ensures
        r as int == color_index(c),
{
    if c == ART_COMMA {
        111
    } else if c == ART_DOT {
        231
    } else if c == ART_QUOTE {
        232
    } else if c == ART_AT {
        223
    } else if c == ART_DOLLAR {
        218
    } else if c == ART_DASH {
        161
    } else if c == ART_GT {
        196
    } else if c == ART_AMP {
        243
    } else if c == ART_PLUS {
        217
    } else if c == ART_HASH {
        208
    } else if c == ART_EQ {
        226
    } else if c == ART_SEMI {
        118
    } else if c == ART_STAR {
        123
    } else {
        135
    }
}

/// Test membership in the art alphabet, as executable code.
pub fn art_char(c: u8) -> (r: bool)
    ensures
        r == is_art_char(c),
{
    c == ART_COMMA || c == ART_DOT || c == ART_QUOTE || c == ART_AT || c == ART_DOLLAR
        || c == ART_DASH || c == ART_GT || c == ART_AMP || c == ART_PLUS || c == ART_HASH
        || c == ART_EQ || c == ART_SEMI || c == ART_STAR || c == ART_PCT
}

/// Encode one art character as its escape sequence.
///
/// The animation data is a trusted static asset, so a character outside the
/// alphabet is a corrupted asset, not a runtime condition: callers establish
/// `is_art_char` up front (see `render_color_checked` for the total variant).
pub fn render_color(c: u8) -> (r: Vec<u8>)
    requires
        is_art_char(c),
    ensures
        r@ == color_cell(c),
        r@.len() == CELL_BYTES,
{
    let idx: u8 = palette_index(c);
    let mut r: Vec<u8> = Vec::new();
    r.push(27);
    r.push(91);
    r.push(52);
    r.push(56);
    r.push(59);
    r.push(53);
    r.push(59);
    r.push(48 + idx / 100);
    r.push(48 + (idx / 10) % 10);
    r.push(48 + idx % 10);
    r.push(109);
    r.push(32);
    r.push(32);
    proof {
        assert(r@ =~= color_cell(c));
    }
    r
}

/// Total variant of `render_color`: encodes every character of the art
/// alphabet and reports a character outside it instead of failing, for
/// validating animation data up front.
pub fn render_color_checked(c: u8) -> (r: Option<Vec<u8>>)
    ensures
        r is Some <==> is_art_char(c),
        r is Some ==> r->Some_0@ == color_cell(c),
{
    if art_char(c) {
        Some(render_color(c))
    } else {
        None
    }
}

/// Color encoding is deterministic: two encodings of the same character are
/// byte-identical, because the encoding is a function of the character alone.
pub proof fn lemma_color_encoding_deterministic(c: u8, a: Seq<u8>, b: Seq<u8>)
    requires
        a == color_cell(c),
        b == color_cell(c),
    ensures
        a == b,
{
}

} // verus!
