//! Colors: hex parsing, comma-separated lists, and the flat channel layout
//! that the color storage buffer is filled from.
//!
//! A color is held as four 8-bit channels. The renderer consumes each channel
//! divided by 255; that division is left to the caller, which owns the
//! numeric format of the GPU payload.

use vstd::prelude::*;
use vstd::string::StringSliceAdditionalSpecFns;
use vstd::utf8::{encode_utf8, is_ascii_chars, is_ascii_chars_encode_utf8};

verus! {

/// An RGBA color, one byte per channel.
#[derive(Clone, Copy, Debug, PartialEq, Eq, Hash, Structural)]
pub struct Color {
    pub r: u8,
    pub g: u8,
    pub b: u8,
    pub a: u8,
}

/// Why a color string was rejected.
#[derive(Clone, Copy, Debug, PartialEq, Eq, Structural)]
pub enum ColorError {
    /// The text is not exactly six hexadecimal digits.
    InvalidColorFormat,
}

/// The ASCII code of the separator of a color list.
pub const COMMA: u8 = 44;

/// The value of one hexadecimal digit given as an ASCII byte, in either case.
pub open spec fn hex_value(digit: u8) -> Option<u8> {
    if 48 <= digit <= 57 {
        Some((digit - 48) as u8)
    } else if 97 <= digit <= 102 {
        Some((digit - 87) as u8)
    } else if 65 <= digit <= 70 {
        Some((digit - 55) as u8)
    } else {
        None
    }
}

/// `text` is exactly six hexadecimal digits.
pub open spec fn is_hex_color(text: Seq<u8>) -> bool {
    &&& text.len() == 6
    &&& forall|i: int| 0 <= i < 6 ==> hex_value(#[trigger] text[i]) is Some
}

/// The byte written by the two digits `high` and `low`.
pub open spec fn hex_pair(high: u8, low: u8) -> u8 {
    (16 * hex_value(high).unwrap() + hex_value(low).unwrap()) as u8
}

/// The opaque color that six hexadecimal digits stand for: `rrggbb`.
pub open spec fn hex_color(text: Seq<u8>) -> Color {
    Color {
        r: hex_pair(text[0], text[1]),
        g: hex_pair(text[2], text[3]),
        b: hex_pair(text[4], text[5]),
        a: 255,
    }
}

/// What parsing one color yields.
pub open spec fn parse_hex(text: Seq<u8>) -> Result<Color, ColorError> {
    if is_hex_color(text) {
        Ok(hex_color(text))
    } else {
        Err(ColorError::InvalidColorFormat)
    }
}

/// What parsing a list of color texts yields: every color in order, or the
/// error as soon as one text is no color.
pub open spec fn parse_all(texts: Seq<Seq<u8>>) -> Result<Seq<Color>, ColorError> {
    if forall|i: int| 0 <= i < texts.len() ==> is_hex_color(#[trigger] texts[i]) {
        Ok(Seq::new(texts.len(), |i: int| hex_color(texts[i])))
    } else {
        Err(ColorError::InvalidColorFormat)
    }
}

/// The pieces of `text` between its commas, in order. A text with `n` commas
/// has `n + 1` pieces; a piece may be empty.
pub open spec fn split_commas(text: Seq<u8>) -> Seq<Seq<u8>>
    decreases text.len(),
{
    if text.len() == 0 {
        seq![Seq::<u8>::empty()]
    } else {
        let before = split_commas(text.drop_last());
        if text.last() == COMMA {
            before.push(Seq::<u8>::empty())
        } else {
            before.drop_last().push(before.last().push(text.last()))
        }
    }
}

/// The four channels of every color, in input order: red, green, blue, alpha.
pub open spec fn flatten(colors: Seq<Color>) -> Seq<u8> {
    Seq::new(4 * colors.len(), |j: int| channel(colors[j / 4], j % 4))
}

/// Channel `k` of `color`, counted red, green, blue, alpha.
pub open spec fn channel(color: Color, k: int) -> u8 {
    if k == 0 {
        color.r
    } else if k == 1 {
        color.g
    } else if k == 2 {
        color.b
    } else {
        color.a
    }
}

/// The views of the strings of `texts` as UTF-8 bytes.
pub open spec fn texts_bytes(texts: Seq<&str>) -> Seq<Seq<u8>> {
    Seq::new(texts.len(), |i: int| texts[i].spec_bytes())
}

fn hex_digit(digit: u8) -> (value: Option<u8>)
    ensures
        value == hex_value(digit),
        value matches Some(v) ==> v < 16,
{
    if 48 <= digit && digit <= 57 {
        Some(digit - 48)
    } else if 97 <= digit && digit <= 102 {
        Some(digit - 87)
    } else if 65 <= digit && digit <= 70 {
        Some(digit - 55)
    } else {
        None
    }
}

fn hex_byte(high: u8, low: u8) -> (value: Option<u8>)
    ensures
        value is Some <==> hex_value(high) is Some && hex_value(low) is Some,
        value matches Some(v) ==> v == hex_pair(high, low),
{
    match (hex_digit(high), hex_digit(low)) {
        (Some(h), Some(l)) => Some(16 * h + l),
        _ => None,
    }
}

/// Parses the color written in `bytes[start..end]`.
fn hex_at(bytes: &[u8], start: usize, end: usize) -> (color: Result<Color, ColorError>)
    requires
        start <= end <= bytes@.len(),
    ensures
        color == parse_hex(bytes@.subrange(start as int, end as int)),
{
    let ghost text = bytes@.subrange(start as int, end as int);
    if end - start != 6 {
        return Err(ColorError::InvalidColorFormat);
    }
    let red = hex_byte(bytes[start], bytes[start + 1]);
    let green = hex_byte(bytes[start + 2], bytes[start + 3]);
    let blue = hex_byte(bytes[start + 4], bytes[start + 5]);
    match (red, green, blue) {
        (Some(r), Some(g), Some(b)) => Ok(Color { r, g, b, a: 255 }),
        _ => {
            assert(!is_hex_color(text));
            Err(ColorError::InvalidColorFormat)
        },
    }
}

/// Converts a hex string `rrggbb` into a color with full alpha.
///
/// No leading `#`: it is reserved in URLs. Any text that is not exactly six
/// hexadecimal digits is rejected.
pub fn from_hex(hex: &str) -> (color: Result<Color, ColorError>)
    ensures
        color == parse_hex(hex.spec_bytes()),
{
    let bytes = hex.as_bytes();
    hex_at(bytes, 0, bytes.len())
}

/// Converts each hex string of `hex`, failing on the first that is no color.
pub fn vec_from_hex(hex: &[&str]) -> (colors: Result<Vec<Color>, ColorError>)
    ensures
        match colors {
            Ok(list) => parse_all(texts_bytes(hex@)) == Ok::<Seq<Color>, ColorError>(list@),
            Err(e) => parse_all(texts_bytes(hex@)) == Err::<Seq<Color>, ColorError>(e),
        },
{
    let ghost texts = texts_bytes(hex@);
    let mut list: Vec<Color> = Vec::new();
    let mut i: usize = 0;
    while i < hex.len()
        invariant
            i <= hex@.len(),
            texts == texts_bytes(hex@),
            list@.len() == i,
            forall|j: int| 0 <= j < i ==> is_hex_color(#[trigger] texts[j]),
            forall|j: int| 0 <= j < i ==> list@[j] == hex_color(#[trigger] texts[j]),
        decreases hex@.len() - i,
    {
        match from_hex(hex[i]) {
            Ok(color) => {
                list.push(color);
            },
            Err(e) => {
                assert(!is_hex_color(texts[i as int]));
                return Err(e);
            },
        }
        i += 1;
    }
    assert(list@ =~= Seq::new(texts.len(), |i: int| hex_color(texts[i])));
    Ok(list)
}

/// Parses a comma-separated list of hex colors, such as `ffffff,11ffff`.
///
/// Every piece between two commas must be a color: an empty list, a
/// trailing comma or a doubled comma is rejected.
pub fn parse_color_list(csv: &str) -> (colors: Result<Vec<Color>, ColorError>)
    ensures
        match colors {
            Ok(list) => parse_all(split_commas(csv.spec_bytes())) == Ok::<Seq<Color>, ColorError>(
                list@,
            ),
            Err(e) => parse_all(split_commas(csv.spec_bytes())) == Err::<Seq<Color>, ColorError>(e),
        },
{
    let bytes = csv.as_bytes();
    let n = bytes.len();
    let mut list: Vec<Color> = Vec::new();
    let mut start: usize = 0;
    let mut i: usize = 0;
    while i < n
        invariant
            n == bytes@.len(),
            bytes@ == csv.spec_bytes(),
            start <= i <= n,
            split_commas(bytes@.take(i as int)).len() == list@.len() + 1,
            split_commas(bytes@.take(i as int)).last() == bytes@.subrange(start as int, i as int),
            forall|j: int|
                0 <= j < list@.len() ==> is_hex_color(
                    #[trigger] split_commas(bytes@.take(i as int))[j],
                ),
            forall|j: int|
                0 <= j < list@.len() ==> list@[j] == hex_color(
                    #[trigger] split_commas(bytes@.take(i as int))[j],
                ),
        decreases n - i,
    {
        assert(bytes@.take(i + 1).drop_last() =~= bytes@.take(i as int));
        if bytes[i] == COMMA {
            match hex_at(bytes, start, i) {
                Ok(color) => {
                    list.push(color);
                },
                Err(e) => {
                    proof {
                        lemma_split_keeps_closed_pieces(bytes@, i + 1, list@.len() as int);
                    }
                    return Err(e);
                },
            }
            start = i + 1;
        } else {
            assert(bytes@.subrange(start as int, i + 1) =~= bytes@.subrange(
                start as int,
                i as int,
            ).push(bytes@[i as int]));
        }
        i += 1;
    }
    assert(bytes@.take(n as int) =~= bytes@);
    let ghost pieces = split_commas(bytes@);
    match hex_at(bytes, start, n) {
        Ok(color) => {
            list.push(color);
            assert(list@ =~= Seq::new(pieces.len(), |i: int| hex_color(pieces[i])));
            Ok(list)
        },
        Err(e) => Err(e),
    }
}

/// A piece that a comma has closed is not changed by the text that follows:
/// piece `k` of the first `upto` bytes is piece `k` of the whole text,
/// whenever the first `upto` bytes hold more than `k + 1` pieces.
pub proof fn lemma_split_keeps_closed_pieces(text: Seq<u8>, upto: int, k: int)
    requires
        0 <= upto <= text.len(),
        0 <= k < split_commas(text.take(upto)).len() - 1,
    ensures
        k < split_commas(text).len() - 1,
        split_commas(text)[k] == split_commas(text.take(upto))[k],
    decreases text.len() - upto,
{
    if upto == text.len() {
        assert(text.take(upto) =~= text);
    } else {
        assert(text.take(upto + 1).drop_last() =~= text.take(upto));
        lemma_split_keeps_closed_pieces(text, upto + 1, k);
    }
}

/// Splitting at commas gives at least one piece.
pub proof fn lemma_split_not_empty(text: Seq<u8>)
    ensures
        split_commas(text).len() >= 1,
    decreases text.len(),
{
    if text.len() > 0 {
        lemma_split_not_empty(text.drop_last());
    }
}

/// `c` is a hexadecimal digit, in either case.
pub open spec fn is_hex_digit(c: char) -> bool {
    ||| '0' <= c <= '9'
    ||| 'a' <= c <= 'f'
    ||| 'A' <= c <= 'F'
}

/// Read as characters: an ASCII text is a color exactly when it is six
/// hexadecimal digits, and the color has the values of its three digit
/// pairs and full alpha.
pub proof fn lemma_parse_hex_of_text(text: Seq<char>)
    requires
        is_ascii_chars(text),
    ensures
        is_hex_color(encode_utf8(text)) <==> text.len() == 6 && forall|i: int|
            0 <= i < 6 ==> is_hex_digit(#[trigger] text[i]),
        parse_hex(encode_utf8(text)) matches Ok(color) ==> {
            &&& color.r == hex_pair(text[0] as u8, text[1] as u8)
            &&& color.g == hex_pair(text[2] as u8, text[3] as u8)
            &&& color.b == hex_pair(text[4] as u8, text[5] as u8)
            &&& color.a == 255
        },
{
    let bytes = encode_utf8(text);
    is_ascii_chars_encode_utf8(text);
    assert(forall|i: int|
        0 <= i < text.len() ==> (hex_value(#[trigger] bytes[i]) is Some <==> is_hex_digit(
            text[i],
        )));
}

/// Flattens a color into its four channels: red, green, blue, alpha.
pub fn color_raw(color: &Color) -> (raw: [u8; 4])
    ensures
        raw@ == seq![color.r, color.g, color.b, color.a],
{
    [color.r, color.g, color.b, color.a]
}

/// Flattens a list of colors into the channel sequence that fills the color
/// storage buffer: four consecutive values per color, in input order.
pub fn to_raw_colors(colors: &[Color]) -> (raw: Vec<u8>)
    ensures
        raw@ == flatten(colors@),
        raw@.len() == 4 * colors@.len(),
{
    let mut raw: Vec<u8> = Vec::new();
    let mut i: usize = 0;
    while i < colors.len()
        invariant
            i <= colors@.len(),
            raw@.len() == 4 * i,
            forall|j: int| 0 <= j < 4 * i ==> raw@[j] == channel(colors@[j / 4], j % 4),
        decreases colors@.len() - i,
    {
        let color = colors[i];
        raw.push(color.r);
        raw.push(color.g);
        raw.push(color.b);
        raw.push(color.a);
        i += 1;
    }
    raw
}

} // verus!
