//! The colour policy: the sign of an edge's payload picks one of two colours.

use vstd::prelude::*;

verus! {

/// The two colours an edge can have.
#[derive(Clone, Copy, Debug, PartialEq, Eq, Structural)]
pub enum EdgeColor {
    /// The payload is strictly positive.
    Warm,
    /// The payload is zero or negative.
    Cool,
}

/// A numeric payload: a value that can be compared with the zero of its type.
pub trait Payload {
    /// Whether the value is strictly greater than zero.
    spec fn positive(&self) -> bool;

    /// Compares the value with zero.
    fn is_positive(&self) -> (r: bool)
        ensures
            r == self.positive(),
    ;
}

/// The colour that the policy gives to a payload.
pub open spec fn color_of<E: Payload>(payload: &E) -> EdgeColor {
    if payload.positive() {
        EdgeColor::Warm
    } else {
        EdgeColor::Cool
    }
}

/// The colour of an edge with this payload: warm when the payload is
/// strictly positive, cool otherwise. Zero is cool.
pub fn color_for<E: Payload>(payload: &E) -> (color: EdgeColor)
    ensures
        color == color_of(payload),
        color == EdgeColor::Warm <==> payload.positive(),
        color == EdgeColor::Cool <==> !payload.positive(),
{
    if payload.is_positive() {
        EdgeColor::Warm
    } else {
        EdgeColor::Cool
    }
}

impl Payload for i8 {
    open spec fn positive(&self) -> bool {
        *self > 0
    }

    fn is_positive(&self) -> (r: bool) {
        *self > 0
    }
}

impl Payload for i16 {
    open spec fn positive(&self) -> bool {
        *self > 0
    }

    fn is_positive(&self) -> (r: bool) {
        *self > 0
    }
}

impl Payload for i32 {
    open spec fn positive(&self) -> bool {
        *self > 0
    }

    fn is_positive(&self) -> (r: bool) {
        *self > 0
    }
}

impl Payload for i64 {
    open spec fn positive(&self) -> bool {
        *self > 0
    }

    fn is_positive(&self) -> (r: bool) {
        *self > 0
    }
}

impl Payload for isize {
    open spec fn positive(&self) -> bool {
        *self > 0
    }

    fn is_positive(&self) -> (r: bool) {
        *self > 0
    }
}

impl Payload for u8 {
    open spec fn positive(&self) -> bool {
        *self > 0
    }

    fn is_positive(&self) -> (r: bool) {
        *self > 0
    }
}

impl Payload for u16 {
    open spec fn positive(&self) -> bool {
        *self > 0
    }

    fn is_positive(&self) -> (r: bool) {
        *self > 0
    }
}

impl Payload for u32 {
    open spec fn positive(&self) -> bool {
        *self > 0
    }

    fn is_positive(&self) -> (r: bool) {
        *self > 0
    }
}

impl Payload for u64 {
    open spec fn positive(&self) -> bool {
        *self > 0
    }

    fn is_positive(&self) -> (r: bool) {
        *self > 0
    }
}

impl Payload for usize {
    open spec fn positive(&self) -> bool {
        *self > 0
    }

    fn is_positive(&self) -> (r: bool) {
        *self > 0
    }
}

/// Four 8-bit channels: red, green, blue and alpha, as a renderer takes them.
#[derive(Clone, Copy, Debug, PartialEq, Eq, Structural)]
pub struct Rgba {
    pub r: u8,
    pub g: u8,
    pub b: u8,
    pub a: u8,
}

/// The value of a hexadecimal digit, if `c` is one.
pub open spec fn hex_value(c: char) -> Option<int> {
    if '0' <= c <= '9' {
        Some(c as int - '0' as int)
    } else if 'a' <= c <= 'f' {
        Some(c as int - 'a' as int + 10)
    } else if 'A' <= c <= 'F' {
        Some(c as int - 'A' as int + 10)
    } else {
        None
    }
}

/// A hash sign followed by exactly `digits` hexadecimal digits.
pub open spec fn is_hex_code(code: Seq<char>, digits: int) -> bool {
    &&& code.len() == digits + 1
    &&& code[0] == '#'
    &&& forall|i: int| 1 <= i <= digits ==> (#[trigger] hex_value(code[i])) is Some
}

/// The opaque colour that a three-digit code names: each digit is doubled.
pub open spec fn short_hex_channels(code: Seq<char>) -> Rgba {
    Rgba {
        r: (17 * hex_value(code[1]).unwrap()) as u8,
        g: (17 * hex_value(code[2]).unwrap()) as u8,
        b: (17 * hex_value(code[3]).unwrap()) as u8,
        a: 255,
    }
}

/// The opaque colour that a six-digit code names: two digits per channel.
pub open spec fn long_hex_channels(code: Seq<char>) -> Rgba {
    Rgba {
        r: (16 * hex_value(code[1]).unwrap() + hex_value(code[2]).unwrap()) as u8,
        g: (16 * hex_value(code[3]).unwrap() + hex_value(code[4]).unwrap()) as u8,
        b: (16 * hex_value(code[5]).unwrap() + hex_value(code[6]).unwrap()) as u8,
        a: 255,
    }
}

#[verifier::external_type_specification]
#[verifier::external_body]
pub struct ExParseHexColorError(egui::ecolor::ParseHexColorError);

/// Calls `egui::Color32::from_hex` and hands back the colour's four
/// channels. Believed, not proved: a code of three hexadecimal digits behind
/// a hash sign gives the opaque colour with each digit doubled; a code of six
/// gives the opaque colour with two digits per channel; a code that does not
/// start with a hash sign is an error. Nothing is claimed of the codes that
/// carry an alpha channel.
#[verifier::external_body]
fn parse_hex(code: &str) -> (res: Result<Rgba, egui::ecolor::ParseHexColorError>)
    ensures
        is_hex_code(code@, 3) ==> res.ok() == Some(short_hex_channels(code@)),
        is_hex_code(code@, 6) ==> res.ok() == Some(long_hex_channels(code@)),
        code@.len() == 0 || code@[0] != '#' ==> res is Err,
{
    match egui::Color32::from_hex(code) {
        Ok(color) => Ok(Rgba { r: color.r(), g: color.g(), b: color.b(), a: color.a() }),
        Err(e) => Err(e),
    }
}

impl EdgeColor {
    /// The colour's hexadecimal code: pure red for warm, pure blue for cool.
    pub open spec fn code(&self) -> Seq<char> {
        match self {
            EdgeColor::Warm => seq!['#', 'f', '0', '0'],
            EdgeColor::Cool => seq!['#', '0', '0', 'f'],
        }
    }

    /// The colour's channels: opaque pure red for warm, opaque pure blue for
    /// cool.
    pub open spec fn channels(&self) -> Rgba {
        match self {
            EdgeColor::Warm => Rgba { r: 255, g: 0, b: 0, a: 255 },
            EdgeColor::Cool => Rgba { r: 0, g: 0, b: 255, a: 255 },
        }
    }

    /// The colour's hexadecimal code.
    pub fn hex(&self) -> (code: &'static str)
        ensures
            code@ == self.code(),
    {
        match self {
            EdgeColor::Warm => {
                proof {
                    reveal_strlit("#f00");
                }
                "#f00"
            },
            EdgeColor::Cool => {
                proof {
                    reveal_strlit("#00f");
                }
                "#00f"
            },
        }
    }

    /// The colour's channels, parsed from its hexadecimal code.
    pub fn rgba(&self) -> (rgba: Rgba)
        ensures
            rgba == self.channels(),
    {
        let code = self.hex();
        proof {
            lemma_codes_are_short(*self);
        }
        match parse_hex(code) {
            Ok(rgba) => rgba,
            Err(_) => vstd::pervasive::unreached(),
        }
    }
}

/// Both colour codes are three-digit codes, and name the colours' channels.
pub proof fn lemma_codes_are_short(color: EdgeColor)
    ensures
        is_hex_code(color.code(), 3),
        short_hex_channels(color.code()) == color.channels(),
{
    let code = color.code();
    assert(hex_value('f') == Some(15int));
    assert(hex_value('0') == Some(0int));
    assert forall|i: int| 1 <= i <= 3 implies (#[trigger] hex_value(code[i])) is Some by {
        if i == 1 {
        } else if i == 2 {
        } else {
        }
    }
}

/// The policy on every payload: the colour is warm exactly when the payload
/// is strictly positive, and cool otherwise.
pub proof fn lemma_color_follows_sign<E: Payload>(payload: E)
    ensures
        color_of(&payload) == EdgeColor::Warm <==> payload.positive(),
        color_of(&payload) == EdgeColor::Cool <==> !payload.positive(),
{
}

/// The policy on signed integers: warm exactly above zero, and cool for zero
/// itself.
pub proof fn lemma_color_of_integer(payload: i64)
    ensures
        color_of(&payload) == EdgeColor::Warm <==> payload > 0,
        color_of(&payload) == EdgeColor::Cool <==> payload <= 0,
        color_of(&0i64) == EdgeColor::Cool,
{
}

} // verus!
