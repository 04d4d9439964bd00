use vstd::prelude::*;
use vstd::string::StringSliceAdditionalSpecFns;

verus! {

/// A color represented by three `u8` components.
#[derive(Clone, Copy, PartialEq, Eq, Structural, Debug, Hash)]
pub struct Rgb {
    /// The red component.
    pub r: u8,
    /// The green component.
    pub g: u8,
    /// The blue component.
    pub b: u8,
}

/// `c + d` when it stays within `0..=255`.
pub open spec fn add_channel(c: u8, d: i8) -> Option<u8> {
    let v = c as int + d as int;
    if 0 <= v && v <= 255 {
        Some(v as u8)
    } else {
        None
    }
}

/// The color shifted by three signed deltas, or `None` when a component leaves `0..=255`.
pub open spec fn shifted(c: Rgb, dr: i8, dg: i8, db: i8) -> Option<Rgb> {
    match (add_channel(c.r, dr), add_channel(c.g, dg), add_channel(c.b, db)) {
        (Some(r), Some(g), Some(b)) => Some(Rgb { r, g, b }),
        _ => None,
    }
}

/// The square of `x`.
pub open spec fn sq(x: int) -> int {
    x * x
}

/// The squared Euclidean distance between two colors.
pub open spec fn sq_distance(a: Rgb, b: Rgb) -> int {
    sq(a.r as int - b.r as int) + sq(a.g as int - b.g as int) + sq(a.b as int - b.b as int)
}

/// The value of an ASCII hexadecimal digit, either case.
pub open spec fn hex_digit(c: u8) -> Option<u32> {
    if 48 <= c && c <= 57 {
        Some((c - 48) as u32)
    } else if 97 <= c && c <= 102 {
        Some((c - 87) as u32)
    } else if 65 <= c && c <= 70 {
        Some((c - 55) as u32)
    } else {
        None
    }
}

/// The base-16 value of a run of digits, most significant first.
pub open spec fn hex_value(s: Seq<u8>) -> Option<int>
    decreases s.len(),
{
    if s.len() == 0 {
        Some(0)
    } else {
        match (hex_value(s.drop_last()), hex_digit(s.last())) {
            (Some(v), Some(d)) => Some(v * 16 + d),
            _ => None,
        }
    }
}

/// What the six characters after `#` denote as an unsigned number: hexadecimal
/// digits, optionally after one leading `+`.
pub open spec fn hex_number(s: Seq<u8>) -> Option<int> {
    if s.len() > 1 && s[0] == 43u8 {
        hex_value(s.drop_first())
    } else if s.len() > 0 {
        hex_value(s)
    } else {
        None
    }
}

/// The color whose components are the three bytes of a 24-bit number, red first.
pub open spec fn rgb_of_number(v: int) -> Rgb {
    Rgb { r: (v / 65536) as u8, g: ((v / 256) % 256) as u8, b: (v % 256) as u8 }
}

/// What `from_hex` gives for a string with the bytes `s`.
pub open spec fn parse_hex(s: Seq<u8>) -> Result<Rgb, ParseHexError> {
    if s.len() != 7 {
        Err(ParseHexError::BadLen)
    } else if s[0] != 35u8 {
        Err(ParseHexError::MissingHash)
    } else {
        match hex_number(s.subrange(1, 7)) {
            Some(v) => Ok(rgb_of_number(v)),
            None => Err(ParseHexError::BadInt),
        }
    }
}

/// An error that can be returned when parsing a hexadecimal color.
#[derive(Clone, Copy, PartialEq, Eq, Structural, Debug, Hash)]
pub enum ParseHexError {
    /// The string length is not seven (`#rrggbb`).
    BadLen,
    /// The string does not begin with a hash (`#`).
    MissingHash,
    /// The string contains an invalid digit.
    BadInt,
}

/// Sixteen to the power `n`.
pub open spec fn pow16(n: nat) -> int
    decreases n,
{
    if n == 0 {
        1
    } else {
        16 * pow16((n - 1) as nat)
    }
}

/// The value of one ASCII hexadecimal digit.
fn digit_value(c: u8) -> (r: Option<u32>)
    ensures
        r == hex_digit(c),
{
    if 48 <= c && c <= 57 {
        Some((c - 48) as u32)
    } else if 97 <= c && c <= 102 {
        Some((c - 87) as u32)
    } else if 65 <= c && c <= 70 {
        Some((c - 55) as u32)
    } else {
        None
    }
}

impl Rgb {
    /// Creates a new color.
    pub fn new(r: u8, g: u8, b: u8) -> (c: Rgb)
        ensures
            c == (Rgb { r, g, b }),
    {
        Rgb { r, g, b }
    }

    /// Creates a new color with all three components set to the same value.
    pub fn gray(rgb: u8) -> (c: Rgb)
        ensures
            c == (Rgb { r: rgb, g: rgb, b: rgb }),
    {
        Rgb { r: rgb, g: rgb, b: rgb }
    }

    /// Parses a hex color of the form `#rrggbb`.
    pub fn from_hex(s: &str) -> (res: Result<Rgb, ParseHexError>)
        ensures
            res == parse_hex(s.spec_bytes()),
    {
        let bytes = s.as_bytes();
        if bytes.len() != 7 {
            return Err(ParseHexError::BadLen);
        }
        if bytes[0] != 35u8 {
            return Err(ParseHexError::MissingHash);
        }
        let ghost digits = bytes@.subrange(1, 7);
        let mut start: usize = 1;
        if bytes[1] == 43u8 {
            start = 2;
        }
        let ghost body = bytes@.subrange(start as int, 7);
        assert(hex_number(digits) == hex_value(body)) by {
            if start == 2 {
                assert(digits.drop_first() == body);
            } else {
                assert(digits == body);
            }
        }
        let mut v: u32 = 0;
        let mut i: usize = start;
        while i < 7
            invariant
                bytes@ == s.spec_bytes(),
                bytes@.len() == 7,
                bytes@[0] == 35u8,
                digits == bytes@.subrange(1, 7),
                hex_number(digits) == hex_value(body),
                1 <= start <= 2,
                start <= i <= 7,
                body == bytes@.subrange(start as int, 7),
                hex_value(bytes@.subrange(start as int, i as int)) == Some(v as int),
                v < pow16((i - start) as nat),
            decreases 7 - i,
        {
            let d = digit_value(bytes[i]);
            let ghost prefix = bytes@.subrange(start as int, i as int);
            let ghost next = bytes@.subrange(start as int, i + 1);
            assert(next.drop_last() == prefix);
            match d {
                None => {
                    proof {
                        lemma_hex_value_none(body, (i - start) as nat);
                    }
                    return Err(ParseHexError::BadInt);
                },
                Some(dv) => {
                    assert(pow16((i + 1 - start) as nat) == 16 * pow16((i - start) as nat));
                    assert(v * 16 + dv < 16 * pow16((i - start) as nat)) by (nonlinear_arith)
                        requires
                            v < pow16((i - start) as nat),
                            dv < 16,
                    ;
                    assert(pow16((i - start) as nat) <= pow16(5)) by {
                        lemma_pow16_mono((i - start) as nat, 5);
                    }
                    assert(pow16(5) == 1048576) by {
                        reveal_with_fuel(pow16, 6);
                    }
                    v = v * 16 + dv;
                },
            }
            i = i + 1;
        }
        proof {
            assert(bytes@.subrange(start as int, i as int) == body);
            lemma_pow16_mono((7 - start) as nat, 6);
            assert(pow16(6) == 16777216) by {
                reveal_with_fuel(pow16, 7);
            }
        }
        let r = (v / 65536) as u8;
        let g = ((v / 256) % 256) as u8;
        let b = (v % 256) as u8;
        Ok(Rgb { r, g, b })
    }

    /// Checked addition with three signed components: `None` if a component
    /// would leave `0..=255`.
    pub fn checked_add_signed(self, r: i8, g: i8, b: i8) -> (res: Option<Rgb>)
        ensures
            res == shifted(self, r, g, b),
    {
        let nr = self.r as i16 + r as i16;
        let ng = self.g as i16 + g as i16;
        let nb = self.b as i16 + b as i16;
        if nr < 0 || nr > 255 || ng < 0 || ng > 255 || nb < 0 || nb > 255 {
            None
        } else {
            Some(Rgb { r: nr as u8, g: ng as u8, b: nb as u8 })
        }
    }

    /// The squared Euclidean distance between `self` and `other`.
    pub fn distance(self, other: Rgb) -> (d: u32)
        ensures
            d as int == sq_distance(self, other),
    {
        let dx = self.r as i32 - other.r as i32;
        let dy = self.g as i32 - other.g as i32;
        let dz = self.b as i32 - other.b as i32;
        assert(0 <= dx * dx <= 65025) by (nonlinear_arith)
            requires
                -255 <= dx <= 255,
        ;
        assert(0 <= dy * dy <= 65025) by (nonlinear_arith)
            requires
                -255 <= dy <= 255,
        ;
        assert(0 <= dz * dz <= 65025) by (nonlinear_arith)
            requires
                -255 <= dz <= 255,
        ;
        (dx * dx) as u32 + (dy * dy) as u32 + (dz * dz) as u32
    }
}

/// Powers of sixteen grow with the exponent.
proof fn lemma_pow16_mono(a: nat, b: nat)
    requires
        a <= b,
    ensures
        pow16(a) <= pow16(b),
        pow16(a) >= 1,
    decreases b,
{
    if b > a {
        lemma_pow16_mono(a, (b - 1) as nat);
    } else if a > 0 {
        lemma_pow16_mono((a - 1) as nat, (a - 1) as nat);
    }
}

/// A run whose digit at `k` is not hexadecimal has no value.
proof fn lemma_hex_value_none(s: Seq<u8>, k: nat)
    requires
        k < s.len(),
        hex_digit(s[k as int]) is None,
    ensures
        hex_value(s) is None,
    decreases s.len(),
{
    if k < s.len() - 1 {
        lemma_hex_value_none(s.drop_last(), k);
    }
}

/// The text color that stays readable on background `bg`: white on dark
/// colors, black on light ones.
pub open spec fn contrasting(bg: Rgb) -> Rgb {
    if sq_distance(bg, Rgb { r: 255, g: 255, b: 255 }) >= 3 * 128 * 128 {
        Rgb { r: 255, g: 255, b: 255 }
    } else {
        Rgb { r: 0, g: 0, b: 0 }
    }
}

impl Rgb {
    /// White or black, whichever reads better as text on `self`: white when
    /// `self` is at least as far from white as mid-gray `(127, 127, 127)` is.
    pub fn contrasting_text_color(self) -> (fg: Rgb)
        ensures
            fg == contrasting(self),
    {
        // the distance from (127, 127, 127) to white
        let limit: u32 = 3 * 128 * 128;
        if self.distance(Rgb::gray(255)) >= limit {
            Rgb::gray(255)
        } else {
            Rgb::gray(0)
        }
    }
}

impl From<u32> for Rgb {
    /// Converts a `u32` in `RRGGBBAA` format to its color; the alpha bits are ignored.
    fn from(value: u32) -> (c: Rgb) {
        Rgb {
            r: (value / 0x100_0000) as u8,
            g: ((value / 0x1_0000) % 0x100) as u8,
            b: ((value / 0x100) % 0x100) as u8,
        }
    }
}

impl vstd::std_specs::convert::FromSpecImpl<u32> for Rgb {
    open spec fn obeys_from_spec() -> bool {
        true
    }

    open spec fn from_spec(value: u32) -> Rgb {
        Rgb {
            r: (value / 0x100_0000) as u8,
            g: ((value / 0x1_0000) % 0x100) as u8,
            b: ((value / 0x100) % 0x100) as u8,
        }
    }
}

impl From<Rgb> for u32 {
    /// Converts a color to a `u32` in `RRGGBBAA` format, with the alpha bits set to `0xFF`.
    fn from(value: Rgb) -> (v: u32) {
        value.r as u32 * 0x100_0000 + value.g as u32 * 0x1_0000 + value.b as u32 * 0x100 + 0xFF
    }
}

impl vstd::std_specs::convert::FromSpecImpl<Rgb> for u32 {
    open spec fn obeys_from_spec() -> bool {
        true
    }

    open spec fn from_spec(value: Rgb) -> u32 {
        (value.r as u32 * 0x100_0000 + value.g as u32 * 0x1_0000 + value.b as u32 * 0x100
            + 0xFF) as u32
    }
}

impl Default for Rgb {
    /// The default color is `#5bcefa`, a light blue.
    fn default() -> (c: Rgb)
        ensures
            c == (Rgb { r: 91, g: 206, b: 250 }),
    {
        Rgb { r: 91, g: 206, b: 250 }
    }
}

} // verus!
