//! The pure pieces of the rendering layer: colors for a character-cell
//! display, display characters packed into attribute bits, and the marker
//! type of the plain-terminal renderer. Everything that actually touches a
//! terminal lives outside the library.

use vstd::prelude::*;

verus! {

/// A display color: either a packed `0xRRGGBB` value or explicit 8-bit
/// components.
#[derive(Clone, Copy, PartialEq, Eq, Structural, Debug)]
pub enum Color {
    Hex(u32),
    RGB(u8, u8, u8),
}

/// The components a color denotes, each in `0..=255`: the three bytes of a
/// `Hex` value from most to least significant, or the `RGB` fields as
/// given.
pub open spec fn rgb_components(color: Color) -> (i16, i16, i16) {
    match color {
        Color::Hex(hex_color) => (
            (((hex_color >> 16) & 0xFF) as i16),
            (((hex_color >> 8) & 0xFF) as i16),
            ((hex_color & 0xFF) as i16),
        ),
        Color::RGB(r, g, b) => (r as i16, g as i16, b as i16),
    }
}

/// A component handed in from a signed display API: negative values clamp
/// to 0; a value above 255 keeps its low byte, as the raw `as` narrowing
/// does.
pub open spec fn component_from(v: i16) -> u8 {
    if v < 0 {
        0u8
    } else {
        v as u8
    }
}

/// Converts a color to its components.
pub fn color_to_rgb_tuple(color: &Color) -> (rgb: (i16, i16, i16))
    ensures
        rgb == rgb_components(*color),
{
    match *color {
        Color::Hex(hex_color) => {
            proof {
                assert(((hex_color >> 16) & 0xFF) < 256) by (bit_vector);
                assert(((hex_color >> 8) & 0xFF) < 256) by (bit_vector);
                assert((hex_color & 0xFF) < 256) by (bit_vector);
            }
            (
                (((hex_color >> 16) & 0xFF) as i16),
                (((hex_color >> 8) & 0xFF) as i16),
                ((hex_color & 0xFF) as i16),
            )
        },
        Color::RGB(r, g, b) => (r as i16, g as i16, b as i16),
    }
}

impl From<(i16, i16, i16)> for Color {
    /// Builds an `RGB` color from signed components, clamping each through
    /// `component_from`.
    fn from(rgb: (i16, i16, i16)) -> (color: Color) {
        let (r, g, b) = rgb;
        Color::RGB(
            if r < 0 {
                0
            } else {
                #[verifier::truncate] (r as u8)
            },
            if g < 0 {
                0
            } else {
                #[verifier::truncate] (g as u8)
            },
            if b < 0 {
                0
            } else {
                #[verifier::truncate] (b as u8)
            },
        )
    }
}

impl vstd::std_specs::convert::FromSpecImpl<(i16, i16, i16)> for Color {
    open spec fn obeys_from_spec() -> bool {
        true
    }

    open spec fn from_spec(rgb: (i16, i16, i16)) -> Color {
        Color::RGB(component_from(rgb.0), component_from(rgb.1), component_from(rgb.2))
    }
}

/// A character cell prepared for a character-cell display: optional color
/// bits, an optional glyph, and optional further attribute bits, all
/// combined by bitwise or into one packed value.
pub struct Character {
    pub color: Option<u32>,
    pub character: Option<char>,
    pub attributes: Option<Vec<u32>>,
}

/// All of `values` or-ed together, left to right.
pub open spec fn or_all(values: Seq<u32>) -> u32
    decreases values.len(),
{
    if values.len() == 0 {
        0u32
    } else {
        or_all(values.drop_last()) | values.last()
    }
}

/// The packed value a character denotes: color bits, glyph code point and
/// attribute bits or-ed together; a missing part contributes no bits.
pub open spec fn packed_chtype(c: Character) -> u32 {
    (match c.color {
        Some(v) => v,
        None => 0u32,
    }) | (match c.character {
        Some(glyph) => glyph as u32,
        None => 0u32,
    }) | (match c.attributes {
        Some(attrs) => or_all(attrs@),
        None => 0u32,
    })
}

impl Character {
    /// Packs the character into the single value a character-cell display
    /// takes.
    pub fn to_chtype(&self) -> (packed: u32)
        ensures
            packed == packed_chtype(*self),
    {
        let color: u32 = match self.color {
            Some(v) => v,
            None => 0,
        };
        let glyph: char = match self.character {
            Some(glyph) => glyph,
            None => '\0',
        };
        let mut attributes_or: u32 = 0;
        match &self.attributes {
            Some(attrs) => {
                let n = attrs.len();
                let mut i: usize = 0;
                while i < n
                    invariant
                        n == attrs@.len(),
                        i <= n,
                        attributes_or == or_all(attrs@.take(i as int)),
                    decreases n - i,
                {
                    attributes_or = attributes_or | attrs[i];
                    proof {
                        assert(attrs@.take(i as int + 1).drop_last() =~= attrs@.take(i as int));
                    }
                    i = i + 1;
                }
                proof {
                    assert(attrs@.take(n as int) =~= attrs@);
                }
            },
            None => {},
        }
        color | (glyph as u32) | attributes_or
    }
}

/// Marker type of the plain-text terminal renderer. The rendering loop
/// itself performs output and lives outside the library.
pub struct SimpleTerminal;

impl SimpleTerminal {
    /// Creates the plain-text renderer.
    pub fn new() -> SimpleTerminal {
        SimpleTerminal
    }
}

} // verus!
