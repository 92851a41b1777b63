//! The colors that the shades of the screen are shown in, and the conversion of the screen
//! into a frame of 32-bit pixels (blue, green, red, alpha).

use vstd::prelude::*;
use crate::ppu::{GrayShade, SCREEN_X, SCREEN_Y};

verus! {

/// A color with its alpha channel.
#[derive(PartialEq, Eq, Structural, Debug, Clone, Copy)]
pub struct Color {
    pub a: u8,
    pub r: u8,
    pub g: u8,
    pub b: u8,
}

impl Color {
    /// Stores the color as four bytes: blue, green, red, alpha.
    pub fn write(&self, out: &mut [u8])
        requires
            old(out)@.len() >= 4,
        ensures
            final(out)@ == old(out)@.update(0, self.b).update(1, self.g).update(2, self.r).update(3, self.a),
    {
        out[0] = self.b;
        out[1] = self.g;
        out[2] = self.r;
        out[3] = self.a;
    }
}

/// The colors of the four shades.
#[derive(PartialEq, Eq, Structural, Debug, Clone, Copy)]
pub struct Palette {
    pub c01: Color,
    pub c10: Color,
    pub c11: Color,
    pub c00: Color,
}

/// The color of a shade in a palette.
pub open spec fn shade_color(p: Palette, c: GrayShade) -> Color {
    match c {
        GrayShade::C00 => p.c00,
        GrayShade::C01 => p.c01,
        GrayShade::C10 => p.c10,
        _ => p.c11,
    }
}

impl Palette {
    /// The color of shade `c`; a transparent pixel has none.
    pub fn color(&self, c: GrayShade) -> (r: &Color)
        requires
            c != GrayShade::Transparent,
        ensures
            *r == shade_color(*self, c),
    {
        match c {
            GrayShade::C00 => &self.c00,
            GrayShade::C01 => &self.c01,
            GrayShade::C10 => &self.c10,
            _ => &self.c11,
        }
    }

    /// The green shades of the first Game Boy's screen.
    pub fn dmg() -> (r: Palette)
        ensures
            r.c00 == (Color { a: 0xFF, r: 0x7F, g: 0x86, b: 0x0F }),
            r.c01 == (Color { a: 0xFF, r: 0x57, g: 0x7C, b: 0x45 }),
            r.c10 == (Color { a: 0xFF, r: 0x36, g: 0x5D, b: 0x48 }),
            r.c11 == (Color { a: 0xFF, r: 0x2A, g: 0x45, b: 0x3B }),
    {
        Palette {
            c11: Color { a: 0xFF, r: 0x2A, g: 0x45, b: 0x3B },
            c10: Color { a: 0xFF, r: 0x36, g: 0x5D, b: 0x48 },
            c01: Color { a: 0xFF, r: 0x57, g: 0x7C, b: 0x45 },
            c00: Color { a: 0xFF, r: 0x7F, g: 0x86, b: 0x0F },
        }
    }

    /// The grays of the Game Boy Pocket screen.
    pub fn gb_pocket() -> (r: Palette)
        ensures
            r.c00 == (Color { a: 0xFF, r: 0xE3, g: 0xE6, b: 0xC9 }),
            r.c01 == (Color { a: 0xFF, r: 0xC3, g: 0xC4, b: 0xA5 }),
            r.c10 == (Color { a: 0xFF, r: 0x8E, g: 0x8B, b: 0x61 }),
            r.c11 == (Color { a: 0xFF, r: 0x6C, g: 0x6C, b: 0x4E }),
    {
        Palette {
            c11: Color { a: 0xFF, r: 0x6C, g: 0x6C, b: 0x4E },
            c10: Color { a: 0xFF, r: 0x8E, g: 0x8B, b: 0x61 },
            c01: Color { a: 0xFF, r: 0xC3, g: 0xC4, b: 0xA5 },
            c00: Color { a: 0xFF, r: 0xE3, g: 0xE6, b: 0xC9 },
        }
    }
}

/// Whether `frame` shows `screen` in `palette`: pixel `i` of the screen is bytes `4 i` to
/// `4 i + 3` of the frame, blue, green, red, alpha.
pub open spec fn frame_shows(frame: Seq<u8>, screen: Seq<GrayShade>, palette: Palette) -> bool {
    &&& frame.len() == 4 * screen.len()
    &&& forall|i: int| 0 <= i < screen.len() ==> {
        let c = shade_color(palette, #[trigger] screen[i]);
        &&& frame[4 * i] == c.b
        &&& frame[4 * i + 1] == c.g
        &&& frame[4 * i + 2] == c.r
        &&& frame[4 * i + 3] == c.a
    }
}

/// The frame of 32-bit pixels that shows the screen in a palette. The screen holds no
/// transparent pixel.
pub fn render_frame(screen: &[GrayShade], palette: &Palette) -> (frame: Vec<u8>)
    requires
        screen@.len() == SCREEN_X * SCREEN_Y,
        forall|i: int| 0 <= i < screen@.len() ==> #[trigger] screen@[i] != GrayShade::Transparent,
    ensures
        frame_shows(frame@, screen@, *palette),
{
    let mut frame: Vec<u8> = Vec::new();
    let mut i: usize = 0;
    while i < screen.len()
        invariant
            i <= screen@.len(),
            screen@.len() == SCREEN_X * SCREEN_Y,
            forall|k: int| 0 <= k < screen@.len() ==> #[trigger] screen@[k] != GrayShade::Transparent,
            frame_shows(frame@, screen@.take(i as int), *palette),
        decreases screen@.len() - i,
    {
        let color = palette.color(screen[i]);
        frame.push(color.b);
        frame.push(color.g);
        frame.push(color.r);
        frame.push(color.a);
        i = i + 1;
        proof {
            let s = screen@.take(i as int);
            assert forall|k: int| 0 <= k < s.len() implies {
                let c = shade_color(*palette, #[trigger] s[k]);
                &&& frame@[4 * k] == c.b
                &&& frame@[4 * k + 1] == c.g
                &&& frame@[4 * k + 2] == c.r
                &&& frame@[4 * k + 3] == c.a
            } by {
                if k < i - 1 {
                    assert(s[k] == screen@.take(i - 1)[k]);
                }
            }
        }
    }
    assert(screen@.take(screen@.len() as int) =~= screen@);
    frame
}

} // verus!
