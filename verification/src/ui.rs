//! The computational pieces of the user-interface front end: which battery
//! sprite an animation step shows, and where a character sits in the packed
//! font. Rendering and pin handling stay with the hardware.

use vstd::prelude::*;

verus! {

/// What the battery indicator knows about the supply, with the charge
/// percentage where one is known.
#[derive(Clone, Copy, Debug, PartialEq, Eq, Structural)]
pub enum StickBatteryState {
    Unknown,
    Discharging(u32),
    Charging(u32),
}

/// The sprite index the charging animation shows at step `t` for a charge of
/// `perc` percent: the lower half of each eight-step cycle shows the plain
/// sprite, the upper half sweeps the fill from the true charge towards full.
pub open spec fn spec_charge_ani_frame(t: u32, perc: u32) -> int {
    let aniframe = (t >> 3) & 7;
    if aniframe >= 4 {
        0
    } else {
        let aniperc = perc + ((100 - perc) * aniframe) / 4;
        if aniperc <= 15 {
            2
        } else if aniperc <= 50 {
            3
        } else if aniperc <= 80 {
            4
        } else {
            5
        }
    }
}

/// Picks the battery sprite for animation step `t` and charge `perc`.
pub fn charge_ani_frame(t: u32, perc: u32) -> (r: isize)
    requires
        perc <= 100,
    ensures
        r == spec_charge_ani_frame(t, perc),
{
    let aniframe: u32 = (t >> 3) & 7;
    proof {
        assert((t >> 3) & 7 < 8) by (bit_vector);
    }
    if aniframe >= 4 {
        return 0;
    }
    proof {
        assert((100 - perc) * aniframe <= 800) by (nonlinear_arith)
            requires
                perc <= 100,
                aniframe < 8,
        ;
    }
    let aniperc: u32 = perc + ((100 - perc) * aniframe) / 4;
    if aniperc <= 15 {
        2
    } else if aniperc <= 50 {
        3
    } else if aniperc <= 80 {
        4
    } else {
        5
    }
}

/// Where a character sits in the packed font: the printable ASCII range maps
/// to the first 96 positions, the upper range from 0xA0 follows, and
/// anything else shows the substitute glyph.
pub open spec fn spec_glyph_index(c: u8) -> int {
    if 0x20 <= c < 0x80 {
        c - 0x20
    } else if c >= 0xa0 {
        c - 0x40
    } else {
        0x7f - 0x20
    }
}

/// Maps a character byte to its position in the packed font.
pub fn glyph_index(c: u8) -> (r: usize)
    ensures
        r == spec_glyph_index(c),
        r < 192,
{
    if c >= 0x20 && c < 0x80 {
        (c - 0x20) as usize
    } else if c >= 0xa0 {
        (c - 0x40) as usize
    } else {
        0x7f - 0x20
    }
}

} // verus!
