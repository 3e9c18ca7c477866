//! Integer RGB colors and the "jittered average" mixing scheme that keeps
//! the colors of successive rings visually related to a running base color.

use vstd::prelude::*;
use crate::rng::rand_u32_in;

verus! {

/// An RGB color whose channels are integers in `[0, 255]`. A host converts
/// it to whatever unit-range form its drawing backend wants.
#[derive(Clone, Copy, Debug, PartialEq, Eq, Structural)]
pub struct IntColor {
    pub r: u32,
    pub g: u32,
    pub b: u32,
}

/// One mixed channel: the average (integer division) of a fresh roll and a
/// base channel.
pub open spec fn mix_channel(roll: int, base: int) -> int {
    (roll + base) / 2
}

/// `c` is a mix of `base`: every channel of `c` averages some roll in
/// `[0, 256)` with the matching channel of `base`.
pub open spec fn is_mix_of(c: IntColor, base: IntColor) -> bool {
    &&& exists|roll: int| 0 <= roll < 256 && c.r == mix_channel(roll, base.r as int)
    &&& exists|roll: int| 0 <= roll < 256 && c.g == mix_channel(roll, base.g as int)
    &&& exists|roll: int| 0 <= roll < 256 && c.b == mix_channel(roll, base.b as int)
}

impl IntColor {
    /// Every channel lies in `[0, 255]`.
    pub open spec fn wf(self) -> bool {
        &&& self.r <= 255
        &&& self.g <= 255
        &&& self.b <= 255
    }

    pub fn new(r: u32, g: u32, b: u32) -> (c: IntColor)
        ensures
            c == (IntColor { r, g, b }),
    {
        IntColor { r, g, b }
    }

    /// A color with each channel drawn uniformly from `[0, 255]`.
    pub fn rand() -> (c: IntColor)
        ensures
            c.wf(),
    {
        IntColor::new(rand_u32_in(0, 256), rand_u32_in(0, 256), rand_u32_in(0, 256))
    }

    /// Average the given rolls channel-wise with `self` (integer division).
    pub fn mixed_with_rolls(&self, roll_r: u32, roll_g: u32, roll_b: u32) -> (c: IntColor)
        requires
            self.wf(),
            roll_r < 256,
            roll_g < 256,
            roll_b < 256,
        ensures
            c.r == mix_channel(roll_r as int, self.r as int),
            c.g == mix_channel(roll_g as int, self.g as int),
            c.b == mix_channel(roll_b as int, self.b as int),
            c.wf(),
            is_mix_of(c, *self),
    {
        let c = IntColor::new(
            (roll_r + self.r) / 2,
            (roll_g + self.g) / 2,
            (roll_b + self.b) / 2,
        );
        proof {
            assert(c.r == mix_channel(roll_r as int, self.r as int));
            assert(c.g == mix_channel(roll_g as int, self.g as int));
            assert(c.b == mix_channel(roll_b as int, self.b as int));
        }
        c
    }

    /// A fresh mix of `self`: each channel averages a uniform roll in
    /// `[0, 255]` with the matching channel of `self`.
    pub fn new_mix_color(&self) -> (c: IntColor)
        requires
            self.wf(),
        ensures
            c.wf(),
            is_mix_of(c, *self),
    {
        self.mixed_with_rolls(rand_u32_in(0, 256), rand_u32_in(0, 256), rand_u32_in(0, 256))
    }
}

/// Any mix of a well-formed base color is itself well-formed: each mixed
/// channel lies in `[0, 255]`.
pub proof fn lemma_mix_in_range(c: IntColor, base: IntColor)
    requires
        base.wf(),
        is_mix_of(c, base),
    ensures
        c.wf(),
{
    let roll_r = choose|roll: int| 0 <= roll < 256 && c.r == mix_channel(roll, base.r as int);
    let roll_g = choose|roll: int| 0 <= roll < 256 && c.g == mix_channel(roll, base.g as int);
    let roll_b = choose|roll: int| 0 <= roll < 256 && c.b == mix_channel(roll, base.b as int);
    assert(c.r == (roll_r + base.r as int) / 2);
    assert(c.g == (roll_g + base.g as int) / 2);
    assert(c.b == (roll_b + base.b as int) / 2);
}

} // verus!
