//! A 24-bit RGB colour and its deterministic cycling.

use vstd::prelude::*;

verus! {

/// An RGB triple packed into the low 24 bits of a word: red in bits 16..24,
/// green in bits 8..16, blue in bits 0..8. The high byte is never read.
#[derive(Clone, Copy, Debug)]
pub struct Color(u32);

/// The channel that results from advancing `channel` by `step`: the
/// magnitude of the sum, reduced modulo 256.
///
/// A sum below zero is mirrored, not wrapped: from 19, a step of -25 gives
/// 6 and not 250.
pub open spec fn cycled_channel(channel: u8, step: int) -> int {
    let sum = channel as int + step;
    if sum >= 0 {
        sum % 256
    } else {
        (-sum) % 256
    }
}

/// `amount / divisor`, rounded toward zero.
pub open spec fn quotient_toward_zero(amount: int, divisor: int) -> int
    recommends
        divisor > 0,
{
    if amount >= 0 {
        amount / divisor
    } else {
        -((-amount) / divisor)
    }
}

/// The three channels after one cycling step of `amount`: red advances by
/// `amount`, green by half of it and blue by a third of it, both rounded
/// toward zero.
pub open spec fn cycled_channels(rgb: (u8, u8, u8), amount: int) -> (u8, u8, u8) {
    (
        cycled_channel(rgb.0, amount) as u8,
        cycled_channel(rgb.1, quotient_toward_zero(amount, 2)) as u8,
        cycled_channel(rgb.2, quotient_toward_zero(amount, 3)) as u8,
    )
}

/// Every cycled channel is again a channel: it lies in 0..=255, whatever
/// the step.
pub proof fn lemma_cycled_channel_bounded(channel: u8, step: int)
    ensures
        0 <= cycled_channel(channel, step) <= 255,
{
}

fn cycle_channel(channel: u8, step: i32) -> (out: u8)
    ensures
        out as int == cycled_channel(channel, step as int),
{
    let sum: i64 = channel as i64 + step as i64;
    let magnitude: i64 = if sum >= 0 {
        sum
    } else {
        -sum
    };
    (magnitude % 256) as u8
}

impl Color {
    /// The colour whose channels are `r`, `g` and `b`.
    pub closed spec fn pack(r: u8, g: u8, b: u8) -> Color {
        Color(((r as u32) << 16) | ((g as u32) << 8) | (b as u32))
    }

    /// The channels `(red, green, blue)` that this colour holds.
    pub closed spec fn channels(self) -> (u8, u8, u8) {
        (((self.0 >> 16) & 0xFF) as u8, ((self.0 >> 8) & 0xFF) as u8, (self.0 & 0xFF) as u8)
    }

    /// This colour after one cycling step of `amount`.
    pub open spec fn cycled(self, amount: int) -> Color {
        let next = cycled_channels(self.channels(), amount);
        Color::pack(next.0, next.1, next.2)
    }

    /// Packing three channels and reading them back returns them unchanged.
    pub broadcast proof fn lemma_pack_channels(r: u8, g: u8, b: u8)
        ensures
            #[trigger] Color::pack(r, g, b).channels() == (r, g, b),
    {
        let word = ((r as u32) << 16) | ((g as u32) << 8) | (b as u32);
        assert(((word >> 16) & 0xFF) as u8 == r && ((word >> 8) & 0xFF) as u8 == g && (word
            & 0xFF) as u8 == b) by (bit_vector)
            requires
                word == ((r as u32) << 16) | ((g as u32) << 8) | (b as u32),
        ;
    }

    pub fn new(r: u8, g: u8, b: u8) -> (color: Color)
        ensures
            color == Color::pack(r, g, b),
            color.channels() == (r, g, b),
    {
        proof {
            Color::lemma_pack_channels(r, g, b);
        }
        Color(((r as u32) << 16) | ((g as u32) << 8) | (b as u32))
    }

    pub fn get_components(&self) -> (rgb: (u8, u8, u8))
        ensures
            rgb == self.channels(),
    {
        let r = ((self.0 >> 16) & 0xFF) as u8;
        let g = ((self.0 >> 8) & 0xFF) as u8;
        let b = (self.0 & 0xFF) as u8;
        (r, g, b)
    }

    /// Advances red by `amount`, green by `amount / 2` and blue by
    /// `amount / 3`; each sum is replaced by its magnitude modulo 256.
    pub fn cycle(&mut self, amount: i32)
        ensures
            *final(self) == old(self).cycled(amount as int),
            final(self).channels() == cycled_channels(old(self).channels(), amount as int),
    {
        let (r, g, b) = self.get_components();
        let new_r = cycle_channel(r, amount);
        let new_g = cycle_channel(g, amount / 2);
        let new_b = cycle_channel(b, amount / 3);
        proof {
            Color::lemma_pack_channels(new_r, new_g, new_b);
        }
        self.0 = ((new_r as u32) << 16) | ((new_g as u32) << 8) | (new_b as u32);
    }
}

} // verus!
