//! The color-cycle counter that drives the background color: it advances by
//! one each loop iteration and wraps modulo 255.

use vstd::prelude::*;
use vstd::arithmetic::div_mod::lemma_add_mod_noop;

verus! {

/// The counter wraps at this bound, so its value stays in `[0, 254]`.
pub const COUNTER_MODULUS: u8 = 255;

/// An RGB color with 8-bit channels.
#[derive(Clone, Copy, PartialEq, Eq, Structural, Debug)]
pub struct Rgb {
    pub r: u8,
    pub g: u8,
    pub b: u8,
}

/// The counter value that follows `counter`.
pub open spec fn spec_next_counter(counter: int) -> int {
    (counter + 1) % (COUNTER_MODULUS as int)
}

/// The counter value after `n` iterations, starting from zero.
pub open spec fn spec_counter_after(n: nat) -> int
    decreases n,
{
    if n == 0 {
        0
    } else {
        spec_next_counter(spec_counter_after((n - 1) as nat))
    }
}

/// Advance the color-cycle counter by one iteration.
pub fn next_counter(counter: u8) -> (next: u8)
    requires
        counter < COUNTER_MODULUS,
    ensures
        next == spec_next_counter(counter as int),
        next < COUNTER_MODULUS,
{
    (counter + 1) % COUNTER_MODULUS
}

/// After `n` iterations the counter holds exactly `n % 255`, so it always
/// stays in `[0, 254]`.
pub proof fn lemma_counter_after(n: nat)
    ensures
        spec_counter_after(n) == n as int % (COUNTER_MODULUS as int),
        0 <= spec_counter_after(n) < COUNTER_MODULUS,
    decreases n,
{
    if n > 0 {
        lemma_counter_after((n - 1) as nat);
        lemma_add_mod_noop((n - 1) as int, 1, COUNTER_MODULUS as int);
    }
}

/// The background color drawn for a counter value: the red channel rises with
/// the counter while the blue channel falls, over a fixed green.
pub open spec fn spec_background_color(counter: int) -> Rgb {
    Rgb { r: counter as u8, g: 64, b: (255 - counter) as u8 }
}

/// Background color for the current counter value.
pub fn background_color(counter: u8) -> (color: Rgb)
    requires
        counter < COUNTER_MODULUS,
    ensures
        color == spec_background_color(counter as int),
        color.r == counter,
        color.g == 64,
        color.b == 255 - counter,
{
    Rgb { r: counter, g: 64, b: 255 - counter }
}

} // verus!
