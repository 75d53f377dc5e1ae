//! Tempo and time signature changes.

use crate::number::Float64;
use vstd::prelude::*;

verus! {

/// The bit pattern of 120 as a double-precision number.
pub const BPM_120_BITS: u64 = 0x405E_0000_0000_0000u64;

/// The tempo where a document gives none: 120 beats per minute.
#[inline]
pub fn default_bpm() -> (r: Float64)
    ensures
        r.bits == BPM_120_BITS,
{
    Float64::from_bits(BPM_120_BITS)
}

/// The beats in a bar where a document gives none.
#[inline]
pub fn default_beat_per_bar() -> (r: i32)
    ensures
        r == 4,
{
    4
}

/// The note value of one beat where a document gives none.
#[inline]
pub fn default_beat_unit() -> (r: i32)
    ensures
        r == 4,
{
    4
}

/// A tempo that holds from a position on.
#[derive(Debug, Clone, Copy, PartialEq, Eq, Structural)]
pub struct Tempo {
    /// The position in ticks.
    pub position: i32,
    /// Beats per minute.
    pub bpm: Float64,
}

impl DeepView for Tempo {
    type V = Tempo;

    open spec fn deep_view(&self) -> Tempo {
        *self
    }
}

impl Default for Tempo {
    #[inline]
    fn default() -> (r: Self)
        ensures
            r == (Tempo { position: 0, bpm: Float64 { bits: BPM_120_BITS } }),
    {
        Tempo { position: 0, bpm: default_bpm() }
    }
}

/// A time signature that holds from a bar on.
#[derive(Debug, Clone, Copy, PartialEq, Eq, Structural)]
pub struct TimeSignature {
    /// The bar from which the signature holds.
    pub bar_position: i32,
    /// The beats in a bar.
    pub beat_per_bar: i32,
    /// The note value of one beat.
    pub beat_unit: i32,
}

impl DeepView for TimeSignature {
    type V = TimeSignature;

    open spec fn deep_view(&self) -> TimeSignature {
        *self
    }
}

impl Default for TimeSignature {
    #[inline]
    fn default() -> (r: Self)
        ensures
            r == (TimeSignature { bar_position: 0, beat_per_bar: 4, beat_unit: 4 }),
    {
        TimeSignature {
            bar_position: 0,
            beat_per_bar: default_beat_per_bar(),
            beat_unit: default_beat_unit(),
        }
    }
}

} // verus!
