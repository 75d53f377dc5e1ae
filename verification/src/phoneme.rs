//! Overrides of single phonemes of a note.

use crate::number::Float32;
use vstd::prelude::*;

verus! {

/// Replaces properties of one phoneme of a note. Each property is either
/// given or left as it is; a given zero is not the same as none.
#[derive(Debug)]
pub struct PhonemeOverride {
    /// Which phoneme of the note.
    pub index: i32,
    /// The phoneme to sing instead.
    pub phoneme: Option<String>,
    /// The shift of the phoneme's position.
    pub offset: Option<i32>,
    /// The change of the preutterance.
    pub preutter_delta: Option<Float32>,
    /// The change of the overlap.
    pub overlap_delta: Option<Float32>,
}

/// The value of a [`PhonemeOverride`].
pub struct PhonemeOverrideView {
    pub index: i32,
    pub phoneme: Option<Seq<char>>,
    pub offset: Option<i32>,
    pub preutter_delta: Option<Float32>,
    pub overlap_delta: Option<Float32>,
}

impl DeepView for PhonemeOverride {
    type V = PhonemeOverrideView;

    open spec fn deep_view(&self) -> PhonemeOverrideView {
        PhonemeOverrideView {
            index: self.index,
            phoneme: self.phoneme.deep_view(),
            offset: self.offset,
            preutter_delta: self.preutter_delta,
            overlap_delta: self.overlap_delta,
        }
    }
}

impl Clone for PhonemeOverride {
    fn clone(&self) -> (r: Self)
        ensures
            r.deep_view() == self.deep_view(),
    {
        let phoneme = match &self.phoneme {
            Some(text) => Some(text.clone()),
            None => None,
        };
        PhonemeOverride {
            index: self.index,
            phoneme,
            offset: self.offset,
            preutter_delta: self.preutter_delta,
            overlap_delta: self.overlap_delta,
        }
    }
}

impl Default for PhonemeOverride {
    fn default() -> (r: Self)
        ensures
            r.deep_view() == (PhonemeOverrideView {
                index: 0,
                phoneme: None,
                offset: None,
                preutter_delta: None,
                overlap_delta: None,
            }),
    {
        PhonemeOverride {
            index: 0,
            phoneme: None,
            offset: None,
            preutter_delta: None,
            overlap_delta: None,
        }
    }
}

} // verus!
