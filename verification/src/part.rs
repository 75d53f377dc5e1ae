//! The parts of a project: sung parts made of notes, and audio parts.

use crate::expression::{Curve, CurveView};
use crate::note::{
    all_notes_relyricked, all_notes_renamed, rename_in_notes, rewrite_lyrics, Note, NoteView,
};
use crate::number::Float64;
use vstd::prelude::*;

verus! {

/// The name of a part where a document gives none.
pub open spec fn default_name() -> Seq<char> {
    "New Part"@
}

/// The name of a part where a document gives none.
#[inline]
pub fn default_part_name() -> (r: String)
    ensures
        r@ == default_name(),
{
    "New Part".to_owned()
}

/// A sung part: notes and control curves on a track. The track is named by
/// its index in the project's track list.
#[derive(Debug)]
pub struct VoicePart {
    /// The display name.
    pub name: String,
    /// A comment.
    pub comment: String,
    /// The index of the track that the part belongs to.
    pub track_no: i32,
    /// The position in ticks.
    pub position: i32,
    /// The notes.
    pub notes: Vec<Note>,
    /// The control curves.
    pub curves: Vec<Curve>,
}

/// The value of a [`VoicePart`].
pub struct VoicePartView {
    pub name: Seq<char>,
    pub comment: Seq<char>,
    pub track_no: i32,
    pub position: i32,
    pub notes: Seq<NoteView>,
    pub curves: Seq<CurveView>,
}

impl DeepView for VoicePart {
    type V = VoicePartView;

    open spec fn deep_view(&self) -> VoicePartView {
        VoicePartView {
            name: self.name@,
            comment: self.comment@,
            track_no: self.track_no,
            position: self.position,
            notes: self.notes.deep_view(),
            curves: self.curves.deep_view(),
        }
    }
}

impl Clone for VoicePart {
    fn clone(&self) -> (r: Self)
        ensures
            r.deep_view() == self.deep_view(),
    {
        let notes = self.notes.clone();
        let curves = self.curves.clone();
        proof {
            assert(notes.deep_view() =~= self.notes.deep_view());
            assert(curves.deep_view() =~= self.curves.deep_view());
        }
        VoicePart {
            name: self.name.clone(),
            comment: self.comment.clone(),
            track_no: self.track_no,
            position: self.position,
            notes,
            curves,
        }
    }
}

impl VoicePartView {
    /// The part with the abbreviation `to` in place of `from` in the phoneme
    /// expressions of its notes.
    pub open spec fn renamed(self, from: Seq<char>, to: Seq<char>) -> VoicePartView {
        VoicePartView { notes: all_notes_renamed(self.notes, from, to), ..self }
    }

    /// The part with the lyrics of its notes in the newer notation.
    pub open spec fn relyricked(self) -> VoicePartView {
        VoicePartView { notes: all_notes_relyricked(self.notes), ..self }
    }
}

/// Each part of the list renamed, see [`VoicePartView::renamed`].
pub open spec fn all_parts_renamed(
    parts: Seq<VoicePartView>,
    from: Seq<char>,
    to: Seq<char>,
) -> Seq<VoicePartView> {
    parts.map_values(|p: VoicePartView| p.renamed(from, to))
}

/// Each part of the list with the lyrics of its notes in the newer
/// notation.
pub open spec fn all_parts_relyricked(parts: Seq<VoicePartView>) -> Seq<VoicePartView> {
    parts.map_values(|p: VoicePartView| p.relyricked())
}

/// Gives every phoneme expression of every note of every part whose
/// abbreviation is `from` the abbreviation `to`.
pub fn rename_in_parts(parts: &mut Vec<VoicePart>, from: &str, to: &str)
    ensures
        final(parts).deep_view() == all_parts_renamed(old(parts).deep_view(), from@, to@),
{
    let ghost before = parts.deep_view();
    let mut i: usize = 0;
    while i < parts.len()
        invariant
            i <= parts@.len(),
            parts@.len() == before.len(),
            forall|k: int|
                0 <= k < i ==> (#[trigger] parts@[k]).deep_view() == before[k].renamed(from@, to@),
            forall|k: int|
                i <= k < parts@.len() ==> (#[trigger] parts@[k]).deep_view() == before[k],
        decreases parts@.len() - i,
    {
        rename_in_notes(&mut parts[i].notes, from, to);
        i += 1;
    }
    proof {
        assert(parts.deep_view() =~= all_parts_renamed(before, from@, to@));
    }
}

/// Puts the lyric of every note of every part into the newer notation.
pub fn rewrite_lyrics_in_parts(parts: &mut Vec<VoicePart>)
    ensures
        final(parts).deep_view() == all_parts_relyricked(old(parts).deep_view()),
{
    let ghost before = parts.deep_view();
    let mut i: usize = 0;
    while i < parts.len()
        invariant
            i <= parts@.len(),
            parts@.len() == before.len(),
            forall|k: int| 0 <= k < i ==> (#[trigger] parts@[k]).deep_view() == before[k].relyricked(),
            forall|k: int|
                i <= k < parts@.len() ==> (#[trigger] parts@[k]).deep_view() == before[k],
        decreases parts@.len() - i,
    {
        rewrite_lyrics(&mut parts[i].notes);
        i += 1;
    }
    proof {
        assert(parts.deep_view() =~= all_parts_relyricked(before));
    }
}

/// An audio part: a stretch of an audio file on a track. The track is named
/// by its index in the project's track list.
#[derive(Debug)]
pub struct WavePart {
    /// The display name.
    pub name: String,
    /// A comment.
    pub comment: String,
    /// The index of the track that the part belongs to.
    pub track_no: i32,
    /// The position in ticks.
    pub position: i32,
    /// The path of the audio file, relative to the project.
    pub relative_path: String,
    /// The length of the audio file in milliseconds.
    pub file_duration_ms: Float64,
    /// How much of the file's start is skipped, in milliseconds.
    pub skip_ms: Float64,
    /// How much of the file's end is cut, in milliseconds.
    pub trim_ms: Float64,
}

impl Clone for WavePart {
    fn clone(&self) -> (r: Self)
        ensures
            r.deep_view() == self.deep_view(),
    {
        WavePart {
            name: self.name.clone(),
            comment: self.comment.clone(),
            track_no: self.track_no,
            position: self.position,
            relative_path: self.relative_path.clone(),
            file_duration_ms: self.file_duration_ms,
            skip_ms: self.skip_ms,
            trim_ms: self.trim_ms,
        }
    }
}

/// The value of a [`WavePart`].
pub struct WavePartView {
    pub name: Seq<char>,
    pub comment: Seq<char>,
    pub track_no: i32,
    pub position: i32,
    pub relative_path: Seq<char>,
    pub file_duration_ms: Float64,
    pub skip_ms: Float64,
    pub trim_ms: Float64,
}

impl DeepView for WavePart {
    type V = WavePartView;

    open spec fn deep_view(&self) -> WavePartView {
        WavePartView {
            name: self.name@,
            comment: self.comment@,
            track_no: self.track_no,
            position: self.position,
            relative_path: self.relative_path@,
            file_duration_ms: self.file_duration_ms,
            skip_ms: self.skip_ms,
            trim_ms: self.trim_ms,
        }
    }
}

} // verus!
