//! Tracks and their render settings.

use crate::expression::{Expression, ExpressionView};
use crate::number::Float64;
use vstd::prelude::*;

verus! {

/// The name of a track where a document gives none.
pub open spec fn default_name() -> Seq<char> {
    "New Track"@
}

/// The colour of a track where a document gives none.
pub open spec fn default_color() -> Seq<char> {
    "Blue"@
}

/// The name of a track where a document gives none.
#[inline]
pub fn default_track_name() -> (r: String)
    ensures
        r@ == default_name(),
{
    "New Track".to_owned()
}

/// The colour of a track where a document gives none.
#[inline]
pub fn default_track_color() -> (r: String)
    ensures
        r@ == default_color(),
{
    "Blue".to_owned()
}

/// The voice colours of a track where a document gives none: one entry,
/// which is empty.
#[inline]
pub fn default_voice_color_names() -> (r: Vec<String>)
    ensures
        r.deep_view() == seq![Seq::<char>::empty()],
{
    let names = vec![String::new()];
    proof {
        assert(names.deep_view() =~= seq![Seq::<char>::empty()]);
    }
    names
}

/// Which programs render a track. Each may be left open.
#[derive(Debug)]
pub struct RenderSettings {
    /// The renderer.
    pub renderer: Option<String>,
    /// The resampler.
    pub resampler: Option<String>,
    /// The wavtool.
    pub wavtool: Option<String>,
}

/// The value of a [`RenderSettings`].
pub struct RenderSettingsView {
    pub renderer: Option<Seq<char>>,
    pub resampler: Option<Seq<char>>,
    pub wavtool: Option<Seq<char>>,
}

impl DeepView for RenderSettings {
    type V = RenderSettingsView;

    open spec fn deep_view(&self) -> RenderSettingsView {
        RenderSettingsView {
            renderer: self.renderer.deep_view(),
            resampler: self.resampler.deep_view(),
            wavtool: self.wavtool.deep_view(),
        }
    }
}

/// A copy of a text that may be absent.
fn clone_text(text: &Option<String>) -> (r: Option<String>)
    ensures
        r.deep_view() == text.deep_view(),
{
    match text {
        Some(value) => Some(value.clone()),
        None => None,
    }
}

impl Clone for RenderSettings {
    fn clone(&self) -> (r: Self)
        ensures
            r.deep_view() == self.deep_view(),
    {
        RenderSettings {
            renderer: clone_text(&self.renderer),
            resampler: clone_text(&self.resampler),
            wavtool: clone_text(&self.wavtool),
        }
    }
}

impl Default for RenderSettings {
    fn default() -> (r: Self)
        ensures
            r.deep_view() == (RenderSettingsView { renderer: None, resampler: None, wavtool: None }),
    {
        RenderSettings { renderer: None, resampler: None, wavtool: None }
    }
}

/// A track of a project.
#[derive(Debug)]
pub struct Track {
    /// The singer.
    pub singer: String,
    /// The phonemizer.
    pub phonemizer: String,
    /// Which programs render the track.
    pub renderer_settings: RenderSettings,
    /// The display name.
    pub track_name: String,
    /// The display colour.
    pub track_color: String,
    /// Whether the track is muted.
    pub mute: bool,
    /// Whether the track plays alone.
    pub solo: bool,
    /// The volume in decibels.
    pub volume: Float64,
    /// The pan, from left to right.
    pub pan: Float64,
    /// The expressions of the track.
    pub track_expressions: Vec<Expression>,
    /// The names of the voice colours.
    pub voice_color_names: Vec<String>,
}

/// The value of a [`Track`].
pub struct TrackView {
    pub singer: Seq<char>,
    pub phonemizer: Seq<char>,
    pub renderer_settings: RenderSettingsView,
    pub track_name: Seq<char>,
    pub track_color: Seq<char>,
    pub mute: bool,
    pub solo: bool,
    pub volume: Float64,
    pub pan: Float64,
    pub track_expressions: Seq<ExpressionView>,
    pub voice_color_names: Seq<Seq<char>>,
}

impl DeepView for Track {
    type V = TrackView;

    open spec fn deep_view(&self) -> TrackView {
        TrackView {
            singer: self.singer@,
            phonemizer: self.phonemizer@,
            renderer_settings: self.renderer_settings.deep_view(),
            track_name: self.track_name@,
            track_color: self.track_color@,
            mute: self.mute,
            solo: self.solo,
            volume: self.volume,
            pan: self.pan,
            track_expressions: self.track_expressions.deep_view(),
            voice_color_names: self.voice_color_names.deep_view(),
        }
    }
}

impl Clone for Track {
    fn clone(&self) -> (r: Self)
        ensures
            r.deep_view() == self.deep_view(),
    {
        let track_expressions = self.track_expressions.clone();
        let voice_color_names = self.voice_color_names.clone();
        proof {
            assert(track_expressions.deep_view() =~= self.track_expressions.deep_view());
            assert(voice_color_names.deep_view() =~= self.voice_color_names.deep_view());
        }
        Track {
            singer: self.singer.clone(),
            phonemizer: self.phonemizer.clone(),
            renderer_settings: self.renderer_settings.clone(),
            track_name: self.track_name.clone(),
            track_color: self.track_color.clone(),
            mute: self.mute,
            solo: self.solo,
            volume: self.volume,
            pan: self.pan,
            track_expressions,
            voice_color_names,
        }
    }
}

impl Track {
    /// The value of the track that stands in for a missing track list.
    pub open spec fn default_view() -> TrackView {
        TrackView {
            singer: Seq::empty(),
            phonemizer: Seq::empty(),
            renderer_settings: RenderSettingsView { renderer: None, resampler: None, wavtool: None },
            track_name: default_name(),
            track_color: default_color(),
            mute: false,
            solo: false,
            volume: Float64 { bits: 0 },
            pan: Float64 { bits: 0 },
            track_expressions: Seq::empty(),
            voice_color_names: seq![Seq::<char>::empty()],
        }
    }
}

impl Default for Track {
    #[inline]
    fn default() -> (r: Self)
        ensures
            r.deep_view() == Track::default_view(),
    {
        let track = Track {
            singer: String::new(),
            phonemizer: String::new(),
            renderer_settings: RenderSettings::default(),
            track_name: default_track_name(),
            track_color: default_track_color(),
            mute: false,
            solo: false,
            volume: Float64::zero(),
            pan: Float64::zero(),
            track_expressions: Vec::new(),
            voice_color_names: default_voice_color_names(),
        };
        proof {
            assert(track.track_expressions.deep_view() =~= Seq::empty());
        }
        track
    }
}

} // verus!
