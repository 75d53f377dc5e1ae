//! The project: the root of a document.

use crate::error::Error;
use crate::expression::ExpressionDescriptorView;
use crate::expression_map::ExpressionMap;
use crate::migration::{
    accent_renamed, accent_revision, canonical_selectors, converted, detected, lyric_revision,
    lyrics_rewritten, offending, padded_selectors, passes_revision, selector_revision,
    selectors_padded, stamped, supported, timing_flattened, timing_revision,
};
use crate::number::Float64;
use crate::part::{
    rename_in_parts, rewrite_lyrics_in_parts, VoicePart, VoicePartView, WavePart, WavePartView,
};
use crate::time::{Tempo, TimeSignature, BPM_120_BITS};
use crate::track::{Track, TrackView};
use crate::version::Version;
use vstd::prelude::*;

verus! {

/// The name of a project where a document gives none.
#[inline]
pub fn default_project_name() -> (r: String)
    ensures
        r@ == "New Project"@,
{
    "New Project".to_owned()
}

/// The output directory where a document gives none.
#[inline]
pub fn default_output_dir() -> (r: String)
    ensures
        r@ == "Vocal"@,
{
    "Vocal".to_owned()
}

/// The cache directory where a document gives none.
#[inline]
pub fn default_cache_dir() -> (r: String)
    ensures
        r@ == "UCache"@,
{
    "UCache".to_owned()
}

/// The ticks per quarter note where a document gives none.
#[inline]
pub fn default_resolution() -> (r: i32)
    ensures
        r == 480,
{
    480
}

/// The tempo where a document gives none: 120 beats per minute.
#[inline]
pub fn default_bpm() -> (r: Float64)
    ensures
        r.bits == BPM_120_BITS,
{
    crate::time::default_bpm()
}

/// The beats in a bar where a document gives none.
#[inline]
pub fn default_beat_per_bar() -> (r: i32)
    ensures
        r == 4,
{
    crate::time::default_beat_per_bar()
}

/// The note value of one beat where a document gives none.
#[inline]
pub fn default_beat_unit() -> (r: i32)
    ensures
        r == 4,
{
    crate::time::default_beat_unit()
}

/// The expression selectors where a document gives none: the canonical ten.
#[inline]
pub fn default_exp_selectors() -> (r: Vec<String>)
    ensures
        r.deep_view() == canonical_selectors(),
{
    let selectors = vec![
        "dyn".to_owned(),
        "pitd".to_owned(),
        "clr".to_owned(),
        "eng".to_owned(),
        "vel".to_owned(),
        "vol".to_owned(),
        "atk".to_owned(),
        "dec".to_owned(),
        "gen".to_owned(),
        "bre".to_owned(),
    ];
    proof {
        assert(selectors.deep_view() =~= canonical_selectors());
    }
    selectors
}

/// The index of the secondary expression where a document gives none.
#[inline]
pub fn default_exp_secondary() -> (r: i32)
    ensures
        r == 1,
{
    1
}

/// The time signatures where a document gives none: four-four from bar
/// zero.
#[inline]
pub fn default_time_signatures() -> (r: Vec<TimeSignature>)
    ensures
        r@ == seq![TimeSignature { bar_position: 0, beat_per_bar: 4, beat_unit: 4 }],
{
    vec![TimeSignature::default()]
}

/// The tempos where a document gives none: 120 beats per minute from
/// position zero.
#[inline]
pub fn default_tempos() -> (r: Vec<Tempo>)
    ensures
        r@ == seq![Tempo { position: 0, bpm: Float64 { bits: BPM_120_BITS } }],
{
    vec![Tempo::default()]
}

/// The tracks where a document gives none: one track with default values.
#[inline]
pub fn default_tracks() -> (r: Vec<Track>)
    ensures
        r.deep_view() == seq![Track::default_view()],
{
    let tracks = vec![Track::default()];
    proof {
        assert(tracks.deep_view() =~= seq![Track::default_view()]);
    }
    tracks
}

/// A project: settings, tracks and parts, and the schema revision that the
/// document was written for.
#[derive(Debug)]
pub struct Project {
    /// The name.
    pub name: String,
    /// A comment.
    pub comment: String,
    /// Where rendered audio goes.
    pub output_dir: String,
    /// Where temporary files go.
    pub cache_dir: String,
    /// The schema revision of the document. A document that names none was
    /// written before revisions were recorded.
    pub ustx_version: Option<Version>,
    /// Ticks per quarter note.
    pub resolution: i32,
    /// The tempo, in beats per minute.
    pub bpm: Float64,
    /// The beats in a bar.
    pub beat_per_bar: i32,
    /// The note value of one beat.
    pub beat_unit: i32,
    /// The expression definitions, by abbreviation.
    pub expressions: ExpressionMap,
    /// The abbreviations of the expressions on offer.
    pub exp_selectors: Vec<String>,
    /// The index of the primary expression.
    pub exp_primary: i32,
    /// The index of the secondary expression.
    pub exp_secondary: i32,
    /// The key, as a transposition.
    pub key: i32,
    /// The time signature changes.
    pub time_signatures: Vec<TimeSignature>,
    /// The tempo changes.
    pub tempos: Vec<Tempo>,
    /// The tracks.
    pub tracks: Vec<Track>,
    /// The sung parts.
    pub voice_parts: Vec<VoicePart>,
    /// The audio parts.
    pub wave_parts: Vec<WavePart>,
}

/// The value of a [`Project`].
pub struct ProjectView {
    pub name: Seq<char>,
    pub comment: Seq<char>,
    pub output_dir: Seq<char>,
    pub cache_dir: Seq<char>,
    pub ustx_version: Option<Version>,
    pub resolution: i32,
    pub bpm: Float64,
    pub beat_per_bar: i32,
    pub beat_unit: i32,
    pub expressions: Map<Seq<char>, ExpressionDescriptorView>,
    pub exp_selectors: Seq<Seq<char>>,
    pub exp_primary: i32,
    pub exp_secondary: i32,
    pub key: i32,
    pub time_signatures: Seq<TimeSignature>,
    pub tempos: Seq<Tempo>,
    pub tracks: Seq<TrackView>,
    pub voice_parts: Seq<VoicePartView>,
    pub wave_parts: Seq<WavePartView>,
}

impl DeepView for Project {
    type V = ProjectView;

    open spec fn deep_view(&self) -> ProjectView {
        ProjectView {
            name: self.name@,
            comment: self.comment@,
            output_dir: self.output_dir@,
            cache_dir: self.cache_dir@,
            ustx_version: self.ustx_version,
            resolution: self.resolution,
            bpm: self.bpm,
            beat_per_bar: self.beat_per_bar,
            beat_unit: self.beat_unit,
            expressions: self.expressions.deep_view(),
            exp_selectors: self.exp_selectors.deep_view(),
            exp_primary: self.exp_primary,
            exp_secondary: self.exp_secondary,
            key: self.key,
            time_signatures: self.time_signatures@,
            tempos: self.tempos@,
            tracks: self.tracks.deep_view(),
            voice_parts: self.voice_parts.deep_view(),
            wave_parts: self.wave_parts.deep_view(),
        }
    }
}

impl Clone for Project {
    fn clone(&self) -> (r: Self)
        ensures
            r.deep_view() == self.deep_view(),
    {
        let exp_selectors = self.exp_selectors.clone();
        let time_signatures = self.time_signatures.clone();
        let tempos = self.tempos.clone();
        let tracks = self.tracks.clone();
        let voice_parts = self.voice_parts.clone();
        let wave_parts = self.wave_parts.clone();
        proof {
            assert(exp_selectors.deep_view() =~= self.exp_selectors.deep_view());
            assert(time_signatures@ =~= self.time_signatures@);
            assert(tempos@ =~= self.tempos@);
            assert(tracks.deep_view() =~= self.tracks.deep_view());
            assert(voice_parts.deep_view() =~= self.voice_parts.deep_view());
            assert(wave_parts.deep_view() =~= self.wave_parts.deep_view());
        }
        Project {
            name: self.name.clone(),
            comment: self.comment.clone(),
            output_dir: self.output_dir.clone(),
            cache_dir: self.cache_dir.clone(),
            ustx_version: self.ustx_version,
            resolution: self.resolution,
            bpm: self.bpm,
            beat_per_bar: self.beat_per_bar,
            beat_unit: self.beat_unit,
            expressions: self.expressions.clone(),
            exp_selectors,
            exp_primary: self.exp_primary,
            exp_secondary: self.exp_secondary,
            key: self.key,
            time_signatures,
            tempos,
            tracks,
            voice_parts,
            wave_parts,
        }
    }
}

/// Fills a list of expression selectors up to ten, see
/// [`padded_selectors`].
pub fn pad_selectors(selectors: &mut Vec<String>)
    ensures
        final(selectors).deep_view() == padded_selectors(old(selectors).deep_view()),
{
    let defaults = default_exp_selectors();
    let ghost before = selectors.deep_view();
    proof {
        assert(defaults@.len() == defaults.deep_view().len());
    }
    if selectors.len() >= defaults.len() {
        return;
    }
    let mut i: usize = selectors.len();
    while i < defaults.len()
        invariant
            before.len() <= i <= defaults@.len(),
            defaults@.len() == 10,
            defaults.deep_view() == canonical_selectors(),
            selectors@.len() == i,
            forall|k: int| 0 <= k < before.len() ==> (#[trigger] selectors@[k])@ == before[k],
            forall|k: int|
                before.len() <= k < i ==> (#[trigger] selectors@[k])@ == canonical_selectors()[k],
        decreases defaults@.len() - i,
    {
        proof {
            assert(defaults.deep_view()[i as int] == defaults@[i as int]@);
        }
        selectors.push(defaults[i].clone());
        i += 1;
    }
    proof {
        assert(selectors.deep_view() =~= padded_selectors(before));
    }
}

impl Project {
    /// Converts the project to the schema revision `target`.
    ///
    /// Where the target or the project's own revision is newer than the
    /// engine knows, the request fails with the textual form of that
    /// revision, the target's if both are, and the project is not touched.
    /// Otherwise the project takes the steps of every revision that lies
    /// after its own and not after the target, in the order of the
    /// revisions, and is then marked as written for the target. A target
    /// that is not newer than the project's revision therefore changes the
    /// mark only.
    pub fn convert_to(&mut self, target: Version) -> (r: Result<(), Error>)
        ensures
            match r {
                Ok(_) => {
                    &&& supported(old(self).deep_view(), target)
                    &&& final(self).deep_view() == converted(old(self).deep_view(), target)
                    &&& final(self).ustx_version == Some(target)
                },
                Err(error) => {
                    &&& !supported(old(self).deep_view(), target)
                    &&& *final(self) == *old(self)
                    &&& error matches Error::UnsupportedVersion(text)
                    &&& text@ == offending(old(self).deep_view(), target).text()
                },
            },
            target.at_most(detected(old(self).deep_view())) && r is Ok ==> final(self).deep_view()
                == stamped(old(self).deep_view(), target),
    {
        let found = match self.ustx_version {
            Some(version) => version,
            None => Version::zero(),
        };
        if target > Version::current() {
            return Err(Error::unsupported_version(target.to_string()));
        }
        if found > Version::current() {
            return Err(Error::unsupported_version(found.to_string()));
        }
        if found >= target {
            self.ustx_version = Some(target);
            return Ok(());
        }
        if passes_revision(found, target, accent_revision()) {
            self.convert_pre_0_4();
        }
        if passes_revision(found, target, lyric_revision()) {
            self.convert_pre_0_5();
        }
        if passes_revision(found, target, timing_revision()) {
            self.convert_pre_0_6();
        }
        if passes_revision(found, target, selector_revision()) {
            self.convert_pre_0_7();
        }
        self.ustx_version = Some(target);
        Ok(())
    }

    /// A copy of the project converted to the newest revision that the
    /// engine knows; the project itself stays as it is. The copy is what a
    /// document in the current schema is written from.
    pub fn upgraded(&self) -> (r: Result<Project, Error>)
        ensures
            match r {
                Ok(copy) => {
                    &&& supported(self.deep_view(), Version::spec_current())
                    &&& copy.deep_view() == converted(self.deep_view(), Version::spec_current())
                },
                Err(error) => {
                    &&& !supported(self.deep_view(), Version::spec_current())
                    &&& error matches Error::UnsupportedVersion(text)
                    &&& text@ == detected(self.deep_view()).text()
                },
            },
    {
        let mut copy = self.clone();
        match copy.convert_to(Version::current()) {
            Ok(_) => Ok(copy),
            Err(error) => Err(error),
        }
    }

    /// The step to `0.4`, see [`accent_renamed`].
    fn convert_pre_0_4(&mut self)
        ensures
            final(self).deep_view() == accent_renamed(old(self).deep_view()),
    {
        let legacy_name: String = "accent".to_owned();
        let legacy = match self.expressions.get("acc") {
            Some(descriptor) => descriptor.name == legacy_name,
            None => false,
        };
        if !legacy {
            return;
        }
        match self.expressions.remove("acc") {
            Some(mut descriptor) => {
                descriptor.abbr = "atk".to_owned();
                descriptor.name = "attack".to_owned();
                self.expressions.insert("atk".to_owned(), descriptor);
            },
            None => {
                return;
            },
        }
        rename_in_parts(&mut self.voice_parts, "acc", "atk");
    }

    /// The step to `0.5`, see [`lyrics_rewritten`].
    fn convert_pre_0_5(&mut self)
        ensures
            final(self).deep_view() == lyrics_rewritten(old(self).deep_view()),
    {
        rewrite_lyrics_in_parts(&mut self.voice_parts);
    }

    /// The step to `0.6`, see [`timing_flattened`].
    fn convert_pre_0_6(&mut self)
        ensures
            final(self).deep_view() == timing_flattened(old(self).deep_view()),
    {
        let beat_per_bar = if self.beat_per_bar > 0 {
            self.beat_per_bar
        } else {
            4
        };
        let beat_unit = if self.beat_unit > 0 {
            self.beat_unit
        } else {
            4
        };
        let bpm = if self.bpm.is_positive() {
            self.bpm
        } else {
            default_bpm()
        };
        self.time_signatures = vec![TimeSignature { bar_position: 0, beat_per_bar, beat_unit }];
        self.tempos = vec![Tempo { position: 0, bpm }];
        proof {
            assert(self.deep_view().time_signatures =~= timing_flattened(
                old(self).deep_view(),
            ).time_signatures);
            assert(self.deep_view().tempos =~= timing_flattened(old(self).deep_view()).tempos);
        }
    }

    /// The step to `0.7`, see [`selectors_padded`].
    fn convert_pre_0_7(&mut self)
        ensures
            final(self).deep_view() == selectors_padded(old(self).deep_view()),
    {
        pad_selectors(&mut self.exp_selectors);
    }
}

} // verus!
