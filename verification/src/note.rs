//! Notes and what shapes their pitch.

use crate::expression::{all_renamed, rename_expressions, Expression, ExpressionView};
use crate::number::Float32;
use crate::phoneme::{PhonemeOverride, PhonemeOverrideView};
use crate::text::{chars_of, same_text};
use vstd::prelude::*;

verus! {

/// The bit pattern of 175 as a single-precision number.
pub const VIBRATO_PERIOD_BITS: u32 = 0x432F_0000u32;

/// The bit pattern of 25 as a single-precision number.
pub const VIBRATO_DEPTH_BITS: u32 = 0x41C8_0000u32;

/// The bit pattern of 10 as a single-precision number.
pub const VIBRATO_FADE_BITS: u32 = 0x4120_0000u32;

/// The lyric where a document gives none: the one letter HIRAGANA LETTER A.
pub open spec fn default_lyric() -> Seq<char> {
    seq!['\u{3042}']
}

/// The duration of a note where a document gives none, in ticks.
#[inline]
pub fn default_note_duration() -> (r: i32)
    ensures
        r == 120,
{
    120
}

/// The lyric of a note where a document gives none.
#[inline]
pub fn default_note_lyric() -> (r: String)
    ensures
        r@ == default_lyric(),
{
    let mut lyric = String::new();
    lyric.push('\u{3042}');
    proof {
        assert(lyric@ =~= default_lyric());
    }
    lyric
}

/// Whether the first pitch point snaps to the note's tone where a pitch
/// record does not say.
#[inline]
pub fn default_snap_first() -> (r: bool)
    ensures
        r,
{
    true
}

/// The period of a vibrato where a document gives none: 175 milliseconds.
#[inline]
pub fn default_vibrato_period() -> (r: Float32)
    ensures
        r.bits == VIBRATO_PERIOD_BITS,
{
    Float32::from_bits(VIBRATO_PERIOD_BITS)
}

/// The depth of a vibrato where a document gives none: 25 cents.
#[inline]
pub fn default_vibrato_depth() -> (r: Float32)
    ensures
        r.bits == VIBRATO_DEPTH_BITS,
{
    Float32::from_bits(VIBRATO_DEPTH_BITS)
}

/// The fade-in of a vibrato where a document gives none: 10 milliseconds.
#[inline]
pub fn default_vibrato_in() -> (r: Float32)
    ensures
        r.bits == VIBRATO_FADE_BITS,
{
    Float32::from_bits(VIBRATO_FADE_BITS)
}

/// The fade-out of a vibrato where a document gives none: 10 milliseconds.
#[inline]
pub fn default_vibrato_out() -> (r: Float32)
    ensures
        r.bits == VIBRATO_FADE_BITS,
{
    Float32::from_bits(VIBRATO_FADE_BITS)
}

/// How the pitch moves towards a pitch point. The document writes the
/// variants as `io`, `l`, `i` and `o`.
#[derive(Debug, Clone, Copy, PartialEq, Eq, Structural)]
pub enum PitchPointShape {
    /// Ease in and out.
    Io,
    /// Linear.
    L,
    /// Ease in.
    I,
    /// Ease out.
    O,
}

impl DeepView for PitchPointShape {
    type V = PitchPointShape;

    open spec fn deep_view(&self) -> PitchPointShape {
        *self
    }
}

impl PitchPointShape {
    /// The code that stands for the variant in a document.
    pub open spec fn token_text(self) -> Seq<char> {
        match self {
            PitchPointShape::Io => "io"@,
            PitchPointShape::L => "l"@,
            PitchPointShape::I => "i"@,
            PitchPointShape::O => "o"@,
        }
    }

    /// The variant that a code of a document stands for, if it stands for
    /// one.
    pub open spec fn of_token(text: Seq<char>) -> Option<PitchPointShape> {
        if text == "io"@ {
            Some(PitchPointShape::Io)
        } else if text == "l"@ {
            Some(PitchPointShape::L)
        } else if text == "i"@ {
            Some(PitchPointShape::I)
        } else if text == "o"@ {
            Some(PitchPointShape::O)
        } else {
            None
        }
    }

    /// Each variant is read back from its own code.
    pub proof fn law_token_round_trip(self)
        ensures
            PitchPointShape::of_token(self.token_text()) == Some(self),
    {
        reveal_strlit("io");
        reveal_strlit("l");
        reveal_strlit("i");
        reveal_strlit("o");
        assert("io"@.len() == 2);
        assert("l"@[0] != "i"@[0]);
        assert("l"@[0] != "o"@[0]);
        assert("i"@[0] != "o"@[0]);
    }

    /// The code that stands for the variant in a document.
    pub fn token(self) -> (r: &'static str)
        ensures
            r@ == self.token_text(),
    {
        match self {
            PitchPointShape::Io => "io",
            PitchPointShape::L => "l",
            PitchPointShape::I => "i",
            PitchPointShape::O => "o",
        }
    }

    /// The variant that a code of a document stands for, if it stands for
    /// one.
    pub fn from_token(text: &str) -> (r: Option<Self>)
        ensures
            r == PitchPointShape::of_token(text@),
    {
        if same_text(text, "io") {
            Some(PitchPointShape::Io)
        } else if same_text(text, "l") {
            Some(PitchPointShape::L)
        } else if same_text(text, "i") {
            Some(PitchPointShape::I)
        } else if same_text(text, "o") {
            Some(PitchPointShape::O)
        } else {
            None
        }
    }
}

impl Default for PitchPointShape {
    #[inline]
    fn default() -> (r: Self)
        ensures
            r == PitchPointShape::Io,
    {
        PitchPointShape::Io
    }
}

/// One point of a pitch bend.
#[derive(Debug, Clone, Copy, PartialEq, Eq, Structural)]
pub struct PitchPoint {
    /// The position, in ticks.
    pub x: Float32,
    /// The pitch in cents, relative to the note's tone.
    pub y: Float32,
    /// How the pitch moves towards the point.
    pub shape: PitchPointShape,
}

impl DeepView for PitchPoint {
    type V = PitchPoint;

    open spec fn deep_view(&self) -> PitchPoint {
        *self
    }
}

/// The pitch bend of a note.
#[derive(Debug)]
pub struct Pitch {
    /// The points of the bend, in order.
    pub data: Vec<PitchPoint>,
    /// Whether the first point snaps to the note's tone.
    pub snap_first: bool,
}

/// The value of a [`Pitch`].
pub struct PitchView {
    pub data: Seq<PitchPoint>,
    pub snap_first: bool,
}

impl DeepView for Pitch {
    type V = PitchView;

    open spec fn deep_view(&self) -> PitchView {
        PitchView { data: self.data@, snap_first: self.snap_first }
    }
}

impl Clone for Pitch {
    fn clone(&self) -> (r: Self)
        ensures
            r.deep_view() == self.deep_view(),
    {
        let data = self.data.clone();
        proof {
            assert(data@ =~= self.data@);
        }
        Pitch { data, snap_first: self.snap_first }
    }
}

impl Default for Pitch {
    /// The pitch of a note whose document has no pitch record at all: no
    /// points, and nothing to snap.
    fn default() -> (r: Self)
        ensures
            r.deep_view() == (PitchView { data: Seq::empty(), snap_first: false }),
    {
        Pitch { data: Vec::new(), snap_first: false }
    }
}

/// The vibrato of a note. Times are in milliseconds, pitches in cents.
#[derive(Debug, Clone, Copy, PartialEq, Eq, Structural)]
pub struct Vibrato {
    /// How much of the note vibrates.
    pub length: Float32,
    /// The period.
    pub period: Float32,
    /// The depth.
    pub depth: Float32,
    /// The fade-in time; the document calls this field `in`.
    pub fade_in: Float32,
    /// The fade-out time.
    pub out: Float32,
    /// The shift.
    pub shift: Float32,
    /// The drift.
    pub drift: Float32,
    /// How strongly the volume follows.
    pub vol_link: Float32,
}

impl DeepView for Vibrato {
    type V = Vibrato;

    open spec fn deep_view(&self) -> Vibrato {
        *self
    }
}

impl Default for Vibrato {
    #[inline]
    fn default() -> (r: Self)
        ensures
            r == (Vibrato {
                length: Float32 { bits: 0 },
                period: Float32 { bits: VIBRATO_PERIOD_BITS },
                depth: Float32 { bits: VIBRATO_DEPTH_BITS },
                fade_in: Float32 { bits: VIBRATO_FADE_BITS },
                out: Float32 { bits: VIBRATO_FADE_BITS },
                shift: Float32 { bits: 0 },
                drift: Float32 { bits: 0 },
                vol_link: Float32 { bits: 0 },
            }),
    {
        Vibrato {
            length: Float32::zero(),
            period: default_vibrato_period(),
            depth: default_vibrato_depth(),
            fade_in: default_vibrato_in(),
            out: default_vibrato_out(),
            shift: Float32::zero(),
            drift: Float32::zero(),
            vol_link: Float32::zero(),
        }
    }
}

/// A note of a voice part.
#[derive(Debug)]
pub struct Note {
    /// The position in ticks.
    pub position: i32,
    /// The duration in ticks.
    pub duration: i32,
    /// The tone, as a MIDI note number.
    pub tone: i32,
    /// The lyric.
    pub lyric: String,
    /// The pitch bend.
    pub pitch: Pitch,
    /// The vibrato.
    pub vibrato: Vibrato,
    /// The expressions of the note's phonemes.
    pub phoneme_expressions: Vec<Expression>,
    /// The overrides of the note's phonemes.
    pub phoneme_overrides: Vec<PhonemeOverride>,
    /// The indexes of the note's phonemes.
    pub phoneme_indexes: Vec<i32>,
}

/// The value of a [`Note`].
pub struct NoteView {
    pub position: i32,
    pub duration: i32,
    pub tone: i32,
    pub lyric: Seq<char>,
    pub pitch: PitchView,
    pub vibrato: Vibrato,
    pub phoneme_expressions: Seq<ExpressionView>,
    pub phoneme_overrides: Seq<PhonemeOverrideView>,
    pub phoneme_indexes: Seq<i32>,
}

impl DeepView for Note {
    type V = NoteView;

    open spec fn deep_view(&self) -> NoteView {
        NoteView {
            position: self.position,
            duration: self.duration,
            tone: self.tone,
            lyric: self.lyric@,
            pitch: self.pitch.deep_view(),
            vibrato: self.vibrato,
            phoneme_expressions: self.phoneme_expressions.deep_view(),
            phoneme_overrides: self.phoneme_overrides.deep_view(),
            phoneme_indexes: self.phoneme_indexes@,
        }
    }
}

impl Clone for Note {
    fn clone(&self) -> (r: Self)
        ensures
            r.deep_view() == self.deep_view(),
    {
        let phoneme_expressions = self.phoneme_expressions.clone();
        let phoneme_overrides = self.phoneme_overrides.clone();
        let phoneme_indexes = self.phoneme_indexes.clone();
        proof {
            assert(phoneme_expressions.deep_view() =~= self.phoneme_expressions.deep_view());
            assert(phoneme_overrides.deep_view() =~= self.phoneme_overrides.deep_view());
            assert(phoneme_indexes@ =~= self.phoneme_indexes@);
        }
        Note {
            position: self.position,
            duration: self.duration,
            tone: self.tone,
            lyric: self.lyric.clone(),
            pitch: self.pitch.clone(),
            vibrato: self.vibrato,
            phoneme_expressions,
            phoneme_overrides,
            phoneme_indexes,
        }
    }
}

impl NoteView {
    /// The note with the abbreviation `to` in place of `from` in each of its
    /// phoneme expressions.
    pub open spec fn renamed(self, from: Seq<char>, to: Seq<char>) -> NoteView {
        NoteView { phoneme_expressions: all_renamed(self.phoneme_expressions, from, to), ..self }
    }

    /// The note with its lyric in the newer notation, see
    /// [`lyric_rewritten`].
    pub open spec fn relyricked(self) -> NoteView {
        NoteView { lyric: lyric_rewritten(self.lyric), ..self }
    }
}

/// Whether the three dots of the older continuation marker stand at
/// position `at` of the lyric.
pub open spec fn marker_at(lyric: Seq<char>, at: int) -> bool {
    &&& 0 <= at
    &&& at + 3 <= lyric.len()
    &&& lyric[at] == '.'
    &&& lyric[at + 1] == '.'
    &&& lyric[at + 2] == '.'
}

/// The lyric with a plus sign in place of each older continuation marker,
/// the markers found from left to right.
pub open spec fn markers_replaced(lyric: Seq<char>) -> Seq<char>
    decreases lyric.len(),
{
    if lyric.len() == 0 {
        lyric
    } else if marker_at(lyric, 0) {
        seq!['+'] + markers_replaced(lyric.skip(3))
    } else {
        seq![lyric[0]] + markers_replaced(lyric.skip(1))
    }
}

/// The lyric in the newer notation: where it begins with the older
/// continuation marker, every such marker in it becomes a plus sign; any
/// other lyric stays.
pub open spec fn lyric_rewritten(lyric: Seq<char>) -> Seq<char> {
    if marker_at(lyric, 0) {
        markers_replaced(lyric)
    } else {
        lyric
    }
}

/// Each note of the list renamed, see [`NoteView::renamed`].
pub open spec fn all_notes_renamed(notes: Seq<NoteView>, from: Seq<char>, to: Seq<char>) -> Seq<
    NoteView,
> {
    notes.map_values(|n: NoteView| n.renamed(from, to))
}

/// Each note of the list with its lyric in the newer notation.
pub open spec fn all_notes_relyricked(notes: Seq<NoteView>) -> Seq<NoteView> {
    notes.map_values(|n: NoteView| n.relyricked())
}

/// Whether the older continuation marker stands at position `at`.
fn has_marker_at(chars: &Vec<char>, at: usize) -> (r: bool)
    ensures
        r == marker_at(chars@, at as int),
{
    at < chars.len() && chars.len() - at >= 3 && chars[at] == '.' && chars[at + 1] == '.'
        && chars[at + 2] == '.'
}

/// The lyric in the newer notation, see [`lyric_rewritten`].
pub fn rewrite_lyric(lyric: &str) -> (r: String)
    ensures
        r@ == lyric_rewritten(lyric@),
{
    let chars = chars_of(lyric);
    if !has_marker_at(&chars, 0) {
        return lyric.to_owned();
    }
    let mut out = String::new();
    let mut i: usize = 0;
    proof {
        assert(chars@.skip(0) =~= chars@);
    }
    while i < chars.len()
        invariant
            i <= chars.len(),
            markers_replaced(chars@) == out@ + markers_replaced(chars@.skip(i as int)),
        decreases chars.len() - i,
    {
        let ghost rest = chars@.skip(i as int);
        let ghost done = out@;
        if has_marker_at(&chars, i) {
            out.push('+');
            proof {
                assert(marker_at(rest, 0));
                assert(rest.skip(3) =~= chars@.skip(i + 3));
                assert(out@ + markers_replaced(rest.skip(3)) =~= done + (seq!['+']
                    + markers_replaced(rest.skip(3))));
            }
            i += 3;
        } else {
            out.push(chars[i]);
            proof {
                assert(!marker_at(rest, 0));
                assert(rest.skip(1) =~= chars@.skip(i + 1));
                assert(out@ + markers_replaced(rest.skip(1)) =~= done + (seq![rest[0]]
                    + markers_replaced(rest.skip(1))));
            }
            i += 1;
        }
    }
    proof {
        assert(markers_replaced(chars@.skip(chars.len() as int)) =~= Seq::<char>::empty());
        assert(out@ =~= markers_replaced(chars@));
    }
    out
}

/// Gives every phoneme expression of every note whose abbreviation is
/// `from` the abbreviation `to`.
pub fn rename_in_notes(notes: &mut Vec<Note>, from: &str, to: &str)
    ensures
        final(notes).deep_view() == all_notes_renamed(old(notes).deep_view(), from@, to@),
{
    let ghost before = notes.deep_view();
    let mut i: usize = 0;
    while i < notes.len()
        invariant
            i <= notes@.len(),
            notes@.len() == before.len(),
            forall|k: int|
                0 <= k < i ==> (#[trigger] notes@[k]).deep_view() == before[k].renamed(from@, to@),
            forall|k: int|
                i <= k < notes@.len() ==> (#[trigger] notes@[k]).deep_view() == before[k],
        decreases notes@.len() - i,
    {
        rename_expressions(&mut notes[i].phoneme_expressions, from, to);
        i += 1;
    }
    proof {
        assert(notes.deep_view() =~= all_notes_renamed(before, from@, to@));
    }
}

/// Puts the lyric of every note into the newer notation.
pub fn rewrite_lyrics(notes: &mut Vec<Note>)
    ensures
        final(notes).deep_view() == all_notes_relyricked(old(notes).deep_view()),
{
    let ghost before = notes.deep_view();
    let mut i: usize = 0;
    while i < notes.len()
        invariant
            i <= notes@.len(),
            notes@.len() == before.len(),
            forall|k: int| 0 <= k < i ==> (#[trigger] notes@[k]).deep_view() == before[k].relyricked(),
            forall|k: int|
                i <= k < notes@.len() ==> (#[trigger] notes@[k]).deep_view() == before[k],
        decreases notes@.len() - i,
    {
        let lyric = rewrite_lyric(notes[i].lyric.as_str());
        notes[i].lyric = lyric;
        i += 1;
    }
    proof {
        assert(notes.deep_view() =~= all_notes_relyricked(before));
    }
}

} // verus!
