//! The upgrade of a project from one schema revision to a later one, as a
//! function on project values, and the laws that hold of it.
//!
//! An upgrade is a chain of four steps. Each step belongs to the revision
//! that introduced a change of notation, and turns a project written before
//! that revision into one written for it.

use crate::expression::ExpressionDescriptorView;
use crate::note::{all_notes_relyricked, lyric_rewritten, marker_at, markers_replaced};
use crate::number::Float64;
use crate::part::{all_parts_relyricked, all_parts_renamed};
use crate::project::ProjectView;
use crate::time::{Tempo, TimeSignature, BPM_120_BITS};
use crate::version::Version;
use vstd::prelude::*;

verus! {

/// The revision that renamed the accent expression: `0.4`.
pub open spec fn accent_threshold() -> Version {
    Version { major: 0, minor: 4, patch: 0 }
}

/// The revision that changed the continuation marker of lyrics: `0.5`.
pub open spec fn lyric_threshold() -> Version {
    Version { major: 0, minor: 5, patch: 0 }
}

/// The revision that moved tempo and time signature into lists: `0.6`.
pub open spec fn timing_threshold() -> Version {
    Version { major: 0, minor: 6, patch: 0 }
}

/// The revision that fixed the number of expression selectors: `0.7`.
pub open spec fn selector_threshold() -> Version {
    Version { major: 0, minor: 7, patch: 0 }
}

/// The revision that renamed the accent expression.
pub fn accent_revision() -> (r: Version)
    ensures
        r == accent_threshold(),
{
    Version::new(0, 4, 0)
}

/// The revision that changed the continuation marker of lyrics.
pub fn lyric_revision() -> (r: Version)
    ensures
        r == lyric_threshold(),
{
    Version::new(0, 5, 0)
}

/// The revision that moved tempo and time signature into lists.
pub fn timing_revision() -> (r: Version)
    ensures
        r == timing_threshold(),
{
    Version::new(0, 6, 0)
}

/// The revision that fixed the number of expression selectors.
pub fn selector_revision() -> (r: Version)
    ensures
        r == selector_threshold(),
{
    Version::new(0, 7, 0)
}

/// The abbreviation of the accent expression before the rename.
pub open spec fn legacy_accent_abbr() -> Seq<char> {
    "acc"@
}

/// The display name of the accent expression before the rename.
pub open spec fn legacy_accent_name() -> Seq<char> {
    "accent"@
}

/// The abbreviation of the accent expression after the rename.
pub open spec fn attack_abbr() -> Seq<char> {
    "atk"@
}

/// The display name of the accent expression after the rename.
pub open spec fn attack_name() -> Seq<char> {
    "attack"@
}

/// The ten expression selectors of a project that names none.
pub open spec fn canonical_selectors() -> Seq<Seq<char>> {
    seq!["dyn"@, "pitd"@, "clr"@, "eng"@, "vel"@, "vol"@, "atk"@, "dec"@, "gen"@, "bre"@]
}

/// Whether the project defines the accent expression as older revisions
/// did: under the old abbreviation and with the old display name. A
/// definition that only shares the abbreviation is the user's own.
pub open spec fn has_legacy_accent(p: ProjectView) -> bool {
    &&& p.expressions.contains_key(legacy_accent_abbr())
    &&& p.expressions[legacy_accent_abbr()].name == legacy_accent_name()
}

/// The step to `0.4`. Where the project defines the accent expression as
/// older revisions did, the definition moves to the new abbreviation and
/// takes the new names, and every phoneme expression of every note that
/// refers to the old abbreviation refers to the new one. Any other project
/// stays as it is.
pub open spec fn accent_renamed(p: ProjectView) -> ProjectView {
    if has_legacy_accent(p) {
        ProjectView {
            expressions: p.expressions.remove(legacy_accent_abbr()).insert(
                attack_abbr(),
                ExpressionDescriptorView {
                    abbr: attack_abbr(),
                    name: attack_name(),
                    ..p.expressions[legacy_accent_abbr()]
                },
            ),
            voice_parts: all_parts_renamed(p.voice_parts, legacy_accent_abbr(), attack_abbr()),
            ..p
        }
    } else {
        p
    }
}

/// The step to `0.5`: the lyric of every note in the newer notation.
pub open spec fn lyrics_rewritten(p: ProjectView) -> ProjectView {
    ProjectView { voice_parts: all_parts_relyricked(p.voice_parts), ..p }
}

/// `value` where it is greater than zero, else four.
pub open spec fn positive_or_four(value: i32) -> i32 {
    if value > 0 {
        value
    } else {
        4
    }
}

/// `value` where it is greater than zero, else 120.
pub open spec fn positive_or_120(value: Float64) -> Float64 {
    if value.positive() {
        value
    } else {
        Float64 { bits: BPM_120_BITS }
    }
}

/// The step to `0.6`: one time signature at bar zero and one tempo at
/// position zero, taken from the project's single values, with the default
/// in place of a value that is not greater than zero. The lists that stood
/// there before are dropped.
pub open spec fn timing_flattened(p: ProjectView) -> ProjectView {
    ProjectView {
        time_signatures: seq![
            TimeSignature {
                bar_position: 0,
                beat_per_bar: positive_or_four(p.beat_per_bar),
                beat_unit: positive_or_four(p.beat_unit),
            },
        ],
        tempos: seq![Tempo { position: 0, bpm: positive_or_120(p.bpm) }],
        ..p
    }
}

/// A list of selectors filled up to ten: the entries stay where they are,
/// and the places after them take the canonical selectors of those places.
/// A list of ten or more stays as it is.
pub open spec fn padded_selectors(selectors: Seq<Seq<char>>) -> Seq<Seq<char>> {
    if selectors.len() >= canonical_selectors().len() {
        selectors
    } else {
        selectors + canonical_selectors().skip(selectors.len() as int)
    }
}

/// The step to `0.7`: the expression selectors filled up to ten.
pub open spec fn selectors_padded(p: ProjectView) -> ProjectView {
    ProjectView { exp_selectors: padded_selectors(p.exp_selectors), ..p }
}

/// The revision that a project is written for: the one it names, and
/// `0.0.0` where it names none.
pub open spec fn detected(p: ProjectView) -> Version {
    match p.ustx_version {
        Some(version) => version,
        None => Version::spec_zero(),
    }
}

/// Whether an upgrade from `from` to `target` passes the revision
/// `threshold`, so that the step of that revision applies.
pub open spec fn passes(from: Version, target: Version, threshold: Version) -> bool {
    from.before(threshold) && threshold.at_most(target)
}

/// Decides [`passes`].
pub fn passes_revision(from: Version, target: Version, threshold: Version) -> (r: bool)
    ensures
        r == passes(from, target, threshold),
{
    from < threshold && target >= threshold
}

/// Whether the engine can take the project to `target`: neither the
/// project's revision nor the target is newer than the engine knows.
pub open spec fn supported(p: ProjectView, target: Version) -> bool {
    target.at_most(Version::spec_current()) && detected(p).at_most(Version::spec_current())
}

/// The revision that makes a request unsupported: the target where that is
/// too new, else the project's own revision.
pub open spec fn offending(p: ProjectView, target: Version) -> Version {
    if Version::spec_current().before(target) {
        target
    } else {
        detected(p)
    }
}

/// The content of the project after the steps of every revision that an
/// upgrade to `target` passes, in the order of the revisions.
pub open spec fn upgraded(p: ProjectView, target: Version) -> ProjectView {
    let from = detected(p);
    let p1 = if passes(from, target, accent_threshold()) {
        accent_renamed(p)
    } else {
        p
    };
    let p2 = if passes(from, target, lyric_threshold()) {
        lyrics_rewritten(p1)
    } else {
        p1
    };
    let p3 = if passes(from, target, timing_threshold()) {
        timing_flattened(p2)
    } else {
        p2
    };
    if passes(from, target, selector_threshold()) {
        selectors_padded(p3)
    } else {
        p3
    }
}

/// The project marked as written for `target`, its content unchanged.
pub open spec fn stamped(p: ProjectView, target: Version) -> ProjectView {
    ProjectView { ustx_version: Some(target), ..p }
}

/// The project converted to `target`: upgraded, then marked.
pub open spec fn converted(p: ProjectView, target: Version) -> ProjectView {
    stamped(upgraded(p, target), target)
}

/// A rewritten lyric does not begin with the older continuation marker, so
/// rewriting it again changes nothing.
pub proof fn law_lyric_rewritten_once(lyric: Seq<char>)
    ensures
        !marker_at(lyric_rewritten(lyric), 0),
        lyric_rewritten(lyric_rewritten(lyric)) == lyric_rewritten(lyric),
{
    if marker_at(lyric, 0) {
        assert(markers_replaced(lyric)[0] == '+');
    }
}

/// The step to `0.4` changes nothing in a project that has taken it.
pub proof fn law_accent_step_idempotent(p: ProjectView)
    ensures
        accent_renamed(accent_renamed(p)) == accent_renamed(p),
{
    if has_legacy_accent(p) {
        reveal_strlit("acc");
        reveal_strlit("atk");
        assert(legacy_accent_abbr() != attack_abbr()) by {
            assert(legacy_accent_abbr()[1] == 'c');
            assert(attack_abbr()[1] == 't');
        }
        assert(!accent_renamed(p).expressions.contains_key(legacy_accent_abbr()));
    }
}

/// The step to `0.5` changes nothing in a project that has taken it.
pub proof fn law_lyric_step_idempotent(p: ProjectView)
    ensures
        lyrics_rewritten(lyrics_rewritten(p)) == lyrics_rewritten(p),
{
    let once = all_parts_relyricked(p.voice_parts);
    let twice = all_parts_relyricked(once);
    assert forall|i: int| 0 <= i < once.len() implies twice[i] == once[i] by {
        let notes = all_notes_relyricked(p.voice_parts[i].notes);
        let again = all_notes_relyricked(notes);
        assert forall|j: int| 0 <= j < notes.len() implies again[j] == notes[j] by {
            law_lyric_rewritten_once(p.voice_parts[i].notes[j].lyric);
        }
        assert(again =~= notes);
    }
    assert(twice =~= once);
}

/// The step to `0.6` changes nothing in a project that has taken it.
pub proof fn law_timing_step_idempotent(p: ProjectView)
    ensures
        timing_flattened(timing_flattened(p)) == timing_flattened(p),
{
}

/// The step to `0.7` changes nothing in a project that has taken it.
pub proof fn law_selector_step_idempotent(p: ProjectView)
    ensures
        selectors_padded(selectors_padded(p)) == selectors_padded(p),
{
}

/// After the step to `0.7` a project has at least ten selectors, and the
/// selectors it had stand where they stood.
pub proof fn law_selectors_kept(selectors: Seq<Seq<char>>)
    ensures
        padded_selectors(selectors).len() >= 10,
        padded_selectors(selectors).len() >= selectors.len(),
        forall|i: int|
            0 <= i < selectors.len() ==> padded_selectors(selectors)[i] == selectors[i],
        forall|i: int|
            selectors.len() <= i < padded_selectors(selectors).len() ==> padded_selectors(
                selectors,
            )[i] == canonical_selectors()[i],
{
}

/// A conversion to a revision that is not newer than the project's own
/// changes the mark and nothing else.
pub proof fn law_no_op_floor(p: ProjectView, target: Version)
    requires
        target.at_most(detected(p)),
    ensures
        converted(p, target) == stamped(p, target),
{
}

/// A conversion in two stages gives what the conversion at once gives:
/// for revisions `a <= b <= c`, taking a project of revision `a` to `b` and
/// then to `c` is taking it to `c`.
pub proof fn law_staged_conversion(p: ProjectView, middle: Version, target: Version)
    requires
        detected(p).at_most(middle),
        middle.at_most(target),
    ensures
        converted(converted(p, middle), target) == converted(p, target),
{
}

} // verus!
