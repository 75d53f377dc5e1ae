//! Schema versions: an ordered triple of numbers with a short textual form.

use crate::text::{
    chars_of, contains_char, count_char, decimal, is_digit, lemma_decimal_digits, occurrences,
    push_decimal, string_of, trim, trimmed, trimmed_end, trimmed_start, white_space,
};
use std::cmp::Ordering;
use vstd::prelude::*;
use vstd::std_specs::cmp::PartialOrdSpecImpl;

verus! {

/// What `semver::Version::parse` makes of a text: the version it reads, with
/// any pre-release and build metadata left out, or the message of its error
/// where it rejects the text.
pub uninterp spec fn semver_parse(text: Seq<char>) -> Result<Version, Seq<char>>;

/// A schema version. Versions are ordered as triples, the major number first.
#[derive(Debug, Clone, Copy, PartialEq, Eq, Ord, Hash, Structural)]
pub struct Version {
    pub major: u64,
    pub minor: u64,
    pub patch: u64,
}

/// The three numerals `a.b.c`, each in decimal without leading zeros.
pub open spec fn dotted(a: u64, b: u64, c: u64) -> Seq<char> {
    decimal(a as nat) + seq!['.'] + decimal(b as nat) + seq!['.'] + decimal(c as nat)
}

/// Whether `text` writes the version in numerals only: all three numbers,
/// or without a patch number that is zero, or the major number alone where
/// the other two are zero.
pub open spec fn plain_form(text: Seq<char>, v: Version) -> bool {
    ||| text == dotted(v.major, v.minor, v.patch)
    ||| (v.patch == 0 && text == decimal(v.major as nat) + seq!['.'] + decimal(v.minor as nat))
    ||| (v.patch == 0 && v.minor == 0 && text == decimal(v.major as nat))
}

/// The text with which a lenient reading tries again after the strict one
/// has failed: the input with `.0` appended until it has three segments.
/// There is none where the input holds `-` or `+`, or has three segments or
/// more already.
pub open spec fn padded(text: Seq<char>) -> Option<Seq<char>> {
    if text.contains('-') || text.contains('+') {
        None
    } else if occurrences(text, '.') >= 2 {
        None
    } else if occurrences(text, '.') == 1 {
        Some(text + seq!['.', '0'])
    } else {
        Some(text + seq!['.', '0', '.', '0'])
    }
}

/// A reading as a value: the version, or the characters of the message.
pub open spec fn outcome(reading: Result<Version, String>) -> Result<Version, Seq<char>> {
    match reading {
        Ok(version) => Ok(version),
        Err(message) => Err(message@),
    }
}

/// What two attempts come to: the version of the first attempt that
/// succeeds, and where none does the message of the first.
pub open spec fn settled(
    first: Result<Version, Seq<char>>,
    retry: Option<Result<Version, Seq<char>>>,
) -> Result<Version, Seq<char>> {
    match first {
        Ok(version) => Ok(version),
        Err(message) => match retry {
            Some(Ok(version)) => Ok(version),
            _ => Err(message),
        },
    }
}

/// The two-stage reading of a text that is not empty: the strict reading,
/// and where that fails the strict reading of the padded text, if there is
/// one. A failure carries the message of the first, strict attempt.
pub open spec fn lenient(text: Seq<char>) -> Result<Version, Seq<char>> {
    settled(
        semver_parse(text),
        match padded(text) {
            Some(retry) => Some(semver_parse(retry)),
            None => None,
        },
    )
}

/// The version that a text stands for: `0.0.0` for a text that is empty
/// once trimmed, else the lenient reading of the trimmed text.
pub open spec fn parsed(raw: Seq<char>) -> Result<Version, Seq<char>> {
    let text = trimmed(raw);
    if text.len() == 0 {
        Ok(Version::spec_zero())
    } else {
        lenient(text)
    }
}

/// Calls `semver::Version::parse`, keeps the three numbers of the version it
/// returns and, of its error, the message. The outcome is a function of the
/// text. A text with fewer than two dots is rejected, since the parser asks
/// for a dot after the major and after the minor number; three decimal
/// numerals without leading zeros, each within 64 bits and joined by dots,
/// are read as those three numbers.
#[verifier::external_body]
fn strict_parse(text: &str) -> (r: Result<Version, String>)
    ensures
        outcome(r) == semver_parse(text@),
        occurrences(text@, '.') < 2 ==> r is Err,
        (forall|a: u64, b: u64, c: u64|
            text@ == #[trigger] dotted(a, b, c) ==> r == Ok::<Version, String>(
                Version { major: a, minor: b, patch: c },
            )),
{
    match semver::Version::parse(text) {
        Ok(v) => Ok(Version { major: v.major, minor: v.minor, patch: v.patch }),
        Err(e) => Err(e.to_string()),
    }
}

impl Version {
    /// Whether `self` comes strictly before `other` in the order of triples.
    pub open spec fn before(self, other: Version) -> bool {
        ||| self.major < other.major
        ||| (self.major == other.major && self.minor < other.minor)
        ||| (self.major == other.major && self.minor == other.minor && self.patch < other.patch)
    }

    /// Whether `self` equals `other` or comes before it.
    pub open spec fn at_most(self, other: Version) -> bool {
        self == other || self.before(other)
    }

    /// The version `0.0.0`, as a specification value.
    pub open spec fn spec_zero() -> Version {
        Version { major: 0, minor: 0, patch: 0 }
    }

    /// The newest schema revision that the upgrade engine knows, `0.7`, as a
    /// specification value.
    pub open spec fn spec_current() -> Version {
        Version { major: 0, minor: 7, patch: 0 }
    }

    /// The textual form: `major.minor`, followed by `.patch` where the patch
    /// number is not zero.
    pub open spec fn text(self) -> Seq<char> {
        if self.patch > 0 {
            dotted(self.major, self.minor, self.patch)
        } else {
            decimal(self.major as nat) + seq!['.'] + decimal(self.minor as nat)
        }
    }

    /// The version with the given numbers.
    #[inline]
    #[must_use]
    pub fn new(major: u64, minor: u64, patch: u64) -> (r: Self)
        ensures
            r == (Version { major, minor, patch }),
    {
        Self { major, minor, patch }
    }

    /// The version `0.0.0`, which stands for a document without a version.
    #[inline]
    #[must_use]
    #[verifier::when_used_as_spec(spec_zero)]
    pub fn zero() -> (r: Self)
        ensures
            r == Version::spec_zero(),
    {
        Self::new(0, 0, 0)
    }

    /// The newest schema revision that the upgrade engine knows: `0.7`.
    #[inline]
    #[must_use]
    #[verifier::when_used_as_spec(spec_current)]
    pub fn current() -> (r: Self)
        ensures
            r == Version::spec_current(),
    {
        Self::new(0, 7, 0)
    }

    /// The textual form of the version, see [`Version::text`].
    pub fn to_string(&self) -> (r: String)
        ensures
            r@ == self.text(),
    {
        let mut out = String::new();
        push_decimal(&mut out, self.major);
        out.push('.');
        push_decimal(&mut out, self.minor);
        if self.patch > 0 {
            out.push('.');
            push_decimal(&mut out, self.patch);
        }
        proof {
            assert(out@ =~= self.text());
        }
        out
    }

    /// The text for the second, padded attempt of a lenient reading, if the
    /// input allows one: see [`padded`].
    pub fn fallback_text(input: &str) -> (r: Option<String>)
        ensures
            match r {
                Some(retry) => padded(input@) == Some(retry@),
                None => padded(input@) is None,
            },
    {
        let chars = chars_of(input);
        if contains_char(&chars, '-') || contains_char(&chars, '+') {
            return None;
        }
        let dots = count_char(&chars, '.');
        if dots >= 2 {
            return None;
        }
        let mut out = string_of(&chars, 0, chars.len());
        proof {
            assert(chars@.subrange(0, chars.len() as int) =~= input@);
        }
        if dots == 0 {
            out.push('.');
            out.push('0');
        }
        out.push('.');
        out.push('0');
        proof {
            if dots == 0 {
                assert(out@ =~= input@ + seq!['.', '0', '.', '0']);
            } else {
                assert(out@ =~= input@ + seq!['.', '0']);
            }
        }
        Some(out)
    }

    /// The outcome of the two attempts of a lenient reading, see
    /// [`settled`]: `retry` is the second attempt, if one was made.
    pub fn settle(first: Result<Self, String>, retry: Option<Result<Self, String>>) -> (r: Result<
        Self,
        String,
    >)
        ensures
            outcome(r) == settled(
                outcome(first),
                match retry {
                    Some(second) => Some(outcome(second)),
                    None => None,
                },
            ),
    {
        match first {
            Ok(version) => Ok(version),
            Err(first_error) => match retry {
                Some(Ok(version)) => Ok(version),
                Some(Err(_)) => Err(first_error),
                None => Err(first_error),
            },
        }
    }

    /// Reads a text that is not empty: strictly first, and where that fails
    /// once more after padding. The error is that of the first attempt.
    fn parse_with_fallback(input: &str) -> (r: Result<Self, String>)
        ensures
            outcome(r) == lenient(input@),
            forall|v: Version| #[trigger] plain_form(input@, v) ==> r == Ok::<Version, String>(v),
    {
        let first = strict_parse(input);
        let retry = if first.is_err() {
            match Self::fallback_text(input) {
                Some(normalized) => Some(strict_parse(normalized.as_str())),
                None => None,
            }
        } else {
            None
        };
        let r = Self::settle(first, retry);
        proof {
            assert forall|v: Version| #[trigger] plain_form(input@, v) implies r == Ok::<
                Version,
                String,
            >(v) by {
                lemma_plain_form(input@, v);
            }
        }
        r
    }

    /// Reads a version from its text. White space around the text is
    /// ignored, and an empty text stands for `0.0.0`. Otherwise the text is
    /// read strictly and, where that fails, leniently: see [`parsed`]. An
    /// error holds the message of the strict reading.
    /// A text that, once trimmed, writes a version in numerals only is read
    /// as that version, and so the textual form of every version is read
    /// back as that version.
    pub fn from_str(raw: &str) -> (r: Result<Self, String>)
        ensures
            outcome(r) == parsed(raw@),
            forall|v: Version|
                #[trigger] plain_form(trimmed(raw@), v) ==> r == Ok::<Version, String>(v),
            forall|v: Version| raw@ == #[trigger] v.text() ==> r == Ok::<Version, String>(v),
    {
        let text = trim(raw);
        proof {
            assert forall|v: Version| #[trigger] plain_form(text@, v) implies text@.len() > 0 by {
                lemma_plain_form(text@, v);
            }
            assert forall|v: Version| raw@ == #[trigger] v.text() implies plain_form(
                trimmed(raw@),
                v,
            ) by {
                lemma_text_shape(v);
            }
        }
        if text.as_str().is_empty() {
            return Ok(Self::zero());
        }
        Self::parse_with_fallback(text.as_str())
    }

    /// The best guess at the version that a text stands for: what
    /// [`Version::from_str`] reads, and `0.0.0` where there is no text or
    /// the text cannot be read.
    #[inline]
    #[must_use]
    pub fn parse(input: Option<&str>) -> (r: Self)
        ensures
            r == match input {
                Some(raw) => match parsed(raw@) {
                    Ok(version) => version,
                    Err(_) => Version::spec_zero(),
                },
                None => Version::spec_zero(),
            },
            forall|v: Version|
                input is Some && #[trigger] plain_form(trimmed(input->0@), v) ==> r == v,
            forall|v: Version| input matches Some(raw) && raw@ == #[trigger] v.text() ==> r == v,
    {
        match input {
            Some(raw) => match Self::from_str(raw) {
                Ok(version) => version,
                Err(_) => Self::zero(),
            },
            None => Self::zero(),
        }
    }
}

/// The order of versions is a strict total order.
pub proof fn law_order_is_total(a: Version, b: Version, c: Version)
    ensures
        !a.before(a),
        a.before(b) && b.before(c) ==> a.before(c),
        a.before(b) || b.before(a) || a == b,
        !(a.before(b) && b.before(a)),
{
}

/// A decimal numeral holds none of the characters that are not digits.
proof fn lemma_decimal_lacks(n: nat, c: char)
    requires
        !is_digit(c),
    ensures
        !decimal(n).contains(c),
        occurrences(decimal(n), c) == 0,
    decreases n,
{
    lemma_decimal_digits(n);
    lemma_occurrences_none(decimal(n), c);
}

/// A character that does not occur is counted zero times.
proof fn lemma_occurrences_none(s: Seq<char>, c: char)
    requires
        forall|i: int| 0 <= i < s.len() ==> s[i] != c,
    ensures
        occurrences(s, c) == 0,
    decreases s.len(),
{
    if s.len() > 0 {
        lemma_occurrences_none(s.drop_last(), c);
    }
}

/// Occurrences add up over concatenation.
proof fn lemma_occurrences_concat(s: Seq<char>, t: Seq<char>, c: char)
    ensures
        occurrences(s + t, c) == occurrences(s, c) + occurrences(t, c),
    decreases t.len(),
{
    if t.len() == 0 {
        assert(s + t =~= s);
    } else {
        assert((s + t).drop_last() =~= s + t.drop_last());
        lemma_occurrences_concat(s, t.drop_last(), c);
    }
}

/// The textual form of a version writes it in numerals only, and trimming
/// leaves it as it is, since it starts and ends with a digit.
pub proof fn lemma_text_shape(v: Version)
    ensures
        plain_form(v.text(), v),
        trimmed(v.text()) == v.text(),
{
    let t = v.text();
    lemma_decimal_digits(v.major as nat);
    lemma_decimal_digits(v.minor as nat);
    lemma_decimal_digits(v.patch as nat);
    assert(is_digit(t[0]));
    assert(is_digit(t.last()));
    assert(!white_space(t[0]));
    assert(!white_space(t.last()));
    assert(trimmed_start(t) == t);
    assert(trimmed_end(t) == t);
}

/// A text that writes a version in numerals only is not empty and holds
/// neither `-` nor `+`. It is either the full form, or has fewer than two
/// dots and is padded to the full form.
proof fn lemma_plain_form(text: Seq<char>, v: Version)
    requires
        plain_form(text, v),
    ensures
        text.len() > 0,
        text == dotted(v.major, v.minor, v.patch) || (occurrences(text, '.') < 2 && padded(text)
            == Some(dotted(v.major, v.minor, v.patch))),
{
    let major = decimal(v.major as nat);
    let minor = decimal(v.minor as nat);
    let dot = seq!['.'];
    lemma_decimal_digits(v.major as nat);
    lemma_decimal_digits(v.minor as nat);
    lemma_decimal_lacks(v.major as nat, '.');
    lemma_decimal_lacks(v.minor as nat, '.');
    assert(decimal(0) =~= seq!['0']);
    if text == dotted(v.major, v.minor, v.patch) {
    } else if text == major + dot + minor {
        assert forall|i: int| 0 <= i < text.len() implies is_digit(#[trigger] text[i]) || text[i]
            == '.' by {}
        lemma_occurrences_concat(major, dot, '.');
        lemma_occurrences_concat(major + dot, minor, '.');
        assert(occurrences(dot, '.') == 1) by {
            reveal_with_fuel(occurrences, 2);
        }
        assert(text + seq!['.', '0'] =~= dotted(v.major, v.minor, 0));
    } else {
        assert forall|i: int| 0 <= i < text.len() implies is_digit(#[trigger] text[i]) by {}
        assert(text + seq!['.', '0', '.', '0'] =~= dotted(v.major, 0, 0));
    }
}

impl PartialOrd for Version {
    fn partial_cmp(&self, other: &Self) -> (r: Option<Ordering>) {
        if self.major < other.major {
            Some(Ordering::Less)
        } else if self.major > other.major {
            Some(Ordering::Greater)
        } else if self.minor < other.minor {
            Some(Ordering::Less)
        } else if self.minor > other.minor {
            Some(Ordering::Greater)
        } else if self.patch < other.patch {
            Some(Ordering::Less)
        } else if self.patch > other.patch {
            Some(Ordering::Greater)
        } else {
            Some(Ordering::Equal)
        }
    }
}

impl PartialOrdSpecImpl for Version {
    open spec fn obeys_partial_cmp_spec() -> bool {
        true
    }

    open spec fn partial_cmp_spec(&self, other: &Self) -> Option<Ordering> {
        if self.before(*other) {
            Some(Ordering::Less)
        } else if other.before(*self) {
            Some(Ordering::Greater)
        } else {
            Some(Ordering::Equal)
        }
    }
}

} // verus!
