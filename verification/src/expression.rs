//! Expressions: named control parameters, their definitions and the values
//! attached to notes and tracks.

use crate::number::Float32;
use crate::text::same_text;
use vstd::prelude::*;

verus! {

/// How the value of an expression is chosen.
#[derive(Debug, Clone, Copy, PartialEq, Eq, Structural)]
pub enum ExpressionType {
    /// A single number between the descriptor's bounds.
    Numerical,
    /// One of the options that the descriptor lists.
    Options,
    /// A curve over time.
    Curve,
}

impl DeepView for ExpressionType {
    type V = ExpressionType;

    open spec fn deep_view(&self) -> ExpressionType {
        *self
    }
}

impl ExpressionType {
    /// The word that stands for the variant in a document.
    pub open spec fn token_text(self) -> Seq<char> {
        match self {
            ExpressionType::Numerical => "numerical"@,
            ExpressionType::Options => "options"@,
            ExpressionType::Curve => "curve"@,
        }
    }

    /// The variant that a word of a document stands for, if it stands for
    /// one.
    pub open spec fn of_token(text: Seq<char>) -> Option<ExpressionType> {
        if text == "numerical"@ {
            Some(ExpressionType::Numerical)
        } else if text == "options"@ {
            Some(ExpressionType::Options)
        } else if text == "curve"@ {
            Some(ExpressionType::Curve)
        } else {
            None
        }
    }

    /// Each variant is read back from its own word.
    pub proof fn law_token_round_trip(self)
        ensures
            ExpressionType::of_token(self.token_text()) == Some(self),
    {
        reveal_strlit("numerical");
        reveal_strlit("options");
        reveal_strlit("curve");
        assert("options"@[0] != "numerical"@[0]);
        assert("curve"@[0] != "numerical"@[0]);
        assert("curve"@[0] != "options"@[0]);
    }

    /// The word that stands for the variant in a document.
    pub fn token(self) -> (r: &'static str)
        ensures
            r@ == self.token_text(),
    {
        match self {
            ExpressionType::Numerical => "numerical",
            ExpressionType::Options => "options",
            ExpressionType::Curve => "curve",
        }
    }

    /// The variant that a word of a document stands for, if it stands for
    /// one.
    pub fn from_token(text: &str) -> (r: Option<Self>)
        ensures
            r == ExpressionType::of_token(text@),
    {
        if same_text(text, "numerical") {
            Some(ExpressionType::Numerical)
        } else if same_text(text, "options") {
            Some(ExpressionType::Options)
        } else if same_text(text, "curve") {
            Some(ExpressionType::Curve)
        } else {
            None
        }
    }
}

impl Default for ExpressionType {
    fn default() -> (r: Self)
        ensures
            r == ExpressionType::Numerical,
    {
        ExpressionType::Numerical
    }
}

/// The definition of a control parameter: its names, the kind of value it
/// takes, and the bounds and default of that value.
#[derive(Debug)]
pub struct ExpressionDescriptor {
    /// The display name.
    pub name: String,
    /// The abbreviation, by which expressions refer to this definition.
    pub abbr: String,
    /// How a value is chosen; the document calls this field `type`.
    pub kind: ExpressionType,
    /// The smallest value.
    pub min: Float32,
    /// The largest value.
    pub max: Float32,
    /// The value where none is given.
    pub default_value: Float32,
    /// Whether the parameter is rendered as a flag.
    pub is_flag: bool,
    /// The label of the flag.
    pub flag: Option<String>,
    /// The options to choose from.
    pub options: Vec<String>,
}

/// The value of an [`ExpressionDescriptor`].
pub struct ExpressionDescriptorView {
    pub name: Seq<char>,
    pub abbr: Seq<char>,
    pub kind: ExpressionType,
    pub min: Float32,
    pub max: Float32,
    pub default_value: Float32,
    pub is_flag: bool,
    pub flag: Option<Seq<char>>,
    pub options: Seq<Seq<char>>,
}

impl DeepView for ExpressionDescriptor {
    type V = ExpressionDescriptorView;

    open spec fn deep_view(&self) -> ExpressionDescriptorView {
        ExpressionDescriptorView {
            name: self.name@,
            abbr: self.abbr@,
            kind: self.kind,
            min: self.min,
            max: self.max,
            default_value: self.default_value,
            is_flag: self.is_flag,
            flag: self.flag.deep_view(),
            options: self.options.deep_view(),
        }
    }
}

impl Clone for ExpressionDescriptor {
    fn clone(&self) -> (r: Self)
        ensures
            r.deep_view() == self.deep_view(),
    {
        let flag = match &self.flag {
            Some(label) => Some(label.clone()),
            None => None,
        };
        let options = self.options.clone();
        proof {
            assert(options.deep_view() =~= self.options.deep_view());
        }
        ExpressionDescriptor {
            name: self.name.clone(),
            abbr: self.abbr.clone(),
            kind: self.kind,
            min: self.min,
            max: self.max,
            default_value: self.default_value,
            is_flag: self.is_flag,
            flag,
            options,
        }
    }
}

/// A value of a control parameter, attached to a note or a track.
#[derive(Debug)]
pub struct Expression {
    /// The phoneme that the value applies to, if it is bound to one.
    pub index: Option<i32>,
    /// The abbreviation of the parameter's definition.
    pub abbr: String,
    /// The value.
    pub value: Float32,
}

/// The value of an [`Expression`].
pub struct ExpressionView {
    pub index: Option<i32>,
    pub abbr: Seq<char>,
    pub value: Float32,
}

impl DeepView for Expression {
    type V = ExpressionView;

    open spec fn deep_view(&self) -> ExpressionView {
        ExpressionView { index: self.index, abbr: self.abbr@, value: self.value }
    }
}

impl Clone for Expression {
    fn clone(&self) -> (r: Self)
        ensures
            r.deep_view() == self.deep_view(),
    {
        Expression { index: self.index, abbr: self.abbr.clone(), value: self.value }
    }
}

impl Default for Expression {
    fn default() -> (r: Self)
        ensures
            r.deep_view() == (ExpressionView {
                index: None,
                abbr: Seq::empty(),
                value: Float32 { bits: 0 },
            }),
    {
        Expression { index: None, abbr: String::new(), value: Float32::zero() }
    }
}

impl ExpressionView {
    /// The expression with the abbreviation `to` in place of `from`; any
    /// other abbreviation stays.
    pub open spec fn renamed(self, from: Seq<char>, to: Seq<char>) -> ExpressionView {
        if self.abbr == from {
            ExpressionView { abbr: to, ..self }
        } else {
            self
        }
    }
}

/// Each expression of the list with the abbreviation `to` in place of
/// `from`.
pub open spec fn all_renamed(
    expressions: Seq<ExpressionView>,
    from: Seq<char>,
    to: Seq<char>,
) -> Seq<ExpressionView> {
    expressions.map_values(|e: ExpressionView| e.renamed(from, to))
}

/// Gives every expression of the list whose abbreviation is `from` the
/// abbreviation `to`.
pub fn rename_expressions(expressions: &mut Vec<Expression>, from: &str, to: &str)
    ensures
        final(expressions).deep_view() == all_renamed(old(expressions).deep_view(), from@, to@),
{
    let wanted: String = from.to_owned();
    let ghost before = expressions.deep_view();
    let mut i: usize = 0;
    while i < expressions.len()
        invariant
            i <= expressions@.len(),
            expressions@.len() == before.len(),
            wanted@ == from@,
            forall|k: int|
                0 <= k < i ==> (#[trigger] expressions@[k]).deep_view() == before[k].renamed(
                    from@,
                    to@,
                ),
            forall|k: int|
                i <= k < expressions@.len() ==> (#[trigger] expressions@[k]).deep_view()
                    == before[k],
        decreases expressions@.len() - i,
    {
        if expressions[i].abbr == wanted {
            expressions[i].abbr = to.to_owned();
        }
        i += 1;
    }
    proof {
        assert(expressions.deep_view() =~= all_renamed(before, from@, to@));
    }
}

/// A control curve of a voice part: points given by two coordinate lists,
/// which are meant to have the same length.
#[derive(Debug)]
pub struct Curve {
    /// The abbreviation of the parameter's definition.
    pub abbr: String,
    /// The positions of the points, in ticks.
    pub xs: Vec<i32>,
    /// The values of the points.
    pub ys: Vec<i32>,
}

/// The value of a [`Curve`].
pub struct CurveView {
    pub abbr: Seq<char>,
    pub xs: Seq<i32>,
    pub ys: Seq<i32>,
}

impl DeepView for Curve {
    type V = CurveView;

    open spec fn deep_view(&self) -> CurveView {
        CurveView { abbr: self.abbr@, xs: self.xs@, ys: self.ys@ }
    }
}

impl Clone for Curve {
    fn clone(&self) -> (r: Self)
        ensures
            r.deep_view() == self.deep_view(),
    {
        let xs = self.xs.clone();
        let ys = self.ys.clone();
        proof {
            assert(xs@ =~= self.xs@);
            assert(ys@ =~= self.ys@);
        }
        Curve { abbr: self.abbr.clone(), xs, ys }
    }
}

impl Default for Curve {
    fn default() -> (r: Self)
        ensures
            r.deep_view() == (CurveView {
                abbr: Seq::empty(),
                xs: Seq::empty(),
                ys: Seq::empty(),
            }),
    {
        Curve { abbr: String::new(), xs: Vec::new(), ys: Vec::new() }
    }
}

} // verus!
