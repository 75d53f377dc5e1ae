//! A typed model of singing-voice project documents and the engine that
//! upgrades documents written under older schema revisions.
//!
//! The data model mirrors the on-disk layout field by field. Real-valued
//! fields are carried as IEEE 754 bit patterns (see [`number`]), so every
//! value of the model is built from integers, booleans, strings and
//! sequences. The upgrade engine ([`Project::convert_to`]) is specified as a
//! function on the mathematical view of a project.

pub mod error;
pub mod expression;
pub mod expression_map;
pub mod migration;
pub mod note;
pub mod number;
pub mod part;
pub mod phoneme;
pub mod project;
pub mod text;
pub mod time;
pub mod track;
pub mod version;

pub use error::Error;
pub use expression::{Curve, Expression, ExpressionDescriptor, ExpressionType};
pub use expression_map::ExpressionMap;
pub use note::{Note, Pitch, PitchPoint, PitchPointShape, Vibrato};
pub use number::{Float32, Float64};
pub use part::{VoicePart, WavePart};
pub use phoneme::PhonemeOverride;
pub use project::Project;
pub use time::{Tempo, TimeSignature};
pub use track::{RenderSettings, Track};
pub use version::Version;
