//! What can go wrong when a project document is read, upgraded or written.

use vstd::prelude::*;

verus! {

/// An error of this library.
#[derive(Debug, PartialEq, Eq)]
pub enum Error {
    /// The document codec could not read or write a document. The field
    /// holds the codec's message.
    Yaml(String),
    /// A schema version is newer than the upgrade engine knows. The field
    /// holds the textual form of that version.
    UnsupportedVersion(String),
    /// The text holds no document at all.
    MissingDocument,
}

/// The words before the detail of a codec error.
pub open spec fn yaml_prefix() -> Seq<char> {
    "yaml error: "@
}

/// The words before the version of an unsupported-version error.
pub open spec fn unsupported_prefix() -> Seq<char> {
    "unsupported ustx version: "@
}

/// The message of a missing-document error.
pub open spec fn missing_document_message() -> Seq<char> {
    "missing document"@
}

impl Error {
    /// The message of the error, as a specification value.
    pub open spec fn message(self) -> Seq<char> {
        match self {
            Error::Yaml(detail) => yaml_prefix() + detail@,
            Error::UnsupportedVersion(version) => unsupported_prefix() + version@,
            Error::MissingDocument => missing_document_message(),
        }
    }

    /// The error for a schema version that is too new, given the version's
    /// textual form.
    #[inline]
    #[must_use]
    pub fn unsupported_version(version: String) -> (r: Self)
        ensures
            r == Error::UnsupportedVersion(version),
    {
        Error::UnsupportedVersion(version)
    }

    /// The message of the error.
    pub fn to_string(&self) -> (r: String)
        ensures
            r@ == self.message(),
    {
        match self {
            Error::Yaml(detail) => {
                let mut out: String = "yaml error: ".to_owned();
                out.append(detail.as_str());
                out
            },
            Error::UnsupportedVersion(version) => {
                let mut out: String = "unsupported ustx version: ".to_owned();
                out.append(version.as_str());
                out
            },
            Error::MissingDocument => "missing document".to_owned(),
        }
    }
}

} // verus!
