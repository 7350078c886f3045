use vstd::prelude::*;
use vstd::string::*;

verus! {

/// Why a build aborted. Every failure is fatal: the build stops at the
/// first one, leaves already written pages in place, and reports a single
/// message naming the stage that failed and the underlying cause.
pub enum BuildError {
    /// A file could not be opened, read or written.
    IoError(String),
    /// A template failed to load or render; carries the template's
    /// identity and the cause.
    TemplateError { name: String, cause: String },
    /// A source file's creation time was unavailable.
    MetadataError(String),
    /// The enumeration pattern for source documents was invalid.
    DiscoveryError(String),
}

/// The failure message of a build error: the stage that failed, then the
/// underlying cause.
pub open spec fn spec_message(e: BuildError) -> Seq<char> {
    match e {
        BuildError::IoError(detail) => "unable to read or write file: "@ + detail@,
        BuildError::TemplateError { name, cause } => "unable to render template "@ + name@
            + ": "@ + cause@,
        BuildError::MetadataError(detail) => "unable to read creation time: "@ + detail@,
        BuildError::DiscoveryError(detail) => "unable to enumerate documents: "@ + detail@,
    }
}

impl BuildError {
    /// The single descriptive failure message shown when the build aborts.
    pub fn message(&self) -> (r: String)
        ensures
            r@ == spec_message(*self),
    {
        match self {
            BuildError::IoError(detail) => {
                let mut r = "unable to read or write file: ".to_owned();
                r.append(detail.as_str());
                r
            },
            BuildError::TemplateError { name, cause } => {
                let mut r = "unable to render template ".to_owned();
                r.append(name.as_str());
                r.append(": ");
                r.append(cause.as_str());
                r
            },
            BuildError::MetadataError(detail) => {
                let mut r = "unable to read creation time: ".to_owned();
                r.append(detail.as_str());
                r
            },
            BuildError::DiscoveryError(detail) => {
                let mut r = "unable to enumerate documents: ".to_owned();
                r.append(detail.as_str());
                r
            },
        }
    }
}

} // verus!
