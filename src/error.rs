//! Errors of a bundling run, each tagged with the stage that failed.

use vstd::prelude::*;
use vstd::string::StringExecFns;

verus! {

/// Why a bundling run stopped.
pub enum BundleError {
    /// Creating, removing or writing a file or directory failed.
    Filesystem { context: String, detail: String },
    /// The manifest template could not be rendered, for instance because it
    /// refers to a key that the manifest data lacks.
    Template { detail: String },
    /// An external tool could not be started or exited with a failure status.
    Subprocess { context: String, detail: String },
}

impl BundleError {
    /// A one-line description: the stage, then what went wrong.
    pub fn message(&self) -> (r: String)
        ensures
            r@ == self.message_spec(),
    {
        match self {
            BundleError::Filesystem { context, detail } => {
                context.clone().concat(": ").concat(detail.as_str())
            },
            BundleError::Template { detail } => {
                String::from_str("failed to render the Flatpak manifest: ").concat(detail.as_str())
            },
            BundleError::Subprocess { context, detail } => {
                context.clone().concat(": ").concat(detail.as_str())
            },
        }
    }

    pub open spec fn message_spec(&self) -> Seq<char> {
        match self {
            BundleError::Filesystem { context, detail } => context@ + ": "@ + detail@,
            BundleError::Template { detail } => "failed to render the Flatpak manifest: "@ + detail@,
            BundleError::Subprocess { context, detail } => context@ + ": "@ + detail@,
        }
    }
}

} // verus!
