use vstd::prelude::*;
use vstd::string::*;

use crate::text::{concat, concat3, owned};

verus! {

/// Errors of the library; each carries what its message shows.
#[derive(Debug)]
pub enum Error {
    /// Reading, parsing or writing configuration failed.
    Config(String),
    /// Configuration or environment checks failed; the problems joined by `; `.
    Validation(String),
    /// The command needs macOS.
    UnsupportedPlatform,
    /// The user declined or aborted a prompt.
    Cancelled,
    /// A required tool is not available.
    DependencyMissing(String),
    /// An external command could not run or exited unsuccessfully.
    CommandFailed { cmd: String, source: String },
}

impl Error {
    /// The message that describes the error.
    pub open spec fn message(&self) -> Seq<char> {
        match self {
            Error::Config(m) => "configuration error: "@ + m@,
            Error::Validation(m) => "validation failed: "@ + m@,
            Error::UnsupportedPlatform => "mac-k3d supports macOS only"@,
            Error::Cancelled => "cancelled by user"@,
            Error::DependencyMissing(m) => "missing dependency: "@ + m@,
            Error::CommandFailed { cmd, source } => "command `"@ + cmd@ + "` failed: "@ + source@,
        }
    }

    /// The message that describes the error.
    pub fn to_string(&self) -> (r: String)
        ensures
            r@ == self.message(),
    {
        match self {
            Error::Config(m) => concat("configuration error: ", m.as_str()),
            Error::Validation(m) => concat("validation failed: ", m.as_str()),
            Error::UnsupportedPlatform => owned("mac-k3d supports macOS only"),
            Error::Cancelled => owned("cancelled by user"),
            Error::DependencyMissing(m) => concat("missing dependency: ", m.as_str()),
            Error::CommandFailed { cmd, source } => {
                let mut r = concat3("command `", cmd.as_str(), "` failed: ");
                r.append(source.as_str());
                r
            },
        }
    }
}

} // verus!
