//! The error type shared by every part of the library.

use vstd::prelude::*;

verus! {

/// Everything that can go wrong while building, replaying or comparing.
#[derive(Debug)]
pub enum Error {
    /// Reading or writing a file failed; holds the system's description.
    Io(String),
    /// JSON (de)serialization failed; holds the parser's description.
    Json(String),
    /// Building one of the bundled example programs failed.
    ProgramBuild { name: String, reason: String },
    /// Loading a program build into the local VM failed.
    ProgramLoad { path: String, reason: String },
    /// A transaction could not be built or set up.
    TransactionBuild { label: String, reason: String },
    /// A fixture keypair's bytes do not form a valid keypair.
    InvalidKeypair { label: String },
    /// An address could not be parsed.
    InvalidPubkey(String),
    /// Two replay runs do not line up with each other or with the fixture.
    Mismatch(String),
    /// An upload form has no file under the field `field`.
    MissingFile { field: String },
    /// Replaying against the build named `program` failed with `cause`.
    ReplayFailed { program: String, cause: Box<Error> },
}

} // verus!
