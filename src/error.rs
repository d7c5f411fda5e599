use vstd::prelude::*;

verus! {

/// Why a file could not be opened or read.
#[derive(Clone, Copy, Debug, PartialEq, Eq, Structural)]
pub enum IoErrorKind {
    NotFound,
    PermissionDenied,
    Other,
}

/// The ways an invocation of the tool can fail.
#[derive(Clone, Copy, Debug, PartialEq, Eq, Structural)]
pub enum ToolError {
    /// The tokens did not make up a complete command.
    UnrecognizedCommand,
    /// The target file could not be opened or read.
    Io { kind: IoErrorKind },
    /// The file's bytes are not valid text.
    Decode,
}

} // verus!
