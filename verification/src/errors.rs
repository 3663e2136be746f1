//! The error taxonomy of the compilation pipeline. Every failure the
//! pipeline can encounter maps to exactly one variant, and every variant
//! renders to one stable, machine-readable message.

use vstd::prelude::*;

verus! {

/// All possible errors that may occur while handling a request.
///
/// Variants that arise from the outside world (the filesystem, the child
/// process, the byte streams it produced) carry the underlying cause as
/// plain text.
#[derive(Debug, Clone, PartialEq, Eq)]
pub enum Error {
    /// The response could not be serialized.
    Serialization { cause: String },
    /// The request body was present but was not a well-formed request.
    Deserialization { cause: String },
    /// No request body was provided.
    RequestMissing,
    /// The scratch directory for the request could not be created.
    UnableToCreateTempDir { cause: String },
    /// The submitted source could not be written into the workspace.
    UnableToCreateSourceFile { cause: String },
    /// The submitted source contains no module declaration.
    UnableToFindModule,
    /// The compiler process could not be spawned.
    UnableToExecuteCompiler { cause: String },
    /// The compiler's output streams could not be read back.
    UnableToReadOutput { cause: String },
    /// An output stream was not valid UTF-8.
    OutputNotUtf8 { cause: String },
}

/// The stable message each error renders to.
pub open spec fn message_of(e: Error) -> Seq<char> {
    match e {
        Error::Serialization { cause } => "Unable to serialize response: "@ + cause@,
        Error::Deserialization { cause } => "Unable to deserialize request: "@ + cause@,
        Error::RequestMissing => "No request was provided"@,
        Error::UnableToCreateTempDir { cause } => "Unable to create temporary directory: "@
            + cause@,
        Error::UnableToCreateSourceFile { cause } => "Unable to create source file: "@ + cause@,
        Error::UnableToFindModule => "Unable to find a module in the input"@,
        Error::UnableToExecuteCompiler { cause } => "Unable to execute the compiler: "@ + cause@,
        Error::UnableToReadOutput { cause } => "Unable to read output file: "@ + cause@,
        Error::OutputNotUtf8 { cause } => "Output was not valid UTF-8: "@ + cause@,
    }
}

impl Error {
    /// Render this error to its stable human-readable message.
    pub fn message(&self) -> (r: String)
        ensures
            r@ == message_of(*self),
    {
        match self {
            Error::Serialization { cause } => String::from_str(
                "Unable to serialize response: ",
            ).concat(cause.as_str()),
            Error::Deserialization { cause } => String::from_str(
                "Unable to deserialize request: ",
            ).concat(cause.as_str()),
            Error::RequestMissing => String::from_str("No request was provided"),
            Error::UnableToCreateTempDir { cause } => String::from_str(
                "Unable to create temporary directory: ",
            ).concat(cause.as_str()),
            Error::UnableToCreateSourceFile { cause } => String::from_str(
                "Unable to create source file: ",
            ).concat(cause.as_str()),
            Error::UnableToFindModule => String::from_str("Unable to find a module in the input"),
            Error::UnableToExecuteCompiler { cause } => String::from_str(
                "Unable to execute the compiler: ",
            ).concat(cause.as_str()),
            Error::UnableToReadOutput { cause } => String::from_str(
                "Unable to read output file: ",
            ).concat(cause.as_str()),
            Error::OutputNotUtf8 { cause } => String::from_str(
                "Output was not valid UTF-8: ",
            ).concat(cause.as_str()),
        }
    }
}

} // verus!
