//! The data the command line hands the library: a file to open and the
//! operation to run on it. Reading the arguments and doing the file work
//! belong to the surrounding program.

use vstd::prelude::*;

verus! {

/// The snapshot encodings a caller can ask for.
#[derive(Debug, Clone, Copy, Eq, PartialEq, Structural)]
pub enum FileType {
    Toml,
    Json,
}

/// One requested operation.
#[derive(Debug, Clone)]
pub enum CliCommand {
    /// Encode the decoded image as a snapshot file.
    Serde { output: String, ftype: FileType },
    /// Print the decoded summary.
    Info,
    /// Extract the resource tree.
    Resource { output: String },
}

/// One invocation: the image to open and what to do with it.
#[derive(Debug, Clone)]
pub struct Cli {
    pub file_path: String,
    pub command: CliCommand,
}

} // verus!
