//! Why an assembly fails, and what the operator is told of it.

use vstd::prelude::*;
use crate::library::DiscoveryError;
use crate::materialize::{spec_file_name, TemplateFile};

verus! {

/// Why an assembly failed.
#[derive(Debug, PartialEq, Eq)]
pub enum AssemblyError {
    /// The library yields no exam.
    Discovery(DiscoveryError),
    /// The generator did not create the skeleton of an exercise.
    GeneratorFailure {
        /// The exercise.
        exercise: String,
    },
    /// The skeleton of an exercise could not be moved to its destination.
    RelocationFailure {
        /// The exercise.
        exercise: String,
    },
    /// A template file could not be copied.
    CopyFailure {
        /// The file.
        file: TemplateFile,
    },
    /// The folder of an earlier assembly of the exam could not be removed.
    CleanupFailure,
}

/// What the operator is told of a failure.
pub open spec fn spec_describe(error: AssemblyError) -> Seq<char> {
    match error {
        AssemblyError::Discovery(DiscoveryError::NotFound) => "Library not found"@,
        AssemblyError::Discovery(DiscoveryError::EmptyLibrary) => "No exams found in lib/"@,
        AssemblyError::GeneratorFailure { exercise } => "Cargo new failed for "@ + exercise@,
        AssemblyError::RelocationFailure { exercise } => "Failed to move cargo project "@
            + exercise@,
        AssemblyError::CopyFailure { file } => "Failed to copy "@ + spec_file_name(file),
        AssemblyError::CleanupFailure => "Failed to remove existing exam folder"@,
    }
}

impl AssemblyError {
    /// What the operator is told of the failure.
    pub fn describe(&self) -> (message: String)
        ensures
            message@ == spec_describe(*self),
    {
        match self {
            AssemblyError::Discovery(DiscoveryError::NotFound) => String::from_str(
                "Library not found",
            ),
            AssemblyError::Discovery(DiscoveryError::EmptyLibrary) => String::from_str(
                "No exams found in lib/",
            ),
            AssemblyError::GeneratorFailure { exercise } => String::from_str(
                "Cargo new failed for ",
            ).concat(exercise.as_str()),
            AssemblyError::RelocationFailure { exercise } => String::from_str(
                "Failed to move cargo project ",
            ).concat(exercise.as_str()),
            AssemblyError::CopyFailure { file } => String::from_str("Failed to copy ").concat(
                file.file_name(),
            ),
            AssemblyError::CleanupFailure => String::from_str(
                "Failed to remove existing exam folder",
            ),
        }
    }
}

} // verus!
