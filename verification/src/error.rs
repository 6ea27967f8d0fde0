//! The ways in which assembling a bundle can fail.

use vstd::prelude::*;

verus! {

/// Why a run stopped before the bundle was complete. Every failure is final:
/// nothing is retried and nothing that was already written is taken back.
#[derive(Clone, Copy, Debug, PartialEq, Eq, Structural)]
pub enum DistributeError {
    /// The version is not three non-empty tokens separated by dots.
    InvalidVersionFormat,
    /// A directory already stands where the bundle was to be placed.
    DestinationAlreadyExists,
    /// A download did not come through.
    NetworkFailure,
    /// A file or directory could not be created, written or removed.
    WriteFailure,
    /// The tool that unpacks the runtime archive could not be started.
    ExtractionFailure,
    /// Another external program could not be started.
    ProcessSpawnFailure,
}

impl DistributeError {
    /// The text shown to the user for each failure.
    pub open spec fn message_text(self) -> Seq<char> {
        match self {
            DistributeError::InvalidVersionFormat => "version must be [major].[minor].[patch]"@,
            DistributeError::DestinationAlreadyExists => "A folder may already exist at the savepath you specified."@,
            DistributeError::NetworkFailure => "download failed"@,
            DistributeError::WriteFailure => "failed to write to disk"@,
            DistributeError::ExtractionFailure => "failed to unpack the archive"@,
            DistributeError::ProcessSpawnFailure => "failed to execute process"@,
        }
    }

    /// The message for this failure.
    pub fn message(&self) -> (text: &'static str)
        ensures
            text@ == self.message_text(),
    {
        match self {
            DistributeError::InvalidVersionFormat => "version must be [major].[minor].[patch]",
            DistributeError::DestinationAlreadyExists => "A folder may already exist at the savepath you specified.",
            DistributeError::NetworkFailure => "download failed",
            DistributeError::WriteFailure => "failed to write to disk",
            DistributeError::ExtractionFailure => "failed to unpack the archive",
            DistributeError::ProcessSpawnFailure => "failed to execute process",
        }
    }
}

} // verus!
