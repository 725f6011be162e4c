//! The failures that the helpers report, and the text shown for each.

use vstd::prelude::*;
use vstd::string::*;

verus! {

/// Why a helper failed. Three of the four kinds carry the operating system's
/// own description of what went wrong.
#[derive(Debug, PartialEq, Eq)]
pub enum HelperError {
    /// The subprocess could not be started.
    LaunchFailure(String),
    /// The subprocess ran and ended with a status other than zero.
    ExecutionFailure,
    /// The file's metadata could not be read.
    MetadataFailure(String),
    /// The new permissions could not be written.
    PermissionWriteFailure(String),
}

/// A `HelperError` as a mathematical value.
pub enum ErrorModel {
    LaunchFailure(Seq<char>),
    ExecutionFailure,
    MetadataFailure(Seq<char>),
    PermissionWriteFailure(Seq<char>),
}

impl View for HelperError {
    type V = ErrorModel;

    open spec fn view(&self) -> ErrorModel {
        match self {
            HelperError::LaunchFailure(description) => ErrorModel::LaunchFailure(description@),
            HelperError::ExecutionFailure => ErrorModel::ExecutionFailure,
            HelperError::MetadataFailure(description) => ErrorModel::MetadataFailure(description@),
            HelperError::PermissionWriteFailure(description) => ErrorModel::PermissionWriteFailure(
                description@,
            ),
        }
    }
}

/// The text shown for an error: a fixed sentence, followed by the operating
/// system's description where the error carries one.
pub open spec fn message_text(error: ErrorModel) -> Seq<char> {
    match error {
        ErrorModel::LaunchFailure(description) => "Failed to execute FFmpeg: "@ + description,
        ErrorModel::ExecutionFailure => "FFmpeg execution failed"@,
        ErrorModel::MetadataFailure(description) => "Failed to get file metadata: "@ + description,
        ErrorModel::PermissionWriteFailure(description) => "Failed to set file permissions: "@
            + description,
    }
}

impl HelperError {
    /// The human-readable text of this error.
    pub fn message(&self) -> (text: String)
        ensures
            text@ == message_text(self@),
    {
        match self {
            HelperError::LaunchFailure(description) => {
                String::from_str("Failed to execute FFmpeg: ").concat(description.as_str())
            },
            HelperError::ExecutionFailure => String::from_str("FFmpeg execution failed"),
            HelperError::MetadataFailure(description) => {
                String::from_str("Failed to get file metadata: ").concat(description.as_str())
            },
            HelperError::PermissionWriteFailure(description) => {
                String::from_str("Failed to set file permissions: ").concat(description.as_str())
            },
        }
    }
}

} // verus!
