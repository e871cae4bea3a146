//! Error kinds of the execution pipeline and the text commands.
//!
//! Every failure the pipeline can report is one of these variants; the host
//! prints the description and exits non-zero. None of them is retried.
use vstd::prelude::*;

verus! {

/// Spec-level shape of an [`ExecError`]: payloads are abstract sequences.
pub enum ErrorModel {
    /// The requested language identifier is not in the registry.
    NotSupportedLanguage,
    /// A named-entry language gave no derivable entry-point name.
    EntryNameNotFound,
    /// The scratch workspace could not be created.
    WorkspaceCreationFailed,
    /// A toolchain executable was missing from the search path.
    ToolchainNotFound { program: Seq<char> },
    /// The compile stage exited non-zero; carries its stderr verbatim.
    CompileFailed { stderr: Seq<u8> },
    /// The run (or interpret) stage exited non-zero; carries its stderr.
    RunFailed { stderr: Seq<u8> },
    /// The clipboard collaborator failed.
    ClipboardUnavailable,
    /// Captured bytes were not decodable where text was required.
    InvalidUtf8Output,
    /// The transform command named a transformation that does not exist.
    UnknownTransform,
}

/// A terminal failure of one invocation of the utility.
#[derive(Debug, Clone, PartialEq, Eq)]
pub enum ExecError {
    NotSupportedLanguage,
    EntryNameNotFound,
    WorkspaceCreationFailed,
    ToolchainNotFound { program: String },
    CompileFailed { stderr: Vec<u8> },
    RunFailed { stderr: Vec<u8> },
    ClipboardUnavailable,
    InvalidUtf8Output,
    UnknownTransform,
}

impl View for ExecError {
    type V = ErrorModel;

    open spec fn view(&self) -> ErrorModel {
        match self {
            ExecError::NotSupportedLanguage => ErrorModel::NotSupportedLanguage,
            ExecError::EntryNameNotFound => ErrorModel::EntryNameNotFound,
            ExecError::WorkspaceCreationFailed => ErrorModel::WorkspaceCreationFailed,
            ExecError::ToolchainNotFound { program } => ErrorModel::ToolchainNotFound {
                program: program@,
            },
            ExecError::CompileFailed { stderr } => ErrorModel::CompileFailed { stderr: stderr@ },
            ExecError::RunFailed { stderr } => ErrorModel::RunFailed { stderr: stderr@ },
            ExecError::ClipboardUnavailable => ErrorModel::ClipboardUnavailable,
            ExecError::InvalidUtf8Output => ErrorModel::InvalidUtf8Output,
            ExecError::UnknownTransform => ErrorModel::UnknownTransform,
        }
    }
}

impl ExecError {
    /// A fixed human-readable description of the error kind.
    pub fn describe(&self) -> (r: String)
        ensures
            r@ == match self@ {
                ErrorModel::NotSupportedLanguage => "Unsupported language"@,
                ErrorModel::EntryNameNotFound => "Could not find Java class name"@,
                ErrorModel::WorkspaceCreationFailed => "Could not create scratch workspace"@,
                ErrorModel::ToolchainNotFound { .. } => "Command not found"@,
                ErrorModel::CompileFailed { .. } => "Compilation failed"@,
                ErrorModel::RunFailed { .. } => "Execution failed"@,
                ErrorModel::ClipboardUnavailable => "Clipboard unavailable"@,
                ErrorModel::InvalidUtf8Output => "Output was not valid UTF-8"@,
                ErrorModel::UnknownTransform => "Unknown transformation"@,
            },
    {
        match self {
            ExecError::NotSupportedLanguage => String::from_str("Unsupported language"),
            ExecError::EntryNameNotFound => String::from_str("Could not find Java class name"),
            ExecError::WorkspaceCreationFailed => String::from_str(
                "Could not create scratch workspace",
            ),
            ExecError::ToolchainNotFound { .. } => String::from_str("Command not found"),
            ExecError::CompileFailed { .. } => String::from_str("Compilation failed"),
            ExecError::RunFailed { .. } => String::from_str("Execution failed"),
            ExecError::ClipboardUnavailable => String::from_str("Clipboard unavailable"),
            ExecError::InvalidUtf8Output => String::from_str("Output was not valid UTF-8"),
            ExecError::UnknownTransform => String::from_str("Unknown transformation"),
        }
    }
}

} // verus!
