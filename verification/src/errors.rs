//! The error taxonomy of the abstraction layer.
//!
//! Configuration errors (a missing bank directory, an event path no loaded
//! bank defines) are detected at the point of use and always carry the
//! offending path or name. Engine-call errors preserve the engine's own
//! status code together with the operation that failed; nothing is retried
//! or silently defaulted.

use vstd::prelude::*;

verus! {

/// Everything that can go wrong in the abstraction layer.
#[derive(Debug, PartialEq, Eq)]
pub enum AudioError {
    /// The configured bank search directory does not exist.
    MissingBankDirectory { path: String },
    /// Building the engine system description (output format included) failed.
    SystemPreparationFailed { code: i64 },
    /// Constructing the engine instance failed.
    SystemBuildFailed { code: i64 },
    /// One configured bank file failed to load.
    BankLoadFailed { filename: String, code: i64 },
    /// No loaded bank defines the requested event path.
    EventNotFound { path: String },
    /// An engine call outside loading failed; `operation` names the call site.
    EngineCall { operation: String, code: i64 },
}

impl Clone for AudioError {
    /// A clone reproduces the error exactly, offending path or name included.
    fn clone(&self) -> (other: Self)
        ensures
            other == *self,
    {
        match self {
            AudioError::MissingBankDirectory { path } => {
                AudioError::MissingBankDirectory { path: path.clone() }
            },
            AudioError::SystemPreparationFailed { code } => {
                AudioError::SystemPreparationFailed { code: *code }
            },
            AudioError::SystemBuildFailed { code } => {
                AudioError::SystemBuildFailed { code: *code }
            },
            AudioError::BankLoadFailed { filename, code } => {
                AudioError::BankLoadFailed { filename: filename.clone(), code: *code }
            },
            AudioError::EventNotFound { path } => {
                AudioError::EventNotFound { path: path.clone() }
            },
            AudioError::EngineCall { operation, code } => {
                AudioError::EngineCall { operation: operation.clone(), code: *code }
            },
        }
    }
}

impl AudioError {
    /// The descriptive text of this error, as a sequence of characters.
    pub open spec fn message_view(&self) -> Seq<char> {
        match self {
            AudioError::MissingBankDirectory { path } => "audio directory not found: "@ + path@,
            AudioError::SystemPreparationFailed { .. } => "failed to prepare the audio system"@,
            AudioError::SystemBuildFailed { .. } => "failed to build the audio system"@,
            AudioError::BankLoadFailed { filename, .. } => "failed to load bank: "@ + filename@,
            AudioError::EventNotFound { path } => "event not found: "@ + path@,
            AudioError::EngineCall { operation, .. } => "engine call failed: "@ + operation@,
        }
    }

    /// Builds the descriptive message; the offending path or name is part of
    /// the text, never dropped.
    pub fn message(&self) -> (msg: String)
        ensures
            msg@ == self.message_view(),
    {
        match self {
            AudioError::MissingBankDirectory { path } => {
                let mut msg = String::from_str("audio directory not found: ");
                msg.append(path.as_str());
                msg
            },
            AudioError::SystemPreparationFailed { .. } => {
                String::from_str("failed to prepare the audio system")
            },
            AudioError::SystemBuildFailed { .. } => {
                String::from_str("failed to build the audio system")
            },
            AudioError::BankLoadFailed { filename, .. } => {
                let mut msg = String::from_str("failed to load bank: ");
                msg.append(filename.as_str());
                msg
            },
            AudioError::EventNotFound { path } => {
                let mut msg = String::from_str("event not found: ");
                msg.append(path.as_str());
                msg
            },
            AudioError::EngineCall { operation, .. } => {
                let mut msg = String::from_str("engine call failed: ");
                msg.append(operation.as_str());
                msg
            },
        }
    }
}

} // verus!
