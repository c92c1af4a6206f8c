//! The foreign callback bridge's decision logic.
//!
//! The engine invokes a caller-supplied diagnostics callback from its own
//! foreign execution context. What may be decided in that callback is decided
//! here, verified: which severity the flagged message carries and which
//! subsystem prefix belongs in front of it. The containment itself — catching
//! any host-side escape at the boundary and diverting it to a fallback stream
//! that cannot fail — is the shell's job, since no control flow may unwind
//! across the foreign boundary.

use vstd::prelude::*;

verus! {

/// Diagnostic flag bit: an error-level message.
pub const DEBUG_FLAG_ERROR: u32 = 0x1;

/// Diagnostic flag bit: a warning-level message.
pub const DEBUG_FLAG_WARNING: u32 = 0x2;

/// Diagnostic flag bit: an informational message.
pub const DEBUG_FLAG_LOG: u32 = 0x4;

/// Diagnostic flag bit: the message concerns memory management.
pub const DEBUG_FLAG_TYPE_MEMORY: u32 = 0x100;

/// Diagnostic flag bit: the message concerns file access.
pub const DEBUG_FLAG_TYPE_FILE: u32 = 0x200;

/// Diagnostic flag bit: the message concerns codec work.
pub const DEBUG_FLAG_TYPE_CODEC: u32 = 0x400;

/// Which engine subsystem a diagnostic message concerns.
#[derive(Clone, Copy, Debug, PartialEq, Eq, Structural)]
pub enum DiagnosticKind {
    Memory,
    File,
    Codec,
    General,
}

/// How loud a diagnostic message is.
#[derive(Clone, Copy, Debug, PartialEq, Eq, Structural)]
pub enum DiagnosticSeverity {
    Error,
    Warning,
    Info,
    Trace,
}

/// The subsystem a flag word names, memory before file before codec.
pub open spec fn spec_diagnostic_kind(flags: u32) -> DiagnosticKind {
    if flags & DEBUG_FLAG_TYPE_MEMORY != 0 {
        DiagnosticKind::Memory
    } else if flags & DEBUG_FLAG_TYPE_FILE != 0 {
        DiagnosticKind::File
    } else if flags & DEBUG_FLAG_TYPE_CODEC != 0 {
        DiagnosticKind::Codec
    } else {
        DiagnosticKind::General
    }
}

/// The severity a flag word names, loudest bit first; a word with no level
/// bit is trace.
pub open spec fn spec_diagnostic_severity(flags: u32) -> DiagnosticSeverity {
    if flags & DEBUG_FLAG_ERROR != 0 {
        DiagnosticSeverity::Error
    } else if flags & DEBUG_FLAG_WARNING != 0 {
        DiagnosticSeverity::Warning
    } else if flags & DEBUG_FLAG_LOG != 0 {
        DiagnosticSeverity::Info
    } else {
        DiagnosticSeverity::Trace
    }
}

/// The prefix written in front of a message of each kind.
pub open spec fn spec_kind_prefix(kind: DiagnosticKind) -> Seq<char> {
    match kind {
        DiagnosticKind::Memory => "MEMORY: "@,
        DiagnosticKind::File => "FILE: "@,
        DiagnosticKind::Codec => "CODEC: "@,
        DiagnosticKind::General => ""@,
    }
}

/// Classifies a diagnostic flag word into the subsystem it concerns.
pub fn classify_diagnostic_kind(flags: u32) -> (kind: DiagnosticKind)
    ensures
        kind == spec_diagnostic_kind(flags),
{
    if flags & DEBUG_FLAG_TYPE_MEMORY != 0 {
        DiagnosticKind::Memory
    } else if flags & DEBUG_FLAG_TYPE_FILE != 0 {
        DiagnosticKind::File
    } else if flags & DEBUG_FLAG_TYPE_CODEC != 0 {
        DiagnosticKind::Codec
    } else {
        DiagnosticKind::General
    }
}

/// Classifies a diagnostic flag word into the severity to log it at.
pub fn classify_diagnostic_severity(flags: u32) -> (severity: DiagnosticSeverity)
    ensures
        severity == spec_diagnostic_severity(flags),
{
    if flags & DEBUG_FLAG_ERROR != 0 {
        DiagnosticSeverity::Error
    } else if flags & DEBUG_FLAG_WARNING != 0 {
        DiagnosticSeverity::Warning
    } else if flags & DEBUG_FLAG_LOG != 0 {
        DiagnosticSeverity::Info
    } else {
        DiagnosticSeverity::Trace
    }
}

/// The prefix written in front of a message of the given kind.
pub fn diagnostic_prefix(kind: DiagnosticKind) -> (prefix: &'static str)
    ensures
        prefix@ == spec_kind_prefix(kind),
{
    match kind {
        DiagnosticKind::Memory => "MEMORY: ",
        DiagnosticKind::File => "FILE: ",
        DiagnosticKind::Codec => "CODEC: ",
        DiagnosticKind::General => "",
    }
}

} // verus!
