use vstd::prelude::*;

verus! {

/// Severity bit reported by the driver for a verbose message.
pub const SEVERITY_VERBOSE: u32 = 0x1;
/// Severity bit reported by the driver for an informational message.
pub const SEVERITY_INFO: u32 = 0x10;
/// Severity bit reported by the driver for a warning.
pub const SEVERITY_WARNING: u32 = 0x100;
/// Severity bit reported by the driver for an error.
pub const SEVERITY_ERROR: u32 = 0x1000;

/// Mask covering every severity the bridge subscribes to.
pub const SEVERITY_ALL: u32 = 0x1111;

/// Message-category bit for general driver messages.
pub const CATEGORY_GENERAL: u32 = 0x1;
/// Message-category bit for validation findings.
pub const CATEGORY_VALIDATION: u32 = 0x2;
/// Message-category bit for performance findings.
pub const CATEGORY_PERFORMANCE: u32 = 0x4;

/// The host log level a driver message is routed to.
#[derive(Clone, Copy, Debug, PartialEq, Eq, Structural)]
pub enum LogLevel {
    Error,
    Warning,
    Debug,
    Trace,
}

/// What the bridge tells the host to do with one driver message:
/// which log level to emit it at, and whether the driver should abort
/// the call that produced it (it never should).
#[derive(Clone, Copy, Debug, PartialEq, Eq, Structural)]
pub struct DiagnosticResponse {
    pub level: LogLevel,
    pub abort: bool,
}

/// The log level a message of the given severity is routed to:
/// error tier to `Error`, warning tier to `Warning`, info tier to
/// `Debug`, anything below to `Trace`.
pub open spec fn spec_log_level(severity: u32) -> LogLevel {
    if severity >= SEVERITY_ERROR {
        LogLevel::Error
    } else if severity >= SEVERITY_WARNING {
        LogLevel::Warning
    } else if severity >= SEVERITY_INFO {
        LogLevel::Debug
    } else {
        LogLevel::Trace
    }
}

/// The Diagnostics Bridge decision for one driver message: routes the
/// severity to a host log level and never asks the driver to abort.
pub fn debug_callback(severity: u32) -> (r: DiagnosticResponse)
    ensures
        r.level == spec_log_level(severity),
        !r.abort,
{
    let level = if severity >= SEVERITY_ERROR {
        LogLevel::Error
    } else if severity >= SEVERITY_WARNING {
        LogLevel::Warning
    } else if severity >= SEVERITY_INFO {
        LogLevel::Debug
    } else {
        LogLevel::Trace
    };
    DiagnosticResponse { level, abort: false }
}

} // verus!
