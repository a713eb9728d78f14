//! What becomes of the messages of the validation layers.

use crate::vk;
use vstd::prelude::*;

verus! {

/// How loud a message is logged.
#[derive(Clone, Copy, Debug, PartialEq, Eq, Structural)]
pub enum LogLevel {
    Debug,
    Info,
    Warn,
    Error,
}

/// What the debug callback decides about one message.
#[derive(Clone, Copy, Debug, PartialEq, Eq, Structural)]
pub struct DebugVerdict {
    /// The level at which the message is logged.
    pub level: LogLevel,
    /// Whether the call that caused the message is to be aborted.
    pub abort_call: bool,
}

/// The level for a message of the given severity: the three lower
/// severities have their own level, and anything else counts as an error.
pub open spec fn level_of(message_severity: u32) -> LogLevel {
    if message_severity == vk::DEBUG_SEVERITY_VERBOSE {
        LogLevel::Debug
    } else if message_severity == vk::DEBUG_SEVERITY_INFO {
        LogLevel::Info
    } else if message_severity == vk::DEBUG_SEVERITY_WARNING {
        LogLevel::Warn
    } else {
        LogLevel::Error
    }
}

/// Decides about a message of the validation layers: it is logged at the
/// level of its severity, and the call that caused it goes on.
pub fn vulkan_debug_callback(message_severity: u32) -> (verdict: DebugVerdict)
    ensures
        verdict == (DebugVerdict { level: level_of(message_severity), abort_call: false }),
{
    let level = if message_severity == vk::DEBUG_SEVERITY_VERBOSE {
        LogLevel::Debug
    } else if message_severity == vk::DEBUG_SEVERITY_INFO {
        LogLevel::Info
    } else if message_severity == vk::DEBUG_SEVERITY_WARNING {
        LogLevel::Warn
    } else {
        LogLevel::Error
    };
    DebugVerdict { level, abort_call: false }
}

} // verus!
