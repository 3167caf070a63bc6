//! How the debug messenger labels validation messages.
use vstd::prelude::*;
use crate::vkraw::{
    DEBUG_SEVERITY_ERROR,
    DEBUG_SEVERITY_INFO,
    DEBUG_SEVERITY_VERBOSE,
    DEBUG_SEVERITY_WARNING,
};

verus! {

/// The label of a printed validation message.
#[derive(Clone, Copy, Debug, PartialEq, Eq, Structural)]
pub enum MessageLabel {
    Fatal,
    Info,
    Verbose,
    Warning,
}

pub open spec fn has_severity(flags: u32, bit: u32) -> bool {
    flags & bit == bit
}

/// The label of a message with severity `flags`: errors are fatal, then
/// info, verbose and warning in that order; other messages are not printed.
pub open spec fn message_label_spec(flags: u32) -> Option<MessageLabel> {
    if has_severity(flags, DEBUG_SEVERITY_ERROR) {
        Some(MessageLabel::Fatal)
    } else if has_severity(flags, DEBUG_SEVERITY_INFO) {
        Some(MessageLabel::Info)
    } else if has_severity(flags, DEBUG_SEVERITY_VERBOSE) {
        Some(MessageLabel::Verbose)
    } else if has_severity(flags, DEBUG_SEVERITY_WARNING) {
        Some(MessageLabel::Warning)
    } else {
        None
    }
}

pub fn message_label(flags: u32) -> (r: Option<MessageLabel>)
    ensures
        r == message_label_spec(flags),
{
    if flags & DEBUG_SEVERITY_ERROR == DEBUG_SEVERITY_ERROR {
        Some(MessageLabel::Fatal)
    } else if flags & DEBUG_SEVERITY_INFO == DEBUG_SEVERITY_INFO {
        Some(MessageLabel::Info)
    } else if flags & DEBUG_SEVERITY_VERBOSE == DEBUG_SEVERITY_VERBOSE {
        Some(MessageLabel::Verbose)
    } else if flags & DEBUG_SEVERITY_WARNING == DEBUG_SEVERITY_WARNING {
        Some(MessageLabel::Warning)
    } else {
        None
    }
}

impl MessageLabel {
    /// The text printed before a message with this label.
    pub fn prefix(&self) -> (r: &'static str)
        ensures
            *self == MessageLabel::Fatal ==> r@ == "[FATAL] "@,
            *self == MessageLabel::Info ==> r@ == "[VALIDATION INFO] "@,
            *self == MessageLabel::Verbose ==> r@ == "[VALIDATION VERBOSE] "@,
            *self == MessageLabel::Warning ==> r@ == "[VALIDATION WARNING] "@,
    {
        match self {
            MessageLabel::Fatal => "[FATAL] ",
            MessageLabel::Info => "[VALIDATION INFO] ",
            MessageLabel::Verbose => "[VALIDATION VERBOSE] ",
            MessageLabel::Warning => "[VALIDATION WARNING] ",
        }
    }
}

} // verus!
