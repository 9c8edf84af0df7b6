//! The diagnostics channel: which messages the driver is asked to report, and
//! how a reported message is labelled.

use vstd::prelude::*;
use vstd::string::StringExecFns;

use crate::vk;

verus! {

/// How grave a reported message is.
#[derive(Clone, Copy, Debug, PartialEq, Eq)]
pub enum MessageSeverity {
    Verbose,
    Info,
    Warning,
    Error,
    Unknown,
}

/// What a reported message is about.
#[derive(Clone, Copy, Debug, PartialEq, Eq)]
pub enum MessageType {
    General,
    Validation,
    Performance,
    Unknown,
}

/// The severities the driver is asked to report.
#[derive(Clone, Copy, Debug, PartialEq, Eq)]
pub struct SeverityFilter {
    pub verbose: bool,
    pub info: bool,
    pub warning: bool,
    pub error: bool,
}

/// The categories the driver is asked to report.
#[derive(Clone, Copy, Debug, PartialEq, Eq)]
pub struct TypeFilter {
    pub general: bool,
    pub validation: bool,
    pub performance: bool,
}

/// What the debug messenger is created with. The same value is chained to the
/// instance create-info, so that instance creation and destruction report too.
#[derive(Clone, Copy, Debug, PartialEq, Eq)]
pub struct DebugMessengerCreateInfo {
    pub message_severity: SeverityFilter,
    pub message_type: TypeFilter,
}

/// The filter in use: warnings and errors, of every category.
pub open spec fn messenger_filter() -> DebugMessengerCreateInfo {
    DebugMessengerCreateInfo {
        message_severity: SeverityFilter {
            verbose: false,
            info: false,
            warning: true,
            error: true,
        },
        message_type: TypeFilter { general: true, validation: true, performance: true },
    }
}

/// The bracketed label of a severity.
pub open spec fn severity_label_of(severity: MessageSeverity) -> Seq<char> {
    match severity {
        MessageSeverity::Verbose => "[Verbose]"@,
        MessageSeverity::Warning => "[Warning]"@,
        MessageSeverity::Error => "[Error]"@,
        MessageSeverity::Info => "[Info]"@,
        MessageSeverity::Unknown => "[Unknown]"@,
    }
}

/// The bracketed label of a category.
pub open spec fn type_label_of(message_type: MessageType) -> Seq<char> {
    match message_type {
        MessageType::General => "[General]"@,
        MessageType::Performance => "[Performance]"@,
        MessageType::Validation => "[Validation]"@,
        MessageType::Unknown => "[Unknown]"@,
    }
}

/// The create-info of the debug messenger: warnings and errors of the general,
/// performance and validation categories.
pub fn populate_debug_messenger_create_info() -> (r: DebugMessengerCreateInfo)
    ensures
        r == messenger_filter(),
{
    DebugMessengerCreateInfo {
        message_severity: SeverityFilter {
            verbose: false,
            info: false,
            warning: true,
            error: true,
        },
        message_type: TypeFilter { general: true, validation: true, performance: true },
    }
}

/// The label of a raw severity value as the driver hands it to the callback.
pub fn severity_label(message_severity: u32) -> (r: String)
    ensures
        r@ == severity_label_of(vk::severity_of(message_severity)),
{
    match vk::message_severity(message_severity) {
        MessageSeverity::Verbose => String::from_str("[Verbose]"),
        MessageSeverity::Warning => String::from_str("[Warning]"),
        MessageSeverity::Error => String::from_str("[Error]"),
        MessageSeverity::Info => String::from_str("[Info]"),
        MessageSeverity::Unknown => String::from_str("[Unknown]"),
    }
}

/// The label of a raw message type as the driver hands it to the callback.
pub fn type_label(message_type: u32) -> (r: String)
    ensures
        r@ == type_label_of(vk::message_type_of(message_type)),
{
    match vk::message_type(message_type) {
        MessageType::General => String::from_str("[General]"),
        MessageType::Performance => String::from_str("[Performance]"),
        MessageType::Validation => String::from_str("[Validation]"),
        MessageType::Unknown => String::from_str("[Unknown]"),
    }
}

/// What a reported message is printed behind: `[Debug]`, the severity label
/// and the category label, in that order.
pub fn debug_message_prefix(message_severity: u32, message_type: u32) -> (r: String)
    ensures
        r@ == "[Debug]"@ + severity_label_of(vk::severity_of(message_severity)) + type_label_of(
            vk::message_type_of(message_type),
        ),
{
    let severity = severity_label(message_severity);
    let types = type_label(message_type);
    String::from_str("[Debug]").concat(severity.as_str()).concat(types.as_str())
}

} // verus!
