//! Callbacks that a loaded FMU invokes on the server, and the status
//! translation that every server reply goes through.
use crate::fmi3::fmi3Status;
use crate::proto::Status as ProtoStatus;
use vstd::prelude::*;

verus! {

/// State handed to the FMU as its instance environment.
pub struct CallbackContext {
    _log_publisher: (),
}

impl CallbackContext {
    /// The context that a new instance receives.
    pub closed spec fn fresh() -> CallbackContext {
        CallbackContext { _log_publisher: () }
    }

    /// A fresh callback context.
    pub fn new() -> (ctx: CallbackContext)
        ensures
            ctx == CallbackContext::fresh(),
    {
        CallbackContext { _log_publisher: () }
    }
}

impl Default for CallbackContext {
    /// The same context as `new`.
    fn default() -> (ctx: CallbackContext)
        ensures
            ctx == CallbackContext::fresh(),
    {
        Self::new()
    }
}

/// The wire status that a server reply carries for an FMI status.
pub open spec fn proto_status_of(status: fmi3Status) -> ProtoStatus {
    match status {
        fmi3Status::fmi3OK => ProtoStatus::OK,
        fmi3Status::fmi3Warning => ProtoStatus::Warning,
        fmi3Status::fmi3Discard => ProtoStatus::Discard,
        fmi3Status::fmi3Error => ProtoStatus::Error,
        fmi3Status::fmi3Fatal => ProtoStatus::Fatal,
    }
}

/// Converts an FMI status to the wire status of a reply.
pub fn status_to_proto(status: fmi3Status) -> (r: ProtoStatus)
    ensures
        r == proto_status_of(status),
{
    match status {
        fmi3Status::fmi3OK => ProtoStatus::OK,
        fmi3Status::fmi3Warning => ProtoStatus::Warning,
        fmi3Status::fmi3Discard => ProtoStatus::Discard,
        fmi3Status::fmi3Error => ProtoStatus::Error,
        fmi3Status::fmi3Fatal => ProtoStatus::Fatal,
    }
}

/// Severity at which a message logged by the FMU is recorded.
#[derive(Debug, Clone, Copy, PartialEq, Eq, Structural)]
pub enum LogLevel {
    Info,
    Warn,
    Error,
}

/// `fmi3OK` is recorded as information, `fmi3Warning` and `fmi3Discard` as
/// warnings, `fmi3Error` and `fmi3Fatal` as errors.
pub open spec fn log_level_of(status: fmi3Status) -> LogLevel {
    match status {
        fmi3Status::fmi3OK => LogLevel::Info,
        fmi3Status::fmi3Warning => LogLevel::Warn,
        fmi3Status::fmi3Discard => LogLevel::Warn,
        fmi3Status::fmi3Error => LogLevel::Error,
        fmi3Status::fmi3Fatal => LogLevel::Error,
    }
}

/// The severity at which a message that the FMU logs with `status` is recorded.
pub fn log_level(status: fmi3Status) -> (l: LogLevel)
    ensures
        l == log_level_of(status),
{
    match status {
        fmi3Status::fmi3OK => LogLevel::Info,
        fmi3Status::fmi3Warning => LogLevel::Warn,
        fmi3Status::fmi3Discard => LogLevel::Warn,
        fmi3Status::fmi3Error => LogLevel::Error,
        fmi3Status::fmi3Fatal => LogLevel::Error,
    }
}

/// The name of a status as it appears in a log line.
pub open spec fn status_name_spec(status: fmi3Status) -> Seq<char> {
    match status {
        fmi3Status::fmi3OK => "fmi3OK"@,
        fmi3Status::fmi3Warning => "fmi3Warning"@,
        fmi3Status::fmi3Discard => "fmi3Discard"@,
        fmi3Status::fmi3Error => "fmi3Error"@,
        fmi3Status::fmi3Fatal => "fmi3Fatal"@,
    }
}

/// The name of a status as it appears in a log line.
pub fn status_name(status: fmi3Status) -> (s: &'static str)
    ensures
        s@ == status_name_spec(status),
{
    match status {
        fmi3Status::fmi3OK => "fmi3OK",
        fmi3Status::fmi3Warning => "fmi3Warning",
        fmi3Status::fmi3Discard => "fmi3Discard",
        fmi3Status::fmi3Error => "fmi3Error",
        fmi3Status::fmi3Fatal => "fmi3Fatal",
    }
}

/// A string that the FMU passed, or `(null)` where it passed none.
pub open spec fn text_or_null(s: Option<Seq<char>>) -> Seq<char> {
    match s {
        Some(t) => t,
        None => "(null)"@,
    }
}

/// The view of an optional string.
pub open spec fn opt_view(s: Option<&str>) -> Option<Seq<char>> {
    match s {
        Some(t) => Some(t@),
        None => None,
    }
}

/// The line recorded for a message that the FMU logs:
/// `[FMU log] <status>: <category> : <message>`.
pub open spec fn log_line_spec(
    status: fmi3Status,
    category: Option<Seq<char>>,
    message: Option<Seq<char>>,
) -> Seq<char> {
    "[FMU log] "@ + status_name_spec(status) + ": "@ + text_or_null(category) + " : "@
        + text_or_null(message)
}

/// Builds the line recorded for a message that the FMU logs with `status`;
/// a category or message that the FMU left out reads `(null)`.
pub fn log_line(status: fmi3Status, category: Option<&str>, message: Option<&str>) -> (line: String)
    ensures
        line@ == log_line_spec(status, opt_view(category), opt_view(message)),
{
    let mut line = String::from_str("[FMU log] ");
    line.append(status_name(status));
    line.append(": ");
    match category {
        Some(c) => line.append(c),
        None => line.append("(null)"),
    }
    line.append(" : ");
    match message {
        Some(m) => line.append(m),
        None => line.append("(null)"),
    }
    line
}

/// Messages are recorded by severity: `fmi3OK` as information,
/// `fmi3Warning` and `fmi3Discard` as warnings, `fmi3Error` and `fmi3Fatal`
/// as errors; a status is named by its FMI spelling.
pub proof fn lemma_log_levels_by_severity()
    ensures
        log_level_of(fmi3Status::fmi3OK) == LogLevel::Info,
        log_level_of(fmi3Status::fmi3Warning) == LogLevel::Warn,
        log_level_of(fmi3Status::fmi3Discard) == LogLevel::Warn,
        log_level_of(fmi3Status::fmi3Error) == LogLevel::Error,
        log_level_of(fmi3Status::fmi3Fatal) == LogLevel::Error,
        status_name_spec(fmi3Status::fmi3OK) == "fmi3OK"@,
        status_name_spec(fmi3Status::fmi3Warning) == "fmi3Warning"@,
        status_name_spec(fmi3Status::fmi3Discard) == "fmi3Discard"@,
        status_name_spec(fmi3Status::fmi3Error) == "fmi3Error"@,
        status_name_spec(fmi3Status::fmi3Fatal) == "fmi3Fatal"@,
{
}

} // verus!
