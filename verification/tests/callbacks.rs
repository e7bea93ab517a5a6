use liaison::callbacks::{log_level, log_line, status_to_proto, CallbackContext, LogLevel};
use liaison::fmi3::fmi3Status;
use liaison::proto::Status as ProtoStatus;

#[test]
fn callbacks_test_callback_context_creation() {
    let ctx = CallbackContext::new();
    let _ = ctx;
}

#[test]
fn callbacks_test_callback_context_default() {
    let ctx = CallbackContext::default();
    let _ = ctx;
}

#[test]
fn test_status_to_proto_ok() {
    assert_eq!(status_to_proto(fmi3Status::fmi3OK), ProtoStatus::OK);
}

#[test]
fn test_status_to_proto_warning() {
    assert_eq!(status_to_proto(fmi3Status::fmi3Warning), ProtoStatus::Warning);
}

#[test]
fn test_status_to_proto_discard() {
    assert_eq!(status_to_proto(fmi3Status::fmi3Discard), ProtoStatus::Discard);
}

#[test]
fn test_status_to_proto_error() {
    assert_eq!(status_to_proto(fmi3Status::fmi3Error), ProtoStatus::Error);
}

#[test]
fn test_status_to_proto_fatal() {
    assert_eq!(status_to_proto(fmi3Status::fmi3Fatal), ProtoStatus::Fatal);
}

#[test]
fn test_status_to_proto_all_variants() {
    let test_cases = vec![
        (fmi3Status::fmi3OK, ProtoStatus::OK),
        (fmi3Status::fmi3Warning, ProtoStatus::Warning),
        (fmi3Status::fmi3Discard, ProtoStatus::Discard),
        (fmi3Status::fmi3Error, ProtoStatus::Error),
        (fmi3Status::fmi3Fatal, ProtoStatus::Fatal),
    ];
    for (fmi_status, expected_proto) in test_cases {
        assert_eq!(
            status_to_proto(fmi_status),
            expected_proto,
            "Failed to convert {:?} to {:?}",
            fmi_status,
            expected_proto
        );
    }
}

#[test]
fn test_fmi3_log_message_with_null_strings() {
    let (level, line) = (
        log_level(fmi3Status::fmi3Warning),
        log_line(fmi3Status::fmi3Warning, None, None),
    );
    assert_eq!(level, LogLevel::Warn);
    assert_eq!(line, "[FMU log] fmi3Warning: (null) : (null)");
}

#[test]
fn log_line_formats_status_category_and_message() {
    assert_eq!(
        log_line(fmi3Status::fmi3OK, Some("logAll"), Some("FMU initialized successfully")),
        "[FMU log] fmi3OK: logAll : FMU initialized successfully"
    );
    assert_eq!(
        log_line(fmi3Status::fmi3Error, Some("logError"), None),
        "[FMU log] fmi3Error: logError : (null)"
    );
    assert_eq!(log_line(fmi3Status::fmi3Fatal, Some(""), Some("")), "[FMU log] fmi3Fatal:  : ");
}

#[test]
fn log_levels_follow_status_severity() {
    assert_eq!(log_level(fmi3Status::fmi3OK), LogLevel::Info);
    assert_eq!(log_level(fmi3Status::fmi3Warning), LogLevel::Warn);
    assert_eq!(log_level(fmi3Status::fmi3Discard), LogLevel::Warn);
    assert_eq!(log_level(fmi3Status::fmi3Error), LogLevel::Error);
    assert_eq!(log_level(fmi3Status::fmi3Fatal), LogLevel::Error);
}
