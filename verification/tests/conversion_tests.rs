use liaison::fmi3::fmi3Status;
use liaison::proto;

#[test]
fn test_all_proto_to_fmi_conversions() {
    let test_cases = vec![
        (proto::Status::OK, fmi3Status::fmi3OK),
        (proto::Status::Warning, fmi3Status::fmi3Warning),
        (proto::Status::Discard, fmi3Status::fmi3Discard),
        (proto::Status::Error, fmi3Status::fmi3Error),
        (proto::Status::Fatal, fmi3Status::fmi3Fatal),
    ];
    for (proto_status, expected_fmi_status) in test_cases {
        let result: fmi3Status = proto_status.into();
        assert_eq!(result, expected_fmi_status, "Conversion from {:?} failed", proto_status);
    }
}

#[test]
fn test_all_fmi_to_proto_conversions() {
    let test_cases = vec![
        (fmi3Status::fmi3OK, proto::Status::OK),
        (fmi3Status::fmi3Warning, proto::Status::Warning),
        (fmi3Status::fmi3Discard, proto::Status::Discard),
        (fmi3Status::fmi3Error, proto::Status::Error),
        (fmi3Status::fmi3Fatal, proto::Status::Fatal),
    ];
    for (fmi_status, expected_proto_status) in test_cases {
        let result: proto::Status = fmi_status.into();
        assert_eq!(result, expected_proto_status, "Conversion from {:?} failed", fmi_status);
    }
}

#[test]
fn conversion_tests_test_i32_to_fmi_status_valid_values() {
    let test_cases = vec![
        (0, fmi3Status::fmi3OK),
        (1, fmi3Status::fmi3Warning),
        (2, fmi3Status::fmi3Discard),
        (3, fmi3Status::fmi3Error),
        (4, fmi3Status::fmi3Fatal),
    ];
    for (i32_val, expected_status) in test_cases {
        let result: fmi3Status = i32_val.into();
        assert_eq!(result, expected_status, "Conversion from i32 {} failed", i32_val);
    }
}

#[test]
fn test_i32_to_fmi_status_invalid_values() {
    let invalid_values = vec![-1, 5, 10, 100, 999, i32::MIN, i32::MAX];
    for i32_val in invalid_values {
        let result: fmi3Status = i32_val.into();
        assert_eq!(
            result,
            fmi3Status::fmi3Error,
            "Invalid i32 {} should convert to fmi3Error",
            i32_val
        );
    }
}

#[test]
fn test_bidirectional_conversion_consistency() {
    let proto_statuses = vec![
        proto::Status::OK,
        proto::Status::Warning,
        proto::Status::Discard,
        proto::Status::Error,
        proto::Status::Fatal,
    ];
    for initial_proto in proto_statuses {
        let fmi: fmi3Status = initial_proto.into();
        let back_to_proto: proto::Status = fmi.into();
        assert_eq!(back_to_proto, initial_proto, "Round-trip conversion failed for {:?}", initial_proto);
    }
}

#[test]
fn conversion_tests_test_fmi_status_numeric_values() {
    assert_eq!(fmi3Status::fmi3OK as i32, 0);
    assert_eq!(fmi3Status::fmi3Warning as i32, 1);
    assert_eq!(fmi3Status::fmi3Discard as i32, 2);
    assert_eq!(fmi3Status::fmi3Error as i32, 3);
    assert_eq!(fmi3Status::fmi3Fatal as i32, 4);
}

#[test]
fn conversion_tests_test_proto_status_numeric_values() {
    assert_eq!(proto::Status::OK as i32, 0);
    assert_eq!(proto::Status::Warning as i32, 1);
    assert_eq!(proto::Status::Discard as i32, 2);
    assert_eq!(proto::Status::Error as i32, 3);
    assert_eq!(proto::Status::Fatal as i32, 4);
}

#[test]
fn test_conversion_pattern_matching() {
    let proto_status = proto::Status::OK;
    let fmi_status: fmi3Status = proto_status.into();
    match fmi_status {
        fmi3Status::fmi3OK => assert!(true),
        _ => panic!("Expected fmi3OK"),
    }
}
