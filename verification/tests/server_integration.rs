use liaison::callbacks::{status_to_proto, CallbackContext};
use liaison::fmu_loader::{construct_library_path, fmi3Status, library_path_for, LibraryPlatform};
use liaison::metrics::{
    calculate_average, count_variables, timings_fit, FmuSizeCategory, InitMetrics,
};
use liaison::proto::Status as ProtoStatus;
use liaison::server::{log_message_key, queryable_key, served_functions, FmiFunction};
use liaison::utils::{is_directory_entry, resource_path};

#[test]
fn test_construct_library_path_linux() {
    let path = construct_library_path("/tmp/fmu", "MyModel");
    assert_eq!(path, "/tmp/fmu/binaries/x86_64-linux/MyModel.so");
    let path = construct_library_path("/home/user/models/extracted", "BouncingBall");
    assert_eq!(path, "/home/user/models/extracted/binaries/x86_64-linux/BouncingBall.so");
}

#[test]
fn test_construct_library_path_windows() {
    let path = library_path_for(LibraryPlatform::Windows64, "C:\\temp\\fmu", "MyModel");
    assert_eq!(path, "C:\\temp\\fmu/binaries/x86_64-windows/MyModel.dll");
    let path = library_path_for(LibraryPlatform::Windows32, "C:\\temp\\fmu", "MyModel");
    assert_eq!(path, "C:\\temp\\fmu/binaries/x86-windows/MyModel.dll");
}

#[test]
fn test_construct_library_path_special_characters() {
    let path = construct_library_path("/tmp/my-fmu_123/test", "Model-v2.0_beta");
    assert_eq!(path, "/tmp/my-fmu_123/test/binaries/x86_64-linux/Model-v2.0_beta.so");
    let path = library_path_for(LibraryPlatform::Windows64, "/tmp/my-fmu_123/test", "Model-v2.0_beta");
    assert_eq!(path, "/tmp/my-fmu_123/test/binaries/x86_64-windows/Model-v2.0_beta.dll");
}

#[test]
fn integration_tests_test_callback_context_creation() {
    let ctx = CallbackContext::new();
    let _ = ctx;
}

#[test]
fn integration_tests_test_callback_context_default() {
    let ctx = CallbackContext::default();
    let _ = ctx;
}

#[test]
fn test_status_to_proto_conversion() {
    assert_eq!(status_to_proto(fmi3Status::fmi3OK), ProtoStatus::OK);
    assert_eq!(status_to_proto(fmi3Status::fmi3Warning), ProtoStatus::Warning);
    assert_eq!(status_to_proto(fmi3Status::fmi3Discard), ProtoStatus::Discard);
    assert_eq!(status_to_proto(fmi3Status::fmi3Error), ProtoStatus::Error);
    assert_eq!(status_to_proto(fmi3Status::fmi3Fatal), ProtoStatus::Fatal);
}

// Own tests of routing, layout and benchmark figures.

#[test]
fn query_keys_name_responder_and_function() {
    assert_eq!(
        queryable_key("fmus/bouncingball", FmiFunction::DoStep),
        "rpc/fmus/bouncingball/fmi3DoStep"
    );
    assert_eq!(queryable_key("r", FmiFunction::GetUInt16), "rpc/r/fmi3GetUInt16");
    assert_eq!(log_message_key("r"), "rpc/r/fmi3LogMessage");
    assert_eq!(FmiFunction::InstantiateCoSimulation.name(), "fmi3InstantiateCoSimulation");
}

#[test]
fn server_serves_all_but_configuration_mode() {
    let served = served_functions();
    assert_eq!(served.len(), 39);
    assert_eq!(served[0], FmiFunction::SetDebugLogging);
    assert_eq!(served[38], FmiFunction::Terminate);
    assert!(!served.contains(&FmiFunction::EnterConfigurationMode));
    assert!(!served.contains(&FmiFunction::ExitConfigurationMode));
    assert!(!FmiFunction::EnterConfigurationMode.is_served());
    assert!(FmiFunction::EnterEventMode.is_served());
}

#[test]
fn every_served_function_has_a_key_of_its_own() {
    let served = served_functions();
    let mut keys: Vec<String> = served.iter().map(|f| queryable_key("r", *f)).collect();
    keys.push(queryable_key("r", FmiFunction::EnterConfigurationMode));
    keys.push(queryable_key("r", FmiFunction::ExitConfigurationMode));
    keys.push(log_message_key("r"));
    let total = keys.len();
    keys.sort();
    keys.dedup();
    assert_eq!(keys.len(), total);
    assert_eq!(total, 42);
}

#[test]
fn extracted_fmu_layout() {
    assert_eq!(resource_path("/tmp/abc"), "/tmp/abc/resources");
    assert!(is_directory_entry("sources/"));
    assert!(!is_directory_entry("resources/data.txt"));
    assert!(!is_directory_entry(""));
}

#[test]
fn fmu_size_categories() {
    assert_eq!(FmuSizeCategory::from_metrics(1000, 10), FmuSizeCategory::Small);
    assert_eq!(FmuSizeCategory::from_metrics(1_048_576, 10), FmuSizeCategory::Medium);
    assert_eq!(FmuSizeCategory::from_metrics(1000, 100), FmuSizeCategory::Medium);
    assert_eq!(FmuSizeCategory::from_metrics(10_485_760, 10), FmuSizeCategory::Medium);
    assert_eq!(FmuSizeCategory::from_metrics(1000, 1000), FmuSizeCategory::Medium);
    assert_eq!(FmuSizeCategory::from_metrics(2_000_000, 1000), FmuSizeCategory::Medium);
    assert_eq!(FmuSizeCategory::from_metrics(10_485_761, 10), FmuSizeCategory::Large);
    assert_eq!(FmuSizeCategory::from_metrics(1000, 1001), FmuSizeCategory::Large);
    assert_eq!(FmuSizeCategory::Medium.as_str(), "Medium");
}

fn run(base: u64) -> InitMetrics {
    InitMetrics {
        fmu_instantiation_nanos: base,
        config_loading_nanos: base + 1,
        variable_init_nanos: base + 2,
        setup_experiment_nanos: base + 3,
        enter_init_mode_nanos: base + 4,
        exit_init_mode_nanos: base + 5,
        cleanup_nanos: base + 6,
        fmu_size_bytes: base * 10,
        variable_count: base as usize,
    }
}

#[test]
fn averages_round_down_and_keep_first_run_sizes() {
    let runs = vec![run(10), run(13)];
    let avg = calculate_average(&runs);
    assert_eq!(avg.fmu_instantiation_nanos, 11);
    assert_eq!(avg.cleanup_nanos, 17);
    assert_eq!(avg.fmu_size_bytes, 100);
    assert_eq!(avg.variable_count, 10);
    assert_eq!(run(10).total_init_time(), 75);
}

#[test]
fn variables_are_counted_by_element_tag() {
    let xml = "<Float64 name=\"h\"/><Int32 name=\"n\"/><Boolean name=\"b\"/><String name=\"s\"/><Float64 name=\"v\"/><Float32 name=\"x\"/>";
    assert_eq!(count_variables(xml), 5);
    assert_eq!(count_variables(""), 0);
}

#[test]
fn timings_must_sum_within_64_bits() {
    assert!(timings_fit(&[run(10), run(20)]));
    assert!(timings_fit(&[]));
    let mut big = run(0);
    big.cleanup_nanos = u64::MAX;
    assert!(timings_fit(&[big]));
    assert!(!timings_fit(&[big, run(1)]));
}
