use liaison::fmu_creator::{
    binaries_entry, check_client_libraries, file_name_of, liaison_fmu_file_name,
    linux_library_entry, model_name_from_path, plan_tls_file, tls_files, tls_source_path, windows_library_entry,
    CreatorError, TlsFile,
};
use liaison::metrics::count_variables;

#[test]
fn test_model_name_extraction() {
    let model_name = model_name_from_path("/some/path/MyModel.fmu").unwrap();
    assert_eq!(model_name, "MyModel");
}

#[test]
fn test_model_name_extraction_various_paths() {
    let test_cases = [
        ("model.fmu", "model"),
        ("MyModel.fmu", "MyModel"),
        ("/absolute/path/TestFMU.fmu", "TestFMU"),
        ("./relative/ComplexModel.fmu", "ComplexModel"),
    ];
    for (input, expected) in test_cases {
        let model_name = model_name_from_path(input).unwrap();
        assert_eq!(model_name, expected, "Failed for input: {}", input);
    }
}

#[test]
fn test_output_fmu_naming() {
    let model_name = "MyTestModel";
    let expected_output = liaison_fmu_file_name(model_name);
    assert_eq!(expected_output, "MyTestModelLiaison.fmu");
}

#[test]
fn test_library_filename_generation() {
    let model_name = "TestModel";
    let linux_lib = linux_library_entry(model_name);
    let windows_lib = windows_library_entry(model_name);
    assert_eq!(linux_lib, "binaries/x86_64-linux/TestModel.so");
    assert_eq!(windows_lib, "binaries/x86_64-windows/TestModel.dll");
}

#[test]
fn test_model_name_from_xml() {
    let xml = r#"<?xml version="1.0" encoding="UTF-8"?>
<fmiModelDescription modelName="ExtractedModelName" fmiVersion="3.0">
</fmiModelDescription>"#;
    assert!(xml.contains("modelName=\"ExtractedModelName\""));
    assert_eq!(count_variables(xml), 0);
}

#[test]
fn test_invalid_model_name_from_path() {
    let model_name = model_name_from_path("/");
    assert!(model_name.is_none());
}

#[test]
fn test_certificate_filename_extraction() {
    let filename = file_name_of("/etc/certs/my-certificate.pem").unwrap();
    assert_eq!(filename, "my-certificate.pem");
    let key_filename = file_name_of("./keys/private.key").unwrap();
    assert_eq!(key_filename, "private.key");
}

// Own tests of the path and packaging rules.

#[test]
fn file_names_follow_unix_path_rules() {
    assert_eq!(file_name_of("a/b/"), Some("b".to_string()));
    assert_eq!(file_name_of("a/b/."), Some("b".to_string()));
    assert_eq!(file_name_of("a/.."), None);
    assert_eq!(file_name_of(".."), None);
    assert_eq!(file_name_of("."), None);
    assert_eq!(file_name_of(""), None);
    assert_eq!(file_name_of("//"), None);
    assert_eq!(file_name_of(".hidden"), Some(".hidden".to_string()));
}

#[test]
fn model_names_drop_only_the_last_extension() {
    assert_eq!(model_name_from_path("dir/archive.tar.gz"), Some("archive.tar".to_string()));
    assert_eq!(model_name_from_path(".bashrc"), Some(".bashrc".to_string()));
    assert_eq!(model_name_from_path("noext"), Some("noext".to_string()));
    assert_eq!(model_name_from_path("trailing."), Some("trailing".to_string()));
    assert_eq!(model_name_from_path("..x"), Some(".".to_string()));
}

#[test]
fn at_least_one_client_library_is_required() {
    assert_eq!(check_client_libraries(true, true), Ok(()));
    assert_eq!(check_client_libraries(true, false), Ok(()));
    assert_eq!(check_client_libraries(false, true), Ok(()));
    assert_eq!(check_client_libraries(false, false), Err(CreatorError::NoClientLibrary));
}

#[test]
fn tls_files_are_carried_by_file_name() {
    assert_eq!(
        tls_files(),
        vec![TlsFile::ConnectCertificate, TlsFile::ConnectPrivateKey, TlsFile::RootCaCertificate]
    );
    assert_eq!(TlsFile::ConnectCertificate.key(), "connect_certificate");
    assert_eq!(TlsFile::ConnectPrivateKey.key(), "connect_private_key");
    assert_eq!(TlsFile::RootCaCertificate.key(), "root_ca_certificate");

    let entry = plan_tls_file(TlsFile::ConnectCertificate, Some("/tmp/x/client.crt"), true)
        .unwrap()
        .unwrap();
    assert_eq!(entry.file_name, "client.crt");
    assert_eq!(entry.archive_name, "binaries/client.crt");

    assert!(plan_tls_file(TlsFile::RootCaCertificate, None, false).unwrap().is_none());
    assert!(plan_tls_file(TlsFile::RootCaCertificate, Some(""), false).unwrap().is_none());
    assert_eq!(
        plan_tls_file(TlsFile::ConnectPrivateKey, Some("/missing.key"), false).err(),
        Some(CreatorError::MissingTlsFile(TlsFile::ConnectPrivateKey))
    );
    assert_eq!(
        plan_tls_file(TlsFile::ConnectPrivateKey, Some("/"), true).err(),
        Some(CreatorError::InvalidTlsFileName(TlsFile::ConnectPrivateKey))
    );
    assert_eq!(binaries_entry("config.json"), "binaries/config.json");
}

#[test]
fn tls_files_lie_beside_the_configuration() {
    assert_eq!(tls_source_path("../tests/config.json", "minica.pem"), "../tests/minica.pem");
    assert_eq!(tls_source_path("config.json", "minica.pem"), "minica.pem");
    assert_eq!(tls_source_path("/etc/zenoh/config.json", "keys/client.key"), "/etc/zenoh/keys/client.key");
    assert_eq!(tls_source_path("../config.json", "/abs/ca.pem"), "/abs/ca.pem");
}
