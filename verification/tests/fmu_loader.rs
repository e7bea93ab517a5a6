use liaison::fmu_loader::{construct_library_path, fmi3Status, library_path_for, LibraryPlatform};

#[test]
fn test_construct_library_path() {
    let path = construct_library_path("/tmp/fmu", "MyModel");
    assert_eq!(path, "/tmp/fmu/binaries/x86_64-linux/MyModel.so");
    assert_eq!(
        library_path_for(LibraryPlatform::Windows64, "/tmp/fmu", "MyModel"),
        "/tmp/fmu/binaries/x86_64-windows/MyModel.dll"
    );
    assert_eq!(
        library_path_for(LibraryPlatform::Windows32, "/tmp/fmu", "MyModel"),
        "/tmp/fmu/binaries/x86-windows/MyModel.dll"
    );
}

#[test]
fn test_construct_library_path_with_special_chars() {
    let path = construct_library_path("/tmp/my_fmu_123", "Model-v2.0");
    assert_eq!(path, "/tmp/my_fmu_123/binaries/x86_64-linux/Model-v2.0.so");
    assert_eq!(
        library_path_for(LibraryPlatform::Windows64, "/tmp/my_fmu_123", "Model-v2.0"),
        "/tmp/my_fmu_123/binaries/x86_64-windows/Model-v2.0.dll"
    );
}

#[test]
fn test_construct_library_path_empty() {
    let path = construct_library_path("", "Model");
    assert_eq!(path, "/binaries/x86_64-linux/Model.so");
    assert_eq!(
        library_path_for(LibraryPlatform::Windows64, "", "Model"),
        "/binaries/x86_64-windows/Model.dll"
    );
}

#[test]
fn test_construct_library_path_with_spaces() {
    let path = construct_library_path("/tmp/my fmu dir", "My Model");
    assert_eq!(path, "/tmp/my fmu dir/binaries/x86_64-linux/My Model.so");
    assert_eq!(
        library_path_for(LibraryPlatform::Windows64, "/tmp/my fmu dir", "My Model"),
        "/tmp/my fmu dir/binaries/x86_64-windows/My Model.dll"
    );
}

#[test]
fn test_construct_library_path_absolute() {
    let path = construct_library_path("/home/user/fmus/extract", "BouncingBall");
    assert_eq!(path, "/home/user/fmus/extract/binaries/x86_64-linux/BouncingBall.so");
    assert_eq!(
        library_path_for(LibraryPlatform::Windows64, "C:/Users/test/fmus", "BouncingBall"),
        "C:/Users/test/fmus/binaries/x86_64-windows/BouncingBall.dll"
    );
}

#[test]
fn test_fmi3_status_values() {
    assert_eq!(fmi3Status::fmi3OK as i32, 0);
    assert_eq!(fmi3Status::fmi3Warning as i32, 1);
    assert_eq!(fmi3Status::fmi3Discard as i32, 2);
    assert_eq!(fmi3Status::fmi3Error as i32, 3);
    assert_eq!(fmi3Status::fmi3Fatal as i32, 4);
}

#[test]
fn test_fmi3_status_copy_clone() {
    let status1 = fmi3Status::fmi3OK;
    let status2 = status1;
    let status3 = status1.clone();
    assert_eq!(status1, status2);
    assert_eq!(status1, status3);
}

#[test]
fn test_fmi3_status_debug() {
    let status = fmi3Status::fmi3OK;
    let debug_str = format!("{:?}", status);
    assert!(debug_str.contains("fmi3OK"));
}

#[test]
fn test_library_path_uses_forward_slashes() {
    let path = construct_library_path("/tmp/test", "Model");
    let forward_slashes = path.matches('/').count();
    assert!(forward_slashes >= 3, "Path should contain multiple forward slashes");
    assert!(!path.contains('\\'), "Path should not contain backslashes");
}

#[test]
fn test_workflow_construct_and_load() {
    let lib_path = construct_library_path("/tmp/test_fmu", "TestModel");
    assert!(lib_path.contains("x86_64-linux"));
}
