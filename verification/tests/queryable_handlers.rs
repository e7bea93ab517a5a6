use liaison::callbacks::status_to_proto;
use liaison::fmi3::fmi3Status;
use liaison::instance_manager::InstanceManager;
use liaison::proto;
use liaison::queryable_handlers::{
    binary_offsets, c_string_or_empty, check_c_strings, contains_nul, count_within,
    pack_binary_values, register_instance, sizes_fit, split_binary_buffer, HandlerError,
};
use liaison::values::{
    booleans_to_fmi, booleans_to_proto, narrow_to_i16, narrow_to_u8, value_references_to_fmi,
    widen_i8, widen_u8,
};

#[test]
fn test_status_conversion() {
    assert_eq!(status_to_proto(fmi3Status::fmi3OK), proto::Status::OK);
    assert_eq!(status_to_proto(fmi3Status::fmi3Warning), proto::Status::Warning);
    assert_eq!(status_to_proto(fmi3Status::fmi3Discard), proto::Status::Discard);
    assert_eq!(status_to_proto(fmi3Status::fmi3Error), proto::Status::Error);
    assert_eq!(status_to_proto(fmi3Status::fmi3Fatal), proto::Status::Fatal);
}

#[test]
fn test_bool_to_fmi_conversion() {
    let bool_values = vec![true, false, true];
    let fmi_values: Vec<i32> = booleans_to_fmi(&bool_values);
    assert_eq!(fmi_values, vec![1, 0, 1]);
}

#[test]
fn test_fmi_to_bool_conversion() {
    let fmi_values = vec![1, 0, 42, -1];
    let bool_values: Vec<bool> = booleans_to_proto(&fmi_values);
    assert_eq!(bool_values, vec![true, false, true, true]);
}

#[test]
fn test_value_reference_conversion() {
    let proto_refs: Vec<i32> = vec![0, 1, 100, 65535];
    let fmi_refs: Vec<u32> = value_references_to_fmi(&proto_refs);
    assert_eq!(fmi_refs, vec![0u32, 1u32, 100u32, 65535u32]);
}

#[test]
fn test_instance_manager_remove() {
    let mut manager = InstanceManager::new();
    let ptr = 0x1000usize;
    let idx = manager.add_instance(ptr);
    assert!(manager.contains_instance(idx));
    assert!(manager.remove_instance(idx).is_ok());
    assert!(!manager.contains_instance(idx));
    assert!(manager.remove_instance(idx).is_err());
}

#[test]
fn test_invalid_instance_index() {
    let manager = InstanceManager::new();
    let result = manager.get_instance(-1);
    assert!(result.is_err());
    let result = manager.get_instance(999);
    assert!(result.is_err());
}

#[test]
fn test_empty_categories_array() {
    let categories: Vec<String> = vec![];
    assert_eq!(check_c_strings(&categories), Ok(()));
}

#[test]
fn test_empty_value_references() {
    let value_refs: Vec<i32> = vec![];
    let fmi_refs: Vec<u32> = value_references_to_fmi(&value_refs);
    assert_eq!(fmi_refs.len(), 0);
}

#[test]
fn test_binary_size_array_creation() {
    let binary_values = vec![vec![1u8, 2, 3], vec![4, 5], vec![6, 7, 8, 9]];
    let (value_sizes, binary_buffer) = pack_binary_values(&binary_values);
    assert_eq!(value_sizes, vec![3, 2, 4]);
    assert_eq!(binary_buffer, vec![1, 2, 3, 4, 5, 6, 7, 8, 9]);
}

#[test]
fn test_binary_pointer_array_creation() {
    let binary_buffer = vec![1u8, 2, 3, 4, 5, 6, 7, 8, 9];
    let value_sizes = vec![3, 2, 4];
    let offsets = binary_offsets(&value_sizes);
    assert_eq!(offsets.len(), 3);
    assert_eq!(binary_buffer[offsets[0]], 1);
    assert_eq!(binary_buffer[offsets[1]], 4);
    assert_eq!(binary_buffer[offsets[2]], 6);
}

#[test]
fn test_string_with_null_byte_handling() {
    let string_with_null = "test\0embedded";
    assert!(contains_nul(string_with_null));
    let safe_conversion = c_string_or_empty(string_with_null);
    assert_eq!(safe_conversion, "");
}

#[test]
fn test_get_value_handler_type_conversions() {
    let float_values: Vec<f64> = vec![1.5, 2.5, 3.5];
    let proto_values: Vec<f64> = float_values.iter().map(|&v| v as f64).collect();
    assert_eq!(proto_values, vec![1.5, 2.5, 3.5]);

    let int8_values: Vec<i8> = vec![1, 2, 3];
    let proto_values: Vec<i32> = widen_i8(&int8_values);
    assert_eq!(proto_values, vec![1, 2, 3]);

    let uint8_values: Vec<u8> = vec![10, 20, 30];
    let proto_values: Vec<u32> = widen_u8(&uint8_values);
    assert_eq!(proto_values, vec![10, 20, 30]);
}

#[test]
fn test_set_value_handler_type_conversions() {
    let proto_values: Vec<f64> = vec![1.5, 2.5];
    let fmi_values: Vec<f64> = proto_values.iter().map(|&v| v as f64).collect();
    assert_eq!(fmi_values, vec![1.5, 2.5]);

    let proto_values: Vec<i32> = vec![10, 20];
    let fmi_values: Vec<i16> = narrow_to_i16(&proto_values);
    assert_eq!(fmi_values, vec![10i16, 20i16]);

    let proto_values: Vec<u32> = vec![100, 200];
    let fmi_values: Vec<u8> = narrow_to_u8(&proto_values);
    assert_eq!(fmi_values, vec![100u8, 200u8]);
}

#[test]
fn test_large_value_reference_array() {
    let large_array: Vec<i32> = (0..1000).collect();
    let fmi_refs: Vec<u32> = value_references_to_fmi(&large_array);
    assert_eq!(fmi_refs.len(), 1000);
    assert_eq!(fmi_refs[0], 0);
    assert_eq!(fmi_refs[999], 999);
}

#[test]
fn test_single_element_arrays() {
    let value_refs = vec![42i32];
    let fmi_refs: Vec<u32> = value_references_to_fmi(&value_refs);
    assert_eq!(fmi_refs.len(), 1);
    assert_eq!(fmi_refs[0], 42);
}

// Own tests of the handler decisions.

#[test]
fn split_reads_back_what_pack_laid_out() {
    let values = vec![vec![9u8], vec![], vec![7, 7, 7], vec![0, 255]];
    let (sizes, buffer) = pack_binary_values(&values);
    assert_eq!(binary_offsets(&sizes), vec![0, 1, 1, 4]);
    assert_eq!(split_binary_buffer(&buffer, &sizes), values);
}

#[test]
fn split_reads_prefix_segments_of_a_larger_buffer() {
    let buffer = vec![1u8, 2, 3, 4, 5, 6];
    assert_eq!(split_binary_buffer(&buffer, &[2, 1]), vec![vec![1u8, 2], vec![3]]);
}

#[test]
fn null_instances_are_not_registered() {
    let mut manager = InstanceManager::new();
    assert_eq!(register_instance(&mut manager, 0), Err(HandlerError::InstantiationFailed));
    assert_eq!(manager.instance_count(), 0);
    assert_eq!(register_instance(&mut manager, 0x1234), Ok(0));
    assert_eq!(register_instance(&mut manager, 0x5678), Ok(1));
    assert_eq!(manager.get_instance(1), Ok(0x5678));
}

#[test]
fn strings_with_nul_are_refused_for_the_c_interface() {
    let ok = vec!["logAll".to_string(), "logError".to_string()];
    assert_eq!(check_c_strings(&ok), Ok(()));
    let bad = vec!["logAll".to_string(), "bad\0name".to_string()];
    assert_eq!(check_c_strings(&bad), Err(HandlerError::InteriorNul));
    assert_eq!(c_string_or_empty("hello"), "hello");
    assert!(!contains_nul("αβγ"));
}

#[test]
fn narrowing_keeps_low_bits() {
    assert_eq!(narrow_to_u8(&[256, 257, 511]), vec![0u8, 1, 255]);
    assert_eq!(narrow_to_i16(&[70000, -1]), vec![4464i16, -1]);
    assert_eq!(value_references_to_fmi(&[-1]), vec![u32::MAX]);
}

#[test]
fn request_counts_must_fit_their_lists() {
    assert_eq!(count_within(3, 5), Some(3));
    assert_eq!(count_within(5, 5), Some(5));
    assert_eq!(count_within(0, 0), Some(0));
    assert_eq!(count_within(6, 5), None);
    assert_eq!(count_within(-1, 5), None);
    assert_eq!(count_within(i32::MIN, usize::MAX), None);
}

#[test]
fn binary_sizes_must_fit_the_buffer() {
    assert!(sizes_fit(&[1, 2, 3], 6));
    assert!(!sizes_fit(&[1, 2, 3], 5));
    assert!(sizes_fit(&[], 0));
    assert!(!sizes_fit(&[usize::MAX, 1], usize::MAX));
    let (sizes, buffer) = pack_binary_values(&[vec![1, 2], vec![], vec![3]]);
    assert!(sizes_fit(&sizes, buffer.len()));
}
