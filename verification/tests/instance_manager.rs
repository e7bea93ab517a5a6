use liaison::instance_manager::{InstanceError, InstanceManager};

#[test]
fn test_new_instance_manager() {
    let manager = InstanceManager::new();
    assert_eq!(manager.instance_count(), 0);
}

#[test]
fn test_add_instance() {
    let mut manager = InstanceManager::new();
    let dummy_ptr = 0x1234usize;
    let index1 = manager.add_instance(dummy_ptr);
    assert_eq!(index1, 0);
    let index2 = manager.add_instance(dummy_ptr);
    assert_eq!(index2, 1);
    assert_eq!(manager.instance_count(), 2);
}

#[test]
fn test_get_instance() {
    let mut manager = InstanceManager::new();
    let dummy_ptr = 0x1234usize;
    let index = manager.add_instance(dummy_ptr);
    let retrieved = manager.get_instance(index).unwrap();
    assert_eq!(retrieved, dummy_ptr);
}

#[test]
fn test_get_nonexistent_instance() {
    let manager = InstanceManager::new();
    let result = manager.get_instance(999);
    assert_eq!(result, Err(InstanceError::InstanceNotFound(999)));
}

#[test]
fn test_get_invalid_index() {
    let manager = InstanceManager::new();
    let result = manager.get_instance(-1);
    assert_eq!(result, Err(InstanceError::InvalidIndex(-1)));
}

#[test]
fn test_remove_instance() {
    let mut manager = InstanceManager::new();
    let dummy_ptr = 0x1234usize;
    let index = manager.add_instance(dummy_ptr);
    assert_eq!(manager.instance_count(), 1);
    let result = manager.remove_instance(index);
    assert!(result.is_ok());
    assert_eq!(manager.instance_count(), 0);
}

#[test]
fn test_remove_nonexistent_instance() {
    let mut manager = InstanceManager::new();
    let result = manager.remove_instance(999);
    assert_eq!(result, Err(InstanceError::InstanceNotFound(999)));
}

#[test]
fn test_remove_invalid_index() {
    let mut manager = InstanceManager::new();
    let result = manager.remove_instance(-1);
    assert_eq!(result, Err(InstanceError::InvalidIndex(-1)));
}

#[test]
fn test_contains_instance() {
    let mut manager = InstanceManager::new();
    let dummy_ptr = 0x1234usize;
    let index = manager.add_instance(dummy_ptr);
    assert!(manager.contains_instance(index));
    assert!(!manager.contains_instance(999));
    assert!(!manager.contains_instance(-1));
}

#[test]
fn test_multiple_instances() {
    let mut manager = InstanceManager::new();
    let ptr1 = 0x1000usize;
    let ptr2 = 0x2000usize;
    let ptr3 = 0x3000usize;
    let idx1 = manager.add_instance(ptr1);
    let idx2 = manager.add_instance(ptr2);
    let idx3 = manager.add_instance(ptr3);
    assert_eq!(manager.get_instance(idx1).unwrap(), ptr1);
    assert_eq!(manager.get_instance(idx2).unwrap(), ptr2);
    assert_eq!(manager.get_instance(idx3).unwrap(), ptr3);
    manager.remove_instance(idx2).unwrap();
    assert_eq!(manager.instance_count(), 2);
    assert!(manager.get_instance(idx2).is_err());
    assert_eq!(manager.get_instance(idx1).unwrap(), ptr1);
    assert_eq!(manager.get_instance(idx3).unwrap(), ptr3);
}

#[test]
fn test_instance_manager_lifecycle() {
    let mut manager = InstanceManager::new();
    assert_eq!(manager.instance_count(), 0);
    let ptr1 = 0x1000usize;
    let ptr2 = 0x2000usize;
    let ptr3 = 0x3000usize;
    let idx1 = manager.add_instance(ptr1);
    let idx2 = manager.add_instance(ptr2);
    let idx3 = manager.add_instance(ptr3);
    assert_eq!(idx1, 0);
    assert_eq!(idx2, 1);
    assert_eq!(idx3, 2);
    assert_eq!(manager.instance_count(), 3);
    assert_eq!(manager.get_instance(idx1).unwrap(), ptr1);
    assert_eq!(manager.get_instance(idx2).unwrap(), ptr2);
    assert_eq!(manager.get_instance(idx3).unwrap(), ptr3);
    assert!(manager.contains_instance(idx1));
    assert!(manager.contains_instance(idx2));
    assert!(manager.contains_instance(idx3));
    assert!(!manager.contains_instance(999));
    assert!(manager.remove_instance(idx2).is_ok());
    assert_eq!(manager.instance_count(), 2);
    assert!(!manager.contains_instance(idx2));
    assert_eq!(manager.get_instance(idx1).unwrap(), ptr1);
    assert_eq!(manager.get_instance(idx3).unwrap(), ptr3);
    assert!(manager.remove_instance(idx1).is_ok());
    assert!(manager.remove_instance(idx3).is_ok());
    assert_eq!(manager.instance_count(), 0);
}

#[test]
fn test_instance_manager_error_handling() {
    let mut manager = InstanceManager::new();
    let result = manager.get_instance(-1);
    assert_eq!(result, Err(InstanceError::InvalidIndex(-1)));
    let result = manager.remove_instance(-1);
    assert_eq!(result, Err(InstanceError::InvalidIndex(-1)));
    let result = manager.get_instance(999);
    assert_eq!(result, Err(InstanceError::InstanceNotFound(999)));
    let result = manager.remove_instance(999);
    assert_eq!(result, Err(InstanceError::InstanceNotFound(999)));
}

#[test]
fn test_instance_manager_default() {
    let manager = InstanceManager::default();
    assert_eq!(manager.instance_count(), 0);
}

#[test]
fn test_instance_manager_multiple_operations() {
    let mut manager = InstanceManager::new();
    let mut indices = vec![];
    for i in 0..50usize {
        let ptr = i * 1000;
        let idx = manager.add_instance(ptr);
        indices.push(idx);
    }
    assert_eq!(manager.instance_count(), 50);
    for i in (0..50).step_by(2) {
        assert!(manager.remove_instance(indices[i]).is_ok());
    }
    assert_eq!(manager.instance_count(), 25);
    for i in (1..50usize).step_by(2) {
        let ptr = i * 1000;
        assert_eq!(manager.get_instance(indices[i]).unwrap(), ptr);
    }
}

#[test]
fn test_error_handling_robustness() {
    let mut manager = InstanceManager::new();
    let error_cases = vec![-1, -100, -999];
    for idx in error_cases {
        assert!(matches!(manager.get_instance(idx), Err(InstanceError::InvalidIndex(_))));
        assert!(matches!(manager.remove_instance(idx), Err(InstanceError::InvalidIndex(_))));
    }
    let nonexistent_cases = vec![0, 1, 100, 999, 9999];
    for idx in nonexistent_cases {
        assert!(matches!(manager.get_instance(idx), Err(InstanceError::InstanceNotFound(_))));
        assert!(matches!(manager.remove_instance(idx), Err(InstanceError::InstanceNotFound(_))));
    }
}

// Own tests.

#[test]
fn removed_indices_are_never_handed_out_again() {
    let mut manager = InstanceManager::new();
    let a = manager.add_instance(10);
    manager.remove_instance(a).unwrap();
    let b = manager.add_instance(20);
    assert_eq!(a, 0);
    assert_eq!(b, 1);
    assert_eq!(manager.get_instance(a), Err(InstanceError::InstanceNotFound(0)));
    assert_eq!(manager.get_instance(b), Ok(20));
    assert!(manager.has_room());
}

#[test]
fn error_messages_name_the_index() {
    assert_eq!(InstanceError::InstanceNotFound(7).message(), "Instance with index 7 not found");
    assert_eq!(InstanceError::InvalidIndex(-1).message(), "Invalid instance index: -1");
    assert_eq!(
        InstanceError::InvalidIndex(i32::MIN).message(),
        "Invalid instance index: -2147483648"
    );
    assert_eq!(InstanceError::InstanceNotFound(0).message(), "Instance with index 0 not found");
    assert_eq!(InstanceError::LockPoisoned.message(), "Instance manager lock was poisoned");
}

#[test]
fn removing_a_fresh_instance_restores_the_table() {
    let mut manager = InstanceManager::new();
    let kept = manager.add_instance(0x1000);
    let added = manager.add_instance(0x2000);
    assert_eq!(manager.remove_instance(added), Ok(()));
    assert_eq!(manager.instance_count(), 1);
    assert_eq!(manager.get_instance(kept), Ok(0x1000));
    assert_eq!(manager.get_instance(added), Err(InstanceError::InstanceNotFound(added)));
    assert_eq!(manager.add_instance(0x3000), 2);
}

#[test]
fn count_equals_the_indices_that_are_contained() {
    let mut manager = InstanceManager::new();
    for handle in 1..=5usize {
        manager.add_instance(handle);
    }
    assert_eq!(manager.remove_instance(2), Ok(()));
    let contained = (-3..10).filter(|&i| manager.contains_instance(i)).count();
    assert_eq!(manager.instance_count(), contained);
    assert_eq!(contained, 4);
}

#[test]
fn successive_adds_hand_out_consecutive_indices() {
    let mut manager = InstanceManager::new();
    let mut indices: Vec<i32> = Vec::new();
    for i in 0..10usize {
        for j in 0..10usize {
            indices.push(manager.add_instance(i * 100 + j));
        }
    }
    assert_eq!(indices, (0..100).collect::<Vec<i32>>());
    assert_eq!(manager.instance_count(), 100);
    assert_eq!(manager.get_instance(57), Ok(507));
}
