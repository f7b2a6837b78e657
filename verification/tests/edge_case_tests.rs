use aetheris_core::hardware::{HardwareInfo, HardwareProfile};
use aetheris_core::runtime::{DockerRuntime, MockRuntime, SystemRuntime};
use aetheris_core::users::{Role, UserManager};

#[test]
fn test_hardware_profile_evaluation() {
    assert_eq!(HardwareInfo::evaluate_profile(2, 4, 2), HardwareProfile::Low); // Low RAM
    assert_eq!(HardwareInfo::evaluate_profile(8, 1, 2), HardwareProfile::Low); // Low Cores
    assert_eq!(HardwareInfo::evaluate_profile(32, 8, 0), HardwareProfile::High); // High RAM ignores Swap
    assert_eq!(HardwareInfo::evaluate_profile(8, 4, 0), HardwareProfile::Standard); // 8GB RAM No Swap -> Standard
    assert_eq!(HardwareInfo::evaluate_profile(6, 4, 0), HardwareProfile::Low); // 6GB RAM No Swap -> Low
    assert_eq!(HardwareInfo::evaluate_profile(6, 4, 2), HardwareProfile::Standard); // 6GB RAM + Swap -> Standard
}

#[test]
fn edge_case_tests_test_unicode_username_rejection() {
    let mut manager = UserManager::default();

    // Should reject unicode characters
    assert!(manager.add_user("user™", "password", Role::Observer, None).is_err());
    assert!(manager.add_user("用户", "password", Role::Observer, None).is_err());
    assert!(manager.add_user("user🎉", "password", Role::Observer, None).is_err());
}

#[test]
fn edge_case_tests_test_special_chars_in_username() {
    let mut manager = UserManager::default();

    // Should accept valid special chars
    assert!(manager.add_user("user_name", "password", Role::Observer, None).is_ok());
    assert!(manager.add_user("user-name", "password", Role::Observer, None).is_ok());

    // Should reject invalid special chars
    assert!(manager.add_user("user name", "password", Role::Observer, None).is_err());
    assert!(manager.add_user("user@name", "password", Role::Observer, None).is_err());
    assert!(manager.add_user("user/name", "password", Role::Observer, None).is_err());
}

#[test]
fn edge_case_tests_test_extremely_long_password() {
    let mut manager = UserManager::default();

    // Test 1KB password
    let long_password = "a".repeat(1024);
    assert!(manager.add_user("testuser", &long_password, Role::Observer, None).is_ok());

    // Verify it works
    assert!(manager.verify("testuser", &long_password).is_some());

    // Test 10KB password (may fail due to bcrypt limits)
    let very_long_password = "b".repeat(10240);
    let result = manager.add_user("testuser2", &very_long_password, Role::Observer, None);
    // Either succeeds or fails gracefully
    if result.is_ok() {
        assert!(manager.verify("testuser2", &very_long_password).is_some());
    }
}

#[test]
fn edge_case_tests_test_config_missing_file() {
    // Attempting to load non-existent config should return default
    // (Verified in config.rs implementation)
}

#[test]
fn edge_case_tests_test_hardware_profile_boundary_conditions() {
    // Test exact boundary values
    assert_eq!(
        HardwareInfo::evaluate_profile(4, 3, 2),
        HardwareProfile::Standard,
        "4GB RAM should be Standard"
    );

    assert_eq!(
        HardwareInfo::evaluate_profile(3, 3, 2),
        HardwareProfile::Low,
        "3GB RAM should be Low"
    );

    assert_eq!(
        HardwareInfo::evaluate_profile(16, 8, 0),
        HardwareProfile::Standard,
        "Exactly 16GB should be Standard"
    );

    assert_eq!(
        HardwareInfo::evaluate_profile(17, 8, 0),
        HardwareProfile::High,
        "17GB should be High"
    );
}

#[test]
fn edge_case_tests_test_hardware_profile_swap_edge_cases() {
    // No swap, low RAM -> Low
    assert_eq!(HardwareInfo::evaluate_profile(6, 4, 0), HardwareProfile::Low);

    // With swap, low RAM -> Standard
    assert_eq!(HardwareInfo::evaluate_profile(6, 4, 2), HardwareProfile::Standard);

    // High RAM ignores swap
    assert_eq!(HardwareInfo::evaluate_profile(32, 8, 0), HardwareProfile::High);
}

#[test]
fn edge_case_tests_test_quota_boundary_values() {
    // Test 0 quota (unlimited)
    // Test MAX quota
    // Test negative quota (should fail)
}

#[test]
fn edge_case_tests_test_docker_pull_network_failure() {
    // Simulate network failure during docker pull
    let runtime = MockRuntime {
        docker_fail: true,
        ..Default::default()
    };

    assert!(runtime.install().is_err());
}

#[test]
fn edge_case_tests_test_partial_service_deployment() {
    // Some services succeed, some fail
    let runtime = MockRuntime {
        docker_fail: true,
        ..Default::default()
    };

    assert!(runtime.run_compose_up().is_err());
}

#[test]
fn edge_case_tests_test_user_deletion_protections() {
    let mut manager = UserManager::default();
    manager.add_user("admin", "password", Role::Admin, None).unwrap();

    // Cannot delete last admin
    assert!(manager.delete_user("admin").is_err());

    // Add another admin
    manager.add_user("admin2", "password", Role::Admin, None).unwrap();

    // Now can delete first admin
    assert!(manager.delete_user("admin").is_ok());

    // But still can't delete last one
    assert!(manager.delete_user("admin2").is_err());
}

#[test]
fn edge_case_tests_test_user_role_changes() {
    // Test changing user roles
    // (Not currently implemented, but should be)
}

#[test]
fn edge_case_tests_test_quota_on_unsupported_filesystem() {
    let runtime = MockRuntime::default();
    // MockRuntime always returns Ok for set_system_quota in our current implementation,
    // which simulates "graceful degradation" or "unsupported but ignored".
    assert!(runtime.set_system_quota("testuser", 10).is_ok());
}

#[test]
fn test_user_password_update() {
    let mut manager = UserManager::default();
    manager.add_user("testuser", "initial_pass", Role::Observer, None).unwrap();

    assert!(manager.verify("testuser", "initial_pass").is_some());

    manager.update_password("testuser", "new_pass").unwrap();

    assert!(manager.verify("testuser", "initial_pass").is_none());
    assert!(manager.verify("testuser", "new_pass").is_some());
}

#[test]
fn test_user_listing() {
    let mut manager = UserManager::default();
    manager.add_user("user1", "pass", Role::Observer, None).unwrap();
    manager.add_user("user2", "pass", Role::Admin, Some(10)).unwrap();

    let users = manager.list_users();
    assert_eq!(users.len(), 2);

    let u1 = users.iter().find(|u| u.username == "user1").unwrap();
    assert_eq!(u1.role, Role::Observer);
    assert!(u1.quota_gb.is_none());

    let u2 = users.iter().find(|u| u.username == "user2").unwrap();
    assert_eq!(u2.role, Role::Admin);
    assert_eq!(u2.quota_gb, Some(10));
}

#[test]
fn test_user_verify_async() {
    let mut manager = UserManager::default();
    manager.add_user("testuser", "correct_pass", Role::Observer, None).unwrap();

    // Verify correct password returns Some(User)
    let user = manager.verify("testuser", "correct_pass");
    assert!(user.is_some());
    assert_eq!(user.unwrap().username, "testuser");

    // Verify incorrect password returns None
    let bad_user = manager.verify("testuser", "wrong_pass");
    assert!(bad_user.is_none());

    // Verify non-existent user returns None
    let no_user = manager.verify("missinguser", "correct_pass");
    assert!(no_user.is_none());
}
