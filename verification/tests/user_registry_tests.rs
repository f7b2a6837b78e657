use aetheris_core::users::{
    add_user_system_steps, delete_user_system_steps, is_valid_username,
    update_password_system_steps, AccountStep, Role, User, UserError, UserManager,
};

fn account(name: &str, hash: &str, role: Role, quota: Option<u64>) -> User {
    User { username: name.to_string(), password_hash: hash.to_string(), role, quota_gb: quota }
}

#[test]
fn added_user_verifies_and_keeps_role_and_quota() {
    let mut m = UserManager::new();
    m.add_user("alice", "s3cret", Role::Admin, Some(50)).unwrap();
    let u = m.verify("alice", "s3cret").unwrap();
    assert_eq!(u.username, "alice");
    assert_eq!(u.role, Role::Admin);
    assert_eq!(u.quota_gb, Some(50));
    // The stored value is a bcrypt hash, never the password itself.
    let stored = m.get_user("alice").unwrap();
    assert_ne!(stored.password_hash, "s3cret");
    assert!(stored.password_hash.starts_with("$2b$12$"));
    assert!(m.verify("alice", "wrong").is_none());
}

#[test]
fn add_refuses_taken_name_and_keeps_registry() {
    let mut m = UserManager::new();
    m.add_user("bob", "one", Role::Observer, None).unwrap();
    assert_eq!(m.add_user("bob", "two", Role::Admin, Some(1)), Err(UserError::AlreadyExists));
    assert_eq!(m.list_users().len(), 1);
    assert_eq!(m.get_user("bob").unwrap().role, Role::Observer);
    assert!(m.verify("bob", "one").is_some());
}

#[test]
fn add_refuses_invalid_names() {
    let mut m = UserManager::new();
    assert_eq!(m.add_user("a.b", "p", Role::Observer, None), Err(UserError::InvalidUsername));
    assert_eq!(m.add_user("é", "p", Role::Observer, None), Err(UserError::InvalidUsername));
    assert!(m.list_users().is_empty());
    assert!(is_valid_username("Az09_-"));
    assert!(is_valid_username(""));
    assert!(!is_valid_username("tab\t"));
}

#[test]
fn taken_name_is_reported_before_invalid_characters() {
    let entries = vec![("bad name".to_string(), account("bad name", "x", Role::Observer, None))];
    let m = UserManager::from_entries(entries);
    assert_eq!(m.check_new_user("bad name"), Err(UserError::AlreadyExists));
    assert_eq!(m.check_new_user("bad name2"), Err(UserError::InvalidUsername));
    assert_eq!(m.check_new_user("good"), Ok(()));
}

#[test]
fn delete_errors_and_effects() {
    let mut m = UserManager::new();
    assert_eq!(m.delete_user("ghost"), Err(UserError::NotFound));
    m.add_user_with_hash("root1", Ok("h1".to_string()), Role::Admin, None).unwrap();
    m.add_user_with_hash("viewer", Ok("h2".to_string()), Role::Observer, None).unwrap();
    assert_eq!(m.check_deletable("root1"), Err(UserError::LastAdmin));
    assert_eq!(m.delete_user("root1"), Err(UserError::LastAdmin));
    assert_eq!(m.delete_user("viewer"), Ok(()));
    assert!(m.get_user("viewer").is_none());
    assert!(m.get_user("root1").is_some());
    // With a second administrator the first can go, and one admin always remains.
    m.add_user_with_hash("root2", Ok("h3".to_string()), Role::Admin, None).unwrap();
    assert_eq!(m.delete_user("root1"), Ok(()));
    let admins = m.list_users().iter().filter(|u| u.role == Role::Admin).count();
    assert_eq!(admins, 1);
}

#[test]
fn hash_failure_leaves_registry_unchanged() {
    let mut m = UserManager::new();
    assert_eq!(
        m.add_user_with_hash("carol", Err("no randomness".to_string()), Role::Observer, None),
        Err(UserError::HashFailed("no randomness".to_string()))
    );
    assert!(m.get_user("carol").is_none());
    m.add_user_with_hash("carol", Ok("h".to_string()), Role::Observer, None).unwrap();
    assert_eq!(
        m.set_password_hash("carol", Err("entropy".to_string())),
        Err(UserError::HashFailed("entropy".to_string()))
    );
    assert_eq!(m.get_user("carol").unwrap().password_hash, "h");
    assert_eq!(m.set_password_hash("dave", Ok("x".to_string())), Err(UserError::NotFound));
    assert_eq!(m.set_password_hash("carol", Ok("h2".to_string())), Ok(()));
    assert_eq!(m.get_user("carol").unwrap().password_hash, "h2");
}

#[test]
fn update_password_of_unknown_user_fails() {
    let mut m = UserManager::new();
    assert_eq!(m.update_password("nobody", "x"), Err(UserError::NotFound));
}

#[test]
fn verification_outcome_is_what_decides() {
    let mut m = UserManager::new();
    m.add_user_with_hash("erin", Ok("not-a-bcrypt-hash".to_string()), Role::Observer, None).unwrap();
    // A malformed stored hash never verifies.
    assert!(m.verify("erin", "anything").is_none());
    assert!(m.user_if_verified("erin", Some(true)).is_some());
    assert!(m.user_if_verified("erin", Some(false)).is_none());
    assert!(m.user_if_verified("erin", None).is_none());
    assert!(m.user_if_verified("frank", Some(true)).is_none());
}

#[test]
fn default_admin_created_only_when_empty() {
    let mut m = UserManager::new();
    assert_eq!(m.ensure_default_admin(), Ok(true));
    let admin = m.verify("admin", "admin").unwrap();
    assert_eq!(admin.role, Role::Admin);
    assert_eq!(admin.quota_gb, None);
    assert_eq!(m.ensure_default_admin(), Ok(false));
    assert_eq!(m.list_users().len(), 1);
    let mut n = UserManager::new();
    assert_eq!(
        n.install_default_admin(Err("io".to_string())),
        Err(UserError::HashFailed("io".to_string()))
    );
    assert!(n.list_users().is_empty());
}

#[test]
fn entries_round_trip_and_later_entries_win() {
    let entries = vec![
        ("x".to_string(), account("x", "h1", Role::Observer, None)),
        ("y".to_string(), account("y", "h2", Role::Admin, Some(3))),
        ("x".to_string(), account("x", "h3", Role::Admin, Some(7))),
    ];
    let m = UserManager::from_entries(entries);
    assert_eq!(m.list_users().len(), 2);
    assert_eq!(m.get_user("x").unwrap().password_hash, "h3");
    assert_eq!(m.get_user("x").unwrap().quota_gb, Some(7));
    let exported = m.export_entries();
    assert_eq!(exported.len(), 2);
    let again = UserManager::from_entries(exported);
    assert_eq!(again.get_user("y").unwrap().quota_gb, Some(3));
}

#[test]
fn error_messages() {
    assert_eq!(UserError::AlreadyExists.message(), "User already exists");
    assert_eq!(
        UserError::InvalidUsername.message(),
        "Invalid username: allowed characters are ASCII alphanumeric, underscore, and hyphen"
    );
    assert_eq!(UserError::NotFound.message(), "User not found");
    assert_eq!(UserError::LastAdmin.message(), "Cannot delete the last admin user");
    assert_eq!(UserError::HashFailed("bad cost".to_string()).message(), "bad cost");
}

#[test]
fn system_steps_follow_privileges() {
    assert_eq!(add_user_system_steps(false, Some(5)), vec![]);
    assert_eq!(add_user_system_steps(true, None), vec![AccountStep::CreateSystemUser]);
    assert_eq!(
        add_user_system_steps(true, Some(5)),
        vec![AccountStep::CreateSystemUser, AccountStep::SetQuota(5)]
    );
    assert_eq!(delete_user_system_steps(true), vec![AccountStep::DeleteSystemUser]);
    assert!(delete_user_system_steps(false).is_empty());
    assert_eq!(update_password_system_steps(true), vec![AccountStep::SetSystemPassword]);
    assert!(update_password_system_steps(false).is_empty());
}
