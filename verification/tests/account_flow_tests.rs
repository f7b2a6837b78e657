use aetheris_core::accounts::{AccountCommand, AccountFlow, AccountStage};
use aetheris_core::install::StepOutcome;
use aetheris_core::users::{AccountStep, Role, UserError, UserManager};

const OK: StepOutcome = StepOutcome::Completed(true);
const NOT_ROOT: StepOutcome = StepOutcome::Completed(false);

/// Advances the flow and returns the stage it reached.
fn step(flow: &mut AccountFlow, registry: &mut UserManager, outcome: StepOutcome) -> AccountStage {
    flow.advance(registry, outcome);
    flow.stage().clone()
}

#[test]
fn add_as_root_creates_account_then_quota_then_registers() {
    let mut m = UserManager::new();
    let cmd = AccountCommand::Add { role: Role::Observer, quota_gb: Some(10) };
    let mut f = AccountFlow::new(cmd, "bob", "pw");
    assert_eq!(f.stage(), &AccountStage::CheckName);
    assert_eq!(step(&mut f, &mut m, OK), AccountStage::CheckRoot);
    assert_eq!(step(&mut f, &mut m, OK), AccountStage::Host(AccountStep::CreateSystemUser));
    assert!(m.get_user("bob").is_none());
    assert_eq!(step(&mut f, &mut m, OK), AccountStage::Host(AccountStep::SetQuota(10)));
    assert!(m.get_user("bob").is_none());
    assert_eq!(step(&mut f, &mut m, OK), AccountStage::UpdateRegistry);
    assert_eq!(step(&mut f, &mut m, OK), AccountStage::Save);
    let u = m.verify("bob", "pw").unwrap();
    assert_eq!(u.role, Role::Observer);
    assert_eq!(u.quota_gb, Some(10));
    assert_eq!(step(&mut f, &mut m, OK), AccountStage::Done);
    assert!(f.is_finished());
}

#[test]
fn add_without_quota_goes_from_account_to_registry() {
    let mut m = UserManager::new();
    let mut f = AccountFlow::new(AccountCommand::Add { role: Role::Admin, quota_gb: None }, "ann", "pw");
    step(&mut f, &mut m, OK);
    assert_eq!(step(&mut f, &mut m, OK), AccountStage::Host(AccountStep::CreateSystemUser));
    assert_eq!(step(&mut f, &mut m, OK), AccountStage::UpdateRegistry);
}

#[test]
fn failed_host_step_leaves_registry_unchanged() {
    let mut m = UserManager::new();
    let cmd = AccountCommand::Add { role: Role::Observer, quota_gb: Some(10) };
    let mut f = AccountFlow::new(cmd, "bob", "pw");
    step(&mut f, &mut m, OK);
    step(&mut f, &mut m, OK);
    step(&mut f, &mut m, OK);
    assert_eq!(step(&mut f, &mut m, StepOutcome::Failed), AccountStage::Failed);
    assert!(f.is_finished());
    assert!(m.get_user("bob").is_none());
    // A finished command stays where it ended.
    assert_eq!(step(&mut f, &mut m, OK), AccountStage::Failed);
    assert!(m.list_users().is_empty());
}

#[test]
fn not_root_skips_host_steps() {
    let mut m = UserManager::new();
    let mut f = AccountFlow::new(AccountCommand::Add { role: Role::Observer, quota_gb: Some(3) }, "cy", "pw");
    step(&mut f, &mut m, OK);
    assert_eq!(step(&mut f, &mut m, NOT_ROOT), AccountStage::UpdateRegistry);
    assert_eq!(step(&mut f, &mut m, OK), AccountStage::Save);
    assert!(m.get_user("cy").is_some());
}

#[test]
fn add_refuses_taken_and_invalid_names() {
    let mut m = UserManager::new();
    m.add_user_with_hash("dan", Ok("h".to_string()), Role::Admin, None).unwrap();
    let cmd = AccountCommand::Add { role: Role::Observer, quota_gb: None };
    let mut f = AccountFlow::new(cmd, "dan", "pw");
    assert_eq!(step(&mut f, &mut m, OK), AccountStage::Refused(UserError::AlreadyExists));
    let mut g = AccountFlow::new(cmd, "d a n", "pw");
    assert_eq!(step(&mut g, &mut m, OK), AccountStage::Refused(UserError::InvalidUsername));
    assert!(g.is_finished());
}

#[test]
fn delete_as_root_removes_system_account_first() {
    let mut m = UserManager::new();
    m.add_user_with_hash("a1", Ok("h".to_string()), Role::Admin, None).unwrap();
    m.add_user_with_hash("a2", Ok("h".to_string()), Role::Admin, None).unwrap();
    let mut f = AccountFlow::new(AccountCommand::Delete, "a2", "");
    assert_eq!(step(&mut f, &mut m, OK), AccountStage::CheckRoot);
    assert_eq!(step(&mut f, &mut m, OK), AccountStage::Host(AccountStep::DeleteSystemUser));
    assert!(m.get_user("a2").is_some());
    assert_eq!(step(&mut f, &mut m, OK), AccountStage::UpdateRegistry);
    assert_eq!(step(&mut f, &mut m, OK), AccountStage::Save);
    assert!(m.get_user("a2").is_none());
    assert_eq!(step(&mut f, &mut m, StepOutcome::Failed), AccountStage::Failed);
}

#[test]
fn delete_refuses_unknown_and_last_admin() {
    let mut m = UserManager::new();
    m.add_user_with_hash("boss", Ok("h".to_string()), Role::Admin, None).unwrap();
    let mut f = AccountFlow::new(AccountCommand::Delete, "boss", "");
    assert_eq!(step(&mut f, &mut m, OK), AccountStage::Refused(UserError::LastAdmin));
    let mut g = AccountFlow::new(AccountCommand::Delete, "ghost", "");
    assert_eq!(step(&mut g, &mut m, OK), AccountStage::Refused(UserError::NotFound));
    assert!(m.get_user("boss").is_some());
}

#[test]
fn failed_system_deletion_keeps_account() {
    let mut m = UserManager::new();
    m.add_user_with_hash("a1", Ok("h".to_string()), Role::Admin, None).unwrap();
    m.add_user_with_hash("v", Ok("h".to_string()), Role::Observer, None).unwrap();
    let mut f = AccountFlow::new(AccountCommand::Delete, "v", "");
    step(&mut f, &mut m, OK);
    step(&mut f, &mut m, OK);
    assert_eq!(step(&mut f, &mut m, StepOutcome::Failed), AccountStage::Failed);
    assert!(m.get_user("v").is_some());
}

#[test]
fn change_password_hashes_then_sets_system_password_then_updates() {
    let mut m = UserManager::new();
    m.add_user("eve", "old", Role::Observer, Some(4)).unwrap();
    let mut f = AccountFlow::new(AccountCommand::ChangePassword, "eve", "new");
    assert_eq!(step(&mut f, &mut m, OK), AccountStage::CheckRoot);
    assert_eq!(step(&mut f, &mut m, OK), AccountStage::Host(AccountStep::SetSystemPassword));
    assert!(m.verify("eve", "old").is_some());
    assert_eq!(step(&mut f, &mut m, OK), AccountStage::UpdateRegistry);
    assert_eq!(step(&mut f, &mut m, OK), AccountStage::Save);
    assert!(m.verify("eve", "old").is_none());
    let u = m.verify("eve", "new").unwrap();
    assert_eq!(u.quota_gb, Some(4));
}

#[test]
fn change_password_failure_keeps_old_password() {
    let mut m = UserManager::new();
    m.add_user("eve", "old", Role::Observer, None).unwrap();
    let mut f = AccountFlow::new(AccountCommand::ChangePassword, "eve", "new");
    step(&mut f, &mut m, OK);
    step(&mut f, &mut m, OK);
    assert_eq!(step(&mut f, &mut m, StepOutcome::Failed), AccountStage::Failed);
    assert!(m.verify("eve", "old").is_some());
    let mut g = AccountFlow::new(AccountCommand::ChangePassword, "nobody", "x");
    assert_eq!(step(&mut g, &mut m, OK), AccountStage::Refused(UserError::NotFound));
}
