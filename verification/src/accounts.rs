use vstd::prelude::*;
use crate::install::StepOutcome;
use crate::users::{
    admins, bcrypt_verify_outcome, new_account, valid_username, with_password_hash, AccountStep,
    Role, UserError, UserManager, UserView,
};

verus! {

/// An account command on the registry, with what it needs besides the name and
/// password.
#[derive(Debug, Clone, Copy, PartialEq, Eq, Structural)]
pub enum AccountCommand {
    /// Register a new account with this role and optional disk quota (GB).
    Add { role: Role, quota_gb: Option<u64> },
    /// Remove an account.
    Delete,
    /// Give an account a new password.
    ChangePassword,
}

/// Where an account command stands. The library performs `CheckName` and
/// `UpdateRegistry`; the caller performs the host query `CheckRoot`, the host
/// steps and `Save`, and reports their outcome.
#[derive(Debug, Clone, PartialEq, Eq)]
pub enum AccountStage {
    /// Check the name (for a password change: that the account exists, then hash
    /// the new password).
    CheckName,
    /// Query the host: is the process running as root?
    CheckRoot,
    /// Perform this host account operation.
    Host(AccountStep),
    /// Change the registry.
    UpdateRegistry,
    /// Persist the registry.
    Save,
    /// The command completed.
    Done,
    /// A host step or saving failed; the command ends with that failure.
    Failed,
    /// The registry refused the command.
    Refused(UserError),
}

/// The refusal of a new name, if any: a taken name, then a forbidden character.
pub open spec fn add_check(m: Map<Seq<char>, UserView>, username: Seq<char>) -> Result<(), UserError> {
    if m.dom().contains(username) {
        Err(UserError::AlreadyExists)
    } else if !valid_username(username) {
        Err(UserError::InvalidUsername)
    } else {
        Ok(())
    }
}

/// The refusal of a deletion, if any: an unknown name, then the last administrator.
pub open spec fn delete_check(m: Map<Seq<char>, UserView>, username: Seq<char>) -> Result<(), UserError> {
    if !m.dom().contains(username) {
        Err(UserError::NotFound)
    } else if m[username].role == Role::Admin && admins(m).len() <= 1 {
        Err(UserError::LastAdmin)
    } else {
        Ok(())
    }
}

/// The first host operation of a command run as root.
pub open spec fn first_host_step(command: AccountCommand) -> AccountStep {
    match command {
        AccountCommand::Add { .. } => AccountStep::CreateSystemUser,
        AccountCommand::Delete => AccountStep::DeleteSystemUser,
        AccountCommand::ChangePassword => AccountStep::SetSystemPassword,
    }
}

/// The stage after a caller-performed stage, given its outcome: not root skips
/// the host steps; a failed host step or save ends the command; after creating
/// the system account comes its quota when one is asked for; after the host
/// steps comes the registry change, then saving.
pub open spec fn host_stage_next(command: AccountCommand, stage: AccountStage, outcome: StepOutcome) -> AccountStage {
    match stage {
        AccountStage::CheckRoot => if outcome == StepOutcome::Completed(true) {
            AccountStage::Host(first_host_step(command))
        } else {
            AccountStage::UpdateRegistry
        },
        AccountStage::Host(step) => if outcome == StepOutcome::Failed {
            AccountStage::Failed
        } else {
            match (command, step) {
                (AccountCommand::Add { quota_gb: Some(gb), .. }, AccountStep::CreateSystemUser) =>
                    AccountStage::Host(AccountStep::SetQuota(gb)),
                _ => AccountStage::UpdateRegistry,
            }
        },
        AccountStage::Save => if outcome == StepOutcome::Failed {
            AccountStage::Failed
        } else {
            AccountStage::Done
        },
        _ => stage,
    }
}

/// Mathematical value of an account command in progress.
pub struct AccountFlowView {
    pub command: AccountCommand,
    pub username: Seq<char>,
    pub password: Seq<char>,
    pub stage: AccountStage,
}

/// An account command in progress: registering, deleting or re-passwording
/// `username`, with the host account operations in between the name check and
/// the registry change.
pub struct AccountFlow {
    command: AccountCommand,
    username: String,
    password: String,
    stage: AccountStage,
    prepared: Option<String>,
}

impl View for AccountFlow {
    type V = AccountFlowView;

    closed spec fn view(&self) -> AccountFlowView {
        AccountFlowView {
            command: self.command,
            username: self.username@,
            password: self.password@,
            stage: self.stage,
        }
    }
}

impl AccountFlow {
    /// A password change past its name check carries a hash of the new password.
    #[verifier::type_invariant]
    closed spec fn hash_prepared(&self) -> bool {
        self.command == AccountCommand::ChangePassword && (self.stage == AccountStage::CheckRoot
            || self.stage is Host || self.stage == AccountStage::UpdateRegistry) ==> (self.prepared matches Some(h)
            && bcrypt_verify_outcome(self.password@, h@) == Some(true))
    }

    /// A command on `username` (with `password` for a new or changed password),
    /// starting at the name check.
    pub fn new(command: AccountCommand, username: &str, password: &str) -> (f: Self)
        ensures
            f@.command == command,
            f@.username == username@,
            f@.password == password@,
            f@.stage == AccountStage::CheckName,
    {
        AccountFlow {
            command,
            username: username.to_owned(),
            password: password.to_owned(),
            stage: AccountStage::CheckName,
            prepared: None,
        }
    }

    /// The current stage.
    pub fn stage(&self) -> (s: &AccountStage)
        ensures
            *s == self@.stage,
    {
        &self.stage
    }

    /// Whether the command has ended (done, failed or refused).
    pub fn is_finished(&self) -> (b: bool)
        ensures
            b == (self@.stage == AccountStage::Done || self@.stage == AccountStage::Failed
                || self@.stage is Refused),
    {
        match self.stage {
            AccountStage::Done | AccountStage::Failed | AccountStage::Refused(_) => true,
            _ => false,
        }
    }

    /// Moves the command one stage on. At `CheckName` and `UpdateRegistry` the
    /// library does the work on `registry` (the outcome is ignored); at every
    /// other stage the caller performed the work and reports `outcome`, and the
    /// registry is left unchanged. The registry changes only at `UpdateRegistry`,
    /// which comes after the name check and after every host step succeeded.
    pub fn advance(&mut self, registry: &mut UserManager, outcome: StepOutcome)
        ensures
            final(self)@.command == old(self)@.command,
            final(self)@.username == old(self)@.username,
            final(self)@.password == old(self)@.password,
            old(self)@.stage != AccountStage::UpdateRegistry ==> final(registry)@ == old(registry)@,
            old(self)@.stage != AccountStage::CheckName && old(self)@.stage != AccountStage::UpdateRegistry
                ==> final(self)@.stage == host_stage_next(old(self)@.command, old(self)@.stage, outcome),
            // the name check
            old(self)@.stage == AccountStage::CheckName && old(self)@.command is Add ==> final(self)@.stage == match add_check(old(registry)@, old(self)@.username) {
                Ok(_) => AccountStage::CheckRoot,
                Err(e) => AccountStage::Refused(e),
            },
            old(self)@.stage == AccountStage::CheckName && old(self)@.command == AccountCommand::Delete ==> final(self)@.stage == match delete_check(old(registry)@, old(self)@.username) {
                Ok(_) => AccountStage::CheckRoot,
                Err(e) => AccountStage::Refused(e),
            },
            old(self)@.stage == AccountStage::CheckName && old(self)@.command == AccountCommand::ChangePassword ==> {
                &&& !old(registry)@.dom().contains(old(self)@.username) ==> final(self)@.stage == AccountStage::Refused(UserError::NotFound)
                &&& old(registry)@.dom().contains(old(self)@.username) ==> (final(self)@.stage == AccountStage::CheckRoot
                    || final(self)@.stage matches AccountStage::Refused(UserError::HashFailed(_)))
            },
            // the registry change
            old(self)@.stage == AccountStage::UpdateRegistry ==> {
                &&& final(self)@.stage is Refused ==> final(registry)@ == old(registry)@
                &&& final(self)@.stage == AccountStage::Save || final(self)@.stage is Refused
            },
            old(self)@.stage == AccountStage::UpdateRegistry && old(self)@.command is Add ==> {
                let u = old(self)@.username;
                let m = old(registry)@;
                &&& add_check(m, u) matches Err(e) ==> final(self)@.stage == AccountStage::Refused(e)
                &&& add_check(m, u) is Ok ==> (final(self)@.stage == AccountStage::Save
                    || final(self)@.stage matches AccountStage::Refused(UserError::HashFailed(_)))
                &&& final(self)@.stage == AccountStage::Save ==> exists|h: Seq<char>|
                    bcrypt_verify_outcome(old(self)@.password, h) == Some(true)
                    && final(registry)@ == #[trigger] m.insert(u, new_account(
                        u, h, old(self)@.command->Add_role, old(self)@.command->Add_quota_gb))
            },
            old(self)@.stage == AccountStage::UpdateRegistry && old(self)@.command == AccountCommand::Delete ==> {
                let u = old(self)@.username;
                let m = old(registry)@;
                &&& delete_check(m, u) matches Err(e) ==> final(self)@.stage == AccountStage::Refused(e)
                &&& delete_check(m, u) is Ok ==> final(self)@.stage == AccountStage::Save && final(registry)@ == m.remove(u)
            },
            old(self)@.stage == AccountStage::UpdateRegistry && old(self)@.command == AccountCommand::ChangePassword ==> {
                let u = old(self)@.username;
                let m = old(registry)@;
                &&& !m.dom().contains(u) ==> final(self)@.stage == AccountStage::Refused(UserError::NotFound)
                &&& m.dom().contains(u) ==> final(self)@.stage == AccountStage::Save && exists|h: Seq<char>|
                    bcrypt_verify_outcome(old(self)@.password, h) == Some(true)
                    && final(registry)@ == #[trigger] m.insert(u, with_password_hash(m[u], h))
            },
    {
        proof {
            use_type_invariant(&*self);
        }
        match self.stage {
            AccountStage::CheckName => {
                match self.command {
                    AccountCommand::Add { .. } => {
                        match registry.check_new_user(self.username.as_str()) {
                            Ok(()) => self.stage = AccountStage::CheckRoot,
                            Err(e) => self.stage = AccountStage::Refused(e),
                        }
                    },
                    AccountCommand::Delete => {
                        match registry.check_deletable(self.username.as_str()) {
                            Ok(()) => self.stage = AccountStage::CheckRoot,
                            Err(e) => self.stage = AccountStage::Refused(e),
                        }
                    },
                    AccountCommand::ChangePassword => {
                        match registry.prepare_password_hash(self.username.as_str(), self.password.as_str()) {
                            Ok(h) => {
                                self.prepared = Some(h);
                                self.stage = AccountStage::CheckRoot;
                            },
                            Err(e) => self.stage = AccountStage::Refused(e),
                        }
                    },
                }
            },
            AccountStage::UpdateRegistry => {
                let ghost m = registry@;
                let ghost u = self.username@;
                let r = match self.command {
                    AccountCommand::Add { role, quota_gb } => {
                        let r = registry.add_user(self.username.as_str(), self.password.as_str(), role, quota_gb);
                        proof {
                            if r is Ok {
                                let h = choose|h: Seq<char>|
                                    bcrypt_verify_outcome(self.password@, h) == Some(true)
                                    && #[trigger] registry@ == m.insert(u, new_account(u, h, role, quota_gb));
                                assert(registry@ == m.insert(u, new_account(u, h, role, quota_gb)));
                            }
                        }
                        r
                    },
                    AccountCommand::Delete => registry.delete_user(self.username.as_str()),
                    AccountCommand::ChangePassword => {
                        let h = match &self.prepared {
                            Some(h) => h.clone(),
                            None => String::new(),
                        };
                        let r = registry.set_password_hash(self.username.as_str(), Ok(h));
                        proof {
                            if r is Ok {
                                assert(bcrypt_verify_outcome(self.password@, h@) == Some(true));
                                assert(registry@ == m.insert(u, with_password_hash(m[u], h@)));
                            }
                        }
                        r
                    },
                };
                match r {
                    Ok(()) => self.stage = AccountStage::Save,
                    Err(e) => self.stage = AccountStage::Refused(e),
                }
            },
            AccountStage::CheckRoot => {
                if outcome == StepOutcome::Completed(true) {
                    self.stage = AccountStage::Host(match self.command {
                        AccountCommand::Add { .. } => AccountStep::CreateSystemUser,
                        AccountCommand::Delete => AccountStep::DeleteSystemUser,
                        AccountCommand::ChangePassword => AccountStep::SetSystemPassword,
                    });
                } else {
                    self.stage = AccountStage::UpdateRegistry;
                }
            },
            AccountStage::Host(step) => {
                if outcome == StepOutcome::Failed {
                    self.stage = AccountStage::Failed;
                } else {
                    match (self.command, step) {
                        (AccountCommand::Add { quota_gb: Some(gb), .. }, AccountStep::CreateSystemUser) => {
                            self.stage = AccountStage::Host(AccountStep::SetQuota(gb));
                        },
                        _ => self.stage = AccountStage::UpdateRegistry,
                    }
                }
            },
            AccountStage::Save => {
                if outcome == StepOutcome::Failed {
                    self.stage = AccountStage::Failed;
                } else {
                    self.stage = AccountStage::Done;
                }
            },
            _ => {},
        }
    }
}

/// A failed host step ends the command: after it the registry is never changed.
pub proof fn law_host_failure_ends_command(command: AccountCommand, step: AccountStep)
    ensures
        host_stage_next(command, AccountStage::Host(step), StepOutcome::Failed) == AccountStage::Failed,
        host_stage_next(command, AccountStage::Failed, StepOutcome::Completed(true)) == AccountStage::Failed,
{
}

/// The registry change comes only after the host steps: `UpdateRegistry` is
/// reached from the root query answered no (or unanswerable), or from a host step
/// that completed, and never from a host step that failed.
pub proof fn law_registry_change_after_host_steps(
    command: AccountCommand,
    stage: AccountStage,
    outcome: StepOutcome,
)
    requires
        stage != AccountStage::UpdateRegistry,
        host_stage_next(command, stage, outcome) == AccountStage::UpdateRegistry,
    ensures
        (stage == AccountStage::CheckRoot && outcome != StepOutcome::Completed(true))
            || (stage is Host && outcome != StepOutcome::Failed),
{
}

/// Host steps run only as root and in order: a host stage is reached from the
/// root query answered yes (the command's first host step), or, for a new account
/// with a quota, from creating the system account.
pub proof fn law_host_steps_only_as_root(command: AccountCommand, stage: AccountStage, outcome: StepOutcome)
    requires
        !(stage is Host),
        host_stage_next(command, stage, outcome) is Host,
    ensures
        stage == AccountStage::CheckRoot,
        outcome == StepOutcome::Completed(true),
        host_stage_next(command, stage, outcome) == AccountStage::Host(first_host_step(command)),
{
}

/// The host steps of each command as root, in order: adding creates the system
/// account, then sets its quota when one is asked for; deleting removes the system
/// account; changing a password sets the system password. After the last one comes
/// the registry change; after saving, the command is done, or failed when saving
/// failed.
pub proof fn law_host_steps_of_commands(role: Role, gb: u64, answer: bool)
    ensures
        host_stage_next(AccountCommand::Add { role, quota_gb: Some(gb) }, AccountStage::CheckRoot, StepOutcome::Completed(true))
            == AccountStage::Host(AccountStep::CreateSystemUser),
        host_stage_next(AccountCommand::Add { role, quota_gb: Some(gb) }, AccountStage::Host(AccountStep::CreateSystemUser),
            StepOutcome::Completed(answer)) == AccountStage::Host(AccountStep::SetQuota(gb)),
        host_stage_next(AccountCommand::Add { role, quota_gb: Some(gb) }, AccountStage::Host(AccountStep::SetQuota(gb)),
            StepOutcome::Completed(answer)) == AccountStage::UpdateRegistry,
        host_stage_next(AccountCommand::Add { role, quota_gb: None }, AccountStage::CheckRoot, StepOutcome::Completed(true))
            == AccountStage::Host(AccountStep::CreateSystemUser),
        host_stage_next(AccountCommand::Add { role, quota_gb: None }, AccountStage::Host(AccountStep::CreateSystemUser),
            StepOutcome::Completed(answer)) == AccountStage::UpdateRegistry,
        host_stage_next(AccountCommand::Delete, AccountStage::CheckRoot, StepOutcome::Completed(true))
            == AccountStage::Host(AccountStep::DeleteSystemUser),
        host_stage_next(AccountCommand::Delete, AccountStage::Host(AccountStep::DeleteSystemUser),
            StepOutcome::Completed(answer)) == AccountStage::UpdateRegistry,
        host_stage_next(AccountCommand::ChangePassword, AccountStage::CheckRoot, StepOutcome::Completed(true))
            == AccountStage::Host(AccountStep::SetSystemPassword),
        host_stage_next(AccountCommand::ChangePassword, AccountStage::Host(AccountStep::SetSystemPassword),
            StepOutcome::Completed(answer)) == AccountStage::UpdateRegistry,
        host_stage_next(AccountCommand::Delete, AccountStage::CheckRoot, StepOutcome::Completed(false))
            == AccountStage::UpdateRegistry,
        host_stage_next(AccountCommand::Delete, AccountStage::Save, StepOutcome::Completed(answer)) == AccountStage::Done,
        host_stage_next(AccountCommand::Delete, AccountStage::Save, StepOutcome::Failed) == AccountStage::Failed,
{
}

} // verus!
