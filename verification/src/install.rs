use vstd::prelude::*;

verus! {

/// What the step just performed reported: it completed (with the answer of a
/// yes/no query; action steps ignore it), or it failed.
#[derive(Debug, Clone, Copy, PartialEq, Eq, Structural)]
pub enum StepOutcome {
    Completed(bool),
    Failed,
}

/// Steps of the full installation of the stack, in the order they run.
#[derive(Debug, Clone, Copy, PartialEq, Eq, Structural)]
pub enum InstallStep {
    /// Refuse to go on without root privileges.
    CheckRoot,
    /// Query: does the installation directory exist?
    CheckInstallDir,
    CreateInstallDir,
    /// Make the installation directory the working directory.
    EnterInstallDir,
    /// Probe the hardware and the service identity.
    DetectHardware,
    InstallPackages,
    ApplyOptimizations,
    ConfigureFirewall,
    /// Query: is the container engine installed?
    CheckDocker,
    InstallDocker,
    LoadSecrets,
    LoadConfig,
    InitializeServices,
    ConfigureServices,
    GenerateCompose,
    /// Bring the generated stack up.
    ComposeUp,
    /// Everything succeeded.
    Done,
    /// A step failed; nothing more is done.
    Failed,
}

/// The step that follows `step` given what it reported.
pub open spec fn install_transition(step: InstallStep, outcome: StepOutcome) -> InstallStep {
    match step {
        InstallStep::Done => InstallStep::Done,
        InstallStep::Failed => InstallStep::Failed,
        _ => match outcome {
            StepOutcome::Failed => InstallStep::Failed,
            StepOutcome::Completed(answer) => match step {
                InstallStep::CheckRoot => InstallStep::CheckInstallDir,
                InstallStep::CheckInstallDir => if answer {
                    InstallStep::EnterInstallDir
                } else {
                    InstallStep::CreateInstallDir
                },
                InstallStep::CreateInstallDir => InstallStep::EnterInstallDir,
                InstallStep::EnterInstallDir => InstallStep::DetectHardware,
                InstallStep::DetectHardware => InstallStep::InstallPackages,
                InstallStep::InstallPackages => InstallStep::ApplyOptimizations,
                InstallStep::ApplyOptimizations => InstallStep::ConfigureFirewall,
                InstallStep::ConfigureFirewall => InstallStep::CheckDocker,
                InstallStep::CheckDocker => if answer {
                    InstallStep::LoadSecrets
                } else {
                    InstallStep::InstallDocker
                },
                InstallStep::InstallDocker => InstallStep::LoadSecrets,
                InstallStep::LoadSecrets => InstallStep::LoadConfig,
                InstallStep::LoadConfig => InstallStep::InitializeServices,
                InstallStep::InitializeServices => InstallStep::ConfigureServices,
                InstallStep::ConfigureServices => InstallStep::GenerateCompose,
                InstallStep::GenerateCompose => InstallStep::ComposeUp,
                _ => InstallStep::Done,
            },
        },
    }
}

/// Position of a step in the installation order.
pub open spec fn install_rank(step: InstallStep) -> int {
    match step {
        InstallStep::CheckRoot => 0,
        InstallStep::CheckInstallDir => 1,
        InstallStep::CreateInstallDir => 2,
        InstallStep::EnterInstallDir => 3,
        InstallStep::DetectHardware => 4,
        InstallStep::InstallPackages => 5,
        InstallStep::ApplyOptimizations => 6,
        InstallStep::ConfigureFirewall => 7,
        InstallStep::CheckDocker => 8,
        InstallStep::InstallDocker => 9,
        InstallStep::LoadSecrets => 10,
        InstallStep::LoadConfig => 11,
        InstallStep::InitializeServices => 12,
        InstallStep::ConfigureServices => 13,
        InstallStep::GenerateCompose => 14,
        InstallStep::ComposeUp => 15,
        InstallStep::Done => 16,
        InstallStep::Failed => 17,
    }
}

impl InstallStep {
    /// The first step of an installation.
    pub fn first() -> (s: Self)
        ensures
            s == InstallStep::CheckRoot,
    {
        InstallStep::CheckRoot
    }

    /// Whether the installation has ended (successfully or not).
    pub fn is_finished(&self) -> (b: bool)
        ensures
            b == (*self == InstallStep::Done || *self == InstallStep::Failed),
    {
        match self {
            InstallStep::Done | InstallStep::Failed => true,
            _ => false,
        }
    }

    /// The step that follows this one given what it reported: any failure ends
    /// the installation; the directory is created only when missing and the
    /// container engine installed only when absent.
    pub fn next(self, outcome: StepOutcome) -> (s: Self)
        ensures
            s == install_transition(self, outcome),
    {
        match self {
            InstallStep::Done => InstallStep::Done,
            InstallStep::Failed => InstallStep::Failed,
            _ => match outcome {
                StepOutcome::Failed => InstallStep::Failed,
                StepOutcome::Completed(answer) => match self {
                    InstallStep::CheckRoot => InstallStep::CheckInstallDir,
                    InstallStep::CheckInstallDir => if answer {
                        InstallStep::EnterInstallDir
                    } else {
                        InstallStep::CreateInstallDir
                    },
                    InstallStep::CreateInstallDir => InstallStep::EnterInstallDir,
                    InstallStep::EnterInstallDir => InstallStep::DetectHardware,
                    InstallStep::DetectHardware => InstallStep::InstallPackages,
                    InstallStep::InstallPackages => InstallStep::ApplyOptimizations,
                    InstallStep::ApplyOptimizations => InstallStep::ConfigureFirewall,
                    InstallStep::ConfigureFirewall => InstallStep::CheckDocker,
                    InstallStep::CheckDocker => if answer {
                        InstallStep::LoadSecrets
                    } else {
                        InstallStep::InstallDocker
                    },
                    InstallStep::InstallDocker => InstallStep::LoadSecrets,
                    InstallStep::LoadSecrets => InstallStep::LoadConfig,
                    InstallStep::LoadConfig => InstallStep::InitializeServices,
                    InstallStep::InitializeServices => InstallStep::ConfigureServices,
                    InstallStep::ConfigureServices => InstallStep::GenerateCompose,
                    InstallStep::GenerateCompose => InstallStep::ComposeUp,
                    _ => InstallStep::Done,
                },
            },
        }
    }
}

/// The step reached from `start` after the given outcomes, one per step.
pub open spec fn install_run(start: InstallStep, outcomes: Seq<StepOutcome>) -> InstallStep
    decreases outcomes.len(),
{
    if outcomes.len() == 0 {
        start
    } else {
        install_transition(install_run(start, outcomes.drop_last()), outcomes.last())
    }
}

/// A failed step ends the installation: from `Failed` nothing more happens.
pub proof fn law_install_failure_is_final(outcomes: Seq<StepOutcome>)
    ensures
        install_run(InstallStep::Failed, outcomes) == InstallStep::Failed,
    decreases outcomes.len(),
{
    if outcomes.len() > 0 {
        law_install_failure_is_final(outcomes.drop_last());
    }
}

/// Every step that does not fail moves strictly forward in the installation order,
/// so no step is repeated and none is taken out of order.
pub proof fn law_install_moves_forward(step: InstallStep, outcome: StepOutcome)
    requires
        step != InstallStep::Done,
        step != InstallStep::Failed,
        outcome != StepOutcome::Failed,
    ensures
        install_rank(install_transition(step, outcome)) > install_rank(step),
        install_transition(step, outcome) != InstallStep::Failed,
{
}

/// The stack is brought up only when every step before it completed: a run from
/// the start that is still in progress (in particular one that reached
/// `ComposeUp`) holds no failed outcome.
pub proof fn law_install_no_failure_before_launch(outcomes: Seq<StepOutcome>)
    requires
        install_run(InstallStep::CheckRoot, outcomes) != InstallStep::Done,
        install_run(InstallStep::CheckRoot, outcomes) != InstallStep::Failed,
    ensures
        forall|i: int| 0 <= i < outcomes.len() ==> outcomes[i] != StepOutcome::Failed,
    decreases outcomes.len(),
{
    if outcomes.len() > 0 {
        let d = outcomes.drop_last();
        let prev = install_run(InstallStep::CheckRoot, d);
        assert(prev != InstallStep::Done && prev != InstallStep::Failed);
        law_install_no_failure_before_launch(d);
        assert forall|i: int| 0 <= i < outcomes.len() implies outcomes[i] != StepOutcome::Failed by {
            if i < outcomes.len() - 1 {
                assert(d[i] == outcomes[i]);
            }
        }
    }
}

/// The installation reports success only when every step succeeded: a run from
/// the start that has just become `Done` came from `ComposeUp`, and none of its
/// outcomes failed.
pub proof fn law_install_done_means_all_succeeded(outcomes: Seq<StepOutcome>)
    requires
        outcomes.len() > 0,
        install_run(InstallStep::CheckRoot, outcomes) == InstallStep::Done,
        install_run(InstallStep::CheckRoot, outcomes.drop_last()) != InstallStep::Done,
    ensures
        install_run(InstallStep::CheckRoot, outcomes.drop_last()) == InstallStep::ComposeUp,
        forall|i: int| 0 <= i < outcomes.len() ==> outcomes[i] != StepOutcome::Failed,
{
    let d = outcomes.drop_last();
    let prev = install_run(InstallStep::CheckRoot, d);
    assert(prev != InstallStep::Failed);
    law_install_no_failure_before_launch(d);
    assert forall|i: int| 0 <= i < outcomes.len() implies outcomes[i] != StepOutcome::Failed by {
        if i < outcomes.len() - 1 {
            assert(d[i] == outcomes[i]);
        }
    }
}

/// The steps every installation performs; only creating the directory and
/// installing the container engine depend on the answers of the queries.
pub open spec fn is_mandatory_install_step(step: InstallStep) -> bool {
    step != InstallStep::CreateInstallDir && step != InstallStep::InstallDocker
        && step != InstallStep::Done && step != InstallStep::Failed
}

/// No step is skipped: a run from the start that has not failed and stands past a
/// step every installation performs (root check, entering the directory, hardware
/// probe, packages, optimisations, firewall, engine check, secrets, configuration,
/// service initialisation and configuration, writing the compose file, bringing the
/// stack up) performed that step earlier, and that step completed.
pub proof fn law_install_steps_not_skipped(outcomes: Seq<StepOutcome>, step: InstallStep)
    requires
        is_mandatory_install_step(step),
        install_run(InstallStep::CheckRoot, outcomes) != InstallStep::Failed,
        install_rank(step) < install_rank(install_run(InstallStep::CheckRoot, outcomes)),
    ensures
        exists|k: int| 0 <= k < outcomes.len()
            && #[trigger] install_run(InstallStep::CheckRoot, outcomes.take(k)) == step
            && outcomes[k] != StepOutcome::Failed,
    decreases outcomes.len(),
{
    let d = outcomes.drop_last();
    let prev = install_run(InstallStep::CheckRoot, d);
    if prev == InstallStep::Failed {
        assert(install_transition(prev, outcomes.last()) == InstallStep::Failed);
    }
    if install_rank(step) < install_rank(prev) {
        law_install_steps_not_skipped(d, step);
        let k = choose|k: int| 0 <= k < d.len()
            && #[trigger] install_run(InstallStep::CheckRoot, d.take(k)) == step
            && d[k] != StepOutcome::Failed;
        assert(d.take(k) =~= outcomes.take(k));
        assert(outcomes[k] == d[k]);
    } else {
        assert(step == prev);
        let k = d.len() as int;
        assert(outcomes.take(k) =~= d);
        assert(install_run(InstallStep::CheckRoot, outcomes.take(k)) == step);
    }
}

/// The stack is brought up at most once: once a run has reached `ComposeUp`, every
/// later step of it is `Done` or `Failed`.
pub proof fn law_compose_up_at_most_once(outcomes: Seq<StepOutcome>, i: int, j: int)
    requires
        0 <= i < j <= outcomes.len(),
        install_run(InstallStep::CheckRoot, outcomes.take(i)) == InstallStep::ComposeUp,
    ensures
        install_run(InstallStep::CheckRoot, outcomes.take(j)) == InstallStep::Done
            || install_run(InstallStep::CheckRoot, outcomes.take(j)) == InstallStep::Failed,
    decreases j - i,
{
    let t = outcomes.take(j);
    assert(t.drop_last() =~= outcomes.take(j - 1));
    if j - 1 > i {
        law_compose_up_at_most_once(outcomes, i, j - 1);
    }
}

/// With a directory already present and the container engine installed, a fully
/// successful installation neither creates the directory nor installs the engine:
/// it runs fourteen steps, from `CheckRoot` to `ComposeUp`, and ends `Done`.
pub proof fn law_install_happy_path()
    ensures
        install_run(InstallStep::CheckRoot, Seq::new(14, |i: int| StepOutcome::Completed(true)))
            == InstallStep::Done,
{
    reveal_with_fuel(install_run, 15);
}

/// The queries decide only what they ask about: the directory is created exactly
/// when the installation directory is missing, and the container engine installed
/// exactly when it is absent; either way the installation goes on to the same
/// next step.
pub proof fn law_install_queries(answer: bool)
    ensures
        install_transition(InstallStep::CheckInstallDir, StepOutcome::Completed(answer))
            == (if answer { InstallStep::EnterInstallDir } else { InstallStep::CreateInstallDir }),
        install_transition(InstallStep::CreateInstallDir, StepOutcome::Completed(answer))
            == InstallStep::EnterInstallDir,
        install_transition(InstallStep::CheckDocker, StepOutcome::Completed(answer))
            == (if answer { InstallStep::LoadSecrets } else { InstallStep::InstallDocker }),
        install_transition(InstallStep::InstallDocker, StepOutcome::Completed(answer))
            == InstallStep::LoadSecrets,
{
}

/// Any failure before the end stops the installation at once.
pub proof fn law_install_failure_stops(step: InstallStep)
    requires
        step != InstallStep::Done,
    ensures
        install_transition(step, StepOutcome::Failed) == InstallStep::Failed,
{
}


/// Steps of the server manager's installation, in the order they run.
#[derive(Debug, Clone, Copy, PartialEq, Eq, Structural)]
pub enum ServerInstallStep {
    CheckRoot,
    /// Query: does the installation directory exist?
    CheckInstallDir,
    CreateInstallDir,
    EnterInstallDir,
    LoadSecrets,
    LoadConfig,
    DetectHardware,
    InstallDependencies,
    ApplyOptimizations,
    ConfigureFirewall,
    InstallDocker,
    ConfigureServices,
    InitializeServices,
    GenerateCompose,
    /// Bring the stack up; a failure here is reported but is not an error.
    ComposeUp,
    PrintSummary,
    /// The stack is up and the summary printed.
    Deployed,
    /// Everything was prepared but bringing the stack up failed.
    ComposeFailed,
    /// A step failed; the installation stops with its error.
    Failed,
}

/// The step that follows `step` given what it reported.
pub open spec fn server_install_transition(step: ServerInstallStep, outcome: StepOutcome) -> ServerInstallStep {
    match step {
        ServerInstallStep::Deployed => ServerInstallStep::Deployed,
        ServerInstallStep::ComposeFailed => ServerInstallStep::ComposeFailed,
        ServerInstallStep::Failed => ServerInstallStep::Failed,
        ServerInstallStep::ComposeUp => match outcome {
            StepOutcome::Failed => ServerInstallStep::ComposeFailed,
            StepOutcome::Completed(_) => ServerInstallStep::PrintSummary,
        },
        _ => match outcome {
            StepOutcome::Failed => ServerInstallStep::Failed,
            StepOutcome::Completed(answer) => match step {
                ServerInstallStep::CheckRoot => ServerInstallStep::CheckInstallDir,
                ServerInstallStep::CheckInstallDir => if answer {
                    ServerInstallStep::EnterInstallDir
                } else {
                    ServerInstallStep::CreateInstallDir
                },
                ServerInstallStep::CreateInstallDir => ServerInstallStep::EnterInstallDir,
                ServerInstallStep::EnterInstallDir => ServerInstallStep::LoadSecrets,
                ServerInstallStep::LoadSecrets => ServerInstallStep::LoadConfig,
                ServerInstallStep::LoadConfig => ServerInstallStep::DetectHardware,
                ServerInstallStep::DetectHardware => ServerInstallStep::InstallDependencies,
                ServerInstallStep::InstallDependencies => ServerInstallStep::ApplyOptimizations,
                ServerInstallStep::ApplyOptimizations => ServerInstallStep::ConfigureFirewall,
                ServerInstallStep::ConfigureFirewall => ServerInstallStep::InstallDocker,
                ServerInstallStep::InstallDocker => ServerInstallStep::ConfigureServices,
                ServerInstallStep::ConfigureServices => ServerInstallStep::InitializeServices,
                ServerInstallStep::InitializeServices => ServerInstallStep::GenerateCompose,
                ServerInstallStep::GenerateCompose => ServerInstallStep::ComposeUp,
                _ => ServerInstallStep::Deployed,
            },
        },
    }
}

impl ServerInstallStep {
    /// The first step of an installation.
    pub fn first() -> (s: Self)
        ensures
            s == ServerInstallStep::CheckRoot,
    {
        ServerInstallStep::CheckRoot
    }

    /// Whether the installation has ended.
    pub fn is_finished(&self) -> (b: bool)
        ensures
            b == (*self == ServerInstallStep::Deployed || *self == ServerInstallStep::ComposeFailed
                || *self == ServerInstallStep::Failed),
    {
        match self {
            ServerInstallStep::Deployed | ServerInstallStep::ComposeFailed
            | ServerInstallStep::Failed => true,
            _ => false,
        }
    }

    /// The step that follows this one given what it reported: a failure of any
    /// step but the launch ends the installation with an error; a failed launch
    /// ends it without one and without the summary.
    pub fn next(self, outcome: StepOutcome) -> (s: Self)
        ensures
            s == server_install_transition(self, outcome),
    {
        match self {
            ServerInstallStep::Deployed => ServerInstallStep::Deployed,
            ServerInstallStep::ComposeFailed => ServerInstallStep::ComposeFailed,
            ServerInstallStep::Failed => ServerInstallStep::Failed,
            ServerInstallStep::ComposeUp => match outcome {
                StepOutcome::Failed => ServerInstallStep::ComposeFailed,
                StepOutcome::Completed(_) => ServerInstallStep::PrintSummary,
            },
            _ => match outcome {
                StepOutcome::Failed => ServerInstallStep::Failed,
                StepOutcome::Completed(answer) => match self {
                    ServerInstallStep::CheckRoot => ServerInstallStep::CheckInstallDir,
                    ServerInstallStep::CheckInstallDir => if answer {
                        ServerInstallStep::EnterInstallDir
                    } else {
                        ServerInstallStep::CreateInstallDir
                    },
                    ServerInstallStep::CreateInstallDir => ServerInstallStep::EnterInstallDir,
                    ServerInstallStep::EnterInstallDir => ServerInstallStep::LoadSecrets,
                    ServerInstallStep::LoadSecrets => ServerInstallStep::LoadConfig,
                    ServerInstallStep::LoadConfig => ServerInstallStep::DetectHardware,
                    ServerInstallStep::DetectHardware => ServerInstallStep::InstallDependencies,
                    ServerInstallStep::InstallDependencies => ServerInstallStep::ApplyOptimizations,
                    ServerInstallStep::ApplyOptimizations => ServerInstallStep::ConfigureFirewall,
                    ServerInstallStep::ConfigureFirewall => ServerInstallStep::InstallDocker,
                    ServerInstallStep::InstallDocker => ServerInstallStep::ConfigureServices,
                    ServerInstallStep::ConfigureServices => ServerInstallStep::InitializeServices,
                    ServerInstallStep::InitializeServices => ServerInstallStep::GenerateCompose,
                    ServerInstallStep::GenerateCompose => ServerInstallStep::ComposeUp,
                    _ => ServerInstallStep::Deployed,
                },
            },
        }
    }
}

/// The summary is printed only after a successful launch: `PrintSummary` is
/// reached only from `ComposeUp` with a completed outcome.
pub proof fn law_summary_only_after_launch(step: ServerInstallStep, outcome: StepOutcome)
    requires
        server_install_transition(step, outcome) == ServerInstallStep::PrintSummary,
    ensures
        step == ServerInstallStep::ComposeUp || step == ServerInstallStep::PrintSummary,
        step == ServerInstallStep::ComposeUp ==> outcome != StepOutcome::Failed,
{
}

/// A failed launch is not an error: from `ComposeUp` the installation ends
/// `Failed` never.
pub proof fn law_launch_failure_is_not_an_error(outcome: StepOutcome)
    ensures
        server_install_transition(ServerInstallStep::ComposeUp, outcome) != ServerInstallStep::Failed,
{
}

/// Position of a step in the server manager's installation order.
pub open spec fn server_install_rank(step: ServerInstallStep) -> int {
    match step {
        ServerInstallStep::CheckRoot => 0,
        ServerInstallStep::CheckInstallDir => 1,
        ServerInstallStep::CreateInstallDir => 2,
        ServerInstallStep::EnterInstallDir => 3,
        ServerInstallStep::LoadSecrets => 4,
        ServerInstallStep::LoadConfig => 5,
        ServerInstallStep::DetectHardware => 6,
        ServerInstallStep::InstallDependencies => 7,
        ServerInstallStep::ApplyOptimizations => 8,
        ServerInstallStep::ConfigureFirewall => 9,
        ServerInstallStep::InstallDocker => 10,
        ServerInstallStep::ConfigureServices => 11,
        ServerInstallStep::InitializeServices => 12,
        ServerInstallStep::GenerateCompose => 13,
        ServerInstallStep::ComposeUp => 14,
        ServerInstallStep::PrintSummary => 15,
        ServerInstallStep::Deployed => 16,
        ServerInstallStep::ComposeFailed => 17,
        ServerInstallStep::Failed => 18,
    }
}

/// The step reached from `start` after the given outcomes, one per step.
pub open spec fn server_install_run(start: ServerInstallStep, outcomes: Seq<StepOutcome>) -> ServerInstallStep
    decreases outcomes.len(),
{
    if outcomes.len() == 0 {
        start
    } else {
        server_install_transition(server_install_run(start, outcomes.drop_last()), outcomes.last())
    }
}

/// The steps every server-manager installation performs up to the launch; only
/// creating the directory depends on the answer of a query.
pub open spec fn is_mandatory_server_install_step(step: ServerInstallStep) -> bool {
    step != ServerInstallStep::CreateInstallDir && step != ServerInstallStep::PrintSummary
        && step != ServerInstallStep::Deployed && step != ServerInstallStep::ComposeFailed
        && step != ServerInstallStep::Failed
}

/// Every step that does not end the installation moves strictly forward in the
/// installation order, so none is repeated or taken out of order.
pub proof fn law_server_install_moves_forward(step: ServerInstallStep, outcome: StepOutcome)
    requires
        step != ServerInstallStep::Deployed,
        step != ServerInstallStep::ComposeFailed,
        step != ServerInstallStep::Failed,
    ensures
        server_install_rank(server_install_transition(step, outcome)) > server_install_rank(step),
{
}

/// No step is skipped: a run from the start that has not failed and stands past a
/// step every installation performs (root check, entering the directory, secrets,
/// configuration, hardware probe, dependencies, optimisations, firewall, container
/// engine, service configuration and initialisation, writing the compose file,
/// launching) performed that step earlier; every such step before the launch
/// completed.
pub proof fn law_server_install_steps_not_skipped(outcomes: Seq<StepOutcome>, step: ServerInstallStep)
    requires
        is_mandatory_server_install_step(step),
        server_install_run(ServerInstallStep::CheckRoot, outcomes) != ServerInstallStep::Failed,
        server_install_rank(step) < server_install_rank(server_install_run(ServerInstallStep::CheckRoot, outcomes)),
    ensures
        exists|k: int| 0 <= k < outcomes.len()
            && #[trigger] server_install_run(ServerInstallStep::CheckRoot, outcomes.take(k)) == step
            && (step != ServerInstallStep::ComposeUp ==> outcomes[k] != StepOutcome::Failed),
    decreases outcomes.len(),
{
    let d = outcomes.drop_last();
    let prev = server_install_run(ServerInstallStep::CheckRoot, d);
    if prev == ServerInstallStep::Failed {
        assert(server_install_transition(prev, outcomes.last()) == ServerInstallStep::Failed);
    }
    if server_install_rank(step) < server_install_rank(prev) {
        law_server_install_steps_not_skipped(d, step);
        let k = choose|k: int| 0 <= k < d.len()
            && #[trigger] server_install_run(ServerInstallStep::CheckRoot, d.take(k)) == step
            && (step != ServerInstallStep::ComposeUp ==> d[k] != StepOutcome::Failed);
        assert(d.take(k) =~= outcomes.take(k));
        assert(outcomes[k] == d[k]);
    } else {
        assert(step == prev);
        let k = d.len() as int;
        assert(outcomes.take(k) =~= d);
        assert(server_install_run(ServerInstallStep::CheckRoot, outcomes.take(k)) == step);
    }
}

/// The directory is created exactly when it is missing, and the installation
/// then goes on to enter it either way.
pub proof fn law_server_install_directory_query(answer: bool)
    ensures
        server_install_transition(ServerInstallStep::CheckInstallDir, StepOutcome::Completed(answer))
            == (if answer { ServerInstallStep::EnterInstallDir } else { ServerInstallStep::CreateInstallDir }),
        server_install_transition(ServerInstallStep::CreateInstallDir, StepOutcome::Completed(answer))
            == ServerInstallStep::EnterInstallDir,
{
}

/// How the server-manager installation ends: a failure before the launch stops it
/// with an error; a failed launch ends it without one and without the summary; a
/// successful launch is followed by the summary, after which it is deployed.
pub proof fn law_server_install_endings(step: ServerInstallStep, answer: bool)
    ensures
        server_install_rank(step) < server_install_rank(ServerInstallStep::ComposeUp)
            ==> server_install_transition(step, StepOutcome::Failed) == ServerInstallStep::Failed,
        server_install_transition(ServerInstallStep::ComposeUp, StepOutcome::Failed) == ServerInstallStep::ComposeFailed,
        server_install_transition(ServerInstallStep::ComposeUp, StepOutcome::Completed(answer))
            == ServerInstallStep::PrintSummary,
        server_install_transition(ServerInstallStep::PrintSummary, StepOutcome::Completed(answer))
            == ServerInstallStep::Deployed,
        server_install_transition(ServerInstallStep::Deployed, StepOutcome::Completed(answer)) == ServerInstallStep::Deployed,
        server_install_transition(ServerInstallStep::ComposeFailed, StepOutcome::Completed(answer))
            == ServerInstallStep::ComposeFailed,
        server_install_transition(ServerInstallStep::Failed, StepOutcome::Completed(answer)) == ServerInstallStep::Failed,
{
}

/// Steps of enabling or disabling one service and applying the change.
#[derive(Debug, Clone, Copy, PartialEq, Eq, Structural)]
pub enum ToggleStep {
    /// Query: is there a configuration in the working directory?
    CheckLocalConfig,
    /// Query: is there a configuration in the installation directory?
    CheckInstalledConfig,
    EnterInstallDir,
    LoadConfig,
    /// Query: is the named service one of the known services?
    CheckServiceKnown,
    /// Mark the service enabled or disabled in the configuration.
    UpdateConfig,
    SaveConfig,
    LoadSecrets,
    DetectHardware,
    ConfigureServices,
    InitializeServices,
    GenerateCompose,
    /// Apply the change; a failure here is reported but is not an error.
    ComposeUp,
    /// The change is applied.
    Applied,
    /// The configuration was updated but applying it failed.
    ApplyFailed,
    /// No service has that name; nothing was changed.
    UnknownService,
    /// A step failed; the command stops with its error.
    Failed,
}

/// The step that follows `step` given what it reported.
pub open spec fn toggle_transition(step: ToggleStep, outcome: StepOutcome) -> ToggleStep {
    match step {
        ToggleStep::Applied => ToggleStep::Applied,
        ToggleStep::ApplyFailed => ToggleStep::ApplyFailed,
        ToggleStep::UnknownService => ToggleStep::UnknownService,
        ToggleStep::Failed => ToggleStep::Failed,
        ToggleStep::ComposeUp => match outcome {
            StepOutcome::Failed => ToggleStep::ApplyFailed,
            StepOutcome::Completed(_) => ToggleStep::Applied,
        },
        _ => match outcome {
            StepOutcome::Failed => ToggleStep::Failed,
            StepOutcome::Completed(answer) => match step {
                ToggleStep::CheckLocalConfig => if answer {
                    ToggleStep::LoadConfig
                } else {
                    ToggleStep::CheckInstalledConfig
                },
                ToggleStep::CheckInstalledConfig => if answer {
                    ToggleStep::EnterInstallDir
                } else {
                    ToggleStep::LoadConfig
                },
                ToggleStep::EnterInstallDir => ToggleStep::LoadConfig,
                ToggleStep::LoadConfig => ToggleStep::CheckServiceKnown,
                ToggleStep::CheckServiceKnown => if answer {
                    ToggleStep::UpdateConfig
                } else {
                    ToggleStep::UnknownService
                },
                ToggleStep::UpdateConfig => ToggleStep::SaveConfig,
                ToggleStep::SaveConfig => ToggleStep::LoadSecrets,
                ToggleStep::LoadSecrets => ToggleStep::DetectHardware,
                ToggleStep::DetectHardware => ToggleStep::ConfigureServices,
                ToggleStep::ConfigureServices => ToggleStep::InitializeServices,
                ToggleStep::InitializeServices => ToggleStep::GenerateCompose,
                _ => ToggleStep::ComposeUp,
            },
        },
    }
}

impl ToggleStep {
    /// The first step of a toggle.
    pub fn first() -> (s: Self)
        ensures
            s == ToggleStep::CheckLocalConfig,
    {
        ToggleStep::CheckLocalConfig
    }

    /// Whether the command has ended.
    pub fn is_finished(&self) -> (b: bool)
        ensures
            b == (*self == ToggleStep::Applied || *self == ToggleStep::ApplyFailed
                || *self == ToggleStep::UnknownService || *self == ToggleStep::Failed),
    {
        match self {
            ToggleStep::Applied | ToggleStep::ApplyFailed | ToggleStep::UnknownService
            | ToggleStep::Failed => true,
            _ => false,
        }
    }

    /// The step that follows this one given what it reported: the installation
    /// directory is entered only when the working directory has no configuration
    /// and the installation directory has one; an unknown service ends the
    /// command before anything is changed.
    pub fn next(self, outcome: StepOutcome) -> (s: Self)
        ensures
            s == toggle_transition(self, outcome),
    {
        match self {
            ToggleStep::Applied => ToggleStep::Applied,
            ToggleStep::ApplyFailed => ToggleStep::ApplyFailed,
            ToggleStep::UnknownService => ToggleStep::UnknownService,
            ToggleStep::Failed => ToggleStep::Failed,
            ToggleStep::ComposeUp => match outcome {
                StepOutcome::Failed => ToggleStep::ApplyFailed,
                StepOutcome::Completed(_) => ToggleStep::Applied,
            },
            _ => match outcome {
                StepOutcome::Failed => ToggleStep::Failed,
                StepOutcome::Completed(answer) => match self {
                    ToggleStep::CheckLocalConfig => if answer {
                        ToggleStep::LoadConfig
                    } else {
                        ToggleStep::CheckInstalledConfig
                    },
                    ToggleStep::CheckInstalledConfig => if answer {
                        ToggleStep::EnterInstallDir
                    } else {
                        ToggleStep::LoadConfig
                    },
                    ToggleStep::EnterInstallDir => ToggleStep::LoadConfig,
                    ToggleStep::LoadConfig => ToggleStep::CheckServiceKnown,
                    ToggleStep::CheckServiceKnown => if answer {
                        ToggleStep::UpdateConfig
                    } else {
                        ToggleStep::UnknownService
                    },
                    ToggleStep::UpdateConfig => ToggleStep::SaveConfig,
                    ToggleStep::SaveConfig => ToggleStep::LoadSecrets,
                    ToggleStep::LoadSecrets => ToggleStep::DetectHardware,
                    ToggleStep::DetectHardware => ToggleStep::ConfigureServices,
                    ToggleStep::ConfigureServices => ToggleStep::InitializeServices,
                    ToggleStep::InitializeServices => ToggleStep::GenerateCompose,
                    _ => ToggleStep::ComposeUp,
                },
            },
        }
    }
}

/// The configuration is saved only for a known service: `UpdateConfig` is reached
/// only from `CheckServiceKnown` answered yes.
pub proof fn law_toggle_only_known_services(step: ToggleStep, outcome: StepOutcome)
    requires
        toggle_transition(step, outcome) == ToggleStep::UpdateConfig,
    ensures
        step == ToggleStep::CheckServiceKnown,
        outcome == StepOutcome::Completed(true),
{
}

/// Position of a step in the order of a toggle.
pub open spec fn toggle_rank(step: ToggleStep) -> int {
    match step {
        ToggleStep::CheckLocalConfig => 0,
        ToggleStep::CheckInstalledConfig => 1,
        ToggleStep::EnterInstallDir => 2,
        ToggleStep::LoadConfig => 3,
        ToggleStep::CheckServiceKnown => 4,
        ToggleStep::UpdateConfig => 5,
        ToggleStep::SaveConfig => 6,
        ToggleStep::LoadSecrets => 7,
        ToggleStep::DetectHardware => 8,
        ToggleStep::ConfigureServices => 9,
        ToggleStep::InitializeServices => 10,
        ToggleStep::GenerateCompose => 11,
        ToggleStep::ComposeUp => 12,
        ToggleStep::Applied => 13,
        ToggleStep::ApplyFailed => 14,
        ToggleStep::UnknownService => 15,
        ToggleStep::Failed => 16,
    }
}

/// The step reached from `start` after the given outcomes, one per step.
pub open spec fn toggle_run(start: ToggleStep, outcomes: Seq<StepOutcome>) -> ToggleStep
    decreases outcomes.len(),
{
    if outcomes.len() == 0 {
        start
    } else {
        toggle_transition(toggle_run(start, outcomes.drop_last()), outcomes.last())
    }
}

/// The steps every toggle of a known service performs up to applying it; only
/// where the configuration is looked for depends on the answers of queries.
pub open spec fn is_mandatory_toggle_step(step: ToggleStep) -> bool {
    step != ToggleStep::CheckInstalledConfig && step != ToggleStep::EnterInstallDir
        && step != ToggleStep::Applied && step != ToggleStep::ApplyFailed
        && step != ToggleStep::UnknownService && step != ToggleStep::Failed
}

/// Every step that does not end the command moves strictly forward in the
/// order of a toggle.
pub proof fn law_toggle_moves_forward(step: ToggleStep, outcome: StepOutcome)
    requires
        step != ToggleStep::Applied,
        step != ToggleStep::ApplyFailed,
        step != ToggleStep::UnknownService,
        step != ToggleStep::Failed,
    ensures
        toggle_rank(toggle_transition(step, outcome)) > toggle_rank(step),
{
}

/// No step is skipped: a run from the start that has neither failed nor met an
/// unknown service and stands past a step every toggle performs (looking for the
/// configuration, loading it, checking the service, updating the configuration,
/// saving it, secrets, hardware probe, service configuration and initialisation,
/// writing the compose file, applying) performed that step earlier; every such
/// step before applying completed. In particular the updated configuration is
/// saved before anything else happens.
pub proof fn law_toggle_steps_not_skipped(outcomes: Seq<StepOutcome>, step: ToggleStep)
    requires
        is_mandatory_toggle_step(step),
        toggle_run(ToggleStep::CheckLocalConfig, outcomes) != ToggleStep::Failed,
        toggle_run(ToggleStep::CheckLocalConfig, outcomes) != ToggleStep::UnknownService,
        toggle_rank(step) < toggle_rank(toggle_run(ToggleStep::CheckLocalConfig, outcomes)),
    ensures
        exists|k: int| 0 <= k < outcomes.len()
            && #[trigger] toggle_run(ToggleStep::CheckLocalConfig, outcomes.take(k)) == step
            && (step != ToggleStep::ComposeUp ==> outcomes[k] != StepOutcome::Failed),
    decreases outcomes.len(),
{
    let d = outcomes.drop_last();
    let prev = toggle_run(ToggleStep::CheckLocalConfig, d);
    if prev == ToggleStep::Failed || prev == ToggleStep::UnknownService {
        assert(toggle_transition(prev, outcomes.last()) == prev);
    }
    if toggle_rank(step) < toggle_rank(prev) {
        law_toggle_steps_not_skipped(d, step);
        let k = choose|k: int| 0 <= k < d.len()
            && #[trigger] toggle_run(ToggleStep::CheckLocalConfig, d.take(k)) == step
            && (step != ToggleStep::ComposeUp ==> d[k] != StepOutcome::Failed);
        assert(d.take(k) =~= outcomes.take(k));
        assert(outcomes[k] == d[k]);
    } else {
        assert(step == prev);
        let k = d.len() as int;
        assert(outcomes.take(k) =~= d);
        assert(toggle_run(ToggleStep::CheckLocalConfig, outcomes.take(k)) == step);
    }
}

/// Where the configuration is taken from: the working directory when it has one;
/// otherwise the installation directory (entered first) when that has one;
/// otherwise the working directory. Only a known service is changed.
pub proof fn law_toggle_queries(answer: bool)
    ensures
        toggle_transition(ToggleStep::CheckLocalConfig, StepOutcome::Completed(answer))
            == (if answer { ToggleStep::LoadConfig } else { ToggleStep::CheckInstalledConfig }),
        toggle_transition(ToggleStep::CheckInstalledConfig, StepOutcome::Completed(answer))
            == (if answer { ToggleStep::EnterInstallDir } else { ToggleStep::LoadConfig }),
        toggle_transition(ToggleStep::EnterInstallDir, StepOutcome::Completed(answer)) == ToggleStep::LoadConfig,
        toggle_transition(ToggleStep::CheckServiceKnown, StepOutcome::Completed(answer))
            == (if answer { ToggleStep::UpdateConfig } else { ToggleStep::UnknownService }),
{
}

/// How a toggle ends: a failure before applying stops it with an error; a failed
/// application ends it without one; a successful one ends it applied; an ended
/// command stays where it ended.
pub proof fn law_toggle_endings(step: ToggleStep, outcome: StepOutcome, answer: bool)
    ensures
        toggle_rank(step) < toggle_rank(ToggleStep::ComposeUp)
            ==> toggle_transition(step, StepOutcome::Failed) == ToggleStep::Failed,
        toggle_transition(ToggleStep::ComposeUp, StepOutcome::Failed) == ToggleStep::ApplyFailed,
        toggle_transition(ToggleStep::ComposeUp, StepOutcome::Completed(answer)) == ToggleStep::Applied,
        toggle_rank(step) > toggle_rank(ToggleStep::ComposeUp) ==> toggle_transition(step, outcome) == step,
{
}

/// A toggle that has updated the configuration saves it next: from `UpdateConfig`
/// a completed step leads to `SaveConfig`, and a failed one ends the command.
pub proof fn law_toggle_saves_after_update(outcome: StepOutcome)
    ensures
        outcome != StepOutcome::Failed ==> toggle_transition(ToggleStep::UpdateConfig, outcome) == ToggleStep::SaveConfig,
        outcome == StepOutcome::Failed ==> toggle_transition(ToggleStep::UpdateConfig, outcome) == ToggleStep::Failed,
{
}


/// Positions of the enabled services, in the order the services are listed.
pub open spec fn enabled_positions(enabled: Seq<bool>) -> Seq<usize>
    decreases enabled.len(),
{
    if enabled.len() == 0 {
        Seq::empty()
    } else if enabled.last() {
        enabled_positions(enabled.drop_last()).push((enabled.len() - 1) as usize)
    } else {
        enabled_positions(enabled.drop_last())
    }
}

/// The services a configure or initialize pass works on: the positions, in list
/// order, of those the configuration enables (the pass stops at the first
/// service that fails).
pub fn services_to_run(enabled: &Vec<bool>) -> (r: Vec<usize>)
    ensures
        r@ == enabled_positions(enabled@),
{
    let mut r: Vec<usize> = Vec::new();
    let n = enabled.len();
    for i in 0..n
        invariant
            n == enabled@.len(),
            r@ == enabled_positions(enabled@.take(i as int)),
    {
        assert(enabled@.take(i + 1).drop_last() =~= enabled@.take(i as int));
        if enabled[i] {
            r.push(i);
        }
    }
    assert(enabled@.take(n as int) =~= enabled@);
    r
}

/// A configure or initialize pass visits exactly the enabled services, each
/// once, in list order.
pub proof fn law_enabled_services_in_order(enabled: Seq<bool>)
    requires
        enabled.len() <= usize::MAX,
    ensures
        forall|k: int| 0 <= k < enabled_positions(enabled).len() ==> {
            let p = #[trigger] enabled_positions(enabled)[k];
            p < enabled.len() && enabled[p as int]
        },
        forall|a: int, b: int| 0 <= a < b < enabled_positions(enabled).len() ==>
            #[trigger] enabled_positions(enabled)[a] < #[trigger] enabled_positions(enabled)[b],
        forall|i: int| 0 <= i < enabled.len() && #[trigger] enabled[i] ==> enabled_positions(enabled).contains(i as usize),
    decreases enabled.len(),
{
    if enabled.len() > 0 {
        let d = enabled.drop_last();
        law_enabled_services_in_order(d);
        let pd = enabled_positions(d);
        let pe = enabled_positions(enabled);
        let last = (enabled.len() - 1) as usize;
        assert(last as int == enabled.len() - 1);
        if enabled.last() {
            assert(pe == pd.push(last));
        } else {
            assert(pe == pd);
        }
        assert forall|k: int| 0 <= k < pe.len() implies {
            let p = #[trigger] pe[k];
            p < enabled.len() && enabled[p as int]
        } by {
            if k < pd.len() {
                assert(pe[k] == pd[k]);
                assert(d[pd[k] as int] == enabled[pd[k] as int]);
            } else {
                assert(pe[k] == last);
            }
        }
        assert forall|a: int, b: int| 0 <= a < b < pe.len() implies #[trigger] pe[a] < #[trigger] pe[b] by {
            assert(pe[a] == pd[a]);
            assert(pd[a] < d.len());
            if b < pd.len() {
                assert(pe[b] == pd[b]);
            } else {
                assert(pe[b] == last);
                assert(pd[a] < d.len());
            }
        }
        assert forall|i: int| 0 <= i < enabled.len() && #[trigger] enabled[i] implies pe.contains(i as usize) by {
            if i < enabled.len() - 1 {
                assert(d[i] == enabled[i]);
                assert(pd.contains(i as usize));
                let k = choose|k: int| 0 <= k < pd.len() && pd[k] == i as usize;
                assert(pe[k] == i as usize);
            } else {
                assert(pe[pe.len() - 1] == i as usize);
            }
        }
    }
}

/// The message wrapped around a failing service: `Failed to configure service:
/// <name>` or `Failed to initialize service: <name>`.
pub fn service_failure_message(configuring: bool, name: &str) -> (m: String)
    ensures
        m@ == (if configuring { "Failed to configure service: "@ } else { "Failed to initialize service: "@ }) + name@,
{
    let mut m = if configuring {
        "Failed to configure service: ".to_owned()
    } else {
        "Failed to initialize service: ".to_owned()
    };
    m.append(name);
    m
}

} // verus!
