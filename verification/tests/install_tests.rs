use aetheris_core::install::{
    service_failure_message, services_to_run, InstallStep, ServerInstallStep, StepOutcome, ToggleStep,
};

fn run_install(answers: &[StepOutcome]) -> Vec<InstallStep> {
    let mut step = InstallStep::first();
    let mut seen = vec![step];
    for a in answers {
        step = step.next(*a);
        seen.push(step);
    }
    seen
}

#[test]
fn install_happy_path_skips_optional_steps() {
    let ok = StepOutcome::Completed(true);
    let seen = run_install(&[ok; 14]);
    assert_eq!(*seen.last().unwrap(), InstallStep::Done);
    assert!(!seen.contains(&InstallStep::CreateInstallDir));
    assert!(!seen.contains(&InstallStep::InstallDocker));
    assert!(seen.contains(&InstallStep::ComposeUp));
}

#[test]
fn install_creates_directory_and_engine_when_missing() {
    let ok = StepOutcome::Completed(true);
    let no = StepOutcome::Completed(false);
    let seen = run_install(&[ok, no, ok, ok, ok, ok, ok, ok, no, ok, ok, ok, ok, ok, ok, ok]);
    assert!(seen.contains(&InstallStep::CreateInstallDir));
    assert!(seen.contains(&InstallStep::InstallDocker));
    assert_eq!(*seen.last().unwrap(), InstallStep::Done);
    assert!(seen.last().unwrap().is_finished());
}

#[test]
fn install_stops_at_first_failure() {
    let ok = StepOutcome::Completed(true);
    let seen = run_install(&[ok, ok, StepOutcome::Failed, ok, ok]);
    assert_eq!(seen[3], InstallStep::Failed);
    assert_eq!(*seen.last().unwrap(), InstallStep::Failed);
    assert!(!seen.contains(&InstallStep::ComposeUp));
}

#[test]
fn server_install_launch_failure_is_not_an_error() {
    let ok = StepOutcome::Completed(true);
    let mut step = ServerInstallStep::first();
    while step != ServerInstallStep::ComposeUp {
        step = step.next(ok);
    }
    assert_eq!(step.next(StepOutcome::Failed), ServerInstallStep::ComposeFailed);
    assert_eq!(step.next(ok), ServerInstallStep::PrintSummary);
    assert_eq!(step.next(ok).next(ok), ServerInstallStep::Deployed);
    assert_eq!(ServerInstallStep::LoadConfig.next(StepOutcome::Failed), ServerInstallStep::Failed);
}

#[test]
fn toggle_paths() {
    let ok = StepOutcome::Completed(true);
    let no = StepOutcome::Completed(false);
    let s = ToggleStep::first().next(no);
    assert_eq!(s, ToggleStep::CheckInstalledConfig);
    assert_eq!(s.next(ok), ToggleStep::EnterInstallDir);
    assert_eq!(s.next(no), ToggleStep::LoadConfig);
    assert_eq!(ToggleStep::CheckServiceKnown.next(no), ToggleStep::UnknownService);
    assert!(ToggleStep::UnknownService.is_finished());
    assert_eq!(ToggleStep::ComposeUp.next(StepOutcome::Failed), ToggleStep::ApplyFailed);
    assert_eq!(ToggleStep::ComposeUp.next(ok), ToggleStep::Applied);
}

#[test]
fn enabled_services_and_messages() {
    assert_eq!(services_to_run(&vec![true, false, true, true]), vec![0, 2, 3]);
    assert!(services_to_run(&vec![false, false]).is_empty());
    assert_eq!(service_failure_message(true, "plex"), "Failed to configure service: plex");
    assert_eq!(service_failure_message(false, "plex"), "Failed to initialize service: plex");
}

#[test]
fn install_performs_every_mandatory_step_once_before_launch() {
    let ok = StepOutcome::Completed(true);
    let no = StepOutcome::Completed(false);
    let seen = run_install(&[ok, no, ok, ok, ok, ok, ok, ok, no, ok, ok, ok, ok, ok, ok, ok, ok, ok]);
    let launch = seen.iter().position(|s| *s == InstallStep::ComposeUp).unwrap();
    for step in [
        InstallStep::CheckRoot,
        InstallStep::EnterInstallDir,
        InstallStep::DetectHardware,
        InstallStep::InstallPackages,
        InstallStep::ApplyOptimizations,
        InstallStep::ConfigureFirewall,
        InstallStep::CheckDocker,
        InstallStep::LoadSecrets,
        InstallStep::LoadConfig,
        InstallStep::InitializeServices,
        InstallStep::ConfigureServices,
        InstallStep::GenerateCompose,
    ] {
        assert_eq!(seen.iter().filter(|s| **s == step).count(), 1);
        assert!(seen.iter().position(|s| *s == step).unwrap() < launch);
    }
    assert_eq!(seen.iter().filter(|s| **s == InstallStep::ComposeUp).count(), 1);
    assert!(seen[launch + 1..].iter().all(|s| *s == InstallStep::Done));
}
