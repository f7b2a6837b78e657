use aetheris_core::hardware::{HardwareInfo, HardwareProfile, HardwareSpecs};
use aetheris_core::host::{
    base_packages, bytes_to_gb, chpasswd_input, compose_up_args, firewall_rules, nvidia_available,
    quota_blocks, resolve_user_context, setquota_args, specs_from_probe, swappiness, sysctl_config,
    total_disk_gb, useradd_args, userdel_args,
};
use aetheris_core::mock;
use aetheris_core::runtime::{HardwareProbe, MockRuntime, SystemRuntime, DockerRuntime};
use aetheris_core::text::{decimal_string, is_blank};

#[test]
fn from_specs_copies_and_classifies() {
    let specs = HardwareSpecs {
        ram_gb: 6,
        swap_gb: 0,
        cpu_cores: 4,
        disk_gb: 100,
        has_nvidia: true,
        has_intel_quicksync: false,
    };
    let hw = HardwareInfo::from_specs(specs, "1001".to_string(), "1002".to_string());
    assert_eq!(hw.profile, HardwareProfile::Low);
    assert_eq!(hw.ram_gb, 6);
    assert_eq!(hw.disk_gb, 100);
    assert!(hw.has_nvidia);
    assert_eq!(hw.user_id, "1001");
    assert_eq!(hw.group_id, "1002");
}

#[test]
fn profile_is_monotone_on_examples() {
    let order = |p: HardwareProfile| match p {
        HardwareProfile::Low => 0,
        HardwareProfile::Standard => 1,
        HardwareProfile::High => 2,
    };
    let mut prev = 0;
    for ram in 0..40u64 {
        let p = order(HardwareInfo::evaluate_profile(ram, 4, 0));
        assert!(p >= prev);
        prev = p;
    }
    assert_eq!(HardwareInfo::evaluate_profile(100, 1, 0), HardwareProfile::High);
    assert_eq!(HardwareInfo::evaluate_profile(12, 2, 8), HardwareProfile::Low);
}

#[test]
fn sysctl_and_swappiness() {
    assert_eq!(swappiness(16), 10);
    assert_eq!(swappiness(17), 1);
    assert_eq!(sysctl_config(8), "vm.swappiness=10\nfs.inotify.max_user_watches=524288\n");
    assert_eq!(sysctl_config(32), "vm.swappiness=1\nfs.inotify.max_user_watches=524288\n");
}

#[test]
fn quota_commands() {
    assert_eq!(quota_blocks(10), 10485760);
    assert_eq!(quota_blocks(0), 0);
    assert_eq!(
        setquota_args("bob", 2),
        vec!["-u", "bob", "2097152", "2097152", "0", "0", "/home"]
    );
}

#[test]
fn account_commands() {
    assert_eq!(chpasswd_input("bob", "pa:ss"), "bob:pa:ss");
    assert_eq!(useradd_args("bob"), vec!["-m", "-s", "/bin/bash", "bob"]);
    assert_eq!(userdel_args("bob"), vec!["-r", "bob"]);
    assert_eq!(compose_up_args(), vec!["compose", "up", "-d", "--remove-orphans"]);
    let pkgs = base_packages();
    assert_eq!(pkgs.len(), 11);
    assert_eq!(pkgs[0], "curl");
    assert_eq!(pkgs[10], "build-essential");
    let fw = firewall_rules();
    assert_eq!(fw[0], vec!["default", "deny", "incoming"]);
    assert_eq!(fw[3], vec!["--force", "enable"]);
}

#[test]
fn probe_arithmetic() {
    assert_eq!(bytes_to_gb(1073741823), 0);
    assert_eq!(bytes_to_gb(8 * 1073741824 + 5), 8);
    assert_eq!(total_disk_gb(&vec![1073741824, 1073741824, 536870912]), 2);
    assert_eq!(total_disk_gb(&vec![]), 0);
    assert!(nvidia_available(true, false, true));
    assert!(!nvidia_available(false, true, true));
    assert!(!nvidia_available(true, false, false));
    let s = specs_from_probe(17179869184, 0, 8, &vec![549755813888], true, true, false, true);
    assert_eq!(s.ram_gb, 16);
    assert_eq!(s.swap_gb, 0);
    assert_eq!(s.cpu_cores, 8);
    assert_eq!(s.disk_gb, 512);
    assert!(s.has_nvidia);
    assert!(s.has_intel_quicksync);
}

#[test]
fn user_context_resolution() {
    assert_eq!(
        resolve_user_context(Some("1234".to_string()), Some("99".to_string()), Some((1, 2))),
        ("1234".to_string(), "99".to_string())
    );
    assert_eq!(
        resolve_user_context(Some("1234".to_string()), None, Some((1001, 1002))),
        ("1001".to_string(), "1002".to_string())
    );
    assert_eq!(resolve_user_context(None, None, None), ("1000".to_string(), "1000".to_string()));
}

#[test]
fn decimal_and_blank_text() {
    assert_eq!(decimal_string(0), "0");
    assert_eq!(decimal_string(1234), "1234");
    assert_eq!(decimal_string(u64::MAX), u64::MAX.to_string());
    assert!(is_blank(""));
    assert!(is_blank(" \t\n\u{3000}"));
    assert!(!is_blank(" x "));
}

#[test]
fn mock_runtimes() {
    let m = MockRuntime::default();
    assert!(m.check_root().is_ok());
    assert!(!m.file_exists("/etc"));
    assert_eq!(m.get_uid("anyone").unwrap(), 1000);
    assert_eq!(m.detect_hardware(), (8, 2, 4, 512));
    assert!(m.is_installed());
    assert!(m.install().is_ok());
    assert_eq!(m.detect_user_context(), ("1000".to_string(), "1000".to_string()));
    let failing = MockRuntime { docker_fail: true, ..Default::default() };
    assert_eq!(failing.install().unwrap_err().message, "Mock Docker install failure");
    assert_eq!(failing.run_compose_up().unwrap_err().message, "Mock Docker compose failure");
    let port_mock = mock::MockRuntime::default();
    let specs = port_mock.detect_hardware();
    assert_eq!(specs.ram_gb, 8);
    assert_eq!(specs.swap_gb, 2);
    assert_eq!(specs.cpu_cores, 4);
    assert_eq!(specs.disk_gb, 512);
}

#[test]
fn white_space_matches_trim() {
    for code in 0u32..=0x10FFFF {
        if let Some(c) = char::from_u32(code) {
            let s = c.to_string();
            assert_eq!(is_blank(&s), s.trim().is_empty(), "character {:x}", code);
        }
    }
}
