use aetheris_core::cli::{check_password, parse_role, role_from_lowercase, status_report, user_table, CliError};
use aetheris_core::hardware::{HardwareInfo, HardwareProfile};
use aetheris_core::manager_cli;
use aetheris_core::users::{Role, UserManager};

fn sample_hw() -> HardwareInfo {
    HardwareInfo {
        profile: HardwareProfile::Standard,
        ram_gb: 8,
        cpu_cores: 4,
        has_nvidia: false,
        has_intel_quicksync: true,
        disk_gb: 512,
        swap_gb: 2,
        user_id: "1000".to_string(),
        group_id: "1000".to_string(),
    }
}

#[test]
fn role_parsing_ignores_case() {
    assert_eq!(parse_role("Admin"), Ok(Role::Admin));
    assert_eq!(parse_role("ADMIN"), Ok(Role::Admin));
    assert_eq!(parse_role("observer"), Ok(Role::Observer));
    assert_eq!(parse_role("ObSeRvEr"), Ok(Role::Observer));
    assert_eq!(parse_role("root"), Err(CliError::InvalidRole));
    assert_eq!(parse_role(" admin"), Err(CliError::InvalidRole));
    assert_eq!(role_from_lowercase("Admin"), Err(CliError::InvalidRole));
    assert_eq!(CliError::InvalidRole.message(), "Invalid role. Use 'Admin' or 'Observer'");
}

#[test]
fn blank_passwords_are_refused() {
    assert_eq!(check_password(""), Err(CliError::EmptyPassword));
    assert_eq!(check_password("  \t"), Err(CliError::EmptyPassword));
    assert_eq!(check_password(" x "), Ok(()));
    assert_eq!(CliError::EmptyPassword.message(), "Password cannot be empty");
    assert_eq!(CliError::UserNotFound.message(), "User not found");
}

#[test]
fn user_tables() {
    let mut m = UserManager::new();
    m.add_user_with_hash("alice", Ok("h".to_string()), Role::Admin, Some(25)).unwrap();
    m.add_user_with_hash("bob", Ok("h".to_string()), Role::Observer, None).unwrap();
    let users = m.list_users();
    let lines = user_table(&users);
    assert_eq!(lines.len(), 4);
    assert_eq!(lines[0], format!("{:<20} | {:<15} | {:<10}", "Username", "Role", "Quota (GB)"));
    assert_eq!(lines[1], format!("{:<20} | {:<15} | {:<10}", "--------", "----", "----------"));
    assert_eq!(lines[2], format!("{:<20} | {:<15?} | {:<10}", "alice", Role::Admin, "25"));
    assert_eq!(lines[3], format!("{:<20} | {:<15?} | {:<10}", "bob", Role::Observer, "Unlimited"));
    let lines = manager_cli::user_table(&users);
    assert_eq!(lines[0], format!("{:<20} | {:<15}", "Username", "Role"));
    assert_eq!(lines[2], format!("{:<20} | {:?}", "alice", Role::Admin));
    assert_eq!(lines[3], "bob                  | Observer");
}

#[test]
fn status_reports() {
    let hw = sample_hw();
    let lines = status_report(&hw, false);
    assert_eq!(
        lines,
        vec![
            "=== AETHERIS System Status ===",
            "RAM: 8 GB",
            "Swap: 2 GB",
            "Disk: 512 GB",
            "Cores: 4",
            "Profile: Standard",
            "Nvidia GPU: false",
            "Intel QuickSync: true",
            "\n=== Runtime Status ===",
            "Docker: NOT Installed",
        ]
    );
    let lines = manager_cli::status_report(&hw, true);
    assert_eq!(lines[0], "=== System Status ===");
    assert_eq!(lines[8], "\n=== Docker Status ===");
    assert_eq!(lines[9], "Docker is installed.");
}

#[test]
fn deployment_summary_rows() {
    let lines = manager_cli::deployment_summary(&Some("nc-pass".to_string()), &None, &Some("yl".to_string()));
    assert_eq!(lines.len(), 18);
    assert_eq!(lines[1], "                           DEPLOYMENT SUMMARY 🚀");
    assert_eq!(
        lines[3],
        format!("{:<15} | {:<25} | {:<15} | Password / Info", "Service", "URL", "User")
    );
    assert_eq!(
        lines[5],
        format!("{:<15} | {:<25} | {:<15} | {}", "Nginx Proxy", "http://<IP>:81", "admin@example.com", "changeme")
    );
    assert_eq!(
        lines[7],
        format!("{:<15} | {:<25} | {:<15} | {}", "Nextcloud", "https://<IP>:4443", "admin", "nc-pass")
    );
    assert_eq!(
        lines[8],
        format!("{:<15} | {:<25} | {:<15} | {}", "Vaultwarden", "http://<IP>:8001/admin", "(Token)", "ERROR")
    );
    assert_eq!(lines[17], "NOTE: Replace <IP> with your server's IP address.");
}
