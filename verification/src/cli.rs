use vstd::prelude::*;
use crate::hardware::{HardwareInfo, HardwareProfile};
use crate::text::{
    bool_text, decimal, digits_value, is_ascii_digit, law_decimal_reads_back, law_padded, padded, blank,
    is_blank, push_bool, push_decimal, push_padded,
};
use crate::users::{Role, User};

verus! {

/// The orchestrator's command line.
pub struct Cli {
    pub command: Commands,
}

/// Commands of the orchestrator.
pub enum Commands {
    /// Full installation (idempotent).
    Install,
    /// Show system status.
    Status,
    /// Manage users.
    User { action: UserCommands },
    /// Start the web administration interface.
    Web { port: u16 },
}

/// User-management subcommands.
pub enum UserCommands {
    /// Add a new user (`role` defaults to `Observer`).
    Add { username: String, role: String, quota: Option<u64> },
    /// Delete a user.
    Delete { username: String },
    /// List users.
    List,
    /// Change a user's password.
    Passwd { username: String },
}

/// Why a command-line request was refused.
#[derive(Debug, Clone, Copy, PartialEq, Eq, Structural)]
pub enum CliError {
    /// The role is neither `admin` nor `observer` (in any case).
    InvalidRole,
    /// The password entered is empty or white space only.
    EmptyPassword,
    /// No account has that name.
    UserNotFound,
}

/// The message text of each error.
pub open spec fn cli_error_message(e: CliError) -> Seq<char> {
    match e {
        CliError::InvalidRole => "Invalid role. Use 'Admin' or 'Observer'"@,
        CliError::EmptyPassword => "Password cannot be empty"@,
        CliError::UserNotFound => "User not found"@,
    }
}

impl CliError {
    /// The human-readable message of the error.
    pub fn message(&self) -> (m: &'static str)
        ensures
            m@ == cli_error_message(*self),
    {
        match self {
            CliError::InvalidRole => "Invalid role. Use 'Admin' or 'Observer'",
            CliError::EmptyPassword => "Password cannot be empty",
            CliError::UserNotFound => "User not found",
        }
    }
}

/// What `str::to_lowercase` returns for a text (Unicode lowercase mapping).
pub uninterp spec fn lowercase(s: Seq<char>) -> Seq<char>;

/// Calls `str::to_lowercase`; the result is named `lowercase`.
#[verifier::external_body]
fn to_lowercase(s: &str) -> (r: String)
    ensures
        r@ == lowercase(s@),
{
    s.to_lowercase()
}

/// The role a lower-cased role name denotes.
pub open spec fn role_of_lowercase(name: Seq<char>) -> Result<Role, CliError> {
    if name == "admin"@ {
        Ok(Role::Admin)
    } else if name == "observer"@ {
        Ok(Role::Observer)
    } else {
        Err(CliError::InvalidRole)
    }
}

/// The role a lower-cased role name denotes: `admin` or `observer`.
pub fn role_from_lowercase(name: &str) -> (r: Result<Role, CliError>)
    ensures
        r == role_of_lowercase(name@),
{
    let n = name.to_owned();
    if n == "admin".to_owned() {
        Ok(Role::Admin)
    } else if n == "observer".to_owned() {
        Ok(Role::Observer)
    } else {
        Err(CliError::InvalidRole)
    }
}

/// The role named on the command line, compared without regard to case.
pub fn parse_role(role: &str) -> (r: Result<Role, CliError>)
    ensures
        r == role_of_lowercase(lowercase(role@)),
{
    let lower = to_lowercase(role);
    role_from_lowercase(lower.as_str())
}

/// Accepts a password unless it is empty or white space only.
pub fn check_password(password: &str) -> (r: Result<(), CliError>)
    ensures
        r is Err <==> blank(password@),
        r is Err ==> r == Err::<(), CliError>(CliError::EmptyPassword),
{
    if is_blank(password) {
        Err(CliError::EmptyPassword)
    } else {
        Ok(())
    }
}

/// Name of a role as it is printed.
pub open spec fn role_name(r: Role) -> Seq<char> {
    match r {
        Role::Admin => "Admin"@,
        Role::Observer => "Observer"@,
    }
}

/// Name of a profile as it is printed.
pub open spec fn profile_name(p: HardwareProfile) -> Seq<char> {
    match p {
        HardwareProfile::Low => "Low"@,
        HardwareProfile::Standard => "Standard"@,
        HardwareProfile::High => "High"@,
    }
}

fn push_role(out: &mut String, r: Role)
    ensures
        final(out)@ == old(out)@ + role_name(r),
{
    match r {
        Role::Admin => out.append("Admin"),
        Role::Observer => out.append("Observer"),
    }
}

fn push_profile(out: &mut String, p: HardwareProfile)
    ensures
        final(out)@ == old(out)@ + profile_name(p),
{
    match p {
        HardwareProfile::Low => out.append("Low"),
        HardwareProfile::Standard => out.append("Standard"),
        HardwareProfile::High => out.append("High"),
    }
}

/// The quota column: the number of GB, or `Unlimited`.
pub open spec fn quota_text(q: Option<u64>) -> Seq<char> {
    match q {
        Some(gb) => decimal(gb as nat),
        None => "Unlimited"@,
    }
}

/// A row of the user table: name in 20 columns, role, quota in 10 columns.
/// (The role is written by its `Debug` form, which ignores the field width.)
pub open spec fn user_row(u: crate::users::UserView) -> Seq<char> {
    padded(u.username, 20) + " | "@ + role_name(u.role) + " | "@ + padded(quota_text(u.quota_gb), 10)
}

/// The user table: a header, a rule, then one row per account in the given order.
pub open spec fn user_table_text(users: Seq<crate::users::UserView>) -> Seq<Seq<char>> {
    seq![
        padded("Username"@, 20) + " | "@ + padded("Role"@, 15) + " | "@ + padded("Quota (GB)"@, 10),
        padded("--------"@, 20) + " | "@ + padded("----"@, 15) + " | "@ + padded("----------"@, 10),
    ] + users.map_values(|u: crate::users::UserView| user_row(u))
}

/// The lines of the user table for the given accounts.
pub fn user_table(users: &Vec<&User>) -> (lines: Vec<String>)
    ensures
        lines@.map_values(|l: String| l@) == user_table_text(users@.map_values(|u: &User| u@)),
{
    let mut lines: Vec<String> = Vec::new();
    let mut h = String::new();
    push_padded(&mut h, "Username", 20);
    h.append(" | ");
    push_padded(&mut h, "Role", 15);
    h.append(" | ");
    push_padded(&mut h, "Quota (GB)", 10);
    lines.push(h);
    let mut r = String::new();
    push_padded(&mut r, "--------", 20);
    r.append(" | ");
    push_padded(&mut r, "----", 15);
    r.append(" | ");
    push_padded(&mut r, "----------", 10);
    lines.push(r);
    assert(lines@[0]@ == user_table_text(users@.map_values(|u: &User| u@))[0]);
    let ghost uv = users@.map_values(|u: &User| u@);
    let n = users.len();
    for i in 0..n
        invariant
            n == users@.len(),
            uv == users@.map_values(|u: &User| u@),
            lines@.len() == i + 2,
            lines@[0]@ == user_table_text(uv)[0],
            lines@[1]@ == user_table_text(uv)[1],
            forall|j: int| 0 <= j < i ==> (#[trigger] lines@[j + 2])@ == user_row(uv[j]),
    {
        let u = users[i];
        let mut row = String::new();
        push_padded(&mut row, u.username.as_str(), 20);
        row.append(" | ");
        push_role(&mut row, u.role);
        row.append(" | ");
        let q = match u.quota_gb {
            Some(gb) => crate::text::decimal_string(gb),
            None => "Unlimited".to_owned(),
        };
        push_padded(&mut row, q.as_str(), 10);
        assert(row@ == user_row(uv[i as int]));
        lines.push(row);
    }
    assert(lines@.map_values(|l: String| l@) =~= user_table_text(uv)) by {
        assert forall|j: int| 2 <= j < lines@.len() implies lines@.map_values(|l: String| l@)[j]
            == user_table_text(uv)[j] by {
            assert(lines@[(j - 2) + 2]@ == user_row(uv[j - 2]));
        }
    }
    lines
}

/// The seven hardware lines of a status report.
pub open spec fn hardware_lines(hw: HardwareInfo) -> Seq<Seq<char>> {
    seq![
        "RAM: "@ + decimal(hw.ram_gb as nat) + " GB"@,
        "Swap: "@ + decimal(hw.swap_gb as nat) + " GB"@,
        "Disk: "@ + decimal(hw.disk_gb as nat) + " GB"@,
        "Cores: "@ + decimal(hw.cpu_cores as nat),
        "Profile: "@ + profile_name(hw.profile),
        "Nvidia GPU: "@ + bool_text(hw.has_nvidia),
        "Intel QuickSync: "@ + bool_text(hw.has_intel_quicksync),
    ]
}

/// The orchestrator's status report.
pub open spec fn status_text(hw: HardwareInfo, docker_installed: bool) -> Seq<Seq<char>> {
    seq!["=== AETHERIS System Status ==="@] + hardware_lines(hw) + seq![
        "\n=== Runtime Status ==="@,
        if docker_installed { "Docker: Installed"@ } else { "Docker: NOT Installed"@ },
    ]
}

/// The seven hardware lines of a status report.
pub fn hardware_report(hw: &HardwareInfo) -> (lines: Vec<String>)
    ensures
        lines@.map_values(|l: String| l@) == hardware_lines(*hw),
{
    let mut ram = "RAM: ".to_owned();
    push_decimal(&mut ram, hw.ram_gb);
    ram.append(" GB");
    let mut swap = "Swap: ".to_owned();
    push_decimal(&mut swap, hw.swap_gb);
    swap.append(" GB");
    let mut disk = "Disk: ".to_owned();
    push_decimal(&mut disk, hw.disk_gb);
    disk.append(" GB");
    let mut cores = "Cores: ".to_owned();
    push_decimal(&mut cores, hw.cpu_cores as u64);
    let mut profile = "Profile: ".to_owned();
    push_profile(&mut profile, hw.profile);
    let mut gpu = "Nvidia GPU: ".to_owned();
    push_bool(&mut gpu, hw.has_nvidia);
    let mut qs = "Intel QuickSync: ".to_owned();
    push_bool(&mut qs, hw.has_intel_quicksync);
    let lines = vec![ram, swap, disk, cores, profile, gpu, qs];
    assert(lines@.map_values(|l: String| l@) =~= hardware_lines(*hw));
    lines
}

/// The orchestrator's status report: hardware facts and whether the container
/// engine is installed.
pub fn status_report(hw: &HardwareInfo, docker_installed: bool) -> (lines: Vec<String>)
    ensures
        lines@.map_values(|l: String| l@) == status_text(*hw, docker_installed),
{
    let mut lines: Vec<String> = vec!["=== AETHERIS System Status ===".to_owned()];
    let mut hwl = hardware_report(hw);
    lines.append(&mut hwl);
    lines.push("\n=== Runtime Status ===".to_owned());
    if docker_installed {
        lines.push("Docker: Installed".to_owned());
    } else {
        lines.push("Docker: NOT Installed".to_owned());
    }
    assert(lines@.map_values(|l: String| l@) =~= status_text(*hw, docker_installed));
    lines
}

/// The status report says whether the container engine is installed: the two
/// reports of a host differ only in their last line, "Docker: Installed" for an
/// installed engine and "Docker: NOT Installed" for a missing one.
pub proof fn law_status_reports_docker(hw: HardwareInfo)
    ensures
        status_text(hw, true).len() == status_text(hw, false).len(),
        status_text(hw, true).drop_last() == status_text(hw, false).drop_last(),
        status_text(hw, true).last() == "Docker: Installed"@,
        status_text(hw, false).last() == "Docker: NOT Installed"@,
        status_text(hw, true) != status_text(hw, false),
        status_text(hw, true).len() == 10,
        status_text(hw, true).subrange(1, 8) == hardware_lines(hw),
{
    reveal_strlit("Docker: Installed");
    reveal_strlit("Docker: NOT Installed");
    let t = status_text(hw, true);
    let f = status_text(hw, false);
    assert(t.drop_last() =~= f.drop_last());
    assert(t.subrange(1, 8) =~= hardware_lines(hw));
    assert(t.last() != f.last()) by {
        assert("Docker: Installed"@.len() != "Docker: NOT Installed"@.len());
    }
}

/// ASCII lower-casing: `A`..`Z` become `a`..`z`, every other character is kept.
pub open spec fn ascii_lower(s: Seq<char>) -> Seq<char> {
    s.map_values(|c: char| if 65 <= (c as u32) <= 90 { ((c as u32) + 32) as char } else { c })
}

/// A lower-cased role name is accepted exactly when it is the printed name of a
/// role in lower case, and it denotes that role; the two roles have different
/// names.
pub proof fn law_role_names_round_trip(name: Seq<char>, r: Role)
    ensures
        role_of_lowercase(ascii_lower(role_name(r))) == Ok::<Role, CliError>(r),
        role_of_lowercase(name) is Ok <==> (name == ascii_lower(role_name(Role::Admin))
            || name == ascii_lower(role_name(Role::Observer))),
        role_of_lowercase(name) is Err ==> role_of_lowercase(name) == Err::<Role, CliError>(CliError::InvalidRole),
        role_name(Role::Admin) != role_name(Role::Observer),
{
    reveal_strlit("admin");
    reveal_strlit("observer");
    reveal_strlit("Admin");
    reveal_strlit("Observer");
    assert(ascii_lower("Admin"@) =~= "admin"@);
    assert(ascii_lower("Observer"@) =~= "observer"@);
    assert("Admin"@.len() != "Observer"@.len());
    assert("admin"@.len() != "observer"@.len());
}

/// The quota column reads back: a quota is written as the ASCII digits of its
/// number of GB, and no quota as `Unlimited`, which is not a number.
pub proof fn law_quota_text_reads_back(q: Option<u64>)
    ensures
        q matches Some(gb) ==> digits_value(quota_text(q)) == gb
            && forall|i: int| 0 <= i < quota_text(q).len() ==> is_ascii_digit(#[trigger] quota_text(q)[i]),
        q is None ==> quota_text(q) == "Unlimited"@ && !is_ascii_digit(quota_text(q)[0]),
{
    reveal_strlit("Unlimited");
    if let Some(gb) = q {
        law_decimal_reads_back(gb as nat);
    }
}

/// The user table has a header, a rule and then one row per account, in the order
/// given; each row starts with the account's name, and a name of at most twenty
/// characters is followed by spaces up to column twenty and then ` | ` and the
/// account's role.
pub proof fn law_user_table_rows(users: Seq<crate::users::UserView>, i: int)
    requires
        0 <= i < users.len(),
    ensures
        user_table_text(users).len() == users.len() + 2,
        user_table_text(users)[i + 2].subrange(0, users[i].username.len() as int) == users[i].username,
        users[i].username.len() <= 20 ==> {
            let row = user_table_text(users)[i + 2];
            &&& forall|j: int| users[i].username.len() <= j < 20 ==> #[trigger] row[j] == ' '
            &&& row.subrange(20, 23) == " | "@
            &&& row.subrange(23, 23 + role_name(users[i].role).len() as int) == role_name(users[i].role)
            &&& row.subrange(23 + role_name(users[i].role).len() as int, 26 + role_name(users[i].role).len() as int) == " | "@
            &&& row.subrange(26 + role_name(users[i].role).len() as int,
                26 + role_name(users[i].role).len() + quota_text(users[i].quota_gb).len() as int) == quota_text(users[i].quota_gb)
        },
{
    let u = users[i];
    let row = user_row(u);
    assert(user_table_text(users)[i + 2] == row);
    law_padded(u.username, 20);
    let p = padded(u.username, 20);
    assert(row.subrange(0, u.username.len() as int) =~= p.subrange(0, u.username.len() as int));
    if u.username.len() <= 20 {
        reveal_strlit(" | ");
        assert(p.len() == 20);
        assert forall|j: int| u.username.len() <= j < 20 implies #[trigger] row[j] == ' ' by {
            assert(row[j] == p[j]);
        }
        assert(row.subrange(20, 23) =~= " | "@);
        assert(row.subrange(23, 23 + role_name(u.role).len() as int) =~= role_name(u.role));
        let k: int = 23 + role_name(u.role).len() as int;
        law_padded(quota_text(u.quota_gb), 10);
        assert(row.subrange(k, k + 3) =~= " | "@);
        assert(row.subrange(k + 3, k + 3 + quota_text(u.quota_gb).len() as int) =~= quota_text(u.quota_gb));
    }
}

/// The hardware lines of a report read back: the RAM, swap, disk and core lines
/// carry the host's numbers in decimal after their labels.
pub proof fn law_hardware_lines_read_back(hw: HardwareInfo)
    ensures
        hardware_lines(hw).len() == 7,
        ({
            let l = hardware_lines(hw)[0];
            l.subrange(0, 5) == "RAM: "@ && digits_value(l.subrange(5, l.len() - 3)) == hw.ram_gb
                && l.subrange(l.len() - 3, l.len() as int) == " GB"@
        }),
        ({
            let l = hardware_lines(hw)[1];
            l.subrange(0, 6) == "Swap: "@ && digits_value(l.subrange(6, l.len() - 3)) == hw.swap_gb
        }),
        ({
            let l = hardware_lines(hw)[2];
            l.subrange(0, 6) == "Disk: "@ && digits_value(l.subrange(6, l.len() - 3)) == hw.disk_gb
        }),
        ({
            let l = hardware_lines(hw)[3];
            l.subrange(0, 7) == "Cores: "@ && digits_value(l.subrange(7, l.len() as int)) == hw.cpu_cores
        }),
{
    reveal_strlit("RAM: ");
    reveal_strlit("Swap: ");
    reveal_strlit("Disk: ");
    reveal_strlit("Cores: ");
    reveal_strlit(" GB");
    law_decimal_reads_back(hw.ram_gb as nat);
    law_decimal_reads_back(hw.swap_gb as nat);
    law_decimal_reads_back(hw.disk_gb as nat);
    law_decimal_reads_back(hw.cpu_cores as nat);
    let l0 = hardware_lines(hw)[0];
    assert(l0.subrange(0, 5) =~= "RAM: "@);
    assert(l0.subrange(5, l0.len() - 3) =~= decimal(hw.ram_gb as nat));
    assert(l0.subrange(l0.len() - 3, l0.len() as int) =~= " GB"@);
    let l1 = hardware_lines(hw)[1];
    assert(l1.subrange(0, 6) =~= "Swap: "@);
    assert(l1.subrange(6, l1.len() - 3) =~= decimal(hw.swap_gb as nat));
    let l2 = hardware_lines(hw)[2];
    assert(l2.subrange(0, 6) =~= "Disk: "@);
    assert(l2.subrange(6, l2.len() - 3) =~= decimal(hw.disk_gb as nat));
    let l3 = hardware_lines(hw)[3];
    assert(l3.subrange(0, 7) =~= "Cores: "@);
    assert(l3.subrange(7, l3.len() as int) =~= decimal(hw.cpu_cores as nat));
}

/// Each command-line error has its own message.
pub proof fn law_cli_error_messages_distinct(a: CliError, b: CliError)
    requires
        a != b,
    ensures
        cli_error_message(a) != cli_error_message(b),
{
    reveal_strlit("Invalid role. Use 'Admin' or 'Observer'");
    reveal_strlit("Password cannot be empty");
    reveal_strlit("User not found");
    assert("Invalid role. Use 'Admin' or 'Observer'"@.len() == 39);
    assert("Password cannot be empty"@.len() == 24);
    assert("User not found"@.len() == 14);
}

/// The profile and GPU lines of a report: the profile's printed name (each
/// profile its own), and `true` after the GPU labels exactly when the host has
/// that GPU.
pub proof fn law_hardware_lines_flags(hw: HardwareInfo, p: HardwareProfile, q: HardwareProfile)
    ensures
        hardware_lines(hw)[4] == "Profile: "@ + profile_name(hw.profile),
        p != q ==> profile_name(p) != profile_name(q),
        ({
            let l = hardware_lines(hw)[5];
            l.subrange(0, 12) == "Nvidia GPU: "@ && (l.subrange(12, l.len() as int) == "true"@) == hw.has_nvidia
        }),
        ({
            let l = hardware_lines(hw)[6];
            l.subrange(0, 17) == "Intel QuickSync: "@
                && (l.subrange(17, l.len() as int) == "true"@) == hw.has_intel_quicksync
        }),
{
    reveal_strlit("Low");
    reveal_strlit("Standard");
    reveal_strlit("High");
    reveal_strlit("Nvidia GPU: ");
    reveal_strlit("Intel QuickSync: ");
    assert("Low"@.len() == 3 && "Standard"@.len() == 8 && "High"@.len() == 4);
    crate::text::law_bool_text(hw.has_nvidia);
    crate::text::law_bool_text(hw.has_intel_quicksync);
    let l5 = hardware_lines(hw)[5];
    assert(l5.subrange(0, 12) =~= "Nvidia GPU: "@);
    assert(l5.subrange(12, l5.len() as int) =~= bool_text(hw.has_nvidia));
    let l6 = hardware_lines(hw)[6];
    assert(l6.subrange(0, 17) =~= "Intel QuickSync: "@);
    assert(l6.subrange(17, l6.len() as int) =~= bool_text(hw.has_intel_quicksync));
}

} // verus!
