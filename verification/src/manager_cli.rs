use vstd::prelude::*;
use crate::cli::{hardware_lines, hardware_report, role_name};
use crate::hardware::HardwareInfo;
use crate::text::{law_padded, padded, push_padded};
use crate::users::{Role, User};

verus! {

/// The server manager's command line.
pub struct Cli {
    pub command: Commands,
}

/// Commands of the server manager.
pub enum Commands {
    /// Full installation (idempotent).
    Install,
    /// Show system status.
    Status,
    /// Generate docker-compose.yml only.
    Generate,
    /// Enable a service.
    Enable { service: String },
    /// Disable a service.
    Disable { service: String },
    /// Start the web administration interface.
    Web { port: u16 },
    /// Manage users.
    User { action: UserCommands },
}

/// User-management subcommands.
pub enum UserCommands {
    /// Add a new user (`role` is `Admin` or `Observer`, by default `Observer`).
    Add { username: String, role: String, quota: Option<u64> },
    /// Delete a user.
    Delete { username: String },
    /// List users.
    List,
    /// Change a user's password.
    Passwd { username: String },
}

/// The user table of the server manager: name in 20 columns and role.
pub open spec fn manager_user_table_text(users: Seq<crate::users::UserView>) -> Seq<Seq<char>> {
    seq![
        padded("Username"@, 20) + " | "@ + padded("Role"@, 15),
        padded("--------"@, 20) + " | "@ + padded("----"@, 15),
    ] + users.map_values(|u: crate::users::UserView| padded(u.username, 20) + " | "@ + role_name(u.role))
}

fn push_role(out: &mut String, r: Role)
    ensures
        final(out)@ == old(out)@ + role_name(r),
{
    match r {
        Role::Admin => out.append("Admin"),
        Role::Observer => out.append("Observer"),
    }
}

/// The lines of the server manager's user table for the given accounts.
pub fn user_table(users: &Vec<&User>) -> (lines: Vec<String>)
    ensures
        lines@.map_values(|l: String| l@) == manager_user_table_text(users@.map_values(|u: &User| u@)),
{
    let ghost uv = users@.map_values(|u: &User| u@);
    let mut lines: Vec<String> = Vec::new();
    let mut h = String::new();
    push_padded(&mut h, "Username", 20);
    h.append(" | ");
    push_padded(&mut h, "Role", 15);
    lines.push(h);
    let mut r = String::new();
    push_padded(&mut r, "--------", 20);
    r.append(" | ");
    push_padded(&mut r, "----", 15);
    lines.push(r);
    let n = users.len();
    for i in 0..n
        invariant
            n == users@.len(),
            uv == users@.map_values(|u: &User| u@),
            lines@.len() == i + 2,
            lines@[0]@ == manager_user_table_text(uv)[0],
            lines@[1]@ == manager_user_table_text(uv)[1],
            forall|j: int| 0 <= j < i ==> (#[trigger] lines@[j + 2])@ == padded(uv[j].username, 20) + " | "@ + role_name(uv[j].role),
    {
        let u = users[i];
        let mut row = String::new();
        push_padded(&mut row, u.username.as_str(), 20);
        row.append(" | ");
        push_role(&mut row, u.role);
        lines.push(row);
    }
    assert(lines@.map_values(|l: String| l@) =~= manager_user_table_text(uv)) by {
        assert forall|j: int| 2 <= j < lines@.len() implies lines@.map_values(|l: String| l@)[j]
            == manager_user_table_text(uv)[j] by {
            assert(lines@[(j - 2) + 2]@ == padded(uv[j - 2].username, 20) + " | "@ + role_name(uv[j - 2].role));
        }
    }
    lines
}

/// The server manager's status report.
pub open spec fn manager_status_text(hw: HardwareInfo, docker_installed: bool) -> Seq<Seq<char>> {
    seq!["=== System Status ==="@] + hardware_lines(hw) + seq![
        "\n=== Docker Status ==="@,
        if docker_installed { "Docker is installed."@ } else { "Docker is NOT installed."@ },
    ]
}

/// The server manager's status report: hardware facts and whether the
/// container engine is installed.
pub fn status_report(hw: &HardwareInfo, docker_installed: bool) -> (lines: Vec<String>)
    ensures
        lines@.map_values(|l: String| l@) == manager_status_text(*hw, docker_installed),
{
    let mut lines: Vec<String> = vec!["=== System Status ===".to_owned()];
    let mut hwl = hardware_report(hw);
    lines.append(&mut hwl);
    lines.push("\n=== Docker Status ===".to_owned());
    if docker_installed {
        lines.push("Docker is installed.".to_owned());
    } else {
        lines.push("Docker is NOT installed.".to_owned());
    }
    assert(lines@.map_values(|l: String| l@) =~= manager_status_text(*hw, docker_installed));
    lines
}

/// A row of the deployment summary: service (15 columns), URL (25), user (15), info.
pub open spec fn row_text(service: Seq<char>, url: Seq<char>, user: Seq<char>, info: Seq<char>) -> Seq<char> {
    padded(service, 15) + " | "@ + padded(url, 25) + " | "@ + padded(user, 15) + " | "@ + info
}

/// A generated secret as shown in the summary: its value, or `ERROR` when missing.
pub open spec fn secret_or_error(s: Option<Seq<char>>) -> Seq<char> {
    match s {
        Some(v) => v,
        None => "ERROR"@,
    }
}

/// The view of an optional text.
pub open spec fn opt_view(s: Option<String>) -> Option<Seq<char>> {
    match s {
        Some(v) => Some(v@),
        None => None,
    }
}

fn summary_row(service: &str, url: &str, user: &str, info: &str) -> (s: String)
    ensures
        s@ == row_text(service@, url@, user@, info@),
{
    let mut s = String::new();
    push_padded(&mut s, service, 15);
    s.append(" | ");
    push_padded(&mut s, url, 25);
    s.append(" | ");
    push_padded(&mut s, user, 15);
    s.append(" | ");
    s.append(info);
    s
}

fn secret_text(s: &Option<String>) -> (r: String)
    ensures
        r@ == secret_or_error(opt_view(*s)),
{
    match s {
        Some(v) => v.clone(),
        None => "ERROR".to_owned(),
    }
}

/// The deployment summary printed after a successful installation: where each
/// service is reached, with which user, and the generated credentials.
pub open spec fn summary_text(
    nextcloud: Option<Seq<char>>,
    vaultwarden: Option<Seq<char>>,
    yourls: Option<Seq<char>>,
) -> Seq<Seq<char>> {
    seq![
        "\n================================================================================="@,
        "                           DEPLOYMENT SUMMARY 🚀"@,
        "================================================================================="@,
        row_text("Service"@, "URL"@, "User"@, "Password / Info"@),
        row_text("-------"@, "---"@, "----"@, "---------------"@),
        row_text("Nginx Proxy"@, "http://<IP>:81"@, "admin@example.com"@, "changeme"@),
        row_text("Portainer"@, "http://<IP>:9000"@, "admin"@, "Set on first login"@),
        row_text("Nextcloud"@, "https://<IP>:4443"@, "admin"@, secret_or_error(nextcloud)),
        row_text("Vaultwarden"@, "http://<IP>:8001/admin"@, "(Token)"@, secret_or_error(vaultwarden)),
        row_text("Gitea"@, "http://<IP>:3000"@, "Register"@, "DB pre-configured"@),
        row_text("GLPI"@, "http://<IP>:8088"@, "glpi"@, "glpi (Change immediately!)"@),
        row_text("Yourls"@, "http://<IP>:8003/admin"@, "admin"@, secret_or_error(yourls)),
        row_text("Roundcube"@, "http://<IP>:8090"@, "-"@, "Login with Mail creds"@),
        row_text("MailServer"@, "PORTS: 25, 143..."@, "CLI"@, "docker exec -ti mailserver setup ..."@),
        row_text("Plex"@, "http://<IP>:32400/web"@, "-"@, "Follow Web Setup"@),
        row_text("ArrStack"@, "http://<IP>:8989 (Sonarr)"@, "-"@, "No auth by default"@),
        "=================================================================================\n"@,
        "NOTE: Replace <IP> with your server's IP address."@,
    ]
}

/// The lines of the deployment summary, given the generated Nextcloud admin
/// password, Vaultwarden admin token and Yourls admin password.
pub fn deployment_summary(
    nextcloud: &Option<String>,
    vaultwarden: &Option<String>,
    yourls: &Option<String>,
) -> (lines: Vec<String>)
    ensures
        lines@.map_values(|l: String| l@) == summary_text(opt_view(*nextcloud), opt_view(*vaultwarden), opt_view(*yourls)),
{
    let l0 = "\n=================================================================================".to_owned();
    let l1 = "                           DEPLOYMENT SUMMARY 🚀".to_owned();
    let l2 = "=================================================================================".to_owned();
    let l3 = summary_row("Service", "URL", "User", "Password / Info");
    let l4 = summary_row("-------", "---", "----", "---------------");
    let l5 = summary_row("Nginx Proxy", "http://<IP>:81", "admin@example.com", "changeme");
    let l6 = summary_row("Portainer", "http://<IP>:9000", "admin", "Set on first login");
    let l7 = summary_row("Nextcloud", "https://<IP>:4443", "admin", secret_text(nextcloud).as_str());
    let l8 = summary_row("Vaultwarden", "http://<IP>:8001/admin", "(Token)", secret_text(vaultwarden).as_str());
    let l9 = summary_row("Gitea", "http://<IP>:3000", "Register", "DB pre-configured");
    let l10 = summary_row("GLPI", "http://<IP>:8088", "glpi", "glpi (Change immediately!)");
    let l11 = summary_row("Yourls", "http://<IP>:8003/admin", "admin", secret_text(yourls).as_str());
    let l12 = summary_row("Roundcube", "http://<IP>:8090", "-", "Login with Mail creds");
    let l13 = summary_row("MailServer", "PORTS: 25, 143...", "CLI", "docker exec -ti mailserver setup ...");
    let l14 = summary_row("Plex", "http://<IP>:32400/web", "-", "Follow Web Setup");
    let l15 = summary_row("ArrStack", "http://<IP>:8989 (Sonarr)", "-", "No auth by default");
    let l16 = "=================================================================================\n".to_owned();
    let l17 = "NOTE: Replace <IP> with your server's IP address.".to_owned();
    let lines = vec![l0, l1, l2, l3, l4, l5, l6, l7, l8, l9, l10, l11, l12, l13, l14, l15, l16, l17];
    assert(lines@.map_values(|l: String| l@) =~= summary_text(opt_view(*nextcloud), opt_view(*vaultwarden), opt_view(*yourls)));
    lines
}

/// The server manager's status report says whether the container engine is
/// installed: the two reports of a host differ only in their last line, "Docker is
/// installed." for an installed engine and "Docker is NOT installed." for a missing
/// one; the lines before it are the hardware report.
pub proof fn law_manager_status_reports_docker(hw: HardwareInfo)
    ensures
        manager_status_text(hw, true).len() == 10,
        manager_status_text(hw, true).drop_last() == manager_status_text(hw, false).drop_last(),
        manager_status_text(hw, true).subrange(1, 8) == hardware_lines(hw),
        manager_status_text(hw, true).last() == "Docker is installed."@,
        manager_status_text(hw, false).last() == "Docker is NOT installed."@,
        manager_status_text(hw, true) != manager_status_text(hw, false),
{
    reveal_strlit("Docker is installed.");
    reveal_strlit("Docker is NOT installed.");
    let t = manager_status_text(hw, true);
    let f = manager_status_text(hw, false);
    assert(t.drop_last() =~= f.drop_last());
    assert(t.subrange(1, 8) =~= hardware_lines(hw));
    assert(t.last() != f.last()) by {
        assert("Docker is installed."@.len() != "Docker is NOT installed."@.len());
    }
}

/// A summary row whose service, URL and user fit their columns carries its info
/// from column 64 on, unchanged.
proof fn lemma_row_info(service: Seq<char>, url: Seq<char>, user: Seq<char>, info: Seq<char>)
    requires
        service.len() <= 15,
        url.len() <= 25,
        user.len() <= 15,
    ensures
        row_text(service, url, user, info).len() == 64 + info.len(),
        row_text(service, url, user, info).subrange(0, service.len() as int) == service,
        row_text(service, url, user, info).subrange(64, 64 + info.len() as int) == info,
{
    reveal_strlit(" | ");
    law_padded(service, 15);
    law_padded(url, 25);
    law_padded(user, 15);
    let r = row_text(service, url, user, info);
    assert(r.subrange(0, service.len() as int) =~= padded(service, 15).subrange(0, service.len() as int));
    assert(r.subrange(64, 64 + info.len() as int) =~= info);
}

/// The generated credentials are shown where they belong: the Nextcloud row ends
/// with the Nextcloud admin password, the Vaultwarden row with the admin token and
/// the Yourls row with the Yourls admin password, each `ERROR` when missing; each
/// of these rows depends on its own secret only.
pub proof fn law_summary_shows_secrets(
    nextcloud: Option<Seq<char>>,
    vaultwarden: Option<Seq<char>>,
    yourls: Option<Seq<char>>,
)
    ensures
        summary_text(nextcloud, vaultwarden, yourls).len() == 18,
        ({
            let l = summary_text(nextcloud, vaultwarden, yourls)[7];
            l.subrange(0, 9) == "Nextcloud"@ && l.subrange(64, l.len() as int) == secret_or_error(nextcloud)
        }),
        ({
            let l = summary_text(nextcloud, vaultwarden, yourls)[8];
            l.subrange(0, 11) == "Vaultwarden"@ && l.subrange(64, l.len() as int) == secret_or_error(vaultwarden)
        }),
        ({
            let l = summary_text(nextcloud, vaultwarden, yourls)[11];
            l.subrange(0, 6) == "Yourls"@ && l.subrange(64, l.len() as int) == secret_or_error(yourls)
        }),
        nextcloud matches Some(v) ==> secret_or_error(nextcloud) == v,
        nextcloud is None ==> secret_or_error(nextcloud) == "ERROR"@,
{
    reveal_strlit("Nextcloud");
    reveal_strlit("https://<IP>:4443");
    reveal_strlit("admin");
    reveal_strlit("Vaultwarden");
    reveal_strlit("http://<IP>:8001/admin");
    reveal_strlit("(Token)");
    reveal_strlit("Yourls");
    reveal_strlit("http://<IP>:8003/admin");
    lemma_row_info("Nextcloud"@, "https://<IP>:4443"@, "admin"@, secret_or_error(nextcloud));
    lemma_row_info("Vaultwarden"@, "http://<IP>:8001/admin"@, "(Token)"@, secret_or_error(vaultwarden));
    lemma_row_info("Yourls"@, "http://<IP>:8003/admin"@, "admin"@, secret_or_error(yourls));
    let t = summary_text(nextcloud, vaultwarden, yourls);
    let l7 = t[7];
    assert(l7.subrange(64, l7.len() as int) =~= l7.subrange(64, 64 + secret_or_error(nextcloud).len() as int));
    let l8 = t[8];
    assert(l8.subrange(64, l8.len() as int) =~= l8.subrange(64, 64 + secret_or_error(vaultwarden).len() as int));
    let l11 = t[11];
    assert(l11.subrange(64, l11.len() as int) =~= l11.subrange(64, 64 + secret_or_error(yourls).len() as int));
}

/// The server manager's user table has a header, a rule and then one row per
/// account, in the order given; a name of at most twenty characters fills column
/// twenty with spaces, followed by ` | ` and the account's role.
pub proof fn law_manager_user_table_rows(users: Seq<crate::users::UserView>, i: int)
    requires
        0 <= i < users.len(),
        users[i].username.len() <= 20,
    ensures
        manager_user_table_text(users).len() == users.len() + 2,
        ({
            let row = manager_user_table_text(users)[i + 2];
            &&& row.len() == 23 + role_name(users[i].role).len()
            &&& row.subrange(0, users[i].username.len() as int) == users[i].username
            &&& forall|j: int| users[i].username.len() <= j < 20 ==> #[trigger] row[j] == ' '
            &&& row.subrange(20, 23) == " | "@
            &&& row.subrange(23, row.len() as int) == role_name(users[i].role)
        }),
{
    reveal_strlit(" | ");
    let u = users[i];
    let row = manager_user_table_text(users)[i + 2];
    assert(row == padded(u.username, 20) + " | "@ + role_name(u.role));
    law_padded(u.username, 20);
    let p = padded(u.username, 20);
    assert(row.subrange(0, u.username.len() as int) =~= p.subrange(0, u.username.len() as int));
    assert forall|j: int| u.username.len() <= j < 20 implies #[trigger] row[j] == ' ' by {
        assert(row[j] == p[j]);
    }
    assert(row.subrange(20, 23) =~= " | "@);
    assert(row.subrange(23, row.len() as int) =~= role_name(u.role));
}

} // verus!
