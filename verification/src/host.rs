use vstd::prelude::*;
use crate::hardware::HardwareSpecs;
use crate::text::{decimal, decimal_string, digits_value, law_decimal_reads_back, push_decimal};

verus! {

/// Kernel swappiness for a host: 1 above 16 GB of RAM, 10 otherwise.
pub open spec fn swappiness_for(ram_gb: u64) -> u64 {
    if ram_gb > 16 { 1 } else { 10 }
}

/// Kernel swappiness for a host: 1 above 16 GB of RAM, 10 otherwise.
pub fn swappiness(ram_gb: u64) -> (s: u64)
    ensures
        s == swappiness_for(ram_gb),
{
    if ram_gb > 16 { 1 } else { 10 }
}

/// The sysctl drop-in written by the optimization step.
pub open spec fn sysctl_text(ram_gb: u64) -> Seq<char> {
    "vm.swappiness="@ + decimal(swappiness_for(ram_gb) as nat) + "\nfs.inotify.max_user_watches=524288\n"@
}

/// The sysctl drop-in written by the optimization step: the swappiness for the
/// host's RAM and a raised inotify watch limit.
pub fn sysctl_config(ram_gb: u64) -> (s: String)
    ensures
        s@ == sysctl_text(ram_gb),
{
    let mut s = String::new();
    s.append("vm.swappiness=");
    push_decimal(&mut s, swappiness(ram_gb));
    s.append("\nfs.inotify.max_user_watches=524288\n");
    assert(s@ =~= sysctl_text(ram_gb));
    s
}

/// Number of 1 KiB quota blocks in `quota_gb` gigabytes.
pub fn quota_blocks(quota_gb: u64) -> (b: u64)
    requires
        quota_gb * 1048576 <= u64::MAX,
    ensures
        b == quota_gb * 1048576,
{
    quota_gb * 1024 * 1024
}

/// Arguments of `setquota` limiting `username` to `quota_gb` GB on `/home`
/// (soft and hard block limits, no inode limits).
pub fn setquota_args(username: &str, quota_gb: u64) -> (a: Vec<String>)
    requires
        quota_gb * 1048576 <= u64::MAX,
    ensures
        a@.len() == 7,
        a@[0]@ == "-u"@,
        a@[1]@ == username@,
        a@[2]@ == decimal((quota_gb * 1048576) as nat),
        a@[3]@ == decimal((quota_gb * 1048576) as nat),
        a@[4]@ == "0"@,
        a@[5]@ == "0"@,
        a@[6]@ == "/home"@,
{
    let blocks = quota_blocks(quota_gb);
    vec![
        "-u".to_owned(),
        username.to_owned(),
        decimal_string(blocks),
        decimal_string(blocks),
        "0".to_owned(),
        "0".to_owned(),
        "/home".to_owned(),
    ]
}

/// The line fed to `chpasswd`: `username:password`.
pub fn chpasswd_input(username: &str, password: &str) -> (s: String)
    ensures
        s@ == username@ + ":"@ + password@,
{
    let mut s = username.to_owned();
    s.append(":");
    s.append(password);
    s
}

/// Arguments of `useradd` creating `username` with a home and bash as shell.
pub fn useradd_args(username: &str) -> (a: Vec<String>)
    ensures
        a@.len() == 4,
        a@[0]@ == "-m"@,
        a@[1]@ == "-s"@,
        a@[2]@ == "/bin/bash"@,
        a@[3]@ == username@,
{
    vec!["-m".to_owned(), "-s".to_owned(), "/bin/bash".to_owned(), username.to_owned()]
}

/// Arguments of `userdel` removing `username` and its home.
pub fn userdel_args(username: &str) -> (a: Vec<String>)
    ensures
        a@.len() == 2,
        a@[0]@ == "-r"@,
        a@[1]@ == username@,
{
    vec!["-r".to_owned(), username.to_owned()]
}

/// The system packages installed before the stack.
pub open spec fn base_package_names() -> Seq<Seq<char>> {
    seq![
        "curl"@, "git"@, "ufw"@, "lsb-release"@, "ca-certificates"@, "gnupg"@,
        "htop"@, "iotop"@, "net-tools"@, "quota"@, "build-essential"@,
    ]
}

/// The system packages installed before the stack.
pub fn base_packages() -> (p: Vec<String>)
    ensures
        p@.len() == base_package_names().len(),
        forall|i: int| 0 <= i < p@.len() ==> (#[trigger] p@[i])@ == base_package_names()[i],
{
    let p = vec![
        "curl".to_owned(), "git".to_owned(), "ufw".to_owned(), "lsb-release".to_owned(),
        "ca-certificates".to_owned(), "gnupg".to_owned(), "htop".to_owned(), "iotop".to_owned(),
        "net-tools".to_owned(), "quota".to_owned(), "build-essential".to_owned(),
    ];
    assert forall|i: int| 0 <= i < p@.len() implies (#[trigger] p@[i])@ == base_package_names()[i] by {
        assert(p@[i]@ == seq![
            "curl"@, "git"@, "ufw"@, "lsb-release"@, "ca-certificates"@, "gnupg"@,
            "htop"@, "iotop"@, "net-tools"@, "quota"@, "build-essential"@,
        ][i]);
    }
    p
}

/// The `ufw` invocations of the firewall step, in order: deny incoming, allow
/// outgoing, allow ssh, then force-enable.
pub fn firewall_rules() -> (r: Vec<Vec<String>>)
    ensures
        r@.len() == 4,
        r@[0]@.len() == 3 && r@[0]@[0]@ == "default"@ && r@[0]@[1]@ == "deny"@ && r@[0]@[2]@ == "incoming"@,
        r@[1]@.len() == 3 && r@[1]@[0]@ == "default"@ && r@[1]@[1]@ == "allow"@ && r@[1]@[2]@ == "outgoing"@,
        r@[2]@.len() == 2 && r@[2]@[0]@ == "allow"@ && r@[2]@[1]@ == "ssh"@,
        r@[3]@.len() == 2 && r@[3]@[0]@ == "--force"@ && r@[3]@[1]@ == "enable"@,
{
    vec![
        vec!["default".to_owned(), "deny".to_owned(), "incoming".to_owned()],
        vec!["default".to_owned(), "allow".to_owned(), "outgoing".to_owned()],
        vec!["allow".to_owned(), "ssh".to_owned()],
        vec!["--force".to_owned(), "enable".to_owned()],
    ]
}

/// Arguments of `docker` bringing the stack up detached, removing orphans.
pub fn compose_up_args() -> (a: Vec<String>)
    ensures
        a@.len() == 4,
        a@[0]@ == "compose"@,
        a@[1]@ == "up"@,
        a@[2]@ == "-d"@,
        a@[3]@ == "--remove-orphans"@,
{
    vec!["compose".to_owned(), "up".to_owned(), "-d".to_owned(), "--remove-orphans".to_owned()]
}

/// Whole gigabytes (GiB) in a byte count, rounded down.
pub fn bytes_to_gb(bytes: u64) -> (g: u64)
    ensures
        g == bytes / 1073741824,
{
    bytes / 1024 / 1024 / 1024
}

/// Sum of a list of byte counts.
pub open spec fn total(s: Seq<u64>) -> int
    decreases s.len(),
{
    if s.len() == 0 {
        0
    } else {
        total(s.drop_last()) + s.last()
    }
}

/// Total size in whole GiB of disks of the given byte sizes.
pub fn total_disk_gb(disk_bytes: &Vec<u64>) -> (g: u64)
    requires
        total(disk_bytes@) <= u64::MAX,
    ensures
        g == total(disk_bytes@) / 1073741824,
{
    let mut sum: u64 = 0;
    let n = disk_bytes.len();
    for i in 0..n
        invariant
            n == disk_bytes@.len(),
            total(disk_bytes@) <= u64::MAX,
            sum == total(disk_bytes@.take(i as int)),
    {
        proof {
            assert(disk_bytes@.take(i + 1).drop_last() =~= disk_bytes@.take(i as int));
            lemma_total_prefix(disk_bytes@, i + 1);
        }
        sum = sum + disk_bytes[i];
    }
    assert(disk_bytes@.take(n as int) =~= disk_bytes@);
    bytes_to_gb(sum)
}

/// The total of a prefix never exceeds the total of the whole list.
pub proof fn lemma_total_prefix(s: Seq<u64>, k: int)
    requires
        0 <= k <= s.len(),
    ensures
        total(s.take(k)) <= total(s),
    decreases s.len(),
{
    if k < s.len() {
        assert(s.drop_last().take(k) =~= s.take(k));
        lemma_total_prefix(s.drop_last(), k);
    } else {
        assert(s.take(k) =~= s);
    }
}

/// An NVIDIA GPU is usable for containers when `nvidia-smi` is present together
/// with the container CLI or the container runtime.
pub fn nvidia_available(has_smi: bool, has_container_cli: bool, has_container_runtime: bool) -> (b: bool)
    ensures
        b == (has_smi && (has_container_cli || has_container_runtime)),
{
    has_smi && (has_container_cli || has_container_runtime)
}

/// Host specs from raw probe readings: memory, swap and disk sizes in bytes
/// (rounded down to whole GiB), the core count, the GPU tools found and whether
/// the DRI device directory exists (Intel QuickSync).
pub fn specs_from_probe(
    total_memory_bytes: u64,
    total_swap_bytes: u64,
    cpu_count: usize,
    disk_bytes: &Vec<u64>,
    has_smi: bool,
    has_container_cli: bool,
    has_container_runtime: bool,
    has_dri: bool,
) -> (s: HardwareSpecs)
    requires
        total(disk_bytes@) <= u64::MAX,
    ensures
        s.ram_gb == total_memory_bytes / 1073741824,
        s.swap_gb == total_swap_bytes / 1073741824,
        s.cpu_cores == cpu_count,
        s.disk_gb == total(disk_bytes@) / 1073741824,
        s.has_nvidia == (has_smi && (has_container_cli || has_container_runtime)),
        s.has_intel_quicksync == has_dri,
{
    HardwareSpecs {
        ram_gb: bytes_to_gb(total_memory_bytes),
        swap_gb: bytes_to_gb(total_swap_bytes),
        cpu_cores: cpu_count,
        disk_gb: total_disk_gb(disk_bytes),
        has_nvidia: nvidia_available(has_smi, has_container_cli, has_container_runtime),
        has_intel_quicksync: has_dri,
    }
}

/// The (uid, gid) the services run under: the `SUDO_UID`/`SUDO_GID` pair when
/// both are set, otherwise the ids of the `SUDO_USER` account when it was found,
/// otherwise 1000/1000.
pub open spec fn user_context(
    sudo_uid: Option<Seq<char>>,
    sudo_gid: Option<Seq<char>>,
    sudo_user_ids: Option<(u32, u32)>,
) -> (Seq<char>, Seq<char>) {
    if sudo_uid is Some && sudo_gid is Some {
        (sudo_uid->0, sudo_gid->0)
    } else {
        match sudo_user_ids {
            Some((uid, gid)) => (decimal(uid as nat), decimal(gid as nat)),
            None => ("1000"@, "1000"@),
        }
    }
}

/// The (uid, gid) the services run under (see `user_context`).
pub fn resolve_user_context(
    sudo_uid: Option<String>,
    sudo_gid: Option<String>,
    sudo_user_ids: Option<(u32, u32)>,
) -> (r: (String, String))
    ensures
        (r.0@, r.1@) == user_context(
            match sudo_uid { Some(s) => Some(s@), None => None },
            match sudo_gid { Some(s) => Some(s@), None => None },
            sudo_user_ids,
        ),
{
    match (sudo_uid, sudo_gid) {
        (Some(uid), Some(gid)) => (uid, gid),
        _ => match sudo_user_ids {
            Some((uid, gid)) => (decimal_string(uid as u64), decimal_string(gid as u64)),
            None => ("1000".to_owned(), "1000".to_owned()),
        },
    }
}

/// Swappiness follows the hardware profile: 1 exactly on the hosts classed High
/// (more than 16 GB of RAM), 10 on every other host.
pub proof fn law_swappiness_follows_profile(ram_gb: u64, cpu_cores: usize, swap_gb: u64)
    ensures
        (swappiness_for(ram_gb) == 1) == (crate::hardware::profile_for(ram_gb, cpu_cores, swap_gb)
            == crate::hardware::HardwareProfile::High),
        swappiness_for(ram_gb) == 1 || swappiness_for(ram_gb) == 10,
        ram_gb <= 16 ==> swappiness_for(ram_gb) == 10,
{
}

/// The total of two lists one after the other is the sum of their totals, and the
/// total of a single size is that size.
pub proof fn law_total_additive(s: Seq<u64>, t: Seq<u64>, x: u64)
    ensures
        total(s + t) == total(s) + total(t),
        total(seq![x]) == x,
    decreases t.len(),
{
    let one = seq![x];
    assert(one.drop_last() =~= Seq::<u64>::empty());
    assert(total(one) == total(one.drop_last()) + one.last());
    if t.len() == 0 {
        assert(s + t =~= s);
    } else {
        law_total_additive(s, t.drop_last(), x);
        assert((s + t).drop_last() =~= s + t.drop_last());
        assert((s + t).last() == t.last());
    }
}

/// Which identity the services run under: the sudo ids as given when both are
/// set, whatever the account lookup found; otherwise the looked-up account's ids
/// in decimal; otherwise 1000/1000. The result never depends on the account
/// lookup when both sudo ids are set, nor on a single sudo id that is set alone.
pub proof fn law_user_context_choice(
    uid: Seq<char>,
    gid: Seq<char>,
    ids: Option<(u32, u32)>,
    other_ids: Option<(u32, u32)>,
    lone: Option<Seq<char>>,
)
    ensures
        user_context(Some(uid), Some(gid), ids) == (uid, gid),
        user_context(Some(uid), Some(gid), ids) == user_context(Some(uid), Some(gid), other_ids),
        lone is Some ==> user_context(lone, None, ids) == user_context(None, None, ids)
            && user_context(None, lone, ids) == user_context(None, None, ids),
        ids matches Some((u, g)) ==> digits_value(user_context(None, None, ids).0) == u
            && digits_value(user_context(None, None, ids).1) == g,
        ids is None ==> user_context(None, None, ids) == ("1000"@, "1000"@),
{
    if let Some((u, g)) = ids {
        law_decimal_reads_back(u as nat);
        law_decimal_reads_back(g as nat);
    }
}

/// The sysctl drop-in sets the swappiness for the host's RAM: after
/// `vm.swappiness=` come the decimal digits of `swappiness_for(ram_gb)`, then the
/// raised inotify watch limit on a line of its own.
pub proof fn law_sysctl_reads_back(ram_gb: u64)
    ensures
        ({
            let t = sysctl_text(ram_gb);
            &&& t.subrange(0, 14) == "vm.swappiness="@
            &&& digits_value(t.subrange(14, t.len() - 36)) == swappiness_for(ram_gb)
            &&& t.subrange(t.len() - 36, t.len() as int) == "\nfs.inotify.max_user_watches=524288\n"@
        }),
{
    reveal_strlit("vm.swappiness=");
    reveal_strlit("\nfs.inotify.max_user_watches=524288\n");
    law_decimal_reads_back(swappiness_for(ram_gb) as nat);
    let t = sysctl_text(ram_gb);
    assert(t.subrange(0, 14) =~= "vm.swappiness="@);
    assert(t.subrange(14, t.len() - 36) =~= decimal(swappiness_for(ram_gb) as nat));
    assert(t.subrange(t.len() - 36, t.len() as int) =~= "\nfs.inotify.max_user_watches=524288\n"@);
}

} // verus!
