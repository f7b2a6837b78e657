use vstd::prelude::*;

verus! {

/// Resource class of a host, used to size the deployed services.
#[derive(Debug, Clone, Copy, PartialEq, Eq, Structural)]
pub enum HardwareProfile {
    /// Less than 4 GB of RAM, at most two cores, or a small machine without swap.
    Low,
    /// 4 to 16 GB of RAM.
    Standard,
    /// More than 16 GB of RAM.
    High,
}

/// Raw facts about the host as a probe reports them.
#[derive(Debug, Clone)]
pub struct HardwareSpecs {
    pub ram_gb: u64,
    pub swap_gb: u64,
    pub cpu_cores: usize,
    pub disk_gb: u64,
    pub has_nvidia: bool,
    pub has_intel_quicksync: bool,
}

/// Facts about the host together with the profile derived from them and the
/// identity (uid, gid) under which the services run.
#[derive(Debug, Clone)]
pub struct HardwareInfo {
    pub profile: HardwareProfile,
    pub ram_gb: u64,
    pub cpu_cores: usize,
    pub has_nvidia: bool,
    pub has_intel_quicksync: bool,
    pub disk_gb: u64,
    pub swap_gb: u64,
    pub user_id: String,
    pub group_id: String,
}

/// The profile rule: more than 16 GB is High; under 4 GB or at most two cores
/// is Low; otherwise Standard, except that under 8 GB with no swap at all the
/// host is downgraded to Low.
pub open spec fn profile_for(ram_gb: u64, cpu_cores: usize, swap_gb: u64) -> HardwareProfile {
    if ram_gb > 16 {
        HardwareProfile::High
    } else if ram_gb < 4 || cpu_cores <= 2 {
        HardwareProfile::Low
    } else if ram_gb < 8 && swap_gb < 1 {
        HardwareProfile::Low
    } else {
        HardwareProfile::Standard
    }
}

impl HardwareInfo {
    /// Builds the host description from probed specs and the service identity.
    pub fn from_specs(specs: HardwareSpecs, user_id: String, group_id: String) -> (hw: Self)
        ensures
            hw.profile == profile_for(specs.ram_gb, specs.cpu_cores, specs.swap_gb),
            hw.ram_gb == specs.ram_gb,
            hw.cpu_cores == specs.cpu_cores,
            hw.has_nvidia == specs.has_nvidia,
            hw.has_intel_quicksync == specs.has_intel_quicksync,
            hw.disk_gb == specs.disk_gb,
            hw.swap_gb == specs.swap_gb,
            hw.user_id@ == user_id@,
            hw.group_id@ == group_id@,
    {
        let profile = Self::evaluate_profile(specs.ram_gb, specs.cpu_cores, specs.swap_gb);
        HardwareInfo {
            profile,
            ram_gb: specs.ram_gb,
            cpu_cores: specs.cpu_cores,
            has_nvidia: specs.has_nvidia,
            has_intel_quicksync: specs.has_intel_quicksync,
            disk_gb: specs.disk_gb,
            swap_gb: specs.swap_gb,
            user_id,
            group_id,
        }
    }

    /// Classifies a host by RAM, core count and swap (see `profile_for`).
    pub fn evaluate_profile(ram_gb: u64, cpu_cores: usize, swap_gb: u64) -> (p: HardwareProfile)
        ensures
            p == profile_for(ram_gb, cpu_cores, swap_gb),
    {
        if ram_gb > 16 {
            HardwareProfile::High
        } else if ram_gb < 4 || cpu_cores <= 2 {
            HardwareProfile::Low
        } else {
            if ram_gb < 8 && swap_gb < 1 {
                HardwareProfile::Low
            } else {
                HardwareProfile::Standard
            }
        }
    }
}


/// Position of a profile in the order Low < Standard < High.
pub open spec fn profile_rank(p: HardwareProfile) -> int {
    match p {
        HardwareProfile::Low => 0,
        HardwareProfile::Standard => 1,
        HardwareProfile::High => 2,
    }
}

/// A host with more than 16 GB of RAM is High whatever its cores and swap.
pub proof fn law_high_ram_ignores_cores_and_swap(ram_gb: u64, cpu_cores: usize, swap_gb: u64)
    requires
        ram_gb > 16,
    ensures
        profile_for(ram_gb, cpu_cores, swap_gb) == HardwareProfile::High,
{
}

/// More RAM, more cores or more swap never yields a lower profile.
pub proof fn law_profile_monotone(
    ram1: u64,
    cores1: usize,
    swap1: u64,
    ram2: u64,
    cores2: usize,
    swap2: u64,
)
    requires
        ram1 <= ram2,
        cores1 <= cores2,
        swap1 <= swap2,
    ensures
        profile_rank(profile_for(ram1, cores1, swap1)) <= profile_rank(profile_for(ram2, cores2, swap2)),
{
}

/// A host with less than 4 GB of RAM, or with at most two cores, is Low
/// unless it has more than 16 GB of RAM.
pub proof fn law_small_hosts_are_low(ram_gb: u64, cpu_cores: usize, swap_gb: u64)
    requires
        ram_gb <= 16,
        ram_gb < 4 || cpu_cores <= 2,
    ensures
        profile_for(ram_gb, cpu_cores, swap_gb) == HardwareProfile::Low,
{
}

/// Between 8 and 16 GB of RAM with more than two cores the host is Standard,
/// with or without swap.
pub proof fn law_mid_range_is_standard(ram_gb: u64, cpu_cores: usize, swap_gb: u64)
    requires
        8 <= ram_gb <= 16,
        cpu_cores > 2,
    ensures
        profile_for(ram_gb, cpu_cores, swap_gb) == HardwareProfile::Standard,
{
}

/// Under 8 GB of RAM with no swap at all the host is Low, whatever its core
/// count; between 4 and 8 GB with more than two cores and some swap it is
/// Standard.
pub proof fn law_small_ram_without_swap_is_low(ram_gb: u64, cpu_cores: usize, swap_gb: u64)
    ensures
        ram_gb < 8 && swap_gb == 0 ==> profile_for(ram_gb, cpu_cores, swap_gb) == HardwareProfile::Low,
        4 <= ram_gb < 8 && cpu_cores > 2 && swap_gb >= 1 ==> profile_for(ram_gb, cpu_cores, swap_gb)
            == HardwareProfile::Standard,
{
}

} // verus!
