use vstd::prelude::*;
use crate::hardware::HardwareInfo;

verus! {

/// A failed host operation, with its reason as text.
#[derive(Debug, Clone)]
pub struct RuntimeError {
    pub message: String,
}

/// Host-level operations used to prepare and administer a machine.
/// Paths are given as text.
pub trait SystemRuntime {
    fn check_root(&self) -> Result<(), RuntimeError>;

    fn install_dependencies(&self) -> Result<(), RuntimeError>;

    fn apply_optimizations(&self, hw: &HardwareInfo) -> Result<(), RuntimeError>;

    fn create_system_user(&self, username: &str, password: &str) -> Result<(), RuntimeError>;

    fn delete_system_user(&self, username: &str) -> Result<(), RuntimeError>;

    fn set_system_user_password(&self, username: &str, password: &str) -> Result<(), RuntimeError>;

    fn set_system_quota(&self, username: &str, quota_gb: u64) -> Result<(), RuntimeError>;

    fn configure_firewall(&self) -> Result<(), RuntimeError>;

    fn get_uid(&self, username: &str) -> Result<u32, RuntimeError>;

    fn create_dir_all(&self, path: &str) -> Result<(), RuntimeError>;

    fn write_file(&self, path: &str, content: &str) -> Result<(), RuntimeError>;

    fn file_exists(&self, path: &str) -> bool;

    fn stop_and_disable_service(&self, service_name: &str) -> Result<(), RuntimeError>;
}

/// Installation and control of the container engine.
pub trait DockerRuntime {
    fn is_installed(&self) -> bool;

    fn install(&self) -> Result<(), RuntimeError>;

    fn run_compose_up(&self) -> Result<(), RuntimeError>;
}

/// Discovery of the host's resources and of the identity to run services under.
pub trait HardwareProbe {
    /// RAM, swap (GB), cores, disk (GB).
    fn detect_hardware(&self) -> (u64, u64, usize, u64);

    fn has_nvidia(&self) -> bool;

    fn has_intel_quicksync(&self) -> bool;

    fn detect_user_context(&self) -> (String, String);
}

/// A host simulated in memory: every system operation succeeds, the hardware is
/// what the fields say, and the container engine fails when `docker_fail` is set.
pub struct MockRuntime {
    pub ram_gb: u64,
    pub swap_gb: u64,
    pub cpu_cores: usize,
    pub disk_gb: u64,
    pub has_nvidia: bool,
    pub has_intel_quicksync: bool,
    pub docker_installed: bool,
    pub docker_fail: bool,
}

impl Default for MockRuntime {
    /// An 8 GB, 4-core host with 2 GB swap and 512 GB disk, no GPU, with a
    /// working container engine.
    fn default() -> (m: Self)
        ensures
            m.ram_gb == 8 && m.swap_gb == 2 && m.cpu_cores == 4 && m.disk_gb == 512,
            !m.has_nvidia && !m.has_intel_quicksync,
            m.docker_installed && !m.docker_fail,
    {
        MockRuntime {
            ram_gb: 8,
            swap_gb: 2,
            cpu_cores: 4,
            disk_gb: 512,
            has_nvidia: false,
            has_intel_quicksync: false,
            docker_installed: true,
            docker_fail: false,
        }
    }
}

fn mock_failure(text: &str) -> (e: RuntimeError)
    ensures
        e.message@ == text@,
{
    RuntimeError { message: text.to_owned() }
}

impl SystemRuntime for MockRuntime {
    fn check_root(&self) -> (r: Result<(), RuntimeError>)
        ensures r is Ok,
    {
        Ok(())
    }

    fn install_dependencies(&self) -> (r: Result<(), RuntimeError>)
        ensures r is Ok,
    {
        Ok(())
    }

    fn apply_optimizations(&self, hw: &HardwareInfo) -> (r: Result<(), RuntimeError>)
        ensures r is Ok,
    {
        Ok(())
    }

    fn create_system_user(&self, username: &str, password: &str) -> (r: Result<(), RuntimeError>)
        ensures r is Ok,
    {
        Ok(())
    }

    fn delete_system_user(&self, username: &str) -> (r: Result<(), RuntimeError>)
        ensures r is Ok,
    {
        Ok(())
    }

    fn set_system_user_password(&self, username: &str, password: &str) -> (r: Result<(), RuntimeError>)
        ensures r is Ok,
    {
        Ok(())
    }

    fn set_system_quota(&self, username: &str, quota_gb: u64) -> (r: Result<(), RuntimeError>)
        ensures r is Ok,
    {
        Ok(())
    }

    fn configure_firewall(&self) -> (r: Result<(), RuntimeError>)
        ensures r is Ok,
    {
        Ok(())
    }

    fn get_uid(&self, username: &str) -> (r: Result<u32, RuntimeError>)
        ensures r matches Ok(uid) && uid == 1000,
    {
        Ok(1000)
    }

    fn create_dir_all(&self, path: &str) -> (r: Result<(), RuntimeError>)
        ensures r is Ok,
    {
        Ok(())
    }

    fn write_file(&self, path: &str, content: &str) -> (r: Result<(), RuntimeError>)
        ensures r is Ok,
    {
        Ok(())
    }

    fn file_exists(&self, path: &str) -> (b: bool)
        ensures !b,
    {
        false
    }

    fn stop_and_disable_service(&self, service_name: &str) -> (r: Result<(), RuntimeError>)
        ensures r is Ok,
    {
        Ok(())
    }
}

impl DockerRuntime for MockRuntime {
    fn is_installed(&self) -> (b: bool)
        ensures b == self.docker_installed,
    {
        self.docker_installed
    }

    fn install(&self) -> (r: Result<(), RuntimeError>)
        ensures
            r is Err <==> self.docker_fail,
            r matches Err(e) ==> e.message@ == "Mock Docker install failure"@,
    {
        if self.docker_fail {
            return Err(mock_failure("Mock Docker install failure"));
        }
        Ok(())
    }

    fn run_compose_up(&self) -> (r: Result<(), RuntimeError>)
        ensures
            r is Err <==> self.docker_fail,
            r matches Err(e) ==> e.message@ == "Mock Docker compose failure"@,
    {
        if self.docker_fail {
            return Err(mock_failure("Mock Docker compose failure"));
        }
        Ok(())
    }
}

impl HardwareProbe for MockRuntime {
    fn detect_hardware(&self) -> (r: (u64, u64, usize, u64))
        ensures r == (self.ram_gb, self.swap_gb, self.cpu_cores, self.disk_gb),
    {
        (self.ram_gb, self.swap_gb, self.cpu_cores, self.disk_gb)
    }

    fn has_nvidia(&self) -> (b: bool)
        ensures b == self.has_nvidia,
    {
        self.has_nvidia
    }

    fn has_intel_quicksync(&self) -> (b: bool)
        ensures b == self.has_intel_quicksync,
    {
        self.has_intel_quicksync
    }

    fn detect_user_context(&self) -> (r: (String, String))
        ensures r.0@ == "1000"@ && r.1@ == "1000"@,
    {
        ("1000".to_owned(), "1000".to_owned())
    }
}

} // verus!
