use vstd::prelude::*;
use crate::hardware::HardwareSpecs;

verus! {

/// A host simulated in memory for the orchestrator: its hardware is
/// `specs`, and every host operation on it succeeds.
pub struct MockRuntime {
    pub specs: HardwareSpecs,
}

impl Default for MockRuntime {
    /// An 8 GB, 4-core host with 2 GB swap and 512 GB disk, and no GPU.
    fn default() -> (m: Self)
        ensures
            m.specs.ram_gb == 8 && m.specs.swap_gb == 2 && m.specs.cpu_cores == 4,
            m.specs.disk_gb == 512 && !m.specs.has_nvidia && !m.specs.has_intel_quicksync,
    {
        MockRuntime {
            specs: HardwareSpecs {
                ram_gb: 8,
                swap_gb: 2,
                cpu_cores: 4,
                disk_gb: 512,
                has_nvidia: false,
                has_intel_quicksync: false,
            },
        }
    }
}

impl MockRuntime {
    /// The simulated hardware, as a probe of this host reports it.
    pub fn detect_hardware(&self) -> (s: HardwareSpecs)
        ensures
            s == self.specs,
    {
        HardwareSpecs {
            ram_gb: self.specs.ram_gb,
            swap_gb: self.specs.swap_gb,
            cpu_cores: self.specs.cpu_cores,
            disk_gb: self.specs.disk_gb,
            has_nvidia: self.specs.has_nvidia,
            has_intel_quicksync: self.specs.has_intel_quicksync,
        }
    }
}

} // verus!
