//! Verified core of the AETHERIS server orchestrator and of its server-manager
//! front end: hardware profiling, the user registry, the host-level commands the
//! orchestrator issues, the order of its installation steps, and the reports it
//! prints.
pub mod hardware;
pub mod users;
pub mod text;
pub mod runtime;
pub mod mock;
pub mod host;
pub mod install;
pub mod accounts;
pub mod cli;
pub mod manager_cli;

pub use hardware::{HardwareInfo, HardwareProfile, HardwareSpecs};
pub use users::{Role, User, UserError, UserManager};
