//! Trusted boundary to the outside crates that read live host state.
//! Every result here depends on the machine the program runs on, so the
//! wrappers promise nothing about the values; the verified code around
//! them handles every value they could hand back.
use vstd::prelude::*;

verus! {

#[verifier::external_type_specification]
#[verifier::external_body]
pub struct ExSystem(sysinfo::System);

/// Relies on sysinfo::System::new_all: refreshes and returns a record of
/// the running system's state.
#[verifier::external_body]
pub(crate) fn probe_system() -> sysinfo::System {
    sysinfo::System::new_all()
}

/// Relies on sysinfo::System::uptime: seconds since the system booted.
#[verifier::external_body]
pub(crate) fn system_uptime_seconds() -> u64 {
    sysinfo::System::uptime()
}

/// Relies on sysinfo::System::total_memory: total RAM in bytes.
#[verifier::external_body]
pub(crate) fn system_total_memory_bytes(sys: &sysinfo::System) -> u64 {
    sys.total_memory()
}

/// Relies on sysinfo::System::used_memory: RAM in use, in bytes.
#[verifier::external_body]
pub(crate) fn system_used_memory_bytes(sys: &sysinfo::System) -> u64 {
    sys.used_memory()
}

/// Relies on sysinfo::System::cpus and sysinfo::Cpu::brand: the brand
/// string of the first enumerated CPU, or nothing when none is listed.
#[verifier::external_body]
pub(crate) fn system_cpu_brand(sys: &sysinfo::System) -> Option<String> {
    match sys.cpus().first() {
        Some(cpu) => Some(cpu.brand().to_string()),
        None => None,
    }
}

/// Relies on os_info::get and the Display rendering of os_info::Info: a
/// human-readable operating-system name and, where known, its version.
#[verifier::external_body]
pub(crate) fn os_descriptor() -> String {
    os_info::get().to_string()
}

/// Relies on whoami::username: the current user's login name, or nothing
/// when the platform query fails.
#[verifier::external_body]
pub(crate) fn login_username() -> Option<String> {
    whoami::username().ok()
}

/// Relies on whoami::hostname: the host's name, or nothing when the
/// platform query fails.
#[verifier::external_body]
pub(crate) fn host_name() -> Option<String> {
    whoami::hostname().ok()
}

} // verus!
