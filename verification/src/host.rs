//! The snapshot of host facts, and its best-effort collection: every
//! query either yields a live value or falls back to a fixed placeholder,
//! and none of them can abort the program.
use vstd::prelude::*;
use vstd::string::StringExecFns;
use crate::sys::{
    host_name, login_username, os_descriptor, probe_system, system_cpu_brand,
    system_total_memory_bytes, system_uptime_seconds, system_used_memory_bytes,
};

verus! {

/// The mathematical content of a `HostSnapshot`.
pub struct HostView {
    pub username: Seq<char>,
    pub hostname: Seq<char>,
    pub distro: Seq<char>,
    pub kernel: Seq<char>,
    pub uptime_seconds: nat,
    pub shell: Seq<char>,
    pub cpu_brand: Seq<char>,
    pub total_memory_kib: nat,
    pub used_memory_kib: nat,
}

/// One immutable record of host facts, populated once per run and then
/// only read. Memory figures are in kibibytes.
pub struct HostSnapshot {
    pub username: String,
    pub hostname: String,
    pub distro: String,
    pub kernel: String,
    pub uptime_seconds: u64,
    pub shell: String,
    pub cpu_brand: String,
    pub total_memory_kib: u64,
    pub used_memory_kib: u64,
}

impl View for HostSnapshot {
    type V = HostView;

    open spec fn view(&self) -> HostView {
        HostView {
            username: self.username@,
            hostname: self.hostname@,
            distro: self.distro@,
            kernel: self.kernel@,
            uptime_seconds: self.uptime_seconds as nat,
            shell: self.shell@,
            cpu_brand: self.cpu_brand@,
            total_memory_kib: self.total_memory_kib as nat,
            used_memory_kib: self.used_memory_kib as nat,
        }
    }
}

impl HostSnapshot {
    /// Builds a snapshot from already-gathered values.
    pub fn new(
        username: String,
        hostname: String,
        distro: String,
        kernel: String,
        uptime_seconds: u64,
        shell: String,
        cpu_brand: String,
        total_memory_kib: u64,
        used_memory_kib: u64,
    ) -> (r: Self)
        ensures
            r@.username == username@,
            r@.hostname == hostname@,
            r@.distro == distro@,
            r@.kernel == kernel@,
            r@.uptime_seconds == uptime_seconds as nat,
            r@.shell == shell@,
            r@.cpu_brand == cpu_brand@,
            r@.total_memory_kib == total_memory_kib as nat,
            r@.used_memory_kib == used_memory_kib as nat,
    {
        HostSnapshot {
            username,
            hostname,
            distro,
            kernel,
            uptime_seconds,
            shell,
            cpu_brand,
            total_memory_kib,
            used_memory_kib,
        }
    }
}

/// The queried value where the query yielded one, the fallback otherwise.
pub fn value_or(value: Option<String>, fallback: &str) -> (r: String)
    ensures
        value matches Some(s) ==> r@ == s@,
        value is None ==> r@ == fallback@,
{
    match value {
        Some(s) => s,
        None => String::from_str(fallback),
    }
}

/// Gathers a snapshot of the running host. The shell path and the kernel
/// release are handed in by the caller (the one reads an environment
/// variable, the other runs a subprocess); an absent value falls back to
/// the fixed placeholder. The remaining facts come from the trusted
/// operating-system queries, with their own placeholders on failure.
pub fn collect_host_snapshot(shell: Option<String>, kernel: Option<String>) -> (r: HostSnapshot)
    ensures
        shell matches Some(s) ==> r@.shell == s@,
        shell is None ==> r@.shell == ("unknown")@,
        kernel matches Some(k) ==> r@.kernel == k@,
        kernel is None ==> r@.kernel == ("Unknown")@,
{
    let sys = probe_system();
    let username = value_or(login_username(), "Unknown");
    let hostname = value_or(host_name(), "unknown-host");
    let distro = os_descriptor();
    let kernel_text = value_or(kernel, "Unknown");
    let uptime_seconds = system_uptime_seconds();
    let shell_text = value_or(shell, "unknown");
    let cpu_brand = value_or(system_cpu_brand(&sys), "Unknown");
    let total_memory_kib = system_total_memory_bytes(&sys) / 1024;
    let used_memory_kib = system_used_memory_bytes(&sys) / 1024;
    HostSnapshot::new(
        username,
        hostname,
        distro,
        kernel_text,
        uptime_seconds,
        shell_text,
        cpu_brand,
        total_memory_kib,
        used_memory_kib,
    )
}

} // verus!
