//! Trusted readings of the running machine, through the sysinfo crate.
//!
//! Core counts, memory sizes and the process table are machine state: nothing
//! is promised of the values beyond their types, and the logic that consumes
//! them is verified for every value they could take.

use vstd::prelude::*;

verus! {

#[verifier::external_type_specification]
#[verifier::external_body]
pub struct ExSystem(sysinfo::System);

/// Relies on sysinfo's `System::new`: a handle with nothing refreshed yet.
pub assume_specification[ sysinfo::System::new ]() -> (s: sysinfo::System);

/// Relies on sysinfo's `System::refresh_memory`: loads current memory
/// readings into the handle.
pub assume_specification[ sysinfo::System::refresh_memory ](s: &mut sysinfo::System);

/// Relies on sysinfo's `System::total_memory`: the machine's RAM in bytes, as
/// last refreshed; a machine reading, so nothing further is promised.
pub assume_specification[ sysinfo::System::total_memory ](s: &sysinfo::System) -> (r: u64);

/// Relies on sysinfo's `System::physical_core_count`: the machine's physical
/// core count, where the platform reports one.
pub assume_specification[ sysinfo::System::physical_core_count ]() -> (r: Option<usize>);

/// One row of the process table: a process id and the process name.
#[derive(Clone, Debug)]
pub struct ProcessEntry {
    pub pid: u32,
    pub name: String,
}

/// Relies on sysinfo's `System::refresh_processes`: reloads the whole process
/// table, removing dead processes.
#[verifier::external_body]
pub fn refresh_process_table(sys: &mut sysinfo::System) {
    sys.refresh_processes(sysinfo::ProcessesToUpdate::All, true);
}

/// Relies on sysinfo's `System::processes` and `Process::name`: the current
/// process table as plain values. The table and its order are machine state;
/// nothing is promised of them.
#[verifier::external_body]
pub fn process_entries(sys: &sysinfo::System) -> (r: Vec<ProcessEntry>)
{
    sys.processes()
        .iter()
        .map(|(pid, process)| ProcessEntry {
            pid: pid.as_u32(),
            name: process.name().to_string_lossy().to_string(),
        })
        .collect()
}

} // verus!
