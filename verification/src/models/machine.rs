//! Machine state and the machine view model.

use vstd::prelude::*;
use vstd::string::StringExecFns;
use crate::text::dec_chars;
use crate::text::u64_to_string;

verus! {

/// Machine state representation.
#[derive(Debug, Clone, Copy, PartialEq, Eq, Structural)]
pub enum MachineState {
    Running,
    Stopped,
    Starting,
    Stopping,
}

/// The display label of a machine state.
pub open spec fn spec_machine_state_label(s: MachineState) -> Seq<char> {
    match s {
        MachineState::Running => "Running"@,
        MachineState::Stopped => "Stopped"@,
        MachineState::Starting => "Starting"@,
        MachineState::Stopping => "Stopping"@,
    }
}

impl MachineState {
    pub fn is_running(&self) -> (r: bool)
        ensures
            r == (*self is Running),
    {
        matches!(self, MachineState::Running)
    }

    pub fn label(&self) -> (r: &'static str)
        ensures
            r@ == spec_machine_state_label(*self),
    {
        match self {
            MachineState::Running => "Running",
            MachineState::Stopped => "Stopped",
            MachineState::Starting => "Starting",
            MachineState::Stopping => "Stopping",
        }
    }
}

/// Linux distribution info.
#[derive(Debug, Clone)]
pub struct DistroInfo {
    pub name: String,
    pub version: String,
    pub display_name: String,
}

/// The resource summary line of a machine.
pub open spec fn spec_resources_display(m: MachineViewModel) -> Seq<char> {
    dec_chars(m.cpu_cores as nat) + " cores, "@ + dec_chars(m.memory_gb as nat) + " GB RAM, "@
        + dec_chars(m.disk_gb as nat) + " GB disk"@
}

/// Machine view model for display, with its creation time as whole
/// seconds since the Unix epoch.
#[derive(Debug, Clone)]
pub struct MachineViewModel {
    pub id: String,
    pub name: String,
    pub distro: DistroInfo,
    pub state: MachineState,
    pub cpu_cores: u32,
    pub memory_gb: u32,
    pub disk_gb: u32,
    pub ip_address: Option<String>,
    pub created_at_secs: i64,
}

impl MachineViewModel {
    pub fn is_running(&self) -> (r: bool)
        ensures
            r == (self.state is Running),
    {
        self.state.is_running()
    }

    /// Displays cores, memory and disk, e.g. `4 cores, 4 GB RAM, 20 GB disk`.
    pub fn resources_display(&self) -> (r: String)
        ensures
            r@ == spec_resources_display(*self),
    {
        let mut r = u64_to_string(self.cpu_cores as u64);
        r.append(" cores, ");
        let mem = u64_to_string(self.memory_gb as u64);
        r.append(mem.as_str());
        r.append(" GB RAM, ");
        let disk = u64_to_string(self.disk_gb as u64);
        r.append(disk.as_str());
        r.append(" GB disk");
        r
    }
}

} // verus!
