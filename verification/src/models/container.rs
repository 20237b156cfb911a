//! Container state and the container view model.

use vstd::prelude::*;
use vstd::string::StringExecFns;
use crate::clock::format_relative_short;
use crate::clock::now_timestamp;
use crate::clock::saturating_sub_i64;
use crate::clock::sat_sub_i64;
use crate::clock::spec_relative_short;
use crate::text::dec_chars;
use crate::text::u64_to_string;

verus! {

/// Container state representation.
#[derive(Debug, Clone, Copy, PartialEq, Eq, Structural)]
pub enum ContainerState {
    Running,
    Stopped,
    Restarting,
    Paused,
    Dead,
}

/// The display label of a container state.
pub open spec fn spec_container_state_label(s: ContainerState) -> Seq<char> {
    match s {
        ContainerState::Running => "Running"@,
        ContainerState::Stopped => "Stopped"@,
        ContainerState::Restarting => "Restarting"@,
        ContainerState::Paused => "Paused"@,
        ContainerState::Dead => "Dead"@,
    }
}

impl ContainerState {
    pub fn is_running(&self) -> (r: bool)
        ensures
            r == (*self is Running),
    {
        matches!(self, ContainerState::Running)
    }

    pub fn label(&self) -> (r: &'static str)
        ensures
            r@ == spec_container_state_label(*self),
    {
        match self {
            ContainerState::Running => "Running",
            ContainerState::Stopped => "Stopped",
            ContainerState::Restarting => "Restarting",
            ContainerState::Paused => "Paused",
            ContainerState::Dead => "Dead",
        }
    }
}

/// Port mapping for a container.
#[derive(Debug, Clone)]
pub struct PortMapping {
    pub host_port: u16,
    pub container_port: u16,
    pub protocol: String,
}

/// One `host:container` pair, as the port column shows it.
pub open spec fn spec_port_entry(p: PortMapping) -> Seq<char> {
    dec_chars(p.host_port as nat) + ":"@ + dec_chars(p.container_port as nat)
}

/// The port column: `-` when empty, else the pairs joined by `, `.
pub open spec fn spec_ports_display(ports: Seq<PortMapping>) -> Seq<char>
    decreases ports.len(),
{
    if ports.len() == 0 {
        "-"@
    } else if ports.len() == 1 {
        spec_port_entry(ports[0])
    } else {
        spec_ports_display(ports.drop_last()) + ", "@ + spec_port_entry(ports.last())
    }
}

/// Container view model for display, with its creation time as whole
/// seconds since the Unix epoch.
#[derive(Debug, Clone)]
pub struct ContainerViewModel {
    pub id: String,
    pub name: String,
    pub image: String,
    pub state: ContainerState,
    pub ports: Vec<PortMapping>,
    pub created_at_secs: i64,
    pub compose_project: Option<String>,
}

impl ContainerViewModel {
    pub fn is_running(&self) -> (r: bool)
        ensures
            r == (self.state is Running),
    {
        self.state.is_running()
    }

    /// Displays the port mappings as a string like `8080:80, 443:443`.
    pub fn ports_display(&self) -> (r: String)
        ensures
            r@ == spec_ports_display(self.ports@),
    {
        if self.ports.len() == 0 {
            return "-".to_owned();
        }
        let mut r = port_entry(&self.ports[0]);
        let mut i: usize = 1;
        proof {
            assert(self.ports@.take(1) =~= seq![self.ports@[0]]);
        }
        while i < self.ports.len()
            invariant
                1 <= i <= self.ports@.len(),
                r@ == spec_ports_display(self.ports@.take(i as int)),
            decreases self.ports@.len() - i,
        {
            proof {
                let t = self.ports@.take(i + 1);
                assert(t.drop_last() =~= self.ports@.take(i as int));
                assert(t.last() == self.ports@[i as int]);
            }
            r.append(", ");
            let e = port_entry(&self.ports[i]);
            r.append(e.as_str());
            i = i + 1;
        }
        proof {
            assert(self.ports@.take(self.ports@.len() as int) =~= self.ports@);
        }
        r
    }

    /// The age of the container relative to `now_secs`.
    pub fn created_ago_at(&self, now_secs: i64) -> (r: String)
        ensures
            r@ == spec_relative_short(sat_sub_i64(now_secs as int, self.created_at_secs as int)),
    {
        format_relative_short(saturating_sub_i64(now_secs, self.created_at_secs))
    }

    /// The age of the container relative to the current wall clock.
    pub fn created_ago(&self) -> (r: String)
        ensures
            exists|now: int| r@ == spec_relative_short(sat_sub_i64(now, self.created_at_secs as int)),
    {
        let now = now_timestamp();
        let r = self.created_ago_at(now);
        proof {
            assert(r@ == spec_relative_short(sat_sub_i64(now as int, self.created_at_secs as int)));
        }
        r
    }
}

/// Builds one `host:container` pair.
fn port_entry(p: &PortMapping) -> (r: String)
    ensures
        r@ == spec_port_entry(*p),
{
    let mut r = u64_to_string(p.host_port as u64);
    r.append(":");
    let c = u64_to_string(p.container_port as u64);
    r.append(c.as_str());
    r
}

} // verus!
