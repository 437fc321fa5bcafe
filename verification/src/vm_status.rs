//! Reading a virtual machine's power state out of its instance-view
//! statuses, and the two commands whose convergence that state signals.

use vstd::prelude::*;

use crate::text::{contains_seq, contains_str};

verus! {

/// One instance-view status of a virtual machine, as the provider reports
/// it: a code such as `PowerState/running` and a display text such as
/// `VM running`, either of which may be absent.
pub struct InstanceStatus {
    pub code: Option<String>,
    pub display_status: Option<String>,
}

/// Whether a status speaks of the machine's power state.
pub open spec fn is_power_status(s: InstanceStatus) -> bool {
    s.code matches Some(c) && contains_seq(c@, "PowerState"@)
}

/// The display text of a power status, with absence read as `Unknown`.
pub open spec fn display_of(s: InstanceStatus) -> Seq<char> {
    match s.display_status {
        Some(d) => d@,
        None => "Unknown"@,
    }
}

/// The power state reported at or after position `i`: the display text of
/// the first status whose code mentions `PowerState`, and `Unknown` when no
/// such status stands there.
pub open spec fn power_state_from(ss: Seq<InstanceStatus>, i: int) -> Seq<char>
    decreases ss.len() - i,
{
    if i < 0 || i >= ss.len() {
        "Unknown"@
    } else if is_power_status(ss[i]) {
        display_of(ss[i])
    } else {
        power_state_from(ss, i + 1)
    }
}

/// The power state a listing of instance-view statuses reports.
pub open spec fn spec_power_state(ss: Seq<InstanceStatus>) -> Seq<char> {
    power_state_from(ss, 0)
}

/// The display text of the first status whose code mentions `PowerState`;
/// `Unknown` when that status carries no display text or no such status is
/// reported.
pub fn power_state(statuses: &Vec<InstanceStatus>) -> (r: String)
    ensures
        r@ == spec_power_state(statuses@),
{
    let n = statuses.len();
    let mut i: usize = 0;
    while i < n
        invariant
            n == statuses@.len(),
            i <= n,
            spec_power_state(statuses@) == power_state_from(statuses@, i as int),
        decreases n - i,
    {
        let is_power = match &statuses[i].code {
            Some(c) => contains_str(c.as_str(), "PowerState"),
            None => false,
        };
        if is_power {
            return match &statuses[i].display_status {
                Some(d) => d.clone(),
                None => String::from_str("Unknown"),
            };
        }
        i = i + 1;
    }
    String::from_str("Unknown")
}

/// A power action on a set of virtual machines.
#[derive(Debug, Clone, Copy)]
pub enum VmCommand {
    Start,
    Stop,
}

impl VmCommand {
    /// The power-state text whose appearance, as a substring of the reported
    /// state, marks a machine as converged under this command.
    pub fn target_state(&self) -> (r: &'static str)
        ensures
            self is Start ==> r@ == "VM running"@,
            self is Stop ==> r@ == "VM deallocated"@,
    {
        match self {
            VmCommand::Start => "VM running",
            VmCommand::Stop => "VM deallocated",
        }
    }

    /// The word a progress report leads with under this command.
    pub fn progress_prefix(&self) -> (r: &'static str)
        ensures
            self is Start ==> r@ == "Started"@,
            self is Stop ==> r@ == "Stopped"@,
    {
        match self {
            VmCommand::Start => "Started",
            VmCommand::Stop => "Stopped",
        }
    }
}

} // verus!
