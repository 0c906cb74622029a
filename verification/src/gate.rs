//! The platform gate: on an operating system that requires DNS traffic to be
//! marked for firewall exclusion, the launcher must obtain an exclusion group
//! id and apply it as the process group identity before any network setup.

use vstd::prelude::*;

verus! {

/// What the launcher must do once the platform gate has been consulted.
#[derive(Clone, Copy, Debug, PartialEq, Eq, Structural)]
pub enum GateStep {
    /// An exclusion group id was obtained: apply it as the process group
    /// identity, then continue with startup.
    ApplyGroupId(u32),
    /// The check is in force here, but the platform had nothing to hand
    /// out: give up quietly, with nothing logged and no server started.
    AbortSilently,
    /// No gate on this platform: go straight on with startup.
    Proceed,
}

/// Decide the launcher's first step from whether the platform requires the
/// gate and the exclusion group id the platform offered, if any.
pub fn plan_gate(gate_required: bool, exclusion_id: Option<u32>) -> (r: GateStep)
    ensures
        gate_required && exclusion_id is Some ==> r == GateStep::ApplyGroupId(
            exclusion_id->0,
        ),
        gate_required && exclusion_id is None ==> r == GateStep::AbortSilently,
        !gate_required ==> r == GateStep::Proceed,
{
    if gate_required {
        match exclusion_id {
            Some(gid) => GateStep::ApplyGroupId(gid),
            None => GateStep::AbortSilently,
        }
    } else {
        GateStep::Proceed
    }
}

/// Judge the privileged set-group call by its return value: zero means the
/// identity was applied and startup continues; anything else aborts the run,
/// and the returned message is logged as an error.
pub fn set_group_verdict(ret: i32) -> (r: Option<String>)
    ensures
        ret == 0 <==> r is None,
        ret != 0 ==> (r matches Some(msg) && msg@ == "Failed to set group ID"@),
{
    if ret == 0 {
        None
    } else {
        Some(String::from_str("Failed to set group ID"))
    }
}

} // verus!
