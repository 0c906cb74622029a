//! Classification of the resolver's terminal outcome. There is no structured
//! error type at the top level: the kind of failure is carried only in the
//! message text that the launcher logs.

use vstd::prelude::*;

verus! {

/// The message the launcher logs when the resolver's main routine returns.
///
/// A clean return is an anomaly — a resolver that finishes without a fatal
/// error is unexpected — and is reported as such; a failure is reported with
/// its own message appended.
pub fn terminal_log_message(outcome: &Result<(), String>) -> (r: String)
    ensures
        outcome is Ok ==> r@ == "Resolver stopped unexpectedly"@,
        outcome matches Err(e) ==> r@ == "Failed to run resolver: "@ + e@,
{
    match outcome {
        Ok(_) => String::from_str("Resolver stopped unexpectedly"),
        Err(e) => String::from_str("Failed to run resolver: ").concat(e.as_str()),
    }
}

} // verus!
