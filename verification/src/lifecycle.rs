//! The resolver's startup lifecycle, one run per launcher invocation:
//! `NotStarted → PlatformGateChecked → AuthorityBuilt → CatalogAssembled →
//! SocketsBound → Serving → Terminated`. Terminal states are reached once;
//! there is no transition back to `Serving` without a fresh invocation.

use vstd::prelude::*;

verus! {

/// Where a resolver run stands.
#[derive(Clone, Copy, Debug, PartialEq, Eq, Structural)]
pub enum Phase {
    /// The launcher has been invoked; nothing has happened yet.
    NotStarted,
    /// The platform gate passed (or was not required).
    PlatformGateChecked,
    /// The forwarding authority has been built.
    AuthorityBuilt,
    /// The authority has been installed into the zone catalog.
    CatalogAssembled,
    /// Both transport sockets are bound and registered.
    SocketsBound,
    /// The serving engine is processing queries.
    Serving,
    /// The run is over. `failed` records whether it ended in a logged error.
    Terminated { failed: bool },
}

/// What happened during a resolver run.
#[derive(Clone, Copy, Debug, PartialEq, Eq, Structural)]
pub enum Event {
    /// Startup may go on: the group identity is settled, or none was needed.
    GatePassed,
    /// The platform had nothing to hand out: the run stops here, quietly.
    GateSkipped,
    /// Applying the exclusion id was rejected by the privileged call.
    GateFailed,
    /// The forwarding authority was built.
    AuthorityReady,
    /// Building the forwarding authority failed.
    AuthorityFailed,
    /// The authority was installed into the catalog.
    CatalogInstalled,
    /// Both transports were bound and registered.
    SocketsReady,
    /// One of the two binds failed; neither transport is left registered.
    BindFailed,
    /// The serving engine entered its run loop.
    ServeBegun,
    /// The run loop returned cleanly, which is anomalous but not a failure
    /// of the loop itself.
    ServeEndedClean,
    /// The run loop ended with a fatal transport error.
    ServeEndedFailed,
}

/// The transition table of a run. An event that does not belong to the
/// current phase leaves it unchanged; in particular no event leads out of a
/// terminal phase.
pub open spec fn step(p: Phase, e: Event) -> Phase {
    match (p, e) {
        (Phase::NotStarted, Event::GatePassed) => Phase::PlatformGateChecked,
        (Phase::NotStarted, Event::GateSkipped) => Phase::Terminated { failed: false },
        (Phase::NotStarted, Event::GateFailed) => Phase::Terminated { failed: true },
        (Phase::PlatformGateChecked, Event::AuthorityReady) => Phase::AuthorityBuilt,
        (Phase::PlatformGateChecked, Event::AuthorityFailed) => Phase::Terminated {
            failed: true,
        },
        (Phase::AuthorityBuilt, Event::CatalogInstalled) => Phase::CatalogAssembled,
        (Phase::CatalogAssembled, Event::SocketsReady) => Phase::SocketsBound,
        (Phase::CatalogAssembled, Event::BindFailed) => Phase::Terminated { failed: true },
        (Phase::SocketsBound, Event::ServeBegun) => Phase::Serving,
        (Phase::Serving, Event::ServeEndedClean) => Phase::Terminated { failed: false },
        (Phase::Serving, Event::ServeEndedFailed) => Phase::Terminated { failed: true },
        _ => p,
    }
}

/// A phase from which no event leads anywhere else.
pub open spec fn is_terminal(p: Phase) -> bool {
    p is Terminated
}

/// The phase reached by following a whole run of events from `p`.
pub open spec fn run(p: Phase, events: Seq<Event>) -> Phase
    decreases events.len(),
{
    if events.len() == 0 {
        p
    } else {
        run(step(p, events.first()), events.drop_first())
    }
}

/// Advance one step. The driver of a run calls this after each piece of
/// outside work, handing in what happened.
pub fn advance(p: Phase, e: Event) -> (r: Phase)
    ensures
        r == step(p, e),
{
    match (p, e) {
        (Phase::NotStarted, Event::GatePassed) => Phase::PlatformGateChecked,
        (Phase::NotStarted, Event::GateSkipped) => Phase::Terminated { failed: false },
        (Phase::NotStarted, Event::GateFailed) => Phase::Terminated { failed: true },
        (Phase::PlatformGateChecked, Event::AuthorityReady) => Phase::AuthorityBuilt,
        (Phase::PlatformGateChecked, Event::AuthorityFailed) => Phase::Terminated {
            failed: true,
        },
        (Phase::AuthorityBuilt, Event::CatalogInstalled) => Phase::CatalogAssembled,
        (Phase::CatalogAssembled, Event::SocketsReady) => Phase::SocketsBound,
        (Phase::CatalogAssembled, Event::BindFailed) => Phase::Terminated { failed: true },
        (Phase::SocketsBound, Event::ServeBegun) => Phase::Serving,
        (Phase::Serving, Event::ServeEndedClean) => Phase::Terminated { failed: false },
        (Phase::Serving, Event::ServeEndedFailed) => Phase::Terminated { failed: true },
        (p_, _) => p_,
    }
}

/// A terminal phase is reached once per run: whatever events follow, the run
/// stays where it ended. In particular there is no transition back to
/// `Serving` without a fresh invocation of the launcher.
pub proof fn lemma_terminal_absorbs(p: Phase, events: Seq<Event>)
    requires
        is_terminal(p),
    ensures
        run(p, events) == p,
    decreases events.len(),
{
    if events.len() > 0 {
        assert(step(p, events.first()) == p);
        lemma_terminal_absorbs(p, events.drop_first());
    }
}

/// A run whose first event is `GateSkipped` ends quietly right there:
/// no later event can carry it to `SocketsBound` or `Serving`, so such a
/// run never comes to own a socket.
pub proof fn lemma_skipped_gate_never_binds(events: Seq<Event>)
    requires
        events.len() > 0,
        events.first() == Event::GateSkipped,
    ensures
        run(Phase::NotStarted, events) == (Phase::Terminated { failed: false }),
{
    assert(step(Phase::NotStarted, events.first()) == (Phase::Terminated { failed: false }));
    lemma_terminal_absorbs(Phase::Terminated { failed: false }, events.drop_first());
}

/// The nominal run, every stage succeeding in order and the loop ending
/// cleanly, comes to rest terminated and unfailed — there is nowhere else
/// for it to go.
pub proof fn lemma_nominal_run_terminates()
    ensures
        step(
            step(
                step(
                    step(
                        step(step(Phase::NotStarted, Event::GatePassed), Event::AuthorityReady),
                        Event::CatalogInstalled,
                    ),
                    Event::SocketsReady,
                ),
                Event::ServeBegun,
            ),
            Event::ServeEndedClean,
        ) == (Phase::Terminated { failed: false }),
{
}

/// Serving is entered only from bound sockets, and sockets are bound only
/// once the catalog stands: no query is ever processed, and no transport
/// ever registered, out of order.
pub proof fn lemma_serving_only_after_sockets(p: Phase, e: Event)
    ensures
        step(p, e) == Phase::Serving ==> p == Phase::Serving || (p == Phase::SocketsBound
            && e == Event::ServeBegun),
        step(p, e) == Phase::SocketsBound ==> p == Phase::SocketsBound || (p
            == Phase::CatalogAssembled && e == Event::SocketsReady),
{
}

/// If either transport bind fails, the run ends there with a logged error:
/// no later event can register the other transport or reach `Serving`
/// (all-or-nothing bind).
pub proof fn lemma_bind_failure_never_serves(events: Seq<Event>)
    requires
        events.len() > 0,
        events.first() == Event::BindFailed,
    ensures
        run(Phase::CatalogAssembled, events) == (Phase::Terminated { failed: true }),
{
    assert(step(Phase::CatalogAssembled, events.first()) == (Phase::Terminated {
        failed: true,
    }));
    lemma_terminal_absorbs(Phase::Terminated { failed: true }, events.drop_first());
}

} // verus!
