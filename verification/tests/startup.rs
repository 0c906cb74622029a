use forward_resolver::gate::plan_gate;
use forward_resolver::gate::set_group_verdict;
use forward_resolver::gate::GateStep;
use forward_resolver::lifecycle::advance;
use forward_resolver::lifecycle::Event;
use forward_resolver::lifecycle::Phase;
use forward_resolver::messages::terminal_log_message;

#[test]
fn gate_applies_obtained_id() {
    assert_eq!(plan_gate(true, Some(7)), GateStep::ApplyGroupId(7));
    assert_eq!(plan_gate(true, Some(0)), GateStep::ApplyGroupId(0));
}

#[test]
fn gate_skips_silently_without_id() {
    assert_eq!(plan_gate(true, None), GateStep::AbortSilently);
}

#[test]
fn gate_absent_proceeds_unconditionally() {
    assert_eq!(plan_gate(false, None), GateStep::Proceed);
    assert_eq!(plan_gate(false, Some(3)), GateStep::Proceed);
}

#[test]
fn set_group_zero_return_proceeds() {
    assert!(set_group_verdict(0).is_none());
}

#[test]
fn set_group_nonzero_return_aborts_with_message() {
    let msg = set_group_verdict(-1).expect("a nonzero return must abort");
    assert_eq!(msg, "Failed to set group ID");
    let msg = set_group_verdict(1).expect("a nonzero return must abort");
    assert_eq!(msg, "Failed to set group ID");
}

#[test]
fn clean_return_is_logged_as_anomaly() {
    assert_eq!(
        terminal_log_message(&Ok(())),
        "Resolver stopped unexpectedly"
    );
}

#[test]
fn failure_is_logged_with_its_message() {
    let outcome = Err(String::from("address in use"));
    assert_eq!(
        terminal_log_message(&outcome),
        "Failed to run resolver: address in use"
    );
}

#[test]
fn lifecycle_happy_path_ends_terminated() {
    let mut p = Phase::NotStarted;
    p = advance(p, Event::GatePassed);
    assert_eq!(p, Phase::PlatformGateChecked);
    p = advance(p, Event::AuthorityReady);
    assert_eq!(p, Phase::AuthorityBuilt);
    p = advance(p, Event::CatalogInstalled);
    assert_eq!(p, Phase::CatalogAssembled);
    p = advance(p, Event::SocketsReady);
    assert_eq!(p, Phase::SocketsBound);
    p = advance(p, Event::ServeBegun);
    assert_eq!(p, Phase::Serving);
    p = advance(p, Event::ServeEndedClean);
    assert_eq!(p, Phase::Terminated { failed: false });
}

#[test]
fn lifecycle_serve_failure_is_a_failed_termination() {
    let p = advance(Phase::Serving, Event::ServeEndedFailed);
    assert_eq!(p, Phase::Terminated { failed: true });
}

#[test]
fn lifecycle_gate_skip_is_terminal_and_silent() {
    let mut p = advance(Phase::NotStarted, Event::GateSkipped);
    assert_eq!(p, Phase::Terminated { failed: false });
    p = advance(p, Event::SocketsReady);
    assert_eq!(p, Phase::Terminated { failed: false });
    p = advance(p, Event::ServeBegun);
    assert_eq!(p, Phase::Terminated { failed: false });
}

#[test]
fn lifecycle_gate_rejection_is_a_failed_termination() {
    let p = advance(Phase::NotStarted, Event::GateFailed);
    assert_eq!(p, Phase::Terminated { failed: true });
}

#[test]
fn lifecycle_bind_failure_never_reaches_serving() {
    let mut p = advance(Phase::CatalogAssembled, Event::BindFailed);
    assert_eq!(p, Phase::Terminated { failed: true });
    p = advance(p, Event::SocketsReady);
    p = advance(p, Event::ServeBegun);
    assert_eq!(p, Phase::Terminated { failed: true });
}

#[test]
fn lifecycle_ignores_events_out_of_order() {
    assert_eq!(
        advance(Phase::NotStarted, Event::ServeBegun),
        Phase::NotStarted
    );
    assert_eq!(
        advance(Phase::AuthorityBuilt, Event::SocketsReady),
        Phase::AuthorityBuilt
    );
}
