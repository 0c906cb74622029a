use forward_resolver::authority::forwarder_authority;
use forward_resolver::catalog::assemble_catalog;
use forward_resolver::engine::accept_tcp_bind;
use forward_resolver::engine::accept_udp_bind;
use forward_resolver::engine::bind_transports;
use forward_resolver::engine::prepare_serving;
use forward_resolver::engine::serve_outcome;
use forward_resolver::resolver::dns_bind_address;
use forward_resolver::resolver::run_resolver;

fn runtime() -> tokio::runtime::Runtime {
    tokio::runtime::Runtime::new().expect("failed to initialize tokio runtime")
}

#[test]
fn authority_builds() {
    assert!(forwarder_authority().is_ok());
}

#[test]
fn catalog_assembles() {
    assert!(assemble_catalog().is_ok());
}

#[test]
fn bind_address_is_all_interfaces_dns_port() {
    assert_eq!(dns_bind_address(), "0.0.0.0:53");
}

#[test]
fn successful_binds_are_accepted() {
    let rt = runtime();
    let udp = rt.block_on(tokio::net::UdpSocket::bind("127.0.0.1:0"));
    assert!(accept_udp_bind(udp).is_ok());
    let tcp = rt.block_on(tokio::net::TcpListener::bind("127.0.0.1:0"));
    assert!(accept_tcp_bind(tcp).is_ok());
}

#[test]
fn both_transports_bind_and_register_on_a_free_port() {
    let rt = runtime();
    // Port 0 lets the system pick free ports, so both binds must succeed.
    let pair = bind_transports(&rt, "127.0.0.1:0");
    let (udp, tcp) = pair.expect("both binds must succeed on free ports");
    let catalog = assemble_catalog().expect("catalog assembly must succeed");
    let _engine = prepare_serving(&rt, catalog, udp, tcp);
}

#[test]
fn occupied_udp_port_aborts_the_binds() {
    let rt = runtime();
    let holder = rt
        .block_on(tokio::net::UdpSocket::bind("127.0.0.1:0"))
        .expect("binding a fresh port must succeed");
    let addr = holder.local_addr().expect("a bound socket has an address");
    let err = bind_transports(&rt, &format!("{}", addr))
        .err()
        .expect("binding an occupied UDP port must fail");
    assert!(!err.is_empty());
}

#[test]
fn occupied_tcp_port_aborts_the_binds() {
    let rt = runtime();
    // Occupy only the TCP side: the UDP bind will succeed, the TCP bind must
    // fail, and the bound UDP socket must be given up with the whole attempt.
    let holder = rt
        .block_on(tokio::net::TcpListener::bind("127.0.0.1:0"))
        .expect("binding a fresh port must succeed");
    let addr = holder.local_addr().expect("a bound listener has an address");
    let err = bind_transports(&rt, &format!("{}", addr))
        .err()
        .expect("binding an occupied TCP port must fail");
    assert!(!err.is_empty());
    // The failed attempt holds nothing: binding UDP on the same port now
    // succeeds, so no transport was left registered behind.
    let udp = rt.block_on(tokio::net::UdpSocket::bind(format!("{}", addr)));
    assert!(udp.is_ok());
}

#[test]
fn run_resolver_reports_bind_failure_on_an_occupied_port() {
    let rt = runtime();
    // Hold the standard DNS port on the UDP side — or find it already held
    // by someone else: either way the resolver's own bind must fail, and the
    // run must end with an error for the launcher to log.
    let _holder = rt.block_on(tokio::net::UdpSocket::bind("0.0.0.0:53"));
    let outcome = run_resolver(&rt);
    assert!(outcome.is_err());
}

#[test]
fn bind_rejection_carries_the_errors_own_message() {
    let failed: Result<tokio::net::UdpSocket, std::io::Error> = Err(std::io::Error::new(
        std::io::ErrorKind::AddrInUse,
        "port held elsewhere",
    ));
    let msg = accept_udp_bind(failed)
        .err()
        .expect("a failed bind must be rejected");
    assert_eq!(msg, "port held elsewhere");

    let failed: Result<tokio::net::TcpListener, std::io::Error> = Err(std::io::Error::new(
        std::io::ErrorKind::PermissionDenied,
        "low port needs privilege",
    ));
    let msg = accept_tcp_bind(failed)
        .err()
        .expect("a failed bind must be rejected");
    assert_eq!(msg, "low port needs privilege");
}

#[test]
fn serve_loop_outcomes_are_passed_through() {
    assert!(serve_outcome(Ok(())).is_ok());
    let err = serve_outcome(Err(trust_dns_proto::error::ProtoError::from(
        "unexpected close of UDP socket",
    )))
    .err()
    .expect("a fatal transport error must be carried on");
    assert_eq!(err, "unexpected close of UDP socket");
}

#[test]
fn tcp_idle_window_is_one_second() {
    assert_eq!(forward_resolver::engine::TCP_IDLE_TIMEOUT_SECS, 1);
}
