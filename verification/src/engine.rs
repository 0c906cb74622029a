//! The serving engine: both transports — one UDP socket and one TCP
//! listener, bound to all interfaces on the standard DNS port — are
//! registered against the assembled catalog, all or nothing, and the engine
//! then processes queries until a fatal transport error. The awaits behind
//! the binds and the run loop are driven on the runtime the caller owns;
//! every decision between them is made in verified code.

use vstd::prelude::*;
use crate::catalog::catalog_entries;

verus! {

#[verifier::external_type_specification]
#[verifier::external_body]
pub struct ExUdpSocket(tokio::net::UdpSocket);

#[verifier::external_type_specification]
#[verifier::external_body]
pub struct ExTcpListener(tokio::net::TcpListener);

#[verifier::external_type_specification]
#[verifier::external_body]
pub struct ExIoError(std::io::Error);

#[verifier::external_type_specification]
#[verifier::external_body]
pub struct ExProtoError(trust_dns_proto::error::ProtoError);

#[verifier::external_type_specification]
#[verifier::external_body]
pub struct ExRuntime(tokio::runtime::Runtime);

/// The serving engine, exclusive owner of its registered transports for the
/// duration of the run. It holds a `trust_dns_server::ServerFuture` over the
/// assembled catalog; that type's generic parameter carries a trait bound of
/// the outside crate, so the engine is held here as a hidden field instead
/// of being declared directly.
#[verifier::external_body]
pub struct ServingEngine {
    inner: trust_dns_server::ServerFuture<trust_dns_server::authority::Catalog>,
}

/// The idle/read timeout, in seconds, applied to every TCP DNS connection,
/// to bound the resources a slow or abandoned connection can hold.
pub const TCP_IDLE_TIMEOUT_SECS: u64 = 1;

/// What the engine serves: the entries of the catalog it was created over.
pub uninterp spec fn engine_entries(s: ServingEngine) -> Map<
    Seq<char>,
    (Seq<char>, Seq<(Seq<char>, u16, bool)>),
>;

/// How many UDP sockets are registered with the engine.
pub uninterp spec fn engine_udp_sockets(s: ServingEngine) -> nat;

/// The idle timeouts, in seconds and in registration order, of the TCP
/// listeners registered with the engine.
pub uninterp spec fn engine_tcp_timeouts(s: ServingEngine) -> Seq<u64>;

/// Relies on `tokio::net::UdpSocket::bind`, driven to completion on the
/// given runtime: attempts to bind a UDP socket to the given address.
/// Whether it succeeds depends on the machine, so nothing is promised of
/// the outcome.
#[verifier::external_body]
fn bind_udp(rt: &tokio::runtime::Runtime, addr: &str) -> Result<
    tokio::net::UdpSocket,
    std::io::Error,
> {
    rt.block_on(tokio::net::UdpSocket::bind(addr))
}

/// Relies on `tokio::net::TcpListener::bind`, driven to completion on the
/// given runtime: attempts to bind a TCP listener to the given address.
/// Whether it succeeds depends on the machine, so nothing is promised of
/// the outcome.
#[verifier::external_body]
fn bind_tcp(rt: &tokio::runtime::Runtime, addr: &str) -> Result<
    tokio::net::TcpListener,
    std::io::Error,
> {
    rt.block_on(tokio::net::TcpListener::bind(addr))
}

/// Relies on `std::fmt::Display` for `std::io::Error`: renders the bind
/// error's own descriptive message. The text may depend on the machine's
/// locale, so it is not pinned down further.
#[verifier::external_body]
fn io_error_message(e: &std::io::Error) -> String {
    format!("{}", e)
}

/// Relies on `std::fmt::Display` for `ProtoError`: renders the fatal
/// transport error's own descriptive message. The text may embed an
/// operating-system error string, so it is not pinned down further.
#[verifier::external_body]
fn proto_error_message(e: &trust_dns_proto::error::ProtoError) -> String {
    format!("{}", e)
}

/// Relies on `ServerFuture::new`: an engine over the given request handler
/// with no transport registered yet.
#[verifier::external_body]
fn engine_new(catalog: trust_dns_server::authority::Catalog) -> (r: ServingEngine)
    ensures
        engine_entries(r) == catalog_entries(catalog),
        engine_udp_sockets(r) == 0nat,
        engine_tcp_timeouts(r) == Seq::<u64>::empty(),
{
    ServingEngine { inner: trust_dns_server::ServerFuture::new(catalog) }
}

/// Relies on `ServerFuture::register_socket`, entered on the given runtime
/// (the engine's receive task is spawned there): adds one UDP socket to the
/// engine's transports and touches nothing else.
#[verifier::external_body]
fn engine_register_udp(
    rt: &tokio::runtime::Runtime,
    s: &mut ServingEngine,
    sock: tokio::net::UdpSocket,
)
    ensures
        engine_udp_sockets(*final(s)) == engine_udp_sockets(*old(s)) + 1nat,
        engine_tcp_timeouts(*final(s)) == engine_tcp_timeouts(*old(s)),
        engine_entries(*final(s)) == engine_entries(*old(s)),
{
    let _guard = rt.enter();
    s.inner.register_socket(sock);
}

/// Relies on `ServerFuture::register_listener`, entered on the given runtime
/// (the engine's accept task is spawned there): adds one TCP listener with
/// the given idle timeout to the engine's transports and touches nothing
/// else.
#[verifier::external_body]
fn engine_register_tcp(
    rt: &tokio::runtime::Runtime,
    s: &mut ServingEngine,
    listener: tokio::net::TcpListener,
    timeout_secs: u64,
)
    ensures
        engine_tcp_timeouts(*final(s)) == engine_tcp_timeouts(*old(s)).push(timeout_secs),
        engine_udp_sockets(*final(s)) == engine_udp_sockets(*old(s)),
        engine_entries(*final(s)) == engine_entries(*old(s)),
{
    let _guard = rt.enter();
    s.inner.register_listener(listener, std::time::Duration::from_secs(timeout_secs));
}

/// Relies on `ServerFuture::block_until_done`, driven to completion on the
/// given runtime: processes queries on the registered transports until an
/// unrecoverable transport error or clean shutdown. The outcome depends on
/// the network, so nothing is promised of it.
#[verifier::external_body]
fn engine_run_blocking(rt: &tokio::runtime::Runtime, engine: ServingEngine) -> Result<
    (),
    trust_dns_proto::error::ProtoError,
> {
    let mut engine = engine;
    rt.block_on(engine.inner.block_until_done())
}

/// Judge the UDP bind: on failure the run aborts here with the bind error's
/// own message, before the TCP bind is even attempted, so no transport is
/// left behind.
pub fn accept_udp_bind(r: Result<tokio::net::UdpSocket, std::io::Error>) -> (out: Result<
    tokio::net::UdpSocket,
    String,
>)
    ensures
        r is Ok <==> out is Ok,
{
    match r {
        Ok(sock) => Ok(sock),
        Err(e) => Err(io_error_message(&e)),
    }
}

/// Judge the TCP bind: on failure the run aborts with the bind error's own
/// message, and the already bound UDP socket — not yet registered with any
/// engine — is simply dropped, so neither transport is left serving.
pub fn accept_tcp_bind(r: Result<tokio::net::TcpListener, std::io::Error>) -> (out: Result<
    tokio::net::TcpListener,
    String,
>)
    ensures
        r is Ok <==> out is Ok,
{
    match r {
        Ok(listener) => Ok(listener),
        Err(e) => Err(io_error_message(&e)),
    }
}

/// Bind both transports on the given address, all or nothing. If the UDP
/// bind fails the TCP bind is never attempted; if the TCP bind fails the
/// fresh UDP socket is dropped on the spot. Either way the failed run ends
/// with the bind error's own message and no transport is left behind.
pub fn bind_transports(rt: &tokio::runtime::Runtime, addr: &str) -> (r: Result<
    (tokio::net::UdpSocket, tokio::net::TcpListener),
    String,
>) {
    let udp = match accept_udp_bind(bind_udp(rt, addr)) {
        Ok(sock) => sock,
        Err(e) => {
            return Err(e);
        },
    };
    let tcp = match accept_tcp_bind(bind_tcp(rt, addr)) {
        Ok(listener) => listener,
        Err(e) => {
            return Err(e);
        },
    };
    Ok((udp, tcp))
}

/// Register both transports with a fresh engine over the assembled catalog.
/// Both sockets must be in hand: the engine ends up with exactly one UDP
/// socket and exactly one TCP listener, the latter under the fixed
/// one-second idle timeout, and serves exactly the catalog's zones.
pub fn prepare_serving(
    rt: &tokio::runtime::Runtime,
    catalog: trust_dns_server::authority::Catalog,
    udp: tokio::net::UdpSocket,
    tcp: tokio::net::TcpListener,
) -> (s: ServingEngine)
    ensures
        engine_entries(s) == catalog_entries(catalog),
        engine_udp_sockets(s) == 1nat,
        engine_tcp_timeouts(s) == Seq::<u64>::empty().push(TCP_IDLE_TIMEOUT_SECS),
{
    let mut engine = engine_new(catalog);
    engine_register_udp(rt, &mut engine, udp);
    engine_register_tcp(rt, &mut engine, tcp, TCP_IDLE_TIMEOUT_SECS);
    engine
}

/// Judge the serve loop's outcome: a clean return is passed through — the
/// launcher will still log it as an anomaly — and a fatal transport error
/// is carried on as its own message.
pub fn serve_outcome(r: Result<(), trust_dns_proto::error::ProtoError>) -> (out: Result<
    (),
    String,
>)
    ensures
        r is Ok <==> out is Ok,
{
    match r {
        Ok(_) => Ok(()),
        Err(e) => Err(proto_error_message(&e)),
    }
}

/// Run the engine to completion on the given runtime and judge the outcome.
pub fn run_serving(rt: &tokio::runtime::Runtime, engine: ServingEngine) -> (r: Result<
    (),
    String,
>) {
    serve_outcome(engine_run_blocking(rt, engine))
}

} // verus!
