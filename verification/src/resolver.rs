//! The resolver's main routine for one run: assemble the catalog, bind both
//! transports, register them with the serving engine and serve until done.
//! Any failure surfaces as a descriptive message for the launcher to log.

use vstd::prelude::*;
use crate::catalog::assemble_catalog;
use crate::engine::bind_transports;
use crate::engine::prepare_serving;
use crate::engine::run_serving;

verus! {

/// The address both transports bind to: all interfaces, on the standard
/// DNS port.
pub fn dns_bind_address() -> (r: String)
    ensures
        r@ == "0.0.0.0:53"@,
{
    String::from_str("0.0.0.0:53")
}

/// One resolver run: build the forwarding authority, install it into the
/// catalog, bind UDP and TCP on the standard DNS port (all or nothing),
/// register both with the serving engine — the TCP side under its fixed
/// one-second idle timeout — and process queries until the loop ends.
///
/// Whether the binds and the serve loop succeed depends on the machine, so
/// the outcome itself carries no promise; what each stage must produce on
/// the way — a root-only catalog, both transports registered or none — is
/// pinned by that stage's own contract.
pub fn run_resolver(rt: &tokio::runtime::Runtime) -> Result<(), String> {
    let catalog = match assemble_catalog() {
        Ok(c) => c,
        Err(e) => {
            return Err(e);
        },
    };
    let addr = dns_bind_address();
    let (udp, tcp) = match bind_transports(rt, addr.as_str()) {
        Ok(pair) => pair,
        Err(e) => {
            return Err(e);
        },
    };
    let engine = prepare_serving(rt, catalog, udp, tcp);
    run_serving(rt, engine)
}

} // verus!
