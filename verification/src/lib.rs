//! A locally embedded DNS-forwarding resolver core for a VPN client daemon.
//!
//! The library covers the resolver's startup, privilege gating and serving
//! lifecycle: deciding what the launcher must do at the platform gate,
//! building the forwarding authority and the zone catalog, registering the
//! two transports with the serving engine, and classifying the terminal
//! outcome. The background thread, the privileged set-group call and the
//! async runtime itself live in the surrounding binary; every decision they
//! act on, and every bind and serve outcome, is judged here.

pub mod authority;
pub mod catalog;
pub mod engine;
pub mod gate;
pub mod lifecycle;
pub mod messages;
pub mod resolver;
