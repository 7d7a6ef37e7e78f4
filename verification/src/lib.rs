//! Protocol bridge between HTTP `CONNECT` clients and an upstream SOCKS5 proxy.
//!
//! The crate holds the decisions of one bridged connection: how the first
//! request is read, which target it names, what is answered to the client and
//! how bytes are relayed afterwards. Sockets, name resolution and scheduling
//! are left to the caller, which feeds the outcomes of its I/O into the
//! functions below and carries out the actions they return.

pub mod config;
pub mod connection;
pub mod relay;
pub mod request;
pub mod response;
pub mod target;
pub mod termination;
pub mod trace;
