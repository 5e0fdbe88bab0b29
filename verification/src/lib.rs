//! Device-session engine for AirPods-class earbuds on Linux.
//!
//! The crate holds the protocol and coordination logic of the daemon: the
//! AES-based identity check for BLE resolvable private addresses, the AACP
//! frame codec and handshake sequencing, the ATT request pacing rules, the
//! BLE advertisement decoder, the media/ownership coordinator, and the
//! auto-connect arbiter.  Everything here is pure logic over plain values;
//! sockets, D-Bus, and audio servers live with the callers.

pub mod aacp;
pub mod app_state;
pub mod apple_models;
pub mod arbiter;
pub mod att;
pub mod codec;
pub mod config;
pub mod coordinator;
pub mod crypto;
pub mod enums;
pub mod ipc;
pub mod nothing;
pub mod rpa;
pub mod scanner;
pub mod session;
