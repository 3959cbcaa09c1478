//! A latency-instrumented exchange session client: credential signing, the
//! login frame, inbound frame classification, the session state machine and
//! the reconnect supervisor. Transport, clocks and logging are driven by the
//! caller; every decision is made here.

pub mod signer;
pub mod login;
pub mod session;
pub mod supervisor;
