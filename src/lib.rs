//! Driver logic for an SCD4x CO2 / temperature / humidity sensor, the
//! single-slot store that hands its latest reading to a network server, and
//! the binary record that the server streams to its peer.
//!
//! Bus transfers, timers, locks and sockets are performed by the caller: the
//! sampling cycle and the connection server are state machines that say which
//! step to perform next and take back what came of it.

pub mod commands;
pub mod conversion;
pub mod cycle;
pub mod record;
pub mod scd41;
pub mod sdc41;
pub mod server;
pub mod store;
