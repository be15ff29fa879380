//! Typed control and telemetry messages for remote automato nodes reached over
//! a serial gateway: the payload model, its wire encoding, the structured
//! projection, serial framing and the request/reply transaction.

pub mod automatomsg;
pub mod codes;
pub mod le;
pub mod payload;
pub mod setup;
pub mod wire;
pub mod structured;
pub mod serial_error;
pub mod frame;
pub mod transaction;
pub mod config;
pub mod messages;
pub mod hexmem;
pub mod oracle;
pub mod command;
