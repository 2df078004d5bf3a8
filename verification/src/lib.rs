//! Device-protocol driver core for FTDI USB-to-serial bridge chips.
//!
//! This crate holds the verified heart of the driver: chip-family detection,
//! baud-rate-to-clock-divisor encoding, line-framing encoding, read-path
//! packet reassembly, device-selector parsing, and the session state machine
//! that orchestrates open/configure/read/write/flush. The raw USB transport
//! (context setup, control and bulk transfers, descriptor queries) is an
//! external collaborator: callers perform those transfers and hand the plain
//! results back to the session functions defined here.
#![allow(non_camel_case_types)]

pub mod constants;
pub mod types;
pub mod error;
pub mod baudrate;
pub mod line;
pub mod chipid;
pub mod packet;
pub mod parse;
pub mod context;
pub mod discovery;
pub mod transfer;
