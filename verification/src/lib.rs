//! Driver core for a full-speed USB device-controller peripheral.
//!
//! The crate models the peripheral's packet memory, its endpoint registers
//! with their mixed write disciplines, the standard descriptor records, and
//! the control-transfer engine that ties them together.  Every state change
//! is specified over a mathematical view of the hardware, so the protocol
//! logic can be checked without a target board.
#![allow(non_snake_case)]
#![allow(non_camel_case_types)]

pub mod usb;
