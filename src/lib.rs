//! Register access and real-time control for a bus of Feetech STS3215-class servos.
//!
//! The library is split in five parts:
//! - [`units`]: exact conversions between encoder ticks / tick rates and physical
//!   units, held as fixed-point microradians;
//! - [`codec`]: where each register lies and how its value goes on the wire, as the
//!   STS3215 definition of `rustypot` says;
//! - [`registers`]: bulk register access over a [`registers::Transport`], the
//!   synchronous read and write instructions of the bus;
//! - [`control_table`]: the name of every register, and its get and set operations;
//! - [`controller`]: the decisions of the periodic control loop.
pub mod codec;
pub mod control_table;
pub mod controller;
pub mod registers;
pub mod units;
