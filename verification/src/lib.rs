//! Core of a register-polling gateway: the register codec, the rules of
//! access to the one shared connection, and the lifecycle state machines
//! that keep the connection alive and drive read / write / verify cycles
//! over it.
//!
//! Nothing here performs I/O. Each state machine is a function from its
//! state and an [`link::Event`] to the next state and a [`link::Step`]: the
//! step names the [`link::Action`] that a driver performs next, and the
//! driver reports the outcome as the next event.
//!
//! - [`codec`]: the window that covers a set of registers, and the
//!   encoding of 32-bit values over pairs of 16-bit registers;
//! - [`config`]: the registers to read and to write, as a snapshot;
//! - [`link`]: actions, events and failures, and the rules of probing and
//!   taking the connection;
//! - [`cycle`]: the work of one read / write cycle;
//! - [`keeper`]: the machine that owns and publishes the connection;
//! - [`poller`]: the machine that reads over the published connection;
//! - [`sequencer`]: the machine that reads, writes and settles over a
//!   connection of its own;
//! - [`meter`]: the sequencer with connection recovery in front.

pub mod codec;
pub mod config;
pub mod cycle;
pub mod keeper;
pub mod link;
pub mod meter;
pub mod poller;
pub mod sequencer;
