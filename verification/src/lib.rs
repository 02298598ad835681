//! Core logic of a peer-to-peer network service for a blockchain full node.
//!
//! The service owns the lifecycle of every transport connection: it parses
//! and validates the configured listen and dial addresses, schedules peer
//! discovery with an exponential backoff, drives one read-write loop per
//! established connection, and translates the protocol engine's internal
//! events into the public event vocabulary.
//!
//! The asynchronous shell (sockets, timers, the engine itself) lives outside
//! this crate; every decision the shell has to make is a function in here,
//! stated and proved over plain values.

pub mod addr;
pub mod connection;
pub mod discovery;
pub mod events;
pub mod service;
