//! Relay of game-controller state over datagrams: the report codecs, the
//! device registry and the session state machines, with their contracts.

pub mod checksum;
pub mod consumer;
pub mod device;
pub mod input;
pub mod output;
pub mod session;
