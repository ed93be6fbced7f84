//! Conversions between the sequence-paxos / ballot-leader-election messages of a
//! replicated SQLite store and the messages that travel over its RPC transport.
#![allow(non_snake_case)]

pub mod paxos;
pub mod proto;
pub mod encode;
pub mod decode;
pub mod roundtrip;
pub mod fields;
pub mod query;
