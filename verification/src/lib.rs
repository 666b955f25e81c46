//! Anchor State Machine (ASM) building blocks for the Strata protocol: the
//! common subprotocol types, the log formats, the administration, bridge, OL core
//! and debug subprotocols, and the plumbing of the state transition.

pub mod admin;
pub mod aux;
pub mod bridge;
pub mod btc;
pub mod common;
pub mod debug;
pub mod hash;
pub mod logs;
pub mod ol_core;
pub mod primitives;
pub mod stf;
