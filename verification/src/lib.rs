//! A peer-to-peer tunnel: a TUN device bridged over a libp2p relay circuit.
//!
//! The library holds the decisions of the tunnel: which way the node joins the
//! circuit, how the connection handler hands the tunnel to a copy task, and
//! when the behaviour notifies a handler. The event loop and the device I/O
//! drive these from outside.
use vstd::prelude::*;

pub mod behaviour;
pub mod error;
pub mod handler;
pub mod identity;
pub mod mode;
pub mod relay;
pub mod session;

verus! {
} // verus!
