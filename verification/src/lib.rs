//! Runtime orchestration for a blockchain node: a staged block-import
//! pipeline, a slot-based block-production worker, coordination with a
//! round-based finality gadget, an auxiliary mapping synchronizer, an RPC
//! dependency injector, and a task lifecycle manager, composed so that the
//! combination stays correct under replay, reordering and partial failure.

pub mod block;
pub mod finality;
pub mod hashing;
pub mod lifecycle;
pub mod mapping;
pub mod outcome;
pub mod pipeline;
pub mod production;
pub mod rpc;
pub mod service;
pub mod store;
pub mod subscription;

use vstd::prelude::*;

verus! {

} // verus!
