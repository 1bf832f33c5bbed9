//! Blocking queues and concurrent maps for coordinating threads.
//!
//! - `ordering`: the backing structures, in arrival order and largest-first.
//! - `engine`: a backing structure behind one lock, with blocking `pop`, and
//!   with blocking `push` when bounded.
//! - `queues`: the four public queue handles.
//! - `map`: a hash map behind one lock, and a sharded map of such maps.
//! - `numeric`: arithmetic that reports overflow, and byte-order helpers.
pub mod engine;
pub mod map;
pub mod numeric;
pub mod ordering;
pub mod queues;
