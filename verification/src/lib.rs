//! Synchronization core of a small real-time kernel: a fixed-capacity
//! message queue and a counting semaphore, sharing one waiting/timeout
//! model.
//!
//! Blocking is modelled as an explicit state machine: an operation that
//! cannot complete immediately registers the caller in the object's wait
//! set and reports that the caller is suspended.  The surrounding runtime
//! (the thread scheduler, an external collaborator) performs the actual
//! suspension, delivers wake dispositions, and drives timeout expiry by
//! calling back into the object.

use vstd::prelude::*;

pub mod queue;
pub mod semaphore;
pub mod timeout;
pub mod wait_set;

verus! {

/// Construction was attempted with invalid arguments (a zero capacity,
/// or an initial count above the limit).  The object is never partially
/// constructed.
#[derive(Clone, Copy, Debug, PartialEq, Eq, Structural)]
pub struct ConstructionError;

} // verus!
