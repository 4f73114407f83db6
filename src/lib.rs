//! A virtual local APIC for one virtual CPU: the set of pending interrupt
//! vectors, the arbitration that picks which vector may be delivered, and the
//! timer that raises its own vector on expiry.

pub mod bitmap;
pub mod vector;
pub mod msr;
pub mod timer;
pub mod lapic;
