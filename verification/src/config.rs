//! The configuration as the state machines see it: a snapshot of the
//! registers to read and to write, replaced as a whole by a background
//! refresher and read at each decision point.

use crate::codec::RegisterDescriptor;
use crate::link::Failure;
use vstd::prelude::*;

verus! {

/// The registers that the machines work on.
#[derive(Debug)]
pub struct Snapshot {
    pub read_registers: Vec<RegisterDescriptor>,
    pub write_registers: Vec<RegisterDescriptor>,
}

impl Snapshot {
    /// Whether a write round follows a read.
    pub fn has_write_registers(&self) -> (has: bool)
        ensures
            has <==> self.write_registers.len() > 0,
    {
        self.write_registers.len() > 0
    }
}

/// Takes a freshly loaded snapshot in place of the current one. A load that
/// failed changes nothing: the current snapshot stays, whole, and the
/// failure is reported.
pub fn refresh(current: &mut Snapshot, loaded: Option<Snapshot>) -> (failure: Option<Failure>)
    ensures
        loaded matches Some(fresh) ==> *final(current) == fresh && failure is None,
        loaded is None ==> *final(current) == *old(current) && failure == Some(
            Failure::ConfigUnavailable,
        ),
{
    match loaded {
        Some(fresh) => {
            *current = fresh;
            None
        },
        None => Some(Failure::ConfigUnavailable),
    }
}

} // verus!
