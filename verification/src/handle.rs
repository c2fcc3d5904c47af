//! Handles and the targets they are acquired for.
//!
//! A handle is acquired for one operation and released before the operation
//! returns. The protocols that see to this are with the operations; here is
//! what they pass around.

use vstd::prelude::*;

verus! {

/// An opaque reference to a system resource, valid until it is released.
#[derive(Clone, Copy, Debug, PartialEq, Eq, Structural)]
pub struct Handle {
    pub raw: usize,
}

/// Access right that suffices to query a process, and grants no control.
pub const PROCESS_QUERY_INFORMATION: u32 = 0x0400;

/// Access right that suffices to query a thread, and grants no control.
pub const THREAD_QUERY_INFORMATION: u32 = 0x0040;

/// What an identifier names.
#[derive(Clone, Copy, Debug, PartialEq, Eq, Structural)]
pub enum TargetKind {
    Process,
    Thread,
}

impl TargetKind {
    /// The access right to ask for when opening a target of this kind.
    pub open spec fn access_spec(self) -> u32 {
        match self {
            TargetKind::Process => PROCESS_QUERY_INFORMATION,
            TargetKind::Thread => THREAD_QUERY_INFORMATION,
        }
    }

    /// The access right to ask for when opening a target of this kind.
    pub fn access(&self) -> (access: u32)
        ensures
            access == self.access_spec(),
    {
        match self {
            TargetKind::Process => PROCESS_QUERY_INFORMATION,
            TargetKind::Thread => THREAD_QUERY_INFORMATION,
        }
    }
}

} // verus!
