//! What a host without an unwinder expects a native library to bring along.

use vstd::prelude::*;

verus! {

/// The type behind an opaque reference: a reference to it can be carried and
/// compared, never read through. Its variants are there so that the type is
/// inhabited; nothing constructs or matches them.
#[allow(non_camel_case_types)]
pub enum c_void {
    __variant1,
    __variant2,
}

/// Hook by which a host announces its unwinding tables. Nothing in this
/// library unwinds, so there is nothing to take in.
pub fn rust_eh_register_frames() {
}

/// Hook by which a host withdraws its unwinding tables. Nothing was taken
/// in, so there is nothing to give back.
pub fn rust_eh_unregister_frames() {
}

} // verus!
