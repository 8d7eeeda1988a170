//! The platform's identifier of one installed hook.
use vstd::prelude::*;

verus! {

/// The handle of an installed low-level hook and the id of the thread that
/// owns it. Both are zero until installation succeeded.
#[derive(Copy, Clone, PartialEq, Eq, Structural, Debug)]
pub struct RawHook {
    /// The platform's hook handle; zero when no hook was installed.
    pub raw_handle: usize,
    /// The id of the thread that installed the hook and must be woken to end it.
    pub thread_id: u32,
}

impl RawHook {
    /// The empty record: nothing installed.
    pub open spec fn empty() -> RawHook {
        RawHook { raw_handle: 0, thread_id: 0 }
    }

    /// Whether the record names an installed hook and its thread.
    pub open spec fn is_installed(self) -> bool {
        self.raw_handle != 0 && self.thread_id != 0
    }

    pub fn new() -> (r: RawHook)
        ensures
            r == RawHook::empty(),
    {
        RawHook { raw_handle: 0, thread_id: 0 }
    }

    /// Whether the record names an installed hook and its thread.
    pub fn installed(&self) -> (r: bool)
        ensures
            r == self.is_installed(),
    {
        self.raw_handle != 0 && self.thread_id != 0
    }
}

} // verus!
