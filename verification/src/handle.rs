//! Guard for an owned operating-system handle.
//!
//! A raw handle is carried as a plain machine word. Two well-known values
//! never denote an owned resource: the null handle and the invalid-handle
//! sentinel. The guard records whether its handle has already been handed
//! out for release, so that the close call the platform layer performs
//! happens exactly once per owned handle.

use vstd::prelude::*;

verus! {

/// Raw value of the null handle.
pub const NULL_HANDLE: isize = 0;

/// Raw value of the invalid-handle sentinel.
pub const INVALID_HANDLE_SENTINEL: isize = -1;

/// Ownership guard around one raw handle.
pub struct WindowsHandle {
    raw: isize,
    released: bool,
}

impl WindowsHandle {
    /// The raw handle value held by the guard.
    pub closed spec fn spec_raw(&self) -> isize {
        self.raw
    }

    /// Whether the handle was already handed out for release.
    pub closed spec fn spec_released(&self) -> bool {
        self.released
    }

    /// A raw value denotes a real resource when it is neither the null
    /// handle nor the invalid-handle sentinel.
    pub open spec fn spec_is_valid(&self) -> bool {
        self.spec_raw() != NULL_HANDLE && self.spec_raw() != INVALID_HANDLE_SENTINEL
    }

    /// The guard still owes a release: it holds a real handle that was not
    /// yet handed out.
    pub open spec fn owes_release(&self) -> bool {
        self.spec_is_valid() && !self.spec_released()
    }

    /// Whether the held raw value denotes a real resource.
    pub fn is_valid(&self) -> (r: bool)
        ensures
            r == self.spec_is_valid(),
    {
        self.raw != NULL_HANDLE && self.raw != INVALID_HANDLE_SENTINEL
    }

    /// Wrap a raw handle, with its release still owed if it is real.
    pub fn from_raw_handle(handle: isize) -> (r: WindowsHandle)
        ensures
            r.spec_raw() == handle,
            !r.spec_released(),
    {
        WindowsHandle { raw: handle, released: false }
    }

    /// Read the raw handle back out without affecting ownership.
    pub fn as_raw_handle(&self) -> (r: isize)
        ensures
            r == self.spec_raw(),
    {
        self.raw
    }

    /// Hand the handle out for release. The first call on a guard that owes
    /// a release returns the raw handle; every other call returns nothing,
    /// so the close call is made exactly once per owned resource.
    pub fn take_for_release(&mut self) -> (r: Option<isize>)
        ensures
            final(self).spec_raw() == old(self).spec_raw(),
            final(self).spec_released(),
            r == (if old(self).owes_release() {
                Some(old(self).spec_raw())
            } else {
                Option::<isize>::None
            }),
    {
        let owed = !self.released && self.raw != NULL_HANDLE && self.raw != INVALID_HANDLE_SENTINEL;
        self.released = true;
        if owed {
            Some(self.raw)
        } else {
            None
        }
    }
}

impl Default for WindowsHandle {
    /// A fresh guard holds the invalid-handle sentinel and owes no release.
    fn default() -> (r: Self)
        ensures
            r.spec_raw() == INVALID_HANDLE_SENTINEL,
            !r.spec_released(),
            !r.owes_release(),
    {
        WindowsHandle { raw: INVALID_HANDLE_SENTINEL, released: false }
    }
}

} // verus!
