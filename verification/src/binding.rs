//! Binding of the target window to the event window.
//!
//! The click handler runs as a callback of the platform's message
//! dispatcher and cannot capture surrounding state, so the discovered
//! target window is stored against the event window under one fixed,
//! well-known key and read back on every click. The store itself lives in
//! the operating system's per-window property mechanism; the platform
//! layer mirrors every write and removal there and hands their outcomes in.

use vstd::prelude::*;

verus! {

/// Failure of a binding operation.
#[derive(Debug)]
pub enum BindingError {
    /// The platform's store rejected the write.
    StoreWriteFailed,
    /// No binding is stored against the event window.
    BindingMissing,
}

/// The association between the event window and the target window.
///
/// At most one binding exists per event window; it is written once after
/// discovery, read by every click callback, and removed at shutdown.
pub struct BindingRegistry {
    /// Event window the binding is attached to.
    pub event_hwnd: isize,
    /// The bound target window, if one is stored.
    pub binding: Option<isize>,
}

impl BindingRegistry {
    /// An empty registry for one event window.
    pub fn new(event_hwnd: isize) -> (r: BindingRegistry)
        ensures
            r.event_hwnd == event_hwnd,
            r.binding is None,
    {
        BindingRegistry { event_hwnd, binding: None }
    }

    /// Store the target window against the event window.
    ///
    /// `store_accepted` is the outcome of the mirrored platform write: when
    /// the store rejected it, nothing is bound and the caller must treat
    /// startup as failed.
    pub fn bind(&mut self, target_hwnd: isize, store_accepted: bool) -> (r: Result<
        (),
        BindingError,
    >)
        ensures
            final(self).event_hwnd == old(self).event_hwnd,
            store_accepted ==> {
                &&& r is Ok
                &&& final(self).binding == Some(target_hwnd)
            },
            !store_accepted ==> {
                &&& r == Result::<(), BindingError>::Err(BindingError::StoreWriteFailed)
                &&& final(self).binding == old(self).binding
            },
    {
        if store_accepted {
            self.binding = Some(target_hwnd);
            Ok(())
        } else {
            Err(BindingError::StoreWriteFailed)
        }
    }

    /// Read the bound target window back, as the click callback does. A
    /// missing binding is reported, never invented; the caller drops the
    /// click.
    pub fn lookup(&self) -> (r: Result<isize, BindingError>)
        ensures
            match self.binding {
                Some(hwnd) => r == Result::<isize, BindingError>::Ok(hwnd),
                None => r == Result::<isize, BindingError>::Err(BindingError::BindingMissing),
            },
    {
        match self.binding {
            Some(hwnd) => Ok(hwnd),
            None => Err(BindingError::BindingMissing),
        }
    }

    /// Remove the binding at shutdown. The mirrored platform removal may
    /// fail; the failure is reported for logging but the binding is gone
    /// either way, and teardown goes on.
    pub fn unbind(&mut self, store_accepted: bool) -> (ok: bool)
        ensures
            final(self).event_hwnd == old(self).event_hwnd,
            final(self).binding is None,
            ok == store_accepted,
    {
        self.binding = None;
        store_accepted
    }
}

} // verus!
