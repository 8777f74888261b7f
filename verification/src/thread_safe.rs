//! The window handle as it travels to other threads.

use vstd::prelude::*;

verus! {

/// Handle of a native window, held as the plain number that the toolkit gave.
///
/// A worker may keep one only to address notifications to the window that owns it. The
/// handle names a live window from the window's creation until its destruction; what is
/// addressed to it afterwards is dropped.
#[derive(Clone, Copy, Debug, PartialEq, Eq, Structural)]
pub struct ThreadSafeHwnd(pub isize);

impl ThreadSafeHwnd {
    /// The number that the toolkit knows the window by.
    pub fn raw(&self) -> (h: isize)
        ensures
            h == self.0,
    {
        self.0
    }
}

} // verus!
