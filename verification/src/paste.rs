//! The application that had the focus when recording began, so that the
//! transcript is pasted where the user was typing.

use vstd::prelude::*;

verus! {

/// The frontmost application, by process id.
#[derive(Clone, Copy, PartialEq, Eq, Structural, Debug)]
pub struct FocusTarget {
    pub pid: i32,
}

} // verus!
