use vstd::prelude::*;

verus! {

/// An event triggered by the Android environment.
#[derive(Clone, Copy, Debug, PartialEq, Eq, Structural)]
pub enum Event {
    /// The pointer was released.
    EventUp,
    /// The pointer was pressed.
    EventDown,
    /// The pointer is at `(x, y)`, in device pixels.
    EventMove(i32, i32),
}

} // verus!
