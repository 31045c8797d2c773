//! The window accessor: when the native window can be handed out.
//!
//! The platform creates the window some time after the bridge has come up, and
//! nothing signals the moment. Whoever wants the window looks at the window
//! field of the platform handle, sleeps for a short fixed time if it is still
//! null, and looks again. A handle is an address, and 0 stands for a null
//! handle.

use vstd::prelude::*;

verus! {

/// How long to sleep between two looks at the window field, in milliseconds.
pub const WINDOW_POLL_INTERVAL_MS: u64 = 10;

/// What one look at the window field comes to.
#[derive(Clone, Copy, Debug, PartialEq, Eq, Structural)]
pub enum WindowPoll {
    /// No platform handle is recorded: the program was not started through the
    /// bridge. This is an error of the embedding code, and fatal.
    Uninitialized,
    /// The window exists; this is its handle.
    Ready(usize),
    /// The window does not exist yet: sleep for this many milliseconds, and
    /// look again.
    Sleep(u64),
}

/// What one look comes to, where `app` is the recorded platform handle and
/// `window` is the window field that was read from it.
pub open spec fn window_poll(app: usize, window: usize) -> WindowPoll {
    if app == 0 {
        WindowPoll::Uninitialized
    } else if window != 0 {
        WindowPoll::Ready(window)
    } else {
        WindowPoll::Sleep(WINDOW_POLL_INTERVAL_MS)
    }
}

/// Decides on one look at the window field. `app` is the recorded platform
/// handle, 0 if there is none; `window` is the window field that was read from
/// it, and is not looked at where `app` is 0.
pub fn poll_native_window(app: usize, window: usize) -> (poll: WindowPoll)
    ensures
        poll == window_poll(app, window),
{
    if app == 0 {
        WindowPoll::Uninitialized
    } else if window != 0 {
        WindowPoll::Ready(window)
    } else {
        WindowPoll::Sleep(WINDOW_POLL_INTERVAL_MS)
    }
}

/// The wait for the window, given what the window field holds at each look,
/// first look first: the number of sleeps before the window is handed out, and
/// the window. `None` means that no window is handed out at any of these
/// looks: every one of them found the field null, or no platform handle is
/// recorded.
pub open spec fn window_wait(app: usize, looks: Seq<usize>) -> Option<(nat, usize)>
    decreases looks.len(),
{
    if looks.len() == 0 {
        None
    } else {
        match window_poll(app, looks.first()) {
            WindowPoll::Ready(window) => Some((0nat, window)),
            WindowPoll::Sleep(_) => match window_wait(app, looks.drop_first()) {
                Some((sleeps, window)) => Some((sleeps + 1, window)),
                None => None,
            },
            WindowPoll::Uninitialized => None,
        }
    }
}

/// The accessor does not return while the window field is null, and returns at
/// the first look that finds it set, with the handle it found there: if the
/// field is null at the first `sleeps` looks and set at the next, the accessor
/// sleeps exactly `sleeps` times and hands out what that look found. As long as
/// every look finds the field null, the wait is not over.
pub proof fn lemma_window_is_returned_when_set(app: usize, looks: Seq<usize>, sleeps: int)
    requires
        app != 0,
        0 <= sleeps <= looks.len(),
        forall|k: int| 0 <= k < sleeps ==> looks[k] == 0,
    ensures
        sleeps < looks.len() && looks[sleeps] != 0 ==> window_wait(app, looks) == Some(
            (sleeps as nat, looks[sleeps]),
        ),
        sleeps == looks.len() ==> window_wait(app, looks) is None,
    decreases looks.len(),
{
    if looks.len() > 0 && sleeps > 0 {
        let rest = looks.drop_first();
        assert forall|k: int| 0 <= k < sleeps - 1 implies rest[k] == 0 by {
            assert(rest[k] == looks[k + 1]);
        }
        lemma_window_is_returned_when_set(app, rest, sleeps - 1);
        if sleeps < looks.len() {
            assert(rest[sleeps - 1] == looks[sleeps]);
        }
    }
}

/// A program that was not started through the bridge never gets a window:
/// every look ends in `Uninitialized`, whatever the window field holds.
pub proof fn lemma_no_window_without_bridge(window: usize)
    ensures
        window_poll(0, window) == WindowPoll::Uninitialized,
{
}

} // verus!
