//! The bootstrap of the bridge: in which order it comes up, and what the poll
//! thread does for the rest of the process's life.
//!
//! The thread on which the platform enters the program drives a [`Bridge`]. It
//! reports what happened, does what the bridge asks for next, and reports
//! again. The bridge records the platform handle once, has the callbacks and
//! the registry wired into it, has the user's entry function started on a
//! thread of its own, and from then on waits for native event sources and has
//! each one processed. It never asks to stop. A handle is an address, and 0
//! stands for a null handle.

use vstd::prelude::*;

verus! {

/// The time limit of a wait that has none: the poll thread blocks until an
/// event source is ready.
pub const WAIT_FOREVER: i32 = -1;

/// How far the bridge has come. Every state but `Absent` holds the platform
/// handle that was recorded when the platform entered.
#[derive(Clone, Copy, Debug, PartialEq, Eq, Structural)]
pub enum Bridge {
    /// The platform has not entered yet: no handle is recorded.
    Absent,
    /// The handle is recorded; the callbacks and the registry are being wired
    /// into it.
    Wiring { app: usize },
    /// The user's entry function is being started on its own thread.
    Launching { app: usize },
    /// The poll thread is blocked until a native event source is ready.
    Waiting { app: usize },
    /// The event source `source` is being processed.
    Processing { app: usize, source: usize },
}

/// What the poll thread reports to the bridge.
#[derive(Clone, Copy, Debug, PartialEq, Eq, Structural)]
pub enum BridgeEvent {
    /// The platform entered the program with this handle.
    Entered(usize),
    /// The callbacks are installed and the registry is attached.
    Wired,
    /// The user's thread is running.
    Launched,
    /// The wait ended. The event source that is ready, or 0 if the wait ended
    /// without one.
    Woken(usize),
    /// The event source has been processed.
    Processed,
}

/// What the bridge asks of the poll thread.
#[derive(Clone, Copy, Debug, PartialEq, Eq, Structural)]
pub enum BridgeAction {
    /// Make `app` the process-wide platform handle, create the registry,
    /// install the command and input callbacks in the handle and store the
    /// registry in its user-data slot. Then report `Wired`.
    Wire { app: usize },
    /// Start a thread that sends its standard output and error to the platform
    /// log and runs the user's entry function; do not wait for it. Then report
    /// `Launched`.
    Launch,
    /// Block until a native event source is ready, for at most `timeout`
    /// milliseconds, or without limit where `timeout` is negative. Then report
    /// `Woken`.
    Wait { timeout: i32 },
    /// Run the processing routine of `source` on the handle `app`. Then report
    /// `Processed`.
    Process { app: usize, source: usize },
    /// The event does not answer what the bridge is waiting for. Nothing has
    /// changed, and there is nothing to do.
    Ignore,
}

impl Bridge {
    /// The recorded platform handle, if there is one.
    pub open spec fn handle(self) -> Option<usize> {
        match self {
            Bridge::Absent => None,
            Bridge::Wiring { app } => Some(app),
            Bridge::Launching { app } => Some(app),
            Bridge::Waiting { app } => Some(app),
            Bridge::Processing { app, .. } => Some(app),
        }
    }

    /// The bridge before the platform has entered.
    pub fn new() -> (bridge: Bridge)
        ensures
            bridge == Bridge::Absent,
    {
        Bridge::Absent
    }

    /// The recorded platform handle, if there is one.
    pub fn app(self) -> (app: Option<usize>)
        ensures
            app == self.handle(),
    {
        match self {
            Bridge::Absent => None,
            Bridge::Wiring { app } => Some(app),
            Bridge::Launching { app } => Some(app),
            Bridge::Waiting { app } => Some(app),
            Bridge::Processing { app, .. } => Some(app),
        }
    }

    /// Takes `event` and says what to do next.
    pub fn step(self, event: BridgeEvent) -> (next: (Bridge, BridgeAction))
        ensures
            next == bridge_step(self, event),
    {
        match (self, event) {
            (Bridge::Absent, BridgeEvent::Entered(app)) => {
                if app == 0 {
                    (self, BridgeAction::Ignore)
                } else {
                    (Bridge::Wiring { app }, BridgeAction::Wire { app })
                }
            },
            (Bridge::Wiring { app }, BridgeEvent::Wired) => (
                Bridge::Launching { app },
                BridgeAction::Launch,
            ),
            (Bridge::Launching { app }, BridgeEvent::Launched) => (
                Bridge::Waiting { app },
                BridgeAction::Wait { timeout: WAIT_FOREVER },
            ),
            (Bridge::Waiting { app }, BridgeEvent::Woken(source)) => {
                if source == 0 {
                    (self, BridgeAction::Wait { timeout: WAIT_FOREVER })
                } else {
                    (Bridge::Processing { app, source }, BridgeAction::Process { app, source })
                }
            },
            (Bridge::Processing { app, .. }, BridgeEvent::Processed) => (
                Bridge::Waiting { app },
                BridgeAction::Wait { timeout: WAIT_FOREVER },
            ),
            _ => (self, BridgeAction::Ignore),
        }
    }
}

/// One step of the bridge: the state it moves to and what it asks for.
///
/// When the platform enters with a handle, the handle is recorded and the
/// wiring is asked for; a null handle is not recorded. After the wiring comes
/// the launch of the user's thread, and after the launch the first wait. A wait
/// that ends with an event source has that source processed; one that ends
/// without goes on waiting. After processing comes the next wait. An event that
/// the bridge is not waiting for changes nothing.
pub open spec fn bridge_step(bridge: Bridge, event: BridgeEvent) -> (Bridge, BridgeAction) {
    match (bridge, event) {
        (Bridge::Absent, BridgeEvent::Entered(app)) => if app == 0 {
            (bridge, BridgeAction::Ignore)
        } else {
            (Bridge::Wiring { app }, BridgeAction::Wire { app })
        },
        (Bridge::Wiring { app }, BridgeEvent::Wired) => (
            Bridge::Launching { app },
            BridgeAction::Launch,
        ),
        (Bridge::Launching { app }, BridgeEvent::Launched) => (
            Bridge::Waiting { app },
            BridgeAction::Wait { timeout: WAIT_FOREVER },
        ),
        (Bridge::Waiting { app }, BridgeEvent::Woken(source)) => if source == 0 {
            (bridge, BridgeAction::Wait { timeout: WAIT_FOREVER })
        } else {
            (Bridge::Processing { app, source }, BridgeAction::Process { app, source })
        },
        (Bridge::Processing { app, .. }, BridgeEvent::Processed) => (
            Bridge::Waiting { app },
            BridgeAction::Wait { timeout: WAIT_FOREVER },
        ),
        _ => (bridge, BridgeAction::Ignore),
    }
}

/// The bridge from the start of the process: the state it is in after
/// `events`, and everything it asked for on the way, oldest first.
pub open spec fn bridge_run(events: Seq<BridgeEvent>) -> (Bridge, Seq<BridgeAction>)
    decreases events.len(),
{
    if events.len() == 0 {
        (Bridge::Absent, Seq::empty())
    } else {
        let (bridge, actions) = bridge_run(events.drop_last());
        let (next, action) = bridge_step(bridge, events.last());
        (next, actions.push(action))
    }
}

/// How many of `actions` ask for the wiring.
pub open spec fn wirings(actions: Seq<BridgeAction>) -> nat
    decreases actions.len(),
{
    if actions.len() == 0 {
        0
    } else {
        wirings(actions.drop_last()) + if actions.last() is Wire {
            1nat
        } else {
            0nat
        }
    }
}

/// How many of `actions` ask for the user's thread to be started.
pub open spec fn launches(actions: Seq<BridgeAction>) -> nat
    decreases actions.len(),
{
    if actions.len() == 0 {
        0
    } else {
        launches(actions.drop_last()) + if actions.last() is Launch {
            1nat
        } else {
            0nat
        }
    }
}

/// How many of `actions` belong to the poll loop: a wait, or the processing of
/// an event source.
pub open spec fn polls(actions: Seq<BridgeAction>) -> nat
    decreases actions.len(),
{
    if actions.len() == 0 {
        0
    } else {
        polls(actions.drop_last()) + if actions.last() is Wait || actions.last() is Process {
            1nat
        } else {
            0nat
        }
    }
}

/// The action is in order for a bridge that holds the handle `app`: if it
/// names a platform handle, it names `app`; if it has an event source
/// processed, the source is a real one; if it is a wait, it has no time limit.
pub open spec fn action_on(action: BridgeAction, app: usize) -> bool {
    match action {
        BridgeAction::Wire { app: wired } => wired == app,
        BridgeAction::Process { app: polled, source } => polled == app && source != 0,
        BridgeAction::Wait { timeout } => timeout == WAIT_FOREVER,
        _ => true,
    }
}

/// Every action of `actions` is in order for a bridge that holds `app`.
pub open spec fn all_on(actions: Seq<BridgeAction>, app: usize) -> bool {
    forall|k: int| 0 <= k < actions.len() ==> action_on(#[trigger] actions[k], app)
}

/// What holds of the bridge and of what it has asked for, whatever it was told.
spec fn bridge_inv(bridge: Bridge, actions: Seq<BridgeAction>) -> bool {
    match bridge {
        Bridge::Absent => {
            &&& wirings(actions) == 0
            &&& launches(actions) == 0
            &&& polls(actions) == 0
        },
        Bridge::Wiring { app } => {
            &&& app != 0
            &&& wirings(actions) == 1
            &&& launches(actions) == 0
            &&& polls(actions) == 0
            &&& all_on(actions, app)
        },
        Bridge::Launching { app } => {
            &&& app != 0
            &&& wirings(actions) == 1
            &&& launches(actions) == 1
            &&& polls(actions) == 0
            &&& all_on(actions, app)
        },
        Bridge::Waiting { app } => {
            &&& app != 0
            &&& wirings(actions) == 1
            &&& launches(actions) == 1
            &&& polls(actions) >= 1
            &&& all_on(actions, app)
        },
        Bridge::Processing { app, source } => {
            &&& app != 0
            &&& source != 0
            &&& wirings(actions) == 1
            &&& launches(actions) == 1
            &&& polls(actions) >= 1
            &&& all_on(actions, app)
        },
    }
}

proof fn lemma_bridge_inv(events: Seq<BridgeEvent>)
    ensures
        bridge_inv(bridge_run(events).0, bridge_run(events).1),
    decreases events.len(),
{
    if events.len() > 0 {
        lemma_bridge_inv(events.drop_last());
        let (bridge, actions) = bridge_run(events.drop_last());
        let (next, action) = bridge_step(bridge, events.last());
        let grown = actions.push(action);
        assert(grown.drop_last() =~= actions);
        if let Some(app) = next.handle() {
            if bridge == Bridge::Absent {
                lemma_nothing_asked(actions, app);
            }
            assert(all_on(actions, app));
            assert(action_on(action, app));
            assert forall|k: int| 0 <= k < grown.len() implies action_on(
                #[trigger] grown[k],
                app,
            ) by {
                if k < actions.len() {
                    assert(grown[k] == actions[k]);
                }
            }
        }
    }
}

/// Where nothing has been wired or polled, every action is in order for any
/// handle.
proof fn lemma_nothing_asked(actions: Seq<BridgeAction>, app: usize)
    requires
        wirings(actions) == 0,
        polls(actions) == 0,
    ensures
        all_on(actions, app),
    decreases actions.len(),
{
    if actions.len() > 0 {
        lemma_nothing_asked(actions.drop_last(), app);
        assert forall|k: int| 0 <= k < actions.len() implies action_on(
            #[trigger] actions[k],
            app,
        ) by {
            if k < actions.len() - 1 {
                assert(actions.drop_last()[k] == actions[k]);
            }
        }
    }
}

/// A run that is cut short asked for what the whole run asked for up to there.
proof fn lemma_bridge_run_prefix(events: Seq<BridgeEvent>, k: int)
    requires
        0 <= k <= events.len(),
    ensures
        bridge_run(events.take(k)).1 == bridge_run(events).1.take(k),
        bridge_run(events).1.len() == events.len(),
    decreases events.len(),
{
    if events.len() == 0 {
        assert(events.take(k) =~= events);
        assert(bridge_run(events).1.take(k) =~= bridge_run(events).1);
    } else if k == events.len() {
        lemma_bridge_run_prefix(events.drop_last(), k - 1);
        assert(events.take(k) =~= events);
        assert(bridge_run(events).1.take(k) =~= bridge_run(events).1);
    } else {
        lemma_bridge_run_prefix(events.drop_last(), k);
        assert(events.drop_last().take(k) =~= events.take(k));
        assert(bridge_run(events).1.take(k) =~= bridge_run(events.drop_last()).1.take(k));
    }
}

/// The platform handle is written once. A bridge that holds a handle holds the
/// same handle after any event, and a bridge that holds none takes one only
/// from the platform's entry, and never a null one.
pub proof fn lemma_handle_is_written_once(bridge: Bridge, event: BridgeEvent)
    ensures
        bridge.handle() is Some ==> bridge_step(bridge, event).0.handle() == bridge.handle(),
        bridge.handle() is None ==> bridge_step(bridge, event).0.handle() == (match event {
            BridgeEvent::Entered(app) if app != 0 => Some(app),
            _ => None,
        }),
{
}

/// The order in which the bridge comes up, at every moment of every run,
/// whatever the poll thread reports: the wiring is asked for at most once, and
/// so is the launch of the user's thread; the thread is not launched before the
/// wiring was asked for; and the poll loop does not begin before the launch.
/// Every action that names a platform handle names the one that is recorded.
pub proof fn lemma_bridge_comes_up_in_order(events: Seq<BridgeEvent>, k: int)
    requires
        0 <= k <= events.len(),
    ensures
        bridge_run(events).1.len() == events.len(),
        wirings(bridge_run(events).1.take(k)) <= 1,
        launches(bridge_run(events).1.take(k)) <= wirings(bridge_run(events).1.take(k)),
        polls(bridge_run(events).1.take(k)) > 0 ==> launches(bridge_run(events).1.take(k)) == 1,
        bridge_run(events).0.handle() matches Some(app) ==> app != 0 && all_on(
            bridge_run(events).1,
            app,
        ),
        bridge_run(events).0.handle() is None ==> wirings(bridge_run(events).1) == 0,
{
    lemma_bridge_run_prefix(events, k);
    lemma_bridge_inv(events.take(k));
    lemma_bridge_inv(events);
}

/// The poll loop has no exit: once the user's thread is launched, every event
/// leaves the bridge waiting or processing, and what it asks for is a wait
/// without a time limit, the processing of a real event source, or nothing.
pub proof fn lemma_poll_loop_never_ends(bridge: Bridge, event: BridgeEvent)
    requires
        bridge is Waiting || bridge is Processing,
    ensures
        bridge_step(bridge, event).0 is Waiting || bridge_step(bridge, event).0 is Processing,
        !(bridge_step(bridge, event).1 is Wire) && !(bridge_step(bridge, event).1 is Launch),
        bridge.handle() matches Some(app) && action_on(bridge_step(bridge, event).1, app),
        bridge_step(bridge, event).1 is Ignore ==> bridge_step(bridge, event).0 == bridge,
{
}

} // verus!
