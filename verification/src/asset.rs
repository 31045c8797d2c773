//! The asset loader: in which order a bundled asset is opened, read and
//! released, and what the load returns.
//!
//! The platform's asset manager is reached by the embedding code. It drives an
//! [`AssetLoad`]: it hands in what the platform answered, does what the load
//! asks for next, and stops when the load finishes. The load decides; the
//! driver only calls. A handle is an address, and 0 stands for a null handle.

use vstd::prelude::*;
use vstd::slice::slice_to_vec;

verus! {

/// Why an asset could not be loaded.
#[derive(Clone, Copy, Debug, PartialEq, Eq, Structural)]
pub enum AssetError {
    /// No asset has the requested name.
    AssetMissing,
    /// The asset was opened, but the platform has no buffer for it.
    EmptyBuffer,
}

/// The access mode in which assets are opened: read sequentially, front to back.
pub const MODE_STREAMING: i32 = 2;

/// How far a load has come.
#[derive(Clone, Copy, Debug, PartialEq, Eq, Structural)]
pub enum AssetLoad {
    /// Nothing has been asked of the platform yet.
    Idle,
    /// The platform was asked to open the asset.
    Opening,
    /// The asset is open under the handle `asset`, and the platform was asked
    /// for its contents.
    Reading { asset: usize },
    /// The load is over.
    Finished,
}

/// What the driver reports to a load.
#[derive(Clone, Copy, Debug, PartialEq, Eq)]
pub enum AssetEvent<'a> {
    /// The load is to begin.
    Start,
    /// The platform answered the request to open: the asset's handle, or 0
    /// where no asset has that name.
    Opened(usize),
    /// The platform answered the request for the contents: the asset's buffer,
    /// as long as the asset's declared length, or `None` where it has none.
    Contents(Option<&'a [u8]>),
}

/// What a load asks of its driver.
#[derive(Debug, PartialEq, Eq)]
pub enum AssetAction {
    /// Open the asset by its name, in the access mode `mode`, and report
    /// `Opened`.
    Open { mode: i32 },
    /// Ask for the length and the buffer of the open asset, and report
    /// `Contents`.
    Read { asset: usize },
    /// Stop: close the handle `release`, if there is one, and return `outcome`
    /// to whoever asked for the asset.
    Finish { release: Option<usize>, outcome: Result<Vec<u8>, AssetError> },
    /// The event does not answer what the load is waiting for. Nothing has
    /// changed, and there is nothing to do.
    Ignore,
}

/// An [`AssetEvent`] with its bytes as a sequence.
pub enum LoadEvent {
    Start,
    Opened(usize),
    Contents(Option<Seq<u8>>),
}

/// An [`AssetAction`] with its bytes as a sequence.
pub enum LoadAction {
    Open { mode: i32 },
    Read { asset: usize },
    Finish { release: Option<usize>, outcome: Result<Seq<u8>, AssetError> },
    Ignore,
}

impl<'a> View for AssetEvent<'a> {
    type V = LoadEvent;

    open spec fn view(&self) -> LoadEvent {
        match *self {
            AssetEvent::Start => LoadEvent::Start,
            AssetEvent::Opened(asset) => LoadEvent::Opened(asset),
            AssetEvent::Contents(Some(buffer)) => LoadEvent::Contents(Some(buffer@)),
            AssetEvent::Contents(None) => LoadEvent::Contents(None),
        }
    }
}

impl View for AssetAction {
    type V = LoadAction;

    open spec fn view(&self) -> LoadAction {
        match *self {
            AssetAction::Open { mode } => LoadAction::Open { mode },
            AssetAction::Read { asset } => LoadAction::Read { asset },
            AssetAction::Finish { release, outcome: Ok(bytes) } => LoadAction::Finish {
                release,
                outcome: Ok(bytes@),
            },
            AssetAction::Finish { release, outcome: Err(error) } => LoadAction::Finish {
                release,
                outcome: Err(error),
            },
            AssetAction::Ignore => LoadAction::Ignore,
        }
    }
}

/// One step of a load: the state it moves to and what it asks for.
///
/// A load that begins asks for the asset to be opened, in streaming mode. If
/// the platform has no such asset, the load finishes with `AssetMissing`, and
/// there is no handle to close. Otherwise it asks for the contents. If the
/// platform has no buffer, it finishes with `EmptyBuffer`; if it has one, it
/// finishes with a copy of the bytes. Either way the handle is to be closed.
/// An event that the load is not waiting for changes nothing.
pub open spec fn load_step(load: AssetLoad, event: LoadEvent) -> (AssetLoad, LoadAction) {
    match (load, event) {
        (AssetLoad::Idle, LoadEvent::Start) => (
            AssetLoad::Opening,
            LoadAction::Open { mode: MODE_STREAMING },
        ),
        (AssetLoad::Opening, LoadEvent::Opened(asset)) => if asset == 0 {
            (
                AssetLoad::Finished,
                LoadAction::Finish { release: None, outcome: Err(AssetError::AssetMissing) },
            )
        } else {
            (AssetLoad::Reading { asset }, LoadAction::Read { asset })
        },
        (AssetLoad::Reading { asset }, LoadEvent::Contents(None)) => (
            AssetLoad::Finished,
            LoadAction::Finish { release: Some(asset), outcome: Err(AssetError::EmptyBuffer) },
        ),
        (AssetLoad::Reading { asset }, LoadEvent::Contents(Some(bytes))) => (
            AssetLoad::Finished,
            LoadAction::Finish { release: Some(asset), outcome: Ok(bytes) },
        ),
        _ => (load, LoadAction::Ignore),
    }
}

impl AssetLoad {
    /// A load that has not begun.
    pub fn new() -> (load: AssetLoad)
        ensures
            load == AssetLoad::Idle,
    {
        AssetLoad::Idle
    }

    /// Takes `event` and says what to do next. The bytes that a finished load
    /// returns are a copy: they do not borrow from the platform's buffer.
    pub fn step(self, event: AssetEvent) -> (next: (AssetLoad, AssetAction))
        ensures
            (next.0, next.1@) == load_step(self, event@),
    {
        match (self, event) {
            (AssetLoad::Idle, AssetEvent::Start) => (
                AssetLoad::Opening,
                AssetAction::Open { mode: MODE_STREAMING },
            ),
            (AssetLoad::Opening, AssetEvent::Opened(asset)) => {
                if asset == 0 {
                    (
                        AssetLoad::Finished,
                        AssetAction::Finish {
                            release: None,
                            outcome: Err(AssetError::AssetMissing),
                        },
                    )
                } else {
                    (AssetLoad::Reading { asset }, AssetAction::Read { asset })
                }
            },
            (AssetLoad::Reading { asset }, AssetEvent::Contents(None)) => (
                AssetLoad::Finished,
                AssetAction::Finish {
                    release: Some(asset),
                    outcome: Err(AssetError::EmptyBuffer),
                },
            ),
            (AssetLoad::Reading { asset }, AssetEvent::Contents(Some(buffer))) => (
                AssetLoad::Finished,
                AssetAction::Finish { release: Some(asset), outcome: Ok(slice_to_vec(buffer)) },
            ),
            (load, _) => (load, AssetAction::Ignore),
        }
    }
}

/// A load from its beginning: the state it is in after `events`, and
/// everything it asked for on the way, oldest first.
pub open spec fn load_run(events: Seq<LoadEvent>) -> (AssetLoad, Seq<LoadAction>)
    decreases events.len(),
{
    if events.len() == 0 {
        (AssetLoad::Idle, Seq::empty())
    } else {
        let (load, actions) = load_run(events.drop_last());
        let (next, action) = load_step(load, events.last());
        (next, actions.push(action))
    }
}

/// How often `actions` asks for the contents of the handle `asset`: how often
/// that handle was opened.
pub open spec fn opened(actions: Seq<LoadAction>, asset: usize) -> nat
    decreases actions.len(),
{
    if actions.len() == 0 {
        0
    } else {
        opened(actions.drop_last(), asset) + if actions.last() == (LoadAction::Read { asset }) {
            1nat
        } else {
            0nat
        }
    }
}

/// How often `actions` asks for the handle `asset` to be closed.
pub open spec fn released(actions: Seq<LoadAction>, asset: usize) -> nat
    decreases actions.len(),
{
    if actions.len() == 0 {
        0
    } else {
        released(actions.drop_last(), asset) + if actions.last() matches LoadAction::Finish {
            release: Some(handle),
            ..
        } && handle == asset {
            1nat
        } else {
            0nat
        }
    }
}

/// How often `actions` finishes the load.
pub open spec fn finished(actions: Seq<LoadAction>) -> nat
    decreases actions.len(),
{
    if actions.len() == 0 {
        0
    } else {
        finished(actions.drop_last()) + if actions.last() is Finish {
            1nat
        } else {
            0nat
        }
    }
}

/// What holds of a load and of what it has asked for, whatever it was told.
spec fn load_inv(load: AssetLoad, actions: Seq<LoadAction>) -> bool {
    match load {
        AssetLoad::Idle | AssetLoad::Opening => {
            &&& finished(actions) == 0
            &&& forall|handle: usize|
                opened(actions, handle) == 0 && released(actions, handle) == 0
        },
        AssetLoad::Reading { asset } => {
            &&& asset != 0
            &&& finished(actions) == 0
            &&& opened(actions, asset) == 1
            &&& forall|handle: usize| handle != asset ==> opened(actions, handle) == 0
            &&& forall|handle: usize| released(actions, handle) == 0
        },
        AssetLoad::Finished => {
            &&& finished(actions) == 1
            &&& opened(actions, 0) == 0
            &&& forall|handle: usize|
                opened(actions, handle) <= 1 && released(actions, handle) == opened(
                    actions,
                    handle,
                )
        },
    }
}

proof fn lemma_load_inv(events: Seq<LoadEvent>)
    ensures
        load_inv(load_run(events).0, load_run(events).1),
    decreases events.len(),
{
    if events.len() > 0 {
        lemma_load_inv(events.drop_last());
        let (load, actions) = load_run(events.drop_last());
        let (next, action) = load_step(load, events.last());
        let grown = actions.push(action);
        assert(grown.drop_last() =~= actions);
        assert(grown.last() == action);
        assert(finished(grown) == finished(actions) + if action is Finish {
            1nat
        } else {
            0nat
        });
        assert forall|handle: usize|
            opened(grown, handle) == opened(actions, handle) + if action == (LoadAction::Read {
                asset: handle,
            }) {
                1nat
            } else {
                0nat
            } by {}
        assert forall|handle: usize|
            released(grown, handle) == released(actions, handle)
                + if action matches LoadAction::Finish { release: Some(h), .. } && h == handle {
                1nat
            } else {
                0nat
            } by {}
    }
}

/// Every handle that a load opens is closed exactly once, when the load
/// finishes, and no other handle is ever closed; a load finishes at most once.
/// This holds whatever the driver reports, in whatever order.
pub proof fn lemma_opened_asset_is_closed_once(events: Seq<LoadEvent>, asset: usize)
    ensures
        finished(load_run(events).1) <= 1,
        finished(load_run(events).1) == 1 <==> load_run(events).0 == AssetLoad::Finished,
        opened(load_run(events).1, asset) <= 1,
        opened(load_run(events).1, 0) == 0,
        load_run(events).0 == AssetLoad::Finished ==> released(load_run(events).1, asset)
            == opened(load_run(events).1, asset),
        load_run(events).0 != AssetLoad::Finished ==> released(load_run(events).1, asset) == 0,
{
    lemma_load_inv(events);
}

/// A name that no asset has: the load asks for the asset to be opened and then
/// finishes with `AssetMissing`. It asks for no contents and closes nothing.
pub proof fn lemma_missing_asset()
    ensures
        load_run(seq![LoadEvent::Start, LoadEvent::Opened(0)]) == (
            AssetLoad::Finished,
            seq![
                LoadAction::Open { mode: MODE_STREAMING },
                LoadAction::Finish { release: None, outcome: Err(AssetError::AssetMissing) },
            ],
        ),
{
    let events = seq![LoadEvent::Start, LoadEvent::Opened(0)];
    lemma_run_two(LoadEvent::Start, LoadEvent::Opened(0));
    assert(load_run(events).1 =~= seq![
        LoadAction::Open { mode: MODE_STREAMING },
        LoadAction::Finish { release: None, outcome: Err(AssetError::AssetMissing) },
    ]);
}

/// An asset that opens but has no buffer: the load finishes with
/// `EmptyBuffer`, and asks for the handle to be closed, once.
pub proof fn lemma_asset_without_buffer(asset: usize)
    requires
        asset != 0,
    ensures
        load_run(seq![LoadEvent::Start, LoadEvent::Opened(asset), LoadEvent::Contents(None)]) == (
            AssetLoad::Finished,
            seq![
                LoadAction::Open { mode: MODE_STREAMING },
                LoadAction::Read { asset },
                LoadAction::Finish {
                    release: Some(asset),
                    outcome: Err(AssetError::EmptyBuffer),
                },
            ],
        ),
        released(
            load_run(
                seq![LoadEvent::Start, LoadEvent::Opened(asset), LoadEvent::Contents(None)],
            ).1,
            asset,
        ) == 1,
{
    let events = seq![LoadEvent::Start, LoadEvent::Opened(asset), LoadEvent::Contents(None)];
    lemma_run_three(LoadEvent::Start, LoadEvent::Opened(asset), LoadEvent::Contents(None));
    assert(load_run(events).1 =~= seq![
        LoadAction::Open { mode: MODE_STREAMING },
        LoadAction::Read { asset },
        LoadAction::Finish { release: Some(asset), outcome: Err(AssetError::EmptyBuffer) },
    ]);
    lemma_count_three(
        LoadAction::Open { mode: MODE_STREAMING },
        LoadAction::Read { asset },
        LoadAction::Finish { release: Some(asset), outcome: Err(AssetError::EmptyBuffer) },
        asset,
    );
}

/// An asset that opens and has a buffer: the load finishes with exactly the
/// bytes of that buffer, and asks for the handle to be closed, once.
pub proof fn lemma_present_asset(asset: usize, bytes: Seq<u8>)
    requires
        asset != 0,
    ensures
        load_run(
            seq![LoadEvent::Start, LoadEvent::Opened(asset), LoadEvent::Contents(Some(bytes))],
        ) == (
            AssetLoad::Finished,
            seq![
                LoadAction::Open { mode: MODE_STREAMING },
                LoadAction::Read { asset },
                LoadAction::Finish { release: Some(asset), outcome: Ok(bytes) },
            ],
        ),
        released(
            load_run(
                seq![LoadEvent::Start, LoadEvent::Opened(asset), LoadEvent::Contents(Some(bytes))],
            ).1,
            asset,
        ) == 1,
{
    let events = seq![
        LoadEvent::Start,
        LoadEvent::Opened(asset),
        LoadEvent::Contents(Some(bytes)),
    ];
    lemma_run_three(LoadEvent::Start, LoadEvent::Opened(asset), LoadEvent::Contents(Some(bytes)));
    assert(load_run(events).1 =~= seq![
        LoadAction::Open { mode: MODE_STREAMING },
        LoadAction::Read { asset },
        LoadAction::Finish { release: Some(asset), outcome: Ok(bytes) },
    ]);
    lemma_count_three(
        LoadAction::Open { mode: MODE_STREAMING },
        LoadAction::Read { asset },
        LoadAction::Finish { release: Some(asset), outcome: Ok(bytes) },
        asset,
    );
}

/// A run that is told one thing more takes one step more.
proof fn lemma_run_push(events: Seq<LoadEvent>, event: LoadEvent)
    ensures
        load_run(events.push(event)) == ({
            let (load, actions) = load_run(events);
            let (next, action) = load_step(load, event);
            (next, actions.push(action))
        }),
{
    assert(events.push(event).drop_last() =~= events);
}

proof fn lemma_run_two(first: LoadEvent, second: LoadEvent)
    ensures
        load_run(seq![first, second]) == ({
            let (a, x) = load_step(AssetLoad::Idle, first);
            let (b, y) = load_step(a, second);
            (b, seq![x, y])
        }),
{
    lemma_run_push(Seq::empty(), first);
    assert(seq![first] =~= Seq::empty().push(first));
    lemma_run_push(seq![first], second);
    assert(seq![first, second] =~= seq![first].push(second));
    let (a, x) = load_step(AssetLoad::Idle, first);
    let (b, y) = load_step(a, second);
    assert(seq![x, y] =~= Seq::empty().push(x).push(y));
}

proof fn lemma_run_three(first: LoadEvent, second: LoadEvent, third: LoadEvent)
    ensures
        load_run(seq![first, second, third]) == ({
            let (a, x) = load_step(AssetLoad::Idle, first);
            let (b, y) = load_step(a, second);
            let (c, z) = load_step(b, third);
            (c, seq![x, y, z])
        }),
{
    lemma_run_two(first, second);
    lemma_run_push(seq![first, second], third);
    assert(seq![first, second, third] =~= seq![first, second].push(third));
    let (a, x) = load_step(AssetLoad::Idle, first);
    let (b, y) = load_step(a, second);
    let (c, z) = load_step(b, third);
    assert(seq![x, y, z] =~= seq![x, y].push(z));
}

proof fn lemma_released_push(actions: Seq<LoadAction>, action: LoadAction, asset: usize)
    ensures
        released(actions.push(action), asset) == released(actions, asset)
            + if action matches LoadAction::Finish { release: Some(handle), .. } && handle
            == asset {
            1nat
        } else {
            0nat
        },
{
    assert(actions.push(action).drop_last() =~= actions);
}

proof fn lemma_count_three(x: LoadAction, y: LoadAction, z: LoadAction, asset: usize)
    requires
        !(x is Finish),
        !(y is Finish),
        z matches LoadAction::Finish { release: Some(handle), .. } && handle == asset,
    ensures
        released(seq![x, y, z], asset) == 1,
{
    lemma_released_push(Seq::empty(), x, asset);
    assert(seq![x] =~= Seq::empty().push(x));
    lemma_released_push(seq![x], y, asset);
    assert(seq![x, y] =~= seq![x].push(y));
    lemma_released_push(seq![x, y], z, asset);
    assert(seq![x, y, z] =~= seq![x, y].push(z));
}

} // verus!
