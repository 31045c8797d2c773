use android_glue::asset::{AssetAction, AssetEvent, AssetLoad, MODE_STREAMING};
use android_glue::AssetError;

#[derive(Default)]
struct FakeAssets {
    handle: usize,
    contents: Option<Vec<u8>>,
    modes: Vec<i32>,
    reads: Vec<usize>,
    closes: Vec<usize>,
}

impl FakeAssets {
    fn absent() -> FakeAssets {
        FakeAssets::default()
    }

    fn without_buffer(handle: usize) -> FakeAssets {
        FakeAssets { handle, ..FakeAssets::default() }
    }

    fn present(handle: usize, contents: &[u8]) -> FakeAssets {
        FakeAssets { handle, contents: Some(contents.to_vec()), ..FakeAssets::default() }
    }

    fn load(&mut self) -> Result<Vec<u8>, AssetError> {
        let (mut load, mut action) = AssetLoad::new().step(AssetEvent::Start);
        loop {
            let event = match action {
                AssetAction::Open { mode } => {
                    self.modes.push(mode);
                    AssetEvent::Opened(self.handle)
                }
                AssetAction::Read { asset } => {
                    self.reads.push(asset);
                    AssetEvent::Contents(self.contents.as_deref())
                }
                AssetAction::Finish { release, outcome } => {
                    if let Some(asset) = release {
                        self.closes.push(asset);
                    }
                    assert_eq!(load, AssetLoad::Finished);
                    return outcome;
                }
                AssetAction::Ignore => panic!("the load ignored an answer to its own request"),
            };
            let (next, asked) = load.step(event);
            load = next;
            action = asked;
        }
    }
}

#[test]
fn streaming_mode_has_its_platform_value() {
    assert_eq!(MODE_STREAMING, 2);
}

#[test]
fn a_load_begins_by_opening_in_streaming_mode() {
    let load = AssetLoad::new();
    assert_eq!(load, AssetLoad::Idle);
    let (load, action) = load.step(AssetEvent::Start);
    assert_eq!(load, AssetLoad::Opening);
    assert_eq!(action, AssetAction::Open { mode: 2 });
}

#[test]
fn present_asset_is_returned_byte_for_byte() {
    let mut assets = FakeAssets::present(0x5000, b"hello, asset\n\0\xff");
    assert_eq!(assets.load(), Ok(b"hello, asset\n\0\xff".to_vec()));
    assert_eq!(assets.modes, vec![MODE_STREAMING]);
    assert_eq!(assets.reads, vec![0x5000]);
    assert_eq!(assets.closes, vec![0x5000]);
}

#[test]
fn large_asset_is_returned_byte_for_byte() {
    let contents: Vec<u8> = (0..100_000u32).map(|i| (i % 251) as u8).collect();
    let mut assets = FakeAssets::present(8, &contents);
    assert_eq!(assets.load(), Ok(contents));
    assert_eq!(assets.closes, vec![8]);
}

#[test]
fn absent_asset_is_missing() {
    let mut assets = FakeAssets::absent();
    assert_eq!(assets.load(), Err(AssetError::AssetMissing));
    assert_eq!(assets.modes, vec![MODE_STREAMING]);
    assert_eq!(assets.reads, vec![]);
    assert_eq!(assets.closes, vec![]);
}

#[test]
fn null_buffer_is_empty_buffer_and_closes_once() {
    let mut assets = FakeAssets::without_buffer(0x5000);
    assert_eq!(assets.load(), Err(AssetError::EmptyBuffer));
    assert_eq!(assets.reads, vec![0x5000]);
    assert_eq!(assets.closes, vec![0x5000]);
}

#[test]
fn a_buffer_of_length_zero_is_not_an_error() {
    let mut assets = FakeAssets::present(3, b"");
    assert_eq!(assets.load(), Ok(Vec::new()));
    assert_eq!(assets.closes, vec![3]);
}

#[test]
fn each_step_of_a_successful_load() {
    let (load, action) = AssetLoad::new().step(AssetEvent::Start);
    assert_eq!((load, action), (AssetLoad::Opening, AssetAction::Open { mode: 2 }));
    let (load, action) = load.step(AssetEvent::Opened(77));
    assert_eq!((load, action), (AssetLoad::Reading { asset: 77 }, AssetAction::Read { asset: 77 }));
    let (load, action) = load.step(AssetEvent::Contents(Some(&[1, 2, 3])));
    assert_eq!(load, AssetLoad::Finished);
    assert_eq!(action, AssetAction::Finish { release: Some(77), outcome: Ok(vec![1, 2, 3]) });
}

#[test]
fn each_step_of_a_load_without_buffer() {
    let (load, _) = AssetLoad::new().step(AssetEvent::Start);
    let (load, _) = load.step(AssetEvent::Opened(77));
    let (load, action) = load.step(AssetEvent::Contents(None));
    assert_eq!(load, AssetLoad::Finished);
    assert_eq!(
        action,
        AssetAction::Finish { release: Some(77), outcome: Err(AssetError::EmptyBuffer) }
    );
}

#[test]
fn each_step_of_a_load_of_a_missing_asset() {
    let (load, _) = AssetLoad::new().step(AssetEvent::Start);
    let (load, action) = load.step(AssetEvent::Opened(0));
    assert_eq!(load, AssetLoad::Finished);
    assert_eq!(
        action,
        AssetAction::Finish { release: None, outcome: Err(AssetError::AssetMissing) }
    );
}

#[test]
fn asset_events_out_of_turn_are_ignored() {
    let idle = AssetLoad::new();
    assert_eq!(idle.step(AssetEvent::Opened(5)), (AssetLoad::Idle, AssetAction::Ignore));
    assert_eq!(idle.step(AssetEvent::Contents(None)), (AssetLoad::Idle, AssetAction::Ignore));
    let opening = AssetLoad::Opening;
    assert_eq!(opening.step(AssetEvent::Start), (AssetLoad::Opening, AssetAction::Ignore));
    assert_eq!(
        opening.step(AssetEvent::Contents(Some(&[1]))),
        (AssetLoad::Opening, AssetAction::Ignore)
    );
    let reading = AssetLoad::Reading { asset: 5 };
    assert_eq!(reading.step(AssetEvent::Start), (reading, AssetAction::Ignore));
    assert_eq!(reading.step(AssetEvent::Opened(6)), (reading, AssetAction::Ignore));
}

#[test]
fn a_finished_load_asks_for_nothing_more() {
    let finished = AssetLoad::Finished;
    assert_eq!(finished.step(AssetEvent::Start), (finished, AssetAction::Ignore));
    assert_eq!(finished.step(AssetEvent::Opened(5)), (finished, AssetAction::Ignore));
    assert_eq!(finished.step(AssetEvent::Contents(None)), (finished, AssetAction::Ignore));
    assert_eq!(finished.step(AssetEvent::Contents(Some(&[9]))), (finished, AssetAction::Ignore));
}

#[test]
fn the_two_failures_are_distinct() {
    assert_ne!(AssetError::AssetMissing, AssetError::EmptyBuffer);
}
