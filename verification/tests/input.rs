use android_glue::input::{
    classify, PointerAction, AMOTION_EVENT_ACTION_CANCEL, AMOTION_EVENT_ACTION_DOWN,
    AMOTION_EVENT_ACTION_MASK, AMOTION_EVENT_ACTION_MOVE, AMOTION_EVENT_ACTION_OUTSIDE,
    AMOTION_EVENT_ACTION_POINTER_DOWN, AMOTION_EVENT_ACTION_POINTER_UP, AMOTION_EVENT_ACTION_UP,
    INPUT_NOT_CONSUMED, PRIMARY_POINTER,
};
use android_glue::{add_sender, inputs_callback, Context, Event};
use std::cell::Cell;
use std::sync::mpsc::{channel, Receiver};

fn one_subscriber() -> (Context, Receiver<Event>) {
    let mut context = Context::new();
    let (sender, receiver) = channel();
    add_sender(&mut context, sender);
    (context, receiver)
}

fn received(receiver: &Receiver<Event>) -> Vec<Event> {
    let mut events = Vec::new();
    while let Ok(event) = receiver.try_recv() {
        events.push(event);
    }
    events
}

#[test]
fn action_codes_have_their_platform_values() {
    assert_eq!(AMOTION_EVENT_ACTION_MASK, 0xff);
    assert_eq!(AMOTION_EVENT_ACTION_DOWN, 0);
    assert_eq!(AMOTION_EVENT_ACTION_UP, 1);
    assert_eq!(AMOTION_EVENT_ACTION_MOVE, 2);
    assert_eq!(AMOTION_EVENT_ACTION_CANCEL, 3);
    assert_eq!(AMOTION_EVENT_ACTION_OUTSIDE, 4);
    assert_eq!(AMOTION_EVENT_ACTION_POINTER_DOWN, 5);
    assert_eq!(AMOTION_EVENT_ACTION_POINTER_UP, 6);
    assert_eq!(INPUT_NOT_CONSUMED, 0);
}

#[test]
fn release_codes_are_releases() {
    assert_eq!(classify(AMOTION_EVENT_ACTION_UP), PointerAction::Release);
    assert_eq!(classify(AMOTION_EVENT_ACTION_OUTSIDE), PointerAction::Release);
    assert_eq!(classify(AMOTION_EVENT_ACTION_CANCEL), PointerAction::Release);
    assert_eq!(classify(AMOTION_EVENT_ACTION_POINTER_UP), PointerAction::Release);
}

#[test]
fn press_codes_are_presses() {
    assert_eq!(classify(AMOTION_EVENT_ACTION_DOWN), PointerAction::Press);
    assert_eq!(classify(AMOTION_EVENT_ACTION_POINTER_DOWN), PointerAction::Press);
}

#[test]
fn every_other_code_is_motion() {
    assert_eq!(classify(AMOTION_EVENT_ACTION_MOVE), PointerAction::Motion);
    for code in 7..=255 {
        assert_eq!(classify(code), PointerAction::Motion);
    }
}

#[test]
fn the_pointer_index_is_masked_away() {
    assert_eq!(classify(0x0100 | AMOTION_EVENT_ACTION_POINTER_DOWN), PointerAction::Press);
    assert_eq!(classify(0x0200 | AMOTION_EVENT_ACTION_POINTER_UP), PointerAction::Release);
    assert_eq!(classify(0x0300 | AMOTION_EVENT_ACTION_MOVE), PointerAction::Motion);
    assert_eq!(classify(0x7fff_ff00), PointerAction::Press);
    assert_eq!(classify(0x7fff_ff01), PointerAction::Release);
}

#[test]
fn negative_actions_are_classified_by_their_low_byte() {
    assert_eq!(classify(-1), PointerAction::Motion);
    assert_eq!(classify(i32::MIN), PointerAction::Press);
    assert_eq!(classify(-256 + 3), PointerAction::Release);
    assert_eq!(classify(-256 + 5), PointerAction::Press);
}

#[test]
fn press_publishes_position_then_press() {
    let (mut context, receiver) = one_subscriber();
    let status = inputs_callback(&mut context, AMOTION_EVENT_ACTION_DOWN, |_| (120, 45));
    assert_eq!(status, 0);
    assert_eq!(received(&receiver), vec![Event::EventMove(120, 45), Event::EventDown]);
}

#[test]
fn pointer_down_publishes_position_then_press() {
    let (mut context, receiver) = one_subscriber();
    let action = 0x0100 | AMOTION_EVENT_ACTION_POINTER_DOWN;
    let status = inputs_callback(&mut context, action, |_| (7, 8));
    assert_eq!(status, 0);
    assert_eq!(received(&receiver), vec![Event::EventMove(7, 8), Event::EventDown]);
}

#[test]
fn press_at_zero_and_negative_coordinates() {
    let (mut context, receiver) = one_subscriber();
    inputs_callback(&mut context, AMOTION_EVENT_ACTION_DOWN, |_| (0, 0));
    inputs_callback(&mut context, AMOTION_EVENT_ACTION_DOWN, |_| (-3, -200));
    inputs_callback(&mut context, AMOTION_EVENT_ACTION_DOWN, |_| (i32::MIN, i32::MAX));
    assert_eq!(
        received(&receiver),
        vec![
            Event::EventMove(0, 0),
            Event::EventDown,
            Event::EventMove(-3, -200),
            Event::EventDown,
            Event::EventMove(i32::MIN, i32::MAX),
            Event::EventDown,
        ]
    );
}

#[test]
fn release_publishes_one_up() {
    for action in [
        AMOTION_EVENT_ACTION_UP,
        AMOTION_EVENT_ACTION_OUTSIDE,
        AMOTION_EVENT_ACTION_CANCEL,
        AMOTION_EVENT_ACTION_POINTER_UP,
    ] {
        let (mut context, receiver) = one_subscriber();
        let status = inputs_callback(&mut context, action, |_| (1, 1));
        assert_eq!(status, 0);
        assert_eq!(received(&receiver), vec![Event::EventUp]);
    }
}

#[test]
fn release_does_not_sample_the_position() {
    for action in [
        AMOTION_EVENT_ACTION_UP,
        AMOTION_EVENT_ACTION_OUTSIDE,
        AMOTION_EVENT_ACTION_CANCEL,
        AMOTION_EVENT_ACTION_POINTER_UP,
        0x0100 | AMOTION_EVENT_ACTION_POINTER_UP,
    ] {
        let (mut context, receiver) = one_subscriber();
        let samples = Cell::new(0);
        inputs_callback(&mut context, action, |_| {
            samples.set(samples.get() + 1);
            (9, 9)
        });
        assert_eq!(samples.get(), 0);
        assert_eq!(received(&receiver), vec![Event::EventUp]);
    }
}

#[test]
fn press_and_motion_sample_the_position_once() {
    for action in [
        AMOTION_EVENT_ACTION_DOWN,
        AMOTION_EVENT_ACTION_POINTER_DOWN,
        AMOTION_EVENT_ACTION_MOVE,
        9,
    ] {
        let (mut context, _receiver) = one_subscriber();
        let samples = Cell::new(0);
        inputs_callback(&mut context, action, |_| {
            samples.set(samples.get() + 1);
            (9, 9)
        });
        assert_eq!(samples.get(), 1);
    }
}

#[test]
fn motion_publishes_one_move() {
    let (mut context, receiver) = one_subscriber();
    let status = inputs_callback(&mut context, AMOTION_EVENT_ACTION_MOVE, |_| (33, -6));
    assert_eq!(status, 0);
    assert_eq!(received(&receiver), vec![Event::EventMove(33, -6)]);
}

#[test]
fn unknown_codes_publish_one_move() {
    let (mut context, receiver) = one_subscriber();
    inputs_callback(&mut context, 7, |_| (1, 2));
    inputs_callback(&mut context, 200, |_| (3, 4));
    inputs_callback(&mut context, -1, |_| (5, 6));
    assert_eq!(
        received(&receiver),
        vec![Event::EventMove(1, 2), Event::EventMove(3, 4), Event::EventMove(5, 6)]
    );
}

#[test]
fn input_reaches_every_subscriber() {
    let mut context = Context::new();
    let (first, first_events) = channel();
    let (second, second_events) = channel();
    add_sender(&mut context, first);
    add_sender(&mut context, second);
    inputs_callback(&mut context, AMOTION_EVENT_ACTION_DOWN, |_| (10, 20));
    inputs_callback(&mut context, AMOTION_EVENT_ACTION_UP, |_| (10, 20));
    let expected = vec![Event::EventMove(10, 20), Event::EventDown, Event::EventUp];
    assert_eq!(received(&first_events), expected);
    assert_eq!(received(&second_events), expected);
}

#[test]
fn input_without_subscribers_is_not_consumed() {
    let mut context = Context::new();
    assert_eq!(inputs_callback(&mut context, AMOTION_EVENT_ACTION_DOWN, |_| (1, 1)), 0);
    assert_eq!(inputs_callback(&mut context, AMOTION_EVENT_ACTION_UP, |_| (1, 1)), 0);
    assert_eq!(inputs_callback(&mut context, AMOTION_EVENT_ACTION_MOVE, |_| (1, 1)), 0);
}

#[test]
fn only_the_primary_pointer_is_sampled() {
    assert_eq!(PRIMARY_POINTER, 0);
    for action in [
        AMOTION_EVENT_ACTION_DOWN,
        0x0300 | AMOTION_EVENT_ACTION_POINTER_DOWN,
        AMOTION_EVENT_ACTION_MOVE,
        0x0200 | AMOTION_EVENT_ACTION_MOVE,
    ] {
        let (mut context, receiver) = one_subscriber();
        let asked = Cell::new(usize::MAX);
        inputs_callback(&mut context, action, |pointer| {
            asked.set(pointer);
            (pointer as i32 + 50, 60)
        });
        assert_eq!(asked.get(), 0);
        assert_eq!(receiver.try_recv(), Ok(Event::EventMove(50, 60)));
    }
}
