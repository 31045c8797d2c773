//! The input callback: which pointer events a native motion action stands for.

use crate::event::Event;
use crate::registry::lemma_published_in_turn;
use crate::registry::published;
use crate::registry::send_event;
use crate::registry::Context;
use vstd::prelude::*;

verus! {

/// The bits of a native action that hold the action code; the bits above them
/// hold a pointer index.
pub const AMOTION_EVENT_ACTION_MASK: i32 = 0xff;

pub const AMOTION_EVENT_ACTION_DOWN: i32 = 0;

pub const AMOTION_EVENT_ACTION_UP: i32 = 1;

pub const AMOTION_EVENT_ACTION_MOVE: i32 = 2;

pub const AMOTION_EVENT_ACTION_CANCEL: i32 = 3;

pub const AMOTION_EVENT_ACTION_OUTSIDE: i32 = 4;

pub const AMOTION_EVENT_ACTION_POINTER_DOWN: i32 = 5;

pub const AMOTION_EVENT_ACTION_POINTER_UP: i32 = 6;

/// The index of the primary pointer of a motion event. It is the only pointer
/// whose position is ever read.
pub const PRIMARY_POINTER: usize = 0;

/// The status that the input callback hands back to the platform: the event
/// was not consumed, and the platform may go on with its default handling.
pub const INPUT_NOT_CONSUMED: i32 = 0;

/// What a native action means for the primary pointer.
#[derive(Clone, Copy, Debug, PartialEq, Eq, Structural)]
pub enum PointerAction {
    /// The pointer left the surface, or the gesture was abandoned.
    Release,
    /// The pointer touched the surface.
    Press,
    /// Anything else; the pointer is taken to have moved.
    Motion,
}

/// The action code of a native action: the action without its pointer index.
pub open spec fn action_code(action: i32) -> i32 {
    action & AMOTION_EVENT_ACTION_MASK
}

/// The meaning of a native action. Up, outside, cancel and pointer-up release
/// the pointer; down and pointer-down press it; every other code, plain motion
/// among them, is motion.
pub open spec fn pointer_action(action: i32) -> PointerAction {
    let code = action_code(action);
    if code == AMOTION_EVENT_ACTION_UP || code == AMOTION_EVENT_ACTION_OUTSIDE || code
        == AMOTION_EVENT_ACTION_CANCEL || code == AMOTION_EVENT_ACTION_POINTER_UP {
        PointerAction::Release
    } else if code == AMOTION_EVENT_ACTION_DOWN || code == AMOTION_EVENT_ACTION_POINTER_DOWN {
        PointerAction::Press
    } else {
        PointerAction::Motion
    }
}

/// The events that stand for a pointer action with the primary pointer at
/// `(x, y)`. A release is one `EventUp` and has no position. A press is the
/// position first and the press second, so that whoever sees the press already
/// knows where it happened. Motion is the position alone.
pub open spec fn pointer_events(kind: PointerAction, x: i32, y: i32) -> Seq<Event> {
    match kind {
        PointerAction::Release => seq![Event::EventUp],
        PointerAction::Press => seq![Event::EventMove(x, y), Event::EventDown],
        PointerAction::Motion => seq![Event::EventMove(x, y)],
    }
}

/// Classifies a native action.
pub fn classify(action: i32) -> (kind: PointerAction)
    ensures
        kind == pointer_action(action),
{
    let code: i32 = action & AMOTION_EVENT_ACTION_MASK;
    if code == AMOTION_EVENT_ACTION_UP || code == AMOTION_EVENT_ACTION_OUTSIDE || code
        == AMOTION_EVENT_ACTION_CANCEL || code == AMOTION_EVENT_ACTION_POINTER_UP {
        PointerAction::Release
    } else if code == AMOTION_EVENT_ACTION_DOWN || code == AMOTION_EVENT_ACTION_POINTER_DOWN {
        PointerAction::Press
    } else {
        PointerAction::Motion
    }
}

/// The callback for inputs. `action` is the action of the native event, and
/// `sample` reads the position of one of its pointers, in device pixels, given
/// the pointer's index.
///
/// The events that the action stands for are published to `context`, and the
/// platform is told that the event was not consumed. The position is that of
/// the primary pointer, and it is read only for an action that has one: a
/// caller need not make `sample` callable for a release, and then no verified
/// body could call it.
pub fn inputs_callback<F: FnOnce(usize) -> (i32, i32)>(
    context: &mut Context,
    action: i32,
    sample: F,
) -> (status: i32)
    requires
        pointer_action(action) != PointerAction::Release ==> sample.requires((PRIMARY_POINTER,)),
    ensures
        status == INPUT_NOT_CONSUMED,
        pointer_action(action) == PointerAction::Release ==> published(
            old(context)@,
            final(context)@,
            seq![Event::EventUp],
        ),
        pointer_action(action) != PointerAction::Release ==> exists|x: i32, y: i32|
            #[trigger] sample.ensures((PRIMARY_POINTER,), (x, y)) && published(
                old(context)@,
                final(context)@,
                pointer_events(pointer_action(action), x, y),
            ),
{
    match classify(action) {
        PointerAction::Release => {
            send_event(context, Event::EventUp);
        },
        PointerAction::Press => {
            let (x, y) = sample(PRIMARY_POINTER);
            let ghost before = context@;
            send_event(context, Event::EventMove(x, y));
            let ghost between = context@;
            send_event(context, Event::EventDown);
            proof {
                lemma_published_in_turn(
                    before,
                    between,
                    context@,
                    seq![Event::EventMove(x, y)],
                    seq![Event::EventDown],
                );
                assert(seq![Event::EventMove(x, y)] + seq![Event::EventDown] =~= pointer_events(
                    PointerAction::Press,
                    x,
                    y,
                ));
                assert(sample.ensures((PRIMARY_POINTER,), (x, y)));
            }
        },
        PointerAction::Motion => {
            let (x, y) = sample(PRIMARY_POINTER);
            send_event(context, Event::EventMove(x, y));
            proof {
                assert(sample.ensures((PRIMARY_POINTER,), (x, y)));
            }
        },
    }
    INPUT_NOT_CONSUMED
}

/// A press is always two events, the position and then the press, whatever the
/// pointer index in the action and wherever the pointer is.
pub proof fn lemma_press_is_move_then_down(action: i32, x: i32, y: i32)
    requires
        action_code(action) == AMOTION_EVENT_ACTION_DOWN || action_code(action)
            == AMOTION_EVENT_ACTION_POINTER_DOWN,
    ensures
        pointer_events(pointer_action(action), x, y) == seq![
            Event::EventMove(x, y),
            Event::EventDown,
        ],
        pointer_events(pointer_action(action), x, y).len() == 2,
{
}

/// A release is one `EventUp` and nothing else: no position is published, and
/// the events do not depend on where the pointer is.
pub proof fn lemma_release_is_up_alone(action: i32, x: i32, y: i32)
    requires
        action_code(action) == AMOTION_EVENT_ACTION_UP || action_code(action)
            == AMOTION_EVENT_ACTION_OUTSIDE || action_code(action) == AMOTION_EVENT_ACTION_CANCEL
            || action_code(action) == AMOTION_EVENT_ACTION_POINTER_UP,
    ensures
        pointer_events(pointer_action(action), x, y) == seq![Event::EventUp],
        pointer_events(pointer_action(action), x, y).len() == 1,
        forall|u: i32, v: i32|
            #[trigger] pointer_events(pointer_action(action), u, v) == pointer_events(
                pointer_action(action),
                x,
                y,
            ),
{
}

/// Every action that neither presses nor releases, plain motion among them, is
/// one `EventMove` with the sampled position.
pub proof fn lemma_motion_is_move_alone(action: i32, x: i32, y: i32)
    requires
        pointer_action(action) == PointerAction::Motion,
    ensures
        pointer_events(pointer_action(action), x, y) == seq![Event::EventMove(x, y)],
        pointer_events(pointer_action(action), x, y).len() == 1,
{
}

/// Every action stands for one event or for two, and for two only if it
/// presses the pointer.
pub proof fn lemma_one_or_two_events(action: i32, x: i32, y: i32)
    ensures
        1 <= pointer_events(pointer_action(action), x, y).len() <= 2,
        pointer_events(pointer_action(action), x, y).len() == 2 <==> pointer_action(action)
            == PointerAction::Press,
{
}

/// Plain motion is motion, whatever the pointer index in the action.
pub proof fn lemma_plain_motion_is_motion(action: i32)
    requires
        action_code(action) == AMOTION_EVENT_ACTION_MOVE,
    ensures
        pointer_action(action) == PointerAction::Motion,
{
}

/// The action code is the low byte of the action: it lies between 0 and 255,
/// and an action that is itself in that range is its own code.
pub proof fn lemma_action_code_is_low_byte(action: i32)
    ensures
        0 <= action_code(action) <= 255,
        0 <= action <= 255 ==> action_code(action) == action,
        action_code(action) == action_code(action_code(action)),
{
    assert(0 <= action & 0xff <= 255) by (bit_vector);
    assert(0 <= action <= 255 ==> action & 0xff == action) by (bit_vector);
    assert((action & 0xff) & 0xff == action & 0xff) by (bit_vector);
}

} // verus!
