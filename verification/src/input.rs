//! The adapter from the reports of the `evdev` crate to touch events.

use crate::event::TouchEvent;
use evdev::{InputEvent, InputEventKind};
use vstd::prelude::*;

verus! {

/// `evdev::InputEvent`, one report of an input device. Nothing is known of
/// a value of it but what the two names below stand for.
#[verifier::external_type_specification]
#[verifier::external_body]
pub struct ExInputEvent(InputEvent);

/// What a report is about, as far as touch handling reads it. The numbers
/// are the raw codes of the report.
#[derive(Debug, Clone, Copy, PartialEq, Eq, Structural)]
pub enum EventKind {
    /// An absolute axis, with the code of the axis.
    AbsAxis(u16),
    /// A synchronization marker, with its code.
    Synchronization(u16),
    /// Anything else.
    Other,
}

/// The code of the axis that carries the x position of a touch.
pub const ABS_MT_POSITION_X: u16 = 0x35;

/// The code of the axis that carries the y position of a touch.
pub const ABS_MT_POSITION_Y: u16 = 0x36;

/// The code of the axis that carries the identity of a finger.
pub const ABS_MT_TRACKING_ID: u16 = 0x39;

/// The code of the marker that ends one report of samples.
pub const SYN_REPORT: u16 = 0;

/// The value that the identity axis carries when the finger is lifted.
pub const FINGER_LIFTED: i32 = -1;

/// What `InputEvent::kind` returns for a report, reduced to [`EventKind`].
pub uninterp spec fn kind_of(event: InputEvent) -> EventKind;

/// What `InputEvent::value` returns for a report.
pub uninterp spec fn value_of(event: InputEvent) -> i32;

/// Calls `InputEvent::kind` and keeps of its result what touch handling
/// reads: for an absolute axis and for a synchronization marker the raw
/// code, and for every other kind that it is another kind. The result is a
/// function of the report alone, and is given the name [`kind_of`].
#[verifier::external_body]
fn event_kind(event: &InputEvent) -> (kind: EventKind)
    ensures
        kind == kind_of(*event),
{
    match event.kind() {
        InputEventKind::AbsAxis(axis) => EventKind::AbsAxis(axis.0),
        InputEventKind::Synchronization(marker) => EventKind::Synchronization(marker.0),
        _ => EventKind::Other,
    }
}

/// Calls `InputEvent::value`, which returns the raw value field of the
/// report. The result is a function of the report alone, and is given the
/// name [`value_of`].
#[verifier::external_body]
fn event_value(event: &InputEvent) -> (value: i32)
    ensures
        value == value_of(*event),
{
    event.value()
}

/// The touch event that a report of the given kind and value stands for.
pub open spec fn classified(kind: EventKind, value: i32) -> Option<TouchEvent> {
    match kind {
        EventKind::AbsAxis(axis) => if axis == ABS_MT_POSITION_X {
            Some(TouchEvent::PositionX(value))
        } else if axis == ABS_MT_POSITION_Y {
            Some(TouchEvent::PositionY(value))
        } else if axis == ABS_MT_TRACKING_ID {
            if value == FINGER_LIFTED {
                Some(TouchEvent::FingerUp)
            } else {
                Some(TouchEvent::TrackingId(value))
            }
        } else {
            None
        },
        EventKind::Synchronization(marker) => if marker == SYN_REPORT {
            Some(TouchEvent::SynReport)
        } else {
            None
        },
        EventKind::Other => None,
    }
}

/// Classifies a report of the given kind and value: a position on one of
/// the two touch axes, the identity of a finger or its lift, the end of a
/// report of samples, or nothing that touch handling cares about.
pub fn classify(kind: EventKind, value: i32) -> (event: Option<TouchEvent>)
    ensures
        event == classified(kind, value),
{
    match kind {
        EventKind::AbsAxis(axis) => {
            if axis == ABS_MT_POSITION_X {
                Some(TouchEvent::PositionX(value))
            } else if axis == ABS_MT_POSITION_Y {
                Some(TouchEvent::PositionY(value))
            } else if axis == ABS_MT_TRACKING_ID {
                if value == FINGER_LIFTED {
                    Some(TouchEvent::FingerUp)
                } else {
                    Some(TouchEvent::TrackingId(value))
                }
            } else {
                None
            }
        },
        EventKind::Synchronization(marker) => {
            if marker == SYN_REPORT {
                Some(TouchEvent::SynReport)
            } else {
                None
            }
        },
        EventKind::Other => None,
    }
}

/// Classifies one report of a device into the touch event it stands for;
/// `None` for a report that touch handling does not care about.
pub fn classify_event(event: &InputEvent) -> (touch: Option<TouchEvent>)
    ensures
        touch == classified(kind_of(*event), value_of(*event)),
{
    classify(event_kind(event), event_value(event))
}

} // verus!
