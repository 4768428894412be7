//! Touch events and the processing of a stream of them.

use crate::gesture::GestureType;
pub use crate::gestures::resolve_action;
pub use crate::input::classify_event;
use crate::laws::law_events_keep_consistency;
use crate::recognizer::GestureRecognizer;
use crate::session::Session;
pub use crate::usb_id::parse_usb_id;
use vstd::prelude::*;

verus! {

/// One touch report, free of any hardware vocabulary.
#[derive(Debug, Clone, Copy, PartialEq, Eq, Structural)]
pub enum TouchEvent {
    /// A new x coordinate.
    PositionX(i32),
    /// A new y coordinate.
    PositionY(i32),
    /// The finger that the following coordinates belong to.
    TrackingId(i32),
    /// The finger was lifted.
    FingerUp,
    /// The coordinates reported so far form one sample.
    SynReport,
}

/// A touch event together with the instant at which it is handled, in
/// microseconds.
#[derive(Debug, Clone, Copy, PartialEq, Eq, Structural)]
pub struct TimedEvent {
    pub event: TouchEvent,
    pub at: u64,
}

/// The gestures of an optional gesture: none or one.
pub open spec fn fired(gesture: Option<GestureType>) -> Seq<GestureType> {
    match gesture {
        Some(g) => seq![g],
        None => Seq::empty(),
    }
}

/// Handling one event at the instant `now`: the next session and the
/// gestures that fire, in order.
///
/// A lift first lets a pending tap expire, then recognizes the finished
/// touch, then forgets it. A sync commits the buffered coordinates and then
/// lets a pending tap expire.
pub open spec fn step(s: Session, event: TouchEvent, now: u64) -> (Session, Seq<GestureType>) {
    match event {
        TouchEvent::PositionX(x) => (s.with_pending_x(x), Seq::empty()),
        TouchEvent::PositionY(y) => (s.with_pending_y(y), Seq::empty()),
        TouchEvent::TrackingId(id) => (s.with_tracking_id(id), Seq::empty()),
        TouchEvent::FingerUp => {
            let (expired, tap) = s.expire(now);
            let (recognized, gesture) = expired.recognize(now);
            (recognized.reset(), fired(tap) + fired(gesture))
        },
        TouchEvent::SynReport => {
            let (expired, tap) = s.flush(now).expire(now);
            (expired, fired(tap))
        },
    }
}

/// Handling a sequence of events, each at its own instant.
pub open spec fn run(s: Session, events: Seq<TimedEvent>) -> (Session, Seq<GestureType>)
    decreases events.len(),
{
    if events.len() == 0 {
        (s, Seq::empty())
    } else {
        let (before, earlier) = run(s, events.drop_last());
        let (after, later) = step(before, events.last().event, events.last().at);
        (after, earlier + later)
    }
}

/// Whether `timed` gives the events of `events`, in order, each with some
/// instant.
pub open spec fn is_timing_of(timed: Seq<TimedEvent>, events: Seq<TouchEvent>) -> bool {
    &&& timed.len() == events.len()
    &&& forall|i: int| 0 <= i < events.len() ==> (#[trigger] timed[i]).event == events[i]
}

/// Handles one event at the instant `now` and appends the gestures that
/// fire to `gestures`.
pub fn process_touch_event_at(
    recognizer: &mut GestureRecognizer,
    event: &TouchEvent,
    now: u64,
    gestures: &mut Vec<GestureType>,
)
    ensures
        final(recognizer)@ == step(old(recognizer)@, *event, now).0,
        final(gestures)@ == old(gestures)@ + step(old(recognizer)@, *event, now).1,
        old(recognizer)@.consistent() ==> final(recognizer)@.consistent(),
{
    proof {
        if recognizer@.consistent() {
            law_events_keep_consistency(recognizer@, *event, now);
        }
    }
    match event {
        TouchEvent::PositionX(x) => {
            recognizer.set_pending_x(*x);
        },
        TouchEvent::PositionY(y) => {
            recognizer.set_pending_y(*y);
        },
        TouchEvent::TrackingId(id) => {
            recognizer.set_tracking_id(*id);
        },
        TouchEvent::FingerUp => {
            if let Some(g) = recognizer.check_pending_tap_expired_at(now) {
                gestures.push(g);
            }
            if let Some(g) = recognizer.recognize_gesture_at(now) {
                gestures.push(g);
            }
            recognizer.reset();
        },
        TouchEvent::SynReport => {
            recognizer.flush_pending_at(now);
            if let Some(g) = recognizer.check_pending_tap_expired_at(now) {
                gestures.push(g);
            }
        },
    }
    assert(gestures@ =~= old(gestures)@ + step(old(recognizer)@, *event, now).1);
}

/// Feeds a sequence of events into a recognizer, each at its own instant,
/// and collects the gestures that fire, in order.
pub fn process_timed_events(recognizer: &mut GestureRecognizer, events: &[TimedEvent]) -> (gestures:
    Vec<GestureType>)
    ensures
        (final(recognizer)@, gestures@) == run(old(recognizer)@, events@),
        old(recognizer)@.consistent() ==> final(recognizer)@.consistent(),
{
    let mut gestures: Vec<GestureType> = Vec::new();
    let mut i: usize = 0;
    assert(events@.take(0) =~= Seq::empty());
    while i < events.len()
        invariant
            i <= events.len(),
            (recognizer@, gestures@) == run(old(recognizer)@, events@.take(i as int)),
            old(recognizer)@.consistent() ==> recognizer@.consistent(),
        decreases events.len() - i,
    {
        let timed = events[i];
        assert(events@.take(i + 1).drop_last() =~= events@.take(i as int));
        process_touch_event_at(recognizer, &timed.event, timed.at, &mut gestures);
        i += 1;
    }
    assert(events@.take(i as int) =~= events@);
    gestures
}

/// Feeds a sequence of events into a recognizer and collects the gestures
/// that fire, in order. Each event is handled at the instant at which its
/// turn comes, read once from the recognizer's clock: the result is that of
/// [`process_timed_events`] for some timing of the events.
pub fn process_touch_events(recognizer: &mut GestureRecognizer, events: &[TouchEvent]) -> (gestures:
    Vec<GestureType>)
    ensures
        exists|timed: Seq<TimedEvent>|
            is_timing_of(timed, events@) && (final(recognizer)@, gestures@) == run(
                old(recognizer)@,
                timed,
            ),
        old(recognizer)@.consistent() ==> final(recognizer)@.consistent(),
{
    let mut gestures: Vec<GestureType> = Vec::new();
    let ghost mut timed: Seq<TimedEvent> = Seq::empty();
    let mut i: usize = 0;
    while i < events.len()
        invariant
            i <= events.len(),
            is_timing_of(timed, events@.take(i as int)),
            (recognizer@, gestures@) == run(old(recognizer)@, timed),
            old(recognizer)@.consistent() ==> recognizer@.consistent(),
        decreases events.len() - i,
    {
        let event = events[i];
        let now = recognizer.now();
        proof {
            let extended = timed.push(TimedEvent { event, at: now });
            assert(extended.drop_last() =~= timed);
            timed = extended;
        }
        process_touch_event_at(recognizer, &event, now, &mut gestures);
        i += 1;
    }
    assert(events@.take(i as int) =~= events@);
    gestures
}

} // verus!
