//! What holds of the recognizer for all inputs, proved of its model.

use crate::event::{run, step, TimedEvent, TouchEvent};
use crate::geometry::{abs, closer_than, elapsed, reaches, within_cone, SCALE};
use crate::gesture::GestureType;
use crate::session::{first_other, has_sample_of, last_other, latest_of, Session, TouchPoint};
use vstd::prelude::*;

verus! {

/// Whether a gesture is one of the two horizontal swipes.
pub open spec fn is_horizontal(gesture: Option<GestureType>) -> bool {
    gesture == Some(GestureType::SwipeLeft) || gesture == Some(GestureType::SwipeRight)
}

/// Whether a gesture is one of the two vertical swipes.
pub open spec fn is_vertical(gesture: Option<GestureType>) -> bool {
    gesture == Some(GestureType::SwipeUp) || gesture == Some(GestureType::SwipeDown)
}

/// Whether a motion is quick and long enough along the x axis, and close
/// enough to it in direction, for a horizontal swipe.
pub open spec fn qualifies_horizontally(
    s: Session,
    start: TouchPoint,
    current: TouchPoint,
) -> bool {
    &&& elapsed(start.time, current.time) < s.thresholds.swipe_time_max
    &&& reaches(
        current.x - start.x,
        s.x_range.1 - s.x_range.0,
        s.thresholds.swipe_distance_min_pct as int,
    )
    &&& within_cone(
        current.x - start.x,
        current.y - start.y,
        s.thresholds.angle_tolerance_tan as int,
    )
}

/// Whether a motion is quick and long enough along the y axis, and close
/// enough to it in direction, for a vertical swipe.
pub open spec fn qualifies_vertically(s: Session, start: TouchPoint, current: TouchPoint) -> bool {
    &&& elapsed(start.time, current.time) < s.thresholds.swipe_time_max
    &&& reaches(
        current.y - start.y,
        s.y_range.1 - s.y_range.0,
        s.thresholds.swipe_distance_min_pct as int,
    )
    &&& within_cone(
        current.y - start.y,
        current.x - start.x,
        s.thresholds.angle_tolerance_tan as int,
    )
}

/// A motion that qualifies as a swipe is reported with the direction of its
/// displacement: right or down for a positive one, left or up otherwise.
/// Where it qualifies on both axes, the horizontal swipe is reported. A
/// motion that qualifies on neither axis is no swipe.
pub proof fn law_swipe_direction(s: Session, start: TouchPoint, current: TouchPoint)
    ensures
        qualifies_horizontally(s, start, current) ==> s.swipe(start, current) == Some(
            if current.x > start.x {
                GestureType::SwipeRight
            } else {
                GestureType::SwipeLeft
            },
        ),
        !qualifies_horizontally(s, start, current) && qualifies_vertically(s, start, current)
            ==> s.swipe(start, current) == Some(
            if current.y > start.y {
                GestureType::SwipeDown
            } else {
                GestureType::SwipeUp
            },
        ),
        !qualifies_horizontally(s, start, current) && !qualifies_vertically(s, start, current)
            ==> s.swipe(start, current) is None,
{
}

/// With a tolerance of at most 45 degrees (a tangent of at most 1), the
/// axis of a reported swipe is the axis of the larger displacement.
pub proof fn law_swipe_follows_dominant_axis(s: Session, start: TouchPoint, current: TouchPoint)
    requires
        s.thresholds.angle_tolerance_tan <= SCALE,
    ensures
        is_horizontal(s.swipe(start, current)) ==> abs(current.x - start.x) >= abs(
            current.y - start.y,
        ),
        is_vertical(s.swipe(start, current)) ==> abs(current.y - start.y) >= abs(
            current.x - start.x,
        ),
{
    let dx = abs(current.x - start.x);
    let dy = abs(current.y - start.y);
    let tan = s.thresholds.angle_tolerance_tan as int;
    if is_horizontal(s.swipe(start, current)) {
        assert(dy * SCALE <= dx * tan);
        assert(dy <= dx) by (nonlinear_arith)
            requires
                dy * 1_000_000 <= dx * tan,
                0 <= tan <= 1_000_000,
                0 <= dx,
                0 <= dy,
        ;
    }
    if is_vertical(s.swipe(start, current)) {
        assert(dx * SCALE <= dy * tan);
        assert(dx <= dy) by (nonlinear_arith)
            requires
                dx * 1_000_000 <= dy * tan,
                0 <= tan <= 1_000_000,
                0 <= dx,
                0 <= dy,
        ;
    }
}

/// Whether the touch of a session is a candidate tap: recognition reaches
/// the stationary stage, and the touch is short and still enough.
pub open spec fn is_tap_touch(s: Session) -> bool {
    &&& s.touch_start matches Some(start)
    &&& s.touch_current matches Some(current)
    &&& s.preempting_pinch() is None
    &&& s.swipe(start, current) is None
    &&& s.is_tap_candidate(start, current)
}

/// Whether two sessions have the same thresholds and calibration.
pub open spec fn same_device(a: Session, b: Session) -> bool {
    &&& a.thresholds == b.thresholds
    &&& a.x_range == b.x_range
    &&& a.y_range == b.y_range
}

/// Whether two sessions have the same tap bookkeeping.
pub open spec fn same_bookkeeping(a: Session, b: Session) -> bool {
    &&& a.last_tap_time == b.last_tap_time
    &&& a.last_tap_position == b.last_tap_position
    &&& a.pending_tap == b.pending_tap
}

/// Two taps at nearly the same place, the second recognized within the
/// double-tap interval of the first, give one double tap and no tap.
///
/// `first` is the session at the first lift, recognized at `t1`; `second`
/// is the session at the second lift, recognized at `t2`, with the
/// bookkeeping that the first recognition left. The first recognition
/// fires nothing, and no expiry check within the interval fires a tap. The
/// second fires the double tap, and no expiry check after it fires a tap.
pub proof fn law_double_tap(first: Session, t1: u64, second: Session, t2: u64)
    requires
        is_tap_touch(first),
        !first.follows_tap(first.touch_current->0, t1),
        is_tap_touch(second),
        same_device(first, second),
        same_bookkeeping(first.recognize(t1).0, second),
        elapsed(t1, t2) < first.thresholds.double_tap_interval,
        closer_than(
            second.touch_current->0.spec_distance_sq(first.touch_current->0),
            first.thresholds.double_tap_distance_max as int,
        ),
    ensures
        first.recognize(t1).1 is None,
        forall|t: u64|
            elapsed(t1, t) < first.thresholds.double_tap_interval ==> (#[trigger] first.recognize(
                t1,
            ).0.expire(t)).1 is None,
        second.recognize(t2).1 == Some(GestureType::DoubleTap),
        !second.recognize(t2).0.pending_tap,
        forall|t: u64| (#[trigger] second.recognize(t2).0.expire(t)).1 is None,
{
}

/// A single tap fires once the double-tap interval has passed, and only
/// once.
///
/// `s` is the session at the lift, recognized at `t1`, and `t` an instant
/// at which the interval has passed. Recognition fires nothing and leaves
/// the tap pending; the expiry check at `t` fires the tap and clears the
/// flag, and changes nothing else; every later check fires nothing and
/// changes nothing.
pub proof fn law_solitary_tap(s: Session, t1: u64, t: u64, later: u64)
    requires
        is_tap_touch(s),
        !s.follows_tap(s.touch_current->0, t1),
        elapsed(t1, t) >= s.thresholds.double_tap_interval,
    ensures
        s.recognize(t1).1 is None,
        s.recognize(t1).0.pending_tap,
        s.recognize(t1).0.expire(t) == (s.recognize(t1).0.tap_taken(), Some(GestureType::Tap)),
        s.recognize(t1).0.expire(t).0.expire(later) == (s.recognize(t1).0.expire(t).0, None::<
            GestureType,
        >),
{
}

/// A touch that is held long enough and moves little enough is never a tap
/// or a double tap, and leaves the tap bookkeeping as it was. It is a long
/// press unless a pinch or a swipe, which are tested before, is found.
pub proof fn law_long_press(s: Session, now: u64)
    requires
        s.touch_start is Some,
        s.touch_current is Some,
        s.is_long_press(s.touch_start->0, s.touch_current->0),
    ensures
        s.recognize(now).1 != Some(GestureType::Tap),
        s.recognize(now).1 != Some(GestureType::DoubleTap),
        s.recognize(now).0 == s,
        s.preempting_pinch() is None && s.swipe(s.touch_start->0, s.touch_current->0) is None
            ==> s.recognize(now).1 == Some(GestureType::LongPress),
{
    let pinch = s.preempting_pinch();
    assert(pinch is Some ==> pinch == Some(GestureType::PinchIn) || pinch == Some(
        GestureType::PinchOut,
    ));
    let swipe = s.swipe(s.touch_start->0, s.touch_current->0);
    assert(swipe is Some ==> is_horizontal(swipe) || is_vertical(swipe));
}

/// With two or more active fingers a pinch that is found is the result,
/// whatever the path of the first finger would be as a swipe.
pub proof fn law_pinch_preempts_swipe(s: Session, now: u64)
    requires
        s.touch_start is Some,
        s.touch_current is Some,
        s.active_touches.len() >= 2,
        s.pinch() is Some,
    ensures
        s.recognize(now) == (s, s.pinch()),
        s.recognize(now).1 == Some(GestureType::PinchIn) || s.recognize(now).1 == Some(
            GestureType::PinchOut,
        ),
{
}

/// A reset leaves nothing of the touch behind: the session is that of a new
/// recognizer but for the tap bookkeeping, which is kept. So two sessions
/// of one device with the same bookkeeping handle every sequence of events
/// alike after a reset.
pub proof fn law_reset_forgets_touch(a: Session, b: Session, events: Seq<TimedEvent>)
    requires
        same_device(a, b),
        same_bookkeeping(a, b),
    ensures
        a.reset() == (Session {
            last_tap_time: a.last_tap_time,
            last_tap_position: a.last_tap_position,
            pending_tap: a.pending_tap,
            ..Session::fresh(a.thresholds, a.x_range, a.y_range)
        }),
        a.reset() == b.reset(),
        run(a.reset(), events) == run(b.reset(), events),
{
}

/// A lift ends in a reset: after it the session holds no sample and no
/// buffered coordinate, whatever it held before.
pub proof fn law_lift_resets(s: Session, now: u64)
    ensures
        step(s, TouchEvent::FingerUp, now).0 == step(s, TouchEvent::FingerUp, now).0.reset(),
        step(s, TouchEvent::FingerUp, now).0.consistent(),
{
    let after = step(s, TouchEvent::FingerUp, now).0;
    assert(after.touch_points =~= Seq::empty());
    assert(after.active_touches =~= Map::empty());
}

/// At one lift the expiry check and the recognition never both fire for
/// the same pending tap: a tap and a double tap exclude each other.
pub proof fn law_tap_excludes_double_tap(s: Session, now: u64)
    ensures
        !(s.expire(now).1 == Some(GestureType::Tap) && s.expire(now).0.recognize(now).1 == Some(
            GestureType::DoubleTap,
        )),
        step(s, TouchEvent::FingerUp, now).1.len() <= 2,
{
}

/// No event changes the thresholds or the calibration.
pub proof fn law_device_is_fixed(s: Session, event: TouchEvent, now: u64)
    ensures
        same_device(step(s, event, now).0, s),
{
}

/// The tap bookkeeping is cleared only by consumption: where an event
/// leaves a session without a recorded tap that had one, a double tap has
/// fired; where it clears the pending flag, a tap or a double tap has.
pub proof fn law_bookkeeping_is_consumed(s: Session, event: TouchEvent, now: u64)
    ensures
        s.last_tap_time is Some && step(s, event, now).0.last_tap_time is None ==> step(
            s,
            event,
            now,
        ).1.contains(GestureType::DoubleTap),
        s.pending_tap && !step(s, event, now).0.pending_tap ==> step(s, event, now).1.contains(
            GestureType::Tap,
        ) || step(s, event, now).1.contains(GestureType::DoubleTap),
{
    let (after, gestures) = step(s, event, now);
    match event {
        TouchEvent::FingerUp => {
            let (expired, tap) = s.expire(now);
            let (recognized, gesture) = expired.recognize(now);
            if tap is Some {
                assert(gestures[0] == GestureType::Tap);
            }
            if gesture == Some(GestureType::DoubleTap) {
                assert(gestures[gestures.len() - 1] == GestureType::DoubleTap);
            }
        },
        TouchEvent::SynReport => {
            let (expired, tap) = s.flush(now).expire(now);
            if tap is Some {
                assert(gestures[0] == GestureType::Tap);
            }
        },
        _ => {},
    }
}

/// A commit only appends: the samples before it stay, in order, and the
/// start of the touch, once set, stays.
pub proof fn law_commit_appends(s: Session, now: u64)
    ensures
        s.flush(now).touch_points.len() >= s.touch_points.len(),
        s.flush(now).touch_points.take(s.touch_points.len() as int) == s.touch_points,
        s.touch_start is Some ==> s.flush(now).touch_start == s.touch_start,
        s.has_pending() ==> s.flush(now).touch_points == s.touch_points.push(
            s.pending_point(now),
        ) && s.flush(now).touch_current == Some(s.pending_point(now)),
        !s.has_pending() ==> s.flush(now) == s,
{
    assert(s.flush(now).touch_points.take(s.touch_points.len() as int) =~= s.touch_points);
}

/// Between two lifts the samples only grow: an event other than a lift
/// keeps every sample in its place, and keeps the start of the touch once
/// it is set.
pub proof fn law_samples_only_grow(s: Session, event: TouchEvent, now: u64)
    requires
        event != TouchEvent::FingerUp,
    ensures
        step(s, event, now).0.touch_points.len() >= s.touch_points.len(),
        step(s, event, now).0.touch_points.take(s.touch_points.len() as int) == s.touch_points,
        s.touch_start is Some ==> step(s, event, now).0.touch_start == s.touch_start,
{
    law_commit_appends(s, now);
    let after = step(s, event, now).0;
    assert(after.touch_points.take(s.touch_points.len() as int) =~= s.touch_points);
}

/// In a consistent session two or more fingers are active exactly where
/// the samples belong to two or more fingers.
pub proof fn law_active_fingers(s: Session)
    requires
        s.consistent(),
    ensures
        s.active_touches.len() >= 2 <==> exists|i: int, j: int|
            0 <= i < s.touch_points.len() && 0 <= j < s.touch_points.len() && (
            #[trigger] s.touch_points[i]).tracking_id != (#[trigger] s.touch_points[j]).tracking_id,
{
    let fingers = s.active_touches.dom();
    if exists|i: int, j: int|
        0 <= i < s.touch_points.len() && 0 <= j < s.touch_points.len() && (
        #[trigger] s.touch_points[i]).tracking_id != (#[trigger] s.touch_points[j]).tracking_id {
        let (i, j) = choose|i: int, j: int|
            0 <= i < s.touch_points.len() && 0 <= j < s.touch_points.len() && (
            #[trigger] s.touch_points[i]).tracking_id != (#[trigger] s.touch_points[j]).tracking_id;
        let a = s.touch_points[i].tracking_id;
        let b = s.touch_points[j].tracking_id;
        assert(has_sample_of(s.touch_points, a));
        assert(has_sample_of(s.touch_points, b));
        assert(s.active_touches.contains_key(a) && s.active_touches.contains_key(b));
        let pair = set![a, b];
        assert(pair.subset_of(fingers));
        vstd::set_lib::lemma_len_subset(pair, fingers);
        assert(pair.len() == 2) by {
            assert(pair =~= set![a].insert(b));
        }
    }
    if s.active_touches.len() >= 2 {
        let a = fingers.choose();
        assert(fingers.contains(a));
        let rest = fingers.remove(a);
        assert(rest.len() >= 1);
        let b = rest.choose();
        assert(rest.contains(b));
        assert(fingers.contains(b) && a != b);
        assert(has_sample_of(s.touch_points, a));
        assert(has_sample_of(s.touch_points, b));
        let i = choose|i: int|
            0 <= i < s.touch_points.len() && #[trigger] s.touch_points[i].tracking_id == a;
        let j = choose|j: int|
            0 <= j < s.touch_points.len() && #[trigger] s.touch_points[j].tracking_id == b;
        assert(s.touch_points[i].tracking_id != s.touch_points[j].tracking_id);
    }
}

/// A commit keeps the samples consistent: the start stays the first
/// sample, the current one is the last, and each finger's active entry is
/// its latest sample.
pub proof fn law_commit_keeps_consistency(s: Session, now: u64)
    requires
        s.consistent(),
    ensures
        s.flush(now).consistent(),
{
    if s.has_pending() {
        let point = s.pending_point(now);
        let after = s.flush(now);
        let points = after.touch_points;
        assert(points.drop_last() =~= s.touch_points);
        assert(points.last() == point);
        assert forall|id: i32| #[trigger]
            after.active_touches.contains_key(id) <==> has_sample_of(points, id) by {
            if id == point.tracking_id {
                assert(points[points.len() - 1].tracking_id == id);
            } else {
                if has_sample_of(s.touch_points, id) {
                    let i = choose|i: int|
                        0 <= i < s.touch_points.len() && #[trigger] s.touch_points[i].tracking_id
                            == id;
                    assert(points[i].tracking_id == id);
                }
                if has_sample_of(points, id) {
                    let i = choose|i: int|
                        0 <= i < points.len() && #[trigger] points[i].tracking_id == id;
                    assert(s.touch_points[i].tracking_id == id);
                }
            }
        }
        assert forall|id: i32| #[trigger]
            after.active_touches.contains_key(id) implies after.active_touches[id] == latest_of(
            points,
            id,
        ) by {
            if id != point.tracking_id {
                assert(s.active_touches.contains_key(id));
            }
        }
    }
}

/// Every event keeps the samples consistent.
pub proof fn law_events_keep_consistency(s: Session, event: TouchEvent, now: u64)
    requires
        s.consistent(),
    ensures
        step(s, event, now).0.consistent(),
{
    match event {
        TouchEvent::FingerUp => {
            law_lift_resets(s, now);
        },
        TouchEvent::SynReport => {
            law_commit_keeps_consistency(s, now);
        },
        _ => {},
    }
}

/// The sample `p`, taken `d` microseconds later.
pub open spec fn delayed_point(p: TouchPoint, d: u64) -> TouchPoint {
    TouchPoint { time: (p.time + d) as u64, ..p }
}

/// The optional sample `p`, taken `d` microseconds later.
pub open spec fn delayed_sample(p: Option<TouchPoint>, d: u64) -> Option<TouchPoint> {
    match p {
        Some(point) => Some(delayed_point(point, d)),
        None => None,
    }
}

/// The session `s` with every instant in it `d` microseconds later.
pub open spec fn delayed(s: Session, d: u64) -> Session {
    Session {
        touch_start: delayed_sample(s.touch_start, d),
        touch_current: delayed_sample(s.touch_current, d),
        touch_points: Seq::new(s.touch_points.len(), |i: int| delayed_point(s.touch_points[i], d)),
        active_touches: Map::new(
            |id: i32| s.active_touches.contains_key(id),
            |id: i32| delayed_point(s.active_touches[id], d),
        ),
        last_tap_time: match s.last_tap_time {
            Some(time) => Some((time + d) as u64),
            None => None,
        },
        ..s
    }
}

/// Whether every instant in `s` can be `d` microseconds later without
/// leaving the range of the clock.
pub open spec fn can_delay(s: Session, d: u64) -> bool {
    &&& s.touch_start matches Some(p) ==> p.time + d <= u64::MAX
    &&& s.touch_current matches Some(p) ==> p.time + d <= u64::MAX
    &&& forall|i: int| 0 <= i < s.touch_points.len() ==> (#[trigger] s.touch_points[i]).time + d
        <= u64::MAX
    &&& forall|id: i32| #[trigger]
        s.active_touches.contains_key(id) ==> s.active_touches[id].time + d <= u64::MAX
    &&& s.last_tap_time matches Some(time) ==> time + d <= u64::MAX
}

/// The events, each handled `d` microseconds later.
pub open spec fn delayed_events(events: Seq<TimedEvent>, d: u64) -> Seq<TimedEvent> {
    Seq::new(events.len(), |i: int| TimedEvent { at: (events[i].at + d) as u64, ..events[i] })
}

/// Whether every event can be handled `d` microseconds later without
/// leaving the range of the clock.
pub open spec fn can_delay_events(events: Seq<TimedEvent>, d: u64) -> bool {
    forall|i: int| 0 <= i < events.len() ==> (#[trigger] events[i]).at + d <= u64::MAX
}

proof fn lemma_delay_keeps_partners(points: Seq<TouchPoint>, d: u64, id: i32, at: int)
    ensures
        first_other(Seq::new(points.len(), |i: int| delayed_point(points[i], d)), id, at)
            == first_other(points, id, at),
        last_other(Seq::new(points.len(), |i: int| delayed_point(points[i], d)), id, at)
            == last_other(points, id, at),
{
    lemma_delay_keeps_first_partner(points, d, id, at);
    lemma_delay_keeps_last_partner(points, d, id, at);
}

proof fn lemma_delay_keeps_first_partner(points: Seq<TouchPoint>, d: u64, id: i32, from: int)
    ensures
        first_other(Seq::new(points.len(), |i: int| delayed_point(points[i], d)), id, from)
            == first_other(points, id, from),
    decreases points.len() - from,
{
    if 0 <= from < points.len() {
        lemma_delay_keeps_first_partner(points, d, id, from + 1);
    }
}

proof fn lemma_delay_keeps_last_partner(points: Seq<TouchPoint>, d: u64, id: i32, until: int)
    ensures
        last_other(Seq::new(points.len(), |i: int| delayed_point(points[i], d)), id, until)
            == last_other(points, id, until),
    decreases until,
{
    if 0 < until <= points.len() {
        lemma_delay_keeps_last_partner(points, d, id, until - 1);
    }
}

/// The partner of a sample is the nearest sample of another finger: the
/// first one at or after `at` when looking forward, the last one before
/// `at` when looking back. Every sample in between belongs to the finger
/// `id`, and there is no partner only where all samples on that side do.
pub proof fn law_partner_is_nearest(points: Seq<TouchPoint>, id: i32, at: int)
    requires
        0 <= at <= points.len(),
    ensures
        first_other(points, id, at) matches Some(i) ==> at <= i < points.len()
            && points[i].tracking_id != id && forall|k: int|
            at <= k < i ==> (#[trigger] points[k]).tracking_id == id,
        first_other(points, id, at) is None ==> forall|k: int|
            at <= k < points.len() ==> (#[trigger] points[k]).tracking_id == id,
        last_other(points, id, at) matches Some(j) ==> 0 <= j < at && points[j].tracking_id != id
            && forall|k: int| j < k < at ==> (#[trigger] points[k]).tracking_id == id,
        last_other(points, id, at) is None ==> forall|k: int|
            0 <= k < at ==> (#[trigger] points[k]).tracking_id == id,
{
    lemma_first_partner_is_nearest(points, id, at);
    lemma_last_partner_is_nearest(points, id, at);
}

proof fn lemma_first_partner_is_nearest(points: Seq<TouchPoint>, id: i32, from: int)
    requires
        0 <= from <= points.len(),
    ensures
        first_other(points, id, from) matches Some(i) ==> from <= i < points.len()
            && points[i].tracking_id != id && forall|k: int|
            from <= k < i ==> (#[trigger] points[k]).tracking_id == id,
        first_other(points, id, from) is None ==> forall|k: int|
            from <= k < points.len() ==> (#[trigger] points[k]).tracking_id == id,
    decreases points.len() - from,
{
    if from < points.len() {
        lemma_first_partner_is_nearest(points, id, from + 1);
    }
}

proof fn lemma_last_partner_is_nearest(points: Seq<TouchPoint>, id: i32, until: int)
    requires
        0 <= until <= points.len(),
    ensures
        last_other(points, id, until) matches Some(j) ==> 0 <= j < until && points[j].tracking_id
            != id && forall|k: int| j < k < until ==> (#[trigger] points[k]).tracking_id == id,
        last_other(points, id, until) is None ==> forall|k: int|
            0 <= k < until ==> (#[trigger] points[k]).tracking_id == id,
    decreases until,
{
    if 0 < until {
        lemma_last_partner_is_nearest(points, id, until - 1);
    }
}

proof fn lemma_delay_keeps_pinch(s: Session, d: u64)
    ensures
        delayed(s, d).pinch() == s.pinch(),
        delayed(s, d).preempting_pinch() == s.preempting_pinch(),
{
    let later = delayed(s, d);
    assert(later.active_touches.dom() =~= s.active_touches.dom());
    assert(later.active_touches.len() == s.active_touches.len());
    assert(later.touch_points.len() == s.touch_points.len());
    if s.touch_points.len() >= 4 {
        let n = s.touch_points.len() as int;
        assert(later.touch_points[0] == delayed_point(s.touch_points[0], d));
        assert(later.touch_points[n - 1] == delayed_point(s.touch_points[n - 1], d));
        lemma_delay_keeps_partners(s.touch_points, d, s.touch_points[0].tracking_id, 1);
        lemma_delay_keeps_partners(s.touch_points, d, s.touch_points[n - 1].tracking_id, n - 1);
        law_partner_is_nearest(s.touch_points, s.touch_points[0].tracking_id, 1);
        law_partner_is_nearest(s.touch_points, s.touch_points[n - 1].tracking_id, n - 1);
        if s.first_partner() is Some {
            let i = s.first_partner()->0;
            assert(later.touch_points[i] == delayed_point(s.touch_points[i], d));
        }
        if s.last_partner() is Some {
            let j = s.last_partner()->0;
            assert(later.touch_points[j] == delayed_point(s.touch_points[j], d));
        }
    }
}

proof fn lemma_delay_commutes_with_commit(s: Session, now: u64, d: u64)
    requires
        can_delay(s, d),
        now + d <= u64::MAX,
    ensures
        delayed(s, d).flush((now + d) as u64) == delayed(s.flush(now), d),
        can_delay(s.flush(now), d),
{
    let left = delayed(s, d).flush((now + d) as u64);
    let right = delayed(s.flush(now), d);
    assert(left.touch_points =~= right.touch_points);
    assert(left.active_touches =~= right.active_touches);
}

proof fn lemma_delay_commutes_with_recognition(s: Session, now: u64, d: u64)
    requires
        can_delay(s, d),
        now + d <= u64::MAX,
    ensures
        delayed(s, d).recognize((now + d) as u64) == (
            delayed(s.recognize(now).0, d),
            s.recognize(now).1,
        ),
        can_delay(s.recognize(now).0, d),
        delayed(s, d).expire((now + d) as u64) == (delayed(s.expire(now).0, d), s.expire(now).1),
        can_delay(s.expire(now).0, d),
{
    lemma_delay_keeps_pinch(s, d);
}

/// Handling an event does not depend on when the clock was started: with
/// every instant `d` microseconds later, the same gestures fire and the
/// same session results, `d` microseconds later.
pub proof fn law_event_is_time_invariant(s: Session, event: TouchEvent, now: u64, d: u64)
    requires
        can_delay(s, d),
        now + d <= u64::MAX,
    ensures
        step(delayed(s, d), event, (now + d) as u64) == (
            delayed(step(s, event, now).0, d),
            step(s, event, now).1,
        ),
        can_delay(step(s, event, now).0, d),
{
    match event {
        TouchEvent::FingerUp => {
            let (expired, tap) = s.expire(now);
            lemma_delay_commutes_with_recognition(s, now, d);
            lemma_delay_commutes_with_recognition(expired, now, d);
            let recognized = expired.recognize(now).0;
            assert(delayed(recognized, d).reset().touch_points =~= delayed(
                recognized.reset(),
                d,
            ).touch_points);
            assert(delayed(recognized, d).reset().active_touches =~= delayed(
                recognized.reset(),
                d,
            ).active_touches);
        },
        TouchEvent::SynReport => {
            lemma_delay_commutes_with_commit(s, now, d);
            lemma_delay_commutes_with_recognition(s.flush(now), now, d);
        },
        _ => {
            let after = step(s, event, now).0;
            assert(delayed(after, d).touch_points =~= delayed(s, d).touch_points);
            assert(delayed(after, d).active_touches =~= delayed(s, d).active_touches);
        },
    }
}

/// A sequence of events that is repeated later is classified alike: with
/// every instant `d` microseconds later, in the session and in the events,
/// the same gestures fire in the same order.
pub proof fn law_replay_is_time_invariant(s: Session, events: Seq<TimedEvent>, d: u64)
    requires
        can_delay(s, d),
        can_delay_events(events, d),
    ensures
        run(delayed(s, d), delayed_events(events, d)) == (
            delayed(run(s, events).0, d),
            run(s, events).1,
        ),
        can_delay(run(s, events).0, d),
    decreases events.len(),
{
    if events.len() > 0 {
        let earlier = events.drop_last();
        law_replay_is_time_invariant(s, earlier, d);
        assert(delayed_events(events, d).drop_last() =~= delayed_events(earlier, d));
        law_event_is_time_invariant(run(s, earlier).0, events.last().event, events.last().at, d);
    }
}

/// After a lift, a touch that repeats an earlier one is classified as the
/// earlier one was, however the touch in between went: given the same
/// device and, up to the delay, the same tap bookkeeping, the session after
/// a reset handles the delayed events as the earlier session, after its
/// reset, handled the events.
pub proof fn law_repeated_touch(a: Session, b: Session, events: Seq<TimedEvent>, d: u64)
    requires
        same_device(a, b),
        same_bookkeeping(delayed(a, d), b),
        a.last_tap_time matches Some(time) ==> time + d <= u64::MAX,
        can_delay_events(events, d),
    ensures
        run(b.reset(), delayed_events(events, d)).1 == run(a.reset(), events).1,
{
    let fresh = a.reset();
    assert(delayed(fresh, d).touch_points =~= b.reset().touch_points);
    assert(delayed(fresh, d).active_touches =~= b.reset().active_touches);
    assert(delayed(fresh, d) == b.reset());
    law_replay_is_time_invariant(fresh, events, d);
}

/// Every sequence of events keeps the samples consistent.
pub proof fn law_replay_keeps_consistency(s: Session, events: Seq<TimedEvent>)
    requires
        s.consistent(),
    ensures
        run(s, events).0.consistent(),
    decreases events.len(),
{
    if events.len() > 0 {
        law_replay_keeps_consistency(s, events.drop_last());
        law_events_keep_consistency(
            run(s, events.drop_last()).0,
            events.last().event,
            events.last().at,
        );
    }
}

} // verus!
