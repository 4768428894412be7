//! The mathematical model of a recognizer and its transitions.
//!
//! A [`Session`] is the state of one device's recognizer as plain values.
//! Each operation of the recognizer is a function from a session, and where
//! it depends on time from the instant `now`, to the next session and the
//! gesture that fired. The executable recognizer is proved to compute
//! exactly these functions.

use crate::geometry::{closer_than, distance_sq, elapsed, grown, reaches, shrunk, within_cone};
use crate::gesture::GestureType;
use crate::thresholds::ValidatedThresholds;
use vstd::prelude::*;

verus! {

/// One committed sample of a finger: position in device units, instant in
/// microseconds, and the identity of the finger.
#[derive(Debug, Clone, Copy, PartialEq, Eq, Structural)]
pub struct TouchPoint {
    pub x: i32,
    pub y: i32,
    pub time: u64,
    pub tracking_id: i32,
}

impl TouchPoint {
    /// The square of the distance between two samples.
    pub open spec fn spec_distance_sq(self, other: TouchPoint) -> int {
        distance_sq(self.x as int, self.y as int, other.x as int, other.y as int)
    }
}

/// The state of a recognizer.
pub struct Session {
    /// The thresholds of the device; never changed.
    pub thresholds: ValidatedThresholds,
    /// Calibrated minimum and maximum of the x axis; never changed.
    pub x_range: (i32, i32),
    /// Calibrated minimum and maximum of the y axis; never changed.
    pub y_range: (i32, i32),
    /// The first sample committed in the current touch.
    pub touch_start: Option<TouchPoint>,
    /// The sample committed last.
    pub touch_current: Option<TouchPoint>,
    /// All samples committed in the current touch, oldest first.
    pub touch_points: Seq<TouchPoint>,
    /// The latest sample of each finger seen in the current touch.
    pub active_touches: Map<i32, TouchPoint>,
    /// When the last candidate tap was recorded.
    pub last_tap_time: Option<u64>,
    /// Where the last candidate tap was recorded.
    pub last_tap_position: Option<(i32, i32)>,
    /// A buffered x coordinate that is not committed yet.
    pub pending_x: Option<i32>,
    /// A buffered y coordinate that is not committed yet.
    pub pending_y: Option<i32>,
    /// The finger that the next commit is attributed to.
    pub pending_tracking_id: i32,
    /// Whether a candidate tap waits to become a tap or a double tap.
    pub pending_tap: bool,
}

/// The index of the first sample at or after `from` that belongs to another
/// finger than `id`.
pub open spec fn first_other(points: Seq<TouchPoint>, id: i32, from: int) -> Option<int>
    decreases points.len() - from,
{
    if from < 0 || from >= points.len() {
        None
    } else if points[from].tracking_id != id {
        Some(from)
    } else {
        first_other(points, id, from + 1)
    }
}

/// The index of the last sample before `until` that belongs to another
/// finger than `id`.
pub open spec fn last_other(points: Seq<TouchPoint>, id: i32, until: int) -> Option<int>
    decreases until,
{
    if until <= 0 || until > points.len() {
        None
    } else if points[until - 1].tracking_id != id {
        Some(until - 1)
    } else {
        last_other(points, id, until - 1)
    }
}

/// The swipe that the motion from `start` to `current` is, if any. The
/// horizontal test comes first, so a motion that passes both tests is a
/// horizontal swipe.
pub open spec fn swipe_between(
    thresholds: ValidatedThresholds,
    x_range: (i32, i32),
    y_range: (i32, i32),
    start: TouchPoint,
    current: TouchPoint,
) -> Option<GestureType> {
    let dx = current.x - start.x;
    let dy = current.y - start.y;
    if elapsed(start.time, current.time) >= thresholds.swipe_time_max {
        None
    } else if reaches(dx, x_range.1 - x_range.0, thresholds.swipe_distance_min_pct as int)
        && within_cone(dx, dy, thresholds.angle_tolerance_tan as int) {
        Some(
            if dx > 0 {
                GestureType::SwipeRight
            } else {
                GestureType::SwipeLeft
            },
        )
    } else if reaches(dy, y_range.1 - y_range.0, thresholds.swipe_distance_min_pct as int)
        && within_cone(dy, dx, thresholds.angle_tolerance_tan as int) {
        Some(
            if dy > 0 {
                GestureType::SwipeDown
            } else {
                GestureType::SwipeUp
            },
        )
    } else {
        None
    }
}

/// The pinch that a change of finger separation is, if any.
pub open spec fn pinch_between(first_sq: int, last_sq: int, pct: u64) -> Option<GestureType> {
    if shrunk(first_sq, last_sq, pct as int) {
        Some(GestureType::PinchIn)
    } else if grown(first_sq, last_sq, pct as int) {
        Some(GestureType::PinchOut)
    } else {
        None
    }
}

impl Session {
    /// The session of a new recognizer.
    pub open spec fn fresh(
        thresholds: ValidatedThresholds,
        x_range: (i32, i32),
        y_range: (i32, i32),
    ) -> Session {
        Session {
            thresholds,
            x_range,
            y_range,
            touch_start: None,
            touch_current: None,
            touch_points: Seq::empty(),
            active_touches: Map::empty(),
            last_tap_time: None,
            last_tap_position: None,
            pending_x: None,
            pending_y: None,
            pending_tracking_id: 0,
            pending_tap: false,
        }
    }

    /// Forgets the current touch. The tap bookkeeping stays, because a
    /// double tap spans two touches.
    pub open spec fn reset(self) -> Session {
        Session {
            touch_start: None,
            touch_current: None,
            touch_points: Seq::empty(),
            active_touches: Map::empty(),
            pending_x: None,
            pending_y: None,
            pending_tracking_id: 0,
            ..self
        }
    }

    /// Buffers an x coordinate, replacing one that is buffered.
    pub open spec fn with_pending_x(self, x: i32) -> Session {
        Session { pending_x: Some(x), ..self }
    }

    /// Buffers a y coordinate, replacing one that is buffered.
    pub open spec fn with_pending_y(self, y: i32) -> Session {
        Session { pending_y: Some(y), ..self }
    }

    /// Sets the finger of the next commit.
    pub open spec fn with_tracking_id(self, id: i32) -> Session {
        Session { pending_tracking_id: id, ..self }
    }

    /// Whether a coordinate is buffered.
    pub open spec fn has_pending(self) -> bool {
        self.pending_x is Some || self.pending_y is Some
    }

    /// The sample that a commit at `now` creates: a coordinate that is not
    /// buffered is taken from the current sample, or is 0 without one.
    pub open spec fn pending_point(self, now: u64) -> TouchPoint {
        TouchPoint {
            x: match self.pending_x {
                Some(x) => x,
                None => match self.touch_current {
                    Some(c) => c.x,
                    None => 0,
                },
            },
            y: match self.pending_y {
                Some(y) => y,
                None => match self.touch_current {
                    Some(c) => c.y,
                    None => 0,
                },
            },
            time: now,
            tracking_id: self.pending_tracking_id,
        }
    }

    /// Commits the buffered coordinates at `now`; nothing changes where none
    /// is buffered.
    pub open spec fn flush(self, now: u64) -> Session {
        if !self.has_pending() {
            self
        } else {
            let point = self.pending_point(now);
            Session {
                touch_start: if self.touch_start is Some {
                    self.touch_start
                } else {
                    Some(point)
                },
                touch_current: Some(point),
                touch_points: self.touch_points.push(point),
                active_touches: self.active_touches.insert(point.tracking_id, point),
                pending_x: None,
                pending_y: None,
                ..self
            }
        }
    }

    /// The swipe from `start` to `current`, if any.
    pub open spec fn swipe(self, start: TouchPoint, current: TouchPoint) -> Option<GestureType> {
        swipe_between(self.thresholds, self.x_range, self.y_range, start, current)
    }

    /// The later sample that the first sample is paired with: the earliest
    /// one of another finger.
    pub open spec fn first_partner(self) -> Option<int> {
        first_other(self.touch_points, self.touch_points[0].tracking_id, 1)
    }

    /// The earlier sample that the last sample is paired with: the latest
    /// one of another finger.
    pub open spec fn last_partner(self) -> Option<int> {
        last_other(
            self.touch_points,
            self.touch_points.last().tracking_id,
            self.touch_points.len() - 1,
        )
    }

    /// The pinch of the current touch, if any. It takes four samples and two
    /// active fingers.
    pub open spec fn pinch(self) -> Option<GestureType> {
        if self.touch_points.len() < 4 || self.active_touches.len() < 2 {
            None
        } else {
            match (self.first_partner(), self.last_partner()) {
                (Some(i), Some(j)) => pinch_between(
                    self.touch_points[0].spec_distance_sq(self.touch_points[i]),
                    self.touch_points.last().spec_distance_sq(self.touch_points[j]),
                    self.thresholds.pinch_threshold_pct,
                ),
                _ => None,
            }
        }
    }

    /// Whether a touch from `start` to `current` is a long press.
    pub open spec fn is_long_press(self, start: TouchPoint, current: TouchPoint) -> bool {
        &&& elapsed(start.time, current.time) >= self.thresholds.long_press_time_min
        &&& closer_than(start.spec_distance_sq(current), self.thresholds.tap_distance_max as int)
    }

    /// Whether a touch from `start` to `current` is short and still enough
    /// for a tap.
    pub open spec fn is_tap_candidate(self, start: TouchPoint, current: TouchPoint) -> bool {
        &&& !self.is_long_press(start, current)
        &&& elapsed(start.time, current.time) < self.thresholds.tap_time_max
        &&& closer_than(start.spec_distance_sq(current), self.thresholds.tap_distance_max as int)
    }

    /// Whether a candidate tap at `current`, judged at `now`, completes a
    /// double tap with the one recorded before.
    pub open spec fn follows_tap(self, current: TouchPoint, now: u64) -> bool {
        &&& self.last_tap_time matches Some(time)
        &&& self.last_tap_position matches Some(position)
        &&& elapsed(time, now) < self.thresholds.double_tap_interval
        &&& closer_than(
            distance_sq(current.x as int, current.y as int, position.0 as int, position.1 as int),
            self.thresholds.double_tap_distance_max as int,
        )
    }

    /// The session after a double tap: the bookkeeping is consumed.
    pub open spec fn tap_consumed(self) -> Session {
        Session { pending_tap: false, last_tap_time: None, last_tap_position: None, ..self }
    }

    /// The session after a candidate tap at `current` was recorded at `now`.
    pub open spec fn tap_recorded(self, current: TouchPoint, now: u64) -> Session {
        Session {
            pending_tap: true,
            last_tap_time: Some(now),
            last_tap_position: Some((current.x, current.y)),
            ..self
        }
    }

    /// Long press, double tap or a deferred tap for a touch from `start` to
    /// `current`, judged at `now`.
    pub open spec fn stationary(self, start: TouchPoint, current: TouchPoint, now: u64) -> (
        Session,
        Option<GestureType>,
    ) {
        if self.is_long_press(start, current) {
            (self, Some(GestureType::LongPress))
        } else if !self.is_tap_candidate(start, current) {
            (self, None)
        } else if self.follows_tap(current, now) {
            (self.tap_consumed(), Some(GestureType::DoubleTap))
        } else {
            (self.tap_recorded(current, now), None)
        }
    }

    /// The pinch that pre-empts the other detections: one that is found
    /// while two or more fingers are active.
    pub open spec fn preempting_pinch(self) -> Option<GestureType> {
        if self.active_touches.len() >= 2 {
            self.pinch()
        } else {
            None
        }
    }

    /// Recognition at `now`: pinch first, then swipe, then the stationary
    /// gestures. Without a start and a current sample nothing is recognized.
    pub open spec fn recognize(self, now: u64) -> (Session, Option<GestureType>) {
        match (self.touch_start, self.touch_current) {
            (Some(start), Some(current)) => {
                if self.preempting_pinch() is Some {
                    (self, self.preempting_pinch())
                } else if self.swipe(start, current) is Some {
                    (self, self.swipe(start, current))
                } else {
                    self.stationary(start, current, now)
                }
            },
            _ => (self, None),
        }
    }

    /// Whether a pending tap has waited for the whole double-tap interval at
    /// `now`.
    pub open spec fn tap_expired(self, now: u64) -> bool {
        &&& self.pending_tap
        &&& self.last_tap_time matches Some(time)
        &&& elapsed(time, now) >= self.thresholds.double_tap_interval
    }

    /// The expiry check at `now`: an expired pending tap fires as a tap and
    /// is pending no more.
    pub open spec fn expire(self, now: u64) -> (Session, Option<GestureType>) {
        if self.tap_expired(now) {
            (Session { pending_tap: false, ..self }, Some(GestureType::Tap))
        } else {
            (self, None)
        }
    }

    /// The session with the pending-tap flag cleared.
    pub open spec fn tap_taken(self) -> Session {
        Session { pending_tap: false, ..self }
    }

    /// Whether the samples of the current touch are consistent: the start is
    /// the first sample, the current one is the last, and each finger's
    /// active entry is its latest sample.
    pub open spec fn consistent(self) -> bool {
        &&& self.touch_start == if self.touch_points.len() > 0 {
            Some(self.touch_points[0])
        } else {
            None
        }
        &&& self.touch_current == if self.touch_points.len() > 0 {
            Some(self.touch_points.last())
        } else {
            None
        }
        &&& forall|id: i32| #[trigger]
            self.active_touches.contains_key(id) <==> has_sample_of(self.touch_points, id)
        &&& forall|id: i32| #[trigger]
            self.active_touches.contains_key(id) ==> self.active_touches[id] == latest_of(
                self.touch_points,
                id,
            )
        &&& self.active_touches.dom().finite()
    }
}

/// Whether some sample belongs to the finger `id`.
pub open spec fn has_sample_of(points: Seq<TouchPoint>, id: i32) -> bool {
    exists|i: int| 0 <= i < points.len() && #[trigger] points[i].tracking_id == id
}

/// The latest sample of the finger `id`; meaningful where there is one.
pub open spec fn latest_of(points: Seq<TouchPoint>, id: i32) -> TouchPoint
    decreases points.len(),
{
    if points.len() == 0 {
        TouchPoint { x: 0, y: 0, time: 0, tracking_id: id }
    } else if points.last().tracking_id == id {
        points.last()
    } else {
        latest_of(points.drop_last(), id)
    }
}

} // verus!
