//! The gesture recognizer of one touch device.

use crate::clock::Clock;
use crate::geometry::{
    delta, does_reach, elapsed_between, has_grown, has_shrunk, is_closer_than, is_within_cone,
    separation_sq,
};
pub use crate::gesture::GestureType;
use crate::laws::law_commit_keeps_consistency;
use crate::session::{first_other, last_other, Session};
pub use crate::session::TouchPoint;
use crate::thresholds::ValidatedThresholds;
use std::collections::HashMap;
use vstd::prelude::*;

verus! {

impl TouchPoint {
    /// The square of the distance to another sample.
    pub fn distance_sq_to(&self, other: &TouchPoint) -> (d_sq: u128)
        ensures
            d_sq == self.spec_distance_sq(*other),
            d_sq <= crate::geometry::MAX_SEPARATION_SQ,
    {
        separation_sq(self.x, self.y, other.x, other.y)
    }
}

/// Recognizes gestures from the touch samples of one device.
///
/// All fields are public, so that a caller can set up any history of
/// samples. The view of a recognizer is its [`Session`]: every field but the
/// clock.
pub struct GestureRecognizer {
    pub thresholds: ValidatedThresholds,
    pub x_range: (i32, i32),
    pub y_range: (i32, i32),
    pub touch_start: Option<TouchPoint>,
    pub touch_current: Option<TouchPoint>,
    pub touch_points: Vec<TouchPoint>,
    pub active_touches: HashMap<i32, TouchPoint>,
    pub last_tap_time: Option<u64>,
    pub last_tap_position: Option<(i32, i32)>,
    pub pending_x: Option<i32>,
    pub pending_y: Option<i32>,
    pub pending_tracking_id: i32,
    pub pending_tap: bool,
    pub clock: Clock,
}

impl View for GestureRecognizer {
    type V = Session;

    open spec fn view(&self) -> Session {
        Session {
            thresholds: self.thresholds,
            x_range: self.x_range,
            y_range: self.y_range,
            touch_start: self.touch_start,
            touch_current: self.touch_current,
            touch_points: self.touch_points@,
            active_touches: self.active_touches@,
            last_tap_time: self.last_tap_time,
            last_tap_position: self.last_tap_position,
            pending_x: self.pending_x,
            pending_y: self.pending_y,
            pending_tracking_id: self.pending_tracking_id,
            pending_tap: self.pending_tap,
        }
    }
}

impl GestureRecognizer {
    /// A recognizer without samples and without a pending tap, for a device
    /// whose axes are calibrated to `x_range` and `y_range` (each minimum,
    /// then maximum). Its clock starts now.
    pub fn new(thresholds: ValidatedThresholds, x_range: (i32, i32), y_range: (i32, i32)) -> (rec:
        GestureRecognizer)
        ensures
            rec@ == Session::fresh(thresholds, x_range, y_range),
            rec@.consistent(),
    {
        let rec = GestureRecognizer {
            thresholds,
            x_range,
            y_range,
            touch_start: None,
            touch_current: None,
            touch_points: Vec::new(),
            active_touches: HashMap::new(),
            last_tap_time: None,
            last_tap_position: None,
            pending_x: None,
            pending_y: None,
            pending_tracking_id: 0,
            pending_tap: false,
            clock: Clock::start(),
        };
        assert(rec@.touch_points =~= Seq::empty());
        rec
    }

    /// The present instant on the recognizer's clock, in microseconds.
    pub fn now(&self) -> u64 {
        self.clock.now()
    }

    /// Forgets the current touch and the buffered coordinates. The tap
    /// bookkeeping stays.
    pub fn reset(&mut self)
        ensures
            final(self)@ == old(self)@.reset(),
            final(self)@.consistent(),
    {
        self.touch_start = None;
        self.touch_current = None;
        self.touch_points.clear();
        self.active_touches.clear();
        self.pending_x = None;
        self.pending_y = None;
        self.pending_tracking_id = 0;
        assert(self@.touch_points =~= Seq::empty());
    }

    /// Buffers an x coordinate until the next commit.
    pub fn set_pending_x(&mut self, x: i32)
        ensures
            final(self)@ == old(self)@.with_pending_x(x),
    {
        self.pending_x = Some(x);
    }

    /// Buffers a y coordinate until the next commit.
    pub fn set_pending_y(&mut self, y: i32)
        ensures
            final(self)@ == old(self)@.with_pending_y(y),
    {
        self.pending_y = Some(y);
    }

    /// Sets the finger that the next commits are attributed to.
    pub fn set_tracking_id(&mut self, id: i32)
        ensures
            final(self)@ == old(self)@.with_tracking_id(id),
    {
        self.pending_tracking_id = id;
    }

    /// Commits the buffered coordinates as a sample taken at `now`.
    pub fn flush_pending_at(&mut self, now: u64)
        ensures
            final(self)@ == old(self)@.flush(now),
            old(self)@.consistent() ==> final(self)@.consistent(),
    {
        proof {
            if self@.consistent() {
                law_commit_keeps_consistency(self@, now);
            }
        }
        if self.pending_x.is_none() && self.pending_y.is_none() {
            return ;
        }
        let x = match self.pending_x {
            Some(x) => x,
            None => match self.touch_current {
                Some(current) => current.x,
                None => 0,
            },
        };
        let y = match self.pending_y {
            Some(y) => y,
            None => match self.touch_current {
                Some(current) => current.y,
                None => 0,
            },
        };
        let point = TouchPoint { x, y, time: now, tracking_id: self.pending_tracking_id };
        self.active_touches.insert(self.pending_tracking_id, point);
        self.touch_points.push(point);
        if self.touch_start.is_none() {
            self.touch_start = Some(point);
        }
        self.touch_current = Some(point);
        self.pending_x = None;
        self.pending_y = None;
    }

    /// Commits the buffered coordinates as a sample taken at the present
    /// instant.
    pub fn flush_pending(&mut self)
        ensures
            exists|now: u64| final(self)@ == old(self)@.flush(now),
            old(self)@.consistent() ==> final(self)@.consistent(),
    {
        let now = self.clock.now();
        self.flush_pending_at(now);
    }

    /// The swipe that the motion from `start` to `current` is, if any.
    pub fn detect_swipe(&self, start: TouchPoint, current: TouchPoint) -> (swipe: Option<
        GestureType,
    >)
        ensures
            swipe == self@.swipe(start, current),
    {
        let dt = elapsed_between(start.time, current.time);
        if dt >= self.thresholds.swipe_time_max {
            return None;
        }
        let dx = delta(start.x, current.x);
        let dy = delta(start.y, current.y);
        if does_reach(start.x, current.x, self.x_range, self.thresholds.swipe_distance_min_pct)
            && is_within_cone(dx, dy, self.thresholds.angle_tolerance_tan) {
            return Some(
                if dx > 0 {
                    GestureType::SwipeRight
                } else {
                    GestureType::SwipeLeft
                },
            );
        }
        if does_reach(start.y, current.y, self.y_range, self.thresholds.swipe_distance_min_pct)
            && is_within_cone(dy, dx, self.thresholds.angle_tolerance_tan) {
            return Some(
                if dy > 0 {
                    GestureType::SwipeDown
                } else {
                    GestureType::SwipeUp
                },
            );
        }
        None
    }

    /// Long press, double tap or a deferred tap for a touch from `start` to
    /// `current`, judged at `now`.
    pub fn detect_stationary_at(
        &mut self,
        start: TouchPoint,
        current: TouchPoint,
        now: u64,
    ) -> (fired: Option<GestureType>)
        ensures
            (final(self)@, fired) == old(self)@.stationary(start, current, now),
    {
        let dt = elapsed_between(start.time, current.time);
        let near = is_closer_than(
            start.x,
            start.y,
            current.x,
            current.y,
            self.thresholds.tap_distance_max,
        );
        if dt >= self.thresholds.long_press_time_min && near {
            return Some(GestureType::LongPress);
        }
        if dt >= self.thresholds.tap_time_max || !near {
            return None;
        }
        match (self.last_tap_time, self.last_tap_position) {
            (Some(time), Some(position)) => {
                if elapsed_between(time, now) < self.thresholds.double_tap_interval
                    && is_closer_than(
                    current.x,
                    current.y,
                    position.0,
                    position.1,
                    self.thresholds.double_tap_distance_max,
                ) {
                    self.pending_tap = false;
                    self.last_tap_time = None;
                    self.last_tap_position = None;
                    return Some(GestureType::DoubleTap);
                }
            },
            _ => {},
        }
        self.last_tap_time = Some(now);
        self.last_tap_position = Some((current.x, current.y));
        self.pending_tap = true;
        None
    }

    /// The index of the earliest sample after the first that belongs to
    /// another finger than the first.
    fn find_first_partner(&self) -> (found: Option<usize>)
        requires
            self.touch_points@.len() > 0,
        ensures
            found matches Some(i) ==> self@.first_partner() == Some(i as int) && 1 <= i
                < self.touch_points@.len(),
            found is None ==> self@.first_partner() is None,
    {
        let id = self.touch_points[0].tracking_id;
        let mut i: usize = 1;
        while i < self.touch_points.len()
            invariant
                1 <= i,
                id == self.touch_points@[0].tracking_id,
                first_other(self.touch_points@, id, 1) == first_other(
                    self.touch_points@,
                    id,
                    i as int,
                ),
            decreases self.touch_points.len() - i,
        {
            if self.touch_points[i].tracking_id != id {
                return Some(i);
            }
            i += 1;
        }
        None
    }

    /// The index of the latest sample before the last that belongs to
    /// another finger than the last.
    fn find_last_partner(&self) -> (found: Option<usize>)
        requires
            self.touch_points@.len() > 0,
        ensures
            found matches Some(j) ==> self@.last_partner() == Some(j as int) && j
                < self.touch_points@.len() - 1,
            found is None ==> self@.last_partner() is None,
    {
        let last = self.touch_points.len() - 1;
        let id = self.touch_points[last].tracking_id;
        let mut until: usize = last;
        while until > 0
            invariant
                until <= last,
                last == self.touch_points@.len() - 1,
                id == self.touch_points@.last().tracking_id,
                last_other(self.touch_points@, id, last as int) == last_other(
                    self.touch_points@,
                    id,
                    until as int,
                ),
            decreases until,
        {
            if self.touch_points[until - 1].tracking_id != id {
                return Some(until - 1);
            }
            until -= 1;
        }
        None
    }

    /// The pinch of the current touch, if any.
    pub fn detect_pinch(&self) -> (pinch: Option<GestureType>)
        ensures
            pinch == self@.pinch(),
    {
        broadcast use vstd::std_specs::hash::group_hash_axioms;

        if self.touch_points.len() < 4 || self.active_touches.len() < 2 {
            return None;
        }
        let first = self.touch_points[0];
        let first_partner = match self.find_first_partner() {
            Some(i) => self.touch_points[i],
            None => {
                return None;
            },
        };
        let last = self.touch_points[self.touch_points.len() - 1];
        let last_partner = match self.find_last_partner() {
            Some(j) => self.touch_points[j],
            None => {
                return None;
            },
        };
        let first_sq = first.distance_sq_to(&first_partner);
        let last_sq = last.distance_sq_to(&last_partner);
        if has_shrunk(first_sq, last_sq, self.thresholds.pinch_threshold_pct) {
            Some(GestureType::PinchIn)
        } else if has_grown(first_sq, last_sq, self.thresholds.pinch_threshold_pct) {
            Some(GestureType::PinchOut)
        } else {
            None
        }
    }

    /// Recognizes the gesture of the recorded touch, judged at `now`: a
    /// pinch while two or more fingers are active, else a swipe, else a long
    /// press or a double tap. `None` also stands for a candidate tap, which
    /// is recorded and stays pending.
    pub fn recognize_gesture_at(&mut self, now: u64) -> (fired: Option<GestureType>)
        ensures
            (final(self)@, fired) == old(self)@.recognize(now),
            old(self)@.consistent() ==> final(self)@.consistent(),
    {
        broadcast use vstd::std_specs::hash::group_hash_axioms;

        let start = match self.touch_start {
            Some(start) => start,
            None => {
                return None;
            },
        };
        let current = match self.touch_current {
            Some(current) => current,
            None => {
                return None;
            },
        };
        if self.active_touches.len() >= 2 {
            let pinch = self.detect_pinch();
            if pinch.is_some() {
                return pinch;
            }
        }
        let swipe = self.detect_swipe(start, current);
        if swipe.is_some() {
            return swipe;
        }
        self.detect_stationary_at(start, current, now)
    }

    /// Recognizes the gesture of the recorded touch, judged at the present
    /// instant.
    pub fn recognize_gesture(&mut self) -> (fired: Option<GestureType>)
        ensures
            exists|now: u64| (final(self)@, fired) == old(self)@.recognize(now),
            old(self)@.consistent() ==> final(self)@.consistent(),
    {
        let now = self.clock.now();
        self.recognize_gesture_at(now)
    }

    /// Whether a candidate tap is pending.
    pub fn has_pending_tap(&self) -> (pending: bool)
        ensures
            pending == self@.pending_tap,
    {
        self.pending_tap
    }

    /// Tells whether a candidate tap was pending, and clears the flag.
    pub fn get_pending_tap(&mut self) -> (pending: bool)
        ensures
            pending == old(self)@.pending_tap,
            final(self)@ == old(self)@.tap_taken(),
    {
        let pending = self.pending_tap;
        self.pending_tap = false;
        pending
    }

    /// Fires a tap if one is pending and the double-tap interval has passed
    /// at `now`; the tap is then pending no more.
    pub fn check_pending_tap_expired_at(&mut self, now: u64) -> (fired: Option<GestureType>)
        ensures
            (final(self)@, fired) == old(self)@.expire(now),
            old(self)@.consistent() ==> final(self)@.consistent(),
    {
        if !self.pending_tap {
            return None;
        }
        let time = match self.last_tap_time {
            Some(time) => time,
            None => {
                return None;
            },
        };
        if elapsed_between(time, now) >= self.thresholds.double_tap_interval {
            self.pending_tap = false;
            Some(GestureType::Tap)
        } else {
            None
        }
    }

    /// Fires a tap if one is pending and the double-tap interval has passed
    /// at the present instant.
    pub fn check_pending_tap_expired(&mut self) -> (fired: Option<GestureType>)
        ensures
            exists|now: u64| (final(self)@, fired) == old(self)@.expire(now),
            old(self)@.consistent() ==> final(self)@.consistent(),
    {
        let now = self.clock.now();
        self.check_pending_tap_expired_at(now)
    }
}

} // verus!
