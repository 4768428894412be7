//! Tests of the detection rules on exact values, with every instant given.

use std::collections::HashMap;

use bodgestr::clock::instant_of;
use bodgestr::config::ValidatedThresholds;
use bodgestr::event::{
    parse_usb_id, process_timed_events, process_touch_event_at, resolve_action, TimedEvent,
    TouchEvent,
};
use bodgestr::geometry::{delta, does_reach, elapsed_between, is_closer_than, separation_sq};
use bodgestr::gestures::{merge_gestures, GestureConfig, GestureMap, RawGestureConfig};
use bodgestr::input::{classify, EventKind};
use bodgestr::recognizer::{GestureRecognizer, GestureType, TouchPoint};
use bodgestr::reconnect::{next_reconnect_step, ReconnectStep, MAX_RETRIES};
use bodgestr::thresholds::RawThresholds;
use bodgestr::usb_id::parse_lowered_usb_id;

const SECOND: u64 = 1_000_000;

fn thresholds() -> ValidatedThresholds {
    ValidatedThresholds {
        swipe_time_max: 900_000,
        swipe_distance_min_pct: 150_000,
        angle_tolerance_tan: 577_350,
        tap_time_max: 200_000,
        long_press_time_min: 800_000,
        double_tap_interval: 300_000,
        tap_distance_max: 50_000_000,
        double_tap_distance_max: 50_000_000,
        pinch_threshold_pct: 100_000,
    }
}

fn recognizer() -> GestureRecognizer {
    GestureRecognizer::new(thresholds(), (0, 1000), (0, 1000))
}

fn point(x: i32, y: i32, time: u64, tracking_id: i32) -> TouchPoint {
    TouchPoint {
        x,
        y,
        time,
        tracking_id,
    }
}

/// Sets up a touch of one finger from `start` to `end`.
fn touch(rec: &mut GestureRecognizer, start: TouchPoint, end: TouchPoint) {
    rec.touch_start = Some(start);
    rec.touch_current = Some(end);
    rec.touch_points = vec![start, end];
    rec.active_touches = HashMap::from([(end.tracking_id, end)]);
}

/// The events of one finger that goes down at `from`, moves to `to` and is
/// lifted, with the instants of the two samples and of the lift.
fn stroke(from: (i32, i32), to: (i32, i32), down: u64, moved: u64, up: u64) -> Vec<TimedEvent> {
    let at = |event, at| TimedEvent { event, at };
    vec![
        at(TouchEvent::TrackingId(0), down),
        at(TouchEvent::PositionX(from.0), down),
        at(TouchEvent::PositionY(from.1), down),
        at(TouchEvent::SynReport, down),
        at(TouchEvent::PositionX(to.0), moved),
        at(TouchEvent::PositionY(to.1), moved),
        at(TouchEvent::SynReport, moved),
        at(TouchEvent::FingerUp, up),
    ]
}

fn delayed(events: &[TimedEvent], by: u64) -> Vec<TimedEvent> {
    events
        .iter()
        .map(|e| TimedEvent {
            event: e.event,
            at: e.at + by,
        })
        .collect()
}

// -- Geometry -------------------------------------------------

#[test]
fn test_elapsed_is_zero_backwards() {
    assert_eq!(elapsed_between(10, 25), 15);
    assert_eq!(elapsed_between(25, 10), 0);
    assert_eq!(elapsed_between(0, u64::MAX), u64::MAX);
    assert_eq!(elapsed_between(7, 7), 0);
}

#[test]
fn test_delta_of_extremes() {
    assert_eq!(delta(i32::MIN, i32::MAX), 4_294_967_295);
    assert_eq!(delta(i32::MAX, i32::MIN), -4_294_967_295);
    assert_eq!(delta(800, 100), -700);
}

#[test]
fn test_separation_sq_values() {
    assert_eq!(separation_sq(0, 0, 3, 4), 25);
    assert_eq!(separation_sq(-3, 4, 0, 0), 25);
    assert_eq!(separation_sq(5, 5, 5, 5), 0);
    assert_eq!(
        separation_sq(i32::MIN, i32::MIN, i32::MAX, i32::MAX),
        36_893_488_130_239_234_050
    );
}

#[test]
fn test_closer_than_is_strict() {
    // (30, 40) is exactly 50 away
    assert!(!is_closer_than(0, 0, 30, 40, 50_000_000));
    assert!(is_closer_than(0, 0, 30, 40, 50_000_001));
    assert!(is_closer_than(0, 0, 30, 39, 50_000_000));
    assert!(!is_closer_than(0, 0, 0, 0, 0));
    assert!(is_closer_than(0, 0, 0, 0, 1));
    // between 50 and 51: 50.99... > 50.5
    assert!(!is_closer_than(0, 0, 50, 10, 50_500_000));
    assert!(is_closer_than(0, 0, 50, 7, 50_500_000));
    assert!(is_closer_than(i32::MIN, i32::MIN, i32::MAX, i32::MAX, u64::MAX));
}

#[test]
fn test_reach_is_inclusive() {
    // 15 % of a span of 1000 is 150
    assert!(does_reach(500, 650, (0, 1000), 150_000));
    assert!(does_reach(650, 500, (0, 1000), 150_000));
    assert!(!does_reach(500, 649, (0, 1000), 150_000));
    // a span of zero is reached by every displacement
    assert!(does_reach(5, 5, (7, 7), 150_000));
    // and so is a negative one
    assert!(does_reach(5, 5, (10, 0), 150_000));
}

// -- Swipes ---------------------------------------------------

#[test]
fn test_swipe_left_at_given_instants() {
    let mut rec = recognizer();
    touch(&mut rec, point(800, 500, 0, 0), point(100, 500, 300_000, 0));
    assert_eq!(rec.recognize_gesture_at(300_000), Some(GestureType::SwipeLeft));
}

#[test]
fn test_swipe_time_limit_is_exclusive() {
    let mut rec = recognizer();
    touch(&mut rec, point(800, 500, 0, 0), point(100, 500, 899_999, 0));
    assert_eq!(rec.recognize_gesture_at(899_999), Some(GestureType::SwipeLeft));
    touch(&mut rec, point(800, 500, 0, 0), point(100, 500, 900_000, 0));
    assert_eq!(rec.recognize_gesture_at(900_000), None);
}

#[test]
fn test_swipe_cone_edge() {
    let rec = recognizer();
    // tan = 0.57735: 1000 along allows 577 across, not 578
    let start = point(0, 0, 0, 0);
    assert_eq!(
        rec.detect_swipe(start, point(1000, 577, 1, 0)),
        Some(GestureType::SwipeRight)
    );
    assert_eq!(rec.detect_swipe(start, point(1000, 578, 1, 0)), None);
    assert_eq!(
        rec.detect_swipe(start, point(577, -1000, 1, 0)),
        Some(GestureType::SwipeUp)
    );
    assert_eq!(rec.detect_swipe(start, point(578, -1000, 1, 0)), None);
}

#[test]
fn test_horizontal_wins_where_both_qualify() {
    // a tolerance of 60 degrees lets a diagonal pass both tests
    let wide = ValidatedThresholds {
        angle_tolerance_tan: 1_732_051,
        ..thresholds()
    };
    let rec = GestureRecognizer::new(wide, (0, 1000), (0, 1000));
    let start = point(100, 100, 0, 0);
    assert_eq!(
        rec.detect_swipe(start, point(500, 600, 1, 0)),
        Some(GestureType::SwipeRight)
    );
    assert_eq!(
        rec.detect_swipe(start, point(500, 900, 1, 0)),
        Some(GestureType::SwipeDown)
    );
}

#[test]
fn test_swipe_without_displacement_on_degenerate_axis() {
    // with a span of zero no distance is asked for: a touch that does not
    // move is a swipe to the left
    let rec = GestureRecognizer::new(thresholds(), (0, 0), (0, 1000));
    assert_eq!(
        rec.detect_swipe(point(5, 5, 0, 0), point(5, 5, 1, 0)),
        Some(GestureType::SwipeLeft)
    );
}

// -- Taps -----------------------------------------------------

#[test]
fn test_two_taps_give_one_double_tap() {
    let mut rec = recognizer();
    let first = stroke((500, 500), (500, 500), 0, 50_000, 50_000);
    let second = stroke((500, 500), (500, 500), 200_000, 250_000, 250_000);
    assert_eq!(process_timed_events(&mut rec, &first), vec![]);
    assert!(rec.has_pending_tap());
    assert_eq!(
        process_timed_events(&mut rec, &second),
        vec![GestureType::DoubleTap]
    );
    assert!(!rec.has_pending_tap());
    assert_eq!(rec.last_tap_time, None);
    assert_eq!(rec.last_tap_position, None);
    // no tap fires afterwards
    assert_eq!(rec.check_pending_tap_expired_at(10 * SECOND), None);
    let idle = [TimedEvent {
        event: TouchEvent::SynReport,
        at: 20 * SECOND,
    }];
    assert_eq!(process_timed_events(&mut rec, &idle), vec![]);
}

#[test]
fn test_solitary_tap_fires_once() {
    let mut rec = recognizer();
    let tap = stroke((500, 500), (500, 500), 0, 50_000, 50_000);
    assert_eq!(process_timed_events(&mut rec, &tap), vec![]);
    assert!(rec.has_pending_tap());
    assert_eq!(rec.last_tap_time, Some(50_000));
    assert_eq!(rec.last_tap_position, Some((500, 500)));
    assert_eq!(rec.check_pending_tap_expired_at(349_999), None);
    assert_eq!(
        rec.check_pending_tap_expired_at(50_000 + SECOND),
        Some(GestureType::Tap)
    );
    assert!(!rec.has_pending_tap());
    assert_eq!(rec.check_pending_tap_expired_at(50_000 + SECOND), None);
    assert_eq!(rec.check_pending_tap_expired_at(50_000 + 2 * SECOND), None);
}

#[test]
fn test_tap_expires_at_the_interval() {
    let mut rec = recognizer();
    rec.pending_tap = true;
    rec.last_tap_time = Some(1_000);
    assert_eq!(rec.check_pending_tap_expired_at(300_999), None);
    assert_eq!(
        rec.check_pending_tap_expired_at(301_000),
        Some(GestureType::Tap)
    );
}

#[test]
fn test_late_second_tap_is_a_new_tap() {
    let mut rec = recognizer();
    let first = stroke((500, 500), (500, 500), 0, 50_000, 50_000);
    // lifted 300 ms after the first was recorded: the first expires at the
    // lift, the second is recorded anew
    let second = stroke((500, 500), (500, 500), 300_000, 350_000, 350_000);
    assert_eq!(process_timed_events(&mut rec, &first), vec![]);
    assert_eq!(
        process_timed_events(&mut rec, &second),
        vec![GestureType::Tap]
    );
    assert!(rec.has_pending_tap());
    assert_eq!(rec.last_tap_time, Some(350_000));
}

#[test]
fn test_distant_second_tap_is_no_double_tap() {
    let mut rec = recognizer();
    let first = stroke((500, 500), (500, 500), 0, 50_000, 50_000);
    let second = stroke((530, 540), (530, 540), 100_000, 150_000, 150_000);
    assert_eq!(process_timed_events(&mut rec, &first), vec![]);
    assert_eq!(process_timed_events(&mut rec, &second), vec![]);
    assert_eq!(rec.last_tap_position, Some((530, 540)));
}

#[test]
fn test_tap_taken_still_completes_a_double_tap() {
    let mut rec = recognizer();
    touch(&mut rec, point(500, 500, 0, 0), point(500, 500, 50_000, 0));
    assert_eq!(rec.recognize_gesture_at(50_000), None);
    assert!(rec.get_pending_tap());
    touch(
        &mut rec,
        point(500, 500, 100_000, 0),
        point(500, 500, 150_000, 0),
    );
    assert_eq!(
        rec.recognize_gesture_at(150_000),
        Some(GestureType::DoubleTap)
    );
}

// -- Long press -----------------------------------------------

#[test]
fn test_long_press_with_drift() {
    let mut rec = recognizer();
    touch(
        &mut rec,
        point(500, 500, 0, 0),
        point(505, 500, 1_500_000, 0),
    );
    assert_eq!(
        rec.recognize_gesture_at(1_500_000),
        Some(GestureType::LongPress)
    );
    assert!(!rec.has_pending_tap());
    assert_eq!(rec.last_tap_time, None);
}

#[test]
fn test_long_press_starts_at_its_minimum() {
    let mut rec = recognizer();
    touch(&mut rec, point(500, 500, 0, 0), point(500, 500, 799_999, 0));
    assert_eq!(rec.recognize_gesture_at(799_999), None);
    assert!(!rec.has_pending_tap());
    touch(&mut rec, point(500, 500, 0, 0), point(500, 500, 800_000, 0));
    assert_eq!(
        rec.recognize_gesture_at(800_000),
        Some(GestureType::LongPress)
    );
}

#[test]
fn test_swipe_comes_before_long_press() {
    // on a small screen a slow, short motion is both; the swipe is tested
    // first
    let mut rec = GestureRecognizer::new(thresholds(), (0, 100), (0, 100));
    touch(&mut rec, point(50, 50, 0, 0), point(70, 50, 850_000, 0));
    assert_eq!(
        rec.recognize_gesture_at(850_000),
        Some(GestureType::SwipeRight)
    );
}

// -- Pinch ----------------------------------------------------

fn pinch(rec: &mut GestureRecognizer, start_dist: i32, end_dist: i32) {
    let p1_start = point(500 - start_dist / 2, 500, 0, 0);
    let p2_start = point(500 + start_dist / 2, 500, 0, 1);
    let p1_end = point(500 - end_dist / 2, 500, 300_000, 0);
    let p2_end = point(500 + end_dist / 2, 500, 300_000, 1);
    rec.touch_start = Some(p1_start);
    rec.touch_current = Some(p1_end);
    rec.touch_points = vec![p1_start, p2_start, p1_end, p2_end];
    rec.active_touches = HashMap::from([(0, p1_end), (1, p2_end)]);
}

#[test]
fn test_pinch_in_out_and_neither() {
    let mut rec = recognizer();
    pinch(&mut rec, 400, 100);
    assert_eq!(rec.detect_pinch(), Some(GestureType::PinchIn));
    pinch(&mut rec, 100, 400);
    assert_eq!(rec.detect_pinch(), Some(GestureType::PinchOut));
    pinch(&mut rec, 200, 200);
    assert_eq!(rec.detect_pinch(), None);
}

#[test]
fn test_pinch_band_is_exclusive() {
    let mut rec = recognizer();
    // 10 % of 200 is 20: 180 and 220 are on the band, 178 and 222 beyond
    pinch(&mut rec, 200, 180);
    assert_eq!(rec.detect_pinch(), None);
    pinch(&mut rec, 200, 220);
    assert_eq!(rec.detect_pinch(), None);
    pinch(&mut rec, 200, 178);
    assert_eq!(rec.detect_pinch(), Some(GestureType::PinchIn));
    pinch(&mut rec, 200, 222);
    assert_eq!(rec.detect_pinch(), Some(GestureType::PinchOut));
}

#[test]
fn test_pinch_with_a_threshold_beyond_one() {
    let wide = ValidatedThresholds {
        pinch_threshold_pct: 1_500_000,
        ..thresholds()
    };
    let mut rec = GestureRecognizer::new(wide, (0, 1000), (0, 1000));
    pinch(&mut rec, 100, 0);
    assert_eq!(rec.detect_pinch(), None);
    pinch(&mut rec, 100, 250);
    assert_eq!(rec.detect_pinch(), None);
    pinch(&mut rec, 100, 252);
    assert_eq!(rec.detect_pinch(), Some(GestureType::PinchOut));
    let huge = ValidatedThresholds {
        pinch_threshold_pct: u64::MAX,
        ..thresholds()
    };
    let mut rec = GestureRecognizer::new(huge, (0, 1000), (0, 1000));
    pinch(&mut rec, 2, 1000);
    assert_eq!(rec.detect_pinch(), None);
    pinch(&mut rec, 0, 1000);
    assert_eq!(rec.detect_pinch(), Some(GestureType::PinchOut));
}

#[test]
fn test_pinch_partners() {
    let mut rec = recognizer();
    // the first sample pairs with the earliest sample of another finger,
    // the last with the latest one
    let points = vec![
        point(100, 500, 0, 0),
        point(110, 500, 1, 0),
        point(500, 500, 2, 1),
        point(900, 500, 3, 1),
        point(480, 500, 4, 0),
        point(500, 500, 5, 1),
        point(490, 500, 6, 1),
    ];
    rec.touch_start = Some(points[0]);
    rec.touch_current = Some(points[6]);
    rec.active_touches = HashMap::from([(0, points[4]), (1, points[6])]);
    rec.touch_points = points;
    // first separation 400 (samples 0 and 2), last 10 (samples 6 and 4)
    assert_eq!(rec.detect_pinch(), Some(GestureType::PinchIn));
}

#[test]
fn test_pinch_needs_two_fingers_among_the_samples() {
    let mut rec = recognizer();
    let points = vec![
        point(100, 500, 0, 0),
        point(200, 500, 1, 0),
        point(300, 500, 2, 0),
        point(400, 500, 3, 0),
    ];
    rec.touch_start = Some(points[0]);
    rec.touch_current = Some(points[3]);
    rec.active_touches = HashMap::from([(0, points[3]), (1, point(0, 0, 0, 1))]);
    rec.touch_points = points;
    assert_eq!(rec.detect_pinch(), None);
}

#[test]
fn test_pinch_preempts_swipe() {
    let mut rec = recognizer();
    // the first finger alone would be a swipe to the right
    let p1_start = point(100, 500, 0, 0);
    let p2_start = point(900, 500, 0, 1);
    let p1_end = point(450, 500, 300_000, 0);
    let p2_end = point(550, 500, 300_000, 1);
    rec.touch_start = Some(p1_start);
    rec.touch_current = Some(p1_end);
    rec.touch_points = vec![p1_start, p2_start, p1_end, p2_end];
    rec.active_touches = HashMap::from([(0, p1_end), (1, p2_end)]);
    assert_eq!(
        rec.detect_swipe(p1_start, p1_end),
        Some(GestureType::SwipeRight)
    );
    assert_eq!(rec.recognize_gesture_at(300_000), Some(GestureType::PinchIn));
    // with one active finger the swipe is found
    rec.active_touches = HashMap::from([(0, p1_end)]);
    assert_eq!(
        rec.recognize_gesture_at(300_000),
        Some(GestureType::SwipeRight)
    );
}

// -- Commit and reset -----------------------------------------

#[test]
fn test_commit_at_a_given_instant() {
    let mut rec = recognizer();
    rec.set_tracking_id(7);
    rec.set_pending_x(10);
    rec.set_pending_x(11);
    rec.flush_pending_at(42);
    assert_eq!(rec.touch_points, vec![point(11, 0, 42, 7)]);
    assert_eq!(rec.touch_start, Some(point(11, 0, 42, 7)));
    assert_eq!(rec.pending_x, None);
    rec.set_pending_y(20);
    rec.flush_pending_at(43);
    assert_eq!(
        rec.touch_points,
        vec![point(11, 0, 42, 7), point(11, 20, 43, 7)]
    );
    assert_eq!(rec.touch_start, Some(point(11, 0, 42, 7)));
    assert_eq!(rec.touch_current, Some(point(11, 20, 43, 7)));
    assert_eq!(rec.active_touches.len(), 1);
    assert_eq!(rec.active_touches[&7], point(11, 20, 43, 7));
    // the finger stays until it is changed
    assert_eq!(rec.pending_tracking_id, 7);
    rec.flush_pending_at(44);
    assert_eq!(rec.touch_points.len(), 2);
}

#[test]
fn test_reset_keeps_the_tap_bookkeeping() {
    let mut rec = recognizer();
    touch(&mut rec, point(500, 500, 0, 0), point(500, 500, 50_000, 0));
    assert_eq!(rec.recognize_gesture_at(50_000), None);
    rec.set_tracking_id(3);
    rec.set_pending_x(9);
    rec.reset();
    assert_eq!(rec.touch_points, vec![]);
    assert_eq!(rec.pending_x, None);
    assert_eq!(rec.pending_tracking_id, 0);
    assert!(rec.pending_tap);
    assert_eq!(rec.last_tap_time, Some(50_000));
    assert_eq!(rec.last_tap_position, Some((500, 500)));
    assert_eq!(rec.thresholds, thresholds());
    assert_eq!(rec.x_range, (0, 1000));
}

#[test]
fn test_repeated_touch_is_classified_alike() {
    let mut rec = recognizer();
    let swipe = stroke((800, 500), (100, 500), 1_000, 301_000, 301_000);
    let first = process_timed_events(&mut rec, &swipe);
    let second = process_timed_events(&mut rec, &delayed(&swipe, 5 * SECOND));
    assert_eq!(first, vec![GestureType::SwipeLeft]);
    assert_eq!(second, first);
    // the same on a recognizer that has seen nothing, at other instants
    let mut other = recognizer();
    assert_eq!(
        process_timed_events(&mut other, &delayed(&swipe, 77 * SECOND)),
        first
    );
}

#[test]
fn test_single_events_at_given_instants() {
    let mut rec = recognizer();
    let mut fired = Vec::new();
    for timed in stroke((500, 100), (500, 800), 0, 300_000, 300_000) {
        process_touch_event_at(&mut rec, &timed.event, timed.at, &mut fired);
    }
    assert_eq!(fired, vec![GestureType::SwipeDown]);
    assert!(rec.touch_points.is_empty());
}

#[test]
fn test_clock_does_not_run_backwards() {
    let rec = recognizer();
    let a = rec.now();
    let b = rec.now();
    assert!(a <= b);
}

// -- Input adapter --------------------------------------------

#[test]
fn test_classify_table() {
    assert_eq!(
        classify(EventKind::AbsAxis(0x35), 42),
        Some(TouchEvent::PositionX(42))
    );
    assert_eq!(
        classify(EventKind::AbsAxis(0x36), -7),
        Some(TouchEvent::PositionY(-7))
    );
    assert_eq!(
        classify(EventKind::AbsAxis(0x39), 0),
        Some(TouchEvent::TrackingId(0))
    );
    assert_eq!(
        classify(EventKind::AbsAxis(0x39), -1),
        Some(TouchEvent::FingerUp)
    );
    assert_eq!(
        classify(EventKind::AbsAxis(0x39), -2),
        Some(TouchEvent::TrackingId(-2))
    );
    assert_eq!(classify(EventKind::AbsAxis(0x00), 100), None);
    assert_eq!(
        classify(EventKind::Synchronization(0), 0),
        Some(TouchEvent::SynReport)
    );
    assert_eq!(classify(EventKind::Synchronization(2), 0), None);
    assert_eq!(classify(EventKind::Other, -1), None);
}

// -- USB identifiers ------------------------------------------

#[test]
fn test_usb_id_forms() {
    assert_eq!(parse_usb_id("USB:1234:5678"), Some((0x1234, 0x5678)));
    assert_eq!(parse_usb_id("zzzz:0000"), None);
    assert_eq!(parse_usb_id("Usb:aBcD:0"), Some((0xABCD, 0)));
    assert_eq!(parse_usb_id("ffff:FFFF"), Some((0xFFFF, 0xFFFF)));
    assert_eq!(parse_usb_id("10000:1"), None);
    assert_eq!(parse_usb_id("000000001:0000000002"), Some((1, 2)));
    assert_eq!(parse_usb_id("+12:+34"), Some((0x12, 0x34)));
    assert_eq!(parse_usb_id("-12:34"), None);
    assert_eq!(parse_usb_id("++12:34"), None);
    assert_eq!(parse_usb_id("+:1"), None);
    assert_eq!(parse_usb_id(":1"), None);
    assert_eq!(parse_usb_id("1:"), None);
    assert_eq!(parse_usb_id(":"), None);
    assert_eq!(parse_usb_id("1:2:3"), None);
    assert_eq!(parse_usb_id(" 1:2"), None);
    assert_eq!(parse_usb_id("usb:"), None);
    // the marker is taken out wherever it stands
    assert_eq!(parse_usb_id("12usb:34:56"), Some((0x1234, 0x56)));
    assert_eq!(parse_usb_id("usb:usb:1:2"), Some((1, 2)));
    assert_eq!(parse_usb_id("1:2usb:"), Some((1, 2)));
    // what is left is not read again
    assert_eq!(parse_usb_id("ususb:b:1:2"), None);
    assert_eq!(parse_usb_id("\u{130}:1"), None);
    assert_eq!(parse_usb_id("1\u{e9}:1"), None);
}

#[test]
fn test_lowered_usb_id_is_read_as_it_stands() {
    assert_eq!(parse_lowered_usb_id("usb:1234:5678"), Some((0x1234, 0x5678)));
    // no case folding here: the marker in upper case is no marker
    assert_eq!(parse_lowered_usb_id("USB:1234:5678"), None);
    assert_eq!(parse_lowered_usb_id("ABCD:EF01"), Some((0xABCD, 0xEF01)));
}

// -- Gestures of a device -------------------------------------

fn raw(action: Option<&str>, enabled: Option<bool>) -> RawGestureConfig {
    RawGestureConfig {
        action: action.map(|a| a.to_string()),
        enabled,
    }
}

#[test]
fn test_merge_gestures_part_by_part() {
    let global = vec![
        ("tap".to_string(), raw(Some("global tap"), Some(true))),
        ("swipe_left".to_string(), raw(Some("left"), None)),
        ("pinch_in".to_string(), raw(None, None)),
    ];
    let device = vec![
        ("tap".to_string(), raw(None, Some(false))),
        ("swipe_left".to_string(), raw(Some("device left"), Some(true))),
        ("long_press".to_string(), raw(Some("hold"), None)),
    ];
    let merged = merge_gestures(&global, &device);
    assert_eq!(merged.len(), 4);
    let tap = merged.get("tap").unwrap();
    assert_eq!(tap.action, Some("global tap".to_string()));
    assert!(!tap.enabled);
    let left = merged.get("swipe_left").unwrap();
    assert_eq!(left.action, Some("device left".to_string()));
    assert!(left.enabled);
    let pinch = merged.get("pinch_in").unwrap();
    assert_eq!(pinch.action, None);
    assert!(!pinch.enabled);
    let hold = merged.get("long_press").unwrap();
    assert_eq!(hold.action, Some("hold".to_string()));
    assert!(!hold.enabled);
    assert!(merged.get("tap ").is_none());
    assert_eq!(resolve_action(GestureType::SwipeLeft, &merged), Some("device left"));
    assert_eq!(resolve_action(GestureType::Tap, &merged), None);
    assert_eq!(resolve_action(GestureType::LongPress, &merged), None);
}

#[test]
fn test_resolve_action_with_empty_text() {
    let mut map = GestureMap::new();
    map.insert(
        "tap".to_string(),
        GestureConfig {
            action: Some(String::new()),
            enabled: true,
        },
    );
    assert_eq!(resolve_action(GestureType::Tap, &map), None);
    map.insert(
        "tap".to_string(),
        GestureConfig {
            action: Some("x".to_string()),
            enabled: true,
        },
    );
    assert_eq!(resolve_action(GestureType::Tap, &map), Some("x"));
    assert_eq!(resolve_action(GestureType::DoubleTap, &map), None);
}

// -- Thresholds -----------------------------------------------

#[test]
fn test_thresholds_merge_and_validate() {
    let mut own = RawThresholds::empty();
    own.swipe_time_max = Some(1);
    own.tap_time_max = Some(2);
    let mut fallback = RawThresholds::empty();
    fallback.swipe_time_max = Some(10);
    fallback.pinch_threshold_pct = Some(30);
    let merged = own.merge_with_fallback(&fallback);
    assert_eq!(merged.swipe_time_max, Some(1));
    assert_eq!(merged.tap_time_max, Some(2));
    assert_eq!(merged.pinch_threshold_pct, Some(30));
    assert_eq!(merged.tap_distance_max, None);
    assert_eq!(
        merged.missing(),
        vec![
            "swipe_distance_min_pct",
            "angle_tolerance_deg",
            "long_press_time_min",
            "double_tap_interval",
            "tap_distance_max",
            "double_tap_distance_max",
        ]
    );
    assert_eq!(merged.into_validated(), Err(merged.missing()));
    assert_eq!(
        RawThresholds::empty().into_validated().unwrap_err().len(),
        9
    );
    let complete = RawThresholds {
        swipe_time_max: Some(1),
        swipe_distance_min_pct: Some(2),
        angle_tolerance_tan: Some(3),
        tap_time_max: Some(4),
        long_press_time_min: Some(5),
        double_tap_interval: Some(6),
        tap_distance_max: Some(7),
        double_tap_distance_max: Some(8),
        pinch_threshold_pct: Some(9),
    };
    assert_eq!(
        complete.into_validated(),
        Ok(ValidatedThresholds {
            swipe_time_max: 1,
            swipe_distance_min_pct: 2,
            angle_tolerance_tan: 3,
            tap_time_max: 4,
            long_press_time_min: 5,
            double_tap_interval: 6,
            tap_distance_max: 7,
            double_tap_distance_max: 8,
            pinch_threshold_pct: 9,
        })
    );
}

// -- Reconnecting ---------------------------------------------

#[test]
fn test_reconnect_steps() {
    assert_eq!(MAX_RETRIES, 10);
    assert_eq!(next_reconnect_step(0, true), ReconnectStep::Attempt(1));
    assert_eq!(next_reconnect_step(9, true), ReconnectStep::Attempt(10));
    assert_eq!(next_reconnect_step(10, true), ReconnectStep::GiveUp);
    assert_eq!(next_reconnect_step(usize::MAX, true), ReconnectStep::GiveUp);
    assert_eq!(next_reconnect_step(0, false), ReconnectStep::Abandon);
    assert_eq!(next_reconnect_step(10, false), ReconnectStep::Abandon);
}

// -- Clock ----------------------------------------------------

#[test]
fn test_instant_of_a_count_of_microseconds() {
    assert_eq!(instant_of(0), 0);
    assert_eq!(instant_of(1_500_000), 1_500_000);
    assert_eq!(instant_of(u64::MAX as u128), u64::MAX);
    assert_eq!(instant_of(u64::MAX as u128 + 1), u64::MAX);
    assert_eq!(instant_of(u128::MAX), u64::MAX);
}

#[test]
fn test_empty_thresholds_hold_nothing() {
    let raw = RawThresholds::empty();
    assert_eq!(raw.swipe_time_max, None);
    assert_eq!(raw.swipe_distance_min_pct, None);
    assert_eq!(raw.angle_tolerance_tan, None);
    assert_eq!(raw.tap_time_max, None);
    assert_eq!(raw.long_press_time_min, None);
    assert_eq!(raw.double_tap_interval, None);
    assert_eq!(raw.tap_distance_max, None);
    assert_eq!(raw.double_tap_distance_max, None);
    assert_eq!(raw.pinch_threshold_pct, None);
    assert_eq!(raw.missing().len(), 9);
}
