//! Detection thresholds, complete and partial.
//!
//! Every threshold is an unsigned fixed-point number in millionths of its
//! unit: durations in microseconds, distances in millionths of a device unit,
//! fractions and the tangent of the swipe cone in millionths.

use vstd::prelude::*;

verus! {

/// The nine thresholds of one device, all present.
#[derive(Debug, Clone, Copy, PartialEq, Eq, Structural)]
pub struct ValidatedThresholds {
    /// A swipe lasts strictly less than this many microseconds.
    pub swipe_time_max: u64,
    /// A swipe covers at least this fraction of the axis span.
    pub swipe_distance_min_pct: u64,
    /// Tangent of the largest angle between a swipe and its axis.
    pub angle_tolerance_tan: u64,
    /// A tap lasts strictly less than this many microseconds.
    pub tap_time_max: u64,
    /// A long press lasts at least this many microseconds.
    pub long_press_time_min: u64,
    /// A second tap follows the first within less than this many microseconds.
    pub double_tap_interval: u64,
    /// A tap or long press moves strictly less than this distance.
    pub tap_distance_max: u64,
    /// The two taps of a double tap lie strictly closer than this distance.
    pub double_tap_distance_max: u64,
    /// A pinch changes the finger separation by more than this fraction.
    pub pinch_threshold_pct: u64,
}

/// Thresholds of which any may be absent, as one section of a configuration
/// gives them.
#[derive(Debug, Clone, Copy, PartialEq, Eq, Structural)]
pub struct RawThresholds {
    pub swipe_time_max: Option<u64>,
    pub swipe_distance_min_pct: Option<u64>,
    pub angle_tolerance_tan: Option<u64>,
    pub tap_time_max: Option<u64>,
    pub long_press_time_min: Option<u64>,
    pub double_tap_interval: Option<u64>,
    pub tap_distance_max: Option<u64>,
    pub double_tap_distance_max: Option<u64>,
    pub pinch_threshold_pct: Option<u64>,
}

/// The first value if present, else the second.
pub open spec fn or_else(own: Option<u64>, fallback: Option<u64>) -> Option<u64> {
    if own is Some {
        own
    } else {
        fallback
    }
}

/// The one-element list of `key` if `field` is absent, else the empty list.
pub open spec fn key_if_absent(field: Option<u64>, key: Seq<char>) -> Seq<Seq<char>> {
    if field is None {
        seq![key]
    } else {
        Seq::empty()
    }
}

/// The texts of a list of keys.
pub open spec fn key_texts(keys: Seq<&'static str>) -> Seq<Seq<char>> {
    keys.map_values(|key: &'static str| key@)
}

fn pick(own: Option<u64>, fallback: Option<u64>) -> (picked: Option<u64>)
    ensures
        picked == or_else(own, fallback),
{
    match own {
        Some(_) => own,
        None => fallback,
    }
}

fn note_if_absent(keys: &mut Vec<&'static str>, field: Option<u64>, key: &'static str)
    ensures
        key_texts(final(keys)@) == key_texts(old(keys)@) + key_if_absent(field, key@),
{
    if field.is_none() {
        keys.push(key);
    }
    assert(key_texts(keys@) =~= key_texts(old(keys)@) + key_if_absent(field, key@));
}

impl RawThresholds {
    /// Thresholds with every value absent.
    pub open spec fn spec_empty() -> RawThresholds {
        RawThresholds {
            swipe_time_max: None,
            swipe_distance_min_pct: None,
            angle_tolerance_tan: None,
            tap_time_max: None,
            long_press_time_min: None,
            double_tap_interval: None,
            tap_distance_max: None,
            double_tap_distance_max: None,
            pinch_threshold_pct: None,
        }
    }

    /// Each value of `self` where present, else that of `fallback`.
    pub open spec fn spec_merge(self, fallback: RawThresholds) -> RawThresholds {
        RawThresholds {
            swipe_time_max: or_else(self.swipe_time_max, fallback.swipe_time_max),
            swipe_distance_min_pct: or_else(
                self.swipe_distance_min_pct,
                fallback.swipe_distance_min_pct,
            ),
            angle_tolerance_tan: or_else(self.angle_tolerance_tan, fallback.angle_tolerance_tan),
            tap_time_max: or_else(self.tap_time_max, fallback.tap_time_max),
            long_press_time_min: or_else(self.long_press_time_min, fallback.long_press_time_min),
            double_tap_interval: or_else(self.double_tap_interval, fallback.double_tap_interval),
            tap_distance_max: or_else(self.tap_distance_max, fallback.tap_distance_max),
            double_tap_distance_max: or_else(
                self.double_tap_distance_max,
                fallback.double_tap_distance_max,
            ),
            pinch_threshold_pct: or_else(self.pinch_threshold_pct, fallback.pinch_threshold_pct),
        }
    }

    /// Whether all nine values are present.
    pub open spec fn is_complete(self) -> bool {
        &&& self.swipe_time_max is Some
        &&& self.swipe_distance_min_pct is Some
        &&& self.angle_tolerance_tan is Some
        &&& self.tap_time_max is Some
        &&& self.long_press_time_min is Some
        &&& self.double_tap_interval is Some
        &&& self.tap_distance_max is Some
        &&& self.double_tap_distance_max is Some
        &&& self.pinch_threshold_pct is Some
    }

    /// The configuration keys of the absent values, in the order of the
    /// fields.
    pub open spec fn spec_missing(self) -> Seq<Seq<char>> {
        key_if_absent(self.swipe_time_max, "swipe_time_max"@) + key_if_absent(
            self.swipe_distance_min_pct,
            "swipe_distance_min_pct"@,
        ) + key_if_absent(self.angle_tolerance_tan, "angle_tolerance_deg"@) + key_if_absent(
            self.tap_time_max,
            "tap_time_max"@,
        ) + key_if_absent(self.long_press_time_min, "long_press_time_min"@) + key_if_absent(
            self.double_tap_interval,
            "double_tap_interval"@,
        ) + key_if_absent(self.tap_distance_max, "tap_distance_max"@) + key_if_absent(
            self.double_tap_distance_max,
            "double_tap_distance_max"@,
        ) + key_if_absent(self.pinch_threshold_pct, "pinch_threshold_pct"@)
    }

    /// The complete thresholds that `self` holds; meaningful where
    /// `self.is_complete()`.
    pub open spec fn spec_values(self) -> ValidatedThresholds {
        ValidatedThresholds {
            swipe_time_max: self.swipe_time_max->0,
            swipe_distance_min_pct: self.swipe_distance_min_pct->0,
            angle_tolerance_tan: self.angle_tolerance_tan->0,
            tap_time_max: self.tap_time_max->0,
            long_press_time_min: self.long_press_time_min->0,
            double_tap_interval: self.double_tap_interval->0,
            tap_distance_max: self.tap_distance_max->0,
            double_tap_distance_max: self.double_tap_distance_max->0,
            pinch_threshold_pct: self.pinch_threshold_pct->0,
        }
    }

    /// Thresholds with every value absent.
    pub fn empty() -> (raw: RawThresholds)
        ensures
            raw == RawThresholds::spec_empty(),
    {
        RawThresholds {
            swipe_time_max: None,
            swipe_distance_min_pct: None,
            angle_tolerance_tan: None,
            tap_time_max: None,
            long_press_time_min: None,
            double_tap_interval: None,
            tap_distance_max: None,
            double_tap_distance_max: None,
            pinch_threshold_pct: None,
        }
    }

    /// Fills each absent value from `fallback`.
    pub fn merge_with_fallback(&self, fallback: &RawThresholds) -> (merged: RawThresholds)
        ensures
            merged == self.spec_merge(*fallback),
    {
        RawThresholds {
            swipe_time_max: pick(self.swipe_time_max, fallback.swipe_time_max),
            swipe_distance_min_pct: pick(
                self.swipe_distance_min_pct,
                fallback.swipe_distance_min_pct,
            ),
            angle_tolerance_tan: pick(self.angle_tolerance_tan, fallback.angle_tolerance_tan),
            tap_time_max: pick(self.tap_time_max, fallback.tap_time_max),
            long_press_time_min: pick(self.long_press_time_min, fallback.long_press_time_min),
            double_tap_interval: pick(self.double_tap_interval, fallback.double_tap_interval),
            tap_distance_max: pick(self.tap_distance_max, fallback.tap_distance_max),
            double_tap_distance_max: pick(
                self.double_tap_distance_max,
                fallback.double_tap_distance_max,
            ),
            pinch_threshold_pct: pick(self.pinch_threshold_pct, fallback.pinch_threshold_pct),
        }
    }

    /// The keys of the absent values, in the order of the fields.
    pub fn missing(&self) -> (keys: Vec<&'static str>)
        ensures
            key_texts(keys@) == self.spec_missing(),
            keys@.len() == 0 <==> self.is_complete(),
    {
        let mut keys: Vec<&'static str> = Vec::new();
        assert(key_texts(keys@) =~= Seq::empty());
        note_if_absent(&mut keys, self.swipe_time_max, "swipe_time_max");
        note_if_absent(&mut keys, self.swipe_distance_min_pct, "swipe_distance_min_pct");
        note_if_absent(&mut keys, self.angle_tolerance_tan, "angle_tolerance_deg");
        note_if_absent(&mut keys, self.tap_time_max, "tap_time_max");
        note_if_absent(&mut keys, self.long_press_time_min, "long_press_time_min");
        note_if_absent(&mut keys, self.double_tap_interval, "double_tap_interval");
        note_if_absent(&mut keys, self.tap_distance_max, "tap_distance_max");
        note_if_absent(&mut keys, self.double_tap_distance_max, "double_tap_distance_max");
        note_if_absent(&mut keys, self.pinch_threshold_pct, "pinch_threshold_pct");
        assert(key_texts(keys@) =~= self.spec_missing());
        assert(key_texts(keys@).len() == keys@.len());
        keys
    }

    /// The complete thresholds, or the keys of the values that are absent.
    pub fn into_validated(self) -> (checked: Result<ValidatedThresholds, Vec<&'static str>>)
        ensures
            checked is Ok <==> self.is_complete(),
            checked matches Ok(values) ==> values == self.spec_values(),
            checked matches Err(keys) ==> key_texts(keys@) == self.spec_missing() && keys@.len()
                > 0,
    {
        let keys = self.missing();
        if keys.len() > 0 {
            return Err(keys);
        }
        Ok(
            ValidatedThresholds {
                swipe_time_max: self.swipe_time_max.unwrap(),
                swipe_distance_min_pct: self.swipe_distance_min_pct.unwrap(),
                angle_tolerance_tan: self.angle_tolerance_tan.unwrap(),
                tap_time_max: self.tap_time_max.unwrap(),
                long_press_time_min: self.long_press_time_min.unwrap(),
                double_tap_interval: self.double_tap_interval.unwrap(),
                tap_distance_max: self.tap_distance_max.unwrap(),
                double_tap_distance_max: self.double_tap_distance_max.unwrap(),
                pinch_threshold_pct: self.pinch_threshold_pct.unwrap(),
            },
        )
    }
}

} // verus!
