//! Gesture recognition for multi-touch screens.
//!
//! A stream of touch reports is classified into swipes, taps, double taps,
//! long presses and pinches. All quantities are integers: coordinates are
//! device units, instants are microseconds on a monotonic clock, and every
//! threshold is a fixed-point number in millionths of its unit.
//!
//! - [`session`] is the mathematical model: the state of a recognizer and
//!   each of its transitions as a function.
//! - [`recognizer`] is the executable recognizer, proved to compute the
//!   model; [`event`] feeds it a stream of touch events, and [`input`]
//!   turns the reports of a device into such events.
//! - [`laws`] proves what holds of the model for all inputs.
//! - [`geometry`] decides the comparisons of distances, angles and
//!   fractions exactly, without rounding.
//! - [`gesture`], [`gestures`], [`thresholds`] and [`config`] hold the
//!   gesture names and the configuration of the devices; [`usb_id`] parses
//!   the identifier by which a device is found, and [`reconnect`] decides
//!   how long a lost device is looked for.
//! - [`clock`] reads the instants.

pub mod clock;
pub mod config;
pub mod event;
pub mod geometry;
pub mod gesture;
pub mod gestures;
pub mod input;
pub mod laws;
pub mod recognizer;
pub mod reconnect;
pub mod session;
pub mod thresholds;
pub mod usb_id;
