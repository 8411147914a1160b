//! The decision logic of a delay-effect control panel and of a circular
//! gradient knob: which tempo division the tempo knob shows, how the panel's
//! switches and icon buttons change state, which segments of a level meter
//! light up and in which colour, how the knob dial is ticked, and which
//! colours the panel's labels and switches take.
//!
//! Everything here works on integers, booleans and plain colour values; the
//! drawing itself, and every computation in floating point, is done by the
//! program that hosts these widgets.
pub mod colour;
pub mod controls;
pub mod dial;
pub mod meter;
pub mod tempo;
pub mod text;
pub mod widgets;
