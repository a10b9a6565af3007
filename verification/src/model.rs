//! The typed records of the response body that carry no floating-point
//! fields: the human-readable condition and the per-day astronomy block.

use vstd::prelude::*;

verus! {

/// A human-readable weather condition: its text, its icon reference and
/// its numeric code.
#[derive(Debug)]
pub struct Condition {
    pub text: String,
    pub icon: String,
    pub code: u32,
}

/// Sunrise, sunset, moonrise, moonset, phase and illumination for one day.
#[derive(Debug)]
pub struct AstroSpec {
    pub sunrise: String,
    pub sunset: String,
    pub moonrise: String,
    pub moonset: String,
    pub moon_phase: String,
    pub moon_illumination: u32,
    pub is_moon_up: u8,
    pub is_sun_up: u8,
}

} // verus!
