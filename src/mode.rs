//! Display modes: marker types that select which channel API a
//! [`crate::Controller`] offers.

use vstd::prelude::*;

verus! {

/// Mode of a freshly made driver: addressing can be set up, no channel can
/// be set yet.
pub struct DefaultMode {}

/// ColorMode drives each channel as an RGB LED with its own brightness.
pub struct ColorMode {}

impl ColorMode {
    pub fn new() -> Self {
        ColorMode {  }
    }
}

/// MonochromaticMode drives each output as a single LED.
pub struct MonochromaticMode {}

impl MonochromaticMode {
    pub fn new() -> Self {
        MonochromaticMode {  }
    }
}

} // verus!
