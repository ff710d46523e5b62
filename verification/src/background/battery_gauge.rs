//! The battery fuel gauge.
use vstd::prelude::*;

verus! {

/// The battery gauge reader. (Its readings are percentages as floats; the
/// reading loop runs outside the library.)
pub struct BatteryGauge {}

impl BatteryGauge {
    pub fn new() -> (r: Self) {
        Self {}
    }
}

} // verus!
