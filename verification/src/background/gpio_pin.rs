//! The GPIO pins the buttons are wired to.
use vstd::prelude::*;

verus! {

/// A button pin of the board, by its bank name.
#[derive(Debug, Clone, Copy, PartialEq, Eq, Structural)]
pub enum GpioPin {
    A22,
    A23,
    A24,
    A25,
}

/// The kernel GPIO number of a pin (bank A starts at 480 on this board).
pub open spec fn gpio_number(pin: GpioPin) -> u64 {
    match pin {
        GpioPin::A22 => 502,
        GpioPin::A23 => 503,
        GpioPin::A24 => 504,
        GpioPin::A25 => 505,
    }
}

impl GpioPin {
    /// The kernel GPIO number of the pin.
    pub fn to_u64(&self) -> (r: u64)
        ensures
            r == gpio_number(*self),
    {
        match self {
            GpioPin::A22 => 502,
            GpioPin::A23 => 503,
            GpioPin::A24 => 504,
            GpioPin::A25 => 505,
        }
    }
}

} // verus!
