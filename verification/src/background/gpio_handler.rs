//! Turning GPIO button edges into input events.
use vstd::prelude::*;
use crate::background::gpio_pin::{gpio_number, GpioPin};
use crate::input_event::{InputEvent, InputEventAction, InputEventButton, InputEventDevice};

verus! {

/// The GPIO button watcher.
pub struct GpioHandler {}

/// The button wired to a GPIO number: A22 power, A23 play/pause, A24 volume
/// down, A25 volume up; play/pause for any other pin.
pub open spec fn button_for_pin_spec(pin_num: u64) -> InputEventButton {
    if pin_num == gpio_number(GpioPin::A22) {
        InputEventButton::Power
    } else if pin_num == gpio_number(GpioPin::A23) {
        InputEventButton::PlayPause
    } else if pin_num == gpio_number(GpioPin::A24) {
        InputEventButton::VolumeDecrease
    } else if pin_num == gpio_number(GpioPin::A25) {
        InputEventButton::VolumeIncrease
    } else {
        InputEventButton::PlayPause
    }
}

/// The buttons pull their pin low: value 0 is a press, any other a release.
pub open spec fn action_for_value_spec(value: u8) -> InputEventAction {
    if value == 0 {
        InputEventAction::Press
    } else {
        InputEventAction::Release
    }
}

impl GpioHandler {
    pub fn new() -> (r: Self) {
        Self {}
    }

    /// The button wired to a GPIO number.
    pub fn button_for_pin(&self, pin_num: u64) -> (r: InputEventButton)
        ensures
            r == button_for_pin_spec(pin_num),
    {
        if pin_num == GpioPin::A22.to_u64() {
            InputEventButton::Power
        } else if pin_num == GpioPin::A23.to_u64() {
            InputEventButton::PlayPause
        } else if pin_num == GpioPin::A24.to_u64() {
            InputEventButton::VolumeDecrease
        } else if pin_num == GpioPin::A25.to_u64() {
            InputEventButton::VolumeIncrease
        } else {
            InputEventButton::PlayPause
        }
    }

    /// The input event for the pin `pin_num` changing to `value`.
    pub fn pin_event(&self, pin_num: u64, value: u8) -> (r: InputEvent)
        ensures
            r == InputEvent::ButtonEvent(
                InputEventDevice::Gpio,
                button_for_pin_spec(pin_num),
                action_for_value_spec(value),
            ),
    {
        let button = self.button_for_pin(pin_num);
        let action = if value == 0 {
            InputEventAction::Press
        } else {
            InputEventAction::Release
        };
        InputEvent::ButtonEvent(InputEventDevice::Gpio, button, action)
    }
}

} // verus!
