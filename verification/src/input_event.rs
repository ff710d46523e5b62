//! Button events from the headset remote and the GPIO buttons.
use vstd::prelude::*;

verus! {

/// Where a button event came from.
#[derive(Debug, Clone, Copy, PartialEq, Eq, Structural)]
pub enum InputEventDevice {
    Headset,
    Gpio,
}

/// The buttons the player reacts to.
#[derive(Debug, Clone, Copy, PartialEq, Eq, Structural)]
pub enum InputEventButton {
    Power,
    VolumeIncrease,
    VolumeDecrease,
    PlayPause,
}

/// Whether a button went down or up.
#[derive(Debug, Clone, Copy, PartialEq, Eq, Structural)]
pub enum InputEventAction {
    Press,
    Release,
}

/// An input event.
#[derive(Debug, Clone, Copy, PartialEq, Eq, Structural)]
pub enum InputEvent {
    ButtonEvent(InputEventDevice, InputEventButton, InputEventAction),
    PlayPause,
}

} // verus!
