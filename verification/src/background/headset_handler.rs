//! Turning the key events of a headset remote into input events.
use vstd::prelude::*;
use crate::input_event::{InputEvent, InputEventAction, InputEventButton, InputEventDevice};

verus! {

/// The Linux input event type of keys (`EV_KEY`).
pub const EV_KEY: u16 = 0x01;

/// The Linux key code of the volume-down key (`KEY_VOLUMEDOWN`).
pub const KEY_VOLUMEDOWN: u16 = 114;

/// The Linux key code of the volume-up key (`KEY_VOLUMEUP`).
pub const KEY_VOLUMEUP: u16 = 115;

/// The Linux key code of the play/pause key (`KEY_PLAYPAUSE`).
pub const KEY_PLAYPAUSE: u16 = 164;

/// The Linux key code of the voice-command key (`KEY_VOICECOMMAND`), which
/// USB-C audio adapters with a remote declare.
pub const KEY_VOICECOMMAND: u16 = 0x246;

/// The headset remote watcher.
pub struct HeadsetHandler {}

/// The input event for a Linux input event of type `event_type`, code `code`
/// and value `value`: presses (1) and releases (0) of play/pause, volume up
/// and volume down; nothing for anything else (including key repeats).
pub open spec fn headset_event_spec(event_type: u16, code: u16, value: i32) -> Option<InputEvent> {
    if event_type != EV_KEY || (value != 0 && value != 1) {
        None
    } else {
        let action = if value == 1 {
            InputEventAction::Press
        } else {
            InputEventAction::Release
        };
        if code == KEY_PLAYPAUSE {
            Some(InputEvent::ButtonEvent(InputEventDevice::Headset, InputEventButton::PlayPause, action))
        } else if code == KEY_VOLUMEUP {
            Some(InputEvent::ButtonEvent(InputEventDevice::Headset, InputEventButton::VolumeIncrease, action))
        } else if code == KEY_VOLUMEDOWN {
            Some(InputEvent::ButtonEvent(InputEventDevice::Headset, InputEventButton::VolumeDecrease, action))
        } else {
            None
        }
    }
}

impl HeadsetHandler {
    pub fn new() -> (r: Self) {
        Self {}
    }

    /// The input event for one Linux input event of the remote.
    pub fn headset_event(&self, event_type: u16, code: u16, value: i32) -> (r: Option<InputEvent>)
        ensures
            r == headset_event_spec(event_type, code, value),
    {
        if event_type != EV_KEY || (value != 0 && value != 1) {
            return None;
        }
        let action = if value == 1 {
            InputEventAction::Press
        } else {
            InputEventAction::Release
        };
        if code == KEY_PLAYPAUSE {
            Some(InputEvent::ButtonEvent(InputEventDevice::Headset, InputEventButton::PlayPause, action))
        } else if code == KEY_VOLUMEUP {
            Some(InputEvent::ButtonEvent(InputEventDevice::Headset, InputEventButton::VolumeIncrease, action))
        } else if code == KEY_VOLUMEDOWN {
            Some(InputEvent::ButtonEvent(InputEventDevice::Headset, InputEventButton::VolumeDecrease, action))
        } else {
            None
        }
    }

    /// Whether an input device is a headset remote: it declares the
    /// voice-command key among its keys (`None`: it declares no keys).
    pub fn is_headset_remote(&self, supported_keys: &Option<Vec<u16>>) -> (r: bool)
        ensures
            r == (match supported_keys {
                Some(keys) => keys@.contains(KEY_VOICECOMMAND),
                None => false,
            }),
    {
        match supported_keys {
            Some(keys) => {
                let mut i: usize = 0;
                while i < keys.len()
                    invariant
                        i <= keys@.len(),
                        *supported_keys == Some(*keys),
                        forall|j: int| 0 <= j < i ==> keys@[j] != KEY_VOICECOMMAND,
                    decreases keys@.len() - i,
                {
                    if keys[i] == KEY_VOICECOMMAND {
                        assert(keys@[i as int] == KEY_VOICECOMMAND);
                        return true;
                    }
                    i = i + 1;
                }
                false
            },
            None => false,
        }
    }
}

/// Each of the three remote keys gives the same button whether pressed or
/// released: value 1 is a press and value 0 a release of that key's button
/// (play/pause, volume up, volume down), from the headset.
pub proof fn law_remote_keys(value: i32)
    requires
        value == 0 || value == 1,
    ensures
        headset_event_spec(EV_KEY, KEY_PLAYPAUSE, value) == Some(InputEvent::ButtonEvent(
            InputEventDevice::Headset, InputEventButton::PlayPause,
            if value == 1 { InputEventAction::Press } else { InputEventAction::Release })),
        headset_event_spec(EV_KEY, KEY_VOLUMEUP, value) == Some(InputEvent::ButtonEvent(
            InputEventDevice::Headset, InputEventButton::VolumeIncrease,
            if value == 1 { InputEventAction::Press } else { InputEventAction::Release })),
        headset_event_spec(EV_KEY, KEY_VOLUMEDOWN, value) == Some(InputEvent::ButtonEvent(
            InputEventDevice::Headset, InputEventButton::VolumeDecrease,
            if value == 1 { InputEventAction::Press } else { InputEventAction::Release })),
{
}

} // verus!
