use nanowave::background::gpio_handler::GpioHandler;
use nanowave::background::gpio_pin::GpioPin;
use nanowave::background::headset_handler::{
    HeadsetHandler, EV_KEY, KEY_PLAYPAUSE, KEY_VOICECOMMAND, KEY_VOLUMEDOWN, KEY_VOLUMEUP,
};
use nanowave::background::touch_handler::{
    TouchHandler, ABS_MT_POSITION_X, ABS_MT_POSITION_Y, ABS_MT_TOUCH_MAJOR, ABS_MT_WIDTH_MAJOR,
};
use nanowave::input_event::{InputEvent, InputEventAction, InputEventButton, InputEventDevice};

#[test]
fn gpio_numbers() {
    assert_eq!(GpioPin::A22.to_u64(), 502);
    assert_eq!(GpioPin::A23.to_u64(), 503);
    assert_eq!(GpioPin::A24.to_u64(), 504);
    assert_eq!(GpioPin::A25.to_u64(), 505);
}

#[test]
fn gpio_buttons_and_levels() {
    let g = GpioHandler::new();
    assert_eq!(g.button_for_pin(502), InputEventButton::Power);
    assert_eq!(g.button_for_pin(503), InputEventButton::PlayPause);
    assert_eq!(g.button_for_pin(504), InputEventButton::VolumeDecrease);
    assert_eq!(g.button_for_pin(505), InputEventButton::VolumeIncrease);
    assert_eq!(g.button_for_pin(7), InputEventButton::PlayPause);
    assert_eq!(
        g.pin_event(502, 0),
        InputEvent::ButtonEvent(InputEventDevice::Gpio, InputEventButton::Power, InputEventAction::Press)
    );
    assert_eq!(
        g.pin_event(505, 1),
        InputEvent::ButtonEvent(InputEventDevice::Gpio, InputEventButton::VolumeIncrease, InputEventAction::Release)
    );
}

#[test]
fn key_codes_match_evdev() {
    assert_eq!(KEY_PLAYPAUSE, evdev::KeyCode::KEY_PLAYPAUSE.code());
    assert_eq!(KEY_VOLUMEUP, evdev::KeyCode::KEY_VOLUMEUP.code());
    assert_eq!(KEY_VOLUMEDOWN, evdev::KeyCode::KEY_VOLUMEDOWN.code());
    assert_eq!(KEY_VOICECOMMAND, evdev::KeyCode::KEY_VOICECOMMAND.code());
    assert_eq!(EV_KEY, evdev::EventType::KEY.0);
    assert_eq!(ABS_MT_POSITION_X, evdev::AbsoluteAxisCode::ABS_MT_POSITION_X.0);
    assert_eq!(ABS_MT_POSITION_Y, evdev::AbsoluteAxisCode::ABS_MT_POSITION_Y.0);
    assert_eq!(ABS_MT_TOUCH_MAJOR, evdev::AbsoluteAxisCode::ABS_MT_TOUCH_MAJOR.0);
    assert_eq!(ABS_MT_WIDTH_MAJOR, evdev::AbsoluteAxisCode::ABS_MT_WIDTH_MAJOR.0);
}

#[test]
fn headset_events() {
    let h = HeadsetHandler::new();
    assert_eq!(
        h.headset_event(EV_KEY, KEY_PLAYPAUSE, 1),
        Some(InputEvent::ButtonEvent(InputEventDevice::Headset, InputEventButton::PlayPause, InputEventAction::Press))
    );
    assert_eq!(
        h.headset_event(EV_KEY, KEY_PLAYPAUSE, 0),
        Some(InputEvent::ButtonEvent(InputEventDevice::Headset, InputEventButton::PlayPause, InputEventAction::Release))
    );
    assert_eq!(
        h.headset_event(EV_KEY, KEY_VOLUMEUP, 1),
        Some(InputEvent::ButtonEvent(InputEventDevice::Headset, InputEventButton::VolumeIncrease, InputEventAction::Press))
    );
    assert_eq!(
        h.headset_event(EV_KEY, KEY_VOLUMEDOWN, 0),
        Some(InputEvent::ButtonEvent(InputEventDevice::Headset, InputEventButton::VolumeDecrease, InputEventAction::Release))
    );
    assert_eq!(h.headset_event(EV_KEY, KEY_PLAYPAUSE, 2), None);
    assert_eq!(h.headset_event(EV_KEY, 30, 1), None);
    assert_eq!(h.headset_event(3, KEY_PLAYPAUSE, 1), None);
}

#[test]
fn headset_remote_recognised() {
    let h = HeadsetHandler::new();
    assert!(h.is_headset_remote(&Some(vec![KEY_VOLUMEUP, KEY_VOICECOMMAND])));
    assert!(!h.is_headset_remote(&Some(vec![KEY_VOLUMEUP, KEY_PLAYPAUSE])));
    assert!(!h.is_headset_remote(&None));
}

#[test]
fn touch_device_needs_two_axes() {
    let t = TouchHandler::new();
    assert!(t.is_touch_device(&Some(vec![ABS_MT_POSITION_X, ABS_MT_POSITION_Y])));
    assert!(t.is_touch_device(&Some(vec![ABS_MT_TOUCH_MAJOR, 0, ABS_MT_WIDTH_MAJOR])));
    assert!(!t.is_touch_device(&Some(vec![ABS_MT_POSITION_X, 0, 1])));
    assert!(!t.is_touch_device(&Some(vec![])));
    assert!(!t.is_touch_device(&None));
}
