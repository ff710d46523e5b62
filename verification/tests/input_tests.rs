use nanowave::background::display_controller::DisplayCommand;
use nanowave::background::input_handler::{InputAction, InputHandler};
use nanowave::background::player::PlayerCommand;
use nanowave::input_event::{InputEvent, InputEventAction, InputEventButton, InputEventDevice};

fn press(button: InputEventButton) -> InputEvent {
    InputEvent::ButtonEvent(InputEventDevice::Headset, button, InputEventAction::Press)
}

fn release(button: InputEventButton) -> InputEvent {
    InputEvent::ButtonEvent(InputEventDevice::Headset, button, InputEventAction::Release)
}

fn clicks(handler: &mut InputHandler, n: usize) {
    for _ in 0..n {
        assert_eq!(handler.handle_event(press(InputEventButton::PlayPause)), vec![InputAction::Debounce]);
        assert_eq!(handler.handle_event(release(InputEventButton::PlayPause)), vec![InputAction::Debounce]);
    }
}

#[test]
fn single_click_toggles() {
    let mut h = InputHandler::new();
    clicks(&mut h, 1);
    assert_eq!(h.debounce_elapsed(), vec![PlayerCommand::CancelOngoing, PlayerCommand::Toggle]);
}

#[test]
fn double_click_next() {
    let mut h = InputHandler::new();
    clicks(&mut h, 2);
    assert_eq!(h.debounce_elapsed(), vec![PlayerCommand::CancelOngoing, PlayerCommand::Next]);
}

#[test]
fn triple_click_previous() {
    let mut h = InputHandler::new();
    clicks(&mut h, 3);
    assert_eq!(h.debounce_elapsed(), vec![PlayerCommand::CancelOngoing, PlayerCommand::Previous]);
}

#[test]
fn four_clicks_only_cancel() {
    let mut h = InputHandler::new();
    clicks(&mut h, 4);
    assert_eq!(h.debounce_elapsed(), vec![PlayerCommand::CancelOngoing]);
}

#[test]
fn hold_rewinds_then_release_cancels() {
    let mut h = InputHandler::new();
    assert_eq!(h.handle_event(press(InputEventButton::PlayPause)), vec![InputAction::Debounce]);
    assert_eq!(h.debounce_elapsed(), vec![PlayerCommand::CancelOngoing, PlayerCommand::Rewind]);
    assert_eq!(
        h.handle_event(release(InputEventButton::PlayPause)),
        vec![InputAction::Player(PlayerCommand::CancelOngoing)]
    );
    // counting starts anew
    clicks(&mut h, 1);
    assert_eq!(h.debounce_elapsed(), vec![PlayerCommand::CancelOngoing, PlayerCommand::Toggle]);
}

#[test]
fn click_then_hold_fast_forwards() {
    let mut h = InputHandler::new();
    clicks(&mut h, 1);
    h.handle_event(press(InputEventButton::PlayPause));
    assert_eq!(h.debounce_elapsed(), vec![PlayerCommand::CancelOngoing, PlayerCommand::FastForward]);
}

#[test]
fn two_clicks_then_hold_rewinds() {
    let mut h = InputHandler::new();
    clicks(&mut h, 2);
    h.handle_event(press(InputEventButton::PlayPause));
    assert_eq!(h.debounce_elapsed(), vec![PlayerCommand::CancelOngoing, PlayerCommand::Rewind]);
}

#[test]
fn volume_on_release_only() {
    let mut h = InputHandler::new();
    assert_eq!(h.handle_event(press(InputEventButton::VolumeIncrease)), vec![]);
    assert_eq!(
        h.handle_event(release(InputEventButton::VolumeIncrease)),
        vec![InputAction::Player(PlayerCommand::IncreaseVolume)]
    );
    assert_eq!(h.handle_event(press(InputEventButton::VolumeDecrease)), vec![]);
    assert_eq!(
        h.handle_event(release(InputEventButton::VolumeDecrease)),
        vec![InputAction::Player(PlayerCommand::DecreaseVolume)]
    );
}

#[test]
fn power_release_toggles_display() {
    let mut h = InputHandler::new();
    assert_eq!(h.handle_event(press(InputEventButton::Power)), vec![]);
    assert_eq!(
        h.handle_event(release(InputEventButton::Power)),
        vec![InputAction::Display(DisplayCommand::Toggle)]
    );
}

#[test]
fn bare_play_pause_event_does_nothing() {
    let mut h = InputHandler::new();
    assert_eq!(h.handle_event(InputEvent::PlayPause), vec![]);
    assert_eq!(h.debounce_elapsed(), vec![PlayerCommand::CancelOngoing]);
}
