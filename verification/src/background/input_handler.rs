//! Turning button events into player and display commands.
//!
//! The play/pause button counts clicks: each press is a click and starts (or
//! restarts) a short debounce delay; when the delay passes without another
//! event, the clicks so far become one command. One, two or three clicks
//! toggle playback, skip to the next chapter or go to the previous one; when
//! the button is still held at that moment they rewind, fast-forward or
//! rewind instead, until the button is released.
use vstd::prelude::*;
use crate::background::display_controller::DisplayCommand;
use crate::background::player::PlayerCommand;
use crate::input_event::{InputEvent, InputEventAction, InputEventButton, InputEventDevice};

verus! {

/// Settings changes the input side can ask the user interface for.
#[derive(Debug, Clone, Copy, PartialEq, Eq, Structural)]
pub enum PreferencesCommand {
    SetEnableTouchEvents(bool),
}

/// What the input handler asks for after an event.
#[derive(Debug, PartialEq, Eq)]
pub enum InputAction {
    /// Send this command to the player.
    Player(PlayerCommand),
    /// Send this command to the display controller.
    Display(DisplayCommand),
    /// (Re)start the debounce delay of the play/pause button.
    Debounce,
}

/// The click counter of the play/pause button.
pub struct InputHandler {
    clicks: i32,
    hold: bool,
}

/// The clicks counted and whether the button is held.
pub struct ClickState {
    pub clicks: int,
    pub hold: bool,
}

/// The commands for `clicks` clicks once the debounce delay has passed,
/// depending on whether the button is still held.
pub open spec fn click_commands(clicks: int, hold: bool) -> Seq<PlayerCommand> {
    if hold {
        if clicks == 1 {
            seq![PlayerCommand::Rewind]
        } else if clicks == 2 {
            seq![PlayerCommand::FastForward]
        } else if clicks == 3 {
            seq![PlayerCommand::Rewind]
        } else {
            Seq::empty()
        }
    } else {
        if clicks == 1 {
            seq![PlayerCommand::Toggle]
        } else if clicks == 2 {
            seq![PlayerCommand::Next]
        } else if clicks == 3 {
            seq![PlayerCommand::Previous]
        } else {
            Seq::empty()
        }
    }
}

/// The state after an event.
pub open spec fn next_click_state(s: ClickState, event: InputEvent) -> ClickState {
    match event {
        InputEvent::ButtonEvent(_, InputEventButton::PlayPause, InputEventAction::Press) => {
            ClickState { clicks: s.clicks + 1, hold: true }
        },
        InputEvent::ButtonEvent(_, InputEventButton::PlayPause, InputEventAction::Release) => {
            ClickState { clicks: s.clicks, hold: false }
        },
        _ => s,
    }
}

/// What is asked for after an event.
pub open spec fn event_actions(s: ClickState, event: InputEvent) -> Seq<InputAction> {
    match event {
        InputEvent::ButtonEvent(_, button, action) => match button {
            InputEventButton::VolumeIncrease => if action == InputEventAction::Release {
                seq![InputAction::Player(PlayerCommand::IncreaseVolume)]
            } else {
                Seq::empty()
            },
            InputEventButton::VolumeDecrease => if action == InputEventAction::Release {
                seq![InputAction::Player(PlayerCommand::DecreaseVolume)]
            } else {
                Seq::empty()
            },
            InputEventButton::PlayPause => if action == InputEventAction::Press || s.clicks > 0 {
                seq![InputAction::Debounce]
            } else {
                // a release after the delay passed while held: stop rewinding
                seq![InputAction::Player(PlayerCommand::CancelOngoing)]
            },
            InputEventButton::Power => if action == InputEventAction::Release {
                seq![InputAction::Display(DisplayCommand::Toggle)]
            } else {
                Seq::empty()
            },
        },
        InputEvent::PlayPause => Seq::empty(),
    }
}

/// The commands sent when the debounce delay passes: first one that stops a
/// running rewind or fast-forward, then the one for the clicks.
pub open spec fn debounce_commands(s: ClickState) -> Seq<PlayerCommand> {
    seq![PlayerCommand::CancelOngoing] + click_commands(s.clicks, s.hold)
}

impl InputHandler {
    /// The clicks counted and whether the button is held.
    pub closed spec fn state(&self) -> ClickState {
        ClickState { clicks: self.clicks as int, hold: self.hold }
    }

    /// The counter is never negative.
    pub closed spec fn wf(&self) -> bool {
        self.clicks >= 0
    }

    /// No clicks, button not held.
    pub fn new() -> (r: Self)
        ensures
            r.wf(),
            r.state() == (ClickState { clicks: 0, hold: false }),
    {
        Self { clicks: 0, hold: false }
    }

    /// The clicks counted since the last debounce.
    pub fn click_count(&self) -> (r: i32)
        ensures
            r as int == self.state().clicks,
    {
        self.clicks
    }

    /// Takes one event; returns what to do now.
    pub fn handle_event(&mut self, event: InputEvent) -> (actions: Vec<InputAction>)
        requires
            old(self).wf(),
            old(self).state().clicks < i32::MAX,
        ensures
            final(self).wf(),
            final(self).state() == next_click_state(old(self).state(), event),
            actions@ == event_actions(old(self).state(), event),
    {
        let mut actions: Vec<InputAction> = Vec::new();
        match event {
            InputEvent::ButtonEvent(_device, button, action) => {
                match button {
                    InputEventButton::VolumeIncrease => {
                        if action == InputEventAction::Release {
                            actions.push(InputAction::Player(PlayerCommand::IncreaseVolume));
                        }
                    },
                    InputEventButton::VolumeDecrease => {
                        if action == InputEventAction::Release {
                            actions.push(InputAction::Player(PlayerCommand::DecreaseVolume));
                        }
                    },
                    InputEventButton::PlayPause => {
                        let mut should_execute = true;
                        match action {
                            InputEventAction::Press => {
                                self.clicks = self.clicks + 1;
                                self.hold = true;
                            },
                            InputEventAction::Release => {
                                should_execute = self.clicks > 0;
                                self.hold = false;
                            },
                        }
                        if should_execute {
                            actions.push(InputAction::Debounce);
                        } else {
                            actions.push(InputAction::Player(PlayerCommand::CancelOngoing));
                        }
                    },
                    InputEventButton::Power => {
                        if action == InputEventAction::Release {
                            actions.push(InputAction::Display(DisplayCommand::Toggle));
                        }
                    },
                }
            },
            InputEvent::PlayPause => {},
        }
        proof {
            assert(actions@ =~= event_actions(old(self).state(), event));
        }
        actions
    }

    /// The debounce delay has passed: returns the commands for the clicks
    /// counted and starts counting anew.
    pub fn debounce_elapsed(&mut self) -> (commands: Vec<PlayerCommand>)
        requires
            old(self).wf(),
        ensures
            final(self).wf(),
            final(self).state() == (ClickState { clicks: 0, hold: old(self).state().hold }),
            commands@ == debounce_commands(old(self).state()),
    {
        let mut commands: Vec<PlayerCommand> = Vec::new();
        commands.push(PlayerCommand::CancelOngoing);
        if self.hold {
            if self.clicks == 1 {
                commands.push(PlayerCommand::Rewind);
            } else if self.clicks == 2 {
                commands.push(PlayerCommand::FastForward);
            } else if self.clicks == 3 {
                commands.push(PlayerCommand::Rewind);
            }
        } else {
            if self.clicks == 1 {
                commands.push(PlayerCommand::Toggle);
            } else if self.clicks == 2 {
                commands.push(PlayerCommand::Next);
            } else if self.clicks == 3 {
                commands.push(PlayerCommand::Previous);
            }
        }
        self.clicks = 0;
        proof {
            assert(commands@ =~= debounce_commands(old(self).state()));
        }
        commands
    }
}


/// A press of the play/pause button on the headset remote.
pub open spec fn play_pause_press() -> InputEvent {
    InputEvent::ButtonEvent(
        crate::input_event::InputEventDevice::Headset,
        InputEventButton::PlayPause,
        InputEventAction::Press,
    )
}

/// A release of the play/pause button on the headset remote.
pub open spec fn play_pause_release() -> InputEvent {
    InputEvent::ButtonEvent(
        crate::input_event::InputEventDevice::Headset,
        InputEventButton::PlayPause,
        InputEventAction::Release,
    )
}

/// The state after a sequence of events.
pub open spec fn run_events(s: ClickState, events: Seq<InputEvent>) -> ClickState
    decreases events.len(),
{
    if events.len() == 0 {
        s
    } else {
        run_events(next_click_state(s, events[0]), events.drop_first())
    }
}

/// `k` clicks: press and release, `k` times.
pub open spec fn clicks(k: nat) -> Seq<InputEvent>
    decreases k,
{
    if k == 0 {
        Seq::empty()
    } else {
        seq![play_pause_press(), play_pause_release()] + clicks((k - 1) as nat)
    }
}

/// Running `a` then `b` is running `a + b`.
pub proof fn lemma_run_events_append(s: ClickState, a: Seq<InputEvent>, b: Seq<InputEvent>)
    ensures
        run_events(s, a + b) == run_events(run_events(s, a), b),
    decreases a.len(),
{
    if a.len() == 0 {
        assert(a + b =~= b);
    } else {
        assert((a + b).drop_first() =~= a.drop_first() + b);
        lemma_run_events_append(next_click_state(s, a[0]), a.drop_first(), b);
    }
}

/// Quick clicks add up: from `n` counted clicks, `k` more clicks leave
/// `n + k` counted and the button released.
pub proof fn lemma_clicks_count(n: int, k: nat)
    ensures
        run_events(ClickState { clicks: n, hold: false }, clicks(k))
            == (ClickState { clicks: n + k, hold: false }),
    decreases k,
{
    if k > 0 {
        let s = ClickState { clicks: n, hold: false };
        let pair = seq![play_pause_press(), play_pause_release()];
        assert(clicks(k) =~= pair + clicks((k - 1) as nat));
        lemma_run_events_append(s, pair, clicks((k - 1) as nat));
        let s1 = next_click_state(s, play_pause_press());
        let s2 = next_click_state(s1, play_pause_release());
        assert(pair.drop_first() =~= seq![play_pause_release()]);
        assert(pair.drop_first().drop_first() =~= Seq::<InputEvent>::empty());
        assert(run_events(s2, Seq::<InputEvent>::empty()) == s2);
        assert(run_events(s1, pair.drop_first()) == s2);
        assert(run_events(s, pair) == (ClickState { clicks: n + 1, hold: false }));
        lemma_clicks_count(n + 1, (k - 1) as nat);
    }
}

/// One, two or three quick clicks of play/pause, once the debounce delay
/// passes, toggle playback, go to the next chapter or go to the previous one
/// (each after stopping a running rewind or fast-forward), and counting
/// starts anew.
pub proof fn law_quick_clicks(k: nat)
    requires
        1 <= k <= 3,
    ensures
        ({
            let s = run_events(ClickState { clicks: 0, hold: false }, clicks(k));
            &&& s == (ClickState { clicks: k as int, hold: false })
            &&& debounce_commands(s) == seq![
                PlayerCommand::CancelOngoing,
                if k == 1 {
                    PlayerCommand::Toggle
                } else if k == 2 {
                    PlayerCommand::Next
                } else {
                    PlayerCommand::Previous
                },
            ]
        }),
{
    lemma_clicks_count(0, k);
}

/// Holding play/pause after `k` quick clicks (one to three) past the debounce
/// delay rewinds (one or three) or fast-forwards (two); releasing it then
/// only stops that, without starting the delay again.
pub proof fn law_click_and_hold(k: nat)
    requires
        0 <= k <= 2,
    ensures
        ({
            let s = next_click_state(
                run_events(ClickState { clicks: 0, hold: false }, clicks(k)),
                play_pause_press(),
            );
            let after = ClickState { clicks: 0, hold: true };
            &&& s == (ClickState { clicks: k + 1int, hold: true })
            &&& debounce_commands(s) == seq![
                PlayerCommand::CancelOngoing,
                if k == 1 {
                    PlayerCommand::FastForward
                } else {
                    PlayerCommand::Rewind
                },
            ]
            &&& event_actions(after, play_pause_release())
                == seq![InputAction::Player(PlayerCommand::CancelOngoing)]
            &&& next_click_state(after, play_pause_release())
                == (ClickState { clicks: 0, hold: false })
        }),
{
    lemma_clicks_count(0, k);
}

/// Every press of play/pause restarts the debounce delay, and so does every
/// release while clicks are counted.
pub proof fn law_play_pause_debounces(s: ClickState, device: crate::input_event::InputEventDevice)
    ensures
        event_actions(
            s,
            InputEvent::ButtonEvent(device, InputEventButton::PlayPause, InputEventAction::Press),
        ) == seq![InputAction::Debounce],
        s.clicks > 0 ==> event_actions(
            s,
            InputEvent::ButtonEvent(device, InputEventButton::PlayPause, InputEventAction::Release),
        ) == seq![InputAction::Debounce],
{
}

/// What a button event asks for, and how it changes the click count, does
/// not depend on the device it came from; releasing the power button
/// switches the display, whatever the device and the clicks counted.
pub proof fn law_device_independent(
    s: ClickState,
    d1: InputEventDevice,
    d2: InputEventDevice,
    button: InputEventButton,
    action: InputEventAction,
)
    ensures
        event_actions(s, InputEvent::ButtonEvent(d1, button, action))
            == event_actions(s, InputEvent::ButtonEvent(d2, button, action)),
        next_click_state(s, InputEvent::ButtonEvent(d1, button, action))
            == next_click_state(s, InputEvent::ButtonEvent(d2, button, action)),
        event_actions(s, InputEvent::ButtonEvent(d1, InputEventButton::Power, InputEventAction::Release))
            == seq![InputAction::Display(DisplayCommand::Toggle)],
{
}

} // verus!
