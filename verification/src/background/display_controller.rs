//! The display backlight: switching it and reading its state.
use vstd::prelude::*;
use crate::text::{str_equals, trim, trim_ws};

verus! {

/// What the display controller is asked to do. (A brightness change carries
/// a percentage as a float where the player's services exchange it; the
/// controller only acknowledges it.)
#[derive(Debug, Clone, Copy, PartialEq, Eq, Structural)]
pub enum DisplayCommand {
    TurnOn,
    TurnOff,
    Toggle,
    ChangeBrightness,
}

/// The display controller.
pub struct DisplayController {}

/// The display is off exactly when its switch file holds `0` (white space
/// around it aside); it counts as on when the file cannot be read.
pub open spec fn display_on_spec(contents: Option<Seq<char>>) -> bool {
    match contents {
        Some(c) => trim_ws(c) != "0"@,
        None => true,
    }
}

/// What a display switch writes to switch the display on or off.
pub open spec fn switch_value_spec(on: bool) -> Seq<char> {
    if on {
        "1"@
    } else {
        "0"@
    }
}

/// What the controller switches the display to for a command, with the
/// display on or off now; `None` when it does not switch it.
pub open spec fn command_target_spec(command: DisplayCommand, display_on: bool) -> Option<bool> {
    match command {
        DisplayCommand::TurnOff => Some(false),
        DisplayCommand::TurnOn => Some(true),
        DisplayCommand::Toggle => Some(!display_on),
        DisplayCommand::ChangeBrightness => None,
    }
}

impl DisplayController {
    pub fn new() -> (r: DisplayController) {
        Self {}
    }

    /// Whether the display is on, from what its switch file holds (`None`
    /// when it could not be read).
    pub fn is_display_on(&self, contents: Option<String>) -> (r: bool)
        ensures
            r == display_on_spec(match contents {
                Some(c) => Some(c@),
                None => None,
            }),
    {
        match contents {
            Some(c) => {
                let t = trim(c.as_str());
                !str_equals(t.as_str(), "0")
            },
            None => true,
        }
    }

    /// What is written to the switch file to switch the display on or off.
    pub fn switch_value(&self, on: bool) -> (r: String)
        ensures
            r@ == switch_value_spec(on),
    {
        if on {
            String::from_str("1")
        } else {
            String::from_str("0")
        }
    }

    /// What the display is switched to for a command, with the display on
    /// or off now. After any command the display's automatic shutdown timer
    /// starts again.
    pub fn command_target(&self, command: DisplayCommand, display_on: bool) -> (r: Option<bool>)
        ensures
            r == command_target_spec(command, display_on),
    {
        match command {
            DisplayCommand::TurnOff => Some(false),
            DisplayCommand::TurnOn => Some(true),
            DisplayCommand::Toggle => Some(!display_on),
            DisplayCommand::ChangeBrightness => None,
        }
    }
}

/// Reading the switch file back after switching gives the state switched
/// to: the display is on exactly when it was switched on.
pub proof fn law_switch_then_read(on: bool)
    ensures
        display_on_spec(Some(switch_value_spec(on))) == on,
{
    reveal_strlit("0");
    reveal_strlit("1");
    let v = switch_value_spec(on);
    assert(!crate::text::is_white_space(v[0]));
    assert(crate::text::trim_ws_start(v.drop_first()) =~= v.drop_first());
    assert(v.drop_first() =~= Seq::<char>::empty());
    assert(crate::text::trim_ws_start(v) =~= v);
    assert(v.drop_last() =~= Seq::<char>::empty());
    assert(trim_ws(v) =~= v);
}

/// Toggling twice gives back the state the display was in.
pub proof fn law_toggle_twice(on: bool)
    ensures
        command_target_spec(DisplayCommand::Toggle, command_target_spec(DisplayCommand::Toggle, on)->0) == Some(on),
{
}

} // verus!
