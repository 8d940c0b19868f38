//! What the button gestures do.

use crate::button::ButtonGesture;
use crate::config::KeyConfig;
use crate::text::{lowered, same_text, to_ascii_lowercase, trim, trimmed};
use vstd::prelude::*;

verus! {

/// What a gesture does.
#[derive(Debug, Clone, Copy, PartialEq, Eq, Structural)]
pub enum ButtonAction {
    Nothing,
    /// Show the next page of the display.
    Slider,
    /// Switch the fan on or off.
    Switch,
    Reboot,
    Poweroff,
}

/// The name of an action as it is compared: without white space around it, in lower case.
pub open spec fn action_name(text: Seq<char>) -> Seq<char> {
    lowered(trimmed(text))
}

/// The action of the given name, where there is one. The empty name stands for no action.
pub open spec fn known_action(name: Seq<char>) -> Option<ButtonAction> {
    if name == "slider"@ {
        Some(ButtonAction::Slider)
    } else if name == "switch"@ {
        Some(ButtonAction::Switch)
    } else if name == "reboot"@ {
        Some(ButtonAction::Reboot)
    } else if name == "poweroff"@ {
        Some(ButtonAction::Poweroff)
    } else if name == "none"@ || name == ""@ {
        Some(ButtonAction::Nothing)
    } else {
        None
    }
}

/// The action that a configured text stands for. An unknown one stands for no action.
pub open spec fn action_of(text: Seq<char>) -> ButtonAction {
    match known_action(action_name(text)) {
        Some(action) => action,
        None => ButtonAction::Nothing,
    }
}

/// The configured text for a gesture.
pub open spec fn configured_text(gesture: ButtonGesture, key_config: KeyConfig) -> Seq<char> {
    match gesture {
        ButtonGesture::Click => key_config.click@,
        ButtonGesture::Twice => key_config.twice@,
        ButtonGesture::Press => key_config.press@,
    }
}

fn find_action(name: &str) -> (action: Option<ButtonAction>)
    ensures
        action == known_action(name@),
{
    if same_text(name, "slider") {
        Some(ButtonAction::Slider)
    } else if same_text(name, "switch") {
        Some(ButtonAction::Switch)
    } else if same_text(name, "reboot") {
        Some(ButtonAction::Reboot)
    } else if same_text(name, "poweroff") {
        Some(ButtonAction::Poweroff)
    } else if same_text(name, "none") || same_text(name, "") {
        Some(ButtonAction::Nothing)
    } else {
        None
    }
}

/// Returns the action that a configured text stands for.
pub fn parse_action(action: &str) -> (a: ButtonAction)
    ensures
        a == action_of(action@),
{
    let name = to_ascii_lowercase(trim(action));
    match find_action(name.as_str()) {
        Some(known) => known,
        None => ButtonAction::Nothing,
    }
}

/// Returns the name of the action that a configured text asks for, when it is unknown, so
/// that the caller can warn of it.
pub fn unknown_action(action: &str) -> (name: Option<String>)
    ensures
        name is Some <==> known_action(action_name(action@)) is None,
        name matches Some(n) ==> n@ == action_name(action@),
{
    let name = to_ascii_lowercase(trim(action));
    match find_action(name.as_str()) {
        Some(_) => None,
        None => Some(name),
    }
}

/// Returns the configured text for a gesture.
pub fn configured_action(gesture: ButtonGesture, key_config: &KeyConfig) -> (text: &str)
    ensures
        text@ == configured_text(gesture, *key_config),
{
    match gesture {
        ButtonGesture::Click => key_config.click.as_str(),
        ButtonGesture::Twice => key_config.twice.as_str(),
        ButtonGesture::Press => key_config.press.as_str(),
    }
}

/// Returns the action of a gesture.
pub fn action_for_gesture(gesture: ButtonGesture, key_config: &KeyConfig) -> (a: ButtonAction)
    ensures
        a == action_of(configured_text(gesture, *key_config)),
{
    parse_action(configured_action(gesture, key_config))
}

/// What is to be done for an action.
#[derive(Debug, Clone, Copy, PartialEq, Eq)]
pub enum ButtonEffect {
    Nothing,
    /// Ask the display for its next page.
    RequestOledPage,
    /// Switch the fan on or off.
    SetFan { enabled: bool },
    /// Run a system command.
    RunCommand { command: &'static str },
}

/// `effect` is what `action` calls for while the fan is on or off as `fan_enabled` says.
pub open spec fn is_effect_of(
    effect: ButtonEffect,
    action: ButtonAction,
    fan_enabled: bool,
) -> bool {
    match action {
        ButtonAction::Nothing => effect is Nothing,
        ButtonAction::Slider => effect is RequestOledPage,
        ButtonAction::Switch => effect == (ButtonEffect::SetFan { enabled: !fan_enabled }),
        ButtonAction::Reboot => effect matches ButtonEffect::RunCommand { command } && command@
            == "reboot"@,
        ButtonAction::Poweroff => effect matches ButtonEffect::RunCommand { command } && command@
            == "poweroff"@,
    }
}

/// Returns what a gesture calls for.
pub fn run_button_action(
    gesture: ButtonGesture,
    key_config: &KeyConfig,
    fan_enabled: bool,
) -> (effect: ButtonEffect)
    ensures
        is_effect_of(effect, action_of(configured_text(gesture, *key_config)), fan_enabled),
{
    match action_for_gesture(gesture, key_config) {
        ButtonAction::Nothing => ButtonEffect::Nothing,
        ButtonAction::Slider => ButtonEffect::RequestOledPage,
        ButtonAction::Switch => ButtonEffect::SetFan { enabled: !fan_enabled },
        ButtonAction::Reboot => ButtonEffect::RunCommand { command: "reboot" },
        ButtonAction::Poweroff => ButtonEffect::RunCommand { command: "poweroff" },
    }
}

/// How a system command ended.
#[derive(Debug)]
pub enum CommandOutcome {
    /// It could not be started; holds the text of the I/O error.
    NotStarted(String),
    /// It ran and reported success.
    Succeeded,
    /// It ran and reported a failure; holds the text of its exit status.
    Exited(String),
}

/// Returns the error of a system command that ended in the given way.
pub fn run_system_command(command: &str, outcome: CommandOutcome) -> (r: Result<(), String>)
    ensures
        match (outcome, r) {
            (CommandOutcome::Succeeded, Ok(())) => true,
            (CommandOutcome::NotStarted(error), Err(message)) => message@ == "failed to run "@
                + command@ + ": "@ + error@,
            (CommandOutcome::Exited(status), Err(message)) => message@ == command@
                + " exited with "@ + status@,
            _ => false,
        },
{
    match outcome {
        CommandOutcome::Succeeded => Ok(()),
        CommandOutcome::NotStarted(error) => {
            let mut message = "failed to run ".to_owned();
            message.append(command);
            message.append(": ");
            message.append(error.as_str());
            Err(message)
        },
        CommandOutcome::Exited(status) => {
            let mut message = command.to_owned();
            message.append(" exited with ");
            message.append(status.as_str());
            Err(message)
        },
    }
}

} // verus!
