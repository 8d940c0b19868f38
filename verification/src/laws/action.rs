//! Laws of the button actions.

use crate::action::{
    action_for_gesture, action_name, action_of, configured_action, is_effect_of, known_action,
    parse_action, run_button_action, run_system_command, unknown_action, ButtonAction,
    ButtonEffect, CommandOutcome,
};
use crate::button::ButtonGesture;
use crate::config::KeyConfig;
use crate::laws::text::{is_blank, white_space_around_is_dropped};
use crate::text::{is_space, lowered, trimmed};
use vstd::prelude::*;

verus! {

/// Neither the white space around the name of an action nor the case of its letters matters.
pub proof fn only_the_name_matters(a: Seq<char>, b: Seq<char>)
    requires
        lowered(trimmed(a)) == lowered(trimmed(b)),
    ensures
        action_of(a) == action_of(b),
{
}

/// A text that names no action does nothing, and no other action is ever taken for it.
pub proof fn an_unknown_action_does_nothing(text: Seq<char>, effect: ButtonEffect, fan: bool)
    requires
        known_action(action_name(text)) is None,
        is_effect_of(effect, action_of(text), fan),
    ensures
        effect is Nothing,
{
}

/// A system command runs only where the configuration names it.
pub proof fn only_a_named_command_runs(text: Seq<char>, effect: ButtonEffect, fan: bool)
    requires
        is_effect_of(effect, action_of(text), fan),
        effect is RunCommand,
    ensures
        effect matches ButtonEffect::RunCommand { command } && command@ == action_name(text),
        action_name(text) == "reboot"@ || action_name(text) == "poweroff"@,
{
}

/// Switching the fan twice brings it back.
pub proof fn switching_twice_restores(fan: bool, first: ButtonEffect, second: ButtonEffect)
    requires
        is_effect_of(first, ButtonAction::Switch, fan),
        first matches ButtonEffect::SetFan { enabled } && is_effect_of(
            second,
            ButtonAction::Switch,
            enabled,
        ),
    ensures
        second == (ButtonEffect::SetFan { enabled: fan }),
{
}

/// There are four actions besides doing nothing, each with its own name, and an action is
/// taken for no other text. A text that is empty, says none or names no action does nothing.
pub proof fn an_action_has_one_name(text: &str, action: ButtonAction, unknown: Option<String>)
    requires
        call_ensures(parse_action, (text,), action),
        call_ensures(unknown_action, (text,), unknown),
    ensures
        ({
            let name = lowered(trimmed(text@));
            &&& action == ButtonAction::Slider <==> name == "slider"@
            &&& action == ButtonAction::Switch <==> name == "switch"@
            &&& action == ButtonAction::Reboot <==> name == "reboot"@
            &&& action == ButtonAction::Poweroff <==> name == "poweroff"@
            &&& unknown is Some <==> name != "slider"@ && name != "switch"@ && name != "reboot"@
                && name != "poweroff"@ && name != "none"@ && name != ""@
            &&& unknown matches Some(n) ==> n@ == name && action == ButtonAction::Nothing
        }),
{
    lemma_names_differ();
}

proof fn lemma_names_differ()
    ensures
        "slider"@ != "switch"@,
        "slider"@ != "reboot"@,
        "slider"@ != "poweroff"@,
        "switch"@ != "reboot"@,
        "switch"@ != "poweroff"@,
        "reboot"@ != "poweroff"@,
        "none"@.len() == 4,
        ""@.len() == 0,
        "slider"@.len() == 6,
        "switch"@.len() == 6,
        "reboot"@.len() == 6,
        "poweroff"@.len() == 8,
{
    reveal_strlit("slider");
    reveal_strlit("switch");
    reveal_strlit("reboot");
    reveal_strlit("poweroff");
    reveal_strlit("none");
    reveal_strlit("");
    assert("slider"@[1] == 'l');
    assert("switch"@[1] == 'w');
    assert("reboot"@[1] == 'e');
}

/// The name of an action stands for it with any white space around it and in any case of its
/// letters.
pub proof fn a_name_stands_for_its_action(
    left: Seq<char>,
    name: Seq<char>,
    right: Seq<char>,
    text: &str,
    action: ButtonAction,
)
    requires
        is_blank(left),
        is_blank(right),
        name.len() > 0 ==> !is_space(name[0]) && !is_space(name.last()),
        text@ == left + name + right,
        call_ensures(parse_action, (text,), action),
    ensures
        lowered(name) == "slider"@ ==> action == ButtonAction::Slider,
        lowered(name) == "switch"@ ==> action == ButtonAction::Switch,
        lowered(name) == "reboot"@ ==> action == ButtonAction::Reboot,
        lowered(name) == "poweroff"@ ==> action == ButtonAction::Poweroff,
        lowered(name) == "none"@ ==> action == ButtonAction::Nothing,
        name.len() == 0 ==> action == ButtonAction::Nothing,
{
    white_space_around_is_dropped(left, name, right);
    lemma_names_differ();
}

/// A gesture does what the text configured for it stands for, and the texts of the other
/// gestures do not matter.
pub proof fn each_gesture_has_its_own_action(
    config: KeyConfig,
    click: ButtonAction,
    twice: ButtonAction,
    press: ButtonAction,
    texts: (&str, &str, &str),
)
    requires
        call_ensures(action_for_gesture, (ButtonGesture::Click, &config), click),
        call_ensures(action_for_gesture, (ButtonGesture::Twice, &config), twice),
        call_ensures(action_for_gesture, (ButtonGesture::Press, &config), press),
        call_ensures(configured_action, (ButtonGesture::Click, &config), texts.0),
        call_ensures(configured_action, (ButtonGesture::Twice, &config), texts.1),
        call_ensures(configured_action, (ButtonGesture::Press, &config), texts.2),
    ensures
        click == action_of(config.click@),
        twice == action_of(config.twice@),
        press == action_of(config.press@),
        texts.0@ == config.click@,
        texts.1@ == config.twice@,
        texts.2@ == config.press@,
{
}

/// A gesture asks for the next page, turns the fan to what it is not, runs the command of its
/// action's own name, or does nothing, as its action says and in no other case.
pub proof fn a_gesture_has_the_effect_of_its_action(
    gesture: ButtonGesture,
    config: KeyConfig,
    fan: bool,
    action: ButtonAction,
    effect: ButtonEffect,
)
    requires
        call_ensures(action_for_gesture, (gesture, &config), action),
        call_ensures(run_button_action, (gesture, &config, fan), effect),
    ensures
        match effect {
            ButtonEffect::Nothing => action == ButtonAction::Nothing,
            ButtonEffect::RequestOledPage => action == ButtonAction::Slider,
            ButtonEffect::SetFan { enabled } => action == ButtonAction::Switch && enabled != fan,
            ButtonEffect::RunCommand { command } => {
                ||| action == ButtonAction::Reboot && command@ == "reboot"@
                ||| action == ButtonAction::Poweroff && command@ == "poweroff"@
            },
        },
{
}

/// A command is an error exactly when it did not succeed. One that did not start is told with
/// the reason, one that failed with its status, and each with its own name.
pub proof fn a_failed_command_is_an_error(
    command: &str,
    reason: String,
    status: String,
    succeeded: Result<(), String>,
    not_started: Result<(), String>,
    exited: Result<(), String>,
)
    requires
        call_ensures(run_system_command, (command, CommandOutcome::Succeeded), succeeded),
        call_ensures(
            run_system_command,
            (command, CommandOutcome::NotStarted(reason)),
            not_started,
        ),
        call_ensures(run_system_command, (command, CommandOutcome::Exited(status)), exited),
    ensures
        succeeded is Ok,
        not_started matches Err(message) && message@ == "failed to run "@ + command@ + ": "@
            + reason@,
        exited matches Err(message) && message@ == command@ + " exited with "@ + status@,
{
}

} // verus!
