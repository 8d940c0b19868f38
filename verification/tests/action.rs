use penta_top_hat::action::{
    action_for_gesture, configured_action, parse_action, run_button_action, run_system_command,
    unknown_action, ButtonAction, ButtonEffect, CommandOutcome,
};
use penta_top_hat::button::ButtonGesture;
use penta_top_hat::config::KeyConfig;

fn keys(click: &str, twice: &str, press: &str) -> KeyConfig {
    KeyConfig {
        click: click.to_string(),
        twice: twice.to_string(),
        press: press.to_string(),
    }
}

#[test]
fn maps_configured_actions_to_gestures() {
    let key_config = keys("slider", "switch", "poweroff");

    assert_eq!(
        action_for_gesture(ButtonGesture::Click, &key_config),
        ButtonAction::Slider
    );
    assert_eq!(
        action_for_gesture(ButtonGesture::Twice, &key_config),
        ButtonAction::Switch
    );
    assert_eq!(
        action_for_gesture(ButtonGesture::Press, &key_config),
        ButtonAction::Poweroff
    );
}

#[test]
fn slider_action_signals_oled_runtime() {
    let key_config = keys("slider", "switch", "none");

    assert_eq!(
        run_button_action(ButtonGesture::Click, &key_config, true),
        ButtonEffect::RequestOledPage
    );
}

#[test]
fn names_are_trimmed_and_compared_without_case() {
    assert_eq!(parse_action("\u{a0}SliDer\t"), ButtonAction::Slider);
    assert_eq!(parse_action(" Reboot"), ButtonAction::Reboot);
    assert_eq!(parse_action("POWEROFF"), ButtonAction::Poweroff);
    assert_eq!(parse_action("None"), ButtonAction::Nothing);
    assert_eq!(parse_action("   "), ButtonAction::Nothing);
    assert_eq!(parse_action(""), ButtonAction::Nothing);
    assert_eq!(parse_action("sli der"), ButtonAction::Nothing);
}

#[test]
fn unknown_names_are_told() {
    assert_eq!(unknown_action(" Dance "), Some("dance".to_string()));
    assert_eq!(unknown_action("none"), None);
    assert_eq!(unknown_action(""), None);
    assert_eq!(unknown_action("SWITCH"), None);
    assert_eq!(parse_action(" Dance "), ButtonAction::Nothing);
}

#[test]
fn the_fan_switch_toggles() {
    let key_config = keys("switch", "reboot", "poweroff");
    assert_eq!(
        run_button_action(ButtonGesture::Click, &key_config, true),
        ButtonEffect::SetFan { enabled: false }
    );
    assert_eq!(
        run_button_action(ButtonGesture::Click, &key_config, false),
        ButtonEffect::SetFan { enabled: true }
    );
}

#[test]
fn commands_run_where_they_are_named() {
    let key_config = keys("what", "reboot", "poweroff");
    assert_eq!(
        run_button_action(ButtonGesture::Click, &key_config, true),
        ButtonEffect::Nothing
    );
    assert_eq!(
        run_button_action(ButtonGesture::Twice, &key_config, true),
        ButtonEffect::RunCommand { command: "reboot" }
    );
    assert_eq!(
        run_button_action(ButtonGesture::Press, &key_config, true),
        ButtonEffect::RunCommand {
            command: "poweroff"
        }
    );
}

#[test]
fn failed_commands_are_described() {
    assert_eq!(
        run_system_command("reboot", CommandOutcome::Succeeded),
        Ok(())
    );
    assert_eq!(
        run_system_command("reboot", CommandOutcome::NotStarted("no such file".to_string())),
        Err("failed to run reboot: no such file".to_string())
    );
    assert_eq!(
        run_system_command(
            "poweroff",
            CommandOutcome::Exited("exit status: 1".to_string())
        ),
        Err("poweroff exited with exit status: 1".to_string())
    );
}

#[test]
fn each_gesture_has_its_own_text() {
    let key_config = keys("a", "b", "c");
    assert_eq!(configured_action(ButtonGesture::Click, &key_config), "a");
    assert_eq!(configured_action(ButtonGesture::Twice, &key_config), "b");
    assert_eq!(configured_action(ButtonGesture::Press, &key_config), "c");
}
