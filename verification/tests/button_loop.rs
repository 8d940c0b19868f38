use penta_top_hat::button::ButtonGesture;
use penta_top_hat::button_loop::{
    button_line, ButtonLine, ButtonLoop, LineAction, LineEvent, LoopStep, BUTTON_CONSUMER,
};
use penta_top_hat::config::TimeConfig;
use penta_top_hat::env_file::{ButtonMode, PinMap};
use penta_top_hat::gpio_cdev::GpioEdgeKind;

const MS: u128 = 1_000_000;

fn times() -> TimeConfig {
    TimeConfig {
        twice: 700 * MS,
        press: 1_800 * MS,
    }
}

fn pins(text: &str) -> PinMap {
    PinMap::parse(text).expect("pin map should parse")
}

#[test]
fn a_board_without_a_button_has_no_line() {
    assert_eq!(button_line(&PinMap::empty()), None);
    assert_eq!(button_line(&pins("BUTTON_LINE=17")), None);
    assert_eq!(button_line(&pins("BUTTON_CHIP=/dev/gpiochip4")), None);
}

#[test]
fn the_mode_decides_how_the_line_is_requested() {
    assert_eq!(BUTTON_CONSUMER, "hat_button");
    assert_eq!(
        button_line(&pins("BUTTON_CHIP=/dev/gpiochip4\nBUTTON_LINE=17\n")),
        Some(ButtonLine::InputEdges {
            chip: "/dev/gpiochip4".to_string(),
            offset: 17,
            debounce: 10 * MS,
        })
    );
    assert_eq!(
        button_line(&pins(
            "BUTTON_CHIP=/dev/gpiochip0\nBUTTON_LINE=3\nBUTTON_MODE=output-poll"
        )),
        Some(ButtonLine::Output {
            chip: "/dev/gpiochip0".to_string(),
            offset: 3,
            initial_active: true,
        })
    );
}

#[test]
fn the_loop_stops_when_asked() {
    let edges = ButtonLoop::new(ButtonMode::Edge, times());
    assert_eq!(edges.next_action(true, false, 0), LineAction::Stop);
    assert_eq!(edges.next_action(false, true, 0), LineAction::Stop);
    let levels = ButtonLoop::new(ButtonMode::OutputPoll, times());
    assert_eq!(levels.next_action(true, true, 0), LineAction::Stop);
    assert_eq!(levels.next_action(false, false, 0), LineAction::ReadLevel);
}

#[test]
fn the_loop_waits_for_the_nearer_of_deadline_and_shutdown_poll() {
    let mut edges = ButtonLoop::new(ButtonMode::Edge, times());
    assert_eq!(
        edges.next_action(false, false, 0),
        LineAction::WaitForEdge { timeout: 200 * MS }
    );
    assert_eq!(
        edges.handle_event(LineEvent::Edge(GpioEdgeKind::Falling), 0),
        LoopStep::Again
    );
    assert_eq!(
        edges.next_action(false, false, 0),
        LineAction::WaitForEdge { timeout: 200 * MS }
    );
    assert_eq!(
        edges.next_action(false, false, 1_750 * MS),
        LineAction::WaitForEdge { timeout: 50 * MS }
    );
    assert_eq!(
        edges.next_action(false, false, 1_900 * MS),
        LineAction::WaitForEdge { timeout: 0 }
    );
    assert_eq!(
        edges.handle_event(LineEvent::NoEdge, 1_800 * MS),
        LoopStep::Perform(ButtonGesture::Press)
    );
    assert_eq!(edges.performed(Ok(())), LoopStep::Again);
}

#[test]
fn edges_of_the_line_are_presses_and_releases() {
    let mut edges = ButtonLoop::new(ButtonMode::Edge, times());
    for (t, kind) in [
        (0, GpioEdgeKind::Falling),
        (100, GpioEdgeKind::Rising),
        (200, GpioEdgeKind::Falling),
    ] {
        assert_eq!(
            edges.handle_event(LineEvent::Edge(kind), t * MS),
            LoopStep::Again
        );
    }
    assert_eq!(
        edges.handle_event(LineEvent::Edge(GpioEdgeKind::Rising), 300 * MS),
        LoopStep::Perform(ButtonGesture::Twice)
    );
}

#[test]
fn polled_rounds_end_in_a_pause() {
    let mut levels = ButtonLoop::new(ButtonMode::OutputPoll, times());
    let pause = LoopStep::Pause { duration: 20 * MS };
    for (t, level) in [(0, true), (20, false), (60, false)] {
        assert_eq!(levels.handle_event(LineEvent::Level(level), t * MS), pause);
    }
    assert_eq!(
        levels.handle_event(LineEvent::Level(false), 1_860 * MS),
        LoopStep::Perform(ButtonGesture::Press)
    );
    assert_eq!(levels.performed(Ok(())), pause);
}

#[test]
fn failures_end_the_loop() {
    let mut edges = ButtonLoop::new(ButtonMode::Edge, times());
    assert_eq!(
        edges.handle_event(LineEvent::Failed("gone".to_string()), 0),
        LoopStep::Abort("gone".to_string())
    );
    assert_eq!(
        edges.performed(Err("failed to run reboot: no".to_string())),
        LoopStep::Abort("failed to run reboot: no".to_string())
    );
}
