use penta_top_hat::button::{
    ButtonClassifier, ButtonEdge, ButtonGesture, OutputPollClassifier,
};
use penta_top_hat::config::TimeConfig;

const MS: u128 = 1_000_000;
const T0: u128 = 5_000_000_000;

fn times() -> TimeConfig {
    TimeConfig {
        twice: 700 * MS,
        press: 1_800 * MS,
    }
}

fn classifier() -> ButtonClassifier {
    ButtonClassifier::new(times())
}

#[test]
fn classifies_single_click_after_double_click_window() {
    let mut classifier = classifier();

    assert_eq!(classifier.handle_edge(ButtonEdge::Pressed, T0), None);
    assert_eq!(
        classifier.handle_edge(ButtonEdge::Released, T0 + 100 * MS),
        None
    );
    assert_eq!(
        classifier.handle_timeout(T0 + 801 * MS),
        Some(ButtonGesture::Click)
    );
}

#[test]
fn classifies_double_click_on_second_release() {
    let mut classifier = classifier();

    assert_eq!(classifier.handle_edge(ButtonEdge::Pressed, T0), None);
    assert_eq!(
        classifier.handle_edge(ButtonEdge::Released, T0 + 100 * MS),
        None
    );
    assert_eq!(
        classifier.handle_edge(ButtonEdge::Pressed, T0 + 200 * MS),
        None
    );
    assert_eq!(
        classifier.handle_edge(ButtonEdge::Released, T0 + 300 * MS),
        Some(ButtonGesture::Twice)
    );
}

#[test]
fn classifies_long_press_and_ignores_release() {
    let mut classifier = classifier();

    assert_eq!(classifier.handle_edge(ButtonEdge::Pressed, T0), None);
    assert_eq!(
        classifier.handle_timeout(T0 + 1800 * MS),
        Some(ButtonGesture::Press)
    );
    assert_eq!(
        classifier.handle_edge(ButtonEdge::Released, T0 + 1900 * MS),
        None
    );
}

#[test]
fn consumes_release_that_arrives_after_long_press_deadline() {
    let mut classifier = classifier();

    assert_eq!(classifier.handle_edge(ButtonEdge::Pressed, T0), None);
    assert_eq!(
        classifier.handle_edge(ButtonEdge::Released, T0 + 1900 * MS),
        Some(ButtonGesture::Press)
    );

    assert_eq!(
        classifier.handle_edge(ButtonEdge::Pressed, T0 + 2200 * MS),
        None
    );
    assert_eq!(
        classifier.handle_edge(ButtonEdge::Released, T0 + 2300 * MS),
        None
    );
    assert_eq!(
        classifier.handle_timeout(T0 + 3100 * MS),
        Some(ButtonGesture::Click)
    );
}

#[test]
fn output_poll_classifier_debounces_and_classifies_single_click() {
    let mut classifier = OutputPollClassifier::new(times());

    assert_eq!(classifier.handle_level(true, T0), None);
    assert_eq!(classifier.handle_level(false, T0 + 20 * MS), None);
    assert_eq!(classifier.handle_level(true, T0 + 40 * MS), None);
    assert_eq!(classifier.handle_level(false, T0 + 60 * MS), None);
    assert_eq!(classifier.handle_level(false, T0 + 100 * MS), None);
    assert_eq!(classifier.handle_level(true, T0 + 120 * MS), None);
    assert_eq!(classifier.handle_level(true, T0 + 160 * MS), None);
    assert_eq!(
        classifier.handle_level(true, T0 + 861 * MS),
        Some(ButtonGesture::Click)
    );
}

#[test]
fn output_poll_classifier_classifies_double_click() {
    let mut classifier = OutputPollClassifier::new(times());

    assert_eq!(classifier.handle_level(true, T0), None);
    for (milliseconds, level) in [
        (20u128, false),
        (60, false),
        (80, true),
        (120, true),
        (200, false),
        (240, false),
        (260, true),
    ] {
        assert_eq!(
            classifier.handle_level(level, T0 + milliseconds * MS),
            None
        );
    }
    assert_eq!(
        classifier.handle_level(true, T0 + 300 * MS),
        Some(ButtonGesture::Twice)
    );
}

#[test]
fn output_poll_classifier_detects_long_press() {
    let mut classifier = OutputPollClassifier::new(times());

    assert_eq!(classifier.handle_level(true, T0), None);
    assert_eq!(classifier.handle_level(false, T0 + 20 * MS), None);
    assert_eq!(classifier.handle_level(false, T0 + 60 * MS), None);
    assert_eq!(
        classifier.handle_level(false, T0 + 1860 * MS),
        Some(ButtonGesture::Press)
    );
}

#[test]
fn time_alone_reports_a_click_once() {
    let mut classifier = classifier();
    assert_eq!(classifier.handle_timeout(T0), None);
    classifier.handle_edge(ButtonEdge::Pressed, T0);
    classifier.handle_edge(ButtonEdge::Released, T0 + 100 * MS);
    assert_eq!(classifier.handle_timeout(T0 + 800 * MS - 1), None);
    assert_eq!(
        classifier.handle_timeout(T0 + 800 * MS),
        Some(ButtonGesture::Click)
    );
    assert_eq!(classifier.handle_timeout(T0 + 9000 * MS), None);
    assert_eq!(classifier.next_wait(T0 + 9000 * MS), None);
}

#[test]
fn next_wait_counts_down_to_zero() {
    let mut classifier = classifier();
    assert_eq!(classifier.next_wait(T0), None);
    classifier.handle_edge(ButtonEdge::Pressed, T0);
    assert_eq!(classifier.next_wait(T0), Some(1_800 * MS));
    assert_eq!(classifier.next_wait(T0 + 1_799 * MS), Some(MS));
    assert_eq!(classifier.next_wait(T0 + 2_000 * MS), Some(0));
}

#[test]
fn a_press_at_the_long_press_deadline_ignores_the_next_release() {
    let mut classifier = classifier();
    classifier.handle_edge(ButtonEdge::Pressed, T0);
    assert_eq!(
        classifier.handle_edge(ButtonEdge::Pressed, T0 + 1_800 * MS),
        Some(ButtonGesture::Press)
    );
    assert_eq!(
        classifier.handle_edge(ButtonEdge::Released, T0 + 1_900 * MS),
        None
    );
    assert_eq!(classifier.next_wait(T0 + 1_900 * MS), None);
}

#[test]
fn an_edge_after_the_click_window_reports_the_click() {
    let mut classifier = classifier();
    classifier.handle_edge(ButtonEdge::Pressed, T0);
    classifier.handle_edge(ButtonEdge::Released, T0 + 100 * MS);
    assert_eq!(
        classifier.handle_edge(ButtonEdge::Pressed, T0 + 900 * MS),
        Some(ButtonGesture::Click)
    );
    assert_eq!(classifier.next_wait(T0 + 900 * MS), None);
}

#[test]
fn a_release_without_a_press_becomes_a_click() {
    let mut classifier = classifier();
    assert_eq!(classifier.handle_edge(ButtonEdge::Released, T0), None);
    assert_eq!(classifier.next_wait(T0), Some(700 * MS));
    assert_eq!(
        classifier.handle_timeout(T0 + 700 * MS),
        Some(ButtonGesture::Click)
    );
}

#[test]
fn a_short_bounce_is_no_press() {
    let mut classifier = OutputPollClassifier::new(times());
    assert_eq!(classifier.handle_level(true, T0), None);
    assert_eq!(classifier.handle_level(false, T0 + 20 * MS), None);
    assert_eq!(classifier.handle_level(false, T0 + 59 * MS), None);
    assert_eq!(classifier.handle_level(true, T0 + 60 * MS), None);
    assert_eq!(classifier.handle_level(true, T0 + 9_000 * MS), None);
}

#[test]
fn a_clock_that_runs_backwards_confirms_no_level() {
    let mut classifier = OutputPollClassifier::new(times());
    assert_eq!(classifier.handle_level(true, T0), None);
    assert_eq!(classifier.handle_level(false, T0 + 100 * MS), None);
    assert_eq!(classifier.handle_level(false, T0), None);
    assert_eq!(classifier.handle_level(false, T0 + 140 * MS), None);
    assert_eq!(
        classifier.handle_level(false, T0 + 1_940 * MS),
        Some(ButtonGesture::Press)
    );
}

#[test]
fn polled_long_press_ignores_the_release() {
    let mut classifier = OutputPollClassifier::new(times());
    for (milliseconds, level) in [(0u128, true), (20, false), (60, false)] {
        assert_eq!(classifier.handle_level(level, T0 + milliseconds * MS), None);
    }
    assert_eq!(
        classifier.handle_level(false, T0 + 1_860 * MS),
        Some(ButtonGesture::Press)
    );
    for (milliseconds, level) in [(1_900u128, true), (1_940, true), (5_000, true)] {
        assert_eq!(classifier.handle_level(level, T0 + milliseconds * MS), None);
    }
}

#[test]
fn a_press_time_of_zero_reports_at_the_edge() {
    let mut classifier = OutputPollClassifier::new(TimeConfig { twice: 0, press: 0 });
    assert_eq!(classifier.handle_level(true, T0), None);
    assert_eq!(classifier.handle_level(false, T0 + 20 * MS), None);
    assert_eq!(
        classifier.handle_level(false, T0 + 60 * MS),
        Some(ButtonGesture::Press)
    );
}
