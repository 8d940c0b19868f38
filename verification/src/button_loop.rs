//! The decisions of the loop that watches the button. The caller performs what the loop asks
//! for and hands back what came of it.

use crate::button::{
    after_edge, after_level, after_timeout, deadline_fits, deadline_set_by_edge,
    deadline_set_by_level, time_left, ButtonClassifier, ButtonEdge, ButtonGesture,
    ClassifierState, LevelState, OutputPollClassifier, OutputPollState, Phase,
};
use crate::config::{Nanos, TimeConfig};
use crate::env_file::{ButtonMode, PinMap};
use crate::gpio_cdev::GpioEdgeKind;
use vstd::prelude::*;

verus! {

/// The label under which the button line is requested.
pub const BUTTON_CONSUMER: &'static str = "hat_button";

/// How long an edge of the button line has to last.
pub const BUTTON_DEBOUNCE: Nanos = 10_000_000;

/// The longest wait between two looks at whether to stop.
pub const SHUTDOWN_POLL_INTERVAL: Nanos = 200_000_000;

/// The pause between two reads of a polled line.
pub const OUTPUT_POLL_INTERVAL: Nanos = 20_000_000;

/// How the button line is to be requested.
#[derive(Debug, PartialEq, Eq)]
pub enum ButtonLine {
    /// As an input line whose edges are reported once they have lasted for `debounce`.
    InputEdges { chip: String, offset: u32, debounce: Nanos },
    /// As an output line that starts at the given level.
    Output { chip: String, offset: u32, initial_active: bool },
}

/// `line` is how the button line at `offset` of `chip` is watched in the given mode. In the
/// polled mode the line is an output that is held high.
pub open spec fn is_button_line(
    line: ButtonLine,
    chip: Seq<char>,
    offset: u32,
    mode: ButtonMode,
) -> bool {
    match mode {
        ButtonMode::Edge => line matches ButtonLine::InputEdges { chip: c, offset: o, debounce }
            && c@ == chip && o == offset && debounce == BUTTON_DEBOUNCE,
        ButtonMode::OutputPoll => line matches ButtonLine::Output {
            chip: c,
            offset: o,
            initial_active,
        } && c@ == chip && o == offset && initial_active,
    }
}

/// Returns how the button line of a board is to be requested; a board without a button chip
/// or without a button line has no button.
pub fn button_line(pins: &PinMap) -> (line: Option<ButtonLine>)
    ensures
        line is Some <==> pins.button_chip is Some && pins.button_line is Some,
        line matches Some(l) ==> is_button_line(
            l,
            pins.button_chip.unwrap()@,
            pins.button_line.unwrap(),
            pins.button_mode,
        ),
{
    match (&pins.button_chip, pins.button_line) {
        (Some(chip), Some(offset)) => match pins.button_mode {
            ButtonMode::Edge => Some(
                ButtonLine::InputEdges { chip: chip.clone(), offset, debounce: BUTTON_DEBOUNCE },
            ),
            ButtonMode::OutputPoll => Some(
                ButtonLine::Output { chip: chip.clone(), offset, initial_active: true },
            ),
        },
        _ => None,
    }
}

/// What the loop asks for at the start of a round.
#[derive(Debug, PartialEq, Eq)]
pub enum LineAction {
    /// End the loop.
    Stop,
    /// Read the level of the line.
    ReadLevel,
    /// Wait for an edge of the line, at most for `timeout`.
    WaitForEdge { timeout: Nanos },
}

/// What came of a [`LineAction`].
#[derive(Debug)]
pub enum LineEvent {
    /// The level that was read.
    Level(bool),
    /// The edge that was seen.
    Edge(GpioEdgeKind),
    /// No edge was seen in time.
    NoEdge,
    /// The line failed; holds the text of the error.
    Failed(String),
}

/// How the round goes on.
#[derive(Debug, PartialEq, Eq)]
pub enum LoopStep {
    /// Do what the gesture calls for, then report the outcome.
    Perform(ButtonGesture),
    /// Begin the next round after a pause.
    Pause { duration: Nanos },
    /// Begin the next round.
    Again,
    /// Keep the error and end the loop.
    Abort(String),
}

/// The state of a [`ButtonLoop`].
pub struct LoopState {
    pub mode: ButtonMode,
    pub edges: ClassifierState,
    pub levels: OutputPollState,
}

/// The edge of the button that an edge of its line stands for: the button pulls it low.
pub open spec fn button_edge(kind: GpioEdgeKind) -> ButtonEdge {
    match kind {
        GpioEdgeKind::Falling => ButtonEdge::Pressed,
        GpioEdgeKind::Rising => ButtonEdge::Released,
    }
}

/// The state after an event, and the gesture that it completes.
pub open spec fn after_event(s: LoopState, event: LineEvent, now: nat) -> (
    LoopState,
    Option<ButtonGesture>,
) {
    match event {
        LineEvent::Level(level) => {
            let (levels, gesture) = after_level(s.levels, level, now);
            (LoopState { levels, ..s }, gesture)
        },
        LineEvent::Edge(kind) => {
            let (edges, gesture) = after_edge(s.edges, button_edge(kind), now);
            (LoopState { edges, ..s }, gesture)
        },
        LineEvent::NoEdge => {
            let (edges, gesture) = after_timeout(s.edges, now);
            (LoopState { edges, ..s }, gesture)
        },
        LineEvent::Failed(_) => (s, None),
    }
}

/// The deadline that an event sets, where it sets one.
pub open spec fn deadline_set_by_event(s: LoopState, event: LineEvent, now: nat) -> Option<nat> {
    match event {
        LineEvent::Level(level) => deadline_set_by_level(s.levels, level, now),
        LineEvent::Edge(kind) => deadline_set_by_edge(s.edges, button_edge(kind), now),
        _ => None,
    }
}

/// The time to wait for an edge: until the classifier has something to report, and no longer
/// than the loop may go without a look at whether to stop.
pub open spec fn edge_timeout(edges: ClassifierState, now: nat) -> nat {
    match time_left(edges, now) {
        Some(left) => if left < SHUTDOWN_POLL_INTERVAL {
            left
        } else {
            SHUTDOWN_POLL_INTERVAL as nat
        },
        None => SHUTDOWN_POLL_INTERVAL as nat,
    }
}

/// How a round goes on when there is nothing left to do in it.
pub open spec fn round_over(mode: ButtonMode) -> LoopStep {
    match mode {
        ButtonMode::Edge => LoopStep::Again,
        ButtonMode::OutputPoll => LoopStep::Pause { duration: OUTPUT_POLL_INTERVAL },
    }
}

/// `step` keeps an error with the given text.
pub open spec fn is_abort(step: LoopStep, error: Seq<char>) -> bool {
    step matches LoopStep::Abort(text) && text@ == error
}

/// The loop that watches the button.
#[derive(Debug)]
pub struct ButtonLoop {
    mode: ButtonMode,
    classifier: ButtonClassifier,
    output_classifier: OutputPollClassifier,
}

impl View for ButtonLoop {
    type V = LoopState;

    closed spec fn view(&self) -> LoopState {
        LoopState {
            mode: self.mode,
            edges: self.classifier@,
            levels: self.output_classifier@,
        }
    }
}

impl ButtonLoop {
    /// A loop before its first round.
    pub fn new(mode: ButtonMode, time_config: TimeConfig) -> (l: Self)
        ensures
            ({
                let idle = ClassifierState {
                    double_click: time_config.twice as nat,
                    long_press: time_config.press as nat,
                    phase: Phase::Idle,
                    ignore_release: false,
                };
                l@ == (LoopState {
                    mode,
                    edges: idle,
                    levels: OutputPollState { classifier: idle, level: LevelState::Unknown },
                })
            }),
    {
        ButtonLoop {
            mode,
            classifier: ButtonClassifier::new(time_config),
            output_classifier: OutputPollClassifier::new(time_config),
        }
    }

    /// Begins a round: returns what the loop asks for.
    pub fn next_action(&self, stop: bool, shutdown: bool, now: Nanos) -> (action: LineAction)
        ensures
            stop || shutdown ==> action is Stop,
            !stop && !shutdown && self@.mode == ButtonMode::OutputPoll ==> action is ReadLevel,
            !stop && !shutdown && self@.mode == ButtonMode::Edge ==> (action matches
                LineAction::WaitForEdge { timeout } && timeout == edge_timeout(
                self@.edges,
                now as nat,
            )),
    {
        if stop || shutdown {
            return LineAction::Stop;
        }
        match self.mode {
            ButtonMode::OutputPoll => LineAction::ReadLevel,
            ButtonMode::Edge => {
                let timeout: Nanos = match self.classifier.next_wait(now) {
                    Some(left) => if left < SHUTDOWN_POLL_INTERVAL {
                        left
                    } else {
                        SHUTDOWN_POLL_INTERVAL
                    },
                    None => SHUTDOWN_POLL_INTERVAL,
                };
                LineAction::WaitForEdge { timeout }
            },
        }
    }

    fn end_round(&self) -> (step: LoopStep)
        ensures
            step == round_over(self@.mode),
    {
        match self.mode {
            ButtonMode::Edge => LoopStep::Again,
            ButtonMode::OutputPoll => LoopStep::Pause { duration: OUTPUT_POLL_INTERVAL },
        }
    }

    /// Takes what came of the action and returns how the round goes on.
    pub fn handle_event(&mut self, event: LineEvent, now: Nanos) -> (step: LoopStep)
        requires
            deadline_fits(deadline_set_by_event(old(self)@, event, now as nat)),
        ensures
            final(self)@ == after_event(old(self)@, event, now as nat).0,
            match (event, after_event(old(self)@, event, now as nat).1) {
                (LineEvent::Failed(error), _) => is_abort(step, error@),
                (_, Some(gesture)) => step == LoopStep::Perform(gesture),
                (_, None) => step == round_over(old(self)@.mode),
            },
    {
        let gesture = match event {
            LineEvent::Level(level) => self.output_classifier.handle_level(level, now),
            LineEvent::Edge(kind) => {
                let edge = match kind {
                    GpioEdgeKind::Falling => ButtonEdge::Pressed,
                    GpioEdgeKind::Rising => ButtonEdge::Released,
                };
                self.classifier.handle_edge(edge, now)
            },
            LineEvent::NoEdge => self.classifier.handle_timeout(now),
            LineEvent::Failed(error) => {
                return LoopStep::Abort(error);
            },
        };
        match gesture {
            Some(gesture) => LoopStep::Perform(gesture),
            None => self.end_round(),
        }
    }

    /// Takes the outcome of what a gesture called for and returns how the round goes on.
    pub fn performed(&self, outcome: Result<(), String>) -> (step: LoopStep)
        ensures
            match outcome {
                Ok(_) => step == round_over(self@.mode),
                Err(error) => is_abort(step, error@),
            },
    {
        match outcome {
            Ok(()) => self.end_round(),
            Err(error) => LoopStep::Abort(error),
        }
    }
}

} // verus!
