//! Button gestures: what a button's edges or levels amount to.

use crate::config::{Nanos, TimeConfig};
use vstd::prelude::*;

verus! {

/// How long a polled level has to last before it counts.
pub const OUTPUT_POLL_DEBOUNCE: Nanos = 40_000_000;

/// What the user did with the button.
#[derive(Debug, Clone, Copy, PartialEq, Eq, Structural)]
pub enum ButtonGesture {
    Click,
    Twice,
    Press,
}

/// A change of the button.
#[derive(Debug, Clone, Copy, PartialEq, Eq, Structural)]
pub enum ButtonEdge {
    Pressed,
    Released,
}

/// Where the classifier stands in a gesture.
pub enum Phase {
    /// No gesture has begun.
    Idle,
    /// The button went down; at the deadline this becomes a long press.
    Held { deadline: nat },
    /// The button went down and up, or only up; at the deadline this becomes a click.
    Clicked { deadline: nat },
}

/// The state of a [`ButtonClassifier`].
pub struct ClassifierState {
    pub double_click: nat,
    pub long_press: nat,
    pub phase: Phase,
    /// The next release belongs to a long press that was reported already.
    pub ignore_release: bool,
}

/// The point in time at which a phase ends by itself.
pub open spec fn deadline_of(phase: Phase) -> Option<nat> {
    match phase {
        Phase::Idle => None,
        Phase::Held { deadline } => Some(deadline),
        Phase::Clicked { deadline } => Some(deadline),
    }
}

/// The deadline of a phase has come.
pub open spec fn is_over(phase: Phase, now: nat) -> bool {
    deadline_of(phase) matches Some(deadline) && now >= deadline
}

/// The deadline that an edge sets, where it begins a phase that has one.
pub open spec fn deadline_set_by_edge(s: ClassifierState, edge: ButtonEdge, now: nat) -> Option<
    nat,
> {
    if is_over(s.phase, now) || s.phase is Clicked {
        None
    } else {
        match edge {
            ButtonEdge::Pressed => Some(now + s.long_press),
            ButtonEdge::Released => if s.ignore_release {
                None
            } else {
                Some(now + s.double_click)
            },
        }
    }
}

/// A deadline, where there is one, is a point in time that can be represented.
pub open spec fn deadline_fits(deadline: Option<nat>) -> bool {
    deadline matches Some(d) ==> d <= Nanos::MAX
}

/// The state after an edge, and the gesture that it completes.
pub open spec fn after_edge(s: ClassifierState, edge: ButtonEdge, now: nat) -> (
    ClassifierState,
    Option<ButtonGesture>,
) {
    if is_over(s.phase, now) {
        match s.phase {
            Phase::Clicked { .. } => (
                ClassifierState { phase: Phase::Idle, ..s },
                Some(ButtonGesture::Click),
            ),
            _ => (
                ClassifierState {
                    phase: Phase::Idle,
                    ignore_release: s.ignore_release || edge == ButtonEdge::Pressed,
                    ..s
                },
                Some(ButtonGesture::Press),
            ),
        }
    } else {
        match edge {
            ButtonEdge::Pressed => match s.phase {
                Phase::Clicked { .. } => (s, None),
                _ => (
                    ClassifierState { phase: Phase::Held { deadline: now + s.long_press }, ..s },
                    None,
                ),
            },
            ButtonEdge::Released => if s.ignore_release {
                (ClassifierState { ignore_release: false, ..s }, None)
            } else {
                match s.phase {
                    Phase::Clicked { .. } => (
                        ClassifierState { phase: Phase::Idle, ..s },
                        Some(ButtonGesture::Twice),
                    ),
                    _ => (
                        ClassifierState {
                            phase: Phase::Clicked { deadline: now + s.double_click },
                            ..s
                        },
                        None,
                    ),
                }
            },
        }
    }
}

/// The state after a look at the clock, and the gesture that the passing of time completes.
pub open spec fn after_timeout(s: ClassifierState, now: nat) -> (
    ClassifierState,
    Option<ButtonGesture>,
) {
    if is_over(s.phase, now) {
        match s.phase {
            Phase::Clicked { .. } => (
                ClassifierState { phase: Phase::Idle, ..s },
                Some(ButtonGesture::Click),
            ),
            _ => (
                ClassifierState { phase: Phase::Idle, ignore_release: true, ..s },
                Some(ButtonGesture::Press),
            ),
        }
    } else {
        (s, None)
    }
}

/// The time left until the deadline of the phase; none is left once it has come.
pub open spec fn time_left(s: ClassifierState, now: nat) -> Option<nat> {
    match deadline_of(s.phase) {
        None => None,
        Some(deadline) => Some(
            if deadline > now {
                (deadline - now) as nat
            } else {
                0
            },
        ),
    }
}

/// Turns the edges of a button into gestures.
#[derive(Debug)]
pub struct ButtonClassifier {
    double_click: Nanos,
    long_press: Nanos,
    click_count: u8,
    wait_until: Option<Nanos>,
    ignore_release: bool,
}

impl View for ButtonClassifier {
    type V = ClassifierState;

    closed spec fn view(&self) -> ClassifierState {
        ClassifierState {
            double_click: self.double_click as nat,
            long_press: self.long_press as nat,
            phase: match self.wait_until {
                None => Phase::Idle,
                Some(deadline) => if self.click_count == 0 {
                    Phase::Held { deadline: deadline as nat }
                } else {
                    Phase::Clicked { deadline: deadline as nat }
                },
            },
            ignore_release: self.ignore_release,
        }
    }
}

impl ButtonClassifier {
    /// At most one click is pending, and a pending click has a deadline.
    #[verifier::type_invariant]
    spec fn valid(self) -> bool {
        &&& self.click_count <= 1
        &&& self.click_count == 1 ==> self.wait_until is Some
    }

    /// A classifier that waits for a gesture to begin.
    pub fn new(time_config: TimeConfig) -> (c: Self)
        ensures
            c@ == (ClassifierState {
                double_click: time_config.twice as nat,
                long_press: time_config.press as nat,
                phase: Phase::Idle,
                ignore_release: false,
            }),
    {
        ButtonClassifier {
            double_click: time_config.twice,
            long_press: time_config.press,
            click_count: 0,
            wait_until: None,
            ignore_release: false,
        }
    }

    /// Takes an edge and returns the gesture that it completes.
    pub fn handle_edge(&mut self, edge: ButtonEdge, now: Nanos) -> (gesture: Option<
        ButtonGesture,
    >)
        requires
            deadline_fits(deadline_set_by_edge(old(self)@, edge, now as nat)),
        ensures
            (final(self)@, gesture) == after_edge(old(self)@, edge, now as nat),
        no_unwind
    {
        proof {
            use_type_invariant(&*self);
        }
        let over: bool = match self.wait_until {
            Some(deadline) => now >= deadline,
            None => false,
        };
        if over {
            if self.click_count == 0 {
                self.wait_until = None;
                if edge == ButtonEdge::Pressed {
                    self.ignore_release = true;
                }
                return Some(ButtonGesture::Press);
            }
            self.click_count = 0;
            self.wait_until = None;
            return Some(ButtonGesture::Click);
        }
        match edge {
            ButtonEdge::Pressed => {
                if self.click_count == 0 {
                    self.wait_until = Some(now + self.long_press);
                }
                None
            },
            ButtonEdge::Released => {
                if self.ignore_release {
                    self.ignore_release = false;
                    return None;
                }
                if self.click_count == 0 {
                    self.wait_until = Some(now + self.double_click);
                    self.click_count = 1;
                    None
                } else {
                    self.click_count = 0;
                    self.wait_until = None;
                    Some(ButtonGesture::Twice)
                }
            },
        }
    }

    /// Looks at the clock and returns the gesture that the passing of time completes.
    pub fn handle_timeout(&mut self, now: Nanos) -> (gesture: Option<ButtonGesture>)
        ensures
            (final(self)@, gesture) == after_timeout(old(self)@, now as nat),
        no_unwind
    {
        proof {
            use_type_invariant(&*self);
        }
        let over: bool = match self.wait_until {
            Some(deadline) => now >= deadline,
            None => false,
        };
        if !over {
            return None;
        }
        if self.click_count == 0 {
            self.wait_until = None;
            self.ignore_release = true;
            Some(ButtonGesture::Press)
        } else {
            self.click_count = 0;
            self.wait_until = None;
            Some(ButtonGesture::Click)
        }
    }

    /// The time left until [`Self::handle_timeout`] has something to report.
    pub fn next_wait(&self, now: Nanos) -> (left: Option<Nanos>)
        ensures
            left is Some <==> time_left(self@, now as nat) is Some,
            left matches Some(t) ==> time_left(self@, now as nat) == Some(t as nat),
    {
        match self.wait_until {
            Some(deadline) => Some(deadline.saturating_sub(now)),
            None => None,
        }
    }
}

/// What is known of a polled level.
pub enum LevelState {
    /// No level was read yet.
    Unknown,
    /// The level is `level`.
    Settled { level: bool },
    /// The level is still taken for `level`; the other one has been read since `since`.
    Changing { level: bool, since: nat },
}

/// The state of an [`OutputPollClassifier`].
pub struct OutputPollState {
    pub classifier: ClassifierState,
    pub level: LevelState,
}

/// The edge that brings the line to `level`: the button pulls it low.
pub open spec fn edge_to(level: bool) -> ButtonEdge {
    if level {
        ButtonEdge::Released
    } else {
        ButtonEdge::Pressed
    }
}

/// What is known of the level after a read of `level`, and the edge that the read confirms.
/// A new level counts once it has lasted for [`OUTPUT_POLL_DEBOUNCE`] and is read again.
pub open spec fn debounced(s: LevelState, level: bool, now: nat) -> (
    LevelState,
    Option<ButtonEdge>,
) {
    match s {
        LevelState::Unknown => (LevelState::Settled { level }, None),
        LevelState::Settled { level: stable } => if level == stable {
            (s, None)
        } else {
            (LevelState::Changing { level: stable, since: now }, None)
        },
        LevelState::Changing { level: stable, since } => if level == stable {
            (LevelState::Settled { level }, None)
        } else if now >= since + OUTPUT_POLL_DEBOUNCE {
            (LevelState::Settled { level }, Some(edge_to(level)))
        } else {
            (s, None)
        },
    }
}

/// The state after a read of `level`, and the gesture that it completes. The first read
/// completes none. Later ones look at the clock too, unless an edge completes a gesture.
pub open spec fn after_level(s: OutputPollState, level: bool, now: nat) -> (
    OutputPollState,
    Option<ButtonGesture>,
) {
    let (next, edge) = debounced(s.level, level, now);
    if s.level is Unknown {
        (OutputPollState { level: next, ..s }, None)
    } else {
        let (c, gesture) = match edge {
            Some(e) => after_edge(s.classifier, e, now),
            None => (s.classifier, None),
        };
        if gesture is Some {
            (OutputPollState { classifier: c, level: next }, gesture)
        } else {
            let (d, late) = after_timeout(c, now);
            (OutputPollState { classifier: d, level: next }, late)
        }
    }
}

/// The deadline that a read of `level` sets, where it confirms an edge that sets one.
pub open spec fn deadline_set_by_level(s: OutputPollState, level: bool, now: nat) -> Option<nat> {
    match debounced(s.level, level, now).1 {
        Some(edge) => deadline_set_by_edge(s.classifier, edge, now),
        None => None,
    }
}

/// Turns the polled levels of a button line into gestures.
#[derive(Debug)]
pub struct OutputPollClassifier {
    classifier: ButtonClassifier,
    stable_level: Option<bool>,
    /// Since when the level other than the stable one has been read.
    candidate_since: Option<Nanos>,
}

impl View for OutputPollClassifier {
    type V = OutputPollState;

    closed spec fn view(&self) -> OutputPollState {
        OutputPollState {
            classifier: self.classifier@,
            level: match (self.stable_level, self.candidate_since) {
                (None, _) => LevelState::Unknown,
                (Some(level), None) => LevelState::Settled { level },
                (Some(level), Some(since)) => LevelState::Changing { level, since: since as nat },
            },
        }
    }
}

impl OutputPollClassifier {
    /// There is no candidate before there is a stable level.
    #[verifier::type_invariant]
    spec fn valid(self) -> bool {
        self.candidate_since is Some ==> self.stable_level is Some
    }

    /// A classifier that has read no level yet.
    pub fn new(time_config: TimeConfig) -> (c: Self)
        ensures
            c@ == (OutputPollState {
                classifier: ClassifierState {
                    double_click: time_config.twice as nat,
                    long_press: time_config.press as nat,
                    phase: Phase::Idle,
                    ignore_release: false,
                },
                level: LevelState::Unknown,
            }),
    {
        OutputPollClassifier {
            classifier: ButtonClassifier::new(time_config),
            stable_level: None,
            candidate_since: None,
        }
    }

    /// Takes a level that was read and returns the gesture that it completes.
    pub fn handle_level(&mut self, level: bool, now: Nanos) -> (gesture: Option<ButtonGesture>)
        requires
            deadline_fits(deadline_set_by_level(old(self)@, level, now as nat)),
        ensures
            (final(self)@, gesture) == after_level(old(self)@, level, now as nat),
        no_unwind
    {
        proof {
            use_type_invariant(&*self);
        }
        let stable_level: bool = match self.stable_level {
            Some(stable) => stable,
            None => {
                self.stable_level = Some(level);
                return None;
            },
        };
        if level == stable_level {
            self.candidate_since = None;
        } else {
            match self.candidate_since {
                None => {
                    self.candidate_since = Some(now);
                },
                Some(since) => {
                    if now >= since && now - since >= OUTPUT_POLL_DEBOUNCE {
                        self.stable_level = Some(level);
                        self.candidate_since = None;
                        let edge = if level {
                            ButtonEdge::Released
                        } else {
                            ButtonEdge::Pressed
                        };
                        match self.classifier.handle_edge(edge, now) {
                            Some(gesture) => {
                                return Some(gesture);
                            },
                            None => {},
                        }
                    }
                },
            }
        }
        self.classifier.handle_timeout(now)
    }
}

} // verus!
