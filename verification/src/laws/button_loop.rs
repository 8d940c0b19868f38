//! Laws of the loop that watches the button.

use crate::button::{
    after_edge, after_level, after_timeout, ButtonClassifier, ButtonEdge, ButtonGesture,
    OutputPollClassifier, Phase,
};
use crate::button_loop::{
    after_event, button_line, edge_timeout, ButtonLine, ButtonLoop, LineAction, LineEvent,
    LoopState, LoopStep,
};
use crate::config::{Nanos, TimeConfig};
use crate::env_file::{ButtonMode, PinMap};
use crate::gpio_cdev::GpioEdgeKind;
use crate::laws::button::at_rest;
use vstd::prelude::*;

verus! {

/// What an event completes is what the classifier of its kind says of it: a falling edge is a
/// press, a rising edge a release, a wait without an edge a look at the clock, and a level a
/// read of the line. A failure completes nothing.
pub proof fn the_classifiers_decide(s: LoopState, level: bool, error: String, now: nat)
    ensures
        ({
            let (next, gesture) = after_event(s, LineEvent::Edge(GpioEdgeKind::Falling), now);
            (next.edges, gesture) == after_edge(s.edges, ButtonEdge::Pressed, now)
        }),
        ({
            let (next, gesture) = after_event(s, LineEvent::Edge(GpioEdgeKind::Rising), now);
            (next.edges, gesture) == after_edge(s.edges, ButtonEdge::Released, now)
        }),
        ({
            let (next, gesture) = after_event(s, LineEvent::NoEdge, now);
            (next.edges, gesture) == after_timeout(s.edges, now)
        }),
        ({
            let (next, gesture) = after_event(s, LineEvent::Level(level), now);
            (next.levels, gesture) == after_level(s.levels, level, now)
        }),
        after_event(s, LineEvent::Failed(error), now) == (s, None::<ButtonGesture>),
{
}

/// The next round begins at once where edges are waited for, and after 20 ms where the line is
/// polled.
pub open spec fn ends_round(step: LoopStep, mode: ButtonMode) -> bool {
    match mode {
        ButtonMode::Edge => step is Again,
        ButtonMode::OutputPoll => step matches LoopStep::Pause { duration } && duration
            == 20_000_000,
    }
}

/// A loop and a classifier that start alike and are told the same stay alike, and the loop
/// performs the gesture that the classifier reports, that one and no other. Where it reports
/// none the round is over.
pub proof fn the_loop_performs_what_is_reported(
    at_edge: &mut ButtonLoop,
    at_clock: &mut ButtonLoop,
    at_level: &mut ButtonLoop,
    edge_classifier: &mut ButtonClassifier,
    clock_classifier: &mut ButtonClassifier,
    level_classifier: &mut OutputPollClassifier,
    falling: bool,
    level: bool,
    now: Nanos,
    steps: Seq<LoopStep>,
    reports: Seq<Option<ButtonGesture>>,
)
    requires
        steps.len() == 3,
        reports.len() == 3,
        old(at_edge)@.edges == old(edge_classifier)@,
        old(at_clock)@.edges == old(clock_classifier)@,
        old(at_level)@.levels == old(level_classifier)@,
        call_ensures(
            ButtonLoop::handle_event,
            (
                at_edge,
                LineEvent::Edge(
                    if falling {
                        GpioEdgeKind::Falling
                    } else {
                        GpioEdgeKind::Rising
                    },
                ),
                now,
            ),
            steps[0],
        ),
        call_ensures(
            ButtonClassifier::handle_edge,
            (
                edge_classifier,
                if falling {
                    ButtonEdge::Pressed
                } else {
                    ButtonEdge::Released
                },
                now,
            ),
            reports[0],
        ),
        call_ensures(ButtonLoop::handle_event, (at_clock, LineEvent::NoEdge, now), steps[1]),
        call_ensures(ButtonClassifier::handle_timeout, (clock_classifier, now), reports[1]),
        call_ensures(ButtonLoop::handle_event, (at_level, LineEvent::Level(level), now), steps[2]),
        call_ensures(
            OutputPollClassifier::handle_level,
            (level_classifier, level, now),
            reports[2],
        ),
    ensures
        final(at_edge)@.edges == final(edge_classifier)@,
        final(at_edge)@.levels == old(at_edge)@.levels,
        final(at_edge)@.mode == old(at_edge)@.mode,
        final(at_clock)@.edges == final(clock_classifier)@,
        final(at_clock)@.levels == old(at_clock)@.levels,
        final(at_clock)@.mode == old(at_clock)@.mode,
        final(at_level)@.levels == final(level_classifier)@,
        final(at_level)@.edges == old(at_level)@.edges,
        final(at_level)@.mode == old(at_level)@.mode,
        reports[0] matches Some(gesture) ==> steps[0] == LoopStep::Perform(gesture),
        reports[0] is None ==> ends_round(steps[0], old(at_edge)@.mode),
        reports[1] matches Some(gesture) ==> steps[1] == LoopStep::Perform(gesture),
        reports[1] is None ==> ends_round(steps[1], old(at_clock)@.mode),
        reports[2] matches Some(gesture) ==> steps[2] == LoopStep::Perform(gesture),
        reports[2] is None ==> ends_round(steps[2], old(at_level)@.mode),
{
}

/// On a new loop a falling edge and a rising edge before the long press time perform nothing. A
/// wait without an edge performs a click once the double click window is over, and nothing
/// before; after the click nothing more is performed.
pub proof fn a_new_loop_performs_a_click(
    times: TimeConfig,
    new: ButtonLoop,
    first: &mut ButtonLoop,
    second: &mut ButtonLoop,
    third: &mut ButtonLoop,
    fourth: &mut ButtonLoop,
    pressed: Nanos,
    released: Nanos,
    later: Nanos,
    after: Nanos,
    steps: Seq<LoopStep>,
)
    requires
        steps.len() == 4,
        released < pressed + times.press,
        call_ensures(ButtonLoop::new, (ButtonMode::Edge, times), new),
        *old(first) == new,
        call_ensures(
            ButtonLoop::handle_event,
            (first, LineEvent::Edge(GpioEdgeKind::Falling), pressed),
            steps[0],
        ),
        *old(second) == *final(first),
        call_ensures(
            ButtonLoop::handle_event,
            (second, LineEvent::Edge(GpioEdgeKind::Rising), released),
            steps[1],
        ),
        *old(third) == *final(second),
        call_ensures(ButtonLoop::handle_event, (third, LineEvent::NoEdge, later), steps[2]),
        *old(fourth) == *final(third),
        call_ensures(ButtonLoop::handle_event, (fourth, LineEvent::NoEdge, after), steps[3]),
    ensures
        steps[0] is Again,
        steps[1] is Again,
        later < released + times.twice ==> steps[2] is Again,
        later >= released + times.twice ==> steps[2] == LoopStep::Perform(ButtonGesture::Click),
        later >= released + times.twice ==> steps[3] is Again && (*final(third))@ == new@,
{
}

/// On a new loop two falling and two rising edges perform a double click, at the second rising
/// edge, where that comes inside the double click window of the first. Where it comes later it
/// performs a click.
pub proof fn a_new_loop_performs_a_double_click(
    times: TimeConfig,
    new: ButtonLoop,
    first: &mut ButtonLoop,
    second: &mut ButtonLoop,
    third: &mut ButtonLoop,
    fourth: &mut ButtonLoop,
    fifth: &mut ButtonLoop,
    pressed: Nanos,
    released: Nanos,
    pressed_again: Nanos,
    released_again: Nanos,
    after: Nanos,
    steps: Seq<LoopStep>,
)
    requires
        steps.len() == 5,
        released < pressed + times.press,
        pressed_again < released + times.twice,
        call_ensures(ButtonLoop::new, (ButtonMode::Edge, times), new),
        *old(first) == new,
        call_ensures(
            ButtonLoop::handle_event,
            (first, LineEvent::Edge(GpioEdgeKind::Falling), pressed),
            steps[0],
        ),
        *old(second) == *final(first),
        call_ensures(
            ButtonLoop::handle_event,
            (second, LineEvent::Edge(GpioEdgeKind::Rising), released),
            steps[1],
        ),
        *old(third) == *final(second),
        call_ensures(
            ButtonLoop::handle_event,
            (third, LineEvent::Edge(GpioEdgeKind::Falling), pressed_again),
            steps[2],
        ),
        *old(fourth) == *final(third),
        call_ensures(
            ButtonLoop::handle_event,
            (fourth, LineEvent::Edge(GpioEdgeKind::Rising), released_again),
            steps[3],
        ),
        *old(fifth) == *final(fourth),
        call_ensures(ButtonLoop::handle_event, (fifth, LineEvent::NoEdge, after), steps[4]),
    ensures
        steps[0] is Again,
        steps[1] is Again,
        steps[2] is Again,
        released_again < released + times.twice ==> steps[3] == LoopStep::Perform(
            ButtonGesture::Twice,
        ),
        released_again >= released + times.twice ==> steps[3] == LoopStep::Perform(
            ButtonGesture::Click,
        ),
        steps[4] is Again,
        (*final(fourth))@ == new@,
{
}

/// On a new loop a falling edge performs nothing, and a wait without an edge performs a long
/// press once its time is over; the rising edge that follows performs nothing, and nor does
/// the clock after it. A rising edge that comes before any look at the clock performs the long
/// press itself.
pub proof fn a_new_loop_performs_a_long_press(
    times: TimeConfig,
    new: ButtonLoop,
    first: &mut ButtonLoop,
    second: &mut ButtonLoop,
    third: &mut ButtonLoop,
    fourth: &mut ButtonLoop,
    fifth: &mut ButtonLoop,
    pressed: Nanos,
    reported: Nanos,
    released: Nanos,
    after: Nanos,
    steps: Seq<LoopStep>,
)
    requires
        steps.len() == 5,
        reported >= pressed + times.press,
        call_ensures(ButtonLoop::new, (ButtonMode::Edge, times), new),
        *old(first) == new,
        call_ensures(
            ButtonLoop::handle_event,
            (first, LineEvent::Edge(GpioEdgeKind::Falling), pressed),
            steps[0],
        ),
        *old(second) == *final(first),
        call_ensures(ButtonLoop::handle_event, (second, LineEvent::NoEdge, reported), steps[1]),
        *old(third) == *final(second),
        call_ensures(
            ButtonLoop::handle_event,
            (third, LineEvent::Edge(GpioEdgeKind::Rising), released),
            steps[2],
        ),
        *old(fourth) == *final(third),
        call_ensures(ButtonLoop::handle_event, (fourth, LineEvent::NoEdge, after), steps[3]),
        *old(fifth) == *final(first),
        call_ensures(
            ButtonLoop::handle_event,
            (fifth, LineEvent::Edge(GpioEdgeKind::Rising), reported),
            steps[4],
        ),
    ensures
        steps[0] is Again,
        steps[1] == LoopStep::Perform(ButtonGesture::Press),
        steps[2] is Again,
        steps[3] is Again,
        (*final(third))@ == new@,
        steps[4] == LoopStep::Perform(ButtonGesture::Press),
        (*final(fifth))@ == new@,
{
}

/// On a new loop that polls, a line that is read high, then low and then high again, the low
/// and the high for 40 ms each, performs a click once the double click window is over, and
/// nothing before.
pub proof fn a_new_loop_performs_a_polled_click(
    times: TimeConfig,
    new: ButtonLoop,
    first: &mut ButtonLoop,
    second: &mut ButtonLoop,
    third: &mut ButtonLoop,
    fourth: &mut ButtonLoop,
    fifth: &mut ButtonLoop,
    sixth: &mut ButtonLoop,
    start: Nanos,
    low: Nanos,
    low_again: Nanos,
    high: Nanos,
    high_again: Nanos,
    later: Nanos,
    steps: Seq<LoopStep>,
)
    requires
        steps.len() == 6,
        low + 40_000_000 <= low_again <= high,
        high + 40_000_000 <= high_again < low_again + times.press,
        times.twice > 0,
        call_ensures(ButtonLoop::new, (ButtonMode::OutputPoll, times), new),
        *old(first) == new,
        call_ensures(ButtonLoop::handle_event, (first, LineEvent::Level(true), start), steps[0]),
        *old(second) == *final(first),
        call_ensures(ButtonLoop::handle_event, (second, LineEvent::Level(false), low), steps[1]),
        *old(third) == *final(second),
        call_ensures(
            ButtonLoop::handle_event,
            (third, LineEvent::Level(false), low_again),
            steps[2],
        ),
        *old(fourth) == *final(third),
        call_ensures(ButtonLoop::handle_event, (fourth, LineEvent::Level(true), high), steps[3]),
        *old(fifth) == *final(fourth),
        call_ensures(
            ButtonLoop::handle_event,
            (fifth, LineEvent::Level(true), high_again),
            steps[4],
        ),
        *old(sixth) == *final(fifth),
        call_ensures(ButtonLoop::handle_event, (sixth, LineEvent::Level(true), later), steps[5]),
    ensures
        steps[0] == (LoopStep::Pause { duration: 20_000_000 }),
        steps[1] == (LoopStep::Pause { duration: 20_000_000 }),
        steps[2] == (LoopStep::Pause { duration: 20_000_000 }),
        steps[3] == (LoopStep::Pause { duration: 20_000_000 }),
        steps[4] == (LoopStep::Pause { duration: 20_000_000 }),
        later < high_again + times.twice ==> steps[5] == (LoopStep::Pause { duration: 20_000_000 }),
        later >= high_again + times.twice ==> steps[5] == LoopStep::Perform(ButtonGesture::Click),
{
}

/// On a new loop that polls, a line that is read high and then low performs a long press once
/// it was read low for 40 ms and the long press time has passed since, and nothing before.
/// Going high again then performs nothing.
pub proof fn a_new_loop_performs_a_polled_long_press(
    times: TimeConfig,
    new: ButtonLoop,
    first: &mut ButtonLoop,
    second: &mut ButtonLoop,
    third: &mut ButtonLoop,
    fourth: &mut ButtonLoop,
    fifth: &mut ButtonLoop,
    sixth: &mut ButtonLoop,
    start: Nanos,
    low: Nanos,
    low_again: Nanos,
    later: Nanos,
    high: Nanos,
    high_again: Nanos,
    steps: Seq<LoopStep>,
)
    requires
        steps.len() == 6,
        low + 40_000_000 <= low_again,
        high + 40_000_000 <= high_again,
        times.press > 0,
        call_ensures(ButtonLoop::new, (ButtonMode::OutputPoll, times), new),
        *old(first) == new,
        call_ensures(ButtonLoop::handle_event, (first, LineEvent::Level(true), start), steps[0]),
        *old(second) == *final(first),
        call_ensures(ButtonLoop::handle_event, (second, LineEvent::Level(false), low), steps[1]),
        *old(third) == *final(second),
        call_ensures(
            ButtonLoop::handle_event,
            (third, LineEvent::Level(false), low_again),
            steps[2],
        ),
        *old(fourth) == *final(third),
        call_ensures(ButtonLoop::handle_event, (fourth, LineEvent::Level(false), later), steps[3]),
        *old(fifth) == *final(fourth),
        call_ensures(ButtonLoop::handle_event, (fifth, LineEvent::Level(true), high), steps[4]),
        *old(sixth) == *final(fifth),
        call_ensures(
            ButtonLoop::handle_event,
            (sixth, LineEvent::Level(true), high_again),
            steps[5],
        ),
    ensures
        steps[0] == (LoopStep::Pause { duration: 20_000_000 }),
        steps[1] == (LoopStep::Pause { duration: 20_000_000 }),
        steps[2] == (LoopStep::Pause { duration: 20_000_000 }),
        later < low_again + times.press ==> steps[3] == (LoopStep::Pause { duration: 20_000_000 }),
        later >= low_again + times.press ==> {
            &&& steps[3] == LoopStep::Perform(ButtonGesture::Press)
            &&& steps[4] == (LoopStep::Pause { duration: 20_000_000 })
            &&& steps[5] == (LoopStep::Pause { duration: 20_000_000 })
        },
{
}

/// On a new loop that polls, a line that was read low and high performs a double click when it
/// is read low and high again, each for 40 ms, and the second high counts inside the double
/// click window of the first.
pub proof fn a_new_loop_performs_a_polled_double_click(
    times: TimeConfig,
    new: ButtonLoop,
    first: &mut ButtonLoop,
    second: &mut ButtonLoop,
    third: &mut ButtonLoop,
    fourth: &mut ButtonLoop,
    fifth: &mut ButtonLoop,
    sixth: &mut ButtonLoop,
    seventh: &mut ButtonLoop,
    eighth: &mut ButtonLoop,
    ninth: &mut ButtonLoop,
    start: Nanos,
    low: Nanos,
    low_again: Nanos,
    high: Nanos,
    high_again: Nanos,
    second_low: Nanos,
    second_low_again: Nanos,
    second_high: Nanos,
    second_high_again: Nanos,
    steps: Seq<LoopStep>,
)
    requires
        steps.len() == 9,
        low + 40_000_000 <= low_again <= high,
        high + 40_000_000 <= high_again < low_again + times.press,
        high_again <= second_low,
        second_low + 40_000_000 <= second_low_again <= second_high,
        second_high + 40_000_000 <= second_high_again < high_again + times.twice,
        call_ensures(ButtonLoop::new, (ButtonMode::OutputPoll, times), new),
        *old(first) == new,
        call_ensures(ButtonLoop::handle_event, (first, LineEvent::Level(true), start), steps[0]),
        *old(second) == *final(first),
        call_ensures(ButtonLoop::handle_event, (second, LineEvent::Level(false), low), steps[1]),
        *old(third) == *final(second),
        call_ensures(
            ButtonLoop::handle_event,
            (third, LineEvent::Level(false), low_again),
            steps[2],
        ),
        *old(fourth) == *final(third),
        call_ensures(ButtonLoop::handle_event, (fourth, LineEvent::Level(true), high), steps[3]),
        *old(fifth) == *final(fourth),
        call_ensures(
            ButtonLoop::handle_event,
            (fifth, LineEvent::Level(true), high_again),
            steps[4],
        ),
        *old(sixth) == *final(fifth),
        call_ensures(
            ButtonLoop::handle_event,
            (sixth, LineEvent::Level(false), second_low),
            steps[5],
        ),
        *old(seventh) == *final(sixth),
        call_ensures(
            ButtonLoop::handle_event,
            (seventh, LineEvent::Level(false), second_low_again),
            steps[6],
        ),
        *old(eighth) == *final(seventh),
        call_ensures(
            ButtonLoop::handle_event,
            (eighth, LineEvent::Level(true), second_high),
            steps[7],
        ),
        *old(ninth) == *final(eighth),
        call_ensures(
            ButtonLoop::handle_event,
            (ninth, LineEvent::Level(true), second_high_again),
            steps[8],
        ),
    ensures
        steps[0] == (LoopStep::Pause { duration: 20_000_000 }),
        steps[1] == (LoopStep::Pause { duration: 20_000_000 }),
        steps[2] == (LoopStep::Pause { duration: 20_000_000 }),
        steps[3] == (LoopStep::Pause { duration: 20_000_000 }),
        steps[4] == (LoopStep::Pause { duration: 20_000_000 }),
        steps[5] == (LoopStep::Pause { duration: 20_000_000 }),
        steps[6] == (LoopStep::Pause { duration: 20_000_000 }),
        steps[7] == (LoopStep::Pause { duration: 20_000_000 }),
        steps[8] == LoopStep::Perform(ButtonGesture::Twice),
{
}

/// A round ends the loop exactly when a stop or a shutdown was asked for. Otherwise a loop
/// that polls reads the level, and one that waits for edges waits until the classifier has
/// something to report, and for 200 ms at most.
pub proof fn a_round_begins_as_the_mode_says(
    mode: ButtonMode,
    times: TimeConfig,
    new: ButtonLoop,
    pressed: &mut ButtonLoop,
    at: Nanos,
    now: Nanos,
    stop: bool,
    shutdown: bool,
    step: LoopStep,
    fresh_action: LineAction,
    action: LineAction,
)
    requires
        call_ensures(ButtonLoop::new, (mode, times), new),
        call_ensures(ButtonLoop::next_action, (&new, stop, shutdown, now), fresh_action),
        *old(pressed) == new,
        call_ensures(
            ButtonLoop::handle_event,
            (pressed, LineEvent::Edge(GpioEdgeKind::Falling), at),
            step,
        ),
        call_ensures(ButtonLoop::next_action, (&*final(pressed), stop, shutdown, now), action),
    ensures
        fresh_action is Stop <==> stop || shutdown,
        action is Stop <==> stop || shutdown,
        !stop && !shutdown && mode == ButtonMode::OutputPoll ==> fresh_action is ReadLevel && action
            is ReadLevel,
        !stop && !shutdown && mode == ButtonMode::Edge ==> {
            &&& fresh_action == (LineAction::WaitForEdge { timeout: 200_000_000 })
            &&& action matches LineAction::WaitForEdge { timeout } && timeout == if now >= at
                + times.press {
                0
            } else if at + times.press - now < 200_000_000 {
                at + times.press - now
            } else {
                200_000_000
            }
        },
{
}

/// Whatever state a loop is in, it stops exactly when it is asked to, and reads the level
/// where the line is polled. Otherwise it waits for an edge, for 200 ms, unless a gesture is
/// due earlier: then until that is due.
pub proof fn a_wait_ends_when_a_gesture_is_due(
    l: ButtonLoop,
    stop: bool,
    shutdown: bool,
    now: Nanos,
    action: LineAction,
)
    requires
        call_ensures(ButtonLoop::next_action, (&l, stop, shutdown, now), action),
    ensures
        action is Stop <==> stop || shutdown,
        action is ReadLevel <==> !stop && !shutdown && l@.mode == ButtonMode::OutputPoll,
        action matches LineAction::WaitForEdge { timeout } ==> {
            &&& timeout == edge_timeout(l@.edges, now as nat)
            &&& match l@.edges.phase {
                Phase::Idle => timeout == 200_000_000,
                Phase::Held { deadline } => waits_until(timeout as nat, deadline, now as nat),
                Phase::Clicked { deadline } => waits_until(timeout as nat, deadline, now as nat),
            }
        },
{
}

/// `timeout` ends at the deadline, at once where that has come, and after 200 ms where it is
/// farther.
pub open spec fn waits_until(timeout: nat, deadline: nat, now: nat) -> bool {
    &&& deadline <= now ==> timeout == 0
    &&& now < deadline <= now + 200_000_000 ==> now + timeout == deadline
    &&& deadline > now + 200_000_000 ==> timeout == 200_000_000
}

/// An error of the line and one of what a gesture called for end the loop with that very
/// error, and the first leaves the loop as it was. What went well ends the round.
pub proof fn an_error_ends_the_loop(
    failed: &mut ButtonLoop,
    line_error: String,
    l: ButtonLoop,
    error: String,
    now: Nanos,
    steps: Seq<LoopStep>,
)
    requires
        steps.len() == 3,
        call_ensures(
            ButtonLoop::handle_event,
            (failed, LineEvent::Failed(line_error), now),
            steps[0],
        ),
        call_ensures(ButtonLoop::performed, (&l, Err(error)), steps[1]),
        call_ensures(ButtonLoop::performed, (&l, Ok(())), steps[2]),
    ensures
        steps[0] matches LoopStep::Abort(text) && text@ == line_error@,
        final(failed)@ == old(failed)@,
        steps[1] matches LoopStep::Abort(text) && text@ == error@,
        ends_round(steps[2], l@.mode),
{
}

/// A new loop has both of its classifiers new, with the times that it was given, and the mode
/// that it was given.
pub proof fn a_new_loop_has_new_classifiers(
    mode: ButtonMode,
    times: TimeConfig,
    l: ButtonLoop,
    edges: ButtonClassifier,
    levels: OutputPollClassifier,
)
    requires
        call_ensures(ButtonLoop::new, (mode, times), l),
        call_ensures(ButtonClassifier::new, (times,), edges),
        call_ensures(OutputPollClassifier::new, (times,), levels),
    ensures
        l@.mode == mode,
        l@.edges == edges@,
        l@.levels == levels@,
        edges@.double_click == times.twice,
        edges@.long_press == times.press,
        at_rest(edges@),
        levels@.classifier == edges@,
        levels@.level is Unknown,
{
}

/// An event can always be handed to a loop as long as the deadlines that it may set can be
/// told.
pub proof fn an_event_can_be_handed_over(l: &mut ButtonLoop, event: LineEvent, now: Nanos)
    requires
        now + old(l)@.edges.double_click <= Nanos::MAX,
        now + old(l)@.edges.long_press <= Nanos::MAX,
        now + old(l)@.levels.classifier.double_click <= Nanos::MAX,
        now + old(l)@.levels.classifier.long_press <= Nanos::MAX,
    ensures
        call_requires(ButtonLoop::handle_event, (l, event, now)),
{
}

/// A button needs a chip and a line, and is requested at exactly these. Its edges count once
/// they have lasted 10 ms; a polled line is an output that starts high.
pub proof fn a_button_needs_a_chip_and_a_line(pins: PinMap, line: Option<ButtonLine>)
    requires
        call_ensures(button_line, (&pins,), line),
    ensures
        pins.button_chip is None || pins.button_line is None ==> line is None,
        pins.button_chip is Some && pins.button_line is Some ==> match line {
            Some(ButtonLine::InputEdges { chip: c, offset, debounce }) => {
                &&& pins.button_mode == ButtonMode::Edge
                &&& c@ == pins.button_chip->Some_0@
                &&& Some(offset) == pins.button_line
                &&& debounce == 10_000_000
            },
            Some(ButtonLine::Output { chip: c, offset, initial_active }) => {
                &&& pins.button_mode == ButtonMode::OutputPoll
                &&& c@ == pins.button_chip->Some_0@
                &&& Some(offset) == pins.button_line
                &&& initial_active
            },
            None => false,
        },
{
}

} // verus!
