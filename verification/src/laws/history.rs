//! Laws of whole histories of a button: of every sequence of edges, reads and looks at the
//! clock, whatever came before.

use crate::button::{
    after_edge, after_level, after_timeout, debounced, ButtonClassifier, ButtonEdge, ButtonGesture,
    ClassifierState, LevelState, OutputPollClassifier, Phase,
};
use crate::button_loop::{ButtonLoop, LineEvent, LoopStep};
use crate::config::{Nanos, TimeConfig};
use crate::env_file::ButtonMode;
use crate::gpio_cdev::GpioEdgeKind;
use crate::laws::button::at_rest;
use vstd::prelude::*;

verus! {

/// What a classifier is told.
pub enum Input {
    Edge(ButtonEdge),
    Clock,
}

/// Something that a classifier is told, and when.
pub struct Moment {
    pub input: Input,
    pub at: Nanos,
}

/// The state after a moment, and the gesture that is reported at it.
pub open spec fn react(s: ClassifierState, m: Moment) -> (ClassifierState, Option<ButtonGesture>) {
    match m.input {
        Input::Edge(edge) => after_edge(s, edge, m.at as nat),
        Input::Clock => after_timeout(s, m.at as nat),
    }
}

/// The state after a history.
pub open spec fn state_after(s: ClassifierState, history: Seq<Moment>) -> ClassifierState
    decreases history.len(),
{
    if history.len() == 0 {
        s
    } else {
        react(state_after(s, history.drop_last()), history.last()).0
    }
}

/// The gesture that is reported at moment `i` of a history.
pub open spec fn report_at(s: ClassifierState, history: Seq<Moment>, i: int) -> Option<
    ButtonGesture,
> {
    react(state_after(s, history.take(i)), history[i]).1
}

pub open spec fn is_press(m: Moment) -> bool {
    m.input == Input::Edge(ButtonEdge::Pressed)
}

pub open spec fn is_release(m: Moment) -> bool {
    m.input == Input::Edge(ButtonEdge::Released)
}

/// Nothing is reported from moment `i` on.
pub open spec fn quiet_since(s: ClassifierState, history: Seq<Moment>, i: int) -> bool {
    forall|k: int| i <= k < history.len() ==> (#[trigger] report_at(s, history, k)) is None
}

/// Moment `i` is a release, the last one, and since then nothing was reported and all that
/// happened came within `time`.
pub open spec fn released_within(
    s: ClassifierState,
    history: Seq<Moment>,
    i: int,
    time: nat,
) -> bool {
    &&& 0 <= i < history.len()
    &&& is_release(history[i])
    &&& quiet_since(s, history, i)
    &&& forall|k: int|
        i < k < history.len() ==> !is_release(#[trigger] history[k]) && history[k].at
            < history[i].at + time
}

/// Moment `i` is a press, the last one, and since then nothing was reported and all that
/// happened came within `time`.
pub open spec fn pressed_within(
    s: ClassifierState,
    history: Seq<Moment>,
    i: int,
    time: nat,
) -> bool {
    &&& 0 <= i < history.len()
    &&& is_press(history[i])
    &&& quiet_since(s, history, i)
    &&& forall|k: int|
        i < k < history.len() ==> !is_press(#[trigger] history[k]) && history[k].at < history[i].at
            + time
}

/// Moment `i` reported a long press that was not yet let go of.
pub open spec fn owes_release(s: ClassifierState, history: Seq<Moment>, i: int) -> bool {
    &&& 0 <= i < history.len()
    &&& report_at(s, history, i) == Some(ButtonGesture::Press)
    &&& !is_release(history[i])
}

proof fn lemma_earlier_reports(s: ClassifierState, history: Seq<Moment>)
    requires
        history.len() > 0,
    ensures
        forall|k: int|
            0 <= k < history.len() - 1 ==> report_at(s, history, k) == #[trigger] report_at(
                s,
                history.drop_last(),
                k,
            ),
        history.take(history.len() - 1) =~= history.drop_last(),
        report_at(s, history, history.len() - 1) == react(
            state_after(s, history.drop_last()),
            history.last(),
        ).1,
{
    assert forall|k: int| 0 <= k < history.len() - 1 implies report_at(s, history, k)
        == #[trigger] report_at(s, history.drop_last(), k) by {
        assert(history.take(k) =~= history.drop_last().take(k));
    }
    assert(history.take(history.len() - 1) =~= history.drop_last());
}

/// Whatever happened, a classifier that began at rest waits for the end of a click only
/// where a release opened its window, and for a long press only where a press began it. The
/// deadline counts from that release or press, and nothing that came later moved it.
pub proof fn a_deadline_counts_from_its_edge(s: ClassifierState, history: Seq<Moment>)
    requires
        at_rest(s),
    ensures
        ({
            let now = state_after(s, history);
            &&& now.double_click == s.double_click
            &&& now.long_press == s.long_press
            &&& now.ignore_release ==> exists|i: int| owes_release(s, history, i)
            &&& now.phase matches Phase::Clicked { deadline } ==> {
                &&& !now.ignore_release
                &&& exists|i: int|
                    #[trigger] released_within(s, history, i, s.double_click) && deadline
                        == history[i].at + s.double_click
            }
            &&& now.phase matches Phase::Held { deadline } ==> exists|i: int|
                #[trigger] pressed_within(s, history, i, s.long_press) && deadline
                    == history[i].at + s.long_press
        }),
    decreases history.len(),
{
    if history.len() > 0 {
        let before = history.drop_last();
        let n = before.len() as int;
        let was = state_after(s, before);
        let now = state_after(s, history);
        let m = history.last();
        a_deadline_counts_from_its_edge(s, before);
        lemma_earlier_reports(s, history);
        if now.ignore_release {
            if was.ignore_release {
                let i = choose|i: int| owes_release(s, before, i);
                assert(owes_release(s, history, i));
            } else {
                assert(owes_release(s, history, n));
            }
        }
        if now.phase is Clicked {
            let deadline = now.phase->Clicked_deadline;
            if was.phase is Clicked {
                let i = choose|i: int|
                    #[trigger] released_within(s, before, i, s.double_click) && deadline
                        == before[i].at + s.double_click;
                assert forall|k: int| i <= k < history.len() implies (#[trigger] report_at(
                    s,
                    history,
                    k,
                )) is None by {
                    if k < n {
                        assert(report_at(s, before, k) is None);
                    }
                }
                assert forall|k: int| i < k < history.len() implies !is_release(
                    #[trigger] history[k],
                ) && history[k].at < history[i].at + s.double_click by {
                    if k < n {
                        assert(before[k] == history[k]);
                    }
                }
                assert(released_within(s, history, i, s.double_click));
            } else {
                assert(released_within(s, history, n, s.double_click));
            }
        }
        if now.phase is Held {
            let deadline = now.phase->Held_deadline;
            if is_press(m) {
                assert(pressed_within(s, history, n, s.long_press));
            } else {
                let i = choose|i: int|
                    #[trigger] pressed_within(s, before, i, s.long_press) && deadline
                        == before[i].at + s.long_press;
                assert forall|k: int| i <= k < history.len() implies (#[trigger] report_at(
                    s,
                    history,
                    k,
                )) is None by {
                    if k < n {
                        assert(report_at(s, before, k) is None);
                    }
                }
                assert forall|k: int| i < k < history.len() implies !is_press(
                    #[trigger] history[k],
                ) && history[k].at < history[i].at + s.long_press by {
                    if k < n {
                        assert(before[k] == history[k]);
                    }
                }
                assert(pressed_within(s, history, i, s.long_press));
            }
        }
    }
}

/// Whatever happened, a double click is reported at a release, and only where another
/// release came before it, less than the double click time ago, with no release and no
/// report in between.
pub proof fn a_double_click_is_two_close_releases(
    s: ClassifierState,
    history: Seq<Moment>,
    m: Moment,
)
    requires
        at_rest(s),
        react(state_after(s, history), m).1 == Some(ButtonGesture::Twice),
    ensures
        is_release(m),
        exists|i: int|
            #[trigger] released_within(s, history, i, s.double_click) && m.at < history[i].at
                + s.double_click,
{
    a_deadline_counts_from_its_edge(s, history);
}

/// Whatever happened, a click is reported only where a release came the double click time
/// ago or earlier, with no release and no report since.
pub proof fn a_click_is_a_release_long_ago(s: ClassifierState, history: Seq<Moment>, m: Moment)
    requires
        at_rest(s),
        react(state_after(s, history), m).1 == Some(ButtonGesture::Click),
    ensures
        exists|i: int|
            #[trigger] released_within(s, history, i, s.double_click) && m.at >= history[i].at
                + s.double_click,
{
    a_deadline_counts_from_its_edge(s, history);
}

/// Whatever happened, a long press is reported only where a press came the long press time
/// ago or earlier, with no press and no report since.
pub proof fn a_long_press_is_a_press_long_ago(s: ClassifierState, history: Seq<Moment>, m: Moment)
    requires
        at_rest(s),
        react(state_after(s, history), m).1 == Some(ButtonGesture::Press),
    ensures
        exists|i: int|
            #[trigger] pressed_within(s, history, i, s.long_press) && m.at >= history[i].at
                + s.long_press,
{
    a_deadline_counts_from_its_edge(s, history);
}

proof fn lemma_run(
    times: TimeConfig,
    run: Seq<ButtonClassifier>,
    history: Seq<Moment>,
    reports: Seq<Option<ButtonGesture>>,
    n: int,
)
    requires
        run.len() == history.len() + 1,
        reports.len() == history.len(),
        call_ensures(ButtonClassifier::new, (times,), run[0]),
        forall|i: int|
            #![trigger history[i]]
            0 <= i < history.len() ==> exists|c: &mut ButtonClassifier|
                *c == run[i] && *final(c) == run[i + 1] && match history[i].input {
                    Input::Edge(edge) => call_ensures(
                        ButtonClassifier::handle_edge,
                        (c, edge, history[i].at),
                        reports[i],
                    ),
                    Input::Clock => call_ensures(
                        ButtonClassifier::handle_timeout,
                        (c, history[i].at),
                        reports[i],
                    ),
                },
        0 <= n <= history.len(),
    ensures
        at_rest(run[0]@),
        run[0]@.double_click == times.twice,
        run[0]@.long_press == times.press,
        run[n]@ == state_after(run[0]@, history.take(n)),
        forall|k: int|
            0 <= k < n ==> #[trigger] reports[k] == report_at(run[0]@, history, k),
    decreases n,
{
    if n > 0 {
        lemma_run(times, run, history, reports, n - 1);
        let m = history[n - 1];
        assert(history.take(n).drop_last() =~= history.take(n - 1));
        assert((run[n]@, reports[n - 1]) == react(run[n - 1]@, m));
    }
}

/// In every run of calls on a new classifier, with any edges and looks at the clock at any
/// times, each report is earned. A double click comes at a release, less than the configured
/// time after another one. A click comes that time or more after a release, a long press its
/// own time or more after a press. In each case nothing was reported since that edge, and no
/// edge of its kind came in between.
pub proof fn every_report_is_earned(
    times: TimeConfig,
    run: Seq<ButtonClassifier>,
    history: Seq<Moment>,
    reports: Seq<Option<ButtonGesture>>,
    n: int,
)
    requires
        run.len() == history.len() + 1,
        reports.len() == history.len(),
        call_ensures(ButtonClassifier::new, (times,), run[0]),
        forall|i: int|
            #![trigger history[i]]
            0 <= i < history.len() ==> exists|c: &mut ButtonClassifier|
                *c == run[i] && *final(c) == run[i + 1] && match history[i].input {
                    Input::Edge(edge) => call_ensures(
                        ButtonClassifier::handle_edge,
                        (c, edge, history[i].at),
                        reports[i],
                    ),
                    Input::Clock => call_ensures(
                        ButtonClassifier::handle_timeout,
                        (c, history[i].at),
                        reports[i],
                    ),
                },
        0 <= n < history.len(),
        reports[n] is Some,
    ensures
        exists|i: int|
            #![trigger history[i]]
            {
                &&& 0 <= i < n
                &&& forall|k: int| i <= k < n ==> (#[trigger] reports[k]) is None
                &&& match reports[n]->Some_0 {
                    ButtonGesture::Twice => {
                        &&& is_release(history[n])
                        &&& is_release(history[i])
                        &&& history[n].at < history[i].at + times.twice
                        &&& forall|k: int| i < k < n ==> !is_release(#[trigger] history[k])
                    },
                    ButtonGesture::Click => {
                        &&& is_release(history[i])
                        &&& history[n].at >= history[i].at + times.twice
                        &&& forall|k: int| i < k < n ==> !is_release(#[trigger] history[k])
                    },
                    ButtonGesture::Press => {
                        &&& is_press(history[i])
                        &&& history[n].at >= history[i].at + times.press
                        &&& forall|k: int| i < k < n ==> !is_press(#[trigger] history[k])
                    },
                }
            },
{
    let s = run[0]@;
    let before = history.take(n);
    lemma_run(times, run, history, reports, n);
    lemma_run(times, run, history, reports, n + 1);
    a_deadline_counts_from_its_edge(s, before);
    let i = if reports[n] == Some(ButtonGesture::Press) {
        choose|i: int|
            #[trigger] pressed_within(s, before, i, s.long_press) && state_after(
                s,
                before,
            ).phase->Held_deadline == before[i].at + s.long_press
    } else {
        choose|i: int|
            #[trigger] released_within(s, before, i, s.double_click) && state_after(
                s,
                before,
            ).phase->Clicked_deadline == before[i].at + s.double_click
    };
    assert(before[i] == history[i]);
    assert forall|k: int| i <= k < n implies (#[trigger] reports[k]) is None by {
        assert(before.take(k) =~= history.take(k));
        assert(report_at(s, before, k) is None);
    }
    assert forall|k: int| i < k < n implies before[k] == #[trigger] history[k] by {
    }
}

/// What the line shows of an input: a press pulls it low, a release lets it go high, and a
/// look at the clock follows a wait without an edge.
pub open spec fn line_event(input: Input) -> LineEvent {
    match input {
        Input::Edge(ButtonEdge::Pressed) => LineEvent::Edge(GpioEdgeKind::Falling),
        Input::Edge(ButtonEdge::Released) => LineEvent::Edge(GpioEdgeKind::Rising),
        Input::Clock => LineEvent::NoEdge,
    }
}

/// At moment `i` a loop that waits for edges followed its classifier.
spec fn followed(
    run: Seq<ButtonLoop>,
    history: Seq<Moment>,
    steps: Seq<LoopStep>,
    i: int,
) -> bool {
    run[i]@.mode == ButtonMode::Edge ==> {
        &&& run[i + 1]@.mode == ButtonMode::Edge
        &&& run[i + 1]@.edges == react(run[i]@.edges, history[i]).0
        &&& steps[i] == match react(run[i]@.edges, history[i]).1 {
            Some(gesture) => LoopStep::Perform(gesture),
            None => LoopStep::Again,
        }
    }
}

proof fn lemma_followed(
    run: Seq<ButtonLoop>,
    history: Seq<Moment>,
    steps: Seq<LoopStep>,
    i: int,
)
    requires
        exists|l: &mut ButtonLoop|
            *l == run[i] && *final(l) == run[i + 1] && call_ensures(
                ButtonLoop::handle_event,
                (l, line_event(history[i].input), history[i].at),
                steps[i],
            ),
    ensures
        followed(run, history, steps, i),
{
    match history[i].input {
        Input::Edge(ButtonEdge::Pressed) => {
            assert(line_event(history[i].input) == LineEvent::Edge(GpioEdgeKind::Falling));
        },
        Input::Edge(ButtonEdge::Released) => {
            assert(line_event(history[i].input) == LineEvent::Edge(GpioEdgeKind::Rising));
        },
        Input::Clock => {
            assert(line_event(history[i].input) is NoEdge);
        },
    }
}

proof fn lemma_loop_run(
    run: Seq<ButtonLoop>,
    history: Seq<Moment>,
    steps: Seq<LoopStep>,
    n: int,
)
    requires
        run[0]@.mode == ButtonMode::Edge,
        forall|i: int| 0 <= i < history.len() ==> #[trigger] followed(run, history, steps, i),
        0 <= n <= history.len(),
    ensures
        run[n]@.mode == ButtonMode::Edge,
        run[n]@.edges == state_after(run[0]@.edges, history.take(n)),
        forall|k: int|
            0 <= k < n ==> #[trigger] steps[k] == match report_at(run[0]@.edges, history, k) {
                Some(gesture) => LoopStep::Perform(gesture),
                None => LoopStep::Again,
            },
    decreases n,
{
    if n > 0 {
        lemma_loop_run(run, history, steps, n - 1);
        assert(history.take(n).drop_last() =~= history.take(n - 1));
        assert(followed(run, history, steps, n - 1));
    }
}

proof fn lemma_performed(
    times: TimeConfig,
    run: Seq<ButtonLoop>,
    history: Seq<Moment>,
    steps: Seq<LoopStep>,
    n: int,
)
    requires
        run[0]@.mode == ButtonMode::Edge,
        at_rest(run[0]@.edges),
        run[0]@.edges.double_click == times.twice,
        run[0]@.edges.long_press == times.press,
        forall|i: int| 0 <= i < history.len() ==> #[trigger] followed(run, history, steps, i),
        0 <= n < history.len(),
        steps[n] is Perform,
    ensures
        exists|i: int|
            #![trigger history[i]]
            {
                &&& 0 <= i < n
                &&& forall|k: int| i <= k < n ==> (#[trigger] steps[k]) is Again
                &&& match steps[n]->Perform_0 {
                    ButtonGesture::Twice => {
                        &&& is_release(history[n])
                        &&& is_release(history[i])
                        &&& history[n].at < history[i].at + times.twice
                        &&& forall|k: int| i < k < n ==> !is_release(#[trigger] history[k])
                    },
                    ButtonGesture::Click => {
                        &&& is_release(history[i])
                        &&& history[n].at >= history[i].at + times.twice
                        &&& forall|k: int| i < k < n ==> !is_release(#[trigger] history[k])
                    },
                    ButtonGesture::Press => {
                        &&& is_press(history[i])
                        &&& history[n].at >= history[i].at + times.press
                        &&& forall|k: int| i < k < n ==> !is_press(#[trigger] history[k])
                    },
                }
            },
{
    let s = run[0]@.edges;
    let before = history.take(n);
    lemma_loop_run(run, history, steps, n);
    lemma_loop_run(run, history, steps, n + 1);
    a_deadline_counts_from_its_edge(s, before);
    let i = if steps[n]->Perform_0 == ButtonGesture::Press {
        choose|i: int|
            #[trigger] pressed_within(s, before, i, s.long_press) && state_after(
                s,
                before,
            ).phase->Held_deadline == before[i].at + s.long_press
    } else {
        choose|i: int|
            #[trigger] released_within(s, before, i, s.double_click) && state_after(
                s,
                before,
            ).phase->Clicked_deadline == before[i].at + s.double_click
    };
    assert(before[i] == history[i]);
    assert forall|k: int| i <= k < n implies (#[trigger] steps[k]) is Again by {
        assert(before.take(k) =~= history.take(k));
        assert(report_at(s, before, k) is None);
    }
    assert forall|k: int| i < k < n implies before[k] == #[trigger] history[k] by {
    }
}

/// In every run of a new loop that waits for edges, whatever edges come at whatever times, each
/// gesture that is performed is earned. A double click is performed at a rising edge, less than
/// the configured time after another one. A click is performed that time or more after a rising
/// edge, a long press its own time or more after a falling one. In each case nothing was
/// performed since that edge, and no edge of its kind came in between.
pub proof fn every_performed_gesture_is_earned(
    times: TimeConfig,
    run: Seq<ButtonLoop>,
    history: Seq<Moment>,
    steps: Seq<LoopStep>,
    n: int,
)
    requires
        run.len() == history.len() + 1,
        steps.len() == history.len(),
        call_ensures(ButtonLoop::new, (ButtonMode::Edge, times), run[0]),
        forall|i: int|
            #![trigger history[i]]
            0 <= i < history.len() ==> exists|l: &mut ButtonLoop|
                *l == run[i] && *final(l) == run[i + 1] && call_ensures(
                    ButtonLoop::handle_event,
                    (l, line_event(history[i].input), history[i].at),
                    steps[i],
                ),
        0 <= n < history.len(),
        steps[n] is Perform,
    ensures
        exists|i: int|
            #![trigger history[i]]
            {
                &&& 0 <= i < n
                &&& forall|k: int| i <= k < n ==> (#[trigger] steps[k]) is Again
                &&& match steps[n]->Perform_0 {
                    ButtonGesture::Twice => {
                        &&& is_release(history[n])
                        &&& is_release(history[i])
                        &&& history[n].at < history[i].at + times.twice
                        &&& forall|k: int| i < k < n ==> !is_release(#[trigger] history[k])
                    },
                    ButtonGesture::Click => {
                        &&& is_release(history[i])
                        &&& history[n].at >= history[i].at + times.twice
                        &&& forall|k: int| i < k < n ==> !is_release(#[trigger] history[k])
                    },
                    ButtonGesture::Press => {
                        &&& is_press(history[i])
                        &&& history[n].at >= history[i].at + times.press
                        &&& forall|k: int| i < k < n ==> !is_press(#[trigger] history[k])
                    },
                }
            },
{
    assert forall|i: int| 0 <= i < history.len() implies #[trigger] followed(
        run,
        history,
        steps,
        i,
    ) by {
        lemma_followed(run, history, steps, i);
    }
    lemma_performed(times, run, history, steps, n);
}

/// A read of the line, and when.
pub struct Read {
    pub level: bool,
    pub at: Nanos,
}

/// What is known of the level after a sequence of reads.
pub open spec fn level_after(reads: Seq<Read>) -> LevelState
    decreases reads.len(),
{
    if reads.len() == 0 {
        LevelState::Unknown
    } else {
        debounced(level_after(reads.drop_last()), reads.last().level, reads.last().at as nat).0
    }
}

/// The level changed at read `i`, and every read since was of the new level.
pub open spec fn changed_at(reads: Seq<Read>, i: int) -> bool {
    &&& 0 < i < reads.len()
    &&& reads[i - 1].level != reads[i].level
    &&& forall|k: int| i <= k < reads.len() ==> (#[trigger] reads[k]).level == reads[i].level
}

/// Whatever was read, the level is settled only on the one read last, and changing only where
/// all reads since the change began were of the other level.
pub proof fn a_change_counts_from_its_first_read(reads: Seq<Read>)
    ensures
        level_after(reads) is Unknown <==> reads.len() == 0,
        level_after(reads) matches LevelState::Settled { level } ==> reads.last().level == level,
        level_after(reads) matches LevelState::Changing { level, since } ==> exists|i: int|
            #[trigger] changed_at(reads, i) && reads[i].level != level && reads[i].at == since,
    decreases reads.len(),
{
    if reads.len() > 0 {
        let before = reads.drop_last();
        let n = before.len() as int;
        a_change_counts_from_its_first_read(before);
        if level_after(reads) is Changing {
            let level = level_after(reads)->Changing_level;
            let since = level_after(reads)->Changing_since;
            if level_after(before) is Changing {
                let i = choose|i: int|
                    #[trigger] changed_at(before, i) && before[i].level != level && before[i].at
                        == since;
                assert forall|k: int| i <= k < reads.len() implies (#[trigger] reads[k]).level
                    == reads[i].level by {
                    if k < n {
                        assert(before[k] == reads[k]);
                    }
                }
                assert(changed_at(reads, i));
            } else {
                assert(before.last() == reads[n - 1]);
                assert(changed_at(reads, n));
            }
        }
    }
}

/// Whatever was read, a read confirms an edge only where all reads of the 40 ms before it,
/// one at least, were of the same level, and a read of the other level came before those. The
/// edge is a press where the level is low, and a release where it is high.
pub proof fn an_edge_needs_a_lasting_level(reads: Seq<Read>, read: Read)
    requires
        forall|i: int, j: int|
            0 <= i <= j < reads.len() ==> (#[trigger] reads[i]).at <= (#[trigger] reads[j]).at,
        debounced(level_after(reads), read.level, read.at as nat).1 is Some,
    ensures
        exists|i: int| #[trigger]
            changed_at(reads, i) && reads[i].level == read.level && reads[i].at + 40_000_000
                <= read.at,
        forall|k: int|
            0 <= k < reads.len() && (#[trigger] reads[k]).at + 40_000_000 > read.at
                ==> reads[k].level == read.level,
        debounced(level_after(reads), read.level, read.at as nat).1 == Some(
            if read.level {
                ButtonEdge::Released
            } else {
                ButtonEdge::Pressed
            },
        ),
{
    a_change_counts_from_its_first_read(reads);
}

/// In every run of calls on a new polling classifier, nothing is reported as long as no new
/// level was read for 40 ms: a line that never changes reports nothing, and neither does one
/// that only flickers.
pub proof fn a_flickering_line_reports_nothing(
    times: TimeConfig,
    run: Seq<OutputPollClassifier>,
    reads: Seq<Read>,
    reports: Seq<Option<ButtonGesture>>,
    n: int,
)
    requires
        run.len() == reads.len() + 1,
        reports.len() == reads.len(),
        call_ensures(OutputPollClassifier::new, (times,), run[0]),
        forall|i: int|
            #![trigger reads[i]]
            0 <= i < reads.len() ==> exists|c: &mut OutputPollClassifier|
                *c == run[i] && *final(c) == run[i + 1] && call_ensures(
                    OutputPollClassifier::handle_level,
                    (c, reads[i].level, reads[i].at),
                    reports[i],
                ),
        forall|i: int, j: int|
            0 <= j < reads.len() && #[trigger] changed_at(reads.take(j), i) && reads[i].level
                == (#[trigger] reads[j]).level ==> reads[j].at < reads[i].at + 40_000_000,
        0 <= n <= reads.len(),
    ensures
        run[n]@.level == level_after(reads.take(n)),
        at_rest(run[n]@.classifier),
        forall|k: int| 0 <= k < n ==> (#[trigger] reports[k]) is None,
    decreases n,
{
    if n > 0 {
        let before = reads.take(n - 1);
        a_flickering_line_reports_nothing(times, run, reads, reports, n - 1);
        a_change_counts_from_its_first_read(before);
        assert(reads.take(n).drop_last() =~= before);
        let read = reads[n - 1];
        assert((run[n]@, reports[n - 1]) == after_level(run[n - 1]@, read.level, read.at as nat));
        if debounced(run[n - 1]@.level, read.level, read.at as nat).1 is Some {
            let since = run[n - 1]@.level->Changing_since;
            let stable = run[n - 1]@.level->Changing_level;
            let i = choose|i: int|
                #[trigger] changed_at(before, i) && before[i].level != stable && before[i].at
                    == since;
            assert(before[i] == reads[i]);
            assert(false);
        }
    }
}

} // verus!
