//! Laws of the button gestures.

use crate::button::{
    after_edge, after_level, after_timeout, deadline_of, debounced, edge_to, time_left,
    ButtonClassifier, ButtonEdge, ButtonGesture, ClassifierState, LevelState, OutputPollClassifier,
    OutputPollState, Phase, OUTPUT_POLL_DEBOUNCE,
};
use crate::button_loop::{
    after_event, edge_timeout, LineEvent, LoopState, SHUTDOWN_POLL_INTERVAL,
};
use crate::config::{Nanos, TimeConfig};
use vstd::prelude::*;

verus! {

/// The classifier waits for a gesture to begin, and owes no release.
pub open spec fn at_rest(s: ClassifierState) -> bool {
    s.phase is Idle && !s.ignore_release
}

/// A press and a release before the press is a long one, then nothing until the double click
/// window is over, is one click. It is reported then and not before, and leaves the
/// classifier at rest.
pub proof fn single_click(
    s: ClassifierState,
    pressed: nat,
    released: nat,
    early: nat,
    reported: nat,
)
    requires
        at_rest(s),
        released < pressed + s.long_press,
        early < released + s.double_click <= reported,
    ensures
        ({
            let (s1, g1) = after_edge(s, ButtonEdge::Pressed, pressed);
            let (s2, g2) = after_edge(s1, ButtonEdge::Released, released);
            &&& g1 is None
            &&& g2 is None
            &&& after_timeout(s2, early) == (s2, None::<ButtonGesture>)
            &&& after_timeout(s2, reported) == (s, Some(ButtonGesture::Click))
        }),
{
}

/// A second press and release within the double click window is a double click. It is
/// reported at the second release, and leaves the classifier at rest.
pub proof fn double_click(
    s: ClassifierState,
    pressed: nat,
    released: nat,
    pressed_again: nat,
    released_again: nat,
)
    requires
        at_rest(s),
        released < pressed + s.long_press,
        pressed_again < released + s.double_click,
        released_again < released + s.double_click,
    ensures
        ({
            let (s1, g1) = after_edge(s, ButtonEdge::Pressed, pressed);
            let (s2, g2) = after_edge(s1, ButtonEdge::Released, released);
            let (s3, g3) = after_edge(s2, ButtonEdge::Pressed, pressed_again);
            &&& g1 is None
            &&& g2 is None
            &&& g3 is None
            &&& after_edge(s3, ButtonEdge::Released, released_again) == (
                s,
                Some(ButtonGesture::Twice),
            )
        }),
{
}

/// A press that lasts is a long press. It is reported once its time is over and not before;
/// the release that follows, whenever it comes, is ignored and leaves the classifier at rest.
pub proof fn long_press(
    s: ClassifierState,
    pressed: nat,
    early: nat,
    reported: nat,
    released: nat,
)
    requires
        at_rest(s),
        early < pressed + s.long_press <= reported,
    ensures
        ({
            let (s1, g1) = after_edge(s, ButtonEdge::Pressed, pressed);
            let (s2, g2) = after_timeout(s1, reported);
            &&& g1 is None
            &&& after_timeout(s1, early) == (s1, None::<ButtonGesture>)
            &&& g2 == Some(ButtonGesture::Press)
            &&& after_edge(s2, ButtonEdge::Released, released) == (s, None::<ButtonGesture>)
        }),
{
}

/// A release that comes when the time of a long press is over, before anybody looked at the
/// clock, reports the long press and is used up by it: the classifier is at rest.
pub proof fn late_release(s: ClassifierState, pressed: nat, released: nat)
    requires
        at_rest(s),
        released >= pressed + s.long_press,
    ensures
        ({
            let (s1, g1) = after_edge(s, ButtonEdge::Pressed, pressed);
            &&& g1 is None
            &&& after_edge(s1, ButtonEdge::Released, released) == (s, Some(ButtonGesture::Press))
        }),
{
}

/// A press inside the double click window does not move its end. After a press, a release and
/// a second press, the click is due the double click time after the first release: a look at
/// the clock or an edge from then on reports it, and a release reports a double click only
/// before then.
pub proof fn a_second_press_does_not_move_the_window(
    s: ClassifierState,
    pressed: nat,
    released: nat,
    pressed_again: nat,
    later: nat,
    edge: ButtonEdge,
)
    requires
        at_rest(s),
        released < pressed + s.long_press,
        pressed_again < released + s.double_click,
    ensures
        ({
            let s1 = after_edge(s, ButtonEdge::Pressed, pressed).0;
            let s2 = after_edge(s1, ButtonEdge::Released, released).0;
            let (s3, g3) = after_edge(s2, ButtonEdge::Pressed, pressed_again);
            &&& s3 == s2
            &&& g3 is None
            &&& later >= released + s.double_click ==> {
                &&& after_timeout(s3, later) == (s, Some(ButtonGesture::Click))
                &&& after_edge(s3, edge, later) == (s, Some(ButtonGesture::Click))
            }
            &&& later < released + s.double_click ==> {
                &&& after_timeout(s3, later) == (s3, None::<ButtonGesture>)
                &&& after_edge(s3, ButtonEdge::Released, later) == (
                    s,
                    Some(ButtonGesture::Twice),
                )
                &&& time_left(s3, later) == Some((released + s.double_click - later) as nat)
            }
        }),
{
}

/// Where no gesture has begun, a press begins one that is a long press after its time, a
/// release opens the double click window, unless it belongs to a long press that was reported,
/// and the clock reports nothing.
pub proof fn from_idle(s: ClassifierState, now: nat)
    requires
        s.phase is Idle,
    ensures
        after_edge(s, ButtonEdge::Pressed, now) == (
            ClassifierState { phase: Phase::Held { deadline: now + s.long_press }, ..s },
            None::<ButtonGesture>,
        ),
        !s.ignore_release ==> after_edge(s, ButtonEdge::Released, now) == (
            ClassifierState { phase: Phase::Clicked { deadline: now + s.double_click }, ..s },
            None::<ButtonGesture>,
        ),
        s.ignore_release ==> after_edge(s, ButtonEdge::Released, now) == (
            ClassifierState { ignore_release: false, ..s },
            None::<ButtonGesture>,
        ),
        after_timeout(s, now) == (s, None::<ButtonGesture>),
        time_left(s, now) is None,
{
}

/// While the button is held, another press begins the wait anew, and a release opens the double
/// click window, unless it belongs to a long press that was reported. Once the time is over,
/// whatever comes reports the long press, and only a release leaves none to be ignored.
pub proof fn from_held(s: ClassifierState, deadline: nat, now: nat)
    requires
        s.phase == (Phase::Held { deadline }),
    ensures
        now < deadline ==> {
            &&& after_edge(s, ButtonEdge::Pressed, now) == (
                ClassifierState { phase: Phase::Held { deadline: now + s.long_press }, ..s },
                None::<ButtonGesture>,
            )
            &&& !s.ignore_release ==> after_edge(s, ButtonEdge::Released, now) == (
                ClassifierState { phase: Phase::Clicked { deadline: now + s.double_click }, ..s },
                None::<ButtonGesture>,
            )
            &&& s.ignore_release ==> after_edge(s, ButtonEdge::Released, now) == (
                ClassifierState { ignore_release: false, ..s },
                None::<ButtonGesture>,
            )
            &&& after_timeout(s, now) == (s, None::<ButtonGesture>)
            &&& time_left(s, now) == Some((deadline - now) as nat)
        },
        now >= deadline ==> {
            let over = ClassifierState { phase: Phase::Idle, ignore_release: true, ..s };
            &&& after_edge(s, ButtonEdge::Pressed, now) == (over, Some(ButtonGesture::Press))
            &&& after_edge(s, ButtonEdge::Released, now) == (
                ClassifierState { phase: Phase::Idle, ..s },
                Some(ButtonGesture::Press),
            )
            &&& after_timeout(s, now) == (over, Some(ButtonGesture::Press))
            &&& time_left(s, now) == Some(0nat)
        },
{
}

/// Inside the double click window a press changes nothing, and a release completes the double
/// click, unless it belongs to a long press that was reported. Once the window is over,
/// whatever comes reports the click.
pub proof fn from_clicked(s: ClassifierState, deadline: nat, now: nat, edge: ButtonEdge)
    requires
        s.phase == (Phase::Clicked { deadline }),
    ensures
        now < deadline ==> {
            &&& after_edge(s, ButtonEdge::Pressed, now) == (s, None::<ButtonGesture>)
            &&& !s.ignore_release ==> after_edge(s, ButtonEdge::Released, now) == (
                ClassifierState { phase: Phase::Idle, ..s },
                Some(ButtonGesture::Twice),
            )
            &&& s.ignore_release ==> after_edge(s, ButtonEdge::Released, now) == (
                ClassifierState { ignore_release: false, ..s },
                None::<ButtonGesture>,
            )
            &&& after_timeout(s, now) == (s, None::<ButtonGesture>)
            &&& time_left(s, now) == Some((deadline - now) as nat)
        },
        now >= deadline ==> {
            let over = ClassifierState { phase: Phase::Idle, ..s };
            &&& after_edge(s, edge, now) == (over, Some(ButtonGesture::Click))
            &&& after_timeout(s, now) == (over, Some(ButtonGesture::Click))
            &&& time_left(s, now) == Some(0nat)
        },
{
}

/// Calls on a new classifier: after a press, a release before the long press time and a second
/// press inside the double click window, the clock and a second release agree on when the
/// window of the first release is over. Until then the release is a double click and the clock
/// reports nothing, from then on each reports the click.
pub proof fn a_new_classifier_keeps_its_window(
    times: TimeConfig,
    new: ButtonClassifier,
    first: &mut ButtonClassifier,
    second: &mut ButtonClassifier,
    third: &mut ButtonClassifier,
    fourth: &mut ButtonClassifier,
    fifth: &mut ButtonClassifier,
    pressed: Nanos,
    released: Nanos,
    pressed_again: Nanos,
    later: Nanos,
    reports: Seq<Option<ButtonGesture>>,
    left: Option<Nanos>,
)
    requires
        reports.len() == 5,
        released < pressed + times.press,
        pressed_again < released + times.twice,
        call_ensures(ButtonClassifier::new, (times,), new),
        *old(first) == new,
        call_ensures(
            ButtonClassifier::handle_edge,
            (first, ButtonEdge::Pressed, pressed),
            reports[0],
        ),
        *old(second) == *final(first),
        call_ensures(
            ButtonClassifier::handle_edge,
            (second, ButtonEdge::Released, released),
            reports[1],
        ),
        *old(third) == *final(second),
        call_ensures(
            ButtonClassifier::handle_edge,
            (third, ButtonEdge::Pressed, pressed_again),
            reports[2],
        ),
        *old(fourth) == *final(third),
        call_ensures(
            ButtonClassifier::handle_edge,
            (fourth, ButtonEdge::Released, later),
            reports[3],
        ),
        *old(fifth) == *final(third),
        call_ensures(ButtonClassifier::handle_timeout, (fifth, later), reports[4]),
        call_ensures(ButtonClassifier::next_wait, (&*final(third), later), left),
    ensures
        reports[0] is None,
        reports[1] is None,
        reports[2] is None,
        later < released + times.twice ==> {
            &&& reports[3] == Some(ButtonGesture::Twice)
            &&& reports[4] is None
            &&& left matches Some(wait) && later + wait == released + times.twice
        },
        later >= released + times.twice ==> {
            &&& reports[3] == Some(ButtonGesture::Click)
            &&& reports[4] == Some(ButtonGesture::Click)
            &&& left == Some(0 as Nanos)
        },
{
}

/// Calls on a new classifier: a press reports nothing. A release and the clock agree on when
/// it is a long press; the release after a long press that the clock reported is used up by
/// it, and the next press and release are a gesture of their own.
pub proof fn a_new_classifier_knows_a_long_press(
    times: TimeConfig,
    new: ButtonClassifier,
    first: &mut ButtonClassifier,
    second: &mut ButtonClassifier,
    third: &mut ButtonClassifier,
    fourth: &mut ButtonClassifier,
    fifth: &mut ButtonClassifier,
    pressed: Nanos,
    reported: Nanos,
    released: Nanos,
    later: Nanos,
    reports: Seq<Option<ButtonGesture>>,
    waits: Seq<Option<Nanos>>,
)
    requires
        reports.len() == 5,
        waits.len() == 2,
        call_ensures(ButtonClassifier::new, (times,), new),
        call_ensures(ButtonClassifier::next_wait, (&new, pressed), waits[0]),
        *old(first) == new,
        call_ensures(
            ButtonClassifier::handle_edge,
            (first, ButtonEdge::Pressed, pressed),
            reports[0],
        ),
        call_ensures(ButtonClassifier::next_wait, (&*final(first), reported), waits[1]),
        *old(second) == *final(first),
        call_ensures(ButtonClassifier::handle_timeout, (second, reported), reports[1]),
        *old(third) == *final(second),
        call_ensures(
            ButtonClassifier::handle_edge,
            (third, ButtonEdge::Released, released),
            reports[2],
        ),
        *old(fourth) == *final(third),
        call_ensures(ButtonClassifier::handle_timeout, (fourth, later), reports[3]),
        *old(fifth) == *final(first),
        call_ensures(
            ButtonClassifier::handle_edge,
            (fifth, ButtonEdge::Released, reported),
            reports[4],
        ),
    ensures
        waits[0] is None,
        reports[0] is None,
        waits[1] matches Some(wait) && wait == if reported < pressed + times.press {
            pressed + times.press - reported
        } else {
            0
        },
        reported >= pressed + times.press ==> {
            &&& reports[1] == Some(ButtonGesture::Press)
            &&& reports[2] is None
            &&& reports[3] is None
            &&& (*final(third))@ == new@
            &&& reports[4] == Some(ButtonGesture::Press)
            &&& (*final(fifth))@ == new@
        },
        reported < pressed + times.press ==> {
            &&& reports[1] is None
            &&& reports[4] is None
            &&& released < pressed + times.press ==> {
                &&& reports[2] is None
                &&& reports[3] == if later >= released + times.twice {
                    Some(ButtonGesture::Click)
                } else {
                    None
                }
            }
            &&& released >= pressed + times.press ==> {
                &&& reports[2] == Some(ButtonGesture::Press)
                &&& reports[3] is None
            }
        },
{
}

/// Whatever state a classifier is in, its calls do to the state what is said of states, and a
/// look at the time left changes nothing.
pub proof fn calls_follow_the_states(
    at_edge: &mut ButtonClassifier,
    at_clock: &mut ButtonClassifier,
    at_level: &mut OutputPollClassifier,
    waiting: ButtonClassifier,
    edge: ButtonEdge,
    level: bool,
    now: Nanos,
    reports: Seq<Option<ButtonGesture>>,
    left: Option<Nanos>,
)
    requires
        reports.len() == 3,
        call_ensures(ButtonClassifier::handle_edge, (at_edge, edge, now), reports[0]),
        call_ensures(ButtonClassifier::handle_timeout, (at_clock, now), reports[1]),
        call_ensures(OutputPollClassifier::handle_level, (at_level, level, now), reports[2]),
        call_ensures(ButtonClassifier::next_wait, (&waiting, now), left),
    ensures
        (final(at_edge)@, reports[0]) == after_edge(old(at_edge)@, edge, now as nat),
        (final(at_clock)@, reports[1]) == after_timeout(old(at_clock)@, now as nat),
        (final(at_level)@, reports[2]) == after_level(old(at_level)@, level, now as nat),
        match waiting@.phase {
            Phase::Idle => left is None,
            Phase::Held { deadline } => left matches Some(wait) && wait == if deadline > now {
                deadline - now
            } else {
                0
            },
            Phase::Clicked { deadline } => left matches Some(wait) && wait == if deadline > now {
                deadline - now
            } else {
                0
            },
        },
{
}

/// An edge or a level can always be handed to a classifier as long as the deadlines that it
/// may set can be told.
pub proof fn a_call_is_allowed_while_deadlines_fit(
    c: &mut ButtonClassifier,
    p: &mut OutputPollClassifier,
    edge: ButtonEdge,
    level: bool,
    now: Nanos,
)
    ensures
        now + old(c)@.double_click <= Nanos::MAX && now + old(c)@.long_press <= Nanos::MAX
            ==> call_requires(ButtonClassifier::handle_edge, (c, edge, now)),
        now + old(p)@.classifier.double_click <= Nanos::MAX && now + old(p)@.classifier.long_press
            <= Nanos::MAX ==> call_requires(OutputPollClassifier::handle_level, (p, level, now)),
        call_requires(ButtonClassifier::handle_timeout, (c, now)),
{
}

/// A gesture that was reported is over: the classifier waits for the next one to begin.
pub proof fn a_reported_gesture_is_over(s: ClassifierState, edge: ButtonEdge, now: nat)
    ensures
        after_edge(s, edge, now).1 is Some ==> after_edge(s, edge, now).0.phase is Idle,
        after_timeout(s, now).1 is Some ==> after_timeout(s, now).0.phase is Idle,
{
}

/// The passing of time alone reports a gesture at most once, and none before one has begun.
pub proof fn time_reports_once(s: ClassifierState, now: nat, later: nat)
    ensures
        s.phase is Idle ==> after_timeout(s, now) == (s, None::<ButtonGesture>),
        after_timeout(s, now).1 is Some ==> after_timeout(after_timeout(s, now).0, later).1
            is None,
{
}

/// A look at the clock reports a gesture exactly when the time left until then is zero, and
/// it reports one as soon as the time left has passed.
pub proof fn time_left_is_exact(s: ClassifierState, now: nat)
    ensures
        after_timeout(s, now).1 is Some <==> time_left(s, now) == Some(0nat),
        time_left(s, now) matches Some(left) ==> {
            &&& after_timeout(s, now + left).1 is Some
            &&& forall|t: nat| now <= t < now + left ==> (#[trigger] after_timeout(s, t)).1 is None
        },
{
}

/// Nothing that happens changes the configured times.
pub proof fn times_are_kept(s: OutputPollState, edge: ButtonEdge, level: bool, now: nat)
    ensures
        ({
            let c = s.classifier;
            let a = after_edge(c, edge, now).0;
            let b = after_timeout(c, now).0;
            let d = after_level(s, level, now).0.classifier;
            &&& a.double_click == c.double_click && a.long_press == c.long_press
            &&& b.double_click == c.double_click && b.long_press == c.long_press
            &&& d.double_click == c.double_click && d.long_press == c.long_press
        }),
{
}

/// A level that comes back before it counted leaves no trace and makes no edge.
pub proof fn a_bounce_makes_no_edge(level: bool, changed: nat, back: nat)
    ensures
        ({
            let settled = LevelState::Settled { level };
            let (s1, e1) = debounced(settled, !level, changed);
            let (s2, e2) = debounced(s1, level, back);
            e1 is None && e2 is None && s2 == settled
        }),
{
}

/// A level that lasts makes one edge, the one that leads to it: at the first read after the
/// debounce time and not before.
pub proof fn a_lasting_level_makes_one_edge(level: bool, changed: nat, early: nat, later: nat)
    requires
        early < changed + OUTPUT_POLL_DEBOUNCE <= later,
    ensures
        ({
            let (s1, e1) = debounced(LevelState::Settled { level }, !level, changed);
            let (s2, e2) = debounced(s1, !level, early);
            let (s3, e3) = debounced(s2, !level, later);
            &&& e1 is None
            &&& e2 is None
            &&& s2 == s1
            &&& e3 == Some(edge_to(!level))
            &&& s3 == (LevelState::Settled { level: !level })
        }),
{
}

/// An edge comes only from a read of a level that differs from the settled one and was first
/// read at least the debounce time ago.
pub proof fn only_a_lasting_level_makes_an_edge(s: LevelState, level: bool, now: nat)
    ensures
        debounced(s, level, now).1 is Some <==> (s matches LevelState::Changing {
            level: stable,
            since,
        } && stable != level && now >= since + OUTPUT_POLL_DEBOUNCE),
        debounced(s, level, now).1 matches Some(edge) ==> edge == edge_to(level),
{
}

/// A read of the level that the line is settled on changes nothing, whichever level it is.
pub proof fn a_read_of_the_settled_level_changes_nothing(level: bool, now: nat)
    ensures
        debounced(LevelState::Settled { level }, level, now) == (
            LevelState::Settled { level },
            None::<ButtonEdge>,
        ),
{
}

/// A read of another level than the settled one begins a change at that time, and no read of
/// the new level moves its beginning.
pub proof fn a_change_begins_at_its_first_read(level: bool, changed: nat, later: nat)
    ensures
        debounced(LevelState::Settled { level }, !level, changed) == (
            LevelState::Changing { level, since: changed },
            None::<ButtonEdge>,
        ),
        later < changed + 40_000_000 ==> debounced(
            LevelState::Changing { level, since: changed },
            !level,
            later,
        ) == (LevelState::Changing { level, since: changed }, None::<ButtonEdge>),
        later >= changed + 40_000_000 ==> debounced(
            LevelState::Changing { level, since: changed },
            !level,
            later,
        ) == (
            LevelState::Settled { level: !level },
            Some(
                if level {
                    ButtonEdge::Pressed
                } else {
                    ButtonEdge::Released
                },
            ),
        ),
        debounced(LevelState::Changing { level, since: changed }, level, later) == (
            LevelState::Settled { level },
            None::<ButtonEdge>,
        ),
{
}

/// A read that confirms an edge is that edge, and, where the edge reports nothing, a look at
/// the clock after it.
pub proof fn a_confirmed_edge_is_an_edge(
    s: OutputPollState,
    level: bool,
    since: nat,
    now: nat,
)
    requires
        s.level == (LevelState::Changing { level: !level, since }),
        now >= since + 40_000_000,
    ensures
        ({
            let edge = if level {
                ButtonEdge::Released
            } else {
                ButtonEdge::Pressed
            };
            let (c, gesture) = after_edge(s.classifier, edge, now);
            let (next, report) = after_level(s, level, now);
            &&& next.level == LevelState::Settled { level }
            &&& gesture is Some ==> next.classifier == c && report == gesture
            &&& gesture is None ==> (next.classifier, report) == after_timeout(c, now)
        }),
{
}

/// Once a level is known, a read that confirms no edge is a look at the clock.
pub proof fn a_read_without_edge_is_a_look_at_the_clock(
    s: OutputPollState,
    level: bool,
    now: nat,
)
    requires
        !(s.level is Unknown),
        debounced(s.level, level, now).1 is None,
    ensures
        after_level(s, level, now).0.level == debounced(s.level, level, now).0,
        after_level(s, level, now).0.classifier == after_timeout(s.classifier, now).0,
        after_level(s, level, now).1 == after_timeout(s.classifier, now).1,
{
}

/// The first read only tells the level: a button that is held down at the start reports
/// nothing by that.
pub proof fn the_first_read_reports_nothing(s: OutputPollState, level: bool, now: nat)
    requires
        s.level is Unknown,
    ensures
        after_level(s, level, now) == (
            OutputPollState { level: LevelState::Settled { level }, ..s },
            None::<ButtonGesture>,
        ),
{
}

/// The line has settled high, and the classifier is at rest.
pub open spec fn released_at_rest(s: OutputPollState) -> bool {
    s.level == (LevelState::Settled { level: true }) && at_rest(s.classifier)
}

/// The state after two reads of the same level, when neither reports a gesture.
pub open spec fn after_two_reads(s: OutputPollState, level: bool, first: nat, second: nat) -> Option<
    OutputPollState,
> {
    let (s1, g1) = after_level(s, level, first);
    let (s2, g2) = after_level(s1, level, second);
    if g1 is None && g2 is None {
        Some(s2)
    } else {
        None
    }
}

/// A polled line that goes low and high again, each for longer than the debounce time, and
/// then stays high until the double click window is over, reports one click.
pub proof fn polled_single_click(
    s: OutputPollState,
    low: nat,
    low_again: nat,
    high: nat,
    high_again: nat,
    reported: nat,
)
    requires
        released_at_rest(s),
        low + OUTPUT_POLL_DEBOUNCE <= low_again <= high,
        high + OUTPUT_POLL_DEBOUNCE <= high_again < low_again + s.classifier.long_press,
        s.classifier.double_click > 0,
        reported >= high_again + s.classifier.double_click,
    ensures
        after_two_reads(s, false, low, low_again) matches Some(s1) && (after_two_reads(
            s1,
            true,
            high,
            high_again,
        ) matches Some(s2) && after_level(s2, true, reported) == (s, Some(ButtonGesture::Click))),
{
}

/// A polled line that goes low and high twice within the double click window, each for longer
/// than the debounce time, reports a double click.
pub proof fn polled_double_click(
    s: OutputPollState,
    low: nat,
    low_again: nat,
    high: nat,
    high_again: nat,
    second_low: nat,
    second_low_again: nat,
    second_high: nat,
    second_high_again: nat,
)
    requires
        released_at_rest(s),
        low + OUTPUT_POLL_DEBOUNCE <= low_again <= high,
        high + OUTPUT_POLL_DEBOUNCE <= high_again < low_again + s.classifier.long_press,
        high_again <= second_low,
        second_low + OUTPUT_POLL_DEBOUNCE <= second_low_again <= second_high,
        second_high + OUTPUT_POLL_DEBOUNCE <= second_high_again < high_again
            + s.classifier.double_click,
    ensures
        after_two_reads(s, false, low, low_again) matches Some(s1) && (after_two_reads(
            s1,
            true,
            high,
            high_again,
        ) matches Some(s2) && (after_two_reads(s2, false, second_low, second_low_again) matches Some(
            s3,
        ) && {
            let (s4, g4) = after_level(s3, true, second_high);
            g4 is None && after_level(s4, true, second_high_again) == (
                s,
                Some(ButtonGesture::Twice),
            )
        })),
{
}

/// A polled line that goes low and stays low reports a long press; going high again then
/// reports nothing.
pub proof fn polled_long_press(
    s: OutputPollState,
    low: nat,
    low_again: nat,
    reported: nat,
    high: nat,
    high_again: nat,
)
    requires
        released_at_rest(s),
        low + OUTPUT_POLL_DEBOUNCE <= low_again,
        s.classifier.long_press > 0,
        reported >= low_again + s.classifier.long_press,
        high + OUTPUT_POLL_DEBOUNCE <= high_again,
    ensures
        after_two_reads(s, false, low, low_again) matches Some(s1) && {
            let (s2, g2) = after_level(s1, false, reported);
            g2 == Some(ButtonGesture::Press) && after_two_reads(s2, true, high, high_again)
                == Some(s)
        },
{
}

/// The loop waits neither past a deadline nor longer than it may go without a look at
/// whether to stop. Where the deadline is nearer, the wait ends when the gesture is due.
pub proof fn the_loop_wakes_in_time(s: ClassifierState, now: nat)
    ensures
        edge_timeout(s, now) <= SHUTDOWN_POLL_INTERVAL,
        deadline_of(s.phase) matches Some(deadline) ==> {
            &&& now < deadline ==> now + edge_timeout(s, now) <= deadline
            &&& now >= deadline ==> edge_timeout(s, now) == 0
            &&& deadline <= now + SHUTDOWN_POLL_INTERVAL ==> after_timeout(
                s,
                now + edge_timeout(s, now),
            ).1 is Some
        },
{
}

/// The loop keeps its mode, an event touches only the classifier of its kind, and a failure
/// of the line touches neither.
pub proof fn an_event_touches_its_own_classifier(s: LoopState, event: LineEvent, now: nat)
    ensures
        ({
            let next = after_event(s, event, now).0;
            &&& next.mode == s.mode
            &&& event is Level ==> next.edges == s.edges
            &&& !(event is Level) ==> next.levels == s.levels
            &&& event is Failed ==> next == s
        }),
{
}

} // verus!
