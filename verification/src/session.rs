//! What holds of every run of the driver, whatever its caller reports.

use crate::driver::{awaited, initial, next, ActionView, DriverView, EventView, Phase, StepView};
use crate::error::{EXIT_FAILURE, EXIT_SUCCESS};
use crate::limiter::{lemma_posts_spaced, wait_before_post, POST_INTERVAL_NANOS};
use crate::line::without_line_ending;
use crate::message::{is_delivered, request_for, RequestView};
use crate::report::{send_failure, status_detail};
use vstd::prelude::*;

verus! {

/// The driver after it has been told of `events`, in order.
pub open spec fn after(start: DriverView, events: Seq<EventView>) -> DriverView
    decreases events.len(),
{
    if events.len() == 0 {
        start
    } else {
        let before = after(start, events.drop_last());
        match next(before, events.last()) {
            Some((state, _)) => state,
            None => before,
        }
    }
}

/// The requests that the driver has asked to be sent while it was told of
/// `events`, in order.
pub open spec fn posted(start: DriverView, events: Seq<EventView>) -> Seq<RequestView>
    decreases events.len(),
{
    if events.len() == 0 {
        seq![]
    } else {
        let before = after(start, events.drop_last());
        let earlier = posted(start, events.drop_last());
        match next(before, events.last()) {
            Some((_, StepView { action: ActionView::Post { request }, .. })) => earlier.push(
                request,
            ),
            _ => earlier,
        }
    }
}

/// The lines that the driver has taken in while it was told of `events`, in
/// order.
pub open spec fn lines_read(start: DriverView, events: Seq<EventView>) -> Seq<Seq<char>>
    decreases events.len(),
{
    if events.len() == 0 {
        seq![]
    } else {
        let before = after(start, events.drop_last());
        let earlier = lines_read(start, events.drop_last());
        match (before.phase, events.last()) {
            (Phase::Reading, EventView::Line { text, .. }) => earlier.push(text),
            _ => earlier,
        }
    }
}

/// One request to `url` for each of `lines`, in order, each carrying its
/// line without the line ending.
pub open spec fn requests_for(url: Seq<char>, lines: Seq<Seq<char>>) -> Seq<RequestView> {
    Seq::new(lines.len(), |i: int| request_for(url, without_line_ending(lines[i])))
}

/// The request that waits for the limiter, if one does.
pub open spec fn held_back(state: DriverView) -> Seq<RequestView> {
    match state.phase {
        Phase::Gating { request } => seq![request],
        _ => seq![],
    }
}

/// The endpoint and the bypass flag never change.
pub proof fn lemma_settings_kept(start: DriverView, events: Seq<EventView>)
    ensures
        after(start, events).url == start.url,
        after(start, events).bypass == start.bypass,
    decreases events.len(),
{
    if events.len() > 0 {
        lemma_settings_kept(start, events.drop_last());
    }
}

/// The requests are the lines, in the order in which they were read: at
/// any point of a run, what was posted so far, followed by the request
/// that waits for the limiter if one does, is one request for each line
/// read so far, none left out, none sent twice, none out of place.
pub proof fn lemma_posts_follow_lines(url: Seq<char>, bypass: bool, events: Seq<EventView>)
    ensures
        posted(initial(url, bypass), events) + held_back(after(initial(url, bypass), events))
            == requests_for(url, lines_read(initial(url, bypass), events)),
    decreases events.len(),
{
    let start = initial(url, bypass);
    if events.len() == 0 {
        assert(posted(start, events) + held_back(after(start, events)) =~= requests_for(
            url,
            lines_read(start, events),
        ));
    } else {
        let shorter = events.drop_last();
        lemma_posts_follow_lines(url, bypass, shorter);
        lemma_settings_kept(start, shorter);
        let before = after(start, shorter);
        assert(posted(start, shorter) + held_back(before) =~= requests_for(
            url,
            lines_read(start, shorter),
        ));
        assert(posted(start, events) + held_back(after(start, events)) =~= requests_for(
            url,
            lines_read(start, events),
        ));
    }
}

/// When the input ends, every line that was read has been posted, whether
/// the posts got through or not, and the exit code is that of success.
pub proof fn lemma_clean_end(url: Seq<char>, bypass: bool, events: Seq<EventView>)
    requires
        after(initial(url, bypass), events).phase is Reading,
    ensures
        posted(initial(url, bypass), events) == requests_for(
            url,
            lines_read(initial(url, bypass), events),
        ),
        posted(initial(url, bypass), events.push(EventView::Eof)) == posted(
            initial(url, bypass),
            events,
        ),
        after(initial(url, bypass), events.push(EventView::Eof)).phase == (Phase::Done {
            code: EXIT_SUCCESS,
        }),
{
    let start = initial(url, bypass);
    lemma_posts_follow_lines(url, bypass, events);
    assert(posted(start, events) + held_back(after(start, events)) =~= posted(start, events));
    assert(events.push(EventView::Eof).drop_last() =~= events);
}

/// A run that is over has posted every line that it read, and has ended
/// with the exit code of success or with that of failure.
pub proof fn lemma_all_posted_when_done(url: Seq<char>, bypass: bool, events: Seq<EventView>)
    requires
        after(initial(url, bypass), events).phase is Done,
    ensures
        posted(initial(url, bypass), events) == requests_for(
            url,
            lines_read(initial(url, bypass), events),
        ),
        after(initial(url, bypass), events).phase == (Phase::Done { code: EXIT_SUCCESS })
            || after(initial(url, bypass), events).phase == (Phase::Done { code: EXIT_FAILURE }),
{
    let start = initial(url, bypass);
    lemma_posts_follow_lines(url, bypass, events);
    assert(posted(start, events) + held_back(after(start, events)) =~= posted(start, events));
    lemma_exit_codes(start, events);
}

/// The loop ends with the exit code of success or with that of failure.
pub proof fn lemma_exit_codes(start: DriverView, events: Seq<EventView>)
    requires
        start.phase is Reading,
    ensures
        after(start, events).phase matches Phase::Done { code } ==> code == EXIT_SUCCESS || code
            == EXIT_FAILURE,
    decreases events.len(),
{
    if events.len() > 0 {
        lemma_exit_codes(start, events.drop_last());
    }
}

/// A post that fails does not end the loop: whatever comes back for a
/// request, the next thing is to read a line. A status outside the 2xx
/// range or a request that did not get through is reported in one line,
/// a status within the range in none.
pub proof fn lemma_failed_post_goes_on(state: DriverView, event: EventView)
    requires
        state.phase is Sending,
        event is Responded || event is SendFailed,
    ensures
        match next(state, event) {
            Some((then, answer)) => {
                &&& then == DriverView { phase: Phase::Reading, ..state }
                &&& answer.action == ActionView::Read
                &&& answer.diagnostic == match event {
                    EventView::Responded { status } => if is_delivered(status) {
                        None
                    } else {
                        Some(send_failure(status_detail(status)))
                    },
                    EventView::SendFailed { detail } => Some(send_failure(detail)),
                    _ => None,
                }
            },
            None => false,
        },
{
}

/// Posts are paced. Where the limiter is not bypassed and the last post was
/// let through at `previous`, a line read at `asked` is held back: the
/// caller is told to sleep, and when it reports to have woken at `resumed`,
/// no sooner than it was told, the line's request is let through, at least
/// an interval after the last one. The clock is taken not to run
/// backwards.
pub proof fn lemma_paced(state: DriverView, previous: u64, text: Seq<char>, asked: u64, resumed: u64)
    requires
        state.phase is Reading,
        !state.bypass,
        state.previous == Some(previous),
        previous <= asked,
        asked + wait_before_post(Some(previous), asked) <= resumed,
    ensures
        match next(state, EventView::Line { text, now: asked }) {
            Some((held, told)) => {
                &&& told.action == ActionView::Sleep {
                    nanos: wait_before_post(Some(previous), asked) as u64,
                }
                &&& match next(held, EventView::Woke { now: resumed }) {
                    Some((sending, go)) => {
                        &&& go.action == ActionView::Post {
                            request: request_for(state.url, without_line_ending(text)),
                        }
                        &&& sending.previous == Some(resumed)
                        &&& resumed - previous >= POST_INTERVAL_NANOS
                    },
                    None => false,
                }
            },
            None => false,
        },
{
}

/// The clock readings at which requests were let through the limiter
/// while the driver was told of `events`: those of the sleeps that ended.
pub open spec fn post_times(start: DriverView, events: Seq<EventView>) -> Seq<u64>
    decreases events.len(),
{
    if events.len() == 0 {
        seq![]
    } else {
        let before = after(start, events.drop_last());
        let earlier = post_times(start, events.drop_last());
        match (before.phase, events.last()) {
            (Phase::Gating { .. }, EventView::Woke { now }) => earlier.push(now),
            _ => earlier,
        }
    }
}

/// The clock reading that the driver was told of last, zero before the
/// first.
pub open spec fn latest(start: DriverView, events: Seq<EventView>) -> u64
    decreases events.len(),
{
    if events.len() == 0 {
        0
    } else {
        let before = after(start, events.drop_last());
        match (before.phase, events.last()) {
            (Phase::Reading, EventView::Line { now, .. }) => now,
            (Phase::Gating { .. }, EventView::Woke { now }) => now,
            _ => latest(start, events.drop_last()),
        }
    }
}

/// What is asked of the caller's clock and of its sleeps: no reading lies
/// before the one that was taken before it, and the reading after a sleep
/// lies at least as long after the reading before it as the driver asked
/// to sleep.
pub open spec fn punctual(start: DriverView, events: Seq<EventView>) -> bool
    decreases events.len(),
{
    if events.len() == 0 {
        true
    } else {
        let before = after(start, events.drop_last());
        let last_reading = latest(start, events.drop_last());
        &&& punctual(start, events.drop_last())
        &&& match (before.phase, events.last()) {
            (Phase::Reading, EventView::Line { now, .. }) => last_reading <= now,
            (Phase::Gating { .. }, EventView::Woke { now }) => last_reading + wait_before_post(
                before.previous,
                last_reading,
            ) <= now,
            _ => true,
        }
    }
}

/// Whether each element of `times` lies at least one interval after the
/// one before it.
pub open spec fn spaced(times: Seq<u64>) -> bool {
    forall|i: int|
        0 <= i && i + 1 < times.len() ==> times[i + 1] - #[trigger] times[i] >= POST_INTERVAL_NANOS
}

/// With the limiter in use, every request is let through at least one
/// interval after the request before it, for as long as the caller's clock
/// does not run backwards and its sleeps last as long as they were asked
/// to. Every request has its time, so none gets past the limiter, and the
/// limiter remembers the time of the last one, which is no later than the
/// last reading.
pub proof fn lemma_run_paced(url: Seq<char>, events: Seq<EventView>)
    requires
        punctual(initial(url, false), events),
    ensures
        spaced(post_times(initial(url, false), events)),
        post_times(initial(url, false), events).len() == posted(initial(url, false), events).len(),
        after(initial(url, false), events).previous == (if post_times(
            initial(url, false),
            events,
        ).len() > 0 {
            Some(post_times(initial(url, false), events).last())
        } else {
            None
        }),
        post_times(initial(url, false), events).len() > 0 ==> post_times(
            initial(url, false),
            events,
        ).last() <= latest(initial(url, false), events),
    decreases events.len(),
{
    let start = initial(url, false);
    if events.len() > 0 {
        let shorter = events.drop_last();
        lemma_run_paced(url, shorter);
        lemma_settings_kept(start, shorter);
        let before = after(start, shorter);
        let earlier = post_times(start, shorter);
        let times = post_times(start, events);
        match (before.phase, events.last()) {
            (Phase::Gating { .. }, EventView::Woke { now }) => {
                assert(times == earlier.push(now));
                if earlier.len() > 0 {
                    lemma_posts_spaced(earlier.last(), latest(start, shorter), now);
                }
                assert forall|i: int| 0 <= i && i + 1 < times.len() implies times[i + 1]
                    - #[trigger] times[i] >= POST_INTERVAL_NANOS by {
                    if i + 1 < earlier.len() {
                        assert(times[i] == earlier[i]);
                        assert(times[i + 1] == earlier[i + 1]);
                    }
                }
            },
            _ => {},
        }
    }
}

/// With the limiter bypassed the driver never asks for a sleep: whatever
/// it is told while no request is held back, it answers with something
/// else, holds nothing back and leaves the limiter as it is.
pub proof fn lemma_bypass_never_sleeps(state: DriverView, event: EventView)
    requires
        state.bypass,
        !(state.phase is Gating),
    ensures
        match next(state, event) {
            Some((then, answer)) => {
                &&& !(answer.action is Sleep)
                &&& !(then.phase is Gating)
                &&& then.previous == state.previous
            },
            None => true,
        },
{
}

/// In a run with the limiter bypassed no request is ever held back and the
/// limiter is never touched.
pub proof fn lemma_bypassed_run(url: Seq<char>, events: Seq<EventView>)
    ensures
        !(after(initial(url, true), events).phase is Gating),
        after(initial(url, true), events).previous is None,
    decreases events.len(),
{
    if events.len() > 0 {
        lemma_bypassed_run(url, events.drop_last());
        lemma_settings_kept(initial(url, true), events.drop_last());
        lemma_bypass_never_sleeps(after(initial(url, true), events.drop_last()), events.last());
    }
}

} // verus!
