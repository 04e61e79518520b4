//! What holds of every run of the device-code flow: first for answers that
//! come at any time on the caller's clock, then for scripted runs, in which
//! each answer comes when its poll is due.

use crate::device::PollReplyView;
use crate::flow::{
    begin_of, step_of, terminal, well_formed, widened, ActionView, EventView, FlowStateView,
};
use crate::model::{AccessTokenView, AuthErrorView, SessionView};
use crate::replay::{replay_clock, replay_outcome, replay_polls, replay_state};
use vstd::prelude::*;

verus! {

/// The event of a pending answer at a given time.
pub open spec fn pending_at(elapsed: u64) -> EventView {
    EventView::PollAnswered { elapsed, reply: PollReplyView::Pending }
}

/// The state after a run of pending answers that came at the given times.
pub open spec fn after_pending(s: FlowStateView, times: Seq<u64>) -> FlowStateView
    decreases times.len(),
{
    if times.len() == 0 {
        s
    } else {
        after_pending(step_of(s, pending_at(times[0])).0, times.skip(1))
    }
}

/// Whether each answer of a run came no earlier than its poll was due, that
/// is, whether the caller waited as long as it was told to.
pub open spec fn on_schedule(s: FlowStateView, times: Seq<u64>) -> bool
    decreases times.len(),
{
    times.len() == 0 || {
        &&& s matches FlowStateView::Polling(p) ==> times[0] >= p.next_due
        &&& on_schedule(step_of(s, pending_at(times[0])).0, times.skip(1))
    }
}

/// Every transition keeps a well-formed state well-formed, and the flow
/// starts in one.
pub proof fn law_states_stay_well_formed(s: FlowStateView, e: EventView)
    requires
        well_formed(s),
    ensures
        well_formed(FlowStateView::Initiated),
        well_formed(step_of(s, e).0),
{
}

/// Once a flow has ended, no event changes its state or asks for another
/// request.
pub proof fn law_ended_flow_stays(s: FlowStateView, e: EventView)
    requires
        terminal(s),
    ensures
        step_of(s, e) == (s, ActionView::Ignore),
{
}

/// While a session is polled its data never changes, the delay never
/// shrinks, and every wait that is asked for is at least the interval that
/// the session declared and ends strictly before the deadline.
pub proof fn law_interval_never_shrinks(s: FlowStateView, e: EventView)
    requires
        well_formed(s),
        s is Polling,
        step_of(s, e).0 is Polling,
    ensures
        step_of(s, e).0->Polling_0.session == s->Polling_0.session,
        step_of(s, e).0->Polling_0.current_interval >= s->Polling_0.current_interval,
        step_of(s, e).1 matches ActionView::WaitAndPoll { wait } ==> wait
            >= s->Polling_0.session.interval && wait == widened(s->Polling_0.current_interval)
            && e->PollAnswered_elapsed + wait < s->Polling_0.session.expires_in,
{
}

/// The first wait of a flow is the session's interval, and the first poll is
/// due strictly before the deadline.
pub proof fn law_first_wait_is_interval(session: SessionView)
    ensures
        begin_of(session).1 matches ActionView::PromptAndPoll { wait } ==> wait == session.interval
            && wait < session.expires_in,
        begin_of(session).0 is Polling || begin_of(session).0 is Expired,
        well_formed(begin_of(session).0),
{
}

/// A flow that has left the polling state is not moved by pending answers.
pub proof fn law_pending_moves_only_polling(s: FlowStateView, times: Seq<u64>)
    requires
        !(s is Polling),
    ensures
        after_pending(s, times) == s,
    decreases times.len(),
{
    if times.len() > 0 {
        law_pending_moves_only_polling(s, times.skip(1));
    }
}

/// After any run of pending answers a flow is still polling or has expired;
/// if it is still polling, the session is the one it began with and the delay
/// is no shorter than before, so no shorter than the session's interval.
pub proof fn law_pending_run_keeps_session(s: FlowStateView, times: Seq<u64>)
    requires
        well_formed(s),
        s is Polling,
    ensures
        after_pending(s, times) is Polling || after_pending(s, times) is Expired,
        well_formed(after_pending(s, times)),
        after_pending(s, times) matches FlowStateView::Polling(q) ==> q.session
            == s->Polling_0.session && q.current_interval >= s->Polling_0.current_interval
            && q.current_interval >= q.session.interval,
    decreases times.len(),
{
    if times.len() > 0 {
        let next = step_of(s, pending_at(times[0])).0;
        if next is Polling {
            law_pending_run_keeps_session(next, times.skip(1));
        } else {
            law_pending_moves_only_polling(next, times.skip(1));
        }
    }
}

/// A token that answers the poll after any number of pending answers ends the
/// flow with that token, provided the session has not run out by then: the
/// answer that carries the token is the last one, one more than the pending
/// answers before it.
pub proof fn law_token_after_pending(
    s: FlowStateView,
    times: Seq<u64>,
    elapsed: u64,
    token: AccessTokenView,
)
    requires
        well_formed(s),
        s is Polling,
        after_pending(s, times) is Polling,
        elapsed <= s->Polling_0.session.expires_in,
    ensures
        step_of(
            after_pending(s, times),
            EventView::PollAnswered { elapsed, reply: PollReplyView::Token(token) },
        ) == (FlowStateView::Succeeded, ActionView::Finish(Ok(token))),
{
    law_pending_run_keeps_session(s, times);
}

/// A flow that is only ever answered with "pending" expires: when the caller
/// waits as long as it is told to, more answers than there are seconds left
/// between the next poll and the deadline cannot all be absorbed. As no poll
/// is due at or after the deadline, the flow ends within the session's
/// lifetime.
pub proof fn law_always_pending_expires(s: FlowStateView, times: Seq<u64>)
    requires
        well_formed(s),
        s is Polling,
        on_schedule(s, times),
        times.len() > s->Polling_0.session.expires_in - s->Polling_0.next_due,
    ensures
        after_pending(s, times) is Expired,
    decreases times.len(),
{
    let next = step_of(s, pending_at(times[0])).0;
    if next is Polling {
        law_always_pending_expires(next, times.skip(1));
    } else {
        law_pending_moves_only_polling(next, times.skip(1));
    }
}

/// A refusal that answers a poll in time ends the flow at once with that
/// error, and nothing is polled afterwards.
pub proof fn law_denial_ends_flow(s: FlowStateView, elapsed: u64, error: AuthErrorView, e: EventView)
    requires
        s is Polling,
        elapsed <= s->Polling_0.session.expires_in,
        error != AuthErrorView::SessionExpired,
    ensures
        step_of(s, EventView::PollAnswered { elapsed, reply: PollReplyView::Rejected(error) }) == (
            FlowStateView::Denied,
            ActionView::Finish(Err(error)),
        ),
        step_of(FlowStateView::Denied, e) == (FlowStateView::Denied, ActionView::Ignore),
{
}

/// Whether every answer of a script is "pending".
pub open spec fn all_pending(replies: Seq<PollReplyView>) -> bool {
    forall|i: int| 0 <= i < replies.len() ==> #[trigger] replies[i] == PollReplyView::Pending
}

/// A scripted run never leaves the well-formed states, and a flow that is
/// still polling after a script was polling all along: it sent one poll for
/// each answer and kept its session.
pub proof fn law_script_still_polling(s: FlowStateView, replies: Seq<PollReplyView>)
    requires
        well_formed(s),
    ensures
        well_formed(replay_state(s, replies)),
        replay_state(s, replies) matches FlowStateView::Polling(q) ==> s is Polling
            && replay_polls(s, replies) == replies.len() && q.session == s->Polling_0.session
            && q.current_interval >= s->Polling_0.current_interval,
    decreases replies.len(),
{
    if replies.len() > 0 {
        law_script_still_polling(s, replies.drop_last());
    }
}

/// Every poll of a scripted run is answered strictly before the deadline of
/// the session, whatever the answers are.
pub proof fn law_script_polls_before_deadline(s: FlowStateView, replies: Seq<PollReplyView>)
    requires
        well_formed(s),
        s is Polling,
    ensures
        replay_clock(s, replies) < s->Polling_0.session.expires_in,
    decreases replies.len(),
{
    if replies.len() > 0 {
        law_script_polls_before_deadline(s, replies.drop_last());
        law_script_still_polling(s, replies.drop_last());
    }
}

/// A script of pending answers that ends with a token gives that token on
/// its last answer, provided the session outlasts the pending answers: as
/// many polls are sent as the script has answers, one more than were
/// answered with "pending".
pub proof fn law_script_pending_then_token(
    s: FlowStateView,
    first: Option<Result<AccessTokenView, AuthErrorView>>,
    replies: Seq<PollReplyView>,
    token: AccessTokenView,
)
    requires
        well_formed(s),
        s is Polling,
        replies.len() >= 1,
        all_pending(replies.drop_last()),
        replies.last() == PollReplyView::Token(token),
        replay_state(s, replies.drop_last()) is Polling,
    ensures
        replay_state(s, replies) is Succeeded,
        replay_outcome(s, first, replies) == Some(
            Ok::<AccessTokenView, AuthErrorView>(token),
        ),
        replay_polls(s, replies) == replies.len(),
{
    law_script_still_polling(s, replies.drop_last());
}

/// After a script of pending answers a flow has expired, or is still polling
/// with its next poll due later by at least the session's interval, and by
/// at least one second, for each answer.
pub proof fn law_script_pending_advances(s: FlowStateView, replies: Seq<PollReplyView>)
    requires
        well_formed(s),
        s is Polling,
        all_pending(replies),
    ensures
        replay_state(s, replies) is Expired || replay_state(s, replies) is Polling,
        replay_state(s, replies) matches FlowStateView::Polling(q) ==> q.next_due
            >= s->Polling_0.next_due + replies.len() && q.next_due >= s->Polling_0.next_due
            + replies.len() * s->Polling_0.session.interval,
        replay_state(s, replies) is Expired ==> replay_outcome(s, None, replies) == Some(
            Err::<AccessTokenView, AuthErrorView>(AuthErrorView::SessionExpired),
        ),
    decreases replies.len(),
{
    if replies.len() > 0 {
        assert(all_pending(replies.drop_last())) by {
            assert forall|i: int| 0 <= i < replies.drop_last().len() implies replies.drop_last()[i]
                == PollReplyView::Pending by {
                assert(replies.drop_last()[i] == replies[i]);
            }
        }
        assert(replies.last() == replies[replies.len() - 1]);
        law_script_pending_advances(s, replies.drop_last());
        law_script_still_polling(s, replies.drop_last());
        let n = replies.len() as int;
        let interval = s->Polling_0.session.interval as int;
        assert(n * interval == (n - 1) * interval + interval) by (nonlinear_arith);
        assert(replies.drop_last().len() == n - 1);
    }
}

/// A flow that is still polling after a script was answered "pending" every
/// time: any other answer would have ended it.
pub proof fn law_script_polling_means_pending(s: FlowStateView, replies: Seq<PollReplyView>)
    requires
        replay_state(s, replies) is Polling,
    ensures
        all_pending(replies),
    decreases replies.len(),
{
    if replies.len() > 0 {
        law_script_polling_means_pending(s, replies.drop_last());
        assert forall|i: int| 0 <= i < replies.len() implies #[trigger] replies[i]
            == PollReplyView::Pending by {
            if i < replies.len() - 1 {
                assert(replies.drop_last()[i] == replies[i]);
            } else {
                assert(replies.last() == replies[i]);
            }
        }
    }
}

/// The polls of a scripted run, each taken as one interval of the session,
/// fit into the session's lifetime, whatever the answers are: a flow cannot
/// poll more often than its session allows.
pub proof fn law_script_polls_fit_lifetime(s: FlowStateView, replies: Seq<PollReplyView>)
    requires
        well_formed(s),
        s is Polling,
    ensures
        replay_polls(s, replies) * s->Polling_0.session.interval
            < s->Polling_0.session.expires_in,
    decreases replies.len(),
{
    let interval = s->Polling_0.session.interval as int;
    if replies.len() > 0 {
        let prefix = replies.drop_last();
        law_script_polls_fit_lifetime(s, prefix);
        if replay_state(s, prefix) is Polling {
            law_script_polling_means_pending(s, prefix);
            law_script_pending_advances(s, prefix);
            law_script_still_polling(s, prefix);
            let m = prefix.len() as int;
            assert((m + 1) * interval == m * interval + interval) by (nonlinear_arith);
        }
    } else {
        assert(0 * interval == 0);
    }
}

/// A script that only ever answers "pending" and has at least as many
/// answers as the session has seconds ends with an expiry, and the last poll
/// was answered strictly before the deadline: the flow ended within the
/// session's lifetime.
pub proof fn law_script_always_pending_expires(s: FlowStateView, replies: Seq<PollReplyView>)
    requires
        well_formed(s),
        s is Polling,
        all_pending(replies),
        replies.len() >= s->Polling_0.session.expires_in,
    ensures
        replay_state(s, replies) is Expired,
        replay_outcome(s, None, replies) == Some(
            Err::<AccessTokenView, AuthErrorView>(AuthErrorView::SessionExpired),
        ),
        replay_polls(s, replies) <= replies.len(),
        replay_clock(s, replies) < s->Polling_0.session.expires_in,
{
    law_script_polls_before_deadline(s, replies);
    law_script_pending_advances(s, replies);
    law_script_still_polling(s, replies);
    law_script_polls_bounded(s, replies);
}

/// A scripted run sends at most one poll for each answer.
pub proof fn law_script_polls_bounded(s: FlowStateView, replies: Seq<PollReplyView>)
    ensures
        replay_polls(s, replies) <= replies.len(),
    decreases replies.len(),
{
    if replies.len() > 0 {
        law_script_polls_bounded(s, replies.drop_last());
    }
}

/// A script whose first answer is a refusal ends the flow with that error
/// after exactly one poll, whatever answers follow.
pub proof fn law_script_denial_polls_once(
    s: FlowStateView,
    first: Option<Result<AccessTokenView, AuthErrorView>>,
    replies: Seq<PollReplyView>,
    error: AuthErrorView,
)
    requires
        well_formed(s),
        s is Polling,
        replies.len() >= 1,
        replies[0] == PollReplyView::Rejected(error),
        error != AuthErrorView::SessionExpired,
    ensures
        replay_state(s, replies) is Denied,
        replay_outcome(s, first, replies) == Some(Err::<AccessTokenView, AuthErrorView>(error)),
        replay_polls(s, replies) == 1,
    decreases replies.len(),
{
    if replies.len() == 1 {
        assert(replies.drop_last().len() == 0);
        assert(replies.last() == replies[0]);
        assert(replay_state(s, replies.drop_last()) == s);
        assert(replay_polls(s, replies.drop_last()) == 0);
    } else {
        assert(replies.drop_last()[0] == replies[0]);
        law_script_denial_polls_once(s, first, replies.drop_last(), error);
    }
}

} // verus!
