//! The device-code flow against a script of answers, on a simulated clock.
//!
//! Each poll is answered exactly when it is due, so a run needs no waiting
//! and always gives the same result.

use crate::device::{poll_reply, poll_response_reply, PollReplyView};
use crate::flow::{
    begin, begin_of, poll_step, step_of, well_formed, Action, ActionView, EventView, FlowState,
    FlowStateView,
};
use crate::model::{AccessToken, AccessTokenView, AuthError, AuthErrorView, DeviceCodeSession};
use crate::token::token_result_view;
use vstd::prelude::*;

verus! {

/// How a scripted run ended.
#[derive(Debug, PartialEq, Eq)]
pub struct Replay {
    /// The state of the flow after the run.
    pub state: FlowState,
    /// The result of the flow; none if the script ran out first.
    pub outcome: Option<Result<AccessToken, AuthError>>,
    /// The number of polls that were sent.
    pub polls: usize,
    /// The time at which the last poll was answered; 0 if none was sent.
    pub clock: u64,
}

/// The meaning of each answer of a script.
pub open spec fn replies_of(bodies: Seq<String>) -> Seq<PollReplyView> {
    Seq::new(bodies.len(), |i: int| poll_response_reply(bodies[i]@))
}

/// The transition on an answer that comes exactly when its poll is due. A
/// flow that is not polling sends nothing and gets no answer.
pub open spec fn answer_on_time(s: FlowStateView, reply: PollReplyView) -> (
    FlowStateView,
    ActionView,
) {
    match s {
        FlowStateView::Polling(p) => step_of(
            s,
            EventView::PollAnswered { elapsed: p.next_due, reply },
        ),
        _ => (s, ActionView::Ignore),
    }
}

/// The state after the answers of a script, each on time.
pub open spec fn replay_state(s: FlowStateView, replies: Seq<PollReplyView>) -> FlowStateView
    decreases replies.len(),
{
    if replies.len() == 0 {
        s
    } else {
        answer_on_time(replay_state(s, replies.drop_last()), replies.last()).0
    }
}

/// The result that the flow ended with during a script, if it ended; `first`
/// is the result with which it may have ended before the first poll.
pub open spec fn replay_outcome(
    s: FlowStateView,
    first: Option<Result<AccessTokenView, AuthErrorView>>,
    replies: Seq<PollReplyView>,
) -> Option<Result<AccessTokenView, AuthErrorView>>
    decreases replies.len(),
{
    if replies.len() == 0 {
        first
    } else {
        match answer_on_time(replay_state(s, replies.drop_last()), replies.last()).1 {
            ActionView::Finish(r) => Some(r),
            _ => replay_outcome(s, first, replies.drop_last()),
        }
    }
}

/// The number of polls sent during a script: one for each answer that found
/// the flow polling.
pub open spec fn replay_polls(s: FlowStateView, replies: Seq<PollReplyView>) -> nat
    decreases replies.len(),
{
    if replies.len() == 0 {
        0
    } else {
        replay_polls(s, replies.drop_last()) + if replay_state(s, replies.drop_last())
            is Polling {
            1nat
        } else {
            0nat
        }
    }
}

/// The time at which the last poll of a script was answered: the time at
/// which it was due; 0 if no poll was sent.
pub open spec fn replay_clock(s: FlowStateView, replies: Seq<PollReplyView>) -> u64
    decreases replies.len(),
{
    if replies.len() == 0 {
        0
    } else {
        match replay_state(s, replies.drop_last()) {
            FlowStateView::Polling(p) => p.next_due,
            _ => replay_clock(s, replies.drop_last()),
        }
    }
}

/// The result with which a flow may end before its first poll.
pub open spec fn first_outcome(a: ActionView) -> Option<Result<AccessTokenView, AuthErrorView>> {
    match a {
        ActionView::Finish(r) => Some(r),
        _ => None,
    }
}

/// The view of an optional result.
pub open spec fn opt_result_view(o: Option<Result<AccessToken, AuthError>>) -> Option<
    Result<AccessTokenView, AuthErrorView>,
> {
    match o {
        Some(r) => Some(token_result_view(r)),
        None => None,
    }
}

/// Runs the device-code flow on a session against a script: the bodies of
/// the answers to the polls, in order. The clock is simulated: each answer
/// comes when its poll is due. Polling stops when the flow ends; answers
/// that are left over are not read.
pub fn replay(session: DeviceCodeSession, bodies: &Vec<String>) -> (r: Replay)
    ensures
        r.state@ == replay_state(begin_of(session@).0, replies_of(bodies@)),
        opt_result_view(r.outcome) == replay_outcome(
            begin_of(session@).0,
            first_outcome(begin_of(session@).1),
            replies_of(bodies@),
        ),
        r.polls == replay_polls(begin_of(session@).0, replies_of(bodies@)),
        r.polls <= bodies@.len(),
        r.clock == replay_clock(begin_of(session@).0, replies_of(bodies@)),
        well_formed(r.state@),
{
    let ghost s0 = begin_of(session@).0;
    let ghost first = first_outcome(begin_of(session@).1);
    let ghost replies = replies_of(bodies@);
    let (mut state, action) = begin(session);
    let mut outcome: Option<Result<AccessToken, AuthError>> = match action {
        Action::Finish(r) => Some(r),
        _ => None,
    };
    let mut polls: usize = 0;
    let mut clock: u64 = 0;
    let mut i: usize = 0;
    proof {
        assert(replies.take(0) =~= Seq::<PollReplyView>::empty());
    }
    while i < bodies.len()
        invariant
            i <= bodies.len(),
            polls <= i,
            replies == replies_of(bodies@),
            well_formed(state@),
            state@ == replay_state(s0, replies.take(i as int)),
            opt_result_view(outcome) == replay_outcome(s0, first, replies.take(i as int)),
            polls == replay_polls(s0, replies.take(i as int)),
            clock == replay_clock(s0, replies.take(i as int)),
        decreases bodies.len() - i,
    {
        proof {
            assert(replies.take(i + 1).drop_last() =~= replies.take(i as int));
            assert(replies.take(i + 1).last() == poll_response_reply(bodies@[i as int]@));
        }
        match state {
            FlowState::Polling(p) => {
                let elapsed: u64 = p.next_due;
                let reply = poll_reply(bodies[i].as_str());
                let (next, action) = poll_step(p, elapsed, reply);
                state = next;
                match action {
                    Action::Finish(r) => {
                        outcome = Some(r);
                    },
                    _ => {},
                }
                polls += 1;
                clock = elapsed;
            },
            other => {
                state = other;
            },
        }
        i += 1;
    }
    proof {
        assert(replies.take(i as int) =~= replies);
    }
    Replay { state, outcome, polls, clock }
}

} // verus!
