//! The polling loop of the device-code grant, one decision at a time.
//!
//! `step` takes the state of a flow and what just happened, and gives the
//! next state and what the caller must do. Times are seconds on the caller's
//! clock since the session was opened.

use crate::device::{PollReply, PollReplyView, MIN_REPOLL_SECS};
use crate::model::{
    AccessToken, AccessTokenView, AuthError, AuthErrorView, DeviceCodeSession, SessionView,
};
use crate::token::token_result_view;
use vstd::prelude::*;

verus! {

/// A session that is being polled.
#[derive(Clone, Debug, PartialEq, Eq)]
pub struct Polling {
    /// The session as it was opened; it never changes.
    pub session: DeviceCodeSession,
    /// The delay before the poll that is due next.
    pub current_interval: u64,
    /// The time at which the poll that is due next may be sent.
    pub next_due: u64,
}

pub ghost struct PollingView {
    pub session: SessionView,
    pub current_interval: u64,
    pub next_due: u64,
}

impl View for Polling {
    type V = PollingView;

    open spec fn view(&self) -> PollingView {
        PollingView {
            session: self.session@,
            current_interval: self.current_interval,
            next_due: self.next_due,
        }
    }
}

/// Where a device-code flow stands.
#[derive(Clone, Debug, PartialEq, Eq)]
pub enum FlowState {
    /// The request that opens the session is under way.
    Initiated,
    /// The user was prompted and a poll is due.
    Polling(Polling),
    /// A token was handed out.
    Succeeded,
    /// The provider refused.
    Denied,
    /// The session's lifetime ran out.
    Expired,
    /// The flow broke off on a transport or protocol error.
    Failed,
}

pub ghost enum FlowStateView {
    Initiated,
    Polling(PollingView),
    Succeeded,
    Denied,
    Expired,
    Failed,
}

impl View for FlowState {
    type V = FlowStateView;

    open spec fn view(&self) -> FlowStateView {
        match self {
            FlowState::Initiated => FlowStateView::Initiated,
            FlowState::Polling(p) => FlowStateView::Polling(p@),
            FlowState::Succeeded => FlowStateView::Succeeded,
            FlowState::Denied => FlowStateView::Denied,
            FlowState::Expired => FlowStateView::Expired,
            FlowState::Failed => FlowStateView::Failed,
        }
    }
}

/// What the caller reports to the flow.
#[derive(Debug, PartialEq, Eq)]
pub enum Event {
    /// The device-code endpoint answered.
    SessionAnswered(Result<DeviceCodeSession, AuthError>),
    /// A poll was answered, at the given time.
    PollAnswered { elapsed: u64, reply: PollReply },
    /// A request could not be delivered.
    TransportFailed,
}

pub ghost enum EventView {
    SessionAnswered(Result<SessionView, AuthErrorView>),
    PollAnswered { elapsed: u64, reply: PollReplyView },
    TransportFailed,
}

impl View for Event {
    type V = EventView;

    open spec fn view(&self) -> EventView {
        match self {
            Event::SessionAnswered(Ok(s)) => EventView::SessionAnswered(Ok(s@)),
            Event::SessionAnswered(Err(e)) => EventView::SessionAnswered(Err(e@)),
            Event::PollAnswered { elapsed, reply } => EventView::PollAnswered {
                elapsed: *elapsed,
                reply: reply@,
            },
            Event::TransportFailed => EventView::TransportFailed,
        }
    }
}

/// What the caller must do next.
#[derive(Debug, PartialEq, Eq)]
pub enum Action {
    /// Show the user code and the verification address, wait, then poll.
    PromptAndPoll { wait: u64 },
    /// Report that the flow still waits, wait, then poll.
    WaitAndPoll { wait: u64 },
    /// Stop: the flow ended with this result.
    Finish(Result<AccessToken, AuthError>),
    /// Nothing: the event does not belong to the state.
    Ignore,
}

pub ghost enum ActionView {
    PromptAndPoll { wait: u64 },
    WaitAndPoll { wait: u64 },
    Finish(Result<AccessTokenView, AuthErrorView>),
    Ignore,
}

impl View for Action {
    type V = ActionView;

    open spec fn view(&self) -> ActionView {
        match self {
            Action::PromptAndPoll { wait } => ActionView::PromptAndPoll { wait: *wait },
            Action::WaitAndPoll { wait } => ActionView::WaitAndPoll { wait: *wait },
            Action::Finish(r) => ActionView::Finish(token_result_view(*r)),
            Action::Ignore => ActionView::Ignore,
        }
    }
}

/// The delay before the poll that follows a pending answer: the delay so far,
/// widened to the least re-poll delay. It does not depend on the session's
/// lifetime.
pub open spec fn widened(current_interval: u64) -> u64 {
    if current_interval < MIN_REPOLL_SECS {
        MIN_REPOLL_SECS
    } else {
        current_interval
    }
}

/// The start of a flow on a session: the first poll is due after the
/// session's interval, unless that is no earlier than the deadline.
pub open spec fn begin_of(session: SessionView) -> (FlowStateView, ActionView) {
    if session.interval < session.expires_in {
        (
            FlowStateView::Polling(
                PollingView {
                    session,
                    current_interval: session.interval,
                    next_due: session.interval,
                },
            ),
            ActionView::PromptAndPoll { wait: session.interval },
        )
    } else {
        (FlowStateView::Expired, ActionView::Finish(Err(AuthErrorView::SessionExpired)))
    }
}

/// The decision on a poll's answer that came at time `elapsed`.
pub open spec fn poll_step_of(p: PollingView, elapsed: u64, reply: PollReplyView) -> (
    FlowStateView,
    ActionView,
) {
    if elapsed > p.session.expires_in {
        (FlowStateView::Expired, ActionView::Finish(Err(AuthErrorView::SessionExpired)))
    } else {
        match reply {
            PollReplyView::Token(t) => (FlowStateView::Succeeded, ActionView::Finish(Ok(t))),
            PollReplyView::Pending => {
                let wait = widened(p.current_interval);
                if wait < p.session.expires_in - elapsed {
                    (
                        FlowStateView::Polling(
                            PollingView {
                                session: p.session,
                                current_interval: wait,
                                next_due: (elapsed + wait) as u64,
                            },
                        ),
                        ActionView::WaitAndPoll { wait },
                    )
                } else {
                    (
                        FlowStateView::Expired,
                        ActionView::Finish(Err(AuthErrorView::SessionExpired)),
                    )
                }
            },
            PollReplyView::Rejected(e) => if e == AuthErrorView::SessionExpired {
                (FlowStateView::Expired, ActionView::Finish(Err(e)))
            } else {
                (FlowStateView::Denied, ActionView::Finish(Err(e)))
            },
            PollReplyView::Malformed => (
                FlowStateView::Failed,
                ActionView::Finish(Err(AuthErrorView::Protocol)),
            ),
        }
    }
}

/// The transition of the flow: the next state and the action, for every
/// state and event.
pub open spec fn step_of(s: FlowStateView, e: EventView) -> (FlowStateView, ActionView) {
    match s {
        FlowStateView::Initiated => match e {
            EventView::SessionAnswered(Ok(session)) => begin_of(session),
            EventView::SessionAnswered(Err(err)) => (
                FlowStateView::Failed,
                ActionView::Finish(Err(err)),
            ),
            EventView::TransportFailed => (
                FlowStateView::Failed,
                ActionView::Finish(Err(AuthErrorView::Transport)),
            ),
            EventView::PollAnswered { .. } => (s, ActionView::Ignore),
        },
        FlowStateView::Polling(p) => match e {
            EventView::PollAnswered { elapsed, reply } => poll_step_of(p, elapsed, reply),
            EventView::TransportFailed => (
                FlowStateView::Failed,
                ActionView::Finish(Err(AuthErrorView::Transport)),
            ),
            EventView::SessionAnswered(_) => (s, ActionView::Ignore),
        },
        _ => (s, ActionView::Ignore),
    }
}

/// The view of a state and an action.
pub open spec fn step_view(r: (FlowState, Action)) -> (FlowStateView, ActionView) {
    (r.0@, r.1@)
}

/// Whether a state keeps the flow's promises: while a session is polled, the
/// delay is no shorter than the session's interval, the next poll is due no
/// earlier than one delay after the session was opened, and it is due
/// strictly before the deadline.
pub open spec fn well_formed(s: FlowStateView) -> bool {
    s matches FlowStateView::Polling(p) ==> p.current_interval >= p.session.interval && p.next_due
        >= p.current_interval && p.next_due < p.session.expires_in
}

/// Whether a flow has ended.
pub open spec fn terminal(s: FlowStateView) -> bool {
    s is Succeeded || s is Denied || s is Expired || s is Failed
}

/// The state in which every flow starts.
pub fn start() -> (r: FlowState)
    ensures
        r@ == FlowStateView::Initiated,
{
    FlowState::Initiated
}

/// Starts polling a session that was just opened.
pub fn begin(session: DeviceCodeSession) -> (r: (FlowState, Action))
    ensures
        step_view(r) == begin_of(session@),
{
    if session.interval < session.expires_in {
        let wait: u64 = session.interval;
        (
            FlowState::Polling(Polling { session, current_interval: wait, next_due: wait }),
            Action::PromptAndPoll { wait },
        )
    } else {
        (FlowState::Expired, Action::Finish(Err(AuthError::SessionExpired)))
    }
}

/// Decides on the answer to a poll.
pub fn poll_step(p: Polling, elapsed: u64, reply: PollReply) -> (r: (FlowState, Action))
    ensures
        step_view(r) == poll_step_of(p@, elapsed, reply@),
{
    if elapsed > p.session.expires_in {
        return (FlowState::Expired, Action::Finish(Err(AuthError::SessionExpired)));
    }
    match reply {
        PollReply::Token(t) => (FlowState::Succeeded, Action::Finish(Ok(t))),
        PollReply::Pending => {
            let wait: u64 = if p.current_interval < MIN_REPOLL_SECS {
                MIN_REPOLL_SECS
            } else {
                p.current_interval
            };
            if wait < p.session.expires_in - elapsed {
                (
                    FlowState::Polling(
                        Polling {
                            session: p.session,
                            current_interval: wait,
                            next_due: elapsed + wait,
                        },
                    ),
                    Action::WaitAndPoll { wait },
                )
            } else {
                (FlowState::Expired, Action::Finish(Err(AuthError::SessionExpired)))
            }
        },
        PollReply::Rejected(e) => match e {
            AuthError::SessionExpired => (FlowState::Expired, Action::Finish(Err(e))),
            _ => (FlowState::Denied, Action::Finish(Err(e))),
        },
        PollReply::Malformed => (FlowState::Failed, Action::Finish(Err(AuthError::Protocol))),
    }
}

/// Advances a flow by one event. An event that does not belong to the state,
/// and every event after the flow has ended, leaves the state as it is and
/// asks for nothing.
pub fn step(state: FlowState, event: Event) -> (r: (FlowState, Action))
    ensures
        step_view(r) == step_of(state@, event@),
        well_formed(state@) ==> well_formed(r.0@),
{
    match state {
        FlowState::Initiated => match event {
            Event::SessionAnswered(Ok(session)) => begin(session),
            Event::SessionAnswered(Err(err)) => (FlowState::Failed, Action::Finish(Err(err))),
            Event::TransportFailed => (
                FlowState::Failed,
                Action::Finish(Err(AuthError::Transport)),
            ),
            Event::PollAnswered { .. } => (FlowState::Initiated, Action::Ignore),
        },
        FlowState::Polling(p) => match event {
            Event::PollAnswered { elapsed, reply } => poll_step(p, elapsed, reply),
            Event::TransportFailed => (
                FlowState::Failed,
                Action::Finish(Err(AuthError::Transport)),
            ),
            Event::SessionAnswered(_) => (FlowState::Polling(p), Action::Ignore),
        },
        other => (other, Action::Ignore),
    }
}

} // verus!
