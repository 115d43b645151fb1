//! The polling loop of one request, as a state machine.
//!
//! The loop itself does no I/O. It is driven: [`PollLoop::begin`] and each
//! [`PollLoop::step`] hand out the next [`PollAction`], the driver performs
//! it and reports what came of it as a [`PollEvent`]:
//!
//! | action | what the driver does | event to report |
//! |---|---|---|
//! | `ReadClock` | reads the clock | `Clock` |
//! | `Call` | calls the upstream service once | `Upstream` |
//! | `Ping` | sends one empty ping to the client | `PingSent` |
//! | `Sleep` | sleeps that long, then reads the clock | `Clock` |
//! | `Finish` | nothing: the loop is over | none |

use crate::budget::{PollBudget, POLL_INTERVAL, POLL_LIMIT};
use crate::upstream::{UpstreamResult, UpstreamResultView};
use vstd::prelude::*;
use vstd::string::StringExecFns;

verus! {

/// How a polling loop ended.
#[derive(Clone, Debug, PartialEq, Eq)]
pub enum PollOutcome {
    /// A poll reported success. Holds the message for the client.
    Succeeded(String),
    /// The budget ran out before any poll reported success.
    TimedOut,
    /// A ping could not be sent: the client is taken to be gone.
    ConnectionFault,
}

/// How a polling loop ended, with its text as a sequence.
pub enum PollOutcomeView {
    Succeeded(Seq<char>),
    TimedOut,
    ConnectionFault,
}

impl View for PollOutcome {
    type V = PollOutcomeView;

    open spec fn view(&self) -> PollOutcomeView {
        match self {
            PollOutcome::Succeeded(message) => PollOutcomeView::Succeeded(message@),
            PollOutcome::TimedOut => PollOutcomeView::TimedOut,
            PollOutcome::ConnectionFault => PollOutcomeView::ConnectionFault,
        }
    }
}

/// Where a polling loop stands.
#[derive(Clone, Debug, PartialEq, Eq)]
pub enum PollPhase {
    /// The next clock reading decides between another poll and a timeout.
    Waiting,
    /// A call to the upstream service is out.
    Calling,
    /// The ping of this round is out. Holds the message for the client
    /// where the call of this round reported success.
    Pinging(Option<String>),
    /// Over: a poll reported success and its ping was sent.
    Succeeded,
    /// Over: the budget ran out.
    TimedOut,
    /// Over: a ping could not be sent.
    Disconnected,
}

/// Where a polling loop stands, with its text as a sequence.
pub enum PollPhaseView {
    Waiting,
    Calling,
    Pinging(Option<Seq<char>>),
    Succeeded,
    TimedOut,
    Disconnected,
}

impl View for PollPhase {
    type V = PollPhaseView;

    open spec fn view(&self) -> PollPhaseView {
        match self {
            PollPhase::Waiting => PollPhaseView::Waiting,
            PollPhase::Calling => PollPhaseView::Calling,
            PollPhase::Pinging(Some(message)) => PollPhaseView::Pinging(Some(message@)),
            PollPhase::Pinging(None) => PollPhaseView::Pinging(None),
            PollPhase::Succeeded => PollPhaseView::Succeeded,
            PollPhase::TimedOut => PollPhaseView::TimedOut,
            PollPhase::Disconnected => PollPhaseView::Disconnected,
        }
    }
}

impl PollPhaseView {
    /// Whether the loop is over.
    pub open spec fn finished(self) -> bool {
        self is Succeeded || self is TimedOut || self is Disconnected
    }
}

/// What the driver reports to the loop.
#[derive(Clone, Debug, PartialEq, Eq)]
pub enum PollEvent {
    /// The clock was read.
    Clock(u64),
    /// A call to the upstream service came back.
    Upstream(UpstreamResult),
    /// A ping was handed to the channel: `true` where the channel took it.
    PingSent(bool),
}

/// What the driver reports to the loop, with its texts as sequences.
pub enum PollEventView {
    Clock(u64),
    Upstream(UpstreamResultView),
    PingSent(bool),
}

impl View for PollEvent {
    type V = PollEventView;

    open spec fn view(&self) -> PollEventView {
        match self {
            PollEvent::Clock(now) => PollEventView::Clock(*now),
            PollEvent::Upstream(result) => PollEventView::Upstream(result@),
            PollEvent::PingSent(sent) => PollEventView::PingSent(*sent),
        }
    }
}

/// What the loop asks of its driver.
#[derive(Clone, Debug, PartialEq, Eq)]
pub enum PollAction {
    /// Read the clock.
    ReadClock,
    /// Call the upstream service once.
    Call,
    /// Send one empty ping to the client.
    Ping,
    /// Sleep for so many nanoseconds, then read the clock.
    Sleep(u64),
    /// Nothing more: the loop is over, with this outcome.
    Finish(PollOutcome),
}

/// What the loop asks of its driver, with its text as a sequence.
pub enum PollActionView {
    ReadClock,
    Call,
    Ping,
    Sleep(u64),
    Finish(PollOutcomeView),
}

impl View for PollAction {
    type V = PollActionView;

    open spec fn view(&self) -> PollActionView {
        match self {
            PollAction::ReadClock => PollActionView::ReadClock,
            PollAction::Call => PollActionView::Call,
            PollAction::Ping => PollActionView::Ping,
            PollAction::Sleep(span) => PollActionView::Sleep(*span),
            PollAction::Finish(outcome) => PollActionView::Finish(outcome@),
        }
    }
}

/// The view of an action that may be missing.
pub open spec fn action_view(action: Option<PollAction>) -> Option<PollActionView> {
    match action {
        Some(action) => Some(action@),
        None => None,
    }
}

/// The polling loop of one request.
#[derive(Clone, Debug, PartialEq, Eq)]
pub struct PollLoop {
    budget: PollBudget,
    phase: PollPhase,
}

/// A polling loop as a value of the model.
pub struct PollLoopView {
    pub budget: PollBudget,
    pub phase: PollPhaseView,
}

impl View for PollLoop {
    type V = PollLoopView;

    closed spec fn view(&self) -> PollLoopView {
        PollLoopView { budget: self.budget, phase: self.phase@ }
    }
}

/// The message that tells the client of a success, for the description of
/// the document that flagged it.
pub open spec fn success_message(payload: Seq<char>) -> Seq<char> {
    "Received success response: "@ + payload
}

/// The message for the client that a poll's outcome calls for, if any.
pub open spec fn message_for(result: UpstreamResultView) -> Option<Seq<char>> {
    match result {
        UpstreamResultView::Success(payload) => Some(success_message(payload)),
        _ => None,
    }
}

/// A loop that has just begun at the clock reading `start`.
pub open spec fn begun(start: u64) -> PollLoopView {
    PollLoopView {
        budget: PollBudget { start, limit: POLL_LIMIT },
        phase: PollPhaseView::Waiting,
    }
}

impl PollLoopView {
    /// This loop in another phase.
    pub open spec fn at(self, phase: PollPhaseView) -> PollLoopView {
        PollLoopView { budget: self.budget, phase }
    }
}

/// One step of the loop: the state after an event, and the action that the
/// event calls for. An event that the loop does not wait for changes nothing
/// and calls for nothing.
pub open spec fn poll_step(state: PollLoopView, event: PollEventView) -> (
    PollLoopView,
    Option<PollActionView>,
) {
    match (state.phase, event) {
        (PollPhaseView::Waiting, PollEventView::Clock(now)) => {
            if state.budget.open_at(now) {
                (state.at(PollPhaseView::Calling), Some(PollActionView::Call))
            } else {
                (
                    state.at(PollPhaseView::TimedOut),
                    Some(PollActionView::Finish(PollOutcomeView::TimedOut)),
                )
            }
        },
        (PollPhaseView::Calling, PollEventView::Upstream(result)) => (
            state.at(PollPhaseView::Pinging(message_for(result))),
            Some(PollActionView::Ping),
        ),
        (PollPhaseView::Pinging(_), PollEventView::PingSent(false)) => (
            state.at(PollPhaseView::Disconnected),
            Some(PollActionView::Finish(PollOutcomeView::ConnectionFault)),
        ),
        (PollPhaseView::Pinging(Some(message)), PollEventView::PingSent(true)) => (
            state.at(PollPhaseView::Succeeded),
            Some(PollActionView::Finish(PollOutcomeView::Succeeded(message))),
        ),
        (PollPhaseView::Pinging(None), PollEventView::PingSent(true)) => (
            state.at(PollPhaseView::Waiting),
            Some(PollActionView::Sleep(POLL_INTERVAL)),
        ),
        _ => (state, None),
    }
}

impl PollLoop {
    /// Begins a loop at the clock reading `start`. The loop waits for a
    /// second reading before its first poll.
    pub fn begin(start: u64) -> (begun: (PollLoop, PollAction))
        ensures
            begun.0@ == self::begun(start),
            begun.1 == PollAction::ReadClock,
    {
        (PollLoop { budget: PollBudget::new(start), phase: PollPhase::Waiting }, PollAction::ReadClock)
    }

    /// The budget of this loop.
    pub fn budget(&self) -> (budget: PollBudget)
        ensures
            budget == self@.budget,
    {
        self.budget
    }

    /// Where this loop stands.
    pub fn phase(&self) -> (phase: &PollPhase)
        ensures
            phase@ == self@.phase,
    {
        &self.phase
    }

    /// Whether this loop is over.
    pub fn is_finished(&self) -> (over: bool)
        ensures
            over == self@.phase.finished(),
    {
        match self.phase {
            PollPhase::Succeeded | PollPhase::TimedOut | PollPhase::Disconnected => true,
            _ => false,
        }
    }

    /// Takes one event and says what to do next. `None` where the loop does
    /// not wait for this event: the loop is then as it was.
    pub fn step(self, event: PollEvent) -> (next: (PollLoop, Option<PollAction>))
        ensures
            (next.0@, action_view(next.1)) == poll_step(self@, event@),
    {
        let budget = self.budget;
        match (self.phase, event) {
            (PollPhase::Waiting, PollEvent::Clock(now)) => {
                if budget.allows(now) {
                    (PollLoop { budget, phase: PollPhase::Calling }, Some(PollAction::Call))
                } else {
                    (
                        PollLoop { budget, phase: PollPhase::TimedOut },
                        Some(PollAction::Finish(PollOutcome::TimedOut)),
                    )
                }
            },
            (PollPhase::Calling, PollEvent::Upstream(result)) => {
                let message = match result {
                    UpstreamResult::Success(payload) => {
                        let mut message = String::from_str("Received success response: ");
                        message.append(payload.as_str());
                        Some(message)
                    },
                    _ => None,
                };
                (PollLoop { budget, phase: PollPhase::Pinging(message) }, Some(PollAction::Ping))
            },
            (PollPhase::Pinging(_), PollEvent::PingSent(false)) => (
                PollLoop { budget, phase: PollPhase::Disconnected },
                Some(PollAction::Finish(PollOutcome::ConnectionFault)),
            ),
            (PollPhase::Pinging(Some(message)), PollEvent::PingSent(true)) => (
                PollLoop { budget, phase: PollPhase::Succeeded },
                Some(PollAction::Finish(PollOutcome::Succeeded(message))),
            ),
            (PollPhase::Pinging(None), PollEvent::PingSent(true)) => (
                PollLoop { budget, phase: PollPhase::Waiting },
                Some(PollAction::Sleep(POLL_INTERVAL)),
            ),
            (phase, _) => (PollLoop { budget, phase }, None),
        }
    }
}

} // verus!
