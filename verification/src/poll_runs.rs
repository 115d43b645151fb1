//! Whole runs of the polling loop, and what holds of every one of them.
//!
//! A run is a loop and the events that its driver reports, in order. The
//! calls and pings of a run are the `Call` and `Ping` actions that the loop
//! hands out along it.

use crate::budget::{POLL_INTERVAL, POLL_LIMIT};
use crate::poll::{
    begun,
    poll_step,
    success_message,
    PollActionView,
    PollEventView,
    PollLoopView,
    PollOutcomeView,
    PollPhaseView,
};
use crate::upstream::UpstreamResultView;
use vstd::prelude::*;

verus! {

/// The loop after a run of events.
pub open spec fn poll_run(state: PollLoopView, events: Seq<PollEventView>) -> PollLoopView
    decreases events.len(),
{
    if events.len() == 0 {
        state
    } else {
        poll_run(poll_step(state, events[0]).0, events.drop_first())
    }
}

/// The actions that one event calls for: one, or none where the loop does
/// not wait for the event.
pub open spec fn actions_at(state: PollLoopView, event: PollEventView) -> Seq<PollActionView> {
    match poll_step(state, event).1 {
        Some(action) => seq![action],
        None => Seq::empty(),
    }
}

/// The actions that a run asks for, in order.
pub open spec fn actions_of(state: PollLoopView, events: Seq<PollEventView>) -> Seq<PollActionView>
    decreases events.len(),
{
    if events.len() == 0 {
        Seq::empty()
    } else {
        actions_at(state, events[0]) + actions_of(
            poll_step(state, events[0]).0,
            events.drop_first(),
        )
    }
}

/// How many calls to the upstream service a run asks for.
pub open spec fn calls_in(state: PollLoopView, events: Seq<PollEventView>) -> nat {
    actions_of(state, events).filter(|action: PollActionView| action is Call).len()
}

/// How many pings a run asks for.
pub open spec fn pings_in(state: PollLoopView, events: Seq<PollEventView>) -> nat {
    actions_of(state, events).filter(|action: PollActionView| action is Ping).len()
}

/// Whether one action may come directly after another: a call comes after a
/// clock reading, its ping after the call, and the sleep after the ping; the
/// loop finishes with a timeout after a clock reading, and with a success or
/// a connection fault after a ping; nothing comes after the finish.
pub open spec fn may_follow(earlier: PollActionView, later: PollActionView) -> bool {
    match earlier {
        PollActionView::ReadClock | PollActionView::Sleep(_) => later is Call || later
            == PollActionView::Finish(PollOutcomeView::TimedOut),
        PollActionView::Call => later is Ping,
        PollActionView::Ping => later == PollActionView::Sleep(POLL_INTERVAL) || (
        later matches PollActionView::Finish(outcome) && !(outcome is TimedOut)),
        PollActionView::Finish(_) => false,
    }
}

/// Whether a loop in this phase was last asked for this action.
pub open spec fn phase_after(phase: PollPhaseView, action: PollActionView) -> bool {
    match phase {
        PollPhaseView::Waiting => action is ReadClock || action is Sleep,
        PollPhaseView::Calling => action is Call,
        PollPhaseView::Pinging(_) => action is Ping,
        _ => action is Finish,
    }
}

/// Whether a waiting loop takes this event as the clock reading it waits for.
pub open spec fn reads_clock(state: PollLoopView, event: PollEventView) -> bool {
    state.phase is Waiting && event is Clock
}

/// The least reading that the clock may show next, after one event. A
/// reading that the loop waited for is followed by a call, a ping and a sleep
/// of the polling interval, so the next one lies at least that much later.
pub open spec fn floor_step(state: PollLoopView, floor: int, event: PollEventView) -> int {
    if reads_clock(state, event) {
        event->Clock_0 + POLL_INTERVAL
    } else {
        floor
    }
}

/// The least reading that the clock may show next, after a run of events.
pub open spec fn floor_after(state: PollLoopView, floor: int, events: Seq<PollEventView>) -> int
    decreases events.len(),
{
    if events.len() == 0 {
        floor
    } else {
        floor_after(
            poll_step(state, events[0]).0,
            floor_step(state, floor, events[0]),
            events.drop_first(),
        )
    }
}

/// Whether the clock keeps pace along a run: no reading that the loop waits
/// for is below `floor` at first, nor, later, less than the polling interval
/// after the one before it. This holds where the clock never runs backwards
/// and every sleep lasts as long as it was asked to.
pub open spec fn paced(state: PollLoopView, floor: int, events: Seq<PollEventView>) -> bool
    decreases events.len(),
{
    if events.len() == 0 {
        true
    } else {
        &&& reads_clock(state, events[0]) ==> events[0]->Clock_0 >= floor
        &&& paced(
            poll_step(state, events[0]).0,
            floor_step(state, floor, events[0]),
            events.drop_first(),
        )
    }
}

/// Whether an event reports a successful poll.
pub open spec fn reports_success(event: PollEventView) -> bool {
    event matches PollEventView::Upstream(UpstreamResultView::Success(_))
}

/// Whether an event reports a ping that could not be sent.
pub open spec fn reports_lost_ping(event: PollEventView) -> bool {
    event == PollEventView::PingSent(false)
}

/// The calls that are out and have had no ping yet: one while a call is
/// out, none otherwise.
pub open spec fn calls_ahead(phase: PollPhaseView) -> nat {
    if phase is Calling {
        1
    } else {
        0
    }
}

/// Whether a loop holds no success: it has not succeeded and is not about
/// to.
pub open spec fn holds_no_success(phase: PollPhaseView) -> bool {
    !(phase is Succeeded) && !(phase matches PollPhaseView::Pinging(Some(_)))
}

/// The calls and pings of a run are those of its first event and those of
/// the rest.
pub proof fn lemma_counts_unfold(state: PollLoopView, events: Seq<PollEventView>)
    requires
        events.len() > 0,
    ensures
        calls_in(state, events) == calls_in(poll_step(state, events[0]).0, events.drop_first()) + (
        if poll_step(state, events[0]).1 == Some(PollActionView::Call) {
            1nat
        } else {
            0nat
        }),
        pings_in(state, events) == pings_in(poll_step(state, events[0]).0, events.drop_first()) + (
        if poll_step(state, events[0]).1 == Some(PollActionView::Ping) {
            1nat
        } else {
            0nat
        }),
{
    let here = actions_at(state, events[0]);
    let rest = actions_of(poll_step(state, events[0]).0, events.drop_first());
    let is_call = |action: PollActionView| action is Call;
    let is_ping = |action: PollActionView| action is Ping;
    Seq::filter_distributes_over_add(here, rest, is_call);
    Seq::filter_distributes_over_add(here, rest, is_ping);
    reveal_with_fuel(Seq::filter, 2);
    assert(here.len() > 0 ==> here.drop_last() =~= Seq::<PollActionView>::empty());
}

/// A run of no events asks for nothing.
pub proof fn lemma_counts_of_none(state: PollLoopView)
    ensures
        calls_in(state, Seq::empty()) == 0,
        pings_in(state, Seq::empty()) == 0,
{
    reveal_with_fuel(Seq::filter, 1);
}

/// A run of one event is one step.
pub proof fn lemma_run_of_one(state: PollLoopView, event: PollEventView)
    ensures
        poll_run(state, seq![event]) == poll_step(state, event).0,
        actions_of(state, seq![event]) == actions_at(state, event),
        calls_in(state, seq![event]) == if poll_step(state, event).1 == Some(PollActionView::Call) {
            1nat
        } else {
            0nat
        },
        pings_in(state, seq![event]) == if poll_step(state, event).1 == Some(PollActionView::Ping) {
            1nat
        } else {
            0nat
        },
{
    let one = seq![event];
    let next = poll_step(state, event).0;
    assert(one[0] == event);
    assert(one.drop_first() =~= Seq::<PollEventView>::empty());
    assert(poll_run(next, one.drop_first()) == next);
    assert(actions_of(next, one.drop_first()) =~= Seq::<PollActionView>::empty());
    assert(actions_of(state, one) =~= actions_at(state, event));
    lemma_counts_unfold(state, one);
    lemma_counts_of_none(next);
}

/// A run of two parts is the run of the first part, followed by the run of
/// the second from where the first ended.
pub proof fn lemma_run_split(
    state: PollLoopView,
    floor: int,
    first: Seq<PollEventView>,
    second: Seq<PollEventView>,
)
    ensures
        poll_run(state, first + second) == poll_run(poll_run(state, first), second),
        actions_of(state, first + second) == actions_of(state, first) + actions_of(
            poll_run(state, first),
            second,
        ),
        calls_in(state, first + second) == calls_in(state, first) + calls_in(
            poll_run(state, first),
            second,
        ),
        pings_in(state, first + second) == pings_in(state, first) + pings_in(
            poll_run(state, first),
            second,
        ),
        floor_after(state, floor, first + second) == floor_after(
            poll_run(state, first),
            floor_after(state, floor, first),
            second,
        ),
        paced(state, floor, first + second) == (paced(state, floor, first) && paced(
            poll_run(state, first),
            floor_after(state, floor, first),
            second,
        )),
    decreases first.len(),
{
    if first.len() == 0 {
        assert(first + second =~= second);
        assert(actions_of(state, first) + actions_of(state, second) =~= actions_of(state, second));
        lemma_counts_of_none(state);
    } else {
        let next = poll_step(state, first[0]).0;
        assert((first + second)[0] == first[0]);
        assert((first + second).drop_first() =~= first.drop_first() + second);
        lemma_run_split(next, floor_step(state, floor, first[0]), first.drop_first(), second);
        assert(actions_of(state, first + second) =~= actions_of(state, first) + actions_of(
            poll_run(state, first),
            second,
        ));
        lemma_counts_unfold(state, first + second);
        lemma_counts_unfold(state, first);
    }
}

/// No event changes the budget of a loop.
pub proof fn lemma_budget_is_kept(state: PollLoopView, events: Seq<PollEventView>)
    ensures
        poll_run(state, events).budget == state.budget,
    decreases events.len(),
{
    if events.len() > 0 {
        lemma_budget_is_kept(poll_step(state, events[0]).0, events.drop_first());
    }
}

/// A loop that is over stays as it is, and asks for nothing more, whatever
/// is reported to it.
pub proof fn law_finished_loop_is_silent(state: PollLoopView, events: Seq<PollEventView>)
    requires
        state.phase.finished(),
    ensures
        poll_run(state, events) == state,
        actions_of(state, events) == Seq::<PollActionView>::empty(),
        calls_in(state, events) == 0,
        pings_in(state, events) == 0,
        forall|event: PollEventView| #[trigger]
            poll_step(state, event) == (state, None::<PollActionView>),
    decreases events.len(),
{
    if events.len() > 0 {
        law_finished_loop_is_silent(state, events.drop_first());
        lemma_counts_unfold(state, events);
        assert(actions_of(state, events) =~= Seq::<PollActionView>::empty());
    } else {
        lemma_counts_of_none(state);
    }
}

/// Every call gets its ping, and no ping goes out without a call: along any
/// run the loop asks for as many pings as calls, but for the one call that is
/// still out.
pub proof fn lemma_one_ping_per_call(state: PollLoopView, events: Seq<PollEventView>)
    ensures
        calls_ahead(state.phase) + calls_in(state, events) == pings_in(state, events) + calls_ahead(
            poll_run(state, events).phase,
        ),
    decreases events.len(),
{
    if events.len() > 0 {
        lemma_one_ping_per_call(poll_step(state, events[0]).0, events.drop_first());
        lemma_counts_unfold(state, events);
    } else {
        lemma_counts_of_none(state);
    }
}

/// One ping per call: at any point of a run, a loop has asked for as many
/// pings as calls, less the one call that is still out. The round in which a
/// poll reports success has its ping like any other.
pub proof fn law_pings_match_calls(start: u64, events: Seq<PollEventView>)
    ensures
        calls_in(begun(start), events) == pings_in(begun(start), events) + calls_ahead(
            poll_run(begun(start), events).phase,
        ),
{
    lemma_one_ping_per_call(begun(start), events);
}

/// A poll that reports success ends the loop after its own ping, with no
/// call and no ping after it. Where the success comes on the call that is
/// out after the events `before`, and its ping is sent, the loop ends as
/// succeeded with the message of that success, having asked for exactly the
/// calls up to that one and as many pings, whatever is reported `after`.
pub proof fn law_success_ends_the_loop(
    start: u64,
    before: Seq<PollEventView>,
    payload: Seq<char>,
    after: Seq<PollEventView>,
)
    requires
        poll_run(begun(start), before).phase is Calling,
    ensures
        ({
            let success = PollEventView::Upstream(UpstreamResultView::Success(payload));
            let pinged = PollEventView::PingSent(true);
            let calling = poll_run(begun(start), before);
            let pinging = poll_step(calling, success).0;
            let whole = before + seq![success, pinged] + after;
            &&& poll_step(calling, success).1 == Some(PollActionView::Ping)
            &&& poll_step(pinging, pinged).1 == Some(
                PollActionView::Finish(PollOutcomeView::Succeeded(success_message(payload))),
            )
            &&& poll_run(begun(start), whole).phase is Succeeded
            &&& calls_in(begun(start), whole) == calls_in(begun(start), before)
            &&& pings_in(begun(start), whole) == calls_in(begun(start), before)
            &&& calls_in(begun(start), before) >= 1
        }),
{
    let success = PollEventView::Upstream(UpstreamResultView::Success(payload));
    let pinged = PollEventView::PingSent(true);
    let calling = poll_run(begun(start), before);
    let pinging = poll_step(calling, success).0;
    let ended = poll_step(pinging, pinged).0;
    let round = seq![success, pinged];
    assert(round =~= seq![success] + seq![pinged]);
    lemma_run_of_one(calling, success);
    lemma_run_of_one(pinging, pinged);
    lemma_run_split(calling, start as int, seq![success], seq![pinged]);
    lemma_run_split(begun(start), start as int, before, round);
    lemma_run_split(begun(start), start as int, before + round, after);
    law_finished_loop_is_silent(ended, after);
    law_pings_match_calls(start, before);
}

/// A ping that cannot be sent ends the loop at once with a connection fault,
/// which is no timeout, and the loop asks for no call and no ping after it.
pub proof fn law_lost_ping_ends_the_loop(state: PollLoopView, after: Seq<PollEventView>)
    requires
        state.phase is Pinging,
    ensures
        ({
            let (ended, action) = poll_step(state, PollEventView::PingSent(false));
            &&& action == Some(PollActionView::Finish(PollOutcomeView::ConnectionFault))
            &&& PollOutcomeView::ConnectionFault != PollOutcomeView::TimedOut
            &&& ended.phase is Disconnected
            &&& poll_run(ended, after) == ended
            &&& calls_in(ended, after) == 0
            &&& pings_in(ended, after) == 0
        }),
{
    law_finished_loop_is_silent(poll_step(state, PollEventView::PingSent(false)).0, after);
}

/// Where the clock keeps pace from `floor` on, a run asks for no call once
/// the budget is spent at `floor`, and else for calls that start at least
/// the polling interval apart, all within the budget.
pub proof fn lemma_paced_calls(state: PollLoopView, floor: int, events: Seq<PollEventView>)
    requires
        floor >= state.budget.start,
        paced(state, floor, events),
    ensures
        calls_in(state, events) == 0 || (calls_in(state, events) - 1) * POLL_INTERVAL
            < state.budget.limit - (floor - state.budget.start),
        floor_after(state, floor, events) >= floor + calls_in(state, events) * POLL_INTERVAL,
    decreases events.len(),
{
    if events.len() > 0 {
        let event = events[0];
        let next = poll_step(state, event).0;
        let rest = events.drop_first();
        lemma_paced_calls(next, floor_step(state, floor, event), rest);
        lemma_counts_unfold(state, events);
    } else {
        lemma_counts_of_none(state);
    }
}

/// The budget bounds the calls: where the clock keeps pace, a loop asks for
/// at most 36 calls, which is the budget of 180 s over the interval of 5 s.
pub proof fn law_budget_bounds_calls(start: u64, events: Seq<PollEventView>)
    requires
        paced(begun(start), start as int, events),
    ensures
        calls_in(begun(start), events) <= 36,
        calls_in(begun(start), events) * POLL_INTERVAL < POLL_LIMIT + POLL_INTERVAL,
{
    lemma_paced_calls(begun(start), start as int, events);
}

/// After 36 calls the budget is spent: where the clock keeps pace, the next
/// reading that the loop waits for ends it with a timeout.
pub proof fn law_budget_runs_out(start: u64, events: Seq<PollEventView>, now: u64)
    requires
        paced(begun(start), start as int, events.push(PollEventView::Clock(now))),
        poll_run(begun(start), events).phase is Waiting,
        calls_in(begun(start), events) >= 36,
    ensures
        poll_step(poll_run(begun(start), events), PollEventView::Clock(now)) == (
            poll_run(begun(start), events).at(PollPhaseView::TimedOut),
            Some(PollActionView::Finish(PollOutcomeView::TimedOut)),
        ),
{
    let reading = seq![PollEventView::Clock(now)];
    assert(events.push(PollEventView::Clock(now)) =~= events + reading);
    lemma_run_split(begun(start), start as int, events, reading);
    lemma_paced_calls(begun(start), start as int, events);
    lemma_budget_is_kept(begun(start), events);
}

/// From a loop that holds no success, a run without a success report ends
/// in a loop that holds none; and one without a lost ping does not end as
/// disconnected, unless it began so.
pub proof fn lemma_no_success(state: PollLoopView, events: Seq<PollEventView>)
    requires
        holds_no_success(state.phase),
        forall|i: int| 0 <= i < events.len() ==> !reports_success(#[trigger] events[i]),
    ensures
        holds_no_success(poll_run(state, events).phase),
        (forall|i: int| 0 <= i < events.len() ==> !reports_lost_ping(#[trigger] events[i]))
            && !(state.phase is Disconnected) ==> !(poll_run(state, events).phase is Disconnected),
    decreases events.len(),
{
    if events.len() > 0 {
        let rest = events.drop_first();
        assert(!reports_success(events[0]));
        assert forall|i: int| 0 <= i < rest.len() implies !reports_success(#[trigger] rest[i]) by {
            assert(rest[i] == events[i + 1]);
        }
        lemma_no_success(poll_step(state, events[0]).0, rest);
        if forall|i: int| 0 <= i < events.len() ==> !reports_lost_ping(#[trigger] events[i]) {
            assert(!reports_lost_ping(events[0]));
            assert forall|i: int| 0 <= i < rest.len() implies !reports_lost_ping(
                #[trigger] rest[i],
            ) by {
                assert(rest[i] == events[i + 1]);
            }
        }
    }
}

/// Without a success there is no success: where no poll of a run reports
/// one, the loop does not end as succeeded; where moreover no ping is lost,
/// it can only end with a timeout.
pub proof fn law_no_success_no_relay(start: u64, events: Seq<PollEventView>)
    requires
        forall|i: int| 0 <= i < events.len() ==> !reports_success(#[trigger] events[i]),
    ensures
        !(poll_run(begun(start), events).phase is Succeeded),
        (forall|i: int| 0 <= i < events.len() ==> !reports_lost_ping(#[trigger] events[i]))
            && poll_run(begun(start), events).phase.finished() ==> poll_run(
            begun(start),
            events,
        ).phase is TimedOut,
{
    lemma_no_success(begun(start), events);
}

/// From a loop that was last asked for `last`, the actions of a run come in
/// order, each one after one that it may follow.
pub proof fn lemma_actions_in_order(
    state: PollLoopView,
    last: PollActionView,
    events: Seq<PollEventView>,
)
    requires
        phase_after(state.phase, last),
    ensures
        ({
            let actions = seq![last] + actions_of(state, events);
            forall|i: int|
                0 <= i < actions.len() - 1 ==> may_follow(#[trigger] actions[i], actions[i + 1])
        }),
    decreases events.len(),
{
    let actions = seq![last] + actions_of(state, events);
    if events.len() > 0 {
        let (next, action) = poll_step(state, events[0]);
        let rest = events.drop_first();
        match action {
            Some(asked) => {
                lemma_actions_in_order(next, asked, rest);
                let tail = seq![asked] + actions_of(next, rest);
                assert(actions =~= seq![last] + tail);
                assert forall|i: int| 0 <= i < actions.len() - 1 implies may_follow(
                    #[trigger] actions[i],
                    actions[i + 1],
                ) by {
                    if i == 0 {
                        assert(actions[1] == tail[0]);
                    } else {
                        assert(actions[i] == tail[i - 1]);
                        assert(actions[i + 1] == tail[i]);
                    }
                }
            },
            None => {
                lemma_actions_in_order(state, last, rest);
                assert(actions =~= seq![last] + actions_of(state, rest));
            },
        }
    }
}

/// The rounds of a loop keep their order: after the reading of the clock
/// with which a loop begins, every action of a run is one that may follow
/// the action before it. So calls never overlap, the ping of a round goes
/// out after the call of that round has come back and before the sleep that
/// leads to the next round, and nothing is asked for after the finish.
pub proof fn law_rounds_keep_their_order(start: u64, events: Seq<PollEventView>)
    ensures
        ({
            let actions = seq![PollActionView::ReadClock] + actions_of(begun(start), events);
            forall|i: int|
                0 <= i < actions.len() - 1 ==> may_follow(#[trigger] actions[i], actions[i + 1])
        }),
{
    lemma_actions_in_order(begun(start), PollActionView::ReadClock, events);
}

} // verus!
