//! Whole runs of the poller: what holds of every sequence of events, however
//! long, and of the actions it is answered with.
//!
//! [`after`] and [`actions`] say where a run leaves the poller and what it
//! was answered with; [`Poller::replay`] computes both. The proofs below
//! speak of all runs at once.

use vstd::prelude::*;

use crate::backend::ShutdownErrorView;
use crate::poller::{Action, ActionView, Event, EventView, Phase, Poller, PollerView, QueryOutcome};
use crate::tracker::elapsed;

verus! {

impl PollerView {
    /// The poller after it was told of `event`: moved on where it accepts the
    /// event, unchanged where it refuses it.
    pub open spec fn told(self, event: EventView) -> PollerView {
        if self.accepts(event) {
            self.next(event)
        } else {
            self
        }
    }
}

/// Whether `event` is a query that found at least one player.
pub open spec fn sees_players(event: EventView) -> bool {
    event matches EventView::QueryFinished { outcome, .. } && outcome.sees_players()
}

/// Whether `event` reports that the shutdown command could not be started.
pub open spec fn launch_failed(event: EventView) -> bool {
    event matches EventView::ShutdownFinished { result: Err(error) } && error is Launch
}

/// The poller that started as `start`, after it was told of `events` in order.
pub open spec fn after(start: PollerView, events: Seq<EventView>) -> PollerView
    decreases events.len(),
{
    if events.len() == 0 {
        start
    } else {
        after(start, events.drop_last()).told(events.last())
    }
}

/// The actions with which the poller that started as `start` answered
/// `events`, in order. A refused event is answered with none.
pub open spec fn actions(start: PollerView, events: Seq<EventView>) -> Seq<ActionView>
    decreases events.len(),
{
    if events.len() == 0 {
        Seq::empty()
    } else {
        let before = after(start, events.drop_last());
        let earlier = actions(start, events.drop_last());
        if before.accepts(events.last()) {
            earlier.push(before.action(events.last()))
        } else {
            earlier
        }
    }
}

/// The events of `events` as plain values, in order.
pub open spec fn event_views(events: Seq<Event>) -> Seq<EventView> {
    events.map_values(|event: Event| event@)
}

/// The actions of `actions` as plain values, in order.
pub open spec fn action_views(actions: Seq<Action>) -> Seq<ActionView> {
    actions.map_values(|action: Action| action@)
}

impl Poller {
    /// Tells the poller of `events` in order and returns the actions it
    /// answered with. An event out of turn is passed over: it changes nothing
    /// and is answered with no action.
    pub fn replay(&mut self, events: Vec<Event>) -> (answers: Vec<Action>)
        ensures
            final(self)@ == after(old(self)@, event_views(events@)),
            action_views(answers@) == actions(old(self)@, event_views(events@)),
    {
        let ghost start = self@;
        let ghost told = event_views(events@);
        let mut answers: Vec<Action> = Vec::new();
        assert(told.take(0).len() == 0);
        assert(action_views(answers@) =~= Seq::<ActionView>::empty());
        for event in it: events
            invariant
                it.seq() == events@,
                told == event_views(events@),
                self@ == after(start, told.take(it.index() as int)),
                action_views(answers@) == actions(start, told.take(it.index() as int)),
        {
            let ghost done = it.index() as int;
            let ghost before = self@;
            let ghost earlier = action_views(answers@);
            proof {
                assert(told[done] == event@);
                assert(told.take(done + 1).drop_last() =~= told.take(done));
                assert(told.take(done + 1).last() == event@);
            }
            match self.step(event) {
                Ok(action) => {
                    answers.push(action);
                    assert(action_views(answers@) =~= earlier.push(before.action(told[done])));
                },
                Err(_) => {},
            }
        }
        assert(told.take(events@.len() as int) =~= told);
        answers
    }
}

/// How many of `actions` ask for the shutdown command to be run.
pub open spec fn shutdowns(actions: Seq<ActionView>) -> nat
    decreases actions.len(),
{
    if actions.len() == 0 {
        0
    } else if actions.last() is Shutdown {
        shutdowns(actions.drop_last()) + 1
    } else {
        shutdowns(actions.drop_last())
    }
}

/// Across one event the idle duration either starts anew or does not shrink.
///
/// An accepted query that found players sets the last activity to the
/// query's own time, so the idle duration at that time is zero. Every other
/// event leaves the last activity alone, so the idle duration read at a
/// `later` time is no shorter than the one read at an `earlier` time.
pub proof fn idle_duration_restarts_or_grows(
    poller: PollerView,
    event: EventView,
    earlier: nat,
    later: nat,
)
    requires
        earlier <= later,
    ensures
        poller.accepts(event) && sees_players(event) ==> {
            &&& poller.told(event).last_active_at == event->QueryFinished_now
            &&& elapsed(poller.told(event).last_active_at, event->QueryFinished_now) == 0
        },
        !(poller.accepts(event) && sees_players(event)) ==> {
            &&& poller.told(event).last_active_at == poller.last_active_at
            &&& elapsed(poller.told(event).last_active_at, later) >= elapsed(
                poller.last_active_at,
                earlier,
            )
        },
{
}

/// No run changes what the poller was configured with.
pub proof fn settings_are_kept(start: PollerView, events: Seq<EventView>)
    ensures
        after(start, events).config == start.config,
        after(start, events).target == start.target,
    decreases events.len(),
{
    if events.len() > 0 {
        settings_are_kept(start, events.drop_last());
    }
}

/// Over a run in which no query finds players the idle duration never
/// shrinks: the last activity stays where it was, so the idle duration read
/// at a `later` time after the run is no shorter than the one read at an
/// `earlier` time before it.
pub proof fn idle_duration_grows_without_players(
    start: PollerView,
    events: Seq<EventView>,
    earlier: nat,
    later: nat,
)
    requires
        earlier <= later,
        forall|i: int| 0 <= i < events.len() ==> !sees_players(#[trigger] events[i]),
    ensures
        after(start, events).last_active_at == start.last_active_at,
        elapsed(after(start, events).last_active_at, later) >= elapsed(
            start.last_active_at,
            earlier,
        ),
    decreases events.len(),
{
    if events.len() > 0 {
        let before = events.drop_last();
        assert forall|i: int| 0 <= i < before.len() implies !sees_players(#[trigger] before[i]) by {
            assert(before[i] == events[i]);
        }
        idle_duration_grows_without_players(start, before, earlier, later);
        assert(!sees_players(events[events.len() - 1]));
    }
}

/// A failed query is no sign of an empty server and no sign of players: the
/// poller that accepts it goes back to waiting for the next tick with its
/// idle clock untouched, and every later tick is judged exactly as it would
/// have been judged without the query.
pub proof fn failed_query_leaves_clock(poller: PollerView, now: nat, tick: nat)
    requires
        poller.phase == Phase::AwaitingQuery,
    ensures
        ({
            let event = EventView::QueryFinished { now, outcome: QueryOutcome::Failed };
            &&& poller.accepts(event)
            &&& poller.action(event) == ActionView::AwaitTick
            &&& poller.next(event) == (PollerView { phase: Phase::AwaitingTick, ..poller })
            &&& poller.next(event).last_active_at == poller.last_active_at
            &&& poller.next(event).idle_at(tick) == poller.idle_at(tick)
        }),
{
}

/// The result of a call for shutdown always ends the run of a one-shot
/// target: the poller leaves with that result, be it success or failure.
pub proof fn one_shot_leaves_with_result(poller: PollerView, result: Result<(), ShutdownErrorView>)
    requires
        poller.target.one_shot(),
        poller.phase == Phase::AwaitingShutdown,
    ensures
        ({
            let event = EventView::ShutdownFinished { result };
            &&& poller.accepts(event)
            &&& poller.action(event) == ActionView::Exit { result }
            &&& poller.next(event).phase == Phase::Exited
        }),
{
}

/// Once the run is over, nothing is accepted: every event leaves the poller
/// as it is and is answered with no action.
pub proof fn nothing_follows_exit(poller: PollerView, event: EventView)
    requires
        poller.phase == Phase::Exited,
    ensures
        !poller.accepts(event),
        poller.told(event) == poller,
{
}

/// A one-shot target is asked to shut down at most once in any run, and
/// exactly once in every run that has ended.
///
/// Whatever the events, the actions of a run that starts waiting for a tick
/// hold no call for shutdown while the server has not been found idle, and
/// exactly one from then on; the run is over exactly when its last action is
/// the exit, that exit follows the one call for shutdown, and no action
/// before the last is an exit.
pub proof fn one_shot_stops_once(start: PollerView, events: Seq<EventView>)
    requires
        start.target.one_shot(),
        start.phase == Phase::AwaitingTick,
    ensures
        shutdowns(actions(start, events)) <= 1,
        after(start, events).phase == Phase::Exited <==> actions(start, events).len() > 0
            && actions(start, events).last() is Exit,
        after(start, events).phase == Phase::Exited ==> shutdowns(actions(start, events)) == 1,
        after(start, events).phase == Phase::AwaitingShutdown ==> shutdowns(
            actions(start, events),
        ) == 1,
        after(start, events).phase == Phase::AwaitingTick || after(start, events).phase
            == Phase::AwaitingQuery ==> shutdowns(actions(start, events)) == 0,
        forall|i: int|
            0 <= i < actions(start, events).len() - 1 ==> !(#[trigger] actions(start, events)[i]
                is Exit),
    decreases events.len(),
{
    if events.len() > 0 {
        let earlier = events.drop_last();
        one_shot_stops_once(start, earlier);
        settings_are_kept(start, earlier);
        let before = after(start, earlier);
        let event = events.last();
        let answered = actions(start, earlier);
        if before.accepts(event) {
            let now = answered.push(before.action(event));
            assert(now.drop_last() == answered);
            assert(now.last() == before.action(event));
            assert forall|i: int| 0 <= i < now.len() - 1 implies !(#[trigger] now[i] is Exit) by {
                assert(now[i] == answered[i]);
            }
        }
    }
}

/// A target that is not one-shot never ends the run by itself: as long as the
/// shutdown command can be started, the poller goes on ticking whatever the
/// command and the queries come to, and no action tells the caller to leave.
pub proof fn repeating_target_goes_on(start: PollerView, events: Seq<EventView>)
    requires
        !start.target.one_shot(),
        start.phase != Phase::Exited,
        forall|i: int| 0 <= i < events.len() ==> !launch_failed(#[trigger] events[i]),
    ensures
        after(start, events).phase != Phase::Exited,
        forall|i: int|
            0 <= i < actions(start, events).len() ==> !(#[trigger] actions(start, events)[i]
                is Exit),
    decreases events.len(),
{
    if events.len() > 0 {
        let earlier = events.drop_last();
        assert forall|i: int| 0 <= i < earlier.len() implies !launch_failed(
            #[trigger] earlier[i],
        ) by {
            assert(earlier[i] == events[i]);
        }
        repeating_target_goes_on(start, earlier);
        settings_are_kept(start, earlier);
        assert(!launch_failed(events[events.len() - 1]));
    }
}

/// After a shutdown that was issued for a target that is not one-shot the
/// loop goes on: the poller asks for this tick's query, then waits for the
/// next tick, and a tick that still finds the server idle asks for the
/// shutdown again.
pub proof fn repeating_target_ticks_after_shutdown(
    poller: PollerView,
    query_ended: nat,
    outcome: QueryOutcome,
    next_tick: nat,
)
    requires
        !poller.target.one_shot(),
        poller.phase == Phase::AwaitingShutdown,
    ensures
        ({
            let issued = EventView::ShutdownFinished { result: Ok(()) };
            let queried = EventView::QueryFinished { now: query_ended, outcome };
            let tick = EventView::Tick { now: next_tick };
            let asking = poller.next(issued);
            let waiting = asking.next(queried);
            &&& poller.accepts(issued)
            &&& poller.action(issued) == poller.query()
            &&& asking.accepts(queried)
            &&& asking.action(queried) == ActionView::AwaitTick
            &&& waiting.accepts(tick)
            &&& waiting.idle_at(next_tick) ==> waiting.action(tick) is Shutdown
        }),
{
}

} // verus!
