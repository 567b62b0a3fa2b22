//! The poller: one idle check per tick, as a state machine.
//!
//! A tick goes through up to three steps. When the tick arrives the poller
//! looks at the idle clock, which still shows what was known at the tick
//! before: players who have just arrived are seen by this tick's query and
//! count from the next tick on. If the server has been idle for longer than
//! the timeout, the poller asks for the shutdown command to be run and waits
//! for its result. Unless that ends the run, it then asks for the number of
//! players, and a query that finds players restarts the idle clock.
//!
//! The poller performs none of this. [`Poller::step`] takes what happened as
//! an [`Event`] and answers with the next [`Action`]; the caller does the
//! waiting, the running and the asking.

use vstd::prelude::*;

use crate::backend::{stop_view, ShutdownError, ShutdownErrorView, ShutdownTarget, ShutdownTargetView};
use crate::command::{CommandLine, CommandLineView};
use crate::config::{IdleConfig, IdleConfigView};
use crate::tracker::{elapsed, idle_between, ActivityState};

verus! {

/// What the poller is waiting for.
#[derive(Clone, Copy, Debug, PartialEq, Eq, Structural)]
pub enum Phase {
    /// The next tick.
    AwaitingTick,
    /// The result of the shutdown command it asked for.
    AwaitingShutdown,
    /// The answer to the query it asked for.
    AwaitingQuery,
    /// Nothing: the run is over.
    Exited,
}

/// What a query of the monitored server came to.
#[derive(Clone, Copy, Debug, PartialEq, Eq, Structural)]
pub enum QueryOutcome {
    /// The server answered.
    Players {
        /// The number of players connected.
        online: u32,
    },
    /// The server could not be reached or its answer not be read. Nothing is
    /// known about the players then: not that there are none.
    Failed,
}

impl QueryOutcome {
    /// Whether the query found at least one player.
    pub open spec fn sees_players(self) -> bool {
        self matches QueryOutcome::Players { online } && online > 0
    }

    /// Whether the query found at least one player.
    pub fn found_players(&self) -> (found: bool)
        ensures
            found == self.sees_players(),
    {
        match self {
            QueryOutcome::Players { online } => *online > 0,
            QueryOutcome::Failed => false,
        }
    }
}

/// Something that happened outside and that the poller is told of.
#[derive(Debug, PartialEq, Eq)]
pub enum Event {
    /// A tick of the schedule arrived.
    Tick {
        /// The clock at the tick.
        now: u128,
    },
    /// The shutdown command was run and judged.
    ShutdownFinished {
        /// What the call for shutdown came to.
        result: Result<(), ShutdownError>,
    },
    /// The query of the monitored server ended.
    QueryFinished {
        /// The clock when the query ended.
        now: u128,
        /// What the query came to.
        outcome: QueryOutcome,
    },
}

/// An [`Event`] as plain values.
pub ghost enum EventView {
    /// A tick of the schedule arrived.
    Tick {
        /// The clock at the tick.
        now: nat,
    },
    /// The shutdown command was run and judged.
    ShutdownFinished {
        /// What the call for shutdown came to.
        result: Result<(), ShutdownErrorView>,
    },
    /// The query of the monitored server ended.
    QueryFinished {
        /// The clock when the query ended.
        now: nat,
        /// What the query came to.
        outcome: QueryOutcome,
    },
}

impl View for Event {
    type V = EventView;

    open spec fn view(&self) -> EventView {
        match self {
            Event::Tick { now } => EventView::Tick { now: *now as nat },
            Event::ShutdownFinished { result } => EventView::ShutdownFinished {
                result: stop_view(*result),
            },
            Event::QueryFinished { now, outcome } => EventView::QueryFinished {
                now: *now as nat,
                outcome: *outcome,
            },
        }
    }
}

/// What the caller is to do next.
#[derive(Debug, PartialEq, Eq)]
pub enum Action {
    /// Wait for the next tick and report it.
    AwaitTick,
    /// Run the shutdown command, judge its outcome and report the result.
    Shutdown {
        /// For how long the server had been idle at the tick.
        idle_for: u128,
        /// The command to run.
        command: CommandLine,
    },
    /// Ask the monitored server for its players and report the outcome.
    Query {
        /// Host name or address of the server.
        host: String,
        /// Port of the server.
        port: u16,
    },
    /// Leave the loop with this result. Nothing is accepted afterwards.
    Exit {
        /// `Ok` after a shutdown that was issued, else why the run is given up.
        result: Result<(), ShutdownError>,
    },
}

/// An [`Action`] as plain values.
pub ghost enum ActionView {
    /// Wait for the next tick and report it.
    AwaitTick,
    /// Run the shutdown command, judge its outcome and report the result.
    Shutdown {
        /// For how long the server had been idle at the tick.
        idle_for: nat,
        /// The command to run.
        command: CommandLineView,
    },
    /// Ask the monitored server for its players and report the outcome.
    Query {
        /// Host name or address of the server.
        host: Seq<char>,
        /// Port of the server.
        port: u16,
    },
    /// Leave the loop with this result.
    Exit {
        /// `Ok` after a shutdown that was issued, else why the run is given up.
        result: Result<(), ShutdownErrorView>,
    },
}

impl View for Action {
    type V = ActionView;

    open spec fn view(&self) -> ActionView {
        match self {
            Action::AwaitTick => ActionView::AwaitTick,
            Action::Shutdown { idle_for, command } => ActionView::Shutdown {
                idle_for: *idle_for as nat,
                command: command@,
            },
            Action::Query { host, port } => ActionView::Query { host: host@, port: *port },
            Action::Exit { result } => ActionView::Exit { result: stop_view(*result) },
        }
    }
}

/// An event that came while the poller was waiting for something else.
#[derive(Clone, Copy, Debug, PartialEq, Eq, Structural)]
pub struct OutOfTurn {
    /// What the poller was, and still is, waiting for.
    pub awaiting: Phase,
}

/// The idle-detection loop of one monitored server.
#[derive(Debug)]
pub struct Poller {
    config: IdleConfig,
    target: ShutdownTarget,
    activity: ActivityState,
    phase: Phase,
}

/// A [`Poller`] as plain values.
pub ghost struct PollerView {
    /// The settings of the idle check.
    pub config: IdleConfigView,
    /// What is stopped when the server is found idle.
    pub target: ShutdownTargetView,
    /// The clock at the last known activity.
    pub last_active_at: nat,
    /// What the poller is waiting for.
    pub phase: Phase,
}

impl PollerView {
    /// Whether `event` is what the poller is waiting for.
    pub open spec fn accepts(self, event: EventView) -> bool {
        match event {
            EventView::Tick { .. } => self.phase == Phase::AwaitingTick,
            EventView::ShutdownFinished { .. } => self.phase == Phase::AwaitingShutdown,
            EventView::QueryFinished { .. } => self.phase == Phase::AwaitingQuery,
        }
    }

    /// Whether a tick at `now` finds the server idle for longer than the
    /// timeout.
    pub open spec fn idle_at(self, now: nat) -> bool {
        idle_between(self.last_active_at, now, self.config.idle_timeout())
    }

    /// The query of the monitored server.
    pub open spec fn query(self) -> ActionView {
        ActionView::Query { host: self.config.host, port: self.config.port }
    }

    /// Whether a call for shutdown that came to `result` ends the run: any
    /// result does for a one-shot target, and for any target an error it gives
    /// up on.
    pub open spec fn ends_run(self, result: Result<(), ShutdownErrorView>) -> bool {
        match result {
            Ok(()) => self.target.one_shot(),
            Err(error) => self.target.gives_up_on(error),
        }
    }

    /// The action with which the poller answers an event it accepts.
    pub open spec fn action(self, event: EventView) -> ActionView {
        match event {
            EventView::Tick { now } => if self.idle_at(now) {
                ActionView::Shutdown {
                    idle_for: elapsed(self.last_active_at, now),
                    command: self.target.stop_line(),
                }
            } else {
                self.query()
            },
            EventView::ShutdownFinished { result } => if self.ends_run(result) {
                ActionView::Exit { result }
            } else {
                self.query()
            },
            EventView::QueryFinished { .. } => ActionView::AwaitTick,
        }
    }

    /// The poller after an event it accepts.
    pub open spec fn next(self, event: EventView) -> PollerView {
        match event {
            EventView::Tick { now } => PollerView {
                phase: if self.idle_at(now) {
                    Phase::AwaitingShutdown
                } else {
                    Phase::AwaitingQuery
                },
                ..self
            },
            EventView::ShutdownFinished { result } => PollerView {
                phase: if self.ends_run(result) {
                    Phase::Exited
                } else {
                    Phase::AwaitingQuery
                },
                ..self
            },
            EventView::QueryFinished { now, outcome } => PollerView {
                last_active_at: if outcome.sees_players() {
                    now
                } else {
                    self.last_active_at
                },
                phase: Phase::AwaitingTick,
                ..self
            },
        }
    }
}

impl View for Poller {
    type V = PollerView;

    closed spec fn view(&self) -> PollerView {
        PollerView {
            config: self.config@,
            target: self.target@,
            last_active_at: self.activity@,
            phase: self.phase,
        }
    }
}

impl Poller {
    /// A poller that starts at `now`, waiting for its first tick. The start
    /// counts as the last activity, so the server is given a full timeout
    /// before it can be found idle.
    pub fn new(config: IdleConfig, target: ShutdownTarget, now: u128) -> (poller: Self)
        ensures
            poller@ == (PollerView {
                config: config@,
                target: target@,
                last_active_at: now as nat,
                phase: Phase::AwaitingTick,
            }),
    {
        Poller { config, target, activity: ActivityState::new(now), phase: Phase::AwaitingTick }
    }

    /// The settings of the idle check.
    pub fn config(&self) -> (config: &IdleConfig)
        ensures
            config@ == self@.config,
    {
        &self.config
    }

    /// What is stopped when the server is found idle.
    pub fn target(&self) -> (target: &ShutdownTarget)
        ensures
            target@ == self@.target,
    {
        &self.target
    }

    /// The clock at the last known activity.
    pub fn last_active_at(&self) -> (at: u128)
        ensures
            at == self@.last_active_at,
    {
        self.activity.last_active_at()
    }

    /// What the poller is waiting for.
    pub fn phase(&self) -> (phase: Phase)
        ensures
            phase == self@.phase,
    {
        self.phase
    }

    /// How long the server has been without known activity at `now`.
    pub fn idle_duration(&self, now: u128) -> (idle_for: u128)
        ensures
            idle_for == elapsed(self@.last_active_at, now as nat),
    {
        self.activity.idle_duration(now)
    }

    /// The query of the monitored server.
    fn query(&self) -> (action: Action)
        ensures
            action@ == self@.query(),
    {
        Action::Query { host: self.config.host().clone(), port: self.config.port() }
    }

    /// Tells the poller what happened and returns what to do next.
    ///
    /// An event is accepted when it is the one the poller is waiting for: a
    /// tick after [`Action::AwaitTick`] and at the start, the result of the
    /// shutdown after [`Action::Shutdown`], the outcome of the query after
    /// [`Action::Query`]. Any other event, and every event after
    /// [`Action::Exit`], is refused and changes nothing.
    pub fn step(&mut self, event: Event) -> (taken: Result<Action, OutOfTurn>)
        ensures
            match taken {
                Ok(action) => {
                    &&& old(self)@.accepts(event@)
                    &&& final(self)@ == old(self)@.next(event@)
                    &&& action@ == old(self)@.action(event@)
                },
                Err(refusal) => {
                    &&& !old(self)@.accepts(event@)
                    &&& final(self)@ == old(self)@
                    &&& refusal.awaiting == old(self)@.phase
                },
            },
    {
        match event {
            Event::Tick { now } => {
                if self.phase != Phase::AwaitingTick {
                    return Err(OutOfTurn { awaiting: self.phase });
                }
                if self.activity.is_idle(now, self.config.idle_timeout()) {
                    self.phase = Phase::AwaitingShutdown;
                    Ok(
                        Action::Shutdown {
                            idle_for: self.activity.idle_duration(now),
                            command: self.target.stop_command(),
                        },
                    )
                } else {
                    self.phase = Phase::AwaitingQuery;
                    Ok(self.query())
                }
            },
            Event::ShutdownFinished { result } => {
                if self.phase != Phase::AwaitingShutdown {
                    return Err(OutOfTurn { awaiting: self.phase });
                }
                let ends_run = match &result {
                    Ok(()) => self.target.is_one_shot(),
                    Err(error) => self.target.gives_up_on(error),
                };
                if ends_run {
                    self.phase = Phase::Exited;
                    Ok(Action::Exit { result })
                } else {
                    self.phase = Phase::AwaitingQuery;
                    Ok(self.query())
                }
            },
            Event::QueryFinished { now, outcome } => {
                if self.phase != Phase::AwaitingQuery {
                    return Err(OutOfTurn { awaiting: self.phase });
                }
                if outcome.found_players() {
                    self.activity.record_activity(now);
                }
                self.phase = Phase::AwaitingTick;
                Ok(Action::AwaitTick)
            },
        }
    }
}

} // verus!
