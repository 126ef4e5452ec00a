//! The monitor as a state machine: one event per tick, and for each event the next
//! state and what to show.

use vstd::prelude::*;
use crate::size::{growth, size_delta};
use crate::status::Status;
use crate::summary::{summarize, summary_of, Summary};

verus! {

/// The number of ticks in a row without growth at which the monitor stops.
pub const IDLE_LIMIT: u64 = 5;

/// The seconds from one tick to the next.
pub const TICK_SECS: u64 = 1;

/// What a tick brought.
#[derive(Clone, Copy, Debug, PartialEq, Eq, Structural)]
pub enum Event {
    /// The file's size was read.
    Size(u64),
    /// The size could not be read: no such file, or no access to it.
    Unreadable,
    /// A stop was requested from outside.
    Interrupt,
}

/// Why the monitor stopped.
#[derive(Clone, Copy, Debug, PartialEq, Eq, Structural)]
pub enum StopReason {
    /// The size stayed the same for `IDLE_LIMIT` ticks in a row.
    IdleTimeout,
    /// The file could be read before and no longer can.
    Inaccessible,
    /// A stop was requested from outside.
    Interrupted,
}

/// Everything the monitor remembers between ticks.
#[derive(Clone, Copy, Debug, PartialEq, Eq, Structural)]
pub struct MonitorState {
    /// The first size read, once there is one.
    pub initial_size: Option<u64>,
    /// The size read at the tick before, once there is one.
    pub previous_size: Option<u64>,
    /// The size read most recently, and zero before any was read.
    pub last_known_size: u64,
    /// How many ticks in a row brought no growth.
    pub no_change_count: u64,
    /// Set once the monitor has stopped.
    pub stopped: Option<StopReason>,
}

impl MonitorState {
    /// The state before the first tick.
    pub open spec fn start() -> MonitorState {
        MonitorState {
            initial_size: None,
            previous_size: None,
            last_known_size: 0,
            no_change_count: 0,
            stopped: None,
        }
    }

    /// What holds of every state that a run can reach.
    pub open spec fn wf(self) -> bool {
        &&& self.no_change_count <= IDLE_LIMIT
        &&& (self.no_change_count == IDLE_LIMIT <==> self.stopped == Some(
            StopReason::IdleTimeout,
        ))
        &&& (self.initial_size is Some <==> self.previous_size is Some)
        &&& match self.previous_size {
            Some(previous) => self.last_known_size == previous,
            None => self.last_known_size == 0 && self.no_change_count == 0,
        }
        &&& (self.stopped == Some(StopReason::Inaccessible) ==> self.previous_size is Some)
    }

    /// The idle count after a read of `size` that follows a read of `previous`: back to
    /// zero on growth, one more otherwise.
    pub open spec fn idle_ticks_after(self, previous: u64, size: u64) -> nat {
        if growth(previous as nat, size as nat) > 0 {
            0
        } else {
            self.no_change_count as nat + 1
        }
    }

    /// The state after a tick that brought `event`. A stopped monitor stays as it is.
    pub open spec fn after(self, event: Event) -> MonitorState {
        if self.stopped is Some {
            self
        } else {
            match event {
                Event::Interrupt => MonitorState {
                    stopped: Some(StopReason::Interrupted),
                    ..self
                },
                Event::Unreadable => if self.previous_size is Some {
                    MonitorState { stopped: Some(StopReason::Inaccessible), ..self }
                } else {
                    self
                },
                Event::Size(size) => match self.previous_size {
                    None => MonitorState {
                        initial_size: Some(size),
                        previous_size: Some(size),
                        last_known_size: size,
                        ..self
                    },
                    Some(previous) => {
                        let idle = self.idle_ticks_after(previous, size);
                        MonitorState {
                            previous_size: Some(size),
                            last_known_size: size,
                            no_change_count: idle as u64,
                            stopped: if idle >= IDLE_LIMIT {
                                Some(StopReason::IdleTimeout)
                            } else {
                                None
                            },
                            ..self
                        }
                    },
                },
            }
        }
    }

    /// What a tick that brought `event` gives to show. Nothing on an interrupt, nothing
    /// when the file is lost, and nothing once the monitor has stopped.
    pub open spec fn shown(self, event: Event) -> Option<Status> {
        if self.stopped is Some {
            None
        } else {
            match event {
                Event::Interrupt => None,
                Event::Unreadable => if self.previous_size is Some {
                    None
                } else {
                    Some(Status::Waiting)
                },
                Event::Size(size) => match self.previous_size {
                    None => Some(Status::Initial { size }),
                    Some(previous) => if growth(previous as nat, size as nat) > 0 {
                        Some(
                            Status::Growing {
                                size,
                                speed: (growth(previous as nat, size as nat) / (
                                TICK_SECS as nat)) as u64,
                            },
                        )
                    } else {
                        Some(
                            Status::Idle {
                                size,
                                idle_ticks: self.idle_ticks_after(previous, size) as u64,
                            },
                        )
                    },
                },
            }
        }
    }

    /// The state after the events of `events`, taken in order.
    pub open spec fn run(self, events: Seq<Event>) -> MonitorState
        decreases events.len(),
    {
        if events.len() == 0 {
            self
        } else {
            self.run(events.drop_last()).after(events.last())
        }
    }
}

/// Every step keeps a well-formed state well-formed.
pub proof fn lemma_after_keeps_wf(state: MonitorState, event: Event)
    requires
        state.wf(),
    ensures
        state.after(event).wf(),
{
}

/// The initial size is set once, by the first size read, and never changes after that.
pub proof fn lemma_initial_size_set_once(state: MonitorState, event: Event)
    requires
        state.wf(),
    ensures
        state.initial_size is Some ==> state.after(event).initial_size == state.initial_size,
        state.initial_size is None ==> (state.after(event).initial_size is Some <==> state.stopped
            is None && event is Size),
        state.initial_size is None && state.stopped is None ==> forall|size: u64|
            event == Event::Size(size) ==> state.after(event).initial_size == Some(size),
{
}

/// The last known size changes only when a size is read, and then it is that size.
pub proof fn lemma_last_known_size_follows_reads(state: MonitorState, event: Event)
    requires
        state.wf(),
    ensures
        !(event is Size) ==> state.after(event).last_known_size == state.last_known_size,
        forall|size: u64|
            event == Event::Size(size) && state.stopped is None ==> state.after(
                event,
            ).last_known_size == size && state.after(event).previous_size == Some(size),
{
}

/// A read that follows another sets the idle count to zero if the file grew, and adds
/// one to it if not; a shrink counts as no growth. Nothing else touches the count.
pub proof fn lemma_idle_count(state: MonitorState, event: Event)
    requires
        state.wf(),
    ensures
        forall|previous: u64, size: u64|
            state.stopped is None && state.previous_size == Some(previous) && event
                == Event::Size(size) ==> state.after(event).no_change_count == (if size
                > previous {
                0
            } else {
                state.no_change_count + 1
            }),
        !(event is Size) || state.previous_size is None || state.stopped is Some ==> state.after(
            event,
        ).no_change_count == state.no_change_count,
{
}

/// A running monitor stops in exactly three ways: on the tick that brings the idle count
/// to the limit and on none before, on a failed read after a good one, and on an interrupt.
pub proof fn lemma_stop_conditions(state: MonitorState, event: Event)
    requires
        state.wf(),
        state.stopped is None,
    ensures
        state.after(event).stopped == Some(StopReason::IdleTimeout) <==> exists|
            previous: u64,
            size: u64,
        |
            event == Event::Size(size) && state.previous_size == Some(previous) && size
                <= previous && state.no_change_count + 1 == IDLE_LIMIT,
        state.after(event).stopped == Some(StopReason::Inaccessible) <==> event
            == Event::Unreadable && state.previous_size is Some,
        state.after(event).stopped == Some(StopReason::Interrupted) <==> event
            == Event::Interrupt,
{
    if state.after(event).stopped == Some(StopReason::IdleTimeout) {
        let size = event->Size_0;
        let previous = state.previous_size->Some_0;
        assert(event == Event::Size(size) && state.previous_size == Some(previous) && size
            <= previous && state.no_change_count + 1 == IDLE_LIMIT);
    }
}

/// A stopped monitor takes no more steps: its state stays and nothing is shown.
pub proof fn lemma_stopped_stays(state: MonitorState, event: Event)
    requires
        state.stopped is Some,
    ensures
        state.after(event) == state,
        state.shown(event) is None,
{
}

/// Reads of one and the same size, from the start: the first sets the initial size, each
/// later one is an idle tick, and the monitor stops at the read that makes the idle
/// count reach the limit, not before.
pub proof fn lemma_constant_size_run(size: u64, reads: nat)
    ensures
        ({
            let end = MonitorState::start().run(Seq::new(reads, |i: int| Event::Size(size)));
            &&& end.wf()
            &&& (reads >= 1 ==> end.initial_size == Some(size) && end.last_known_size == size)
            &&& (1 <= reads <= IDLE_LIMIT + 1 ==> end.no_change_count == reads - 1)
            &&& (end.stopped == Some(StopReason::IdleTimeout) <==> reads >= IDLE_LIMIT + 1)
            &&& (reads <= IDLE_LIMIT ==> end.stopped is None)
        }),
    decreases reads,
{
    let events = Seq::new(reads, |i: int| Event::Size(size));
    if reads > 0 {
        let shorter = Seq::new((reads - 1) as nat, |i: int| Event::Size(size));
        assert(events.drop_last() =~= shorter);
        assert(events.last() == Event::Size(size));
        lemma_constant_size_run(size, (reads - 1) as nat);
    }
}

/// While the file cannot be read and never could, the monitor waits: its state stays
/// at the start, and an interrupt then stops it with nothing read.
pub proof fn lemma_absent_file_run(ticks: nat)
    ensures
        ({
            let end = MonitorState::start().run(Seq::new(ticks, |i: int| Event::Unreadable));
            &&& end == MonitorState::start()
            &&& end.shown(Event::Unreadable) == Some(Status::Waiting)
            &&& end.after(Event::Interrupt).stopped == Some(StopReason::Interrupted)
            &&& end.after(Event::Interrupt).initial_size is None
            &&& end.after(Event::Interrupt).last_known_size == 0
        }),
    decreases ticks,
{
    let events = Seq::new(ticks, |i: int| Event::Unreadable);
    if ticks > 0 {
        let shorter = Seq::new((ticks - 1) as nat, |i: int| Event::Unreadable);
        assert(events.drop_last() =~= shorter);
        assert(events.last() == Event::Unreadable);
        lemma_absent_file_run((ticks - 1) as nat);
    }
}

/// A monitor of one file. It is fed one event per tick and says what to show; once it
/// has stopped it changes no more.
#[derive(Clone, Copy, Debug)]
pub struct Monitor {
    state: MonitorState,
}

impl View for Monitor {
    type V = MonitorState;

    closed spec fn view(&self) -> MonitorState {
        self.state
    }
}

impl Monitor {
    #[verifier::type_invariant]
    spec fn inv(self) -> bool {
        self.state.wf()
    }

    /// A monitor that has seen nothing yet.
    pub fn new() -> (monitor: Monitor)
        ensures
            monitor@ == MonitorState::start(),
            monitor@.wf(),
    {
        Monitor {
            state: MonitorState {
                initial_size: None,
                previous_size: None,
                last_known_size: 0,
                no_change_count: 0,
                stopped: None,
            },
        }
    }

    /// What the monitor remembers.
    pub fn state(&self) -> (state: MonitorState)
        ensures
            state == self@,
            state.wf(),
    {
        proof {
            use_type_invariant(self);
        }
        self.state
    }

    /// Why the monitor stopped, once it has.
    pub fn stopped(&self) -> (reason: Option<StopReason>)
        ensures
            reason == self@.stopped,
    {
        self.state.stopped
    }

    /// Takes one tick's event: moves to the next state and returns what to show.
    pub fn step(&mut self, event: Event) -> (shown: Option<Status>)
        ensures
            final(self)@ == old(self)@.after(event),
            shown == old(self)@.shown(event),
            final(self)@.wf(),
    {
        proof {
            use_type_invariant(&*self);
        }
        let state = self.state;
        if state.stopped.is_some() {
            return None;
        }
        match event {
            Event::Interrupt => {
                self.state = MonitorState { stopped: Some(StopReason::Interrupted), ..state };
                None
            },
            Event::Unreadable => {
                if state.previous_size.is_some() {
                    self.state = MonitorState { stopped: Some(StopReason::Inaccessible), ..state };
                    None
                } else {
                    Some(Status::Waiting)
                }
            },
            Event::Size(size) => {
                match state.previous_size {
                    None => {
                        self.state = MonitorState {
                            initial_size: Some(size),
                            previous_size: Some(size),
                            last_known_size: size,
                            ..state
                        };
                        Some(Status::Initial { size })
                    },
                    Some(previous) => {
                        let delta = size_delta(previous, size);
                        let idle: u64 = if delta > 0 {
                            0
                        } else {
                            state.no_change_count + 1
                        };
                        self.state = MonitorState {
                            previous_size: Some(size),
                            last_known_size: size,
                            no_change_count: idle,
                            stopped: if idle >= IDLE_LIMIT {
                                Some(StopReason::IdleTimeout)
                            } else {
                                None
                            },
                            ..state
                        };
                        if delta > 0 {
                            Some(Status::Growing { size, speed: delta / TICK_SECS })
                        } else {
                            Some(Status::Idle { size, idle_ticks: idle })
                        }
                    },
                }
            },
        }
    }

    /// The figures of the run so far, `elapsed_secs` seconds after its start: from the
    /// first size read to the one read last.
    pub fn summary(&self, elapsed_secs: u64) -> (summary: Summary)
        ensures
            summary == summary_of(self@.initial_size, self@.last_known_size, elapsed_secs),
    {
        summarize(self.state.initial_size, self.state.last_known_size, elapsed_secs)
    }
}

} // verus!
