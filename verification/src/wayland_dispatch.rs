//! The order of work on the Wayland dispatch thread.
//!
//! The thread waits for the compositor and for commands at once: beside the
//! connection it polls a pipe into which a byte is written for every command.

use vstd::prelude::*;

verus! {

/// Event bit of `poll`: there is something to read.
pub const POLLIN: i16 = 1;

/// Error number of an interrupted system call.
pub const EINTR: i32 = 4;

/// A piece of work of the dispatch thread.
#[derive(Debug, Clone, Copy, PartialEq, Eq, Structural)]
pub enum LoopAction {
    /// Handle the events that have been read.
    DispatchPending,
    /// Carry out the commands that are waiting, and empty the pipe.
    DrainCommands,
    /// Send the requests that have been queued.
    Flush,
    /// Announce that events are about to be read.
    PrepareRead,
    /// Wait for the connection or the pipe, without a timeout.
    Poll,
    /// Read events.
    ReadEvents,
    /// Take the announcement back.
    CancelRead,
    /// Empty the pipe.
    DrainWakeup,
    /// End the thread.
    Exit,
}

/// How a piece of work ended.
#[derive(Debug, Clone, Copy, PartialEq, Eq, Structural)]
pub enum LoopEvent {
    /// Of the events that had been read, all could be handled.
    Dispatched { ok: bool },
    /// The commands have been carried out; whether the thread is to go on.
    Drained { go_on: bool },
    /// The requests are sent, or never will be.
    Flushed,
    /// Events can be read now; else there are some that were read already.
    Prepared { ready: bool },
    /// What `poll` returned, the error number that goes with a failure, and
    /// the event bits of the connection and the pipe.
    Polled { rc: i32, errno: i32, wayland: i16, wakeup: i16 },
    EventsRead { ok: bool },
    ReadCancelled,
    WakeupDrained,
}

/// Where the dispatch thread is.
#[derive(Debug, Clone, Copy, PartialEq, Eq, Structural)]
pub struct DispatchLoop {
    /// The work under way.
    pub pending: LoopAction,
    /// The pipe had something to read when the thread last waited, and has not
    /// been emptied since.
    pub wakeup_ready: bool,
}

/// There is something to read.
pub open spec fn readable(revents: i16) -> bool {
    revents & POLLIN != 0
}

impl DispatchLoop {
    /// The loop with `action` under way.
    pub open spec fn doing(self, action: LoopAction) -> DispatchLoop {
        DispatchLoop { pending: action, ..self }
    }

    /// The loop after a piece of work. A report on other work than that under
    /// way changes nothing.
    pub open spec fn next(self, event: LoopEvent) -> DispatchLoop {
        match (self.pending, event) {
            (LoopAction::DispatchPending, LoopEvent::Dispatched { ok }) => self.doing(
                if ok {
                    LoopAction::DrainCommands
                } else {
                    LoopAction::Exit
                },
            ),
            (LoopAction::DrainCommands, LoopEvent::Drained { go_on }) => self.doing(
                if go_on {
                    LoopAction::Flush
                } else {
                    LoopAction::Exit
                },
            ),
            (LoopAction::Flush, LoopEvent::Flushed) => self.doing(LoopAction::PrepareRead),
            (LoopAction::PrepareRead, LoopEvent::Prepared { ready }) => self.doing(
                if ready {
                    LoopAction::Poll
                } else {
                    LoopAction::DispatchPending
                },
            ),
            (LoopAction::Poll, LoopEvent::Polled { rc, errno, wayland, wakeup }) => if rc < 0 {
                self.doing(
                    if errno == EINTR {
                        LoopAction::CancelRead
                    } else {
                        LoopAction::Exit
                    },
                )
            } else {
                DispatchLoop {
                    pending: if readable(wayland) {
                        LoopAction::ReadEvents
                    } else {
                        LoopAction::CancelRead
                    },
                    wakeup_ready: readable(wakeup),
                }
            },
            (LoopAction::ReadEvents, LoopEvent::EventsRead { ok: false }) => self.doing(
                LoopAction::Exit,
            ),
            (LoopAction::ReadEvents, LoopEvent::EventsRead { ok: true })
            | (LoopAction::CancelRead, LoopEvent::ReadCancelled) => self.doing(
                if self.wakeup_ready {
                    LoopAction::DrainWakeup
                } else {
                    LoopAction::DispatchPending
                },
            ),
            (LoopAction::DrainWakeup, LoopEvent::WakeupDrained) => DispatchLoop {
                pending: LoopAction::DispatchPending,
                wakeup_ready: false,
            },
            _ => self,
        }
    }

    /// The thread at its start.
    pub open spec fn initial() -> DispatchLoop {
        DispatchLoop { pending: LoopAction::DispatchPending, wakeup_ready: false }
    }

    /// The thread at its start.
    pub fn new() -> (state: DispatchLoop)
        ensures
            state == DispatchLoop::initial(),
    {
        DispatchLoop { pending: LoopAction::DispatchPending, wakeup_ready: false }
    }

    /// Takes the report on a piece of work, and returns the next one.
    pub fn step(&mut self, event: LoopEvent) -> (action: LoopAction)
        ensures
            *final(self) == old(self).next(event),
            action == final(self).pending,
    {
        match (self.pending, event) {
            (LoopAction::DispatchPending, LoopEvent::Dispatched { ok }) => {
                self.pending = if ok {
                    LoopAction::DrainCommands
                } else {
                    LoopAction::Exit
                };
            },
            (LoopAction::DrainCommands, LoopEvent::Drained { go_on }) => {
                self.pending = if go_on {
                    LoopAction::Flush
                } else {
                    LoopAction::Exit
                };
            },
            (LoopAction::Flush, LoopEvent::Flushed) => {
                self.pending = LoopAction::PrepareRead;
            },
            (LoopAction::PrepareRead, LoopEvent::Prepared { ready }) => {
                self.pending = if ready {
                    LoopAction::Poll
                } else {
                    LoopAction::DispatchPending
                };
            },
            (LoopAction::Poll, LoopEvent::Polled { rc, errno, wayland, wakeup }) => {
                if rc < 0 {
                    self.pending = if errno == EINTR {
                        LoopAction::CancelRead
                    } else {
                        LoopAction::Exit
                    };
                } else {
                    self.wakeup_ready = wakeup & POLLIN != 0;
                    self.pending = if wayland & POLLIN != 0 {
                        LoopAction::ReadEvents
                    } else {
                        LoopAction::CancelRead
                    };
                }
            },
            (LoopAction::ReadEvents, LoopEvent::EventsRead { ok }) => {
                self.pending = if !ok {
                    LoopAction::Exit
                } else if self.wakeup_ready {
                    LoopAction::DrainWakeup
                } else {
                    LoopAction::DispatchPending
                };
            },
            (LoopAction::CancelRead, LoopEvent::ReadCancelled) => {
                self.pending = if self.wakeup_ready {
                    LoopAction::DrainWakeup
                } else {
                    LoopAction::DispatchPending
                };
            },
            (LoopAction::DrainWakeup, LoopEvent::WakeupDrained) => {
                self.wakeup_ready = false;
                self.pending = LoopAction::DispatchPending;
            },
            _ => {},
        }
        self.pending
    }
}

/// The loop after several reports.
pub open spec fn after_all(start: DispatchLoop, events: Seq<LoopEvent>) -> DispatchLoop
    decreases events.len(),
{
    if events.len() == 0 {
        start
    } else {
        after_all(start, events.drop_last()).next(events.last())
    }
}

/// How many of `events` say that the commands have been carried out.
pub open spec fn drains(events: Seq<LoopEvent>) -> nat
    decreases events.len(),
{
    if events.len() == 0 {
        0
    } else {
        drains(events.drop_last()) + if events.last() is Drained {
            1nat
        } else {
            0
        }
    }
}

/// A thread that has ended stays so.
pub proof fn law_exit_is_final(state: DispatchLoop, event: LoopEvent)
    requires
        state.pending == LoopAction::Exit,
    ensures
        state.next(event) == state,
{
}

/// No command waits for the compositor: between one wait and the next the
/// commands are carried out. For as long as none has been since a wait, the
/// thread does not wait again.
pub proof fn law_commands_are_drained_before_every_wait(
    waiting: DispatchLoop,
    events: Seq<LoopEvent>,
)
    requires
        waiting.pending == LoopAction::Poll,
        events.len() > 0,
        waiting.next(events[0]) != waiting,
        drains(events) == 0,
    ensures
        ({
            let now = after_all(waiting, events).pending;
            &&& now != LoopAction::Poll
            &&& now != LoopAction::PrepareRead
            &&& now != LoopAction::Flush
        }),
    decreases events.len(),
{
    if events.len() == 1 {
        assert(events.drop_last() =~= Seq::<LoopEvent>::empty());
        assert(after_all(waiting, events.drop_last()) == waiting);
    } else {
        assert(events.drop_last()[0] == events[0]);
        law_commands_are_drained_before_every_wait(waiting, events.drop_last());
    }
}

/// An interrupted wait is repeated: the thread goes on.
pub proof fn law_an_interrupt_does_not_end_the_thread(
    waiting: DispatchLoop,
    rc: i32,
    wayland: i16,
    wakeup: i16,
)
    requires
        waiting.pending == LoopAction::Poll,
        rc < 0,
    ensures
        waiting.next(LoopEvent::Polled { rc, errno: EINTR, wayland, wakeup }).next(
            LoopEvent::ReadCancelled,
        ).pending != LoopAction::Exit,
{
}

/// An event is a report on a piece of work.
pub open spec fn reports_on(event: LoopEvent, work: LoopAction) -> bool {
    match event {
        LoopEvent::Dispatched { .. } => work == LoopAction::DispatchPending,
        LoopEvent::Drained { .. } => work == LoopAction::DrainCommands,
        LoopEvent::Flushed => work == LoopAction::Flush,
        LoopEvent::Prepared { .. } => work == LoopAction::PrepareRead,
        LoopEvent::Polled { .. } => work == LoopAction::Poll,
        LoopEvent::EventsRead { .. } => work == LoopAction::ReadEvents,
        LoopEvent::ReadCancelled => work == LoopAction::CancelRead,
        LoopEvent::WakeupDrained => work == LoopAction::DrainWakeup,
    }
}

/// The thread ends where events could not be handled or read, where it was told
/// to, and where waiting failed for another reason than an interrupt; never
/// otherwise. A report on other work than that under way changes nothing, and
/// one on the work under way leads to other work.
pub proof fn law_what_ends_the_thread(state: DispatchLoop, event: LoopEvent)
    ensures
        ({
            let failed = match event {
                LoopEvent::Dispatched { ok } => !ok,
                LoopEvent::Drained { go_on } => !go_on,
                LoopEvent::Polled { rc, errno, .. } => rc < 0 && errno != 4,
                LoopEvent::EventsRead { ok } => !ok,
                _ => false,
            };
            let ends = reports_on(event, state.pending) && failed;
            &&& state.next(event).pending == LoopAction::Exit <==> state.pending
                == LoopAction::Exit || ends
            &&& !reports_on(event, state.pending) ==> state.next(event) == state
            &&& reports_on(event, state.pending) ==> state.next(event).pending != state.pending
        }),
{
}

/// One round of a thread in which nothing fails: the events that were read are
/// handled, the commands carried out, the requests sent, and then the thread
/// waits. What has arrived is read exactly where there is something to read,
/// the pipe is emptied exactly where a command has arrived, and the next round
/// starts.
pub proof fn law_one_round(
    start: DispatchLoop,
    rc: i32,
    errno: i32,
    wayland: i16,
    wakeup: i16,
)
    requires
        start.pending == LoopAction::DispatchPending,
        rc >= 0,
    ensures
        ({
            let drain = start.next(LoopEvent::Dispatched { ok: true });
            let flush = drain.next(LoopEvent::Drained { go_on: true });
            let prepare = flush.next(LoopEvent::Flushed);
            let busy = prepare.next(LoopEvent::Prepared { ready: false });
            let wait = prepare.next(LoopEvent::Prepared { ready: true });
            let woken = wait.next(LoopEvent::Polled { rc, errno, wayland, wakeup });
            let read = if wayland & 1 != 0 {
                woken.next(LoopEvent::EventsRead { ok: true })
            } else {
                woken.next(LoopEvent::ReadCancelled)
            };
            &&& drain.pending == LoopAction::DrainCommands
            &&& flush.pending == LoopAction::Flush
            &&& prepare.pending == LoopAction::PrepareRead
            &&& busy.pending == LoopAction::DispatchPending
            &&& wait.pending == LoopAction::Poll
            &&& woken.pending == if wayland & 1 != 0 {
                LoopAction::ReadEvents
            } else {
                LoopAction::CancelRead
            }
            &&& wakeup & 1 != 0 ==> {
                &&& read.pending == LoopAction::DrainWakeup
                &&& read.next(LoopEvent::WakeupDrained) == DispatchLoop::initial()
            }
            &&& wakeup & 1 == 0 ==> read == DispatchLoop::initial()
        }),
{
}

/// An interrupted wait takes nothing from the connection and leads to the next
/// round.
pub proof fn law_after_an_interrupt(waiting: DispatchLoop, rc: i32, wayland: i16, wakeup: i16)
    requires
        waiting.pending == LoopAction::Poll,
        !waiting.wakeup_ready,
        rc < 0,
    ensures
        ({
            let woken = waiting.next(LoopEvent::Polled { rc, errno: 4, wayland, wakeup });
            &&& woken.pending == LoopAction::CancelRead
            &&& woken.next(LoopEvent::ReadCancelled) == DispatchLoop::initial()
        }),
{
}

/// A thread that waits has emptied the pipe: whatever was reported to it since
/// its start.
pub proof fn law_the_pipe_is_empty_before_a_wait(events: Seq<LoopEvent>)
    ensures
        ({
            let now = after_all(DispatchLoop::initial(), events);
            now.wakeup_ready ==> now.pending == LoopAction::ReadEvents || now.pending
                == LoopAction::CancelRead || now.pending == LoopAction::DrainWakeup || now.pending
                == LoopAction::Exit
        }),
    decreases events.len(),
{
    if events.len() > 0 {
        law_the_pipe_is_empty_before_a_wait(events.drop_last());
    }
}

} // verus!
