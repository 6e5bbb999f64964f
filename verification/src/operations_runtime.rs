//! The listener of the operations endpoint: which connections it takes, and how it
//! ends.

use vstd::prelude::*;

use crate::http_status::{bumped, entered, left};
use crate::metrics::OperationsCounterSnapshot;
use crate::net::SocketAddr;
use crate::operations::{
    admit_operations_connection, operations_fault, release_operations_connection,
    EdgeOperationsConfig, EdgeOperationsControl, EdgeOperationsError, EdgeOperationsOutcome,
};
use crate::shutdown::{drain_outcome, RuntimeShutdownOutcome};

verus! {

/// What happened at the listener.
#[derive(Debug)]
pub enum OperationsEvent {
    ShutdownRequested,
    Accepted,
    AcceptFailed(std::io::Error),
    /// A connection ended that was served.
    ConnectionEnded,
}

/// What is to be done at the listener.
#[derive(Debug, Clone, Copy, PartialEq, Eq, Structural)]
pub enum OperationsStep {
    /// Wait for what happens next.
    Wait,
    /// Close the connection unanswered.
    Close,
    /// Serve the connection.
    Serve,
    /// Close the listener and drain its connections.
    Stop,
}

/// A bound operations endpoint, with the connections that it serves.
#[derive(Debug)]
pub struct EdgeOperationsRuntime {
    pub config: EdgeOperationsConfig,
    pub local_addr: SocketAddr,
    pub counters: OperationsCounterSnapshot,
    pub control: EdgeOperationsControl,
    pub open_connections: usize,
    pub terminal_error: Option<EdgeOperationsError>,
}

/// What is done at the listener for what happened there, how many connections are open
/// afterwards, and what has been counted.
pub open spec fn endpoint_leads_to(runtime: EdgeOperationsRuntime, event: OperationsEvent) -> (
    OperationsStep,
    int,
    OperationsCounterSnapshot,
) {
    let counters = runtime.counters;
    match event {
        OperationsEvent::ShutdownRequested | OperationsEvent::AcceptFailed(_) => (
            OperationsStep::Stop,
            runtime.open_connections as int,
            counters,
        ),
        OperationsEvent::Accepted => if runtime.open_connections
            < runtime.config.max_concurrent_connections {
            (
                OperationsStep::Serve,
                runtime.open_connections + 1,
                OperationsCounterSnapshot {
                    accepted_connections: bumped(counters.accepted_connections),
                    active_connections: entered(counters.active_connections),
                    ..counters
                },
            )
        } else {
            (
                OperationsStep::Close,
                runtime.open_connections as int,
                OperationsCounterSnapshot {
                    capacity_rejections: bumped(counters.capacity_rejections),
                    ..counters
                },
            )
        },
        OperationsEvent::ConnectionEnded => (
            OperationsStep::Wait,
            if runtime.open_connections == 0 {
                0
            } else {
                runtime.open_connections - 1
            },
            OperationsCounterSnapshot {
                active_connections: left(counters.active_connections),
                ..counters
            },
        ),
    }
}

impl EdgeOperationsRuntime {
    /// The configuration is valid, and no more connections are open than it allows.
    pub open spec fn wf(self) -> bool {
        &&& operations_fault(self.config) is None
        &&& self.open_connections <= self.config.max_concurrent_connections
    }

    /// Takes the listener that was bound for a configuration, or the reason why none
    /// was.
    pub fn bind(
        config: EdgeOperationsConfig,
        bound: Result<SocketAddr, std::io::Error>,
    ) -> (result: Result<EdgeOperationsRuntime, EdgeOperationsError>)
        ensures
            match result {
                Err(EdgeOperationsError::InvalidConfig(fault)) => operations_fault(config) == Some(
                    fault,
                ),
                Err(EdgeOperationsError::Bind(error)) => operations_fault(config) is None && bound
                    == Err::<SocketAddr, std::io::Error>(error),
                Err(EdgeOperationsError::Accept(_)) => false,
                Ok(runtime) => {
                    &&& bound == Ok::<SocketAddr, std::io::Error>(runtime.local_addr)
                    &&& runtime.wf()
                    &&& runtime.config == config
                    &&& runtime.counters == (OperationsCounterSnapshot {
                        active_connections: 0,
                        accepted_connections: 0,
                        completed_requests: 0,
                        rejected_requests: 0,
                        capacity_rejections: 0,
                    })
                    &&& !runtime.control.draining
                    &&& runtime.open_connections == 0
                    &&& runtime.terminal_error is None
                },
            },
    {
        match config.validate() {
            Ok(()) => {},
            Err(error) => return Err(EdgeOperationsError::InvalidConfig(error)),
        }
        match bound {
            Err(error) => Err(EdgeOperationsError::Bind(error)),
            Ok(local_addr) => Ok(
                EdgeOperationsRuntime {
                    config,
                    local_addr,
                    counters: OperationsCounterSnapshot {
                        active_connections: 0,
                        accepted_connections: 0,
                        completed_requests: 0,
                        rejected_requests: 0,
                        capacity_rejections: 0,
                    },
                    control: EdgeOperationsControl { draining: false },
                    open_connections: 0,
                    terminal_error: None,
                },
            ),
        }
    }

    /// Takes what happened at the listener. A connection is served while fewer are open
    /// than may be; the listener stops when asked to, or when it can accept no more.
    pub fn step(&mut self, event: OperationsEvent) -> (step: OperationsStep)
        requires
            old(self).wf(),
        ensures
            (step, final(self).open_connections as int, final(self).counters)
                == endpoint_leads_to(*old(self), event),
            final(self).wf(),
            final(self).config == old(self).config,
            final(self).local_addr == old(self).local_addr,
            final(self).control == old(self).control,
            final(self).terminal_error == (match event {
                OperationsEvent::AcceptFailed(error) => Some(EdgeOperationsError::Accept(error)),
                _ => old(self).terminal_error,
            }),
            match event {
                OperationsEvent::ShutdownRequested | OperationsEvent::AcceptFailed(_) => {
                    &&& step is Stop
                    &&& final(self).open_connections == old(self).open_connections
                    &&& final(self).counters == old(self).counters
                },
                OperationsEvent::Accepted => if old(self).open_connections < old(
                    self,
                ).config.max_concurrent_connections {
                    &&& step is Serve
                    &&& final(self).open_connections == old(self).open_connections + 1
                    &&& final(self).counters == (OperationsCounterSnapshot {
                        accepted_connections: bumped(old(self).counters.accepted_connections),
                        active_connections: entered(old(self).counters.active_connections),
                        ..old(self).counters
                    })
                } else {
                    &&& step is Close
                    &&& final(self).open_connections == old(self).open_connections
                    &&& final(self).counters == (OperationsCounterSnapshot {
                        capacity_rejections: bumped(old(self).counters.capacity_rejections),
                        ..old(self).counters
                    })
                },
                OperationsEvent::ConnectionEnded => {
                    &&& step is Wait
                    &&& final(self).open_connections == (if old(self).open_connections == 0 {
                        0int
                    } else {
                        old(self).open_connections - 1
                    })
                    &&& final(self).counters == (OperationsCounterSnapshot {
                        active_connections: left(old(self).counters.active_connections),
                        ..old(self).counters
                    })
                },
            },
    {
        match event {
            OperationsEvent::ShutdownRequested => OperationsStep::Stop,
            OperationsEvent::AcceptFailed(error) => {
                self.terminal_error = Some(EdgeOperationsError::Accept(error));
                OperationsStep::Stop
            },
            OperationsEvent::Accepted => {
                let permit_free: bool = self.open_connections
                    < self.config.max_concurrent_connections;
                if admit_operations_connection(permit_free, &mut self.counters) {
                    self.open_connections = self.open_connections + 1;
                    OperationsStep::Serve
                } else {
                    OperationsStep::Close
                }
            },
            OperationsEvent::ConnectionEnded => {
                if self.open_connections > 0 {
                    self.open_connections = self.open_connections - 1;
                }
                release_operations_connection(&mut self.counters);
                OperationsStep::Wait
            },
        }
    }

    /// What a run that has stopped comes to, where so many tasks were running and so
    /// many of them had to be aborted, or none. The failure that ended it, if one did,
    /// is reported in place of the outcome.
    pub fn finish(self, task_count: usize, aborted: Option<usize>) -> (result: Result<
        EdgeOperationsOutcome,
        EdgeOperationsError,
    >)
        ensures
            result == (match self.terminal_error {
                Some(error) => Err(error),
                None => Ok(
                    EdgeOperationsOutcome {
                        local_addr: self.local_addr,
                        accepted_connections: self.counters.accepted_connections,
                        completed_requests: self.counters.completed_requests,
                        rejected_requests: self.counters.rejected_requests,
                        capacity_rejections: self.counters.capacity_rejections,
                        shutdown: match aborted {
                            None => RuntimeShutdownOutcome::Drained { completed_tasks: task_count },
                            Some(aborted_tasks) => RuntimeShutdownOutcome::Forced {
                                completed_tasks: if task_count >= aborted_tasks {
                                    (task_count - aborted_tasks) as usize
                                } else {
                                    0
                                },
                                aborted_tasks,
                            },
                        },
                    },
                ),
            }),
    {
        match self.terminal_error {
            Some(error) => Err(error),
            None => Ok(
                EdgeOperationsOutcome::new(
                    self.local_addr,
                    self.counters,
                    drain_outcome(task_count, aborted),
                ),
            ),
        }
    }
}

/// A connection is served exactly while fewer are open than may be, and is counted as
/// accepted or as refused for want of room.
pub proof fn endpoints_serve_while_there_is_room(runtime: EdgeOperationsRuntime)
    requires
        runtime.wf(),
        runtime.counters.active_connections < usize::MAX,
        runtime.counters.accepted_connections < u64::MAX,
        runtime.counters.capacity_rejections < u64::MAX,
    ensures
        ({
            let before = runtime.counters;
            let (step, open, after) = endpoint_leads_to(runtime, OperationsEvent::Accepted);
            let one: int = if runtime.open_connections < runtime.config.max_concurrent_connections {
                1
            } else {
                0
            };
            &&& step is Serve <==> one == 1
            &&& step is Close <==> one == 0
            &&& open == runtime.open_connections + one
            &&& after.active_connections == before.active_connections + one
            &&& after.accepted_connections == before.accepted_connections + one
            &&& after.capacity_rejections == before.capacity_rejections + 1 - one
            &&& after.completed_requests == before.completed_requests
            &&& after.rejected_requests == before.rejected_requests
        }),
{
}

/// A connection that ends makes room for one; the endpoint stops when it is asked to and
/// when it can accept no more, and for nothing else.
pub proof fn ended_connections_leave_the_endpoint(
    runtime: EdgeOperationsRuntime,
    event: OperationsEvent,
)
    requires
        runtime.wf(),
        runtime.open_connections > 0,
        runtime.counters.active_connections > 0,
    ensures
        ({
            let (step, open, after) = endpoint_leads_to(runtime, event);
            &&& event is ConnectionEnded ==> step is Wait && open == runtime.open_connections - 1
                && after.active_connections == runtime.counters.active_connections - 1
                && after.accepted_connections == runtime.counters.accepted_connections
                && after.capacity_rejections == runtime.counters.capacity_rejections
            &&& step is Stop <==> event is ShutdownRequested || event is AcceptFailed
            &&& step is Stop ==> open == runtime.open_connections && after == runtime.counters
        }),
{
}

} // verus!
