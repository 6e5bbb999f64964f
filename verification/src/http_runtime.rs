//! The HTTPS listener: which connections it takes, and how it ends.

use vstd::prelude::*;
use vstd::string::*;

use crate::admission::{acquired, held, released, PeerAdmission, PeerAdmissionPermit};
use crate::clock::Instant;
use crate::forward::io_error_text;
use crate::http_config::{
    http_ingress_fault, HttpIngressConfig, HttpIngressConfigError, HttpIngressExposurePolicy,
};
use crate::http_connection::{
    admit_connection, source_admission, source_has_room, ConnectionAdmission,
};
use crate::http_rate_limit::{full_bucket, HttpRateLimiterStatus, HttpRequestRateLimiter, RateLimiterState};
use crate::http_status::{
    bumped, connection_closed, connection_opened, outcome_of, status_of, zero_counters,
    ActiveConnectionGuard, HttpIngressCounters, HttpIngressOutcome, HttpIngressStatusHandle,
    SignedAccessReloadStatus,
};
use crate::net::{IpAddr, SocketAddr};
use crate::shutdown::{drain_outcome, RuntimeShutdownOutcome};

verus! {

/// Why the ingress failed.
#[derive(Debug)]
pub enum HttpIngressError {
    InvalidConfig(HttpIngressConfigError),
    Bind(std::io::Error),
    Accept(std::io::Error),
}

impl HttpIngressError {
    /// The text of the error, where `source` is the text of its cause or of the
    /// listener's address.
    pub open spec fn text(self, source: Seq<char>) -> Seq<char> {
        match self {
            HttpIngressError::InvalidConfig(error) => "invalid HTTPS ingress config: "@
                + error.text(source),
            HttpIngressError::Bind(_) => "HTTPS ingress bind failed: "@ + source,
            HttpIngressError::Accept(_) => "HTTPS ingress accept failed: "@ + source,
        }
    }

    /// The text of the error, where `source` is the text of its cause or of the
    /// listener's address.
    pub fn describe(&self, source: &str) -> (message: String)
        ensures
            message@ == self.text(source@),
    {
        match self {
            HttpIngressError::InvalidConfig(error) => {
                let detail: String = error.message(source);
                "invalid HTTPS ingress config: ".to_owned().concat(detail.as_str())
            },
            HttpIngressError::Bind(_) => "HTTPS ingress bind failed: ".to_owned().concat(source),
            HttpIngressError::Accept(_) => {
                "HTTPS ingress accept failed: ".to_owned().concat(source)
            },
        }
    }

    /// The text of the error with that of its cause, where `listener` is how the
    /// listener's address is written.
    pub fn message(&self, listener: &str) -> (message: String)
        ensures
            self is InvalidConfig ==> message@ == self.text(listener@),
            exists|source: Seq<char>| message@ == #[trigger] self.text(source),
    {
        match self {
            HttpIngressError::InvalidConfig(_) => self.describe(listener),
            HttpIngressError::Bind(error) => {
                let source: String = io_error_text(error);
                self.describe(source.as_str())
            },
            HttpIngressError::Accept(error) => {
                let source: String = io_error_text(error);
                self.describe(source.as_str())
            },
        }
    }
}

/// What happened at the listener.
#[derive(Debug)]
pub enum IngressEvent {
    ShutdownRequested,
    /// A connection came from that source.
    Accepted(IpAddr),
    AcceptFailed(std::io::Error),
    /// A connection ended that was served with that permit.
    ConnectionEnded(Option<PeerAdmissionPermit>),
}

/// What is to be done at the listener.
#[derive(Debug, PartialEq, Eq, Structural)]
pub enum IngressStep {
    /// Wait for what happens next.
    Wait,
    /// Close the connection unanswered.
    Close,
    /// Serve the connection, with the permit of its source where there is one.
    Serve(Option<PeerAdmissionPermit>),
    /// Close the listener and drain its connections.
    Stop,
}

/// A bound HTTPS listener, with the connections that it serves.
#[derive(Debug)]
pub struct HttpIngressRuntime {
    pub config: HttpIngressConfig,
    pub local_addr: SocketAddr,
    pub status: HttpIngressStatusHandle,
    pub open_connections: usize,
    pub sources: Option<PeerAdmission>,
    pub terminal_error: Option<HttpIngressError>,
}

/// Sources are limited just where the listener is public, and as it says.
pub open spec fn sources_follow(
    sources: Option<PeerAdmission>,
    exposure: HttpIngressExposurePolicy,
) -> bool {
    match exposure {
        HttpIngressExposurePolicy::LoopbackOnly => sources is None,
        HttpIngressExposurePolicy::Public { max_connections_per_ip } => sources matches Some(
            admission,
        ) && admission.wf() && admission.max_connections_per_ip == max_connections_per_ip,
    }
}

/// What is done at the listener for what happened there, how many connections are open
/// afterwards, and what has been counted.
pub open spec fn listener_leads_to(runtime: HttpIngressRuntime, event: IngressEvent) -> (
    IngressStep,
    int,
    HttpIngressCounters,
) {
    let counters = runtime.status.counters;
    match event {
        IngressEvent::ShutdownRequested | IngressEvent::AcceptFailed(_) => (
            IngressStep::Stop,
            runtime.open_connections as int,
            counters,
        ),
        IngressEvent::Accepted(peer) => if runtime.open_connections
            >= runtime.config.max_concurrent_connections {
            (
                IngressStep::Close,
                runtime.open_connections as int,
                HttpIngressCounters {
                    global_capacity_rejections: bumped(counters.global_capacity_rejections),
                    ..counters
                },
            )
        } else if !source_has_room(runtime.sources, peer) {
            (
                IngressStep::Close,
                runtime.open_connections as int,
                HttpIngressCounters {
                    per_ip_capacity_rejections: bumped(counters.per_ip_capacity_rejections),
                    ..counters
                },
            )
        } else {
            (
                IngressStep::Serve(
                    if runtime.sources is Some {
                        Some(PeerAdmissionPermit { peer })
                    } else {
                        None
                    },
                ),
                runtime.open_connections + 1,
                connection_opened(
                    HttpIngressCounters {
                        accepted_connections: bumped(counters.accepted_connections),
                        ..counters
                    },
                ),
            )
        },
        IngressEvent::ConnectionEnded(_) => (
            IngressStep::Wait,
            if runtime.open_connections == 0 {
                0
            } else {
                runtime.open_connections - 1
            },
            connection_closed(counters),
        ),
    }
}

impl HttpIngressRuntime {
    /// The configuration is valid, and no more connections are open than it allows,
    /// in all and from one source.
    pub open spec fn wf(self) -> bool {
        &&& http_ingress_fault(self.config) is None
        &&& self.open_connections <= self.config.max_concurrent_connections
        &&& sources_follow(self.sources, self.config.exposure)
        &&& self.status.rate_limiter.wf()
    }

    /// Takes the listener that was bound for a configuration, or the reason why
    /// none was.
    pub fn bind(
        config: HttpIngressConfig,
        bound: Result<SocketAddr, std::io::Error>,
        signed_access_reload: Option<SignedAccessReloadStatus>,
        now: Instant,
    ) -> (result: Result<HttpIngressRuntime, HttpIngressError>)
        ensures
            match result {
                Err(HttpIngressError::InvalidConfig(fault)) => http_ingress_fault(config) == Some(
                    fault,
                ),
                Err(HttpIngressError::Bind(error)) => http_ingress_fault(config) is None && bound
                    == Err::<SocketAddr, std::io::Error>(error),
                Err(HttpIngressError::Accept(_)) => false,
                Ok(runtime) => {
                    &&& http_ingress_fault(config) is None
                    &&& bound == Ok::<SocketAddr, std::io::Error>(runtime.local_addr)
                    &&& runtime.wf()
                    &&& runtime.config == config
                    &&& runtime.status.counters == zero_counters()
                    &&& runtime.status.rate_limiter.config == config.request_rate_limit
                    &&& runtime.status.rate_limiter@ == (RateLimiterState {
                        global: full_bucket(
                            config.request_rate_limit.global_requests_per_second,
                            config.request_rate_limit.global_burst,
                            now,
                        ),
                        peers: Seq::empty(),
                        peak: 0,
                    })
                    &&& runtime.status.signed_access_reload == signed_access_reload
                    &&& runtime.open_connections == 0
                    &&& runtime.sources matches Some(sources) ==> sources@.dom().len() == 0
                    &&& runtime.terminal_error is None
                },
            },
    {
        match config.validate() {
            Ok(()) => {},
            Err(error) => return Err(HttpIngressError::InvalidConfig(error)),
        }
        let local_addr: SocketAddr = match bound {
            Ok(address) => address,
            Err(error) => return Err(HttpIngressError::Bind(error)),
        };
        let sources: Option<PeerAdmission> = source_admission(config.exposure);
        let status = HttpIngressStatusHandle {
            counters: HttpIngressCounters::default(),
            rate_limiter: HttpRequestRateLimiter::at(config.request_rate_limit, now),
            signed_access_reload,
        };
        Ok(
            HttpIngressRuntime {
                config,
                local_addr,
                status,
                open_connections: 0,
                sources,
                terminal_error: None,
            },
        )
    }

    /// Where the listener is bound.
    pub fn local_addr(&self) -> (address: SocketAddr)
        ensures
            address == self.local_addr,
    {
        self.local_addr
    }

    /// What the ingress's state is read from.
    pub fn status_handle(&self) -> (handle: &HttpIngressStatusHandle)
        ensures
            *handle == self.status,
    {
        &self.status
    }

    /// Takes what happened at the listener. A connection is served while fewer are
    /// open than may be, in all and from its source; the listener stops when asked
    /// to, or when it can accept no more.
    pub fn step(&mut self, event: IngressEvent) -> (step: IngressStep)
        requires
            old(self).wf(),
        ensures
            (step, final(self).open_connections as int, final(self).status.counters)
                == listener_leads_to(*old(self), event),
            final(self).wf(),
            final(self).config == old(self).config,
            final(self).local_addr == old(self).local_addr,
            final(self).status.rate_limiter == old(self).status.rate_limiter,
            final(self).status.signed_access_reload == old(self).status.signed_access_reload,
            final(self).terminal_error == (match event {
                IngressEvent::AcceptFailed(error) => Some(HttpIngressError::Accept(error)),
                _ => old(self).terminal_error,
            }),
            match event {
                IngressEvent::ShutdownRequested | IngressEvent::AcceptFailed(_) => {
                    &&& step is Stop
                    &&& final(self).open_connections == old(self).open_connections
                    &&& final(self).sources == old(self).sources
                    &&& final(self).status.counters == old(self).status.counters
                },
                IngressEvent::Accepted(peer) => if old(self).open_connections >= old(
                    self,
                ).config.max_concurrent_connections {
                    &&& step is Close
                    &&& final(self).open_connections == old(self).open_connections
                    &&& final(self).sources == old(self).sources
                    &&& final(self).status.counters == (HttpIngressCounters {
                        global_capacity_rejections: bumped(
                            old(self).status.counters.global_capacity_rejections,
                        ),
                        ..old(self).status.counters
                    })
                } else if !source_has_room(old(self).sources, peer) {
                    &&& step is Close
                    &&& final(self).open_connections == old(self).open_connections
                    &&& final(self).sources->0@ == old(self).sources->0@
                    &&& final(self).status.counters == (HttpIngressCounters {
                        per_ip_capacity_rejections: bumped(
                            old(self).status.counters.per_ip_capacity_rejections,
                        ),
                        ..old(self).status.counters
                    })
                } else {
                    &&& step == IngressStep::Serve(
                        if old(self).sources is Some {
                            Some(PeerAdmissionPermit { peer })
                        } else {
                            None
                        },
                    )
                    &&& final(self).open_connections == old(self).open_connections + 1
                    &&& old(self).sources is Some ==> final(self).sources->0@ == acquired(
                        old(self).sources->0@,
                        peer,
                    )
                    &&& final(self).status.counters == connection_opened(
                        HttpIngressCounters {
                            accepted_connections: bumped(
                                old(self).status.counters.accepted_connections,
                            ),
                            ..old(self).status.counters
                        },
                    )
                },
                IngressEvent::ConnectionEnded(permit) => {
                    &&& step is Wait
                    &&& final(self).open_connections == (if old(self).open_connections == 0 {
                        0int
                    } else {
                        old(self).open_connections - 1
                    })
                    &&& final(self).status.counters == connection_closed(
                        old(self).status.counters,
                    )
                    &&& old(self).sources is Some ==> final(self).sources->0@ == (match permit {
                        Some(permit) => released(old(self).sources->0@, permit.peer),
                        None => old(self).sources->0@,
                    })
                },
            },
    {
        match event {
            IngressEvent::ShutdownRequested => IngressStep::Stop,
            IngressEvent::AcceptFailed(error) => {
                self.terminal_error = Some(HttpIngressError::Accept(error));
                IngressStep::Stop
            },
            IngressEvent::Accepted(peer) => {
                let permit_free: bool = self.open_connections
                    < self.config.max_concurrent_connections;
                match admit_connection(
                    permit_free,
                    &mut self.sources,
                    peer,
                    &mut self.status.counters,
                ) {
                    ConnectionAdmission::GlobalCapacity => IngressStep::Close,
                    ConnectionAdmission::PerIpCapacity => IngressStep::Close,
                    ConnectionAdmission::Admitted(permit) => {
                        self.open_connections = self.open_connections + 1;
                        IngressStep::Serve(permit)
                    },
                }
            },
            IngressEvent::ConnectionEnded(permit) => {
                if self.open_connections > 0 {
                    self.open_connections = self.open_connections - 1;
                }
                ActiveConnectionGuard.release(&mut self.status.counters);
                match permit {
                    Some(permit) => match &mut self.sources {
                        Some(sources) => sources.release(permit),
                        None => {},
                    },
                    None => {},
                }
                IngressStep::Wait
            },
        }
    }

    /// What a run that has stopped comes to, where so many tasks were running and
    /// so many of them had to be aborted, or none. The failure that ended it, if
    /// one did, is reported in place of the outcome.
    pub fn finish(self, task_count: usize, aborted: Option<usize>) -> (result: Result<
        HttpIngressOutcome,
        HttpIngressError,
    >)
        requires
            self.wf(),
        ensures
            result == (match self.terminal_error {
                Some(error) => Err(error),
                None => Ok(
                    outcome_of(
                        self.local_addr,
                        status_of(
                            self.status.counters,
                            HttpRateLimiterStatus {
                                tracked_peer_ips: self.status.rate_limiter@.peers.len() as usize,
                                peak_tracked_peer_ips: self.status.rate_limiter@.peak as usize,
                            },
                            self.status.signed_access_reload,
                        ),
                        match aborted {
                            None => RuntimeShutdownOutcome::Drained { completed_tasks: task_count },
                            Some(aborted_tasks) => RuntimeShutdownOutcome::Forced {
                                completed_tasks: if task_count >= aborted_tasks {
                                    (task_count - aborted_tasks) as usize
                                } else {
                                    0
                                },
                                aborted_tasks,
                            },
                        },
                    ),
                ),
            }),
    {
        match self.terminal_error {
            Some(error) => Err(error),
            None => Ok(
                HttpIngressOutcome::new(
                    self.local_addr,
                    self.status.snapshot(),
                    drain_outcome(task_count, aborted),
                ),
            ),
        }
    }
}

/// A connection is served exactly while fewer are open than may be and its source holds
/// fewer than it may; with each that is served one more is open, and none is closed for
/// it.
pub proof fn connections_are_served_while_there_is_room(
    runtime: HttpIngressRuntime,
    peer: IpAddr,
)
    requires
        runtime.wf(),
    ensures
        ({
            let (step, open, counters) = listener_leads_to(runtime, IngressEvent::Accepted(peer));
            let room = runtime.open_connections < runtime.config.max_concurrent_connections && (
            runtime.config.exposure is Public ==> held(runtime.sources->0@, peer)
                < runtime.config.exposure->max_connections_per_ip);
            &&& step is Serve <==> room
            &&& step is Close <==> !room
            &&& open == runtime.open_connections + (if room {
                1int
            } else {
                0int
            })
            &&& step is Serve ==> (match step->Serve_0 {
                None => runtime.config.exposure is LoopbackOnly,
                Some(permit) => runtime.config.exposure is Public && permit.peer == peer,
            })
        }),
{
}

/// Each connection that comes is counted once: as accepted, or under the bound that it
/// met, that of all connections before that of its source.
pub proof fn connections_are_counted_by_what_became_of_them(
    runtime: HttpIngressRuntime,
    peer: IpAddr,
)
    requires
        runtime.wf(),
        runtime.status.counters.accepted_connections < u64::MAX,
        runtime.status.counters.global_capacity_rejections < u64::MAX,
        runtime.status.counters.per_ip_capacity_rejections < u64::MAX,
    ensures
        ({
            let before = runtime.status.counters;
            let (step, open, after) = listener_leads_to(runtime, IngressEvent::Accepted(peer));
            let full = runtime.open_connections == runtime.config.max_concurrent_connections;
            &&& after.accepted_connections - before.accepted_connections == (if step is Serve {
                1int
            } else {
                0int
            })
            &&& after.global_capacity_rejections - before.global_capacity_rejections == (if full {
                1int
            } else {
                0int
            })
            &&& after.per_ip_capacity_rejections - before.per_ip_capacity_rejections == (if step
                is Close && !full {
                1int
            } else {
                0int
            })
            &&& after.completed_requests == before.completed_requests
            &&& after.rejected_requests == before.rejected_requests
            &&& after.tls_rejections == before.tls_rejections
        }),
{
}

/// A connection that ends makes room for one; the listener stops when it is asked to and
/// when it can accept no more, and for nothing else.
pub proof fn ended_connections_make_room(
    runtime: HttpIngressRuntime,
    event: IngressEvent,
)
    requires
        runtime.wf(),
        runtime.open_connections > 0,
    ensures
        ({
            let (step, open, counters) = listener_leads_to(runtime, event);
            &&& event is ConnectionEnded ==> step is Wait && open == runtime.open_connections - 1
                && counters.accepted_connections == runtime.status.counters.accepted_connections
            &&& step is Stop <==> event is ShutdownRequested || event is AcceptFailed
            &&& step is Stop ==> open == runtime.open_connections && counters
                == runtime.status.counters
        }),
{
}

} // verus!
