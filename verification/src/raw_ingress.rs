//! Raw TCP ingress routes: their bounds, their registry and their lifecycle.

use vstd::prelude::*;
use vstd::string::*;

use crate::admission::{acquired, held, PeerAdmission, PeerAdmissionPermit};
use crate::clock::{Duration, NANOS_PER_SEC};
use crate::forward::io_error_text;
use crate::names::TunnelId;
use crate::net::{loopback_ip, IpAddr, SocketAddr};
use crate::protocol::{RouteError, TransportSessionId};
use crate::request_history::one_more;
use crate::shutdown::{RuntimeShutdownConfig, RuntimeShutdownOutcome};
use crate::text::{decimal, push_decimal};

verus! {

/// The identity of a route within the process.
#[derive(Debug, Clone, Copy, PartialEq, Eq, Hash, Structural)]
pub struct RawIngressRouteId(pub u64);

impl RawIngressRouteId {
    /// The identity's number.
    pub fn get(self) -> (value: u64)
        ensures
            value == self.0,
    {
        self.0
    }

    /// How the identity is written.
    pub open spec fn text(self) -> Seq<char> {
        "raw-route#"@ + decimal(self.0 as nat)
    }

    /// How the identity is written.
    pub fn to_string(&self) -> (text: String)
        ensures
            text@ == self.text(),
    {
        let mut text: String = "raw-route#".to_owned();
        push_decimal(&mut text, self.0);
        text
    }
}

/// The bounds of a route manager.
#[derive(Debug, Clone, Copy, PartialEq, Eq, Structural)]
pub struct RawIngressManagerConfig {
    pub max_routes: usize,
}

impl Default for RawIngressManagerConfig {
    fn default() -> (config: RawIngressManagerConfig)
        ensures
            config.max_routes == 32,
    {
        RawIngressManagerConfig { max_routes: 32 }
    }
}

impl RawIngressManagerConfig {
    /// Refuses a manager without routes.
    pub fn validate(self) -> (result: Result<(), RawIngressConfigError>)
        ensures
            result == (if self.max_routes == 0 {
                Err(RawIngressConfigError::ZeroMaxRoutes)
            } else {
                Ok(())
            }),
    {
        if self.max_routes == 0 {
            return Err(RawIngressConfigError::ZeroMaxRoutes);
        }
        Ok(())
    }
}

/// What the connections of a route lead to.
#[derive(Debug, PartialEq, Eq)]
pub enum RawIngressRouteTarget {
    TransportSession(TransportSessionId),
    Tunnel(TunnelId),
}

impl Clone for RawIngressRouteTarget {
    fn clone(&self) -> (copy: RawIngressRouteTarget)
        ensures
            copy == *self,
    {
        match self {
            RawIngressRouteTarget::TransportSession(session) =>
                RawIngressRouteTarget::TransportSession(*session),
            RawIngressRouteTarget::Tunnel(tunnel) => RawIngressRouteTarget::Tunnel(tunnel.clone()),
        }
    }
}

impl RawIngressRouteTarget {
    /// How the target is written, where `session` is how its session is.
    pub open spec fn text(self, session: Seq<char>) -> Seq<char> {
        match self {
            RawIngressRouteTarget::TransportSession(_) => session,
            RawIngressRouteTarget::Tunnel(tunnel) => "tunnel:"@ + tunnel@,
        }
    }

    /// How the target is written, where `session` is how its session is.
    pub fn to_text(&self, session: &str) -> (text: String)
        ensures
            text@ == self.text(session@),
    {
        match self {
            RawIngressRouteTarget::TransportSession(_) => session.to_owned(),
            RawIngressRouteTarget::Tunnel(tunnel) => "tunnel:".to_owned().concat(tunnel.as_str()),
        }
    }
}

/// Who may reach a route's listener.
#[derive(Debug, Clone, Copy, PartialEq, Eq, Structural)]
pub enum RawIngressExposurePolicy {
    LoopbackOnly,
    Public { max_connections_per_ip: usize },
}

impl Default for RawIngressExposurePolicy {
    fn default() -> (policy: RawIngressExposurePolicy)
        ensures
            policy is LoopbackOnly,
    {
        RawIngressExposurePolicy::LoopbackOnly
    }
}

impl RawIngressExposurePolicy {
    /// The policy's name.
    pub fn as_str(self) -> (name: &'static str)
        ensures
            name@ == (match self {
                RawIngressExposurePolicy::LoopbackOnly => "loopback"@,
                RawIngressExposurePolicy::Public { .. } => "public"@,
            }),
    {
        match self {
            RawIngressExposurePolicy::LoopbackOnly => "loopback",
            RawIngressExposurePolicy::Public { .. } => "public",
        }
    }
}

/// The configuration of one route.
#[derive(Debug)]
pub struct RawIngressRouteConfig {
    pub listen_addr: SocketAddr,
    pub target: RawIngressRouteTarget,
    pub max_concurrent_connections: usize,
    pub exposure: RawIngressExposurePolicy,
    pub drain_timeout: Duration,
}

/// A loopback-only route with the default bounds.
pub open spec fn default_route(
    listen_addr: SocketAddr,
    target: RawIngressRouteTarget,
) -> RawIngressRouteConfig {
    RawIngressRouteConfig {
        listen_addr,
        target,
        max_concurrent_connections: 32,
        exposure: RawIngressExposurePolicy::LoopbackOnly,
        drain_timeout: Duration { nanos: (10 * NANOS_PER_SEC) as u128 },
    }
}

/// What `validate` finds wrong first.
pub open spec fn route_fault(c: RawIngressRouteConfig) -> Option<RawIngressConfigError> {
    let exposure = match c.exposure {
        RawIngressExposurePolicy::LoopbackOnly => if !loopback_ip(c.listen_addr.ip) {
            Some(RawIngressConfigError::NonLoopbackListener(c.listen_addr))
        } else {
            None
        },
        RawIngressExposurePolicy::Public { max_connections_per_ip } => if max_connections_per_ip
            == 0 {
            Some(RawIngressConfigError::ZeroMaxConnectionsPerIp)
        } else if max_connections_per_ip > c.max_concurrent_connections {
            Some(RawIngressConfigError::PerIpLimitExceedsGlobal)
        } else {
            None
        },
    };
    if exposure is Some {
        exposure
    } else if c.target matches RawIngressRouteTarget::TransportSession(session) && session.value
        == 0 {
        Some(RawIngressConfigError::InvalidTargetSession)
    } else if c.max_concurrent_connections == 0 {
        Some(RawIngressConfigError::ZeroMaxConnections)
    } else if c.max_concurrent_connections > u32::MAX {
        Some(RawIngressConfigError::ConnectionLimitTooLarge)
    } else if c.drain_timeout.nanos == 0 {
        Some(RawIngressConfigError::ZeroDrainTimeout)
    } else {
        None
    }
}

impl RawIngressRouteConfig {
    /// A loopback-only route to one session.
    pub fn new(listen_addr: SocketAddr, target_session_id: TransportSessionId) -> (config:
        RawIngressRouteConfig)
        ensures
            config == default_route(
                listen_addr,
                RawIngressRouteTarget::TransportSession(target_session_id),
            ),
    {
        RawIngressRouteConfig {
            listen_addr,
            target: RawIngressRouteTarget::TransportSession(target_session_id),
            max_concurrent_connections: 32,
            exposure: RawIngressExposurePolicy::LoopbackOnly,
            drain_timeout: Duration::from_secs(10),
        }
    }

    /// A loopback-only route to whichever session serves a tunnel.
    pub fn for_tunnel(listen_addr: SocketAddr, tunnel_id: TunnelId) -> (config:
        RawIngressRouteConfig)
        ensures
            config == default_route(listen_addr, RawIngressRouteTarget::Tunnel(tunnel_id)),
    {
        RawIngressRouteConfig {
            listen_addr,
            target: RawIngressRouteTarget::Tunnel(tunnel_id),
            max_concurrent_connections: 32,
            exposure: RawIngressExposurePolicy::LoopbackOnly,
            drain_timeout: Duration::from_secs(10),
        }
    }

    /// Checks every bound; the first one broken is reported.
    pub fn validate(&self) -> (result: Result<(), RawIngressConfigError>)
        ensures
            result == (match route_fault(*self) {
                Some(fault) => Err(fault),
                None => Ok(()),
            }),
    {
        match self.exposure {
            RawIngressExposurePolicy::LoopbackOnly => {
                if !self.listen_addr.ip().is_loopback() {
                    return Err(RawIngressConfigError::NonLoopbackListener(self.listen_addr));
                }
            },
            RawIngressExposurePolicy::Public { max_connections_per_ip } => {
                if max_connections_per_ip == 0 {
                    return Err(RawIngressConfigError::ZeroMaxConnectionsPerIp);
                }
                if max_connections_per_ip > self.max_concurrent_connections {
                    return Err(RawIngressConfigError::PerIpLimitExceedsGlobal);
                }
            },
        }
        if let RawIngressRouteTarget::TransportSession(session) = &self.target {
            if session.is_invalid() {
                return Err(RawIngressConfigError::InvalidTargetSession);
            }
        }
        if self.max_concurrent_connections == 0 {
            return Err(RawIngressConfigError::ZeroMaxConnections);
        }
        if self.max_concurrent_connections > u32::MAX as usize {
            return Err(RawIngressConfigError::ConnectionLimitTooLarge);
        }
        if self.drain_timeout.is_zero() {
            return Err(RawIngressConfigError::ZeroDrainTimeout);
        }
        Ok(())
    }
}

/// A bound that does not hold.
#[derive(Debug, Clone, Copy, PartialEq, Eq, Structural)]
pub enum RawIngressConfigError {
    NonLoopbackListener(SocketAddr),
    ZeroMaxRoutes,
    InvalidTargetSession,
    ZeroMaxConnections,
    ConnectionLimitTooLarge,
    ZeroMaxConnectionsPerIp,
    PerIpLimitExceedsGlobal,
    ZeroDrainTimeout,
}

impl RawIngressConfigError {
    /// The text shown to an operator, where `listener` is how the listener's
    /// address is written.
    pub open spec fn text(self, listener: Seq<char>) -> Seq<char> {
        match self {
            RawIngressConfigError::NonLoopbackListener(_) =>
                "raw ingress listener must be loopback, got "@ + listener,
            RawIngressConfigError::ZeroMaxRoutes =>
                "max_routes must be greater than zero"@,
            RawIngressConfigError::InvalidTargetSession =>
                "target_session_id must be non-zero"@,
            RawIngressConfigError::ZeroMaxConnections =>
                "max_concurrent_connections must be greater than zero"@,
            RawIngressConfigError::ConnectionLimitTooLarge =>
                "max_concurrent_connections must fit in u32"@,
            RawIngressConfigError::ZeroMaxConnectionsPerIp =>
                "max_connections_per_ip must be greater than zero"@,
            RawIngressConfigError::PerIpLimitExceedsGlobal =>
                "max_connections_per_ip cannot exceed the global connection limit"@,
            RawIngressConfigError::ZeroDrainTimeout =>
                "drain_timeout must be greater than zero"@,
        }
    }

    /// The text shown to an operator, where `listener` is how the listener's
    /// address is written.
    pub fn message(self, listener: &str) -> (message: String)
        ensures
            message@ == self.text(listener@),
    {
        let fixed: &str = match self {
            RawIngressConfigError::NonLoopbackListener(_) => {
                return "raw ingress listener must be loopback, got ".to_owned().concat(listener);
            },
            RawIngressConfigError::ZeroMaxRoutes =>
                "max_routes must be greater than zero",
            RawIngressConfigError::InvalidTargetSession =>
                "target_session_id must be non-zero",
            RawIngressConfigError::ZeroMaxConnections =>
                "max_concurrent_connections must be greater than zero",
            RawIngressConfigError::ConnectionLimitTooLarge =>
                "max_concurrent_connections must fit in u32",
            RawIngressConfigError::ZeroMaxConnectionsPerIp =>
                "max_connections_per_ip must be greater than zero",
            RawIngressConfigError::PerIpLimitExceedsGlobal =>
                "max_connections_per_ip cannot exceed the global connection limit",
            RawIngressConfigError::ZeroDrainTimeout =>
                "drain_timeout must be greater than zero",
        };
        fixed.to_owned()
    }
}

/// How far a route has come.
#[derive(Debug, Clone, Copy, PartialEq, Eq, Structural)]
pub enum RawIngressRouteState {
    Active,
    Draining,
    TargetDisconnected,
    Removed,
}

/// A route and its counters.
#[derive(Debug, PartialEq, Eq)]
pub struct RawIngressRouteStatus {
    pub route_id: RawIngressRouteId,
    pub local_addr: SocketAddr,
    pub target: RawIngressRouteTarget,
    pub state: RawIngressRouteState,
    pub active_connections: usize,
    pub accepted_connections: u64,
    pub global_capacity_rejections: u64,
    pub per_ip_capacity_rejections: u64,
    pub target_unavailable_rejections: u64,
}

impl Clone for RawIngressRouteStatus {
    fn clone(&self) -> (copy: RawIngressRouteStatus)
        ensures
            copy == *self,
    {
        RawIngressRouteStatus {
            route_id: self.route_id,
            local_addr: self.local_addr,
            target: self.target.clone(),
            state: self.state,
            active_connections: self.active_connections,
            accepted_connections: self.accepted_connections,
            global_capacity_rejections: self.global_capacity_rejections,
            per_ip_capacity_rejections: self.per_ip_capacity_rejections,
            target_unavailable_rejections: self.target_unavailable_rejections,
        }
    }
}

/// A route that was added.
#[derive(Debug, PartialEq, Eq)]
pub struct RawIngressRoute {
    pub route_id: RawIngressRouteId,
    pub local_addr: SocketAddr,
    pub target: RawIngressRouteTarget,
}

/// Why something could not be done to a route.
#[derive(Debug)]
pub enum RawIngressRouteError {
    InvalidConfig(RawIngressConfigError),
    Bind(std::io::Error),
    RouteCapacityExceeded,
    RouteIdExhausted,
    TargetSessionNotConnected(TransportSessionId),
    RouteNotFound(RawIngressRouteId),
    DrainTimeout(RawIngressRouteId),
    RouteTaskStopped(RawIngressRouteId),
    ManagerShuttingDown,
}

impl RawIngressRouteError {
    /// The text of the error, where `source` is how its cause, the listener's
    /// address or the session is written.
    pub open spec fn text(self, source: Seq<char>) -> Seq<char> {
        match self {
            RawIngressRouteError::InvalidConfig(error) => "invalid raw ingress config: "@
                + error.text(source),
            RawIngressRouteError::Bind(_) => "raw ingress bind failed: "@ + source,
            RawIngressRouteError::RouteCapacityExceeded => "raw ingress route capacity exceeded"@,
            RawIngressRouteError::RouteIdExhausted => "raw ingress route ID exhausted"@,
            RawIngressRouteError::TargetSessionNotConnected(_) => "target transport session "@
                + source + " is not connected"@,
            RawIngressRouteError::RouteNotFound(id) => "raw ingress route "@ + id.text()
                + " was not found"@,
            RawIngressRouteError::DrainTimeout(id) => "raw ingress route "@ + id.text()
                + " drain timed out"@,
            RawIngressRouteError::RouteTaskStopped(id) => "raw ingress route "@ + id.text()
                + " stopped before removal"@,
            RawIngressRouteError::ManagerShuttingDown =>
                "raw ingress route manager is shutting down"@,
        }
    }

    /// The text of the error, where `source` is how its cause, the listener's
    /// address or the session is written.
    pub fn describe(&self, source: &str) -> (message: String)
        ensures
            message@ == self.text(source@),
    {
        match self {
            RawIngressRouteError::InvalidConfig(error) => {
                let detail: String = error.message(source);
                "invalid raw ingress config: ".to_owned().concat(detail.as_str())
            },
            RawIngressRouteError::Bind(_) => "raw ingress bind failed: ".to_owned().concat(source),
            RawIngressRouteError::RouteCapacityExceeded =>
                "raw ingress route capacity exceeded".to_owned(),
            RawIngressRouteError::RouteIdExhausted => "raw ingress route ID exhausted".to_owned(),
            RawIngressRouteError::TargetSessionNotConnected(_) =>
                "target transport session ".to_owned().concat(source).concat(" is not connected"),
            RawIngressRouteError::RouteNotFound(id) => {
                let route: String = id.to_string();
                "raw ingress route ".to_owned().concat(route.as_str()).concat(" was not found")
            },
            RawIngressRouteError::DrainTimeout(id) => {
                let route: String = id.to_string();
                "raw ingress route ".to_owned().concat(route.as_str()).concat(" drain timed out")
            },
            RawIngressRouteError::RouteTaskStopped(id) => {
                let route: String = id.to_string();
                "raw ingress route ".to_owned().concat(route.as_str()).concat(
                    " stopped before removal",
                )
            },
            RawIngressRouteError::ManagerShuttingDown =>
                "raw ingress route manager is shutting down".to_owned(),
        }
    }

    /// The text of the error with that of its cause, where `name` is how the
    /// listener's address or the session is written.
    pub fn message(&self, name: &str) -> (message: String)
        ensures
            !(self is Bind) ==> message@ == self.text(name@),
            exists|source: Seq<char>| message@ == #[trigger] self.text(source),
    {
        match self {
            RawIngressRouteError::Bind(error) => {
                let source: String = io_error_text(error);
                self.describe(source.as_str())
            },
            _ => self.describe(name),
        }
    }
}

/// What the manager knows of one route: its status, how long it may drain, and
/// whether it was told to stop.
#[derive(Debug)]
pub struct RouteControl {
    pub status: RawIngressRouteStatus,
    pub drain_timeout: Duration,
    pub stop: bool,
}

/// Creates, observes and drains a bounded number of routes.
#[derive(Debug)]
pub struct RawIngressRouteManager {
    pub config: RawIngressManagerConfig,
    pub last_route_id: u64,
    pub shutting_down: bool,
    pub routes: Vec<RouteControl>,
}

/// Whether a route is registered.
pub open spec fn has_route(routes: Seq<RouteControl>, id: RawIngressRouteId) -> bool {
    exists|i: int| 0 <= i < routes.len() && #[trigger] routes[i].status.route_id == id
}

/// The statuses of the routes.
pub open spec fn statuses(routes: Seq<RouteControl>) -> Seq<RawIngressRouteStatus> {
    routes.map_values(|route: RouteControl| route.status)
}

/// The routes once one of them has reported how it stands.
pub open spec fn with_status(routes: Seq<RouteControl>, status: RawIngressRouteStatus) -> Seq<
    RouteControl,
> {
    routes.map_values(
        |route: RouteControl|
            if route.status.route_id == status.route_id {
                RouteControl { status, ..route }
            } else {
                route
            },
    )
}

/// The status of a route that was just added.
pub open spec fn new_status(
    route_id: RawIngressRouteId,
    local_addr: SocketAddr,
    target: RawIngressRouteTarget,
) -> RawIngressRouteStatus {
    RawIngressRouteStatus {
        route_id,
        local_addr,
        target,
        state: RawIngressRouteState::Active,
        active_connections: 0,
        accepted_connections: 0,
        global_capacity_rejections: 0,
        per_ip_capacity_rejections: 0,
        target_unavailable_rejections: 0,
    }
}

impl RawIngressRouteManager {
    /// The routes stand in the order of their identities, none of which was given
    /// twice, and there are no more of them than allowed.
    pub open spec fn wf(self) -> bool {
        &&& self.config.max_routes > 0
        &&& self.routes@.len() <= self.config.max_routes
        &&& forall|i: int, j: int|
            0 <= i < j < self.routes@.len() ==> (#[trigger] self.routes@[i]).status.route_id.0 < (
            #[trigger] self.routes@[j]).status.route_id.0
        &&& forall|i: int|
            0 <= i < self.routes@.len() ==> 1 <= (#[trigger] self.routes@[i]).status.route_id.0
                <= self.last_route_id
    }

    /// A manager without routes.
    pub fn new(config: RawIngressManagerConfig) -> (result: Result<
        RawIngressRouteManager,
        RawIngressRouteError,
    >)
        ensures
            match result {
                Ok(manager) => config.max_routes > 0 && manager.wf() && manager.config == config
                    && manager.last_route_id == 0 && !manager.shutting_down
                    && manager.routes@.len() == 0,
                Err(error) => config.max_routes == 0 && error
                    == RawIngressRouteError::InvalidConfig(RawIngressConfigError::ZeroMaxRoutes),
            },
    {
        match config.validate() {
            Err(error) => Err(RawIngressRouteError::InvalidConfig(error)),
            Ok(()) => Ok(
                RawIngressRouteManager {
                    config,
                    last_route_id: 0,
                    shutting_down: false,
                    routes: Vec::new(),
                },
            ),
        }
    }

    /// Checks a route before its listener is bound, where `connected` says whether
    /// the session that it leads to is connected.
    pub fn check_route(&self, config: &RawIngressRouteConfig, connected: bool) -> (result: Result<
        (),
        RawIngressRouteError,
    >)
        ensures
            match route_fault(*config) {
                Some(fault) => result == Err::<(), _>(RawIngressRouteError::InvalidConfig(fault)),
                None => if self.shutting_down {
                    result == Err::<(), _>(RawIngressRouteError::ManagerShuttingDown)
                } else {
                    match config.target {
                        RawIngressRouteTarget::TransportSession(session) => result == (
                        if connected {
                            Ok(())
                        } else {
                            Err(RawIngressRouteError::TargetSessionNotConnected(session))
                        }),
                        RawIngressRouteTarget::Tunnel(_) => result is Ok,
                    }
                },
            },
    {
        match config.validate() {
            Err(error) => return Err(RawIngressRouteError::InvalidConfig(error)),
            Ok(()) => {},
        }
        if self.shutting_down {
            return Err(RawIngressRouteError::ManagerShuttingDown);
        }
        if let RawIngressRouteTarget::TransportSession(session) = &config.target {
            if !connected {
                return Err(RawIngressRouteError::TargetSessionNotConnected(*session));
            }
        }
        Ok(())
    }

    fn next_route_id(&mut self) -> (result: Result<RawIngressRouteId, RawIngressRouteError>)
        ensures
            final(self).routes == old(self).routes,
            final(self).config == old(self).config,
            final(self).shutting_down == old(self).shutting_down,
            match result {
                Ok(id) => old(self).last_route_id < u64::MAX && id.0 == old(self).last_route_id + 1
                    && final(self).last_route_id == id.0,
                Err(error) => old(self).last_route_id == u64::MAX && final(self).last_route_id
                    == u64::MAX && error is RouteIdExhausted,
            },
    {
        if self.last_route_id == u64::MAX {
            return Err(RawIngressRouteError::RouteIdExhausted);
        }
        self.last_route_id = self.last_route_id + 1;
        Ok(RawIngressRouteId(self.last_route_id))
    }

    /// Registers a checked route whose listener was bound to that address. The
    /// identity that it is given is never given again, whether there is room for
    /// the route or not.
    pub fn add_route(&mut self, config: &RawIngressRouteConfig, local_addr: SocketAddr) -> (result:
        Result<RawIngressRoute, RawIngressRouteError>)
        requires
            old(self).wf(),
        ensures
            final(self).wf(),
            final(self).config == old(self).config,
            final(self).shutting_down == old(self).shutting_down,
            final(self).last_route_id == (if old(self).last_route_id < u64::MAX {
                old(self).last_route_id + 1
            } else {
                u64::MAX as int
            }),
            if old(self).last_route_id == u64::MAX {
                &&& result == Err::<RawIngressRoute, _>(RawIngressRouteError::RouteIdExhausted)
                &&& final(self).routes@ == old(self).routes@
            } else if old(self).shutting_down {
                &&& result == Err::<RawIngressRoute, _>(RawIngressRouteError::ManagerShuttingDown)
                &&& final(self).routes@ == old(self).routes@
            } else if old(self).routes@.len() == old(self).config.max_routes {
                &&& result == Err::<RawIngressRoute, _>(
                    RawIngressRouteError::RouteCapacityExceeded,
                )
                &&& final(self).routes@ == old(self).routes@
            } else {
                let route_id = RawIngressRouteId((old(self).last_route_id + 1) as u64);
                &&& result == Ok::<_, RawIngressRouteError>(
                    RawIngressRoute { route_id, local_addr, target: config.target },
                )
                &&& final(self).routes@ == old(self).routes@.push(
                    RouteControl {
                        status: new_status(route_id, local_addr, config.target),
                        drain_timeout: config.drain_timeout,
                        stop: false,
                    },
                )
            },
    {
        let route_id: RawIngressRouteId = self.next_route_id()?;
        if self.shutting_down {
            return Err(RawIngressRouteError::ManagerShuttingDown);
        }
        if self.routes.len() >= self.config.max_routes {
            return Err(RawIngressRouteError::RouteCapacityExceeded);
        }
        self.routes.push(
            RouteControl {
                status: RawIngressRouteStatus {
                    route_id,
                    local_addr,
                    target: config.target.clone(),
                    state: RawIngressRouteState::Active,
                    active_connections: 0,
                    accepted_connections: 0,
                    global_capacity_rejections: 0,
                    per_ip_capacity_rejections: 0,
                    target_unavailable_rejections: 0,
                },
                drain_timeout: config.drain_timeout,
                stop: false,
            },
        );
        Ok(RawIngressRoute { route_id, local_addr, target: config.target.clone() })
    }

    fn position(&self, route_id: RawIngressRouteId) -> (at: Option<usize>)
        ensures
            match at {
                Some(i) => i < self.routes@.len() && self.routes@[i as int].status.route_id
                    == route_id,
                None => !has_route(self.routes@, route_id),
            },
    {
        let mut i: usize = 0;
        while i < self.routes.len()
            invariant
                i <= self.routes@.len(),
                forall|k: int|
                    0 <= k < i ==> (#[trigger] self.routes@[k]).status.route_id != route_id,
            decreases self.routes@.len() - i,
        {
            if self.routes[i].status.route_id == route_id {
                return Some(i);
            }
            i = i + 1;
        }
        None
    }

    /// The status of a route.
    pub fn get_route(&self, route_id: RawIngressRouteId) -> (result: Result<
        RawIngressRouteStatus,
        RawIngressRouteError,
    >)
        ensures
            match result {
                Ok(status) => status.route_id == route_id && statuses(self.routes@).contains(
                    status,
                ),
                Err(error) => !has_route(self.routes@, route_id) && error
                    == RawIngressRouteError::RouteNotFound(route_id),
            },
    {
        match self.position(route_id) {
            None => Err(RawIngressRouteError::RouteNotFound(route_id)),
            Some(i) => {
                proof {
                    assert(statuses(self.routes@)[i as int] == self.routes@[i as int].status);
                }
                Ok(self.routes[i].status.clone())
            },
        }
    }

    /// The statuses of all routes, in the order of their identities.
    pub fn list_routes(&self) -> (list: Vec<RawIngressRouteStatus>)
        ensures
            list@ == statuses(self.routes@),
    {
        let mut list: Vec<RawIngressRouteStatus> = Vec::new();
        let mut i: usize = 0;
        while i < self.routes.len()
            invariant
                i <= self.routes@.len(),
                list@ =~= statuses(self.routes@.take(i as int)),
            decreases self.routes@.len() - i,
        {
            list.push(self.routes[i].status.clone());
            proof {
                assert(statuses(self.routes@.take(i + 1)) =~= statuses(
                    self.routes@.take(i as int),
                ).push(self.routes@[i as int].status));
            }
            i = i + 1;
        }
        proof {
            assert(self.routes@.take(i as int) =~= self.routes@);
        }
        list
    }

    /// Takes how a route now stands, as its listener reports whenever that changes. A
    /// route that is not registered any more is passed over.
    pub fn status_changed(&mut self, status: RawIngressRouteStatus)
        requires
            old(self).wf(),
        ensures
            final(self).wf(),
            final(self).config == old(self).config,
            final(self).shutting_down == old(self).shutting_down,
            final(self).last_route_id == old(self).last_route_id,
            final(self).routes@ == with_status(old(self).routes@, status),
    {
        match self.position(status.route_id) {
            None => {
                proof {
                    assert(with_status(self.routes@, status) =~= self.routes@);
                }
            },
            Some(at) => {
                let drain_timeout: Duration = self.routes[at].drain_timeout;
                let stop: bool = self.routes[at].stop;
                let ghost reported = status;
                self.routes.set(at, RouteControl { status, drain_timeout, stop });
                proof {
                    assert(old(self).routes@[at as int].status.route_id == reported.route_id);
                    assert(self.routes@ =~= with_status(old(self).routes@, reported));
                }
            },
        }
    }

    /// Tells a route to stop accepting, and gives the time that it has to drain.
    pub fn remove_route(&mut self, route_id: RawIngressRouteId) -> (result: Result<
        Duration,
        RawIngressRouteError,
    >)
        requires
            old(self).wf(),
        ensures
            final(self).wf(),
            final(self).config == old(self).config,
            final(self).shutting_down == old(self).shutting_down,
            final(self).last_route_id == old(self).last_route_id,
            statuses(final(self).routes@) == statuses(old(self).routes@),
            match result {
                Err(error) => !has_route(old(self).routes@, route_id) && error
                    == RawIngressRouteError::RouteNotFound(route_id) && final(self).routes@
                    == old(self).routes@,
                Ok(drain_timeout) => has_route(old(self).routes@, route_id) && forall|i: int|
                    0 <= i < final(self).routes@.len() ==> {
                        let before = old(self).routes@[i];
                        #[trigger] final(self).routes@[i] == (RouteControl {
                            stop: before.stop || before.status.route_id == route_id,
                            ..before
                        }) && (before.status.route_id == route_id ==> drain_timeout
                            == before.drain_timeout)
                    },
            },
    {
        let at: usize = match self.position(route_id) {
            None => return Err(RawIngressRouteError::RouteNotFound(route_id)),
            Some(at) => at,
        };
        let drain_timeout: Duration = self.routes[at].drain_timeout;
        let status: RawIngressRouteStatus = self.routes[at].status.clone();
        self.routes.set(at, RouteControl { status, drain_timeout, stop: true });
        proof {
            assert(statuses(self.routes@) =~= statuses(old(self).routes@));
        }
        Ok(drain_timeout)
    }

    /// Forgets a route that has ended.
    pub fn route_removed(&mut self, route_id: RawIngressRouteId)
        requires
            old(self).wf(),
        ensures
            final(self).wf(),
            final(self).config == old(self).config,
            final(self).shutting_down == old(self).shutting_down,
            final(self).last_route_id == old(self).last_route_id,
            !has_route(final(self).routes@, route_id),
            !has_route(old(self).routes@, route_id) ==> final(self).routes@ == old(self).routes@,
            has_route(old(self).routes@, route_id) ==> exists|i: int|
                0 <= i < old(self).routes@.len() && #[trigger] old(self).routes@[i].status.route_id
                    == route_id && final(self).routes@ == old(self).routes@.remove(i),
    {
        if let Some(at) = self.position(route_id) {
            let _ = self.routes.remove(at);
            proof {
                let before: Seq<RouteControl> = old(self).routes@;
                assert(before[at as int].status.route_id == route_id);
                assert forall|i: int| 0 <= i < self.routes@.len() implies (
                #[trigger] self.routes@[i]).status.route_id != route_id by {
                    if i < at {
                        assert(self.routes@[i] == before[i]);
                    } else {
                        assert(self.routes@[i] == before[i + 1]);
                    }
                }
            }
        }
    }

    /// Tells every route to stop, and refuses new ones from now on. Says how many
    /// routes there are.
    pub fn begin_shutdown(&mut self, shutdown: RuntimeShutdownConfig) -> (result: Result<
        usize,
        RawIngressRouteError,
    >)
        requires
            old(self).wf(),
        ensures
            final(self).wf(),
            final(self).config == old(self).config,
            final(self).last_route_id == old(self).last_route_id,
            statuses(final(self).routes@) == statuses(old(self).routes@),
            match result {
                Err(error) => shutdown.drain_timeout.nanos == 0 && error
                    == RawIngressRouteError::InvalidConfig(RawIngressConfigError::ZeroDrainTimeout)
                    && final(self).routes@ == old(self).routes@ && final(self).shutting_down
                    == old(self).shutting_down,
                Ok(count) => shutdown.drain_timeout.nanos != 0 && final(self).shutting_down && count
                    == old(self).routes@.len() && forall|i: int|
                    0 <= i < final(self).routes@.len() ==> #[trigger] final(self).routes@[i] == (
                    RouteControl { stop: true, ..old(self).routes@[i] }),
            },
    {
        if shutdown.validate().is_err() {
            return Err(
                RawIngressRouteError::InvalidConfig(RawIngressConfigError::ZeroDrainTimeout),
            );
        }
        self.shutting_down = true;
        let mut i: usize = 0;
        while i < self.routes.len()
            invariant
                i <= self.routes@.len(),
                self.routes@.len() == old(self).routes@.len(),
                self.wf(),
                self.config == old(self).config,
                self.last_route_id == old(self).last_route_id,
                self.shutting_down,
                forall|k: int|
                    0 <= k < i ==> #[trigger] self.routes@[k] == (RouteControl {
                        stop: true,
                        ..old(self).routes@[k]
                    }),
                forall|k: int|
                    i <= k < self.routes@.len() ==> #[trigger] self.routes@[k]
                        == old(self).routes@[k],
            decreases self.routes@.len() - i,
        {
            let drain_timeout: Duration = self.routes[i].drain_timeout;
            let status: RawIngressRouteStatus = self.routes[i].status.clone();
            self.routes.set(i, RouteControl { status, drain_timeout, stop: true });
            i = i + 1;
        }
        proof {
            assert(statuses(self.routes@) =~= statuses(old(self).routes@));
        }
        Ok(self.routes.len())
    }

    /// Ends the shutdown of `route_count` routes: those left at the deadline are
    /// dropped.
    pub fn finish_shutdown(&mut self, route_count: usize) -> (outcome: RuntimeShutdownOutcome)
        requires
            old(self).wf(),
        ensures
            final(self).wf(),
            final(self).config == old(self).config,
            final(self).last_route_id == old(self).last_route_id,
            final(self).routes@.len() == 0,
            final(self).shutting_down == old(self).shutting_down,
            outcome == (if old(self).routes@.len() == 0 {
                RuntimeShutdownOutcome::Drained { completed_tasks: route_count }
            } else {
                RuntimeShutdownOutcome::Forced {
                    completed_tasks: if route_count >= old(self).routes@.len() {
                        (route_count - old(self).routes@.len()) as usize
                    } else {
                        0
                    },
                    aborted_tasks: old(self).routes@.len() as usize,
                }
            }),
    {
        let remaining: usize = self.routes.len();
        self.routes.clear();
        if remaining == 0 {
            RuntimeShutdownOutcome::Drained { completed_tasks: route_count }
        } else {
            RuntimeShutdownOutcome::Forced {
                completed_tasks: route_count.saturating_sub(remaining),
                aborted_tasks: remaining,
            }
        }
    }
}

/// What happened while a route was waited for.
#[derive(Debug, Clone, Copy, PartialEq, Eq, Structural)]
pub enum RouteWaitEvent {
    /// The route's state is this.
    State(RawIngressRouteState),
    /// The route's task is gone, and the route is still registered or not.
    TaskGone { registered: bool },
    /// The time to drain has passed.
    TimedOut,
}

impl RawIngressRouteManager {
    /// How waiting for a route to drain goes on, once it was told to stop: until it is
    /// removed, its task is gone, or its time has passed.
    pub fn drain_route(route_id: RawIngressRouteId, event: RouteWaitEvent) -> (result: Option<
        Result<(), RawIngressRouteError>,
    >)
        ensures
            result == (match event {
                RouteWaitEvent::State(RawIngressRouteState::Removed) => Some(Ok(())),
                RouteWaitEvent::State(_) => None,
                RouteWaitEvent::TaskGone { .. } => Some(
                    Err(RawIngressRouteError::RouteTaskStopped(route_id)),
                ),
                RouteWaitEvent::TimedOut => Some(Err(RawIngressRouteError::DrainTimeout(route_id))),
            }),
    {
        match event {
            RouteWaitEvent::State(RawIngressRouteState::Removed) => Some(Ok(())),
            RouteWaitEvent::State(_) => None,
            RouteWaitEvent::TaskGone { .. } => Some(
                Err(RawIngressRouteError::RouteTaskStopped(route_id)),
            ),
            RouteWaitEvent::TimedOut => Some(Err(RawIngressRouteError::DrainTimeout(route_id))),
        }
    }

    /// How waiting for a route to be removed goes on: a route that is no longer
    /// registered has been.
    pub fn wait_until_removed(route_id: RawIngressRouteId, event: RouteWaitEvent) -> (result: Option<
        Result<(), RawIngressRouteError>,
    >)
        ensures
            result == (match event {
                RouteWaitEvent::State(RawIngressRouteState::Removed) => Some(Ok(())),
                RouteWaitEvent::TaskGone { registered } => Some(
                    if registered {
                        Err(RawIngressRouteError::RouteTaskStopped(route_id))
                    } else {
                        Ok(())
                    },
                ),
                _ => None,
            }),
    {
        match event {
            RouteWaitEvent::State(RawIngressRouteState::Removed) => Some(Ok(())),
            RouteWaitEvent::TaskGone { registered } => {
                if registered {
                    Some(Err(RawIngressRouteError::RouteTaskStopped(route_id)))
                } else {
                    Some(Ok(()))
                }
            },
            _ => None,
        }
    }
}

/// What happened on a route.
#[derive(Debug, Clone, Copy, PartialEq, Eq, Structural)]
pub enum RouteEvent {
    /// The route was told to stop, or not to.
    Stop(bool),
    /// The connected sessions changed; the one that the route leads to is among
    /// them or not.
    SessionsChanged { connected: bool },
    /// The listener failed.
    AcceptFailed,
    /// A connection came, and one of the connections that may be open at a time
    /// is free or not.
    Accepted { peer: IpAddr, permit_free: bool },
}

/// What a route does next.
#[derive(Debug, PartialEq, Eq, Structural)]
pub enum RouteStep {
    /// It goes on.
    Continue,
    /// It accepts nothing more, and drains.
    Stop,
    /// It drops the connection.
    Refuse,
    /// It routes the connection, with the permit of its source where sources are
    /// limited.
    Serve(Option<PeerAdmissionPermit>),
}

/// A route that listens: what it leads to and the connections of its sources.
#[derive(Debug)]
pub struct RouteListener {
    pub status: RawIngressRouteStatus,
    pub sources: Option<PeerAdmission>,
}

/// Whether a route leads to one session.
pub open spec fn pinned(target: RawIngressRouteTarget) -> bool {
    target is TransportSession
}

/// Whether a source may open a connection more.
pub open spec fn source_free(sources: Option<PeerAdmission>, peer: IpAddr) -> bool {
    sources matches Some(sources) ==> held(sources@, peer) < sources.max_connections_per_ip
}

/// Whether a connection is served that was accepted, and with which permit.
pub open spec fn acceptance(listener: RouteListener, peer: IpAddr, permit_free: bool) -> RouteStep {
    if !permit_free {
        RouteStep::Refuse
    } else {
        match listener.sources {
            None => RouteStep::Serve(None),
            Some(sources) => if held(sources@, peer) < sources.max_connections_per_ip {
                RouteStep::Serve(Some(PeerAdmissionPermit { peer }))
            } else {
                RouteStep::Refuse
            },
        }
    }
}

impl RouteListener {
    /// The sources are counted within their limit.
    pub open spec fn wf(self) -> bool {
        self.sources matches Some(sources) ==> sources.wf()
    }

    /// A route that starts to listen; one that leads to a session which is not
    /// connected is finished at once.
    pub fn start(
        status: RawIngressRouteStatus,
        exposure: RawIngressExposurePolicy,
        connected: bool,
    ) -> (started: (RouteListener, RouteStep))
        ensures
            started.0.wf(),
            started.0.sources is Some <==> exposure is Public,
            exposure matches RawIngressExposurePolicy::Public { max_connections_per_ip } ==> (
            started.0.sources)->0.max_connections_per_ip == max_connections_per_ip && (
            started.0.sources)->0@.dom().len() == 0,
            if pinned(status.target) && !connected {
                &&& started.1 == RouteStep::Stop
                &&& started.0.status == (RawIngressRouteStatus {
                    state: RawIngressRouteState::TargetDisconnected,
                    ..status
                })
            } else {
                started.1 == RouteStep::Continue && started.0.status == status
            },
    {
        let sources: Option<PeerAdmission> = match exposure {
            RawIngressExposurePolicy::LoopbackOnly => None,
            RawIngressExposurePolicy::Public { max_connections_per_ip } => Some(
                PeerAdmission::new(max_connections_per_ip),
            ),
        };
        let mut status = status;
        let mut step = RouteStep::Continue;
        if let RawIngressRouteTarget::TransportSession(_) = &status.target {
            if !connected {
                status.state = RawIngressRouteState::TargetDisconnected;
                step = RouteStep::Stop;
            }
        }
        (RouteListener { status, sources }, step)
    }

    /// Takes what happened, and says what the route does next.
    pub fn step(&mut self, event: RouteEvent) -> (step: RouteStep)
        requires
            old(self).wf(),
            old(self).status.active_connections < usize::MAX,
        ensures
            event matches RouteEvent::Accepted { peer, permit_free } ==> step == acceptance(
                *old(self),
                peer,
                permit_free,
            ),
            final(self).wf(),
            match event {
                RouteEvent::Stop(stop) => {
                    &&& step == (if stop { RouteStep::Stop } else { RouteStep::Continue })
                    &&& final(self).sources == old(self).sources
                    &&& final(self).status == (RawIngressRouteStatus {
                        state: if stop {
                            RawIngressRouteState::Draining
                        } else {
                            old(self).status.state
                        },
                        ..old(self).status
                    })
                },
                RouteEvent::SessionsChanged { connected } => {
                    let lost = pinned(old(self).status.target) && !connected;
                    &&& step == (if lost { RouteStep::Stop } else { RouteStep::Continue })
                    &&& final(self).sources == old(self).sources
                    &&& final(self).status == (RawIngressRouteStatus {
                        state: if lost {
                            RawIngressRouteState::TargetDisconnected
                        } else {
                            old(self).status.state
                        },
                        ..old(self).status
                    })
                },
                RouteEvent::AcceptFailed => step == RouteStep::Stop && *final(self) == *old(self),
                RouteEvent::Accepted { peer, permit_free } => if !permit_free {
                    &&& step == RouteStep::Refuse
                    &&& final(self).sources == old(self).sources
                    &&& final(self).status == (RawIngressRouteStatus {
                        global_capacity_rejections: one_more(
                            old(self).status.global_capacity_rejections,
                        ),
                        ..old(self).status
                    })
                } else if !source_free(old(self).sources, peer) {
                    &&& step == RouteStep::Refuse
                    &&& final(self).sources is Some && final(self).sources->0@
                        == old(self).sources->0@
                    &&& final(self).sources->0.max_connections_per_ip
                        == old(self).sources->0.max_connections_per_ip
                    &&& final(self).status == (RawIngressRouteStatus {
                        per_ip_capacity_rejections: one_more(
                            old(self).status.per_ip_capacity_rejections,
                        ),
                        ..old(self).status
                    })
                } else {
                    &&& match (old(self).sources, final(self).sources) {
                        (Some(before), Some(after)) => after@ == acquired(before@, peer)
                            && after.max_connections_per_ip == before.max_connections_per_ip
                            && step == RouteStep::Serve(Some(PeerAdmissionPermit { peer })),
                        (None, None) => step == RouteStep::Serve(None),
                        _ => false,
                    }
                    &&& final(self).status == (RawIngressRouteStatus {
                        active_connections: (old(self).status.active_connections + 1) as usize,
                        accepted_connections: one_more(old(self).status.accepted_connections),
                        ..old(self).status
                    })
                },
            },
    {
        match event {
            RouteEvent::Stop(stop) => {
                if stop {
                    self.status.state = RawIngressRouteState::Draining;
                    RouteStep::Stop
                } else {
                    RouteStep::Continue
                }
            },
            RouteEvent::SessionsChanged { connected } => {
                if let RawIngressRouteTarget::TransportSession(_) = &self.status.target {
                    if !connected {
                        self.status.state = RawIngressRouteState::TargetDisconnected;
                        return RouteStep::Stop;
                    }
                }
                RouteStep::Continue
            },
            RouteEvent::AcceptFailed => RouteStep::Stop,
            RouteEvent::Accepted { peer, permit_free } => {
                if !permit_free {
                    self.status.global_capacity_rejections =
                        self.status.global_capacity_rejections.saturating_add(1);
                    return RouteStep::Refuse;
                }
                let permit: Option<PeerAdmissionPermit> = match &mut self.sources {
                    None => None,
                    Some(sources) => match sources.try_acquire(peer) {
                        Some(permit) => Some(permit),
                        None => {
                            self.status.per_ip_capacity_rejections =
                                self.status.per_ip_capacity_rejections.saturating_add(1);
                            return RouteStep::Refuse;
                        },
                    },
                };
                self.status.active_connections = self.status.active_connections + 1;
                self.status.accepted_connections =
                    self.status.accepted_connections.saturating_add(1);
                RouteStep::Serve(permit)
            },
        }
    }

    /// Counts a connection that has ended, where `failure` is why no stream could
    /// be opened for it, and gives its permit back.
    pub fn connection_ended(
        &mut self,
        failure: Option<RouteError>,
        permit: Option<PeerAdmissionPermit>,
    )
        requires
            old(self).wf(),
        ensures
            final(self).wf(),
            final(self).status == (RawIngressRouteStatus {
                active_connections: if old(self).status.active_connections > 0 {
                    (old(self).status.active_connections - 1) as usize
                } else {
                    0
                },
                target_unavailable_rejections: if target_missing(failure) {
                    one_more(old(self).status.target_unavailable_rejections)
                } else {
                    old(self).status.target_unavailable_rejections
                },
                ..old(self).status
            }),
            match (old(self).sources, final(self).sources) {
                (Some(before), Some(after)) => after.max_connections_per_ip
                    == before.max_connections_per_ip && after@ == (match permit {
                    Some(permit) => crate::admission::released(before@, permit.peer),
                    None => before@,
                }),
                (None, None) => true,
                _ => false,
            },
    {
        let missing: bool = match &failure {
            Some(RouteError::SessionNotFound(_)) => true,
            Some(RouteError::TunnelNotConnected(_)) => true,
            _ => false,
        };
        if missing {
            self.status.target_unavailable_rejections =
                self.status.target_unavailable_rejections.saturating_add(1);
        }
        self.status.active_connections = self.status.active_connections.saturating_sub(1);
        if let Some(permit) = permit {
            if let Some(sources) = &mut self.sources {
                sources.release(permit);
            }
        }
    }

    /// Notes that the route's last connection has ended.
    pub fn finish(&mut self)
        ensures
            final(self).sources == old(self).sources,
            final(self).status == (RawIngressRouteStatus {
                state: RawIngressRouteState::Removed,
                ..old(self).status
            }),
    {
        self.status.state = RawIngressRouteState::Removed;
    }
}

/// Whether a stream could not be opened because what the route leads to is not
/// there.
pub open spec fn target_missing(failure: Option<RouteError>) -> bool {
    failure matches Some(error) && (error is SessionNotFound || error is TunnelNotConnected)
}

/// A valid route listens beyond loopback only with a bound for each source.
pub proof fn public_routes_bound_their_sources(config: RawIngressRouteConfig)
    requires
        route_fault(config) is None,
        !loopback_ip(config.listen_addr.ip),
    ensures
        config.exposure matches RawIngressExposurePolicy::Public { max_connections_per_ip } && 1
            <= max_connections_per_ip <= config.max_concurrent_connections,
{
}

/// The manager shows of a registered route what its listener reported last, and shows
/// every other route as before.
pub proof fn routes_are_shown_as_last_reported(
    manager: RawIngressRouteManager,
    status: RawIngressRouteStatus,
    shown: RawIngressRouteStatus,
)
    requires
        manager.wf(),
    ensures
        has_route(with_status(manager.routes@, status), status.route_id) <==> has_route(
            manager.routes@,
            status.route_id,
        ),
        shown.route_id == status.route_id && has_route(manager.routes@, status.route_id) ==> (
        statuses(with_status(manager.routes@, status)).contains(shown) <==> shown == status),
        shown.route_id != status.route_id ==> (statuses(
            with_status(manager.routes@, status),
        ).contains(shown) <==> statuses(manager.routes@).contains(shown)),
{
    let before = manager.routes@;
    let after = with_status(before, status);
    assert forall|i: int| 0 <= i < before.len() implies (#[trigger] after[i]).status == (if before[i].status.route_id
        == status.route_id {
        status
    } else {
        before[i].status
    }) by {}
    if has_route(before, status.route_id) {
        let at: int = choose|i: int|
            0 <= i < before.len() && #[trigger] before[i].status.route_id == status.route_id;
        assert(after[at].status.route_id == status.route_id);
        assert(statuses(after)[at] == status);
    }
    if has_route(after, status.route_id) {
        let at: int = choose|i: int|
            0 <= i < after.len() && #[trigger] after[i].status.route_id == status.route_id;
        assert(before[at].status.route_id == status.route_id);
    }
    if statuses(after).contains(shown) {
        let at: int = choose|i: int| 0 <= i < after.len() && statuses(after)[i] == shown;
        assert(after[at].status == shown);
        assert(statuses(before)[at] == before[at].status);
    }
    if statuses(before).contains(shown) {
        let at: int = choose|i: int| 0 <= i < before.len() && statuses(before)[i] == shown;
        assert(before[at].status == shown);
        assert(statuses(after)[at] == after[at].status);
    }
}

/// A connection to a raw route is served wherever there is room for it: within the limit
/// of the route, and of its source where sources are limited. It is refused else.
pub proof fn routes_serve_whom_they_have_room_for(
    listener: RouteListener,
    peer: IpAddr,
    permit_free: bool,
)
    ensures
        listener.sources is None && permit_free ==> acceptance(listener, peer, permit_free)
            == RouteStep::Serve(None),
        listener.sources is Some && permit_free && (listener.sources->0@.dom().contains(peer)
            ==> listener.sources->0@[peer] < listener.sources->0.max_connections_per_ip)
            && listener.sources->0.max_connections_per_ip >= 1 ==> acceptance(
            listener,
            peer,
            permit_free,
        ) == RouteStep::Serve(Some(PeerAdmissionPermit { peer })),
        !permit_free ==> acceptance(listener, peer, permit_free) == RouteStep::Refuse,
        listener.sources is Some && listener.sources->0@.dom().contains(peer)
            && listener.sources->0@[peer] >= listener.sources->0.max_connections_per_ip
            ==> acceptance(listener, peer, permit_free) == RouteStep::Refuse,
{
}

/// A connection that could not be routed counts as such just where its tunnel or its
/// session was not there.
pub proof fn missing_targets_are_counted(error: RouteError)
    ensures
        !target_missing(None),
        target_missing(Some(error)) <==> error is TunnelNotConnected || error is SessionNotFound,
{
}

/// A route passes exactly where its target can exist, its connections can be counted
/// and it has time to drain, on a loopback address or with each source bounded.
pub proof fn routes_pass_within_their_bounds(c: RawIngressRouteConfig)
    ensures
        route_fault(c) is None <==> {
            &&& c.exposure is LoopbackOnly ==> loopback_ip(c.listen_addr.ip)
            &&& c.exposure is Public ==> 1 <= c.exposure->max_connections_per_ip
                <= c.max_concurrent_connections
            &&& c.target is TransportSession ==> c.target->TransportSession_0.value != 0
            &&& 1 <= c.max_concurrent_connections <= 0xffff_ffff
            &&& c.drain_timeout.nanos > 0
        },
{
}

/// A fault of a route names what is wrong.
pub proof fn route_faults_name_what_is_wrong(c: RawIngressRouteConfig)
    requires
        route_fault(c) is Some,
    ensures
        match route_fault(c)->0 {
            RawIngressConfigError::NonLoopbackListener(address) => address == c.listen_addr
                && c.exposure is LoopbackOnly && !loopback_ip(address.ip),
            RawIngressConfigError::ZeroMaxRoutes => false,
            RawIngressConfigError::InvalidTargetSession => c.target is TransportSession
                && c.target->TransportSession_0.value == 0,
            RawIngressConfigError::ZeroMaxConnections => c.max_concurrent_connections == 0,
            RawIngressConfigError::ConnectionLimitTooLarge => c.max_concurrent_connections
                > 0xffff_ffff,
            RawIngressConfigError::ZeroMaxConnectionsPerIp => c.exposure is Public
                && c.exposure->max_connections_per_ip == 0,
            RawIngressConfigError::PerIpLimitExceedsGlobal => c.exposure is Public
                && c.exposure->max_connections_per_ip > c.max_concurrent_connections,
            RawIngressConfigError::ZeroDrainTimeout => c.drain_timeout.nanos == 0,
        },
{
}

/// A new route is active where it was bound, for its target, and has counted nothing.
pub proof fn new_routes_are_active(
    route_id: RawIngressRouteId,
    local_addr: SocketAddr,
    target: RawIngressRouteTarget,
)
    ensures
        ({
            let status = new_status(route_id, local_addr, target);
            &&& status.route_id == route_id
            &&& status.local_addr == local_addr
            &&& status.target == target
            &&& status.state is Active
            &&& status.active_connections == 0
            &&& status.accepted_connections == 0
            &&& status.global_capacity_rejections == 0
            &&& status.per_ip_capacity_rejections == 0
            &&& status.target_unavailable_rejections == 0
        }),
{
}

} // verus!
