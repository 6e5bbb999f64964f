//! Process-level composition for one durable tunnel and one Agent.

use vstd::prelude::*;
use vstd::string::*;

use crate::agent_transport::{default_agent_listener, AgentListenerConfig};
use crate::http_config::{
    http_ingress_fault, HttpIngressConfig, HttpIngressConfigError, HttpIngressExposurePolicy,
};
use crate::http_routes::{leads_to, same_source};
use crate::multiplex::{
    default_multiplex, multiplex_fault, EdgeTransportSecurity, MultiplexedEdgeConfig,
    MultiplexedEdgeConfigError,
};
use crate::names::TunnelId;
use crate::net::{loopback_ip, IpAddr, SocketAddr};
use crate::operations::{
    operations_fault, EdgeOperationsConfig, EdgeOperationsConfigError,
};
use crate::raw_ingress::{
    default_route, route_fault, RawIngressExposurePolicy, RawIngressRouteConfig,
    RawIngressRouteTarget,
};
use crate::shutdown::{default_shutdown, RuntimeShutdownConfig};

verus! {

/// What the registration policy of the Agents' transport grants.
#[derive(Debug)]
pub struct RegistrationGrants {
    /// The tunnels that it authorizes as it stands.
    pub tunnels: Vec<TunnelId>,
    /// Whether it follows a source of updates.
    pub live_updates: bool,
    /// Whether it is decided by snapshots that a service keeps sending.
    pub dynamic_snapshots: bool,
}

/// Whether some grant names a tunnel.
pub open spec fn grants(tunnels: Seq<TunnelId>, tunnel: Seq<char>) -> bool {
    exists|i: int| 0 <= i < tunnels.len() && #[trigger] tunnels[i]@ == tunnel
}

impl RegistrationGrants {
    /// Whether the policy authorizes a tunnel as it stands.
    pub fn contains_tunnel(&self, tunnel_id: &TunnelId) -> (found: bool)
        ensures
            found == grants(self.tunnels@, tunnel_id@),
    {
        let mut i: usize = 0;
        while i < self.tunnels.len()
            invariant
                i <= self.tunnels@.len(),
                forall|k: int| 0 <= k < i ==> (#[trigger] self.tunnels@[k])@ != tunnel_id@,
            decreases self.tunnels@.len() - i,
        {
            if self.tunnels[i].same(tunnel_id) {
                return true;
            }
            i = i + 1;
        }
        false
    }
}

/// The configuration of an edge process that serves one tunnel.
#[derive(Debug)]
pub struct EdgeRuntimeConfig {
    pub multiplex: MultiplexedEdgeConfig,
    pub grants: RegistrationGrants,
    pub raw_listen_addr: SocketAddr,
    pub tunnel_id: TunnelId,
    pub max_raw_connections: usize,
    pub raw_exposure: RawIngressExposurePolicy,
    /// When present, HTTPS replaces the raw listener.
    pub https_ingress: Option<HttpIngressConfig>,
    /// When present, a loopback endpoint for health, readiness and metrics.
    pub operations: Option<EdgeOperationsConfig>,
    pub shutdown: RuntimeShutdownConfig,
}

/// The raw route that an edge binds.
pub open spec fn edge_route(c: EdgeRuntimeConfig) -> RawIngressRouteConfig {
    RawIngressRouteConfig {
        max_concurrent_connections: c.max_raw_connections,
        exposure: c.raw_exposure,
        drain_timeout: c.shutdown.drain_timeout,
        ..default_route(c.raw_listen_addr, RawIngressRouteTarget::Tunnel(c.tunnel_id))
    }
}

/// The operations endpoint that an edge binds.
pub open spec fn edge_operations(c: EdgeRuntimeConfig) -> Option<EdgeOperationsConfig> {
    match c.operations {
        None => None,
        Some(operations) => Some(EdgeOperationsConfig { shutdown: c.shutdown, ..operations }),
    }
}

/// What is wrong with the HTTPS ingress of an edge.
pub open spec fn https_fault(c: EdgeRuntimeConfig, https: HttpIngressConfig) -> Option<
    EdgeRuntimeConfigError,
> {
    if http_ingress_fault(https) is Some {
        Some(EdgeRuntimeConfigError::Https(http_ingress_fault(https)->0))
    } else if !leads_to(https.routes@, c.tunnel_id@) {
        Some(EdgeRuntimeConfigError::HttpsTunnelNotConfigured(c.tunnel_id))
    } else if https.exposure is Public && !(c.multiplex.security is MutualTls) {
        Some(EdgeRuntimeConfigError::PublicHttpsRequiresMutualTls)
    } else if https.exposure is Public && !c.grants.dynamic_snapshots {
        Some(EdgeRuntimeConfigError::PublicHttpsRequiresLiveAuthorization)
    } else {
        None
    }
}

/// What is wrong with the raw ingress of an edge.
pub open spec fn raw_fault(c: EdgeRuntimeConfig) -> Option<EdgeRuntimeConfigError> {
    if c.max_raw_connections == 0 {
        Some(EdgeRuntimeConfigError::ZeroRawConnections)
    } else if c.max_raw_connections > u32::MAX {
        Some(EdgeRuntimeConfigError::RawConnectionLimitTooLarge)
    } else {
        match c.raw_exposure {
            RawIngressExposurePolicy::LoopbackOnly => if !loopback_ip(c.raw_listen_addr.ip) {
                Some(EdgeRuntimeConfigError::NonLoopbackRawListener(c.raw_listen_addr))
            } else {
                None
            },
            RawIngressExposurePolicy::Public { max_connections_per_ip } => if max_connections_per_ip
                == 0 {
                Some(EdgeRuntimeConfigError::ZeroRawConnectionsPerIp)
            } else if max_connections_per_ip > c.max_raw_connections {
                Some(EdgeRuntimeConfigError::RawConnectionsPerIpExceedGlobal)
            } else if !(c.multiplex.security is MutualTls) {
                Some(EdgeRuntimeConfigError::PublicRawRequiresMutualTls)
            } else if !c.grants.dynamic_snapshots {
                Some(EdgeRuntimeConfigError::PublicRawRequiresLiveAuthorization)
            } else {
                None
            },
        }
    }
}

/// What is wrong with the one ingress that an edge has.
pub open spec fn ingress_fault(c: EdgeRuntimeConfig) -> Option<EdgeRuntimeConfigError> {
    match c.https_ingress {
        Some(https) => https_fault(c, https),
        None => raw_fault(c),
    }
}

/// What `validate` finds wrong first.
pub open spec fn runtime_fault(c: EdgeRuntimeConfig) -> Option<EdgeRuntimeConfigError> {
    if multiplex_fault(c.multiplex) is Some {
        Some(EdgeRuntimeConfigError::Multiplex(multiplex_fault(c.multiplex)->0))
    } else if c.multiplex.agent_listener.max_agent_sessions != 1 {
        Some(EdgeRuntimeConfigError::AgentCapacityMustBeOne)
    } else if ingress_fault(c) is Some {
        ingress_fault(c)
    } else if !grants(c.grants.tunnels@, c.tunnel_id@) && !c.grants.live_updates {
        Some(EdgeRuntimeConfigError::RawTunnelNotAuthorized(c.tunnel_id))
    } else if c.operations is Some && operations_fault(c.operations->0) is Some {
        Some(EdgeRuntimeConfigError::Operations(operations_fault(c.operations->0)->0))
    } else if c.shutdown.drain_timeout.nanos == 0 {
        Some(EdgeRuntimeConfigError::ZeroDrainTimeout)
    } else {
        None
    }
}

impl EdgeRuntimeConfig {
    /// The development configuration: one Agent, and a raw listener on loopback.
    pub fn dev_defaults() -> (config: EdgeRuntimeConfig)
        ensures
            config.multiplex == (MultiplexedEdgeConfig {
                agent_listener: AgentListenerConfig {
                    max_agent_sessions: 1,
                    ..default_agent_listener()
                },
                ..default_multiplex()
            }),
            config.raw_listen_addr == (SocketAddr { ip: IpAddr::V4(0x7f00_0001), port: 7000 }),
            config.tunnel_id@ == "tunnel-dev"@,
            config.grants.tunnels@.len() == 1,
            config.grants.tunnels@[0]@ == "tunnel-dev"@,
            !config.grants.live_updates,
            !config.grants.dynamic_snapshots,
            config.max_raw_connections == 32,
            config.raw_exposure is LoopbackOnly,
            config.https_ingress is None,
            config.operations is None,
            config.shutdown == default_shutdown(),
            runtime_fault(config) is None,
    {
        let mut multiplex: MultiplexedEdgeConfig = MultiplexedEdgeConfig::dev_defaults();
        multiplex.agent_listener.max_agent_sessions = 1;
        let mut tunnels: Vec<TunnelId> = Vec::new();
        tunnels.push(TunnelId::from_checked("tunnel-dev".to_owned()));
        assert(tunnels@[0]@ == "tunnel-dev"@);
        EdgeRuntimeConfig {
            multiplex,
            grants: RegistrationGrants { tunnels, live_updates: false, dynamic_snapshots: false },
            raw_listen_addr: SocketAddr { ip: IpAddr::V4(0x7f00_0001), port: 7000 },
            tunnel_id: TunnelId::from_checked("tunnel-dev".to_owned()),
            max_raw_connections: 32,
            raw_exposure: RawIngressExposurePolicy::LoopbackOnly,
            https_ingress: None,
            operations: None,
            shutdown: RuntimeShutdownConfig::default(),
        }
    }

    fn validate_https(&self, https: &HttpIngressConfig) -> (result: Result<
        (),
        EdgeRuntimeConfigError,
    >)
        ensures
            result == (match https_fault(*self, *https) {
                Some(fault) => Err(fault),
                None => Ok(()),
            }),
    {
        match https.validate() {
            Ok(()) => {},
            Err(error) => return Err(EdgeRuntimeConfigError::Https(error)),
        }
        if !https.routes.contains_tunnel(&self.tunnel_id) {
            return Err(EdgeRuntimeConfigError::HttpsTunnelNotConfigured(self.tunnel_id.clone()));
        }
        match https.exposure {
            HttpIngressExposurePolicy::LoopbackOnly => {},
            HttpIngressExposurePolicy::Public { .. } => {
                if self.multiplex.security != EdgeTransportSecurity::MutualTls {
                    return Err(EdgeRuntimeConfigError::PublicHttpsRequiresMutualTls);
                }
                if !self.grants.dynamic_snapshots {
                    return Err(EdgeRuntimeConfigError::PublicHttpsRequiresLiveAuthorization);
                }
            },
        }
        Ok(())
    }

    fn validate_raw(&self) -> (result: Result<(), EdgeRuntimeConfigError>)
        ensures
            result == (match raw_fault(*self) {
                Some(fault) => Err(fault),
                None => Ok(()),
            }),
    {
        if self.max_raw_connections == 0 {
            return Err(EdgeRuntimeConfigError::ZeroRawConnections);
        }
        if self.max_raw_connections > u32::MAX as usize {
            return Err(EdgeRuntimeConfigError::RawConnectionLimitTooLarge);
        }
        match self.raw_exposure {
            RawIngressExposurePolicy::LoopbackOnly => {
                if !self.raw_listen_addr.ip().is_loopback() {
                    return Err(
                        EdgeRuntimeConfigError::NonLoopbackRawListener(self.raw_listen_addr),
                    );
                }
            },
            RawIngressExposurePolicy::Public { max_connections_per_ip } => {
                if max_connections_per_ip == 0 {
                    return Err(EdgeRuntimeConfigError::ZeroRawConnectionsPerIp);
                }
                if max_connections_per_ip > self.max_raw_connections {
                    return Err(EdgeRuntimeConfigError::RawConnectionsPerIpExceedGlobal);
                }
                if self.multiplex.security != EdgeTransportSecurity::MutualTls {
                    return Err(EdgeRuntimeConfigError::PublicRawRequiresMutualTls);
                }
                if !self.grants.dynamic_snapshots {
                    return Err(EdgeRuntimeConfigError::PublicRawRequiresLiveAuthorization);
                }
            },
        }
        Ok(())
    }

    /// Checks every bound; the first one broken is reported.
    pub fn validate(&self) -> (result: Result<(), EdgeRuntimeConfigError>)
        ensures
            result == (match runtime_fault(*self) {
                Some(fault) => Err(fault),
                None => Ok(()),
            }),
    {
        match self.multiplex.validate() {
            Ok(()) => {},
            Err(error) => return Err(EdgeRuntimeConfigError::Multiplex(error)),
        }
        if self.multiplex.agent_listener.max_agent_sessions != 1 {
            return Err(EdgeRuntimeConfigError::AgentCapacityMustBeOne);
        }
        let ingress: Result<(), EdgeRuntimeConfigError> = match &self.https_ingress {
            Some(https) => self.validate_https(https),
            None => self.validate_raw(),
        };
        match ingress {
            Ok(()) => {},
            Err(error) => return Err(error),
        }
        if !self.grants.contains_tunnel(&self.tunnel_id) && !self.grants.live_updates {
            return Err(EdgeRuntimeConfigError::RawTunnelNotAuthorized(self.tunnel_id.clone()));
        }
        match self.operations {
            None => {},
            Some(operations) => match operations.validate() {
                Ok(()) => {},
                Err(error) => return Err(EdgeRuntimeConfigError::Operations(error)),
            },
        }
        match self.shutdown.validate() {
            Ok(()) => Ok(()),
            Err(_) => Err(EdgeRuntimeConfigError::ZeroDrainTimeout),
        }
    }

    /// The raw route that the edge binds.
    pub fn raw_route(&self) -> (route: RawIngressRouteConfig)
        ensures
            route == edge_route(*self),
            route == (RawIngressRouteConfig {
                max_concurrent_connections: self.max_raw_connections,
                exposure: self.raw_exposure,
                drain_timeout: self.shutdown.drain_timeout,
                ..default_route(
                    self.raw_listen_addr,
                    RawIngressRouteTarget::Tunnel(self.tunnel_id),
                )
            }),
    {
        let mut route: RawIngressRouteConfig = RawIngressRouteConfig::for_tunnel(
            self.raw_listen_addr,
            self.tunnel_id.clone(),
        );
        route.max_concurrent_connections = self.max_raw_connections;
        route.exposure = self.raw_exposure;
        route.drain_timeout = self.shutdown.drain_timeout;
        route
    }

    /// The operations endpoint that the edge binds, which drains as long as the
    /// edge does.
    pub fn operations_endpoint(&self) -> (endpoint: Option<EdgeOperationsConfig>)
        ensures
            endpoint == edge_operations(*self),
            endpoint == (match self.operations {
                None => None,
                Some(operations) => Some(
                    EdgeOperationsConfig { shutdown: self.shutdown, ..operations },
                ),
            }),
    {
        match self.operations {
            None => None,
            Some(operations) => {
                let mut endpoint: EdgeOperationsConfig = operations;
                endpoint.shutdown = self.shutdown;
                Some(endpoint)
            },
        }
    }

    /// The HTTPS ingress that the edge binds in place of the raw route, if it does,
    /// which drains as long as the edge does.
    pub fn https_endpoint(&self) -> (endpoint: Option<HttpIngressConfig>)
        ensures
            match (self.https_ingress, endpoint) {
                (None, None) => true,
                (Some(https), Some(endpoint)) => {
                    &&& endpoint == (HttpIngressConfig {
                        routes: endpoint.routes,
                        shutdown: self.shutdown,
                        ..https
                    })
                    &&& same_source(endpoint.routes.source, https.routes.source)
                    &&& endpoint.routes@ == https.routes@
                },
                _ => false,
            },
    {
        match &self.https_ingress {
            None => None,
            Some(https) => {
                let mut endpoint: HttpIngressConfig = https.clone();
                endpoint.shutdown = self.shutdown;
                Some(endpoint)
            },
        }
    }
}

/// A valid edge serves its tunnel only: one that its policy authorizes or may yet
/// authorize, and to which its hostnames lead.
pub proof fn valid_edge_serves_its_tunnel(c: EdgeRuntimeConfig)
    requires
        runtime_fault(c) is None,
    ensures
        grants(c.grants.tunnels@, c.tunnel_id@) || c.grants.live_updates,
        c.https_ingress matches Some(https) ==> leads_to(https.routes@, c.tunnel_id@),
        c.multiplex.agent_listener.max_agent_sessions == 1,
{
}

/// Nothing but loopback reaches a valid edge unless its Agents prove who they are
/// and their authorization is kept up to date.
pub proof fn public_edges_are_authenticated(c: EdgeRuntimeConfig)
    requires
        runtime_fault(c) is None,
        match c.https_ingress {
            Some(https) => !loopback_ip(https.listen_addr.ip),
            None => !loopback_ip(c.raw_listen_addr.ip),
        },
    ensures
        c.multiplex.security is MutualTls,
        c.multiplex.registration is MutualTls,
        c.grants.dynamic_snapshots,
{
}

/// The raw route of a valid edge is itself valid.
pub proof fn valid_edge_has_valid_route(c: EdgeRuntimeConfig)
    requires
        runtime_fault(c) is None,
        c.https_ingress is None,
    ensures
        route_fault(
            RawIngressRouteConfig {
                max_concurrent_connections: c.max_raw_connections,
                exposure: c.raw_exposure,
                drain_timeout: c.shutdown.drain_timeout,
                ..default_route(c.raw_listen_addr, RawIngressRouteTarget::Tunnel(c.tunnel_id))
            },
        ) is None,
{
}

/// A bound that does not hold.
#[derive(Debug)]
pub enum EdgeRuntimeConfigError {
    Multiplex(MultiplexedEdgeConfigError),
    AgentCapacityMustBeOne,
    NonLoopbackRawListener(SocketAddr),
    ZeroRawConnections,
    RawConnectionLimitTooLarge,
    ZeroRawConnectionsPerIp,
    RawConnectionsPerIpExceedGlobal,
    PublicRawRequiresMutualTls,
    PublicRawRequiresLiveAuthorization,
    Https(HttpIngressConfigError),
    HttpsTunnelNotConfigured(TunnelId),
    PublicHttpsRequiresMutualTls,
    PublicHttpsRequiresLiveAuthorization,
    Operations(EdgeOperationsConfigError),
    RawTunnelNotAuthorized(TunnelId),
    ZeroDrainTimeout,
}

impl EdgeRuntimeConfigError {
    /// The text shown to an operator, where `listener` is how the address of the
    /// listener at fault is written.
    pub open spec fn text(self, listener: Seq<char>) -> Seq<char> {
        match self {
            EdgeRuntimeConfigError::Multiplex(error) => "invalid multiplex config: "@
                + error.text(listener),
            EdgeRuntimeConfigError::AgentCapacityMustBeOne =>
                "single-tunnel Edge requires max_agent_sessions = 1"@,
            EdgeRuntimeConfigError::NonLoopbackRawListener(_) =>
                "raw listener must use a loopback address, got "@ + listener,
            EdgeRuntimeConfigError::ZeroRawConnections =>
                "max_raw_connections must be greater than zero"@,
            EdgeRuntimeConfigError::RawConnectionLimitTooLarge =>
                "max_raw_connections must fit in u32"@,
            EdgeRuntimeConfigError::ZeroRawConnectionsPerIp =>
                "max_raw_connections_per_ip must be greater than zero"@,
            EdgeRuntimeConfigError::RawConnectionsPerIpExceedGlobal =>
                "max_raw_connections_per_ip cannot exceed max_raw_connections"@,
            EdgeRuntimeConfigError::PublicRawRequiresMutualTls =>
                "public raw ingress requires mutual TLS for Agent transport"@,
            EdgeRuntimeConfigError::PublicRawRequiresLiveAuthorization =>
                "public raw ingress requires dynamic snapshot authorization"@,
            EdgeRuntimeConfigError::Https(error) => "invalid HTTPS ingress: "@ + error.text(
                listener,
            ),
            EdgeRuntimeConfigError::HttpsTunnelNotConfigured(tunnel) =>
                "HTTPS routes do not contain the configured TunnelId "@ + tunnel@,
            EdgeRuntimeConfigError::PublicHttpsRequiresMutualTls =>
                "public HTTPS ingress requires mutual TLS for Agent transport"@,
            EdgeRuntimeConfigError::PublicHttpsRequiresLiveAuthorization =>
                "public HTTPS ingress requires dynamic snapshot authorization"@,
            EdgeRuntimeConfigError::Operations(error) => "invalid operations endpoint: "@
                + error.text(),
            EdgeRuntimeConfigError::RawTunnelNotAuthorized(tunnel) => "raw TunnelId "@ + tunnel@
                + " is absent from the registration policy"@,
            EdgeRuntimeConfigError::ZeroDrainTimeout =>
                "drain_timeout must be greater than zero"@,
        }
    }

    /// The text shown to an operator, where `listener` is how the address of the
    /// listener at fault is written.
    pub fn message(&self, listener: &str) -> (message: String)
        ensures
            message@ == self.text(listener@),
    {
        let fixed: &str = match self {
            EdgeRuntimeConfigError::Multiplex(error) => {
                let detail: String = error.message(listener);
                return "invalid multiplex config: ".to_owned().concat(detail.as_str());
            },
            EdgeRuntimeConfigError::AgentCapacityMustBeOne =>
                "single-tunnel Edge requires max_agent_sessions = 1",
            EdgeRuntimeConfigError::NonLoopbackRawListener(_) => {
                return "raw listener must use a loopback address, got ".to_owned().concat(
                    listener,
                );
            },
            EdgeRuntimeConfigError::ZeroRawConnections =>
                "max_raw_connections must be greater than zero",
            EdgeRuntimeConfigError::RawConnectionLimitTooLarge =>
                "max_raw_connections must fit in u32",
            EdgeRuntimeConfigError::ZeroRawConnectionsPerIp =>
                "max_raw_connections_per_ip must be greater than zero",
            EdgeRuntimeConfigError::RawConnectionsPerIpExceedGlobal =>
                "max_raw_connections_per_ip cannot exceed max_raw_connections",
            EdgeRuntimeConfigError::PublicRawRequiresMutualTls =>
                "public raw ingress requires mutual TLS for Agent transport",
            EdgeRuntimeConfigError::PublicRawRequiresLiveAuthorization =>
                "public raw ingress requires dynamic snapshot authorization",
            EdgeRuntimeConfigError::Https(error) => {
                let detail: String = error.message(listener);
                return "invalid HTTPS ingress: ".to_owned().concat(detail.as_str());
            },
            EdgeRuntimeConfigError::HttpsTunnelNotConfigured(tunnel) => {
                return "HTTPS routes do not contain the configured TunnelId ".to_owned().concat(
                    tunnel.as_str(),
                );
            },
            EdgeRuntimeConfigError::PublicHttpsRequiresMutualTls =>
                "public HTTPS ingress requires mutual TLS for Agent transport",
            EdgeRuntimeConfigError::PublicHttpsRequiresLiveAuthorization =>
                "public HTTPS ingress requires dynamic snapshot authorization",
            EdgeRuntimeConfigError::Operations(error) => {
                return "invalid operations endpoint: ".to_owned().concat(error.message());
            },
            EdgeRuntimeConfigError::RawTunnelNotAuthorized(tunnel) => {
                return "raw TunnelId ".to_owned().concat(tunnel.as_str()).concat(
                    " is absent from the registration policy",
                );
            },
            EdgeRuntimeConfigError::ZeroDrainTimeout =>
                "drain_timeout must be greater than zero",
        };
        fixed.to_owned()
    }
}

/// An edge passes where its transport and its endpoint do, it serves one Agent, its
/// tunnel is authorized or may yet be, and its ingress is within its bounds; open to
/// the public only over mutual TLS and with authorization that is kept up to date.
pub proof fn edges_pass_within_their_bounds(c: EdgeRuntimeConfig)
    ensures
        runtime_fault(c) is None <==> {
            &&& multiplex_fault(c.multiplex) is None
            &&& c.multiplex.agent_listener.max_agent_sessions == 1
            &&& c.https_ingress matches Some(https) ==> {
                &&& http_ingress_fault(https) is None
                &&& leads_to(https.routes@, c.tunnel_id@)
                &&& https.exposure is Public ==> c.multiplex.security is MutualTls
                    && c.grants.dynamic_snapshots
            }
            &&& c.https_ingress is None ==> {
                &&& 1 <= c.max_raw_connections <= 0xffff_ffff
                &&& c.raw_exposure is LoopbackOnly ==> loopback_ip(c.raw_listen_addr.ip)
                &&& c.raw_exposure is Public ==> {
                    &&& 1 <= c.raw_exposure->max_connections_per_ip <= c.max_raw_connections
                    &&& c.multiplex.security is MutualTls
                    &&& c.grants.dynamic_snapshots
                }
            }
            &&& grants(c.grants.tunnels@, c.tunnel_id@) || c.grants.live_updates
            &&& c.operations matches Some(operations) ==> operations_fault(operations) is None
            &&& c.shutdown.drain_timeout.nanos > 0
        },
{
}

/// A fault of an edge names what is wrong.
pub proof fn edge_faults_name_what_is_wrong(c: EdgeRuntimeConfig)
    requires
        runtime_fault(c) is Some,
    ensures
        match runtime_fault(c)->0 {
            EdgeRuntimeConfigError::Multiplex(fault) => multiplex_fault(c.multiplex) == Some(fault),
            EdgeRuntimeConfigError::AgentCapacityMustBeOne =>
                c.multiplex.agent_listener.max_agent_sessions != 1,
            EdgeRuntimeConfigError::NonLoopbackRawListener(address) => address == c.raw_listen_addr
                && c.https_ingress is None && !loopback_ip(address.ip),
            EdgeRuntimeConfigError::ZeroRawConnections => c.max_raw_connections == 0,
            EdgeRuntimeConfigError::RawConnectionLimitTooLarge => c.max_raw_connections
                > 0xffff_ffff,
            EdgeRuntimeConfigError::ZeroRawConnectionsPerIp =>
                c.raw_exposure->max_connections_per_ip == 0,
            EdgeRuntimeConfigError::RawConnectionsPerIpExceedGlobal =>
                c.raw_exposure->max_connections_per_ip > c.max_raw_connections,
            EdgeRuntimeConfigError::PublicRawRequiresMutualTls => c.https_ingress is None
                && c.multiplex.security is PlaintextLoopback,
            EdgeRuntimeConfigError::PublicRawRequiresLiveAuthorization => c.https_ingress is None
                && !c.grants.dynamic_snapshots,
            EdgeRuntimeConfigError::Https(fault) => c.https_ingress is Some && http_ingress_fault(
                c.https_ingress->0,
            ) == Some(fault),
            EdgeRuntimeConfigError::HttpsTunnelNotConfigured(tunnel) => tunnel == c.tunnel_id
                && c.https_ingress is Some && !leads_to(c.https_ingress->0.routes@, tunnel@),
            EdgeRuntimeConfigError::PublicHttpsRequiresMutualTls => c.https_ingress is Some
                && c.multiplex.security is PlaintextLoopback,
            EdgeRuntimeConfigError::PublicHttpsRequiresLiveAuthorization => c.https_ingress is Some
                && !c.grants.dynamic_snapshots,
            EdgeRuntimeConfigError::Operations(fault) => c.operations is Some && operations_fault(
                c.operations->0,
            ) == Some(fault),
            EdgeRuntimeConfigError::RawTunnelNotAuthorized(tunnel) => tunnel == c.tunnel_id
                && !grants(c.grants.tunnels@, tunnel@) && !c.grants.live_updates,
            EdgeRuntimeConfigError::ZeroDrainTimeout => c.shutdown.drain_timeout.nanos == 0,
        },
{
}

/// What an edge binds is what it is configured to: the raw route leads from its listener to
/// its tunnel, with its bounds, and its endpoints keep theirs and drain as long as it does.
pub proof fn edges_bind_what_they_are_configured_to(c: EdgeRuntimeConfig)
    ensures
        ({
            let route = edge_route(c);
            &&& route.listen_addr == c.raw_listen_addr
            &&& route.target is Tunnel && route.target->Tunnel_0 == c.tunnel_id
            &&& route.max_concurrent_connections == c.max_raw_connections
            &&& route.exposure == c.raw_exposure
            &&& route.drain_timeout == c.shutdown.drain_timeout
        }),
        match (c.operations, edge_operations(c)) {
            (None, None) => true,
            (Some(asked), Some(bound)) => {
                &&& bound.listen_addr == asked.listen_addr
                &&& bound.max_concurrent_connections == asked.max_concurrent_connections
                &&& bound.max_header_bytes == asked.max_header_bytes
                &&& bound.max_headers == asked.max_headers
                &&& bound.header_read_timeout == asked.header_read_timeout
                &&& bound.request_timeout == asked.request_timeout
                &&& bound.shutdown.drain_timeout == c.shutdown.drain_timeout
            },
            _ => false,
        },
{
}

} // verus!
