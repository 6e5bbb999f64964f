//! Supervision of an edge whose authorization, and perhaps whose routes, come from
//! the snapshot service.

use vstd::prelude::*;
use vstd::string::*;

use crate::http_config::HttpIngressConfig;
use crate::http_routes::{HttpHostRoutes, HttpHostRouteSource, HttpsRouteCatalog};
use crate::multiplex::{EdgeRegistrationPolicy, MultiplexedEdgeConfig, SnapshotSourceHealth};
use crate::net::SocketAddr;
use crate::router::EdgeSessionRouter;
use crate::runtime::{EdgeRuntimeConfig, RegistrationGrants};
use crate::supervision::{
    edge_bound, some_stage_forced, EdgeRuntime, EdgeRuntimeError, EdgeRuntimeOutcome,
};

verus! {

/// How an edge ended that follows the snapshot service.
#[derive(Debug, Clone, Copy, PartialEq, Eq, Structural)]
pub struct SnapshotAwareEdgeRuntimeOutcome {
    pub edge: EdgeRuntimeOutcome,
}

impl SnapshotAwareEdgeRuntimeOutcome {
    /// Whether a stage had to be aborted.
    pub fn was_forced(self) -> (forced: bool)
        ensures
            forced == some_stage_forced(self.edge),
    {
        self.edge.was_forced()
    }
}

/// Why such an edge could not start or keep running; failures of the service's
/// clients by their text.
#[derive(Debug)]
pub enum SnapshotAwareEdgeRuntimeError {
    Bootstrap(String),
    Edge(EdgeRuntimeError),
    Snapshot(String),
    HttpsRouteBootstrap(String),
    HttpsRoute(String),
    MissingHttpsIngress,
    EdgeTask,
    SnapshotTask,
    SnapshotStopped,
    HttpsRouteTask,
    HttpsRouteStopped,
}

impl SnapshotAwareEdgeRuntimeError {
    /// The text of the error, where `edge` is the text of the edge's own.
    pub open spec fn text(self, edge: Seq<char>) -> Seq<char> {
        match self {
            SnapshotAwareEdgeRuntimeError::Bootstrap(error) => "Edge snapshot bootstrap failed: "@
                + error@,
            SnapshotAwareEdgeRuntimeError::Edge(_) => edge,
            SnapshotAwareEdgeRuntimeError::Snapshot(error) => "Edge snapshot runtime failed: "@
                + error@,
            SnapshotAwareEdgeRuntimeError::HttpsRouteBootstrap(error) =>
                "Edge HTTPS route bootstrap failed: "@ + error@,
            SnapshotAwareEdgeRuntimeError::HttpsRoute(error) =>
                "Edge HTTPS route runtime failed: "@ + error@,
            SnapshotAwareEdgeRuntimeError::MissingHttpsIngress =>
                "dynamic HTTPS routes require HTTPS ingress configuration"@,
            SnapshotAwareEdgeRuntimeError::EdgeTask => "Edge runtime task stopped unexpectedly"@,
            SnapshotAwareEdgeRuntimeError::SnapshotTask =>
                "Edge snapshot task stopped unexpectedly"@,
            SnapshotAwareEdgeRuntimeError::SnapshotStopped =>
                "Edge snapshot runtime stopped unexpectedly"@,
            SnapshotAwareEdgeRuntimeError::HttpsRouteTask =>
                "Edge HTTPS route task stopped unexpectedly"@,
            SnapshotAwareEdgeRuntimeError::HttpsRouteStopped =>
                "Edge HTTPS route runtime stopped unexpectedly"@,
        }
    }

    /// The text of the error, where `edge` is the text of the edge's own.
    pub fn message(&self, edge: &str) -> (message: String)
        ensures
            message@ == self.text(edge@),
    {
        let fixed: &str = match self {
            SnapshotAwareEdgeRuntimeError::Bootstrap(error) => {
                return "Edge snapshot bootstrap failed: ".to_owned().concat(error.as_str());
            },
            SnapshotAwareEdgeRuntimeError::Edge(_) => edge,
            SnapshotAwareEdgeRuntimeError::Snapshot(error) => {
                return "Edge snapshot runtime failed: ".to_owned().concat(error.as_str());
            },
            SnapshotAwareEdgeRuntimeError::HttpsRouteBootstrap(error) => {
                return "Edge HTTPS route bootstrap failed: ".to_owned().concat(error.as_str());
            },
            SnapshotAwareEdgeRuntimeError::HttpsRoute(error) => {
                return "Edge HTTPS route runtime failed: ".to_owned().concat(error.as_str());
            },
            SnapshotAwareEdgeRuntimeError::MissingHttpsIngress =>
                "dynamic HTTPS routes require HTTPS ingress configuration",
            SnapshotAwareEdgeRuntimeError::EdgeTask => "Edge runtime task stopped unexpectedly",
            SnapshotAwareEdgeRuntimeError::SnapshotTask =>
                "Edge snapshot task stopped unexpectedly",
            SnapshotAwareEdgeRuntimeError::SnapshotStopped =>
                "Edge snapshot runtime stopped unexpectedly",
            SnapshotAwareEdgeRuntimeError::HttpsRouteTask =>
                "Edge HTTPS route task stopped unexpectedly",
            SnapshotAwareEdgeRuntimeError::HttpsRouteStopped =>
                "Edge HTTPS route runtime stopped unexpectedly",
        };
        fixed.to_owned()
    }
}

/// The configuration with which an edge starts from a first snapshot.
pub open spec fn bootstrapped(
    config: EdgeRuntimeConfig,
    granted: RegistrationGrants,
) -> EdgeRuntimeConfig {
    EdgeRuntimeConfig {
        multiplex: MultiplexedEdgeConfig {
            registration: EdgeRegistrationPolicy::MutualTls,
            ..config.multiplex
        },
        grants: granted,
        ..config
    }
}

/// Prepares an edge for what the service's first snapshot grants.
pub fn prepare(config: EdgeRuntimeConfig, snapshot: Result<RegistrationGrants, String>) -> (result:
    Result<EdgeRuntimeConfig, SnapshotAwareEdgeRuntimeError>)
    ensures
        result == (match snapshot {
            Err(error) => Err(SnapshotAwareEdgeRuntimeError::Bootstrap(error)),
            Ok(granted) => Ok(bootstrapped(config, granted)),
        }),
{
    match snapshot {
        Err(error) => Err(SnapshotAwareEdgeRuntimeError::Bootstrap(error)),
        Ok(granted) => {
            let mut edge: EdgeRuntimeConfig = config;
            edge.multiplex.registration = EdgeRegistrationPolicy::MutualTls;
            edge.grants = granted;
            Ok(edge)
        },
    }
}

/// Prepares an edge for what the service's first snapshot grants, and for the
/// service's first catalog of routes, which only an HTTPS ingress can use.
pub fn prepare_with_https_routes(
    config: EdgeRuntimeConfig,
    snapshot: Result<RegistrationGrants, String>,
    catalog: Result<HttpsRouteCatalog, String>,
) -> (result: Result<EdgeRuntimeConfig, SnapshotAwareEdgeRuntimeError>)
    ensures
        result == (match (snapshot, catalog, config.https_ingress) {
            (Err(error), _, _) => Err(SnapshotAwareEdgeRuntimeError::Bootstrap(error)),
            (_, Err(error), _) => Err(SnapshotAwareEdgeRuntimeError::HttpsRouteBootstrap(error)),
            (_, _, None) => Err(SnapshotAwareEdgeRuntimeError::MissingHttpsIngress),
            (Ok(granted), Ok(catalog), Some(https)) => Ok(
                EdgeRuntimeConfig {
                    https_ingress: Some(
                        HttpIngressConfig {
                            routes: HttpHostRoutes {
                                source: HttpHostRouteSource::Dynamic(catalog),
                            },
                            ..https
                        },
                    ),
                    ..bootstrapped(config, granted)
                },
            ),
        }),
{
    let granted: RegistrationGrants = match snapshot {
        Err(error) => return Err(SnapshotAwareEdgeRuntimeError::Bootstrap(error)),
        Ok(granted) => granted,
    };
    let catalog: HttpsRouteCatalog = match catalog {
        Err(error) => return Err(SnapshotAwareEdgeRuntimeError::HttpsRouteBootstrap(error)),
        Ok(catalog) => catalog,
    };
    let mut edge: EdgeRuntimeConfig = config;
    match edge.https_ingress {
        None => Err(SnapshotAwareEdgeRuntimeError::MissingHttpsIngress),
        Some(https) => {
            let mut https: HttpIngressConfig = https;
            https.routes = HttpHostRoutes::dynamic(catalog);
            edge.https_ingress = Some(https);
            edge.multiplex.registration = EdgeRegistrationPolicy::MutualTls;
            edge.grants = granted;
            Ok(edge)
        },
    }
}

/// Where the first snapshot came from.
#[derive(Debug, Clone, Copy, PartialEq, Eq, Structural)]
pub enum SnapshotBootstrapSource {
    Online,
    DiskCache,
}

impl SnapshotBootstrapSource {
    /// How the authorization is named in the log.
    pub fn as_str(self) -> (name: &'static str)
        ensures
            name@ == (match self {
                SnapshotBootstrapSource::Online => "snapshot-live"@,
                SnapshotBootstrapSource::DiskCache => "snapshot-stale-cache"@,
            }),
    {
        match self {
            SnapshotBootstrapSource::Online => "snapshot-live",
            SnapshotBootstrapSource::DiskCache => "snapshot-stale-cache",
        }
    }
}

/// A bound edge that follows the snapshot service.
#[derive(Debug)]
pub struct SnapshotAwareEdgeRuntime {
    pub edge: EdgeRuntime,
    pub bootstrap_source: SnapshotBootstrapSource,
}

impl SnapshotAwareEdgeRuntime {
    /// Takes the listener for Agents that was bound for a prepared configuration, or
    /// the reason why none was, with the version, the health and the origin of the
    /// first snapshot.
    pub fn bind(
        config: EdgeRuntimeConfig,
        bound: Result<SocketAddr, std::io::Error>,
        version: u64,
        health: SnapshotSourceHealth,
        bootstrap_source: SnapshotBootstrapSource,
    ) -> (result: Result<SnapshotAwareEdgeRuntime, SnapshotAwareEdgeRuntimeError>)
        ensures
            match result {
                Ok(runtime) => runtime.bootstrap_source == bootstrap_source && edge_bound(
                    config,
                    bound,
                    Some(version),
                    Some(health),
                    Ok(runtime.edge),
                ),
                Err(SnapshotAwareEdgeRuntimeError::Edge(error)) => edge_bound(
                    config,
                    bound,
                    Some(version),
                    Some(health),
                    Err(error),
                ),
                Err(_) => false,
            },
    {
        match EdgeRuntime::bind(config, bound, Some(version), Some(health)) {
            Ok(edge) => Ok(SnapshotAwareEdgeRuntime { edge, bootstrap_source }),
            Err(error) => Err(SnapshotAwareEdgeRuntimeError::Edge(error)),
        }
    }

    /// Where Agents connect.
    pub fn agent_addr(&self) -> (address: SocketAddr)
        ensures
            address == self.edge.transport.local_addr,
    {
        self.edge.agent_addr()
    }

    /// The registry of sessions and tunnels.
    pub fn router(&self) -> (router: &EdgeSessionRouter)
        ensures
            *router == self.edge.transport.router,
    {
        self.edge.router()
    }

    /// Where the first snapshot came from.
    pub fn bootstrap_source(&self) -> (source: SnapshotBootstrapSource)
        ensures
            source == self.bootstrap_source,
    {
        self.bootstrap_source
    }
}

/// How the edge's task ended: with what it returned, or without finishing.
pub type EdgeTaskResult = Result<Result<EdgeRuntimeOutcome, EdgeRuntimeError>, ()>;

/// How the task of one of the service's clients ended.
pub type ClientTaskResult = Result<Result<(), String>, ()>;

/// What the edge's task left.
pub open spec fn edge_outcome(result: EdgeTaskResult) -> Result<
    EdgeRuntimeOutcome,
    SnapshotAwareEdgeRuntimeError,
> {
    match result {
        Ok(Ok(outcome)) => Ok(outcome),
        Ok(Err(error)) => Err(SnapshotAwareEdgeRuntimeError::Edge(error)),
        Err(_) => Err(SnapshotAwareEdgeRuntimeError::EdgeTask),
    }
}

/// What the snapshot client's task left.
pub open spec fn snapshot_outcome(result: ClientTaskResult) -> Result<
    (),
    SnapshotAwareEdgeRuntimeError,
> {
    match result {
        Ok(Ok(_)) => Ok(()),
        Ok(Err(error)) => Err(SnapshotAwareEdgeRuntimeError::Snapshot(error)),
        Err(_) => Err(SnapshotAwareEdgeRuntimeError::SnapshotTask),
    }
}

/// What the route client's task left, where there was one.
pub open spec fn routes_outcome(result: Option<ClientTaskResult>) -> Result<
    (),
    SnapshotAwareEdgeRuntimeError,
> {
    match result {
        None => Ok(()),
        Some(Ok(Ok(_))) => Ok(()),
        Some(Ok(Err(error))) => Err(SnapshotAwareEdgeRuntimeError::HttpsRoute(error)),
        Some(Err(_)) => Err(SnapshotAwareEdgeRuntimeError::HttpsRouteTask),
    }
}

/// What the edge's task left.
pub fn await_edge(result: EdgeTaskResult) -> (outcome: Result<
    EdgeRuntimeOutcome,
    SnapshotAwareEdgeRuntimeError,
>)
    ensures
        outcome == edge_outcome(result),
{
    match result {
        Ok(Ok(outcome)) => Ok(outcome),
        Ok(Err(error)) => Err(SnapshotAwareEdgeRuntimeError::Edge(error)),
        Err(_) => Err(SnapshotAwareEdgeRuntimeError::EdgeTask),
    }
}

/// What the snapshot client's task left.
pub fn await_snapshot(result: ClientTaskResult) -> (outcome: Result<
    (),
    SnapshotAwareEdgeRuntimeError,
>)
    ensures
        outcome == snapshot_outcome(result),
{
    match result {
        Ok(Ok(())) => Ok(()),
        Ok(Err(error)) => Err(SnapshotAwareEdgeRuntimeError::Snapshot(error)),
        Err(_) => Err(SnapshotAwareEdgeRuntimeError::SnapshotTask),
    }
}

/// What the route client's task left, where there was one.
pub fn await_routes(result: Option<ClientTaskResult>) -> (outcome: Result<
    (),
    SnapshotAwareEdgeRuntimeError,
>)
    ensures
        outcome == routes_outcome(result),
{
    match result {
        None => Ok(()),
        Some(Ok(Ok(()))) => Ok(()),
        Some(Ok(Err(error))) => Err(SnapshotAwareEdgeRuntimeError::HttpsRoute(error)),
        Some(Err(_)) => Err(SnapshotAwareEdgeRuntimeError::HttpsRouteTask),
    }
}

/// Which task ended the run, with what the tasks left that were then waited for.
#[derive(Debug)]
pub enum SnapshotRunEnd {
    /// The run was asked to stop.
    Requested {
        edge: EdgeTaskResult,
        snapshots: ClientTaskResult,
        routes: Option<ClientTaskResult>,
    },
    EdgeEnded(EdgeTaskResult),
    SnapshotsEnded { snapshots: ClientTaskResult, edge: EdgeTaskResult },
    RoutesEnded(ClientTaskResult),
}

/// What the run comes to.
pub open spec fn run_result(end: SnapshotRunEnd) -> Result<
    SnapshotAwareEdgeRuntimeOutcome,
    SnapshotAwareEdgeRuntimeError,
> {
    match end {
        SnapshotRunEnd::Requested { edge, snapshots, routes } => if edge_outcome(edge) is Err {
            Err(edge_outcome(edge)->Err_0)
        } else if snapshot_outcome(snapshots) is Err {
            Err(snapshot_outcome(snapshots)->Err_0)
        } else if routes_outcome(routes) is Err {
            Err(routes_outcome(routes)->Err_0)
        } else {
            Ok(SnapshotAwareEdgeRuntimeOutcome { edge: edge_outcome(edge)->Ok_0 })
        },
        SnapshotRunEnd::EdgeEnded(edge) => match edge_outcome(edge) {
            Ok(edge) => Ok(SnapshotAwareEdgeRuntimeOutcome { edge }),
            Err(error) => Err(error),
        },
        SnapshotRunEnd::SnapshotsEnded { snapshots, edge } => if edge_outcome(edge) is Err {
            Err(edge_outcome(edge)->Err_0)
        } else {
            match snapshot_outcome(snapshots) {
                Ok(_) => Err(SnapshotAwareEdgeRuntimeError::SnapshotStopped),
                Err(error) => Err(error),
            }
        },
        SnapshotRunEnd::RoutesEnded(routes) => match routes_outcome(Some(routes)) {
            Ok(_) => Err(SnapshotAwareEdgeRuntimeError::HttpsRouteStopped),
            Err(error) => Err(error),
        },
    }
}

/// What the run comes to. An end that nobody asked for is a failure, unless the
/// edge itself ended well; where the snapshot client ended first, a failure of the
/// edge is reported in its place.
pub fn finish_run(end: SnapshotRunEnd) -> (result: Result<
    SnapshotAwareEdgeRuntimeOutcome,
    SnapshotAwareEdgeRuntimeError,
>)
    ensures
        result == run_result(end),
{
    match end {
        SnapshotRunEnd::Requested { edge, snapshots, routes } => {
            let edge: EdgeRuntimeOutcome = match await_edge(edge) {
                Ok(outcome) => outcome,
                Err(error) => return Err(error),
            };
            match await_snapshot(snapshots) {
                Ok(()) => {},
                Err(error) => return Err(error),
            }
            match await_routes(routes) {
                Ok(()) => {},
                Err(error) => return Err(error),
            }
            Ok(SnapshotAwareEdgeRuntimeOutcome { edge })
        },
        SnapshotRunEnd::EdgeEnded(edge) => match await_edge(edge) {
            Ok(edge) => Ok(SnapshotAwareEdgeRuntimeOutcome { edge }),
            Err(error) => Err(error),
        },
        SnapshotRunEnd::SnapshotsEnded { snapshots, edge } => {
            match await_edge(edge) {
                Ok(_) => {},
                Err(error) => return Err(error),
            }
            match await_snapshot(snapshots) {
                Ok(()) => Err(SnapshotAwareEdgeRuntimeError::SnapshotStopped),
                Err(error) => Err(error),
            }
        },
        SnapshotRunEnd::RoutesEnded(routes) => match await_routes(Some(routes)) {
            Ok(()) => Err(SnapshotAwareEdgeRuntimeError::HttpsRouteStopped),
            Err(error) => Err(error),
        },
    }
}

/// A client of the service that stops by itself never leaves the edge running as if
/// it were well.
pub proof fn lost_service_is_a_failure(end: SnapshotRunEnd)
    requires
        end is SnapshotsEnded || end is RoutesEnded,
    ensures
        run_result(end) is Err,
{
}

/// A run that was asked to stop comes to the edge's outcome exactly where every task left
/// well, and a failure of the edge is reported before any other.
pub proof fn requested_stops_report_the_edge(
    edge: EdgeTaskResult,
    snapshots: ClientTaskResult,
    routes: Option<ClientTaskResult>,
)
    ensures
        ({
            let result = run_result(SnapshotRunEnd::Requested { edge, snapshots, routes });
            &&& result is Ok <==> {
                &&& edge is Ok && edge->Ok_0 is Ok
                &&& snapshots is Ok && snapshots->Ok_0 is Ok
                &&& routes matches Some(routes) ==> routes is Ok && routes->Ok_0 is Ok
            }
            &&& result is Ok ==> result->Ok_0.edge == edge->Ok_0->Ok_0
            &&& edge is Err ==> result is Err && result->Err_0 is EdgeTask
            &&& edge is Ok && edge->Ok_0 is Err ==> result is Err && result->Err_0
                == SnapshotAwareEdgeRuntimeError::Edge(edge->Ok_0->Err_0)
            &&& edge is Ok && edge->Ok_0 is Ok && snapshots is Err ==> result is Err
                && result->Err_0 is SnapshotTask
            &&& edge is Ok && edge->Ok_0 is Ok && snapshots is Ok && snapshots->Ok_0 is Err
                ==> result is Err && result->Err_0 == SnapshotAwareEdgeRuntimeError::Snapshot(
                snapshots->Ok_0->Err_0,
            )
        }),
{
}

/// An edge that ended by itself is reported as it ended, and a client of the service that
/// did as what it failed of, or as having stopped.
pub proof fn unasked_ends_are_reported(edge: EdgeTaskResult, client: ClientTaskResult)
    ensures
        ({
            let result = run_result(SnapshotRunEnd::EdgeEnded(edge));
            &&& edge is Ok && edge->Ok_0 is Ok ==> result is Ok && result->Ok_0.edge
                == edge->Ok_0->Ok_0
            &&& edge is Ok && edge->Ok_0 is Err ==> result is Err && result->Err_0
                == SnapshotAwareEdgeRuntimeError::Edge(edge->Ok_0->Err_0)
            &&& edge is Err ==> result is Err && result->Err_0 is EdgeTask
        }),
        ({
            let result = run_result(SnapshotRunEnd::RoutesEnded(client));
            &&& result is Err
            &&& client is Err ==> result->Err_0 is HttpsRouteTask
            &&& client is Ok && client->Ok_0 is Ok ==> result->Err_0 is HttpsRouteStopped
            &&& client is Ok && client->Ok_0 is Err ==> result->Err_0
                == SnapshotAwareEdgeRuntimeError::HttpsRoute(client->Ok_0->Err_0)
        }),
        edge is Ok && edge->Ok_0 is Ok ==> ({
            let result = run_result(SnapshotRunEnd::SnapshotsEnded { snapshots: client, edge });
            &&& result is Err
            &&& client is Err ==> result->Err_0 is SnapshotTask
            &&& client is Ok && client->Ok_0 is Ok ==> result->Err_0 is SnapshotStopped
            &&& client is Ok && client->Ok_0 is Err ==> result->Err_0
                == SnapshotAwareEdgeRuntimeError::Snapshot(client->Ok_0->Err_0)
        }),
{
}

/// An edge that starts from a snapshot asks its Agents for certificates and holds them to
/// what the snapshot grants, and is configured as before in everything else.
pub proof fn snapshots_decide_who_is_served(
    config: EdgeRuntimeConfig,
    granted: RegistrationGrants,
)
    ensures
        ({
            let edge = bootstrapped(config, granted);
            &&& edge.grants == granted
            &&& edge.multiplex.registration is MutualTls
            &&& edge.multiplex.security == config.multiplex.security
            &&& edge.multiplex.agent_listener == config.multiplex.agent_listener
            &&& edge.multiplex.max_streams_per_session == config.multiplex.max_streams_per_session
            &&& edge.raw_listen_addr == config.raw_listen_addr
            &&& edge.raw_exposure == config.raw_exposure
            &&& edge.max_raw_connections == config.max_raw_connections
            &&& edge.tunnel_id == config.tunnel_id
            &&& edge.https_ingress == config.https_ingress
            &&& edge.operations == config.operations
            &&& edge.shutdown == config.shutdown
        }),
{
}

} // verus!
