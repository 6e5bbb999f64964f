//! What a command line leads to: how far each ingress is exposed, which files are to
//! be read, and with which configurations the edge starts.

use vstd::prelude::*;
use vstd::string::*;

use crate::cli::{ArgError, ParsedArgs};
use crate::clock::Duration;
use crate::http_config::{HttpIngressConfigError, HttpIngressExposurePolicy};
use crate::http_rate_limit::{rate_limit_fault, HttpRequestRateLimitConfig};
use crate::http_tls::{
    PublicHttpProtocolPolicy, PublicTlsConfigError, PublicTlsReloadBootstrapError,
};
use crate::net::{loopback_ip, SocketAddr};
use crate::raw_ingress::RawIngressExposurePolicy;

verus! {

/// How far the raw ingress is exposed, or why it may not be as asked.
pub open spec fn raw_exposure(p: ParsedArgs) -> Result<RawIngressExposurePolicy, ArgError> {
    if p.https_listen is Some {
        if p.raw_options_present {
            Err(ArgError::IngressModeConflict)
        } else {
            Ok(RawIngressExposurePolicy::LoopbackOnly)
        }
    } else if !p.allow_public_raw_ingress {
        if p.max_raw_connections_per_ip is Some {
            Err(ArgError::PublicRawPerIpLimitWithoutOptIn)
        } else if !loopback_ip(p.raw_listen.ip) {
            Err(ArgError::PublicRawOptInRequired)
        } else {
            Ok(RawIngressExposurePolicy::LoopbackOnly)
        }
    } else {
        match p.max_raw_connections_per_ip {
            None => Err(ArgError::PublicRawPerIpLimitRequired),
            Some(limit) => if 1 <= limit <= p.max_raw_connections {
                Ok(RawIngressExposurePolicy::Public { max_connections_per_ip: limit })
            } else {
                Err(ArgError::PublicRawPerIpLimitInvalid)
            },
        }
    }
}

/// How far the raw ingress is exposed, or why it may not be as asked.
pub fn raw_exposure_policy(parsed: &ParsedArgs) -> (result: Result<
    RawIngressExposurePolicy,
    ArgError,
>)
    ensures
        result == raw_exposure(*parsed),
{
    if parsed.https_listen.is_some() {
        if parsed.raw_options_present {
            return Err(ArgError::IngressModeConflict);
        }
        return Ok(RawIngressExposurePolicy::LoopbackOnly);
    }
    if !parsed.allow_public_raw_ingress {
        if parsed.max_raw_connections_per_ip.is_some() {
            return Err(ArgError::PublicRawPerIpLimitWithoutOptIn);
        }
        if !parsed.raw_listen.ip().is_loopback() {
            return Err(ArgError::PublicRawOptInRequired);
        }
        return Ok(RawIngressExposurePolicy::LoopbackOnly);
    }
    match parsed.max_raw_connections_per_ip {
        None => Err(ArgError::PublicRawPerIpLimitRequired),
        Some(limit) => if limit == 0 || limit > parsed.max_raw_connections {
            Err(ArgError::PublicRawPerIpLimitInvalid)
        } else {
            Ok(RawIngressExposurePolicy::Public { max_connections_per_ip: limit })
        },
    }
}

/// How far the HTTPS ingress is exposed, or why it may not be as asked.
pub open spec fn https_exposure(p: ParsedArgs) -> Result<HttpIngressExposurePolicy, ArgError> {
    if p.https_listen is None || !p.allow_public_https_ingress {
        if p.max_http_connections_per_ip is Some {
            Err(ArgError::PublicHttpsPerIpLimitWithoutOptIn)
        } else if p.https_listen matches Some(listen) && !loopback_ip(listen.ip) {
            Err(ArgError::PublicHttpsOptInRequired)
        } else {
            Ok(HttpIngressExposurePolicy::LoopbackOnly)
        }
    } else {
        match p.max_http_connections_per_ip {
            None => Err(ArgError::PublicHttpsPerIpLimitRequired),
            Some(limit) => if 1 <= limit <= p.max_http_connections {
                Ok(HttpIngressExposurePolicy::Public { max_connections_per_ip: limit })
            } else {
                Err(ArgError::PublicHttpsPerIpLimitInvalid)
            },
        }
    }
}

/// How far the HTTPS ingress is exposed, or why it may not be as asked.
pub fn https_exposure_policy(parsed: &ParsedArgs) -> (result: Result<
    HttpIngressExposurePolicy,
    ArgError,
>)
    ensures
        result == https_exposure(*parsed),
{
    let listen_addr: SocketAddr = match parsed.https_listen {
        Some(listen_addr) => listen_addr,
        None => {
            if parsed.max_http_connections_per_ip.is_some() {
                return Err(ArgError::PublicHttpsPerIpLimitWithoutOptIn);
            }
            return Ok(HttpIngressExposurePolicy::LoopbackOnly);
        },
    };
    if !parsed.allow_public_https_ingress {
        if parsed.max_http_connections_per_ip.is_some() {
            return Err(ArgError::PublicHttpsPerIpLimitWithoutOptIn);
        }
        if !listen_addr.ip().is_loopback() {
            return Err(ArgError::PublicHttpsOptInRequired);
        }
        return Ok(HttpIngressExposurePolicy::LoopbackOnly);
    }
    match parsed.max_http_connections_per_ip {
        None => Err(ArgError::PublicHttpsPerIpLimitRequired),
        Some(limit) => if limit == 0 || limit > parsed.max_http_connections {
            Err(ArgError::PublicHttpsPerIpLimitInvalid)
        } else {
            Ok(HttpIngressExposurePolicy::Public { max_connections_per_ip: limit })
        },
    }
}

/// A listener off loopback is served only where the command line says so in as many
/// words, and with a limit for each source.
pub proof fn exposure_is_explicit(p: ParsedArgs)
    ensures
        raw_exposure(p) is Ok && p.https_listen is None && !loopback_ip(p.raw_listen.ip) ==> {
            &&& p.allow_public_raw_ingress
            &&& raw_exposure(p)->Ok_0 is Public
            &&& 1 <= raw_exposure(p)->Ok_0->max_connections_per_ip <= p.max_raw_connections
        },
        https_exposure(p) is Ok && p.https_listen is Some && !loopback_ip(p.https_listen->0.ip)
            ==> {
            &&& p.allow_public_https_ingress
            &&& https_exposure(p)->Ok_0 is Public
            &&& 1 <= https_exposure(p)->Ok_0->max_connections_per_ip <= p.max_http_connections
        },
{
}

/// Why the files and services that a command line names give no configuration;
/// failures outside of it by their text.
#[derive(Debug)]
pub enum TlsLoadError {
    IncompleteArguments,
    AuthorizationMode,
    IncompleteSnapshotArguments,
    Read(&'static str),
    Invalid(String),
    InvalidRegistration(String),
    InvalidSnapshotTls(String),
    InvalidSnapshotConfig,
    InvalidHttpsRouteTls(String),
    InvalidHttpsRouteConfig,
    IncompleteSnapshotCacheArguments,
    InvalidSnapshotCache,
    ReloadArguments,
    EdgeReload(String),
    SnapshotReload(String),
    HttpsRouteReload(String),
    IncompletePublicHttpsArguments,
    PublicHttpsWithoutListener,
    PublicHttpsExposure(ArgError),
    InvalidPublicTls(PublicTlsConfigError),
    InvalidHttpIngress(HttpIngressConfigError),
    PublicReload(PublicTlsReloadBootstrapError),
    MissingSignedAccessKeyRing,
    ReadSignedAccessKeyRing,
    InvalidSignedAccessKeyRing,
    SignedAccessReload(String),
}

impl TlsLoadError {
    /// The text shown to an operator, where `listener` is how the HTTPS listener's
    /// address is written.
    pub open spec fn text(self, listener: Seq<char>) -> Seq<char> {
        match self {
            TlsLoadError::IncompleteArguments =>
                "Agent TLS requires --tls-cert, --tls-key, and --tls-client-ca"@,
            TlsLoadError::AuthorizationMode =>
                "Agent TLS requires exactly one authorization source: --authorized-client-cert or the complete snapshot group"@,
            TlsLoadError::IncompleteSnapshotArguments =>
                "snapshot authorization requires server, CA, client certificate/key, and server name"@,
            TlsLoadError::Read(kind) => "failed to read TLS "@ + kind@ + " PEM file"@,
            TlsLoadError::Invalid(error) => "invalid TLS configuration: "@ + error@,
            TlsLoadError::InvalidRegistration(error) => "invalid registration authorization: "@
                + error@,
            TlsLoadError::InvalidSnapshotTls(error) => "invalid snapshot TLS configuration: "@
                + error@,
            TlsLoadError::InvalidSnapshotConfig => "snapshot client configuration is invalid"@,
            TlsLoadError::InvalidHttpsRouteTls(error) =>
                "invalid HTTPS route client TLS configuration: "@ + error@,
            TlsLoadError::InvalidHttpsRouteConfig =>
                "HTTPS route client configuration is invalid"@,
            TlsLoadError::IncompleteSnapshotCacheArguments =>
                "snapshot cache requires both --snapshot-cache-dir and --snapshot-cache-max-stale-ms"@,
            TlsLoadError::InvalidSnapshotCache =>
                "snapshot cache directory and maximum stale age are invalid"@,
            TlsLoadError::ReloadArguments =>
                "TLS reload manifests require complete matching TLS path groups and non-zero reload settings"@,
            TlsLoadError::EdgeReload(error) => "Agent-facing TLS reload is invalid: "@ + error@,
            TlsLoadError::SnapshotReload(error) => "snapshot-client TLS reload is invalid: "@
                + error@,
            TlsLoadError::HttpsRouteReload(error) => "HTTPS route-client TLS reload is invalid: "@
                + error@,
            TlsLoadError::IncompletePublicHttpsArguments =>
                "HTTPS ingress requires --https-listen, one route source, --public-tls-cert, and --public-tls-key"@,
            TlsLoadError::PublicHttpsWithoutListener =>
                "public HTTPS options require --https-listen"@,
            TlsLoadError::PublicHttpsExposure(error) => error.text(),
            TlsLoadError::InvalidPublicTls(error) => "invalid public TLS configuration: "@
                + error.text(),
            TlsLoadError::InvalidHttpIngress(error) => "invalid HTTPS ingress: "@ + error.text(
                listener,
            ),
            TlsLoadError::PublicReload(error) => "public TLS reload is invalid: "@ + error.text(),
            TlsLoadError::MissingSignedAccessKeyRing =>
                "--require-signed-access requires --signed-access-keyring"@,
            TlsLoadError::ReadSignedAccessKeyRing =>
                "failed to read signed-access public-key ring"@,
            TlsLoadError::InvalidSignedAccessKeyRing =>
                "signed-access public-key ring is invalid"@,
            TlsLoadError::SignedAccessReload(error) =>
                "signed-access key-ring reload is invalid: "@ + error@,
        }
    }

    /// The text shown to an operator, where `listener` is how the HTTPS listener's
    /// address is written.
    pub fn message(&self, listener: &str) -> (message: String)
        ensures
            message@ == self.text(listener@),
    {
        let detail: String;
        let prefix: &str = match self {
            TlsLoadError::IncompleteArguments => {
                return "Agent TLS requires --tls-cert, --tls-key, and --tls-client-ca".to_owned();
            },
            TlsLoadError::AuthorizationMode => {
                return "Agent TLS requires exactly one authorization source: --authorized-client-cert or the complete snapshot group".to_owned();
            },
            TlsLoadError::IncompleteSnapshotArguments => {
                return "snapshot authorization requires server, CA, client certificate/key, and server name".to_owned();
            },
            TlsLoadError::Read(kind) => {
                return "failed to read TLS ".to_owned().concat(kind).concat(" PEM file");
            },
            TlsLoadError::InvalidSnapshotConfig => {
                return "snapshot client configuration is invalid".to_owned();
            },
            TlsLoadError::InvalidHttpsRouteConfig => {
                return "HTTPS route client configuration is invalid".to_owned();
            },
            TlsLoadError::IncompleteSnapshotCacheArguments => {
                return "snapshot cache requires both --snapshot-cache-dir and --snapshot-cache-max-stale-ms".to_owned();
            },
            TlsLoadError::InvalidSnapshotCache => {
                return "snapshot cache directory and maximum stale age are invalid".to_owned();
            },
            TlsLoadError::ReloadArguments => {
                return "TLS reload manifests require complete matching TLS path groups and non-zero reload settings".to_owned();
            },
            TlsLoadError::IncompletePublicHttpsArguments => {
                return "HTTPS ingress requires --https-listen, one route source, --public-tls-cert, and --public-tls-key".to_owned();
            },
            TlsLoadError::PublicHttpsWithoutListener => {
                return "public HTTPS options require --https-listen".to_owned();
            },
            TlsLoadError::PublicHttpsExposure(error) => {
                return error.message();
            },
            TlsLoadError::MissingSignedAccessKeyRing => {
                return "--require-signed-access requires --signed-access-keyring".to_owned();
            },
            TlsLoadError::ReadSignedAccessKeyRing => {
                return "failed to read signed-access public-key ring".to_owned();
            },
            TlsLoadError::InvalidSignedAccessKeyRing => {
                return "signed-access public-key ring is invalid".to_owned();
            },
            TlsLoadError::Invalid(error) => {
                detail = error.clone();
                "invalid TLS configuration: "
            },
            TlsLoadError::InvalidRegistration(error) => {
                detail = error.clone();
                "invalid registration authorization: "
            },
            TlsLoadError::InvalidSnapshotTls(error) => {
                detail = error.clone();
                "invalid snapshot TLS configuration: "
            },
            TlsLoadError::InvalidHttpsRouteTls(error) => {
                detail = error.clone();
                "invalid HTTPS route client TLS configuration: "
            },
            TlsLoadError::EdgeReload(error) => {
                detail = error.clone();
                "Agent-facing TLS reload is invalid: "
            },
            TlsLoadError::SnapshotReload(error) => {
                detail = error.clone();
                "snapshot-client TLS reload is invalid: "
            },
            TlsLoadError::HttpsRouteReload(error) => {
                detail = error.clone();
                "HTTPS route-client TLS reload is invalid: "
            },
            TlsLoadError::InvalidPublicTls(error) => {
                detail = error.message().to_owned();
                "invalid public TLS configuration: "
            },
            TlsLoadError::InvalidHttpIngress(error) => {
                detail = error.message(listener);
                "invalid HTTPS ingress: "
            },
            TlsLoadError::PublicReload(error) => {
                detail = error.message();
                "public TLS reload is invalid: "
            },
            TlsLoadError::SignedAccessReload(error) => {
                detail = error.clone();
                "signed-access key-ring reload is invalid: "
            },
        };
        prefix.to_owned().concat(detail.as_str())
    }
}

/// A copy of an optional text.
fn copy_text(text: &Option<String>) -> (copy: Option<String>)
    ensures
        copy == *text,
{
    match text {
        Some(text) => Some(text.clone()),
        None => None,
    }
}

/// Where the authorization of Agents comes from.
#[derive(Debug)]
pub enum AuthorizationSource {
    /// The one certificate that an Agent may show, in that file.
    ClientCertificate(String),
    /// The snapshot service.
    Snapshots,
}

/// How Agents reach the edge.
#[derive(Debug)]
pub enum TransportPlan {
    /// Without TLS, on loopback, as the one Agent and tunnel that were named.
    Plaintext,
    MutualTls {
        certificate_path: String,
        private_key_path: String,
        client_ca_path: String,
        /// Where the three files are reloaded from, if they are.
        reload_manifest: Option<String>,
        authorization: AuthorizationSource,
    },
}

/// Whether everything is there that the snapshot service's client needs.
pub open spec fn snapshot_complete(p: ParsedArgs) -> bool {
    &&& p.snapshot_server is Some
    &&& p.snapshot_ca is Some
    &&& p.snapshot_client_cert is Some
    &&& p.snapshot_client_key is Some
    &&& p.snapshot_server_name is Some
}

/// Whether some option of the snapshot service was used.
pub fn has_snapshot_arguments(parsed: &ParsedArgs) -> (yes: bool)
    ensures
        yes == parsed.snapshot_options_present,
{
    parsed.snapshot_options_present
}

/// Whether everything is there that the snapshot service's client needs.
pub fn snapshot_arguments_complete(parsed: &ParsedArgs) -> (yes: bool)
    ensures
        yes == snapshot_complete(*parsed),
{
    parsed.snapshot_server.is_some() && parsed.snapshot_ca.is_some()
        && parsed.snapshot_client_cert.is_some() && parsed.snapshot_client_key.is_some()
        && parsed.snapshot_server_name.is_some()
}

/// How Agents reach the edge, or what the options for it lack.
pub open spec fn transport_plan_of(p: ParsedArgs) -> Result<TransportPlan, TlsLoadError> {
    match (p.tls_cert, p.tls_key, p.tls_client_ca) {
        (None, None, None) => if p.authorized_client_cert is Some || p.snapshot_options_present
            || p.tls_reload_options_present {
            Err(TlsLoadError::AuthorizationMode)
        } else {
            Ok(TransportPlan::Plaintext)
        },
        (Some(certificate_path), Some(private_key_path), Some(client_ca_path)) => {
            let snapshots = p.authorized_client_cert is None;
            if snapshots != p.snapshot_options_present {
                Err(TlsLoadError::AuthorizationMode)
            } else if snapshots && !snapshot_complete(p) {
                Err(TlsLoadError::IncompleteSnapshotArguments)
            } else if p.tls_reload_options_present && p.tls_reload_manifest is None
                && p.snapshot_tls_reload_manifest is None
                && p.https_route_tls_reload_manifest is None {
                Err(TlsLoadError::ReloadArguments)
            } else if !snapshots && p.snapshot_tls_reload_manifest is Some {
                Err(TlsLoadError::ReloadArguments)
            } else {
                Ok(
                    TransportPlan::MutualTls {
                        certificate_path,
                        private_key_path,
                        client_ca_path,
                        reload_manifest: p.tls_reload_manifest,
                        authorization: match p.authorized_client_cert {
                            Some(path) => AuthorizationSource::ClientCertificate(path),
                            None => AuthorizationSource::Snapshots,
                        },
                    },
                )
            }
        },
        _ => Err(TlsLoadError::IncompleteArguments),
    }
}

/// How Agents reach the edge, or what the options for it lack. With TLS there is
/// exactly one source of authorization.
pub fn transport_plan(parsed: &ParsedArgs) -> (result: Result<TransportPlan, TlsLoadError>)
    ensures
        result == transport_plan_of(*parsed),
{
    match (&parsed.tls_cert, &parsed.tls_key, &parsed.tls_client_ca) {
        (None, None, None) => {
            if parsed.authorized_client_cert.is_some() || has_snapshot_arguments(parsed)
                || parsed.tls_reload_options_present {
                return Err(TlsLoadError::AuthorizationMode);
            }
            Ok(TransportPlan::Plaintext)
        },
        (Some(certificate), Some(private_key), Some(client_ca)) => {
            let snapshots: bool = parsed.authorized_client_cert.is_none();
            if snapshots != has_snapshot_arguments(parsed) {
                return Err(TlsLoadError::AuthorizationMode);
            }
            if snapshots && !snapshot_arguments_complete(parsed) {
                return Err(TlsLoadError::IncompleteSnapshotArguments);
            }
            if parsed.tls_reload_options_present && parsed.tls_reload_manifest.is_none()
                && parsed.snapshot_tls_reload_manifest.is_none()
                && parsed.https_route_tls_reload_manifest.is_none() {
                return Err(TlsLoadError::ReloadArguments);
            }
            if !snapshots && parsed.snapshot_tls_reload_manifest.is_some() {
                return Err(TlsLoadError::ReloadArguments);
            }
            Ok(
                TransportPlan::MutualTls {
                    certificate_path: certificate.clone(),
                    private_key_path: private_key.clone(),
                    client_ca_path: client_ca.clone(),
                    reload_manifest: copy_text(&parsed.tls_reload_manifest),
                    authorization: match &parsed.authorized_client_cert {
                        Some(path) => AuthorizationSource::ClientCertificate(path.clone()),
                        None => AuthorizationSource::Snapshots,
                    },
                },
            )
        },
        _ => Err(TlsLoadError::IncompleteArguments),
    }
}

/// A directory that keeps the last snapshot, and how old it may get.
#[derive(Debug)]
pub struct SnapshotCacheConfig {
    pub directory: String,
    pub max_stale_age: Duration,
}

/// The cache that is asked for, if one is, where `valid` says whether the cache
/// itself accepts its directory and age.
pub open spec fn cache_of(p: ParsedArgs, valid: bool) -> Result<
    Option<SnapshotCacheConfig>,
    TlsLoadError,
> {
    match (p.snapshot_cache_dir, p.snapshot_cache_max_stale) {
        (None, None) => Ok(None),
        (Some(directory), Some(max_stale_age)) => if valid {
            Ok(Some(SnapshotCacheConfig { directory, max_stale_age }))
        } else {
            Err(TlsLoadError::InvalidSnapshotCache)
        },
        _ => Err(TlsLoadError::IncompleteSnapshotCacheArguments),
    }
}

/// The cache that is asked for, if one is, where `valid` says whether the cache
/// itself accepts its directory and age.
pub fn snapshot_cache_configuration(parsed: &ParsedArgs, valid: bool) -> (result: Result<
    Option<SnapshotCacheConfig>,
    TlsLoadError,
>)
    ensures
        result == cache_of(*parsed, valid),
        result == (match (parsed.snapshot_cache_dir, parsed.snapshot_cache_max_stale) {
            (None, None) => Ok(None),
            (Some(directory), Some(max_stale_age)) => if valid {
                Ok(Some(SnapshotCacheConfig { directory, max_stale_age }))
            } else {
                Err(TlsLoadError::InvalidSnapshotCache)
            },
            _ => Err(TlsLoadError::IncompleteSnapshotCacheArguments),
        }),
{
    match (&parsed.snapshot_cache_dir, parsed.snapshot_cache_max_stale) {
        (None, None) => Ok(None),
        (Some(directory), Some(max_stale_age)) => if valid {
            Ok(Some(SnapshotCacheConfig { directory: directory.clone(), max_stale_age }))
        } else {
            Err(TlsLoadError::InvalidSnapshotCache)
        },
        _ => Err(TlsLoadError::IncompleteSnapshotCacheArguments),
    }
}

/// A client of the control plane: where it connects to, as whom, and where its files
/// are reloaded from, if they are.
#[derive(Debug)]
pub struct ServicePlan {
    pub server: SocketAddr,
    pub server_name: String,
    pub ca_path: String,
    pub client_certificate_path: String,
    pub client_key_path: String,
    pub reload_manifest: Option<String>,
}

/// The client of the snapshot service that is asked for.
pub open spec fn snapshot_plan_of(p: ParsedArgs) -> Result<ServicePlan, TlsLoadError> {
    if snapshot_complete(p) {
        Ok(
            ServicePlan {
                server: p.snapshot_server->0,
                server_name: p.snapshot_server_name->0,
                ca_path: p.snapshot_ca->0,
                client_certificate_path: p.snapshot_client_cert->0,
                client_key_path: p.snapshot_client_key->0,
                reload_manifest: p.snapshot_tls_reload_manifest,
            },
        )
    } else {
        Err(TlsLoadError::IncompleteSnapshotArguments)
    }
}

/// The client of the snapshot service that is asked for.
pub fn snapshot_plan(parsed: &ParsedArgs) -> (result: Result<ServicePlan, TlsLoadError>)
    ensures
        result == snapshot_plan_of(*parsed),
        result == (if snapshot_complete(*parsed) {
            Ok(
                ServicePlan {
                    server: parsed.snapshot_server->0,
                    server_name: parsed.snapshot_server_name->0,
                    ca_path: parsed.snapshot_ca->0,
                    client_certificate_path: parsed.snapshot_client_cert->0,
                    client_key_path: parsed.snapshot_client_key->0,
                    reload_manifest: parsed.snapshot_tls_reload_manifest,
                },
            )
        } else {
            Err(TlsLoadError::IncompleteSnapshotArguments)
        }),
{
    match (
        parsed.snapshot_server,
        &parsed.snapshot_ca,
        &parsed.snapshot_client_cert,
        &parsed.snapshot_client_key,
        &parsed.snapshot_server_name,
    ) {
        (
            Some(server),
            Some(ca),
            Some(client_certificate),
            Some(client_key),
            Some(server_name),
        ) => Ok(
            ServicePlan {
                server,
                server_name: server_name.clone(),
                ca_path: ca.clone(),
                client_certificate_path: client_certificate.clone(),
                client_key_path: client_key.clone(),
                reload_manifest: copy_text(&parsed.snapshot_tls_reload_manifest),
            },
        ),
        _ => Err(TlsLoadError::IncompleteSnapshotArguments),
    }
}

/// How long routes stay in force after the route service is lost, in nanoseconds,
/// unless the command line says otherwise.
pub const DEFAULT_ROUTE_MAX_STALE_NANOS: u128 = 300_000_000_000;

/// A client of the route service, and how long its routes stay in force after the
/// service is lost.
#[derive(Debug)]
pub struct RoutePlan {
    pub service: ServicePlan,
    pub max_stale_age: Duration,
}

/// The client of the route service that is asked for, if one is.
pub open spec fn route_plan_of(p: ParsedArgs) -> Result<Option<RoutePlan>, TlsLoadError> {
    match p.https_route_server {
        None => Ok(None),
        Some(server) => if p.snapshot_ca is Some && p.snapshot_client_cert is Some
            && p.snapshot_client_key is Some && p.snapshot_server_name is Some {
            Ok(
                Some(
                    RoutePlan {
                        service: ServicePlan {
                            server,
                            server_name: p.snapshot_server_name->0,
                            ca_path: p.snapshot_ca->0,
                            client_certificate_path: p.snapshot_client_cert->0,
                            client_key_path: p.snapshot_client_key->0,
                            reload_manifest: p.https_route_tls_reload_manifest,
                        },
                        max_stale_age: match p.https_route_max_stale {
                            Some(age) => age,
                            None => Duration { nanos: DEFAULT_ROUTE_MAX_STALE_NANOS },
                        },
                    },
                ),
            )
        } else {
            Err(TlsLoadError::IncompleteSnapshotArguments)
        },
    }
}

/// The client of the route service that is asked for, if one is: it connects as the
/// client of the snapshot service does.
pub fn https_route_plan(parsed: &ParsedArgs) -> (result: Result<Option<RoutePlan>, TlsLoadError>)
    ensures
        result == route_plan_of(*parsed),
        result == (match parsed.https_route_server {
            None => Ok(None),
            Some(server) => if parsed.snapshot_ca is Some && parsed.snapshot_client_cert is Some
                && parsed.snapshot_client_key is Some && parsed.snapshot_server_name is Some {
                Ok(
                    Some(
                        RoutePlan {
                            service: ServicePlan {
                                server,
                                server_name: parsed.snapshot_server_name->0,
                                ca_path: parsed.snapshot_ca->0,
                                client_certificate_path: parsed.snapshot_client_cert->0,
                                client_key_path: parsed.snapshot_client_key->0,
                                reload_manifest: parsed.https_route_tls_reload_manifest,
                            },
                            max_stale_age: match parsed.https_route_max_stale {
                                Some(age) => age,
                                None => Duration { nanos: DEFAULT_ROUTE_MAX_STALE_NANOS },
                            },
                        },
                    ),
                )
            } else {
                Err(TlsLoadError::IncompleteSnapshotArguments)
            },
        }),
{
    let server: SocketAddr = match parsed.https_route_server {
        Some(server) => server,
        None => return Ok(None),
    };
    match (
        &parsed.snapshot_ca,
        &parsed.snapshot_client_cert,
        &parsed.snapshot_client_key,
        &parsed.snapshot_server_name,
    ) {
        (Some(ca), Some(client_certificate), Some(client_key), Some(server_name)) => {
            let service = ServicePlan {
                server,
                server_name: server_name.clone(),
                ca_path: ca.clone(),
                client_certificate_path: client_certificate.clone(),
                client_key_path: client_key.clone(),
                reload_manifest: copy_text(&parsed.https_route_tls_reload_manifest),
            };
            let max_stale_age: Duration = match parsed.https_route_max_stale {
                Some(age) => age,
                None => Duration { nanos: DEFAULT_ROUTE_MAX_STALE_NANOS },
            };
            Ok(Some(RoutePlan { service, max_stale_age }))
        },
        _ => Err(TlsLoadError::IncompleteSnapshotArguments),
    }
}

/// The file with the keys of signed access, and where it is reloaded from, if it is.
#[derive(Debug)]
pub struct KeyRingPlan {
    pub path: String,
    pub reload_manifest: Option<String>,
}

/// What the HTTPS ingress needs to be read before it can be configured.
#[derive(Debug)]
pub struct HttpsPlan {
    pub listen_addr: SocketAddr,
    pub certificate_path: String,
    pub private_key_path: String,
    pub reload_manifest: Option<String>,
    pub exposure: HttpIngressExposurePolicy,
    pub request_rate_limit: HttpRequestRateLimitConfig,
    pub key_ring: Option<KeyRingPlan>,
    pub protocols: PublicHttpProtocolPolicy,
}

/// The request rates that are asked for.
pub open spec fn asked_rates(p: ParsedArgs) -> HttpRequestRateLimitConfig {
    HttpRequestRateLimitConfig {
        global_requests_per_second: p.http_requests_per_second,
        global_burst: p.http_request_burst,
        per_ip_requests_per_second: p.http_requests_per_ip_per_second,
        per_ip_burst: p.http_request_burst_per_ip,
        max_tracked_ips: p.max_http_rate_limit_peers,
        peer_idle_ttl: p.http_rate_limit_idle,
    }
}

/// What the HTTPS ingress needs to be read, if one is asked for, or what the options
/// for it lack.
pub open spec fn https_plan_of(p: ParsedArgs) -> Result<Option<HttpsPlan>, TlsLoadError> {
    match p.https_listen {
        None => if p.https_options_present {
            Err(TlsLoadError::PublicHttpsWithoutListener)
        } else {
            Ok(None)
        },
        Some(listen_addr) => if p.public_tls_cert is None || p.public_tls_key is None || (
        p.https_host is None && p.https_route_server is None) {
            Err(TlsLoadError::IncompletePublicHttpsArguments)
        } else if https_exposure(p) is Err {
            Err(TlsLoadError::PublicHttpsExposure(https_exposure(p)->Err_0))
        } else if rate_limit_fault(asked_rates(p)) is Some {
            Err(
                TlsLoadError::InvalidHttpIngress(
                    HttpIngressConfigError::InvalidRequestRateLimit(
                        rate_limit_fault(asked_rates(p))->0,
                    ),
                ),
            )
        } else if p.require_signed_access && p.signed_access_keyring is None {
            Err(TlsLoadError::MissingSignedAccessKeyRing)
        } else {
            Ok(
                Some(
                    HttpsPlan {
                        listen_addr,
                        certificate_path: p.public_tls_cert->0,
                        private_key_path: p.public_tls_key->0,
                        reload_manifest: p.public_tls_reload_manifest,
                        exposure: https_exposure(p)->Ok_0,
                        request_rate_limit: asked_rates(p),
                        key_ring: if p.require_signed_access {
                            Some(
                                KeyRingPlan {
                                    path: p.signed_access_keyring->0,
                                    reload_manifest: p.signed_access_keyring_reload_manifest,
                                },
                            )
                        } else {
                            None
                        },
                        protocols: if p.enable_http2 {
                            PublicHttpProtocolPolicy::Http1AndHttp2
                        } else {
                            PublicHttpProtocolPolicy::Http1Only
                        },
                    },
                ),
            )
        },
    }
}

/// What the HTTPS ingress needs to be read, if one is asked for, or what the options
/// for it lack.
pub fn https_plan(parsed: &ParsedArgs) -> (result: Result<Option<HttpsPlan>, TlsLoadError>)
    ensures
        result == https_plan_of(*parsed),
{
    let listen_addr: SocketAddr = match parsed.https_listen {
        Some(listen_addr) => listen_addr,
        None => {
            if parsed.https_options_present {
                return Err(TlsLoadError::PublicHttpsWithoutListener);
            }
            return Ok(None);
        },
    };
    let (certificate_path, private_key_path): (String, String) = match (
        &parsed.public_tls_cert,
        &parsed.public_tls_key,
    ) {
        (Some(certificate), Some(private_key)) => (certificate.clone(), private_key.clone()),
        _ => return Err(TlsLoadError::IncompletePublicHttpsArguments),
    };
    if parsed.https_host.is_none() && parsed.https_route_server.is_none() {
        return Err(TlsLoadError::IncompletePublicHttpsArguments);
    }
    let exposure: HttpIngressExposurePolicy = match https_exposure_policy(parsed) {
        Ok(exposure) => exposure,
        Err(error) => return Err(TlsLoadError::PublicHttpsExposure(error)),
    };
    let request_rate_limit = HttpRequestRateLimitConfig {
        global_requests_per_second: parsed.http_requests_per_second,
        global_burst: parsed.http_request_burst,
        per_ip_requests_per_second: parsed.http_requests_per_ip_per_second,
        per_ip_burst: parsed.http_request_burst_per_ip,
        max_tracked_ips: parsed.max_http_rate_limit_peers,
        peer_idle_ttl: parsed.http_rate_limit_idle,
    };
    match request_rate_limit.validate() {
        Ok(()) => {},
        Err(error) => {
            return Err(
                TlsLoadError::InvalidHttpIngress(
                    HttpIngressConfigError::InvalidRequestRateLimit(error),
                ),
            );
        },
    }
    let key_ring: Option<KeyRingPlan> = if parsed.require_signed_access {
        match &parsed.signed_access_keyring {
            Some(path) => Some(
                KeyRingPlan {
                    path: path.clone(),
                    reload_manifest: copy_text(&parsed.signed_access_keyring_reload_manifest),
                },
            ),
            None => return Err(TlsLoadError::MissingSignedAccessKeyRing),
        }
    } else {
        None
    };
    let protocols: PublicHttpProtocolPolicy = if parsed.enable_http2 {
        PublicHttpProtocolPolicy::Http1AndHttp2
    } else {
        PublicHttpProtocolPolicy::Http1Only
    };
    Ok(
        Some(
            HttpsPlan {
                listen_addr,
                certificate_path,
                private_key_path,
                reload_manifest: copy_text(&parsed.public_tls_reload_manifest),
                exposure,
                request_rate_limit,
                key_ring,
                protocols,
            },
        ),
    )
}

/// Takes a key-ring file of which one byte more was read than it may hold.
pub fn check_key_ring_size(bytes: Vec<u8>, max_bytes: usize) -> (result: Result<
    Vec<u8>,
    TlsLoadError,
>)
    ensures
        result == (if bytes@.len() > max_bytes {
            Err(TlsLoadError::InvalidSignedAccessKeyRing)
        } else {
            Ok(bytes)
        }),
{
    if bytes.len() > max_bytes {
        Err(TlsLoadError::InvalidSignedAccessKeyRing)
    } else {
        Ok(bytes)
    }
}

/// Agents connect in plain only where nothing of TLS was asked for; with a certificate, a
/// key and a client authority they prove who they are, and are authorized either by one
/// named certificate or by snapshots, never by both.
pub proof fn agents_are_secured_as_asked(p: ParsedArgs)
    ensures
        transport_plan_of(p) matches Ok(plan) ==> (plan is Plaintext <==> p.tls_cert is None
            && p.tls_key is None && p.tls_client_ca is None),
        transport_plan_of(p) matches Ok(TransportPlan::MutualTls {
            certificate_path,
            private_key_path,
            client_ca_path,
            reload_manifest,
            authorization,
        }) ==> {
            &&& p.tls_cert == Some(certificate_path)
            &&& p.tls_key == Some(private_key_path)
            &&& p.tls_client_ca == Some(client_ca_path)
            &&& reload_manifest == p.tls_reload_manifest
            &&& p.authorized_client_cert matches Some(path) ==> authorization
                == AuthorizationSource::ClientCertificate(path) && !p.snapshot_options_present
            &&& p.authorized_client_cert is None ==> authorization is Snapshots
                && p.snapshot_server is Some && p.snapshot_ca is Some && p.snapshot_client_cert
                is Some && p.snapshot_client_key is Some && p.snapshot_server_name is Some
        },
        p.tls_cert is None && p.tls_key is None && p.tls_client_ca is None
            && p.authorized_client_cert is None && !p.snapshot_options_present
            && !p.tls_reload_options_present ==> transport_plan_of(p) == Ok::<_, TlsLoadError>(
            TransportPlan::Plaintext,
        ),
        p.tls_cert is Some && p.tls_key is Some && p.tls_client_ca is Some
            && p.authorized_client_cert is Some && !p.snapshot_options_present
            && !p.tls_reload_options_present && p.snapshot_tls_reload_manifest is None
            ==> transport_plan_of(p) is Ok,
{
}

/// The HTTPS ingress is planned just where a listener is named, with the files that were
/// named for it, the protocols that were enabled, and a key ring where signatures are
/// required.
pub proof fn https_is_planned_as_asked(p: ParsedArgs)
    ensures
        https_plan_of(p) matches Ok(plan) ==> (plan is Some <==> p.https_listen is Some),
        https_plan_of(p) matches Ok(Some(plan)) ==> {
            &&& p.https_listen == Some(plan.listen_addr)
            &&& p.public_tls_cert == Some(plan.certificate_path)
            &&& p.public_tls_key == Some(plan.private_key_path)
            &&& plan.reload_manifest == p.public_tls_reload_manifest
            &&& plan.protocols == (if p.enable_http2 {
                PublicHttpProtocolPolicy::Http1AndHttp2
            } else {
                PublicHttpProtocolPolicy::Http1Only
            })
            &&& plan.key_ring is Some <==> p.require_signed_access
            &&& plan.key_ring is Some ==> p.signed_access_keyring == Some(plan.key_ring->0.path)
            &&& plan.request_rate_limit.global_requests_per_second == p.http_requests_per_second
            &&& plan.request_rate_limit.global_burst == p.http_request_burst
            &&& plan.request_rate_limit.per_ip_requests_per_second
                == p.http_requests_per_ip_per_second
            &&& plan.request_rate_limit.per_ip_burst == p.http_request_burst_per_ip
            &&& plan.request_rate_limit.max_tracked_ips == p.max_http_rate_limit_peers
            &&& plan.request_rate_limit.peer_idle_ttl == p.http_rate_limit_idle
        },
        p.https_listen is Some && p.require_signed_access && p.signed_access_keyring is None
            ==> https_plan_of(p) is Err,
        p.https_listen is None && !p.https_options_present ==> https_plan_of(p) == Ok::<
            Option<HttpsPlan>,
            TlsLoadError,
        >(None),
{
}

/// A listener on loopback needs no more than its address, and one beyond it a limit for
/// each source that is within the limit for all.
pub proof fn loopback_needs_no_opt_in(p: ParsedArgs)
    ensures
        p.https_listen is None && !p.allow_public_raw_ingress && p.max_raw_connections_per_ip
            is None && loopback_ip(p.raw_listen.ip) ==> raw_exposure(p) == Ok::<_, ArgError>(
            RawIngressExposurePolicy::LoopbackOnly,
        ),
        p.https_listen is None && p.allow_public_raw_ingress ==> (raw_exposure(p) is Ok
            <==> p.max_raw_connections_per_ip is Some && 1 <= p.max_raw_connections_per_ip->0
            <= p.max_raw_connections),
        p.https_listen is Some && p.raw_options_present ==> raw_exposure(p) is Err,
        p.https_listen matches Some(listen) && loopback_ip(listen.ip)
            && !p.allow_public_https_ingress && p.max_http_connections_per_ip is None
            ==> https_exposure(p) == Ok::<_, ArgError>(HttpIngressExposurePolicy::LoopbackOnly),
{
}

/// The client of the snapshot service connects where it is told to and as whom, exactly
/// where all of that was said.
pub proof fn snapshots_come_from_where_they_are_asked_for(p: ParsedArgs)
    ensures
        match snapshot_plan_of(p) {
            Ok(plan) => {
                &&& p.snapshot_server == Some(plan.server)
                &&& p.snapshot_server_name == Some(plan.server_name)
                &&& p.snapshot_ca == Some(plan.ca_path)
                &&& p.snapshot_client_cert == Some(plan.client_certificate_path)
                &&& p.snapshot_client_key == Some(plan.client_key_path)
                &&& p.snapshot_tls_reload_manifest == plan.reload_manifest
            },
            Err(error) => error is IncompleteSnapshotArguments && (p.snapshot_server is None
                || p.snapshot_server_name is None || p.snapshot_ca is None
                || p.snapshot_client_cert is None || p.snapshot_client_key is None),
        },
{
}

/// Routes come from a service exactly where one is named, as the client that snapshots are
/// asked for as; they stay in force for as long as was said, or for five minutes.
pub proof fn routes_come_from_where_they_are_asked_for(p: ParsedArgs)
    ensures
        match route_plan_of(p) {
            Ok(None) => p.https_route_server is None,
            Ok(Some(plan)) => {
                &&& p.https_route_server == Some(plan.service.server)
                &&& p.snapshot_server_name == Some(plan.service.server_name)
                &&& p.snapshot_ca == Some(plan.service.ca_path)
                &&& p.snapshot_client_cert == Some(plan.service.client_certificate_path)
                &&& p.snapshot_client_key == Some(plan.service.client_key_path)
                &&& p.https_route_tls_reload_manifest == plan.service.reload_manifest
                &&& p.https_route_max_stale is Some ==> p.https_route_max_stale == Some(
                    plan.max_stale_age,
                )
                &&& p.https_route_max_stale is None ==> plan.max_stale_age.nanos == 300
                    * 1_000_000_000
            },
            Err(error) => error is IncompleteSnapshotArguments && p.https_route_server is Some && (
            p.snapshot_server_name is None || p.snapshot_ca is None || p.snapshot_client_cert
                is None || p.snapshot_client_key is None),
        },
{
}

/// Snapshots are cached where a directory and an age are named and accepted, and nowhere
/// where neither is; one without the other is refused.
pub proof fn snapshots_are_cached_where_asked(p: ParsedArgs, valid: bool)
    ensures
        match cache_of(p, valid) {
            Ok(None) => p.snapshot_cache_dir is None && p.snapshot_cache_max_stale is None,
            Ok(Some(cache)) => valid && p.snapshot_cache_dir == Some(cache.directory)
                && p.snapshot_cache_max_stale == Some(cache.max_stale_age),
            Err(error) => if p.snapshot_cache_dir is Some && p.snapshot_cache_max_stale is Some {
                !valid && error is InvalidSnapshotCache
            } else {
                error is IncompleteSnapshotCacheArguments && (p.snapshot_cache_dir is Some
                    <==> p.snapshot_cache_max_stale is None)
            },
        },
{
}

/// What an HTTPS ingress lacks is named: its listener, its certificate, its key or a
/// hostname, its exposure, or the keys of its signatures.
pub proof fn missing_parts_of_https_are_named(p: ParsedArgs)
    ensures
        https_plan_of(p) matches Err(error) ==> match error {
            TlsLoadError::PublicHttpsWithoutListener => p.https_listen is None
                && p.https_options_present,
            TlsLoadError::IncompletePublicHttpsArguments => p.https_listen is Some && (
            p.public_tls_cert is None || p.public_tls_key is None || (p.https_host is None
                && p.https_route_server is None)),
            TlsLoadError::PublicHttpsExposure(fault) => https_exposure(p) is Err && fault
                == https_exposure(p)->Err_0,
            TlsLoadError::InvalidHttpIngress(fault) => fault is InvalidRequestRateLimit,
            TlsLoadError::MissingSignedAccessKeyRing => p.require_signed_access
                && p.signed_access_keyring is None,
            _ => false,
        },
        https_plan_of(p) is Ok && p.https_listen is Some ==> p.https_host is Some
            || p.https_route_server is Some,
{
}

/// A refused exposure names what is missing: the consent, the limit for each source, or a
/// limit that is within the limit for all.
pub proof fn refused_exposures_name_what_is_missing(p: ParsedArgs)
    ensures
        raw_exposure(p) matches Err(error) ==> match error {
            ArgError::IngressModeConflict => p.https_listen is Some && p.raw_options_present,
            ArgError::PublicRawPerIpLimitWithoutOptIn => !p.allow_public_raw_ingress
                && p.max_raw_connections_per_ip is Some,
            ArgError::PublicRawOptInRequired => !p.allow_public_raw_ingress && !loopback_ip(
                p.raw_listen.ip,
            ),
            ArgError::PublicRawPerIpLimitRequired => p.allow_public_raw_ingress
                && p.max_raw_connections_per_ip is None,
            ArgError::PublicRawPerIpLimitInvalid => p.max_raw_connections_per_ip == Some(0usize)
                || p.max_raw_connections_per_ip->0 > p.max_raw_connections,
            _ => false,
        },
        https_exposure(p) matches Err(error) ==> match error {
            ArgError::PublicHttpsPerIpLimitWithoutOptIn => p.max_http_connections_per_ip is Some
                && (p.https_listen is None || !p.allow_public_https_ingress),
            ArgError::PublicHttpsOptInRequired => !p.allow_public_https_ingress && p.https_listen
                is Some && !loopback_ip(p.https_listen->0.ip),
            ArgError::PublicHttpsPerIpLimitRequired => p.allow_public_https_ingress
                && p.max_http_connections_per_ip is None,
            ArgError::PublicHttpsPerIpLimitInvalid => p.max_http_connections_per_ip == Some(0usize)
                || p.max_http_connections_per_ip->0 > p.max_http_connections,
            _ => false,
        },
        p.https_listen is Some && p.allow_public_https_ingress ==> (https_exposure(p) is Ok
            <==> p.max_http_connections_per_ip is Some && 1 <= p.max_http_connections_per_ip->0
            <= p.max_http_connections),
        p.https_listen is Some && !p.raw_options_present ==> raw_exposure(p) is Ok
            && raw_exposure(p)->Ok_0 is LoopbackOnly,
{
}

} // verus!
