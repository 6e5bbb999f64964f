//! Counters of the HTTPS ingress, and the reports made from them.

use vstd::prelude::*;

use crate::http_rate_limit::{HttpRateLimiterStatus, HttpRequestRateLimiter};
use crate::http_request::NegotiatedHttpProtocol;
use crate::net::SocketAddr;
use crate::shutdown::RuntimeShutdownOutcome;

verus! {

/// One more, wrapping around.
pub open spec fn bumped(n: u64) -> u64 {
    if n == u64::MAX { 0 } else { (n + 1) as u64 }
}

/// One more, wrapping around.
pub open spec fn entered(n: usize) -> usize {
    if n == usize::MAX { 0 } else { (n + 1) as usize }
}

/// One less, wrapping around.
pub open spec fn left(n: usize) -> usize {
    if n == 0 { usize::MAX } else { (n - 1) as usize }
}

/// The larger of two counts.
pub open spec fn peak_of(peak: usize, now: usize) -> usize {
    if peak >= now { peak } else { now }
}

/// One more, wrapping around.
pub fn bump(n: u64) -> (more: u64)
    ensures
        more == bumped(n),
{
    if n == u64::MAX {
        0
    } else {
        n + 1
    }
}

/// One more, wrapping around.
pub fn enter(n: usize) -> (more: usize)
    ensures
        more == entered(n),
{
    if n == usize::MAX {
        0
    } else {
        n + 1
    }
}

/// One less, wrapping around.
pub fn leave(n: usize) -> (less: usize)
    ensures
        less == left(n),
{
    if n == 0 {
        usize::MAX
    } else {
        n - 1
    }
}

/// The larger of two counts.
pub fn larger(peak: usize, now: usize) -> (larger: usize)
    ensures
        larger == peak_of(peak, now),
{
    if peak >= now {
        peak
    } else {
        now
    }
}

/// What the ingress counts.
#[derive(Debug, Clone, Copy, PartialEq, Eq, Structural)]
pub struct HttpIngressCounters {
    pub active_connections: usize,
    pub accepted_connections: u64,
    pub completed_requests: u64,
    pub admitted_requests: u64,
    pub rejected_requests: u64,
    pub global_capacity_rejections: u64,
    pub per_ip_capacity_rejections: u64,
    pub tls_rejections: u64,
    pub http1_connections: u64,
    pub http2_connections: u64,
    pub active_http2_streams: usize,
    pub peak_active_http2_streams: usize,
    pub reused_requests: u64,
    pub request_timeouts: u64,
    pub accepted_websocket_upgrades: u64,
    pub rejected_websocket_upgrades: u64,
    pub active_websocket_sessions: usize,
    pub peak_active_websocket_sessions: usize,
    pub websocket_idle_timeouts: u64,
    pub accepted_http2_websocket_sessions: u64,
    pub rejected_http2_websocket_sessions: u64,
    pub active_http2_websocket_sessions: usize,
    pub peak_active_http2_websocket_sessions: usize,
    pub http2_websocket_idle_timeouts: u64,
    pub accepted_connect_sessions: u64,
    pub rejected_connect_sessions: u64,
    pub active_connect_sessions: usize,
    pub peak_active_connect_sessions: usize,
    pub connect_idle_timeouts: u64,
    pub accepted_http2_connect_sessions: u64,
    pub rejected_http2_connect_sessions: u64,
    pub active_http2_connect_sessions: usize,
    pub peak_active_http2_connect_sessions: usize,
    pub http2_connect_idle_timeouts: u64,
    pub global_rate_limit_rejections: u64,
    pub per_ip_rate_limit_rejections: u64,
    pub rate_limit_peer_capacity_rejections: u64,
    pub accepted_signed_access_requests: u64,
    pub missing_signed_access_rejections: u64,
    pub invalid_signed_access_rejections: u64,
    pub expired_signed_access_rejections: u64,
    pub reachability_probe_requests: u64,
    pub successful_reachability_probes: u64,
    pub failed_reachability_probes: u64,
}

/// Counters that have counted nothing.
pub open spec fn zero_counters() -> HttpIngressCounters {
    HttpIngressCounters {
        active_connections: 0,
        accepted_connections: 0,
        completed_requests: 0,
        admitted_requests: 0,
        rejected_requests: 0,
        global_capacity_rejections: 0,
        per_ip_capacity_rejections: 0,
        tls_rejections: 0,
        http1_connections: 0,
        http2_connections: 0,
        active_http2_streams: 0,
        peak_active_http2_streams: 0,
        reused_requests: 0,
        request_timeouts: 0,
        accepted_websocket_upgrades: 0,
        rejected_websocket_upgrades: 0,
        active_websocket_sessions: 0,
        peak_active_websocket_sessions: 0,
        websocket_idle_timeouts: 0,
        accepted_http2_websocket_sessions: 0,
        rejected_http2_websocket_sessions: 0,
        active_http2_websocket_sessions: 0,
        peak_active_http2_websocket_sessions: 0,
        http2_websocket_idle_timeouts: 0,
        accepted_connect_sessions: 0,
        rejected_connect_sessions: 0,
        active_connect_sessions: 0,
        peak_active_connect_sessions: 0,
        connect_idle_timeouts: 0,
        accepted_http2_connect_sessions: 0,
        rejected_http2_connect_sessions: 0,
        active_http2_connect_sessions: 0,
        peak_active_http2_connect_sessions: 0,
        http2_connect_idle_timeouts: 0,
        global_rate_limit_rejections: 0,
        per_ip_rate_limit_rejections: 0,
        rate_limit_peer_capacity_rejections: 0,
        accepted_signed_access_requests: 0,
        missing_signed_access_rejections: 0,
        invalid_signed_access_rejections: 0,
        expired_signed_access_rejections: 0,
        reachability_probe_requests: 0,
        successful_reachability_probes: 0,
        failed_reachability_probes: 0,
    }
}

impl Default for HttpIngressCounters {
    fn default() -> (counters: HttpIngressCounters)
        ensures
            counters == zero_counters(),
    {
        HttpIngressCounters {
            active_connections: 0,
            accepted_connections: 0,
            completed_requests: 0,
            admitted_requests: 0,
            rejected_requests: 0,
            global_capacity_rejections: 0,
            per_ip_capacity_rejections: 0,
            tls_rejections: 0,
            http1_connections: 0,
            http2_connections: 0,
            active_http2_streams: 0,
            peak_active_http2_streams: 0,
            reused_requests: 0,
            request_timeouts: 0,
            accepted_websocket_upgrades: 0,
            rejected_websocket_upgrades: 0,
            active_websocket_sessions: 0,
            peak_active_websocket_sessions: 0,
            websocket_idle_timeouts: 0,
            accepted_http2_websocket_sessions: 0,
            rejected_http2_websocket_sessions: 0,
            active_http2_websocket_sessions: 0,
            peak_active_http2_websocket_sessions: 0,
            http2_websocket_idle_timeouts: 0,
            accepted_connect_sessions: 0,
            rejected_connect_sessions: 0,
            active_connect_sessions: 0,
            peak_active_connect_sessions: 0,
            connect_idle_timeouts: 0,
            accepted_http2_connect_sessions: 0,
            rejected_http2_connect_sessions: 0,
            active_http2_connect_sessions: 0,
            peak_active_http2_connect_sessions: 0,
            http2_connect_idle_timeouts: 0,
            global_rate_limit_rejections: 0,
            per_ip_rate_limit_rejections: 0,
            rate_limit_peer_capacity_rejections: 0,
            accepted_signed_access_requests: 0,
            missing_signed_access_rejections: 0,
            invalid_signed_access_rejections: 0,
            expired_signed_access_rejections: 0,
            reachability_probe_requests: 0,
            successful_reachability_probes: 0,
            failed_reachability_probes: 0,
        }
    }
}

/// How far the reloading of the key ring has come.
#[derive(Debug, Clone, Copy, PartialEq, Eq, Structural)]
pub struct SignedAccessReloadStatus {
    pub generation: u64,
    pub reload_failed: bool,
    pub successful_reloads: u64,
    pub failed_reloads: u64,
}

/// What the ingress reports at one moment.
#[derive(Debug, Clone, Copy, PartialEq, Eq, Structural)]
pub struct HttpIngressStatus {
    pub active_connections: usize,
    pub accepted_connections: u64,
    pub completed_requests: u64,
    pub admitted_requests: u64,
    pub rejected_requests: u64,
    pub global_capacity_rejections: u64,
    pub per_ip_capacity_rejections: u64,
    pub tls_rejections: u64,
    pub http1_connections: u64,
    pub http2_connections: u64,
    pub active_http2_streams: usize,
    pub peak_active_http2_streams: usize,
    pub reused_requests: u64,
    pub request_timeouts: u64,
    pub accepted_websocket_upgrades: u64,
    pub rejected_websocket_upgrades: u64,
    pub active_websocket_sessions: usize,
    pub peak_active_websocket_sessions: usize,
    pub websocket_idle_timeouts: u64,
    pub accepted_http2_websocket_sessions: u64,
    pub rejected_http2_websocket_sessions: u64,
    pub active_http2_websocket_sessions: usize,
    pub peak_active_http2_websocket_sessions: usize,
    pub http2_websocket_idle_timeouts: u64,
    pub accepted_connect_sessions: u64,
    pub rejected_connect_sessions: u64,
    pub active_connect_sessions: usize,
    pub peak_active_connect_sessions: usize,
    pub connect_idle_timeouts: u64,
    pub accepted_http2_connect_sessions: u64,
    pub rejected_http2_connect_sessions: u64,
    pub active_http2_connect_sessions: usize,
    pub peak_active_http2_connect_sessions: usize,
    pub http2_connect_idle_timeouts: u64,
    pub global_rate_limit_rejections: u64,
    pub per_ip_rate_limit_rejections: u64,
    pub rate_limit_peer_capacity_rejections: u64,
    pub accepted_signed_access_requests: u64,
    pub missing_signed_access_rejections: u64,
    pub invalid_signed_access_rejections: u64,
    pub expired_signed_access_rejections: u64,
    pub reachability_probe_requests: u64,
    pub successful_reachability_probes: u64,
    pub failed_reachability_probes: u64,
    pub signed_access_keyring_generation: u64,
    pub signed_access_keyring_reload_failed: bool,
    pub signed_access_keyring_reload_successes: u64,
    pub signed_access_keyring_reload_failures: u64,
    pub tracked_rate_limit_peers: usize,
    pub peak_tracked_rate_limit_peers: usize,
}

impl Default for HttpIngressStatus {
    fn default() -> (status: HttpIngressStatus)
        ensures
            status == status_of(
                zero_counters(),
                HttpRateLimiterStatus { tracked_peer_ips: 0, peak_tracked_peer_ips: 0 },
                None,
            ),
    {
        HttpIngressStatus {
            active_connections: 0,
            accepted_connections: 0,
            completed_requests: 0,
            admitted_requests: 0,
            rejected_requests: 0,
            global_capacity_rejections: 0,
            per_ip_capacity_rejections: 0,
            tls_rejections: 0,
            http1_connections: 0,
            http2_connections: 0,
            active_http2_streams: 0,
            peak_active_http2_streams: 0,
            reused_requests: 0,
            request_timeouts: 0,
            accepted_websocket_upgrades: 0,
            rejected_websocket_upgrades: 0,
            active_websocket_sessions: 0,
            peak_active_websocket_sessions: 0,
            websocket_idle_timeouts: 0,
            accepted_http2_websocket_sessions: 0,
            rejected_http2_websocket_sessions: 0,
            active_http2_websocket_sessions: 0,
            peak_active_http2_websocket_sessions: 0,
            http2_websocket_idle_timeouts: 0,
            accepted_connect_sessions: 0,
            rejected_connect_sessions: 0,
            active_connect_sessions: 0,
            peak_active_connect_sessions: 0,
            connect_idle_timeouts: 0,
            accepted_http2_connect_sessions: 0,
            rejected_http2_connect_sessions: 0,
            active_http2_connect_sessions: 0,
            peak_active_http2_connect_sessions: 0,
            http2_connect_idle_timeouts: 0,
            global_rate_limit_rejections: 0,
            per_ip_rate_limit_rejections: 0,
            rate_limit_peer_capacity_rejections: 0,
            accepted_signed_access_requests: 0,
            missing_signed_access_rejections: 0,
            invalid_signed_access_rejections: 0,
            expired_signed_access_rejections: 0,
            reachability_probe_requests: 0,
            successful_reachability_probes: 0,
            failed_reachability_probes: 0,
            signed_access_keyring_generation: 0,
            signed_access_keyring_reload_failed: false,
            signed_access_keyring_reload_successes: 0,
            signed_access_keyring_reload_failures: 0,
            tracked_rate_limit_peers: 0,
            peak_tracked_rate_limit_peers: 0,
        }
    }
}

/// The report for counters, a rate limiter and a key ring.
pub open spec fn status_of(
    counters: HttpIngressCounters,
    rate: HttpRateLimiterStatus,
    reload: Option<SignedAccessReloadStatus>,
) -> HttpIngressStatus {
    HttpIngressStatus {
        active_connections: counters.active_connections,
        accepted_connections: counters.accepted_connections,
        completed_requests: counters.completed_requests,
        admitted_requests: counters.admitted_requests,
        rejected_requests: counters.rejected_requests,
        global_capacity_rejections: counters.global_capacity_rejections,
        per_ip_capacity_rejections: counters.per_ip_capacity_rejections,
        tls_rejections: counters.tls_rejections,
        http1_connections: counters.http1_connections,
        http2_connections: counters.http2_connections,
        active_http2_streams: counters.active_http2_streams,
        peak_active_http2_streams: counters.peak_active_http2_streams,
        reused_requests: counters.reused_requests,
        request_timeouts: counters.request_timeouts,
        accepted_websocket_upgrades: counters.accepted_websocket_upgrades,
        rejected_websocket_upgrades: counters.rejected_websocket_upgrades,
        active_websocket_sessions: counters.active_websocket_sessions,
        peak_active_websocket_sessions: counters.peak_active_websocket_sessions,
        websocket_idle_timeouts: counters.websocket_idle_timeouts,
        accepted_http2_websocket_sessions: counters.accepted_http2_websocket_sessions,
        rejected_http2_websocket_sessions: counters.rejected_http2_websocket_sessions,
        active_http2_websocket_sessions: counters.active_http2_websocket_sessions,
        peak_active_http2_websocket_sessions: counters.peak_active_http2_websocket_sessions,
        http2_websocket_idle_timeouts: counters.http2_websocket_idle_timeouts,
        accepted_connect_sessions: counters.accepted_connect_sessions,
        rejected_connect_sessions: counters.rejected_connect_sessions,
        active_connect_sessions: counters.active_connect_sessions,
        peak_active_connect_sessions: counters.peak_active_connect_sessions,
        connect_idle_timeouts: counters.connect_idle_timeouts,
        accepted_http2_connect_sessions: counters.accepted_http2_connect_sessions,
        rejected_http2_connect_sessions: counters.rejected_http2_connect_sessions,
        active_http2_connect_sessions: counters.active_http2_connect_sessions,
        peak_active_http2_connect_sessions: counters.peak_active_http2_connect_sessions,
        http2_connect_idle_timeouts: counters.http2_connect_idle_timeouts,
        global_rate_limit_rejections: counters.global_rate_limit_rejections,
        per_ip_rate_limit_rejections: counters.per_ip_rate_limit_rejections,
        rate_limit_peer_capacity_rejections: counters.rate_limit_peer_capacity_rejections,
        accepted_signed_access_requests: counters.accepted_signed_access_requests,
        missing_signed_access_rejections: counters.missing_signed_access_rejections,
        invalid_signed_access_rejections: counters.invalid_signed_access_rejections,
        expired_signed_access_rejections: counters.expired_signed_access_rejections,
        reachability_probe_requests: counters.reachability_probe_requests,
        successful_reachability_probes: counters.successful_reachability_probes,
        failed_reachability_probes: counters.failed_reachability_probes,
        signed_access_keyring_generation: if reload is Some { reload->0.generation } else { 0 },
        signed_access_keyring_reload_failed: if reload is Some { reload->0.reload_failed } else { false },
        signed_access_keyring_reload_successes: if reload is Some { reload->0.successful_reloads } else { 0 },
        signed_access_keyring_reload_failures: if reload is Some { reload->0.failed_reloads } else { 0 },
        tracked_rate_limit_peers: rate.tracked_peer_ips,
        peak_tracked_rate_limit_peers: rate.peak_tracked_peer_ips,
    }
}

/// What the ingress's state is read from.
#[derive(Debug)]
pub struct HttpIngressStatusHandle {
    pub counters: HttpIngressCounters,
    pub rate_limiter: HttpRequestRateLimiter,
    pub signed_access_reload: Option<SignedAccessReloadStatus>,
}

impl HttpIngressStatusHandle {
    /// What the ingress reports now.
    pub fn snapshot(&self) -> (status: HttpIngressStatus)
        ensures
            status == status_of(
                self.counters,
                HttpRateLimiterStatus {
                    tracked_peer_ips: self.rate_limiter@.peers.len() as usize,
                    peak_tracked_peer_ips: self.rate_limiter@.peak as usize,
                },
                self.signed_access_reload,
            ),
    {
        let rate: HttpRateLimiterStatus = self.rate_limiter.status();
        let counters: HttpIngressCounters = self.counters;
        let reload: SignedAccessReloadStatus = match self.signed_access_reload {
            Some(status) => status,
            None => SignedAccessReloadStatus {
                generation: 0,
                reload_failed: false,
                successful_reloads: 0,
                failed_reloads: 0,
            },
        };
        HttpIngressStatus {
            active_connections: counters.active_connections,
            accepted_connections: counters.accepted_connections,
            completed_requests: counters.completed_requests,
            admitted_requests: counters.admitted_requests,
            rejected_requests: counters.rejected_requests,
            global_capacity_rejections: counters.global_capacity_rejections,
            per_ip_capacity_rejections: counters.per_ip_capacity_rejections,
            tls_rejections: counters.tls_rejections,
            http1_connections: counters.http1_connections,
            http2_connections: counters.http2_connections,
            active_http2_streams: counters.active_http2_streams,
            peak_active_http2_streams: counters.peak_active_http2_streams,
            reused_requests: counters.reused_requests,
            request_timeouts: counters.request_timeouts,
            accepted_websocket_upgrades: counters.accepted_websocket_upgrades,
            rejected_websocket_upgrades: counters.rejected_websocket_upgrades,
            active_websocket_sessions: counters.active_websocket_sessions,
            peak_active_websocket_sessions: counters.peak_active_websocket_sessions,
            websocket_idle_timeouts: counters.websocket_idle_timeouts,
            accepted_http2_websocket_sessions: counters.accepted_http2_websocket_sessions,
            rejected_http2_websocket_sessions: counters.rejected_http2_websocket_sessions,
            active_http2_websocket_sessions: counters.active_http2_websocket_sessions,
            peak_active_http2_websocket_sessions: counters.peak_active_http2_websocket_sessions,
            http2_websocket_idle_timeouts: counters.http2_websocket_idle_timeouts,
            accepted_connect_sessions: counters.accepted_connect_sessions,
            rejected_connect_sessions: counters.rejected_connect_sessions,
            active_connect_sessions: counters.active_connect_sessions,
            peak_active_connect_sessions: counters.peak_active_connect_sessions,
            connect_idle_timeouts: counters.connect_idle_timeouts,
            accepted_http2_connect_sessions: counters.accepted_http2_connect_sessions,
            rejected_http2_connect_sessions: counters.rejected_http2_connect_sessions,
            active_http2_connect_sessions: counters.active_http2_connect_sessions,
            peak_active_http2_connect_sessions: counters.peak_active_http2_connect_sessions,
            http2_connect_idle_timeouts: counters.http2_connect_idle_timeouts,
            global_rate_limit_rejections: counters.global_rate_limit_rejections,
            per_ip_rate_limit_rejections: counters.per_ip_rate_limit_rejections,
            rate_limit_peer_capacity_rejections: counters.rate_limit_peer_capacity_rejections,
            accepted_signed_access_requests: counters.accepted_signed_access_requests,
            missing_signed_access_rejections: counters.missing_signed_access_rejections,
            invalid_signed_access_rejections: counters.invalid_signed_access_rejections,
            expired_signed_access_rejections: counters.expired_signed_access_rejections,
            reachability_probe_requests: counters.reachability_probe_requests,
            successful_reachability_probes: counters.successful_reachability_probes,
            failed_reachability_probes: counters.failed_reachability_probes,
            signed_access_keyring_generation: reload.generation,
            signed_access_keyring_reload_failed: reload.reload_failed,
            signed_access_keyring_reload_successes: reload.successful_reloads,
            signed_access_keyring_reload_failures: reload.failed_reloads,
            tracked_rate_limit_peers: rate.tracked_peer_ips,
            peak_tracked_rate_limit_peers: rate.peak_tracked_peer_ips,
        }
    }
}

/// What the ingress did, once it has stopped.
#[derive(Debug, Clone, Copy, PartialEq, Eq, Structural)]
pub struct HttpIngressOutcome {
    pub local_addr: SocketAddr,
    pub accepted_connections: u64,
    pub completed_requests: u64,
    pub admitted_requests: u64,
    pub rejected_requests: u64,
    pub global_capacity_rejections: u64,
    pub per_ip_capacity_rejections: u64,
    pub tls_rejections: u64,
    pub http1_connections: u64,
    pub http2_connections: u64,
    pub peak_active_http2_streams: usize,
    pub reused_requests: u64,
    pub request_timeouts: u64,
    pub accepted_websocket_upgrades: u64,
    pub rejected_websocket_upgrades: u64,
    pub peak_active_websocket_sessions: usize,
    pub websocket_idle_timeouts: u64,
    pub accepted_http2_websocket_sessions: u64,
    pub rejected_http2_websocket_sessions: u64,
    pub peak_active_http2_websocket_sessions: usize,
    pub http2_websocket_idle_timeouts: u64,
    pub accepted_connect_sessions: u64,
    pub rejected_connect_sessions: u64,
    pub peak_active_connect_sessions: usize,
    pub connect_idle_timeouts: u64,
    pub accepted_http2_connect_sessions: u64,
    pub rejected_http2_connect_sessions: u64,
    pub peak_active_http2_connect_sessions: usize,
    pub http2_connect_idle_timeouts: u64,
    pub global_rate_limit_rejections: u64,
    pub per_ip_rate_limit_rejections: u64,
    pub rate_limit_peer_capacity_rejections: u64,
    pub accepted_signed_access_requests: u64,
    pub missing_signed_access_rejections: u64,
    pub invalid_signed_access_rejections: u64,
    pub expired_signed_access_rejections: u64,
    pub reachability_probe_requests: u64,
    pub successful_reachability_probes: u64,
    pub failed_reachability_probes: u64,
    pub tracked_rate_limit_peers: usize,
    pub peak_tracked_rate_limit_peers: usize,
    pub shutdown: RuntimeShutdownOutcome,
}

/// The outcome of a run that left that report.
pub open spec fn outcome_of(
    local_addr: SocketAddr,
    status: HttpIngressStatus,
    shutdown: RuntimeShutdownOutcome,
) -> HttpIngressOutcome {
    HttpIngressOutcome {
        local_addr,
        accepted_connections: status.accepted_connections,
        completed_requests: status.completed_requests,
        admitted_requests: status.admitted_requests,
        rejected_requests: status.rejected_requests,
        global_capacity_rejections: status.global_capacity_rejections,
        per_ip_capacity_rejections: status.per_ip_capacity_rejections,
        tls_rejections: status.tls_rejections,
        http1_connections: status.http1_connections,
        http2_connections: status.http2_connections,
        peak_active_http2_streams: status.peak_active_http2_streams,
        reused_requests: status.reused_requests,
        request_timeouts: status.request_timeouts,
        accepted_websocket_upgrades: status.accepted_websocket_upgrades,
        rejected_websocket_upgrades: status.rejected_websocket_upgrades,
        peak_active_websocket_sessions: status.peak_active_websocket_sessions,
        websocket_idle_timeouts: status.websocket_idle_timeouts,
        accepted_http2_websocket_sessions: status.accepted_http2_websocket_sessions,
        rejected_http2_websocket_sessions: status.rejected_http2_websocket_sessions,
        peak_active_http2_websocket_sessions: status.peak_active_http2_websocket_sessions,
        http2_websocket_idle_timeouts: status.http2_websocket_idle_timeouts,
        accepted_connect_sessions: status.accepted_connect_sessions,
        rejected_connect_sessions: status.rejected_connect_sessions,
        peak_active_connect_sessions: status.peak_active_connect_sessions,
        connect_idle_timeouts: status.connect_idle_timeouts,
        accepted_http2_connect_sessions: status.accepted_http2_connect_sessions,
        rejected_http2_connect_sessions: status.rejected_http2_connect_sessions,
        peak_active_http2_connect_sessions: status.peak_active_http2_connect_sessions,
        http2_connect_idle_timeouts: status.http2_connect_idle_timeouts,
        global_rate_limit_rejections: status.global_rate_limit_rejections,
        per_ip_rate_limit_rejections: status.per_ip_rate_limit_rejections,
        rate_limit_peer_capacity_rejections: status.rate_limit_peer_capacity_rejections,
        accepted_signed_access_requests: status.accepted_signed_access_requests,
        missing_signed_access_rejections: status.missing_signed_access_rejections,
        invalid_signed_access_rejections: status.invalid_signed_access_rejections,
        expired_signed_access_rejections: status.expired_signed_access_rejections,
        reachability_probe_requests: status.reachability_probe_requests,
        successful_reachability_probes: status.successful_reachability_probes,
        failed_reachability_probes: status.failed_reachability_probes,
        tracked_rate_limit_peers: status.tracked_rate_limit_peers,
        peak_tracked_rate_limit_peers: status.peak_tracked_rate_limit_peers,
        shutdown,
    }
}

impl HttpIngressOutcome {
    /// The outcome of a run that left that report.
    pub fn new(
        local_addr: SocketAddr,
        status: HttpIngressStatus,
        shutdown: RuntimeShutdownOutcome,
    ) -> (outcome: HttpIngressOutcome)
        ensures
            outcome == outcome_of(local_addr, status, shutdown),
    {
        HttpIngressOutcome {
            local_addr,
            accepted_connections: status.accepted_connections,
            completed_requests: status.completed_requests,
            admitted_requests: status.admitted_requests,
            rejected_requests: status.rejected_requests,
            global_capacity_rejections: status.global_capacity_rejections,
            per_ip_capacity_rejections: status.per_ip_capacity_rejections,
            tls_rejections: status.tls_rejections,
            http1_connections: status.http1_connections,
            http2_connections: status.http2_connections,
            peak_active_http2_streams: status.peak_active_http2_streams,
            reused_requests: status.reused_requests,
            request_timeouts: status.request_timeouts,
            accepted_websocket_upgrades: status.accepted_websocket_upgrades,
            rejected_websocket_upgrades: status.rejected_websocket_upgrades,
            peak_active_websocket_sessions: status.peak_active_websocket_sessions,
            websocket_idle_timeouts: status.websocket_idle_timeouts,
            accepted_http2_websocket_sessions: status.accepted_http2_websocket_sessions,
            rejected_http2_websocket_sessions: status.rejected_http2_websocket_sessions,
            peak_active_http2_websocket_sessions: status.peak_active_http2_websocket_sessions,
            http2_websocket_idle_timeouts: status.http2_websocket_idle_timeouts,
            accepted_connect_sessions: status.accepted_connect_sessions,
            rejected_connect_sessions: status.rejected_connect_sessions,
            peak_active_connect_sessions: status.peak_active_connect_sessions,
            connect_idle_timeouts: status.connect_idle_timeouts,
            accepted_http2_connect_sessions: status.accepted_http2_connect_sessions,
            rejected_http2_connect_sessions: status.rejected_http2_connect_sessions,
            peak_active_http2_connect_sessions: status.peak_active_http2_connect_sessions,
            http2_connect_idle_timeouts: status.http2_connect_idle_timeouts,
            global_rate_limit_rejections: status.global_rate_limit_rejections,
            per_ip_rate_limit_rejections: status.per_ip_rate_limit_rejections,
            rate_limit_peer_capacity_rejections: status.rate_limit_peer_capacity_rejections,
            accepted_signed_access_requests: status.accepted_signed_access_requests,
            missing_signed_access_rejections: status.missing_signed_access_rejections,
            invalid_signed_access_rejections: status.invalid_signed_access_rejections,
            expired_signed_access_rejections: status.expired_signed_access_rejections,
            reachability_probe_requests: status.reachability_probe_requests,
            successful_reachability_probes: status.successful_reachability_probes,
            failed_reachability_probes: status.failed_reachability_probes,
            tracked_rate_limit_peers: status.tracked_rate_limit_peers,
            peak_tracked_rate_limit_peers: status.peak_tracked_rate_limit_peers,
            shutdown,
        }
    }

    /// Whether connections had to be aborted.
    pub fn was_forced(self) -> (forced: bool)
        ensures
            forced == self.shutdown is Forced,
    {
        self.shutdown.was_forced()
    }
}

/// The counters while one connection more is open.
pub open spec fn connection_opened(counters: HttpIngressCounters) -> HttpIngressCounters {
    HttpIngressCounters { active_connections: entered(counters.active_connections), ..counters }
}

/// The counters once one connection has closed.
pub open spec fn connection_closed(counters: HttpIngressCounters) -> HttpIngressCounters {
    HttpIngressCounters { active_connections: left(counters.active_connections), ..counters }
}

/// The counters while one HTTP/2 stream more is open.
pub open spec fn stream_opened(counters: HttpIngressCounters) -> HttpIngressCounters {
    HttpIngressCounters {
        active_http2_streams: entered(counters.active_http2_streams),
        peak_active_http2_streams: peak_of(
            counters.peak_active_http2_streams,
            entered(counters.active_http2_streams),
        ),
        ..counters
    }
}

/// The counters once one HTTP/2 stream has closed.
pub open spec fn stream_closed(counters: HttpIngressCounters) -> HttpIngressCounters {
    HttpIngressCounters { active_http2_streams: left(counters.active_http2_streams), ..counters }
}

/// The counters while one WebSocket session more is open.
pub open spec fn websocket_opened(
    counters: HttpIngressCounters,
    protocol: NegotiatedHttpProtocol,
) -> HttpIngressCounters {
    let opened = HttpIngressCounters {
        active_websocket_sessions: entered(counters.active_websocket_sessions),
        peak_active_websocket_sessions: peak_of(
            counters.peak_active_websocket_sessions,
            entered(counters.active_websocket_sessions),
        ),
        ..counters
    };
    match protocol {
        NegotiatedHttpProtocol::Http1 => opened,
        NegotiatedHttpProtocol::Http2 => HttpIngressCounters {
            active_http2_websocket_sessions: entered(counters.active_http2_websocket_sessions),
            peak_active_http2_websocket_sessions: peak_of(
                counters.peak_active_http2_websocket_sessions,
                entered(counters.active_http2_websocket_sessions),
            ),
            ..opened
        },
    }
}

/// The counters once one WebSocket session has closed.
pub open spec fn websocket_closed(
    counters: HttpIngressCounters,
    protocol: NegotiatedHttpProtocol,
) -> HttpIngressCounters {
    let closed = HttpIngressCounters {
        active_websocket_sessions: left(counters.active_websocket_sessions),
        ..counters
    };
    match protocol {
        NegotiatedHttpProtocol::Http1 => closed,
        NegotiatedHttpProtocol::Http2 => HttpIngressCounters {
            active_http2_websocket_sessions: left(counters.active_http2_websocket_sessions),
            ..closed
        },
    }
}

/// The counters while one CONNECT session more is open.
pub open spec fn connect_opened(
    counters: HttpIngressCounters,
    protocol: NegotiatedHttpProtocol,
) -> HttpIngressCounters {
    let opened = HttpIngressCounters {
        active_connect_sessions: entered(counters.active_connect_sessions),
        peak_active_connect_sessions: peak_of(
            counters.peak_active_connect_sessions,
            entered(counters.active_connect_sessions),
        ),
        ..counters
    };
    match protocol {
        NegotiatedHttpProtocol::Http1 => opened,
        NegotiatedHttpProtocol::Http2 => HttpIngressCounters {
            active_http2_connect_sessions: entered(counters.active_http2_connect_sessions),
            peak_active_http2_connect_sessions: peak_of(
                counters.peak_active_http2_connect_sessions,
                entered(counters.active_http2_connect_sessions),
            ),
            ..opened
        },
    }
}

/// The counters once one CONNECT session has closed.
pub open spec fn connect_closed(
    counters: HttpIngressCounters,
    protocol: NegotiatedHttpProtocol,
) -> HttpIngressCounters {
    let closed = HttpIngressCounters {
        active_connect_sessions: left(counters.active_connect_sessions),
        ..counters
    };
    match protocol {
        NegotiatedHttpProtocol::Http1 => closed,
        NegotiatedHttpProtocol::Http2 => HttpIngressCounters {
            active_http2_connect_sessions: left(counters.active_http2_connect_sessions),
            ..closed
        },
    }
}

/// An open connection. It is given back with [`ActiveConnectionGuard::release`].
#[derive(Debug)]
pub struct ActiveConnectionGuard;

impl ActiveConnectionGuard {
    /// Counts one connection more.
    pub fn new(counters: &mut HttpIngressCounters) -> (guard: ActiveConnectionGuard)
        ensures
            *final(counters) == connection_opened(*old(counters)),
    {
        counters.active_connections = enter(counters.active_connections);
        ActiveConnectionGuard
    }

    /// Counts one connection less.
    pub fn release(self, counters: &mut HttpIngressCounters)
        ensures
            *final(counters) == connection_closed(*old(counters)),
    {
        counters.active_connections = leave(counters.active_connections);
    }
}

/// An open HTTP/2 stream. It is given back with [`ActiveHttp2StreamGuard::release`].
#[derive(Debug)]
pub struct ActiveHttp2StreamGuard;

impl ActiveHttp2StreamGuard {
    /// Counts one stream more.
    pub fn new(counters: &mut HttpIngressCounters) -> (guard: ActiveHttp2StreamGuard)
        ensures
            *final(counters) == stream_opened(*old(counters)),
    {
        counters.active_http2_streams = enter(counters.active_http2_streams);
        counters.peak_active_http2_streams = larger(
            counters.peak_active_http2_streams,
            counters.active_http2_streams,
        );
        ActiveHttp2StreamGuard
    }

    /// Counts one stream less.
    pub fn release(self, counters: &mut HttpIngressCounters)
        ensures
            *final(counters) == stream_closed(*old(counters)),
    {
        counters.active_http2_streams = leave(counters.active_http2_streams);
    }
}

/// An open WebSocket session. It is given back with [`WebSocketSessionGuard::release`].
#[derive(Debug, PartialEq, Eq, Structural)]
pub struct WebSocketSessionGuard {
    pub protocol: NegotiatedHttpProtocol,
}

impl WebSocketSessionGuard {
    /// Counts one session more.
    pub fn new(
        counters: &mut HttpIngressCounters,
        protocol: NegotiatedHttpProtocol,
    ) -> (guard: WebSocketSessionGuard)
        ensures
            guard.protocol == protocol,
            *final(counters) == websocket_opened(*old(counters), protocol),
    {
        counters.active_websocket_sessions = enter(counters.active_websocket_sessions);
        counters.peak_active_websocket_sessions = larger(
            counters.peak_active_websocket_sessions,
            counters.active_websocket_sessions,
        );
        if protocol == NegotiatedHttpProtocol::Http2 {
            counters.active_http2_websocket_sessions = enter(
                counters.active_http2_websocket_sessions,
            );
            counters.peak_active_http2_websocket_sessions = larger(
                counters.peak_active_http2_websocket_sessions,
                counters.active_http2_websocket_sessions,
            );
        }
        WebSocketSessionGuard { protocol }
    }

    /// Counts one session less.
    pub fn release(self, counters: &mut HttpIngressCounters)
        ensures
            *final(counters) == websocket_closed(*old(counters), self.protocol),
    {
        counters.active_websocket_sessions = leave(counters.active_websocket_sessions);
        if self.protocol == NegotiatedHttpProtocol::Http2 {
            counters.active_http2_websocket_sessions = leave(
                counters.active_http2_websocket_sessions,
            );
        }
    }
}

/// An open CONNECT session. It is given back with [`ConnectSessionGuard::release`].
#[derive(Debug, PartialEq, Eq, Structural)]
pub struct ConnectSessionGuard {
    pub protocol: NegotiatedHttpProtocol,
}

impl ConnectSessionGuard {
    /// Counts one session more.
    pub fn new(
        counters: &mut HttpIngressCounters,
        protocol: NegotiatedHttpProtocol,
    ) -> (guard: ConnectSessionGuard)
        ensures
            guard.protocol == protocol,
            *final(counters) == connect_opened(*old(counters), protocol),
    {
        counters.active_connect_sessions = enter(counters.active_connect_sessions);
        counters.peak_active_connect_sessions = larger(
            counters.peak_active_connect_sessions,
            counters.active_connect_sessions,
        );
        if protocol == NegotiatedHttpProtocol::Http2 {
            counters.active_http2_connect_sessions = enter(
                counters.active_http2_connect_sessions,
            );
            counters.peak_active_http2_connect_sessions = larger(
                counters.peak_active_http2_connect_sessions,
                counters.active_http2_connect_sessions,
            );
        }
        ConnectSessionGuard { protocol }
    }

    /// Counts one session less.
    pub fn release(self, counters: &mut HttpIngressCounters)
        ensures
            *final(counters) == connect_closed(*old(counters), self.protocol),
    {
        counters.active_connect_sessions = leave(counters.active_connect_sessions);
        if self.protocol == NegotiatedHttpProtocol::Http2 {
            counters.active_http2_connect_sessions = leave(
                counters.active_http2_connect_sessions,
            );
        }
    }
}

/// What opening adds to the number of open connections, streams and sessions,
/// closing takes away again; peaks stay, and no peak is below the number that is
/// open.
pub proof fn closing_undoes_opening(
    counters: HttpIngressCounters,
    protocol: NegotiatedHttpProtocol,
)
    ensures
        connection_closed(connection_opened(counters)) == counters,
        stream_closed(stream_opened(counters)).active_http2_streams
            == counters.active_http2_streams,
        stream_opened(counters).peak_active_http2_streams >= stream_opened(
            counters,
        ).active_http2_streams,
        websocket_closed(websocket_opened(counters, protocol), protocol).active_websocket_sessions
            == counters.active_websocket_sessions,
        websocket_closed(
            websocket_opened(counters, protocol),
            protocol,
        ).active_http2_websocket_sessions == counters.active_http2_websocket_sessions,
        websocket_opened(counters, protocol).peak_active_websocket_sessions >= websocket_opened(
            counters,
            protocol,
        ).active_websocket_sessions,
        connect_closed(connect_opened(counters, protocol), protocol).active_connect_sessions
            == counters.active_connect_sessions,
        connect_closed(connect_opened(counters, protocol), protocol).active_http2_connect_sessions
            == counters.active_http2_connect_sessions,
        connect_opened(counters, protocol).peak_active_connect_sessions >= connect_opened(
            counters,
            protocol,
        ).active_connect_sessions,
{
}

/// A report shows every counter as it stands, under its own name, with the peers that the
/// rate limiter remembers and how the key ring was reloaded.
pub proof fn reports_show_every_counter(
    counters: HttpIngressCounters,
    rate: HttpRateLimiterStatus,
    reload: Option<SignedAccessReloadStatus>,
)
    ensures
        status_of(counters, rate, reload).active_connections == counters.active_connections,
        status_of(counters, rate, reload).accepted_connections == counters.accepted_connections,
        status_of(counters, rate, reload).completed_requests == counters.completed_requests,
        status_of(counters, rate, reload).admitted_requests == counters.admitted_requests,
        status_of(counters, rate, reload).rejected_requests == counters.rejected_requests,
        status_of(counters, rate, reload).global_capacity_rejections == counters.global_capacity_rejections,
        status_of(counters, rate, reload).per_ip_capacity_rejections == counters.per_ip_capacity_rejections,
        status_of(counters, rate, reload).tls_rejections == counters.tls_rejections,
        status_of(counters, rate, reload).http1_connections == counters.http1_connections,
        status_of(counters, rate, reload).http2_connections == counters.http2_connections,
        status_of(counters, rate, reload).active_http2_streams == counters.active_http2_streams,
        status_of(counters, rate, reload).peak_active_http2_streams == counters.peak_active_http2_streams,
        status_of(counters, rate, reload).reused_requests == counters.reused_requests,
        status_of(counters, rate, reload).request_timeouts == counters.request_timeouts,
        status_of(counters, rate, reload).accepted_websocket_upgrades == counters.accepted_websocket_upgrades,
        status_of(counters, rate, reload).rejected_websocket_upgrades == counters.rejected_websocket_upgrades,
        status_of(counters, rate, reload).active_websocket_sessions == counters.active_websocket_sessions,
        status_of(counters, rate, reload).peak_active_websocket_sessions == counters.peak_active_websocket_sessions,
        status_of(counters, rate, reload).websocket_idle_timeouts == counters.websocket_idle_timeouts,
        status_of(counters, rate, reload).accepted_http2_websocket_sessions == counters.accepted_http2_websocket_sessions,
        status_of(counters, rate, reload).rejected_http2_websocket_sessions == counters.rejected_http2_websocket_sessions,
        status_of(counters, rate, reload).active_http2_websocket_sessions == counters.active_http2_websocket_sessions,
        status_of(counters, rate, reload).peak_active_http2_websocket_sessions == counters.peak_active_http2_websocket_sessions,
        status_of(counters, rate, reload).http2_websocket_idle_timeouts == counters.http2_websocket_idle_timeouts,
        status_of(counters, rate, reload).accepted_connect_sessions == counters.accepted_connect_sessions,
        status_of(counters, rate, reload).rejected_connect_sessions == counters.rejected_connect_sessions,
        status_of(counters, rate, reload).active_connect_sessions == counters.active_connect_sessions,
        status_of(counters, rate, reload).peak_active_connect_sessions == counters.peak_active_connect_sessions,
        status_of(counters, rate, reload).connect_idle_timeouts == counters.connect_idle_timeouts,
        status_of(counters, rate, reload).accepted_http2_connect_sessions == counters.accepted_http2_connect_sessions,
        status_of(counters, rate, reload).rejected_http2_connect_sessions == counters.rejected_http2_connect_sessions,
        status_of(counters, rate, reload).active_http2_connect_sessions == counters.active_http2_connect_sessions,
        status_of(counters, rate, reload).peak_active_http2_connect_sessions == counters.peak_active_http2_connect_sessions,
        status_of(counters, rate, reload).http2_connect_idle_timeouts == counters.http2_connect_idle_timeouts,
        status_of(counters, rate, reload).global_rate_limit_rejections == counters.global_rate_limit_rejections,
        status_of(counters, rate, reload).per_ip_rate_limit_rejections == counters.per_ip_rate_limit_rejections,
        status_of(counters, rate, reload).rate_limit_peer_capacity_rejections == counters.rate_limit_peer_capacity_rejections,
        status_of(counters, rate, reload).accepted_signed_access_requests == counters.accepted_signed_access_requests,
        status_of(counters, rate, reload).missing_signed_access_rejections == counters.missing_signed_access_rejections,
        status_of(counters, rate, reload).invalid_signed_access_rejections == counters.invalid_signed_access_rejections,
        status_of(counters, rate, reload).expired_signed_access_rejections == counters.expired_signed_access_rejections,
        status_of(counters, rate, reload).reachability_probe_requests == counters.reachability_probe_requests,
        status_of(counters, rate, reload).successful_reachability_probes == counters.successful_reachability_probes,
        status_of(counters, rate, reload).failed_reachability_probes == counters.failed_reachability_probes,
        status_of(counters, rate, reload).tracked_rate_limit_peers == rate.tracked_peer_ips,
        status_of(counters, rate, reload).peak_tracked_rate_limit_peers
            == rate.peak_tracked_peer_ips,
        reload matches Some(reload) ==> status_of(
            counters,
            rate,
            Some(reload),
        ).signed_access_keyring_generation == reload.generation,
{
}

/// An outcome keeps the last report, and says how the ingress was shut down.
pub proof fn outcomes_keep_the_last_report(
    local_addr: SocketAddr,
    status: HttpIngressStatus,
    shutdown: RuntimeShutdownOutcome,
)
    ensures
        outcome_of(local_addr, status, shutdown).accepted_connections == status.accepted_connections,
        outcome_of(local_addr, status, shutdown).completed_requests == status.completed_requests,
        outcome_of(local_addr, status, shutdown).admitted_requests == status.admitted_requests,
        outcome_of(local_addr, status, shutdown).rejected_requests == status.rejected_requests,
        outcome_of(local_addr, status, shutdown).global_capacity_rejections == status.global_capacity_rejections,
        outcome_of(local_addr, status, shutdown).per_ip_capacity_rejections == status.per_ip_capacity_rejections,
        outcome_of(local_addr, status, shutdown).tls_rejections == status.tls_rejections,
        outcome_of(local_addr, status, shutdown).http1_connections == status.http1_connections,
        outcome_of(local_addr, status, shutdown).http2_connections == status.http2_connections,
        outcome_of(local_addr, status, shutdown).peak_active_http2_streams == status.peak_active_http2_streams,
        outcome_of(local_addr, status, shutdown).reused_requests == status.reused_requests,
        outcome_of(local_addr, status, shutdown).request_timeouts == status.request_timeouts,
        outcome_of(local_addr, status, shutdown).accepted_websocket_upgrades == status.accepted_websocket_upgrades,
        outcome_of(local_addr, status, shutdown).rejected_websocket_upgrades == status.rejected_websocket_upgrades,
        outcome_of(local_addr, status, shutdown).peak_active_websocket_sessions == status.peak_active_websocket_sessions,
        outcome_of(local_addr, status, shutdown).websocket_idle_timeouts == status.websocket_idle_timeouts,
        outcome_of(local_addr, status, shutdown).accepted_http2_websocket_sessions == status.accepted_http2_websocket_sessions,
        outcome_of(local_addr, status, shutdown).rejected_http2_websocket_sessions == status.rejected_http2_websocket_sessions,
        outcome_of(local_addr, status, shutdown).peak_active_http2_websocket_sessions == status.peak_active_http2_websocket_sessions,
        outcome_of(local_addr, status, shutdown).http2_websocket_idle_timeouts == status.http2_websocket_idle_timeouts,
        outcome_of(local_addr, status, shutdown).accepted_connect_sessions == status.accepted_connect_sessions,
        outcome_of(local_addr, status, shutdown).rejected_connect_sessions == status.rejected_connect_sessions,
        outcome_of(local_addr, status, shutdown).peak_active_connect_sessions == status.peak_active_connect_sessions,
        outcome_of(local_addr, status, shutdown).connect_idle_timeouts == status.connect_idle_timeouts,
        outcome_of(local_addr, status, shutdown).accepted_http2_connect_sessions == status.accepted_http2_connect_sessions,
        outcome_of(local_addr, status, shutdown).rejected_http2_connect_sessions == status.rejected_http2_connect_sessions,
        outcome_of(local_addr, status, shutdown).peak_active_http2_connect_sessions == status.peak_active_http2_connect_sessions,
        outcome_of(local_addr, status, shutdown).http2_connect_idle_timeouts == status.http2_connect_idle_timeouts,
        outcome_of(local_addr, status, shutdown).global_rate_limit_rejections == status.global_rate_limit_rejections,
        outcome_of(local_addr, status, shutdown).per_ip_rate_limit_rejections == status.per_ip_rate_limit_rejections,
        outcome_of(local_addr, status, shutdown).rate_limit_peer_capacity_rejections == status.rate_limit_peer_capacity_rejections,
        outcome_of(local_addr, status, shutdown).accepted_signed_access_requests == status.accepted_signed_access_requests,
        outcome_of(local_addr, status, shutdown).missing_signed_access_rejections == status.missing_signed_access_rejections,
        outcome_of(local_addr, status, shutdown).invalid_signed_access_rejections == status.invalid_signed_access_rejections,
        outcome_of(local_addr, status, shutdown).expired_signed_access_rejections == status.expired_signed_access_rejections,
        outcome_of(local_addr, status, shutdown).reachability_probe_requests == status.reachability_probe_requests,
        outcome_of(local_addr, status, shutdown).successful_reachability_probes == status.successful_reachability_probes,
        outcome_of(local_addr, status, shutdown).failed_reachability_probes == status.failed_reachability_probes,
        outcome_of(local_addr, status, shutdown).tracked_rate_limit_peers == status.tracked_rate_limit_peers,
        outcome_of(local_addr, status, shutdown).peak_tracked_rate_limit_peers == status.peak_tracked_rate_limit_peers,
        outcome_of(local_addr, status, shutdown).local_addr == local_addr,
        outcome_of(local_addr, status, shutdown).shutdown == shutdown,
{
}

/// Counters go up by one and active counts down by one, and a peak is never less than what
/// it is the peak of.
pub proof fn counting_is_by_one(n: u64, active: usize, peak: usize)
    ensures
        n < u64::MAX ==> bumped(n) == n + 1,
        active < usize::MAX ==> entered(active) == active + 1,
        active > 0 ==> left(active) == active - 1,
        peak_of(peak, active) >= peak,
        peak_of(peak, active) >= active,
        peak_of(peak, active) == peak || peak_of(peak, active) == active,
{
}

} // verus!
