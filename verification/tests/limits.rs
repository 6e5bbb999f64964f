//! Bounds on sources, requests and connections.

use tunnelproxy_edge::admission::PeerAdmission;
use tunnelproxy_edge::clock::{Duration, Instant};
use tunnelproxy_edge::http_rate_limit::{
    HttpRateLimitRejection, HttpRequestRateLimiter, TokenBucket,
};
use tunnelproxy_edge::net::{IpAddr, SocketAddr};
use tunnelproxy_edge::{
    HttpRequestRateLimitConfig, HttpRequestRateLimitConfigError, MAX_HTTP_RATE_LIMIT_IDLE,
    MAX_HTTP_RATE_LIMIT_PEERS, MAX_HTTP_REQUESTS_PER_SECOND, MAX_HTTP_REQUEST_BURST,
    MIN_HTTP_RATE_LIMIT_IDLE,
};

fn start() -> Instant {
    Instant {
        nanos: 1_000_000_000_000,
    }
}

fn after(now: Instant, span: Duration) -> Instant {
    now.checked_add(span).unwrap()
}

#[test]
fn per_ip_limits_are_isolated_and_raii_reclaimed() {
    let mut admission = PeerAdmission::new(1);
    let first_ip = IpAddr::v4(127, 0, 0, 1);
    let second_ip = IpAddr::v4(127, 0, 0, 2);

    let first = admission
        .try_acquire(first_ip)
        .expect("first source should be admitted");
    assert!(admission.try_acquire(first_ip).is_none());
    let second = admission
        .try_acquire(second_ip)
        .expect("a distinct source should have an independent bucket");
    assert_eq!(admission.active_peers(), 2);

    admission.release(first);
    assert_eq!(admission.active_peers(), 1);
    let replacement = admission
        .try_acquire(first_ip)
        .expect("dropping a permit should release its source bucket");

    admission.release(replacement);
    admission.release(second);
    assert_eq!(admission.active_peers(), 0);
}

#[test]
fn a_source_keeps_what_it_did_not_give_back() {
    let mut admission = PeerAdmission::new(2);
    let peer = IpAddr::v4(10, 0, 0, 1);
    let first = admission.try_acquire(peer).unwrap();
    let _second = admission.try_acquire(peer).unwrap();
    assert!(admission.try_acquire(peer).is_none());
    admission.release(first);
    assert_eq!(admission.active_peers(), 1);
    assert!(admission.try_acquire(peer).is_some());
    let mut closed = PeerAdmission::new(0);
    assert!(closed.try_acquire(peer).is_none());
    assert_eq!(closed.active_peers(), 0);
}

fn config() -> HttpRequestRateLimitConfig {
    HttpRequestRateLimitConfig {
        global_requests_per_second: 2,
        global_burst: 2,
        per_ip_requests_per_second: 1,
        per_ip_burst: 1,
        max_tracked_ips: 2,
        peer_idle_ttl: Duration::from_secs(5),
    }
}

#[test]
fn configuration_is_strict_and_bounded() {
    let mut candidate = HttpRequestRateLimitConfig::default();
    assert!(candidate.validate().is_ok());
    candidate.global_requests_per_second = 0;
    assert_eq!(
        candidate.validate(),
        Err(HttpRequestRateLimitConfigError::InvalidGlobalRate)
    );
    candidate = HttpRequestRateLimitConfig::default();
    candidate.per_ip_burst = candidate.per_ip_requests_per_second - 1;
    assert_eq!(
        candidate.validate(),
        Err(HttpRequestRateLimitConfigError::InvalidPerIpBurst)
    );
    candidate = HttpRequestRateLimitConfig::default();
    candidate.max_tracked_ips = MAX_HTTP_RATE_LIMIT_PEERS + 1;
    assert_eq!(
        candidate.validate(),
        Err(HttpRequestRateLimitConfigError::InvalidTrackedIpLimit)
    );
}

#[test]
fn each_rate_limit_fault_is_reported() {
    let base = HttpRequestRateLimitConfig::default();
    let cases = [
        (
            HttpRequestRateLimitConfig {
                global_burst: MAX_HTTP_REQUEST_BURST + 1,
                ..base
            },
            HttpRequestRateLimitConfigError::InvalidGlobalBurst,
        ),
        (
            HttpRequestRateLimitConfig {
                per_ip_requests_per_second: 0,
                ..base
            },
            HttpRequestRateLimitConfigError::InvalidPerIpRate,
        ),
        (
            HttpRequestRateLimitConfig {
                per_ip_requests_per_second: 101,
                per_ip_burst: 101,
                ..base
            },
            HttpRequestRateLimitConfigError::PerIpRateExceedsGlobal,
        ),
        (
            HttpRequestRateLimitConfig {
                per_ip_burst: 201,
                ..base
            },
            HttpRequestRateLimitConfigError::PerIpBurstExceedsGlobal,
        ),
        (
            HttpRequestRateLimitConfig {
                peer_idle_ttl: Duration {
                    nanos: MIN_HTTP_RATE_LIMIT_IDLE - 1,
                },
                ..base
            },
            HttpRequestRateLimitConfigError::InvalidPeerIdleTtl,
        ),
    ];
    for (candidate, fault) in cases {
        assert_eq!(candidate.validate(), Err(fault));
        assert!(!fault.message().is_empty());
    }
}

#[test]
fn per_ip_buckets_are_isolated_and_refill_without_sleeping() {
    let now = start();
    let mut limiter = HttpRequestRateLimiter::at(config(), now);
    let first = IpAddr::v4(127, 0, 0, 1);
    let second = IpAddr::v4(127, 0, 0, 2);
    assert_eq!(limiter.try_admit_at(first, now), Ok(()));
    assert!(matches!(
        limiter.try_admit_at(first, now),
        Err(HttpRateLimitRejection::PerIp { .. })
    ));
    assert_eq!(limiter.try_admit_at(second, now), Ok(()));
    assert_eq!(
        limiter.try_admit_at(first, after(now, Duration::from_secs(1))),
        Ok(())
    );
}

#[test]
fn rejected_peer_does_not_consume_a_global_token() {
    let now = start();
    let mut limiter = HttpRequestRateLimiter::at(config(), now);
    let first = IpAddr::v4(127, 0, 0, 1);
    let second = IpAddr::v4(127, 0, 0, 2);
    assert_eq!(limiter.try_admit_at(first, now), Ok(()));
    assert!(matches!(
        limiter.try_admit_at(first, now),
        Err(HttpRateLimitRejection::PerIp { .. })
    ));
    assert_eq!(limiter.try_admit_at(second, now), Ok(()));
    assert!(matches!(
        limiter.try_admit_at(second, now),
        Err(HttpRateLimitRejection::Global { .. }) | Err(HttpRateLimitRejection::PerIp { .. })
    ));
}

#[test]
fn global_bucket_limits_distinct_peers_and_reports_retry_time() {
    let now = start();
    let mut candidate = config();
    candidate.max_tracked_ips = 3;
    let mut limiter = HttpRequestRateLimiter::at(candidate, now);
    assert_eq!(limiter.try_admit_at(IpAddr::v4(10, 0, 0, 1), now), Ok(()));
    assert_eq!(limiter.try_admit_at(IpAddr::v4(10, 0, 0, 2), now), Ok(()));
    let rejection = limiter
        .try_admit_at(IpAddr::v4(10, 0, 0, 3), now)
        .unwrap_err();
    assert_eq!(
        rejection,
        HttpRateLimitRejection::Global {
            retry_after: Duration::from_millis(500)
        }
    );
    assert_eq!(rejection.retry_after(), Duration::from_millis(500));
    assert!(limiter
        .try_admit_at(
            IpAddr::v4(10, 0, 0, 3),
            after(now, Duration::from_nanos(499_999_999))
        )
        .is_err());
    assert_eq!(
        limiter.try_admit_at(
            IpAddr::v4(10, 0, 0, 3),
            after(now, rejection.retry_after())
        ),
        Ok(())
    );
}

#[test]
fn peer_table_is_bounded_and_idle_entries_are_reclaimed_in_batches() {
    let now = start();
    let mut candidate = config();
    candidate.global_requests_per_second = 10;
    candidate.global_burst = 10;
    let mut limiter = HttpRequestRateLimiter::at(candidate, now);
    assert_eq!(limiter.try_admit_at(IpAddr::v4(10, 0, 0, 1), now), Ok(()));
    assert_eq!(limiter.try_admit_at(IpAddr::v4(10, 0, 0, 2), now), Ok(()));
    assert!(matches!(
        limiter.try_admit_at(IpAddr::v4(10, 0, 0, 3), now),
        Err(HttpRateLimitRejection::PeerTableFull { .. })
    ));
    assert_eq!(limiter.status().tracked_peer_ips, 2);
    assert_eq!(
        limiter.try_admit_at(
            IpAddr::v4(10, 0, 0, 3),
            after(now, Duration::from_secs(5))
        ),
        Ok(())
    );
    let status = limiter.status();
    assert_eq!(status.tracked_peer_ips, 1);
    assert_eq!(status.peak_tracked_peer_ips, 2);
}

#[test]
fn refill_math_saturates_at_capacity_and_backward_time_adds_nothing() {
    let now = start();
    let mut bucket = TokenBucket::new(MAX_HTTP_REQUESTS_PER_SECOND, MAX_HTTP_REQUEST_BURST, now);
    bucket.consume();
    bucket.refill(after(
        now,
        Duration {
            nanos: MAX_HTTP_RATE_LIMIT_IDLE,
        },
    ));
    assert_eq!(bucket.tokens, bucket.capacity);
    bucket.consume();
    let tokens = bucket.tokens;
    bucket.refill(now);
    assert_eq!(bucket.tokens, tokens);
}

#[test]
fn buckets_say_when_the_next_token_is_due() {
    let now = start();
    let mut bucket = TokenBucket::new(4, 1, now);
    assert_eq!(bucket.retry_after(), None);
    bucket.consume();
    assert_eq!(bucket.retry_after(), Some(Duration::from_millis(250)));
    bucket.refill(after(now, Duration::from_millis(100)));
    assert_eq!(bucket.retry_after(), Some(Duration::from_millis(150)));
    bucket.refill(after(now, Duration::from_millis(250)));
    assert_eq!(bucket.retry_after(), None);
}

#[test]
fn spans_and_addresses_are_what_they_say() {
    assert_eq!(Duration::from_millis(1500).as_millis(), 1500);
    assert_eq!(Duration::from_secs(2).as_nanos(), 2_000_000_000);
    assert_eq!(
        Duration::from_secs(2).min(Duration::from_millis(1)),
        Duration::from_millis(1)
    );
    assert!(Duration::from_nanos(0).is_zero());
    let now = start();
    assert!(now
        .saturating_duration_since(after(now, Duration::from_secs(1)))
        .is_zero());
    let latest = Instant { nanos: u128::MAX };
    assert_eq!(latest.checked_add(Duration::from_nanos(1)), None);
    assert!(IpAddr::v4(127, 255, 0, 1).is_loopback());
    assert!(!IpAddr::v4(128, 0, 0, 1).is_loopback());
    assert!(IpAddr::V6(1).is_loopback());
    assert!(!IpAddr::V6(2).is_loopback());
    let address = SocketAddr::new(IpAddr::v4(1, 2, 3, 4), 5);
    assert_eq!(address.ip(), IpAddr::V4(0x0102_0304));
    assert_eq!(address.port(), 5);
}

#[test]
fn admissions_in_a_window_are_its_burst_and_what_it_earns() {
    let now = start();
    let candidate = HttpRequestRateLimitConfig {
        per_ip_requests_per_second: 2,
        per_ip_burst: 2,
        max_tracked_ips: 3,
        ..config()
    };
    let mut limiter = HttpRequestRateLimiter::at(candidate, now);
    let mut admitted = 0;
    for step in 0..=400u64 {
        let peer = IpAddr::v4(10, 0, 0, (step % 3) as u8);
        let moment = after(now, Duration::from_millis(10 * step));
        if limiter.try_admit_at(peer, moment).is_ok() {
            admitted += 1;
        }
    }
    assert_eq!(admitted, 2 + 2 * 4);
}
