//! Bounded in-memory request-rate admission for public HTTP ingress.

use vstd::prelude::*;

use crate::clock::{nanos_since, Duration, Instant};
use crate::net::IpAddr;

verus! {

/// What one request costs, in the units that buckets count.
pub const TOKEN_SCALE: u128 = 1_000_000_000;

/// How many tracked peers one cleanup looks at.
pub const PEER_CLEANUP_BATCH: usize = 64;

pub const MAX_HTTP_REQUESTS_PER_SECOND: u64 = 1_000_000;

pub const MAX_HTTP_REQUEST_BURST: u64 = 1_000_000;

pub const MAX_HTTP_RATE_LIMIT_PEERS: usize = 65_536;

/// The shortest idle time after which a peer may be forgotten, in nanoseconds: 1 ms.
pub const MIN_HTTP_RATE_LIMIT_IDLE: u128 = 1_000_000;

/// The longest idle time after which a peer may be forgotten, in nanoseconds: a day.
pub const MAX_HTTP_RATE_LIMIT_IDLE: u128 = 86_400_000_000_000;

/// The longest wait that a full peer table suggests, in nanoseconds: a minute.
pub const MAX_PEER_TABLE_RETRY: u128 = 60_000_000_000;

/// The rates, bursts and bounds of one limiter.
#[derive(Debug, Clone, Copy, PartialEq, Eq, Structural)]
pub struct HttpRequestRateLimitConfig {
    pub global_requests_per_second: u64,
    pub global_burst: u64,
    pub per_ip_requests_per_second: u64,
    pub per_ip_burst: u64,
    pub max_tracked_ips: usize,
    pub peer_idle_ttl: Duration,
}

impl Default for HttpRequestRateLimitConfig {
    fn default() -> (config: HttpRequestRateLimitConfig)
        ensures
            config == default_rate_limit(),
    {
        HttpRequestRateLimitConfig {
            global_requests_per_second: 100,
            global_burst: 200,
            per_ip_requests_per_second: 20,
            per_ip_burst: 40,
            max_tracked_ips: 4_096,
            peer_idle_ttl: Duration { nanos: 300_000_000_000 },
        }
    }
}

/// 100 requests per second and a burst of 200 for all peers together, 20 and 40
/// for each, 4096 peers that are forgotten after five idle minutes.
pub open spec fn default_rate_limit() -> HttpRequestRateLimitConfig {
    HttpRequestRateLimitConfig {
        global_requests_per_second: 100,
        global_burst: 200,
        per_ip_requests_per_second: 20,
        per_ip_burst: 40,
        max_tracked_ips: 4_096,
        peer_idle_ttl: Duration { nanos: 300_000_000_000 },
    }
}

/// Whether `rate` is a rate that a bucket may have.
pub open spec fn rate_in_bounds(rate: u64) -> bool {
    1 <= rate <= MAX_HTTP_REQUESTS_PER_SECOND
}

/// Whether `burst` is a burst that a bucket of that rate may have.
pub open spec fn burst_in_bounds(rate: u64, burst: u64) -> bool {
    rate <= burst <= MAX_HTTP_REQUEST_BURST
}

/// What `validate` finds wrong first.
pub open spec fn rate_limit_fault(c: HttpRequestRateLimitConfig) -> Option<
    HttpRequestRateLimitConfigError,
> {
    if !rate_in_bounds(c.global_requests_per_second) {
        Some(HttpRequestRateLimitConfigError::InvalidGlobalRate)
    } else if !burst_in_bounds(c.global_requests_per_second, c.global_burst) {
        Some(HttpRequestRateLimitConfigError::InvalidGlobalBurst)
    } else if !rate_in_bounds(c.per_ip_requests_per_second) {
        Some(HttpRequestRateLimitConfigError::InvalidPerIpRate)
    } else if !burst_in_bounds(c.per_ip_requests_per_second, c.per_ip_burst) {
        Some(HttpRequestRateLimitConfigError::InvalidPerIpBurst)
    } else if c.per_ip_requests_per_second > c.global_requests_per_second {
        Some(HttpRequestRateLimitConfigError::PerIpRateExceedsGlobal)
    } else if c.per_ip_burst > c.global_burst {
        Some(HttpRequestRateLimitConfigError::PerIpBurstExceedsGlobal)
    } else if !(1 <= c.max_tracked_ips <= MAX_HTTP_RATE_LIMIT_PEERS) {
        Some(HttpRequestRateLimitConfigError::InvalidTrackedIpLimit)
    } else if !(MIN_HTTP_RATE_LIMIT_IDLE <= c.peer_idle_ttl.nanos
        <= MAX_HTTP_RATE_LIMIT_IDLE) {
        Some(HttpRequestRateLimitConfigError::InvalidPeerIdleTtl)
    } else {
        None
    }
}

impl HttpRequestRateLimitConfig {
    /// Checks every bound; the first one broken is reported.
    pub fn validate(self) -> (result: Result<(), HttpRequestRateLimitConfigError>)
        ensures
            result == (match rate_limit_fault(self) {
                Some(fault) => Err(fault),
                None => Ok(()),
            }),
    {
        validate_quota(
            self.global_requests_per_second,
            self.global_burst,
            HttpRequestRateLimitConfigError::InvalidGlobalRate,
            HttpRequestRateLimitConfigError::InvalidGlobalBurst,
        )?;
        validate_quota(
            self.per_ip_requests_per_second,
            self.per_ip_burst,
            HttpRequestRateLimitConfigError::InvalidPerIpRate,
            HttpRequestRateLimitConfigError::InvalidPerIpBurst,
        )?;
        if self.per_ip_requests_per_second > self.global_requests_per_second {
            return Err(HttpRequestRateLimitConfigError::PerIpRateExceedsGlobal);
        }
        if self.per_ip_burst > self.global_burst {
            return Err(HttpRequestRateLimitConfigError::PerIpBurstExceedsGlobal);
        }
        if self.max_tracked_ips == 0 || self.max_tracked_ips > MAX_HTTP_RATE_LIMIT_PEERS {
            return Err(HttpRequestRateLimitConfigError::InvalidTrackedIpLimit);
        }
        if self.peer_idle_ttl.nanos < MIN_HTTP_RATE_LIMIT_IDLE || self.peer_idle_ttl.nanos
            > MAX_HTTP_RATE_LIMIT_IDLE {
            return Err(HttpRequestRateLimitConfigError::InvalidPeerIdleTtl);
        }
        Ok(())
    }
}

/// Checks one rate and its burst, and reports the error given for what is wrong.
pub fn validate_quota(
    rate: u64,
    burst: u64,
    invalid_rate: HttpRequestRateLimitConfigError,
    invalid_burst: HttpRequestRateLimitConfigError,
) -> (result: Result<(), HttpRequestRateLimitConfigError>)
    ensures
        result == (if !rate_in_bounds(rate) {
            Err(invalid_rate)
        } else if !burst_in_bounds(rate, burst) {
            Err(invalid_burst)
        } else {
            Ok(())
        }),
{
    if rate == 0 || rate > MAX_HTTP_REQUESTS_PER_SECOND {
        return Err(invalid_rate);
    }
    if burst < rate || burst > MAX_HTTP_REQUEST_BURST {
        return Err(invalid_burst);
    }
    Ok(())
}

/// A bound of the configuration that does not hold.
#[derive(Debug, Clone, Copy, PartialEq, Eq, Structural)]
pub enum HttpRequestRateLimitConfigError {
    InvalidGlobalRate,
    InvalidGlobalBurst,
    InvalidPerIpRate,
    InvalidPerIpBurst,
    PerIpRateExceedsGlobal,
    PerIpBurstExceedsGlobal,
    InvalidTrackedIpLimit,
    InvalidPeerIdleTtl,
}

impl HttpRequestRateLimitConfigError {
    /// The text shown to an operator.
    pub open spec fn text(self) -> Seq<char> {
        match self {
            HttpRequestRateLimitConfigError::InvalidGlobalRate =>
                "global HTTP request rate must be between 1 and 1000000 per second"@,
            HttpRequestRateLimitConfigError::InvalidGlobalBurst =>
                "global HTTP burst must be at least its rate and no greater than 1000000"@,
            HttpRequestRateLimitConfigError::InvalidPerIpRate =>
                "per-IP HTTP request rate must be between 1 and 1000000 per second"@,
            HttpRequestRateLimitConfigError::InvalidPerIpBurst =>
                "per-IP HTTP burst must be at least its rate and no greater than 1000000"@,
            HttpRequestRateLimitConfigError::PerIpRateExceedsGlobal =>
                "per-IP HTTP request rate cannot exceed the global rate"@,
            HttpRequestRateLimitConfigError::PerIpBurstExceedsGlobal =>
                "per-IP HTTP burst cannot exceed the global burst"@,
            HttpRequestRateLimitConfigError::InvalidTrackedIpLimit =>
                "tracked HTTP rate-limit IPs must be between 1 and 65536"@,
            HttpRequestRateLimitConfigError::InvalidPeerIdleTtl =>
                "HTTP rate-limit peer idle TTL must be between 1 ms and 24 hours"@,
        }
    }

    /// The text shown to an operator.
    pub fn message(self) -> (message: &'static str)
        ensures
            message@ == self.text(),
    {
        match self {
            HttpRequestRateLimitConfigError::InvalidGlobalRate =>
                "global HTTP request rate must be between 1 and 1000000 per second",
            HttpRequestRateLimitConfigError::InvalidGlobalBurst =>
                "global HTTP burst must be at least its rate and no greater than 1000000",
            HttpRequestRateLimitConfigError::InvalidPerIpRate =>
                "per-IP HTTP request rate must be between 1 and 1000000 per second",
            HttpRequestRateLimitConfigError::InvalidPerIpBurst =>
                "per-IP HTTP burst must be at least its rate and no greater than 1000000",
            HttpRequestRateLimitConfigError::PerIpRateExceedsGlobal =>
                "per-IP HTTP request rate cannot exceed the global rate",
            HttpRequestRateLimitConfigError::PerIpBurstExceedsGlobal =>
                "per-IP HTTP burst cannot exceed the global burst",
            HttpRequestRateLimitConfigError::InvalidTrackedIpLimit =>
                "tracked HTTP rate-limit IPs must be between 1 and 65536",
            HttpRequestRateLimitConfigError::InvalidPeerIdleTtl =>
                "HTTP rate-limit peer idle TTL must be between 1 ms and 24 hours",
        }
    }
}

/// Why a request was not admitted, and how long to wait before another try.
#[derive(Debug, Clone, Copy, PartialEq, Eq, Structural)]
pub enum HttpRateLimitRejection {
    Global { retry_after: Duration },
    PerIp { retry_after: Duration },
    PeerTableFull { retry_after: Duration },
}

impl HttpRateLimitRejection {
    /// The wait that the rejection suggests.
    pub open spec fn wait(self) -> Duration {
        match self {
            HttpRateLimitRejection::Global { retry_after } => retry_after,
            HttpRateLimitRejection::PerIp { retry_after } => retry_after,
            HttpRateLimitRejection::PeerTableFull { retry_after } => retry_after,
        }
    }

    /// The wait that the rejection suggests.
    pub fn retry_after(self) -> (span: Duration)
        ensures
            span == self.wait(),
    {
        match self {
            HttpRateLimitRejection::Global { retry_after } => retry_after,
            HttpRateLimitRejection::PerIp { retry_after } => retry_after,
            HttpRateLimitRejection::PeerTableFull { retry_after } => retry_after,
        }
    }
}

/// How many peers the limiter tracks, and the most it ever did.
#[derive(Debug, Clone, Copy, PartialEq, Eq, Structural)]
pub struct HttpRateLimiterStatus {
    pub tracked_peer_ips: usize,
    pub peak_tracked_peer_ips: usize,
}

/// Tokens that refill with time, up to a capacity. One request takes
/// `TOKEN_SCALE` of them.
#[derive(Debug, Clone, Copy, PartialEq, Eq, Structural)]
pub struct TokenBucket {
    pub rate: u64,
    pub capacity: u128,
    pub tokens: u128,
    pub last_refill: Instant,
}

/// A bucket made full at `now`.
pub open spec fn full_bucket(rate: u64, burst: u64, now: Instant) -> TokenBucket {
    TokenBucket {
        rate,
        capacity: (burst * TOKEN_SCALE) as u128,
        tokens: (burst * TOKEN_SCALE) as u128,
        last_refill: now,
    }
}

/// The bucket at `now`: what the elapsed time earned is added, up to the
/// capacity. Time that does not advance earns nothing.
pub open spec fn refilled(bucket: TokenBucket, now: Instant) -> TokenBucket {
    if now.nanos <= bucket.last_refill.nanos {
        bucket
    } else {
        let earned = bucket.tokens + nanos_since(now, bucket.last_refill) * bucket.rate;
        TokenBucket {
            tokens: if earned <= bucket.capacity { earned as u128 } else { bucket.capacity },
            last_refill: now,
            ..bucket
        }
    }
}

/// The bucket less the tokens of one request.
pub open spec fn consumed(bucket: TokenBucket) -> TokenBucket {
    TokenBucket { tokens: (bucket.tokens - TOKEN_SCALE) as u128, ..bucket }
}

/// The nanoseconds in which the bucket earns what it lacks for one request,
/// rounded up.
pub open spec fn shortfall_nanos(bucket: TokenBucket) -> int {
    (TOKEN_SCALE - bucket.tokens + bucket.rate - 1) / (bucket.rate as int)
}

/// The wait before the bucket holds one request's tokens, where it does not yet.
pub open spec fn bucket_wait(bucket: TokenBucket) -> Option<Duration> {
    if bucket.tokens >= TOKEN_SCALE {
        None
    } else {
        Some(Duration { nanos: shortfall_nanos(bucket) as u128 })
    }
}

impl TokenBucket {
    /// The bucket earns, and holds no more than its capacity.
    pub open spec fn wf(self) -> bool {
        &&& self.rate >= 1
        &&& self.tokens <= self.capacity
    }

    /// A bucket made full at `now`.
    pub fn new(rate: u64, burst: u64, now: Instant) -> (bucket: TokenBucket)
        ensures
            bucket == full_bucket(rate, burst, now),
            rate >= 1 ==> bucket.wf(),
    {
        let capacity: u128 = burst as u128 * TOKEN_SCALE;
        TokenBucket { rate, capacity, tokens: capacity, last_refill: now }
    }

    /// Adds what the time since the last refill earned, up to the capacity.
    pub fn refill(&mut self, now: Instant)
        requires
            old(self).tokens <= old(self).capacity,
        ensures
            *final(self) == refilled(*old(self), now),
            final(self).tokens <= final(self).capacity,
    {
        if now.nanos <= self.last_refill.nanos {
            return ;
        }
        let elapsed: u128 = now.saturating_duration_since(self.last_refill).as_nanos();
        let replenished: u128 = match elapsed.checked_mul(self.rate as u128) {
            Some(product) => product,
            None => u128::MAX,
        };
        let earned: u128 = self.tokens.saturating_add(replenished);
        self.tokens = if earned <= self.capacity { earned } else { self.capacity };
        self.last_refill = now;
    }

    /// How long until one request's tokens are there, or `None` where they are.
    pub fn retry_after(&self) -> (wait: Option<Duration>)
        requires
            self.rate >= 1,
        ensures
            wait == bucket_wait(*self),
            wait is Some ==> 1 <= wait->0.nanos <= TOKEN_SCALE,
    {
        if self.tokens >= TOKEN_SCALE {
            return None;
        }
        let deficit: u128 = TOKEN_SCALE - self.tokens;
        let rate: u128 = self.rate as u128;
        let nanos: u128 = (deficit + (rate - 1)) / rate;
        proof {
            lemma_wait_bounds(deficit as int, rate as int);
        }
        Some(Duration { nanos })
    }

    /// Takes one request's tokens.
    pub fn consume(&mut self)
        requires
            old(self).tokens >= TOKEN_SCALE,
        ensures
            *final(self) == consumed(*old(self)),
    {
        self.tokens = self.tokens - TOKEN_SCALE;
    }
}

proof fn lemma_wait_bounds(deficit: int, rate: int)
    requires
        1 <= deficit,
        1 <= rate,
    ensures
        1 <= (deficit + rate - 1) / rate <= deficit,
        ((deficit + rate - 1) / rate) * rate >= deficit,
{
    let q: int = (deficit + rate - 1) / rate;
    vstd::arithmetic::div_mod::lemma_fundamental_div_mod(deficit + rate - 1, rate);
    vstd::arithmetic::div_mod::lemma_mod_bound(deficit + rate - 1, rate);
    assert(q * rate >= deficit) by (nonlinear_arith)
        requires
            deficit + rate - 1 == rate * q + (deficit + rate - 1) % rate,
            (deficit + rate - 1) % rate < rate,
    ;
    assert(q >= 1) by (nonlinear_arith)
        requires
            q * rate >= deficit,
            deficit >= 1,
            rate >= 1,
    ;
    assert(q <= deficit) by (nonlinear_arith)
        requires
            rate * q <= deficit + rate - 1,
            rate >= 1,
            deficit >= 1,
    ;
}

/// One peer that the limiter knows: its address, its bucket and when it was
/// last seen.
#[derive(Debug, Clone, Copy, PartialEq, Eq, Structural)]
pub struct TrackedPeer {
    pub ip: IpAddr,
    pub bucket: TokenBucket,
    pub last_seen: Instant,
}

/// Whether `ip` is among the peers.
pub open spec fn is_known(peers: Seq<TrackedPeer>, ip: IpAddr) -> bool {
    exists|i: int| 0 <= i < peers.len() && #[trigger] peers[i].ip == ip
}

/// Where `ip` stands among the peers.
pub open spec fn peer_index(peers: Seq<TrackedPeer>, ip: IpAddr) -> int {
    choose|i: int| 0 <= i < peers.len() && #[trigger] peers[i].ip == ip
}

/// No address stands among the peers twice.
pub open spec fn distinct_peers(peers: Seq<TrackedPeer>) -> bool {
    forall|i: int, j: int|
        0 <= i < j < peers.len() ==> (#[trigger] peers[i]).ip != (#[trigger] peers[j]).ip
}

/// Whether a peer has been idle for at least `ttl`.
pub open spec fn idle_for(peer: TrackedPeer, now: Instant, ttl: Duration) -> bool {
    nanos_since(now, peer.last_seen) >= ttl.nanos
}

/// How many peers one cleanup looks at.
pub open spec fn cleanup_len(peers: Seq<TrackedPeer>) -> int {
    if peers.len() <= PEER_CLEANUP_BATCH { peers.len() as int } else { PEER_CLEANUP_BATCH as int }
}

/// The peers after one cleanup: the batch at the front is looked at, those of it
/// that have been idle too long are gone, the others stand at the back.
pub open spec fn cleaned(peers: Seq<TrackedPeer>, now: Instant, ttl: Duration) -> Seq<
    TrackedPeer,
> {
    peers.skip(cleanup_len(peers)) + peers.take(cleanup_len(peers)).filter(
        |p: TrackedPeer| !idle_for(p, now, ttl),
    )
}

/// What a limiter holds: the bucket that all peers share, the tracked peers in
/// the order in which cleanups look at them, and the most that were ever tracked.
#[verifier::ext_equal]
pub struct RateLimiterState {
    pub global: TokenBucket,
    pub peers: Seq<TrackedPeer>,
    pub peak: nat,
}

/// A peer seen first at `now`, with a full bucket.
pub open spec fn fresh_peer(
    config: HttpRequestRateLimitConfig,
    ip: IpAddr,
    now: Instant,
) -> TrackedPeer {
    TrackedPeer {
        ip,
        bucket: full_bucket(config.per_ip_requests_per_second, config.per_ip_burst, now),
        last_seen: now,
    }
}

/// The wait that a full peer table suggests: the idle time after which a peer
/// is forgotten, but no more than a minute.
pub open spec fn table_wait(config: HttpRequestRateLimitConfig) -> Duration {
    if config.peer_idle_ttl.nanos <= MAX_PEER_TABLE_RETRY {
        config.peer_idle_ttl
    } else {
        Duration { nanos: MAX_PEER_TABLE_RETRY }
    }
}

/// The state once `ip` is tracked, where the table has room for it.
pub open spec fn with_peer(
    config: HttpRequestRateLimitConfig,
    state: RateLimiterState,
    ip: IpAddr,
    now: Instant,
) -> RateLimiterState {
    if is_known(state.peers, ip) {
        state
    } else {
        let peers = cleaned(state.peers, now, config.peer_idle_ttl).push(
            fresh_peer(config, ip, now),
        );
        RateLimiterState {
            peers,
            peak: if state.peak >= peers.len() { state.peak } else { peers.len() },
            ..state
        }
    }
}

/// The state in which the tracked peer `ip` was seen at `now` with that bucket.
pub open spec fn seen_with(
    state: RateLimiterState,
    ip: IpAddr,
    bucket: TokenBucket,
    now: Instant,
) -> RateLimiterState {
    RateLimiterState {
        peers: state.peers.update(
            peer_index(state.peers, ip),
            TrackedPeer { ip, bucket, last_seen: now },
        ),
        ..state
    }
}

/// The bucket of the tracked peer `ip`, refilled at `now`.
pub open spec fn peer_bucket(state: RateLimiterState, ip: IpAddr, now: Instant) -> TokenBucket {
    refilled(state.peers[peer_index(state.peers, ip)].bucket, now)
}

/// What becomes of the state, and of the request, when `ip` asks at `now`. The
/// shared bucket decides first, then the room in the peer table, then the peer's
/// own bucket; tokens are taken only where all three agree.
pub open spec fn admission(
    config: HttpRequestRateLimitConfig,
    before: RateLimiterState,
    ip: IpAddr,
    now: Instant,
) -> (RateLimiterState, Result<(), HttpRateLimitRejection>) {
    let state = RateLimiterState { global: refilled(before.global, now), ..before };
    let kept = cleaned(state.peers, now, config.peer_idle_ttl);
    let known = with_peer(config, state, ip, now);
    let bucket = peer_bucket(known, ip, now);
    match bucket_wait(state.global) {
        Some(retry_after) => (state, Err(HttpRateLimitRejection::Global { retry_after })),
        None => if !is_known(state.peers, ip) && kept.len() >= config.max_tracked_ips {
            (
                RateLimiterState { peers: kept, ..state },
                Err(HttpRateLimitRejection::PeerTableFull { retry_after: table_wait(config) }),
            )
        } else {
            match bucket_wait(bucket) {
                Some(retry_after) => (
                    seen_with(known, ip, bucket, now),
                    Err(HttpRateLimitRejection::PerIp { retry_after }),
                ),
                None => (
                    RateLimiterState {
                        global: consumed(state.global),
                        ..seen_with(known, ip, consumed(bucket), now)
                    },
                    Ok(()),
                ),
            }
        },
    }
}

/// Bounded request-rate admission: one bucket that all peers share, and one for
/// each of a bounded number of peers.
#[derive(Debug)]
pub struct HttpRequestRateLimiter {
    pub config: HttpRequestRateLimitConfig,
    pub global: TokenBucket,
    pub peers: Vec<TrackedPeer>,
    pub peak_tracked_peer_ips: usize,
}

impl View for HttpRequestRateLimiter {
    type V = RateLimiterState;

    open spec fn view(&self) -> RateLimiterState {
        RateLimiterState {
            global: self.global,
            peers: self.peers@,
            peak: self.peak_tracked_peer_ips as nat,
        }
    }
}

/// What holds of every limiter's state: each bucket has the configured rate and
/// capacity and holds no more than that, no peer is tracked twice, and no more
/// peers are or were tracked than the configuration allows.
pub open spec fn limiter_state_wf(
    config: HttpRequestRateLimitConfig,
    state: RateLimiterState,
) -> bool {
    &&& rate_limit_fault(config) is None
    &&& state.global.wf()
    &&& state.global.rate == config.global_requests_per_second
    &&& state.global.capacity == config.global_burst * TOKEN_SCALE
    &&& distinct_peers(state.peers)
    &&& state.peers.len() <= state.peak <= config.max_tracked_ips
    &&& forall|i: int|
        0 <= i < state.peers.len() ==> peer_wf(config, #[trigger] state.peers[i])
}

/// A tracked peer's bucket is one of the configured buckets.
pub open spec fn peer_wf(config: HttpRequestRateLimitConfig, peer: TrackedPeer) -> bool {
    &&& peer.bucket.wf()
    &&& peer.bucket.rate == config.per_ip_requests_per_second
    &&& peer.bucket.capacity == config.per_ip_burst * TOKEN_SCALE
}

impl HttpRequestRateLimiter {
    /// The limiter's state keeps its bounds.
    pub open spec fn wf(self) -> bool {
        limiter_state_wf(self.config, self@)
    }

    /// A limiter that has seen nobody, made at `now`.
    pub fn at(config: HttpRequestRateLimitConfig, now: Instant) -> (limiter: HttpRequestRateLimiter)
        requires
            rate_limit_fault(config) is None,
        ensures
            limiter.config == config,
            limiter@ == (RateLimiterState {
                global: full_bucket(config.global_requests_per_second, config.global_burst, now),
                peers: Seq::empty(),
                peak: 0,
            }),
            limiter.wf(),
    {
        HttpRequestRateLimiter {
            config,
            global: TokenBucket::new(config.global_requests_per_second, config.global_burst, now),
            peers: Vec::new(),
            peak_tracked_peer_ips: 0,
        }
    }

    /// Admits or refuses one request of `peer` at `now`.
    pub fn try_admit_at(&mut self, peer: IpAddr, now: Instant) -> (result: Result<
        (),
        HttpRateLimitRejection,
    >)
        requires
            old(self).wf(),
        ensures
            (final(self)@, result) == admission(old(self).config, old(self)@, peer, now),
            final(self).config == old(self).config,
            final(self).wf(),
    {
        self.global.refill(now);
        if let Some(retry_after) = self.global.retry_after() {
            return Err(HttpRateLimitRejection::Global { retry_after });
        }
        let ghost state: RateLimiterState = self@;
        let ttl: Duration = self.config.peer_idle_ttl;
        let slot: usize = match find_peer(&self.peers, peer) {
            Some(slot) => slot,
            None => {
                cleanup_idle_peers(&mut self.peers, now, ttl);
                proof {
                    lemma_cleaned(self.config, state.peers, now, ttl);
                }
                if self.peers.len() >= self.config.max_tracked_ips {
                    return Err(
                        HttpRateLimitRejection::PeerTableFull {
                            retry_after: ttl.min(Duration { nanos: MAX_PEER_TABLE_RETRY }),
                        },
                    );
                }
                let slot: usize = self.peers.len();
                self.peers.push(
                    TrackedPeer {
                        ip: peer,
                        bucket: TokenBucket::new(
                            self.config.per_ip_requests_per_second,
                            self.config.per_ip_burst,
                            now,
                        ),
                        last_seen: now,
                    },
                );
                if self.peak_tracked_peer_ips < self.peers.len() {
                    self.peak_tracked_peer_ips = self.peers.len();
                }
                proof {
                    assert(self.peers@[slot as int].ip == peer);
                }
                slot
            },
        };
        let ghost known: RateLimiterState = self@;
        proof {
            assert(known =~= with_peer(self.config, state, peer, now));
            assert(distinct_peers(known.peers));
            lemma_peer_index(known.peers, peer, slot as int);
        }
        let mut entry: TrackedPeer = self.peers[slot];
        entry.bucket.refill(now);
        entry.last_seen = now;
        if let Some(retry_after) = entry.bucket.retry_after() {
            self.peers.set(slot, entry);
            return Err(HttpRateLimitRejection::PerIp { retry_after });
        }
        self.global.consume();
        entry.bucket.consume();
        self.peers.set(slot, entry);
        Ok(())
    }

    /// How many peers are tracked, and the most that ever were.
    pub fn status(&self) -> (status: HttpRateLimiterStatus)
        ensures
            status.tracked_peer_ips == self@.peers.len(),
            status.peak_tracked_peer_ips == self@.peak,
    {
        HttpRateLimiterStatus {
            tracked_peer_ips: self.peers.len(),
            peak_tracked_peer_ips: self.peak_tracked_peer_ips,
        }
    }
}

proof fn lemma_filter_push(
    peers: Seq<TrackedPeer>,
    last: TrackedPeer,
    keep: spec_fn(TrackedPeer) -> bool,
)
    ensures
        peers.push(last).filter(keep) == (if keep(last) {
            peers.filter(keep).push(last)
        } else {
            peers.filter(keep)
        }),
{
    reveal(Seq::filter);
    assert(peers.push(last).drop_last() =~= peers);
}

proof fn lemma_filter_peers(peers: Seq<TrackedPeer>, keep: spec_fn(TrackedPeer) -> bool)
    requires
        distinct_peers(peers),
    ensures
        distinct_peers(peers.filter(keep)),
        peers.filter(keep).len() <= peers.len(),
        forall|i: int|
            0 <= i < peers.filter(keep).len() ==> peers.contains(
                #[trigger] peers.filter(keep)[i],
            ),
    decreases peers.len(),
{
    if peers.len() == 0 {
        reveal(Seq::filter);
    } else {
        let rest: Seq<TrackedPeer> = peers.drop_last();
        let last: TrackedPeer = peers.last();
        assert(peers =~= rest.push(last));
        lemma_filter_peers(rest, keep);
        lemma_filter_push(rest, last, keep);
        let out: Seq<TrackedPeer> = peers.filter(keep);
        assert forall|i: int| 0 <= i < out.len() implies peers.contains(#[trigger] out[i]) by {
            if i < rest.filter(keep).len() {
                assert(out[i] == rest.filter(keep)[i]);
                let k: int = choose|k: int| 0 <= k < rest.len() && rest[k] == out[i];
                assert(peers[k] == out[i]);
            } else {
                assert(out[i] == peers[peers.len() - 1]);
            }
        }
        assert forall|i: int, j: int| 0 <= i < j < out.len() implies (#[trigger] out[i]).ip != (
        #[trigger] out[j]).ip by {
            if j < rest.filter(keep).len() {
                assert(out[i] == rest.filter(keep)[i] && out[j] == rest.filter(keep)[j]);
            } else {
                assert(out[i] == rest.filter(keep)[i]);
                assert(rest.contains(rest.filter(keep)[i]));
                let k: int = choose|k: int| 0 <= k < rest.len() && rest[k] == out[i];
                assert(peers[k] == out[i]);
            }
        }
    }
}

proof fn lemma_cleaned(
    config: HttpRequestRateLimitConfig,
    peers: Seq<TrackedPeer>,
    now: Instant,
    ttl: Duration,
)
    requires
        distinct_peers(peers),
    ensures
        distinct_peers(cleaned(peers, now, ttl)),
        cleaned(peers, now, ttl).len() <= peers.len(),
        forall|i: int|
            0 <= i < cleaned(peers, now, ttl).len() ==> peers.contains(
                #[trigger] cleaned(peers, now, ttl)[i],
            ),
        forall|ip: IpAddr| is_known(cleaned(peers, now, ttl), ip) ==> #[trigger] is_known(peers, ip),
{
    let n: int = cleanup_len(peers);
    let keep = |p: TrackedPeer| !idle_for(p, now, ttl);
    let front: Seq<TrackedPeer> = peers.take(n);
    let back: Seq<TrackedPeer> = peers.skip(n);
    let out: Seq<TrackedPeer> = cleaned(peers, now, ttl);
    lemma_filter_peers(front, keep);
    assert(out == back + front.filter(keep));
    assert forall|i: int| 0 <= i < out.len() implies peers.contains(#[trigger] out[i]) by {
        if i < back.len() {
            assert(out[i] == peers[i + n]);
        } else {
            let kept: TrackedPeer = front.filter(keep)[i - back.len()];
            assert(front.contains(kept));
            let k: int = choose|k: int| 0 <= k < front.len() && front[k] == kept;
            assert(peers[k] == out[i]);
        }
    }
    assert forall|i: int, j: int| 0 <= i < j < out.len() implies (#[trigger] out[i]).ip != (
    #[trigger] out[j]).ip by {
        if j < back.len() {
            assert(out[i] == peers[i + n] && out[j] == peers[j + n]);
        } else if i < back.len() {
            let kept: TrackedPeer = front.filter(keep)[j - back.len()];
            assert(front.contains(kept));
            let k: int = choose|k: int| 0 <= k < front.len() && front[k] == kept;
            assert(peers[k] == out[j] && peers[i + n] == out[i]);
        } else {
            assert(out[i] == front.filter(keep)[i - back.len()]);
            assert(out[j] == front.filter(keep)[j - back.len()]);
        }
    }
    assert forall|ip: IpAddr| is_known(out, ip) implies #[trigger] is_known(peers, ip) by {
        let i: int = choose|i: int| 0 <= i < out.len() && #[trigger] out[i].ip == ip;
        assert(peers.contains(out[i]));
        let k: int = choose|k: int| 0 <= k < peers.len() && peers[k] == out[i];
        assert(peers[k].ip == ip);
    }
}

proof fn lemma_peer_index(peers: Seq<TrackedPeer>, ip: IpAddr, slot: int)
    requires
        distinct_peers(peers),
        0 <= slot < peers.len(),
        peers[slot].ip == ip,
    ensures
        peer_index(peers, ip) == slot,
        is_known(peers, ip),
{
    let i: int = peer_index(peers, ip);
    assert(0 <= i < peers.len() && peers[i].ip == ip);
}

fn find_peer(peers: &Vec<TrackedPeer>, ip: IpAddr) -> (slot: Option<usize>)
    ensures
        match slot {
            Some(i) => i < peers@.len() && peers@[i as int].ip == ip,
            None => !is_known(peers@, ip),
        },
{
    let mut i: usize = 0;
    while i < peers.len()
        invariant
            i <= peers@.len(),
            forall|k: int| 0 <= k < i ==> (#[trigger] peers@[k]).ip != ip,
        decreases peers@.len() - i,
    {
        if peers[i].ip == ip {
            return Some(i);
        }
        i = i + 1;
    }
    None
}

/// Looks at the batch of peers at the front: drops those that have been idle for
/// `idle_ttl`, and moves the others to the back.
pub fn cleanup_idle_peers(peers: &mut Vec<TrackedPeer>, now: Instant, idle_ttl: Duration)
    ensures
        final(peers)@ == cleaned(old(peers)@, now, idle_ttl),
{
    let candidates: usize = if peers.len() <= PEER_CLEANUP_BATCH {
        peers.len()
    } else {
        PEER_CLEANUP_BATCH
    };
    let ghost all: Seq<TrackedPeer> = peers@;
    let ghost fresh = |p: TrackedPeer| !idle_for(p, now, idle_ttl);
    let mut done: usize = 0;
    proof {
        assert(all.take(0).filter(fresh) =~= Seq::<TrackedPeer>::empty());
        assert(all.skip(0) =~= all);
    }
    while done < candidates
        invariant
            done <= candidates <= all.len(),
            peers@ =~= all.skip(done as int) + all.take(done as int).filter(fresh),
            fresh == (|p: TrackedPeer| !idle_for(p, now, idle_ttl)),
        decreases candidates - done,
    {
        let peer: TrackedPeer = peers.remove(0);
        proof {
            let shorter: Seq<TrackedPeer> = all.take(done as int);
            assert(all.take(done + 1) =~= shorter.push(all[done as int]));
            lemma_filter_push(shorter, all[done as int], fresh);
            assert(all.skip(done as int).subrange(1, all.len() - done) =~= all.skip(done + 1));
        }
        if now.saturating_duration_since(peer.last_seen).nanos < idle_ttl.nanos {
            peers.push(peer);
        }
        done = done + 1;
    }
}

/// Time that does not advance adds nothing to a bucket.
pub proof fn backward_time_adds_nothing(bucket: TokenBucket, now: Instant)
    requires
        now.nanos <= bucket.last_refill.nanos,
    ensures
        refilled(bucket, now) == bucket,
{
}

/// The wait that a bucket reports is exact: once that time has passed the bucket
/// holds one request's tokens, and at no moment before.
pub proof fn waiting_is_enough_and_no_longer_than_needed(bucket: TokenBucket, later: Instant)
    requires
        bucket.wf(),
        bucket.capacity >= TOKEN_SCALE,
        bucket_wait(bucket) is Some,
    ensures
        bucket_wait(refilled(bucket, later)) is None <==> later.nanos >= bucket.last_refill.nanos
            + bucket_wait(bucket)->0.nanos,
{
    let deficit: int = TOKEN_SCALE - bucket.tokens;
    let rate: int = bucket.rate as int;
    let wait: int = shortfall_nanos(bucket);
    lemma_wait_bounds(deficit, rate);
    let elapsed: int = nanos_since(later, bucket.last_refill) as int;
    if elapsed >= wait {
        assert(elapsed * rate >= deficit) by (nonlinear_arith)
            requires
                elapsed >= wait,
                wait * rate >= deficit,
                rate >= 1,
        ;
    } else {
        vstd::arithmetic::div_mod::lemma_fundamental_div_mod(deficit + rate - 1, rate);
        vstd::arithmetic::div_mod::lemma_mod_bound(deficit + rate - 1, rate);
        assert(elapsed * rate < deficit) by (nonlinear_arith)
            requires
                elapsed <= wait - 1,
                rate >= 1,
                rate * wait <= deficit + rate - 1,
        ;
    }
}

/// A request that is refused takes no token from the bucket that all peers share.
pub proof fn refusal_takes_no_global_token(
    config: HttpRequestRateLimitConfig,
    before: RateLimiterState,
    ip: IpAddr,
    now: Instant,
)
    ensures
        admission(config, before, ip, now).1 is Err ==> admission(config, before, ip, now).0.global
            == refilled(before.global, now),
        admission(config, before, ip, now).1 is Ok ==> admission(config, before, ip, now).0.global
            == consumed(refilled(before.global, now)),
{
}

/// Every request keeps the limiter's bounds: no bucket overfills, no peer is
/// tracked twice, and the table never outgrows its limit.
pub proof fn admission_keeps_bounds(
    config: HttpRequestRateLimitConfig,
    before: RateLimiterState,
    ip: IpAddr,
    now: Instant,
)
    requires
        limiter_state_wf(config, before),
    ensures
        limiter_state_wf(config, admission(config, before, ip, now).0),
{
    let state = RateLimiterState { global: refilled(before.global, now), ..before };
    lemma_cleaned(config, state.peers, now, config.peer_idle_ttl);
    if bucket_wait(state.global) is None {
        let kept = cleaned(state.peers, now, config.peer_idle_ttl);
        if is_known(state.peers, ip) {
            let slot: int = peer_index(state.peers, ip);
            lemma_peer_index(state.peers, ip, slot);
        } else if kept.len() < config.max_tracked_ips {
            let known = with_peer(config, state, ip, now);
            assert(known.peers[kept.len() as int].ip == ip);
            assert(distinct_peers(known.peers)) by {
                assert forall|i: int, j: int| 0 <= i < j < known.peers.len() implies (
                #[trigger] known.peers[i]).ip != (#[trigger] known.peers[j]).ip by {
                    assert(kept[i] == known.peers[i]);
                    if j < kept.len() {
                        assert(kept[j] == known.peers[j]);
                    } else {
                        assert(is_known(kept, known.peers[i].ip));
                    }
                }
            }
            lemma_peer_index(known.peers, ip, kept.len() as int);
        }
    }
}

/// A request touches no other peer's bucket: every other peer tracked after it
/// was tracked before it, just so.
pub proof fn other_peers_are_untouched(
    config: HttpRequestRateLimitConfig,
    before: RateLimiterState,
    ip: IpAddr,
    now: Instant,
    other: TrackedPeer,
)
    requires
        limiter_state_wf(config, before),
        admission(config, before, ip, now).0.peers.contains(other),
        other.ip != ip,
    ensures
        before.peers.contains(other),
{
    let state = RateLimiterState { global: refilled(before.global, now), ..before };
    let after = admission(config, before, ip, now).0;
    lemma_cleaned(config, state.peers, now, config.peer_idle_ttl);
    let kept = cleaned(state.peers, now, config.peer_idle_ttl);
    let known = with_peer(config, state, ip, now);
    let i: int = choose|i: int| 0 <= i < after.peers.len() && after.peers[i] == other;
    if bucket_wait(state.global) is None && (is_known(state.peers, ip) || kept.len()
        < config.max_tracked_ips) {
        if is_known(state.peers, ip) {
            assert(0 <= peer_index(known.peers, ip) < known.peers.len());
            assert(before.peers[i] == other);
        } else {
            assert(known.peers[kept.len() as int].ip == ip);
            assert(is_known(known.peers, ip));
            assert(known.peers[i] == other);
            assert(kept[i] == other);
        }
    }
}

/// The state after a run of requests, and how many of them were admitted.
pub open spec fn admissions(
    config: HttpRequestRateLimitConfig,
    before: RateLimiterState,
    requests: Seq<(IpAddr, Instant)>,
) -> (RateLimiterState, nat)
    decreases requests.len(),
{
    if requests.len() == 0 {
        (before, 0)
    } else {
        let (state, admitted) = admissions(config, before, requests.drop_last());
        let (after, result) = admission(config, state, requests.last().0, requests.last().1);
        (after, if result is Ok { admitted + 1 } else { admitted })
    }
}

/// However requests come, no more are admitted than the tokens at the start and
/// what the elapsed time earned at the configured rate pay for.
pub proof fn admitted_requests_are_paid_for(
    config: HttpRequestRateLimitConfig,
    before: RateLimiterState,
    requests: Seq<(IpAddr, Instant)>,
)
    requires
        limiter_state_wf(config, before),
    ensures
        ({
            let (after, admitted) = admissions(config, before, requests);
            &&& limiter_state_wf(config, after)
            &&& after.global.last_refill.nanos >= before.global.last_refill.nanos
            &&& admitted * TOKEN_SCALE + after.global.tokens <= before.global.tokens
                + config.global_requests_per_second * (after.global.last_refill.nanos
                - before.global.last_refill.nanos)
        }),
    decreases requests.len(),
{
    if requests.len() > 0 {
        let shorter = requests.drop_last();
        admitted_requests_are_paid_for(config, before, shorter);
        let (state, admitted) = admissions(config, before, shorter);
        let (ip, now) = requests.last();
        admission_keeps_bounds(config, state, ip, now);
        refusal_takes_no_global_token(config, state, ip, now);
        let rate: int = config.global_requests_per_second as int;
        let filled = refilled(state.global, now);
        let start: int = before.global.last_refill.nanos as int;
        let middle: int = state.global.last_refill.nanos as int;
        let end: int = filled.last_refill.nanos as int;
        let elapsed: int = nanos_since(now, state.global.last_refill) as int;
        assert(elapsed * rate == rate * (end - middle)) by (nonlinear_arith)
            requires
                elapsed == end - middle,
        ;
        assert(rate * (end - start) == rate * (middle - start) + rate * (end - middle))
            by (nonlinear_arith);
        assert(filled.tokens <= state.global.tokens + rate * (end - middle));
    }
}

/// The later of two moments.
spec fn later(a: Instant, b: int) -> int {
    if a.nanos >= b {
        a.nanos as int
    } else {
        b
    }
}

proof fn lemma_window(
    config: HttpRequestRateLimitConfig,
    before: RateLimiterState,
    requests: Seq<(IpAddr, Instant)>,
    start: Instant,
    window: nat,
)
    requires
        limiter_state_wf(config, before),
        forall|i: int|
            0 <= i < requests.len() ==> start.nanos <= (#[trigger] requests[i]).1.nanos
                <= start.nanos + window,
    ensures
        ({
            let (after, admitted) = admissions(config, before, requests);
            let from = later(before.global.last_refill, start.nanos as int);
            let to = later(after.global.last_refill, start.nanos as int);
            &&& limiter_state_wf(config, after)
            &&& from <= to <= later(before.global.last_refill, start.nanos + window)
            &&& after.global.last_refill.nanos < start.nanos ==> admitted == 0
            &&& admitted * TOKEN_SCALE + after.global.tokens <= config.global_burst * TOKEN_SCALE
                + config.global_requests_per_second * (to - from)
        }),
    decreases requests.len(),
{
    if requests.len() > 0 {
        let shorter = requests.drop_last();
        assert forall|i: int| 0 <= i < shorter.len() implies start.nanos <= (
        #[trigger] shorter[i]).1.nanos <= start.nanos + window by {
            assert(shorter[i] == requests[i]);
        }
        lemma_window(config, before, shorter, start, window);
        let (state, admitted) = admissions(config, before, shorter);
        let (ip, now) = requests.last();
        assert(requests[requests.len() - 1] == (ip, now));
        admission_keeps_bounds(config, state, ip, now);
        refusal_takes_no_global_token(config, state, ip, now);
        let rate: int = config.global_requests_per_second as int;
        let filled = refilled(state.global, now);
        let from: int = later(before.global.last_refill, start.nanos as int);
        let middle: int = later(state.global.last_refill, start.nanos as int);
        let end: int = later(filled.last_refill, start.nanos as int);
        assert(rate * (end - from) == rate * (middle - from) + rate * (end - middle))
            by (nonlinear_arith);
        if state.global.last_refill.nanos < start.nanos {
            assert(rate * (end - from) >= 0) by (nonlinear_arith)
                requires
                    rate >= 0,
                    end >= from,
            ;
        } else {
            let elapsed: int = nanos_since(now, state.global.last_refill) as int;
            assert(elapsed * rate == rate * elapsed) by (nonlinear_arith);
            assert(filled.tokens <= state.global.tokens + rate * (end - middle));
        }
    } else {
        assert(config.global_requests_per_second * 0 == 0) by (nonlinear_arith);
    }
}

/// However requests come, within any stretch of time no more are admitted than the
/// burst and what the rate earns in that stretch, and all the while no more peers are
/// remembered than the limit.
pub proof fn admissions_in_a_window_are_bounded(
    config: HttpRequestRateLimitConfig,
    before: RateLimiterState,
    requests: Seq<(IpAddr, Instant)>,
    start: Instant,
    window: Duration,
)
    requires
        limiter_state_wf(config, before),
        forall|i: int|
            0 <= i < requests.len() ==> start.nanos <= (#[trigger] requests[i]).1.nanos
                <= start.nanos + window.nanos,
    ensures
        admissions(config, before, requests).1 <= config.global_burst + (
        config.global_requests_per_second * window.nanos) / (TOKEN_SCALE as int),
        forall|count: int|
            0 <= count <= requests.len() ==> (#[trigger] admissions(
                config,
                before,
                requests.take(count),
            )).0.peers.len() <= config.max_tracked_ips,
{
    lemma_window(config, before, requests, start, window.nanos as nat);
    let (after, admitted) = admissions(config, before, requests);
    let rate: int = config.global_requests_per_second as int;
    let from: int = later(before.global.last_refill, start.nanos as int);
    let to: int = later(after.global.last_refill, start.nanos as int);
    assert(rate * (to - from) <= rate * window.nanos) by (nonlinear_arith)
        requires
            rate >= 0,
            to - from <= window.nanos,
    ;
    assert forall|count: int| 0 <= count <= requests.len() implies (#[trigger] admissions(
        config,
        before,
        requests.take(count),
    )).0.peers.len() <= config.max_tracked_ips by {
        admitted_requests_are_paid_for(config, before, requests.take(count));
    }
}

/// The bucket of a tracked peer.
pub open spec fn bucket_of(state: RateLimiterState, ip: IpAddr) -> TokenBucket {
    state.peers[peer_index(state.peers, ip)].bucket
}

/// How many of a run of requests were admitted that one peer sent.
pub open spec fn own_admissions(
    config: HttpRequestRateLimitConfig,
    before: RateLimiterState,
    requests: Seq<(IpAddr, Instant)>,
    ip: IpAddr,
) -> nat
    decreases requests.len(),
{
    if requests.len() == 0 {
        0
    } else {
        let shorter = requests.drop_last();
        let (sender, now) = requests.last();
        let state = admissions(config, before, shorter).0;
        let earlier = own_admissions(config, before, shorter, ip);
        if sender == ip && admission(config, state, sender, now).1 is Ok {
            earlier + 1
        } else {
            earlier
        }
    }
}

/// A peer that a request leaves tracked has paid for it: its bucket loses one request's
/// tokens where its own request is admitted, and gains no more than the elapsed time
/// earns at the rate of one peer.
proof fn lemma_own_bucket(
    config: HttpRequestRateLimitConfig,
    state: RateLimiterState,
    sender: IpAddr,
    now: Instant,
    ip: IpAddr,
)
    requires
        limiter_state_wf(config, state),
        is_known(state.peers, ip),
        is_known(admission(config, state, sender, now).0.peers, ip),
    ensures
        ({
            let (after, result) = admission(config, state, sender, now);
            let old_bucket = bucket_of(state, ip);
            let new_bucket = bucket_of(after, ip);
            let earned = config.per_ip_requests_per_second * (new_bucket.last_refill.nanos
                - old_bucket.last_refill.nanos);
            &&& new_bucket.last_refill.nanos >= old_bucket.last_refill.nanos
            &&& new_bucket.last_refill == old_bucket.last_refill || new_bucket.last_refill == now
            &&& sender == ip && result is Ok ==> new_bucket.tokens + TOKEN_SCALE
                <= old_bucket.tokens + earned && new_bucket.last_refill.nanos >= now.nanos
                && new_bucket.tokens + TOKEN_SCALE <= config.per_ip_burst * TOKEN_SCALE
            &&& new_bucket.tokens <= old_bucket.tokens + earned
            &&& new_bucket.tokens <= config.per_ip_burst * TOKEN_SCALE
        }),
{
    let (after, result) = admission(config, state, sender, now);
    admission_keeps_bounds(config, state, sender, now);
    let slot: int = peer_index(state.peers, ip);
    assert(0 <= slot < state.peers.len() && state.peers[slot].ip == ip);
    let place: int = peer_index(after.peers, ip);
    assert(0 <= place < after.peers.len() && after.peers[place].ip == ip);
    assert(peer_wf(config, state.peers[slot]));
    assert(peer_wf(config, after.peers[place]));
    let rate: int = config.per_ip_requests_per_second as int;
    let old_bucket = bucket_of(state, ip);
    if sender == ip {
        let refreshed = RateLimiterState { global: refilled(state.global, now), ..state };
        assert(is_known(refreshed.peers, ip));
        if bucket_wait(refreshed.global) is None {
            let bucket = peer_bucket(refreshed, ip, now);
            assert(after.peers[slot].ip == ip);
            lemma_peer_index(after.peers, ip, slot);
            let elapsed: int = nanos_since(now, old_bucket.last_refill) as int;
            assert(elapsed * rate == rate * elapsed) by (nonlinear_arith);
            assert(rate * 0 == 0) by (nonlinear_arith);
        } else {
            assert(rate * 0 == 0) by (nonlinear_arith);
        }
    } else {
        other_peers_are_untouched(config, state, sender, now, after.peers[place]);
        let k: int = choose|k: int|
            0 <= k < state.peers.len() && state.peers[k] == after.peers[place];
        lemma_peer_index(state.peers, ip, k);
        assert(rate * 0 == 0) by (nonlinear_arith);
    }
}

proof fn lemma_admissions_wf(
    config: HttpRequestRateLimitConfig,
    before: RateLimiterState,
    requests: Seq<(IpAddr, Instant)>,
)
    requires
        limiter_state_wf(config, before),
    ensures
        limiter_state_wf(config, admissions(config, before, requests).0),
{
    admitted_requests_are_paid_for(config, before, requests);
}

/// However requests come, while a peer stays tracked no more of its own requests are
/// admitted than the tokens that its bucket held and what the elapsed time earned at the
/// rate of one peer pay for.
pub proof fn each_peer_pays_for_its_requests(
    config: HttpRequestRateLimitConfig,
    before: RateLimiterState,
    requests: Seq<(IpAddr, Instant)>,
    ip: IpAddr,
)
    requires
        limiter_state_wf(config, before),
        forall|count: int|
            0 <= count <= requests.len() ==> is_known(
                (#[trigger] admissions(config, before, requests.take(count))).0.peers,
                ip,
            ),
    ensures
        ({
            let after = admissions(config, before, requests).0;
            &&& bucket_of(after, ip).last_refill.nanos >= bucket_of(before, ip).last_refill.nanos
            &&& own_admissions(config, before, requests, ip) * TOKEN_SCALE + bucket_of(
                after,
                ip,
            ).tokens <= bucket_of(before, ip).tokens + config.per_ip_requests_per_second * (
            bucket_of(after, ip).last_refill.nanos - bucket_of(before, ip).last_refill.nanos)
        }),
    decreases requests.len(),
{
    assert(requests.take(requests.len() as int) =~= requests);
    assert(is_known(admissions(config, before, requests).0.peers, ip));
    let rate: int = config.per_ip_requests_per_second as int;
    if requests.len() > 0 {
        let shorter = requests.drop_last();
        assert forall|count: int| 0 <= count <= shorter.len() implies is_known(
            (#[trigger] admissions(config, before, shorter.take(count))).0.peers,
            ip,
        ) by {
            assert(shorter.take(count) =~= requests.take(count));
        }
        each_peer_pays_for_its_requests(config, before, shorter, ip);
        assert(shorter.take(shorter.len() as int) =~= shorter);
        lemma_admissions_wf(config, before, shorter);
        let state = admissions(config, before, shorter).0;
        let (sender, now) = requests.last();
        lemma_own_bucket(config, state, sender, now, ip);
        let after = admission(config, state, sender, now).0;
        let start: int = bucket_of(before, ip).last_refill.nanos as int;
        let middle: int = bucket_of(state, ip).last_refill.nanos as int;
        let end: int = bucket_of(after, ip).last_refill.nanos as int;
        assert(rate * (end - start) == rate * (middle - start) + rate * (end - middle))
            by (nonlinear_arith);
    } else {
        assert(rate * 0 == 0) by (nonlinear_arith);
    }
}

proof fn lemma_own_window(
    config: HttpRequestRateLimitConfig,
    before: RateLimiterState,
    requests: Seq<(IpAddr, Instant)>,
    ip: IpAddr,
    start: Instant,
    window: nat,
)
    requires
        limiter_state_wf(config, before),
        forall|i: int|
            0 <= i < requests.len() ==> start.nanos <= (#[trigger] requests[i]).1.nanos
                <= start.nanos + window,
        forall|earlier: int, count: int|
            0 <= earlier <= count <= requests.len() && is_known(
                (#[trigger] admissions(config, before, requests.take(earlier))).0.peers,
                ip,
            ) ==> is_known(
                (#[trigger] admissions(config, before, requests.take(count))).0.peers,
                ip,
            ),
    ensures
        ({
            let after = admissions(config, before, requests).0;
            let own = own_admissions(config, before, requests, ip);
            let from = if is_known(before.peers, ip) {
                later(bucket_of(before, ip).last_refill, start.nanos as int)
            } else {
                start.nanos as int
            };
            let to = later(bucket_of(after, ip).last_refill, start.nanos as int);
            &&& !is_known(after.peers, ip) ==> own == 0
            &&& is_known(after.peers, ip) ==> {
                &&& from <= to
                &&& to <= (if is_known(before.peers, ip) {
                    later(bucket_of(before, ip).last_refill, start.nanos + window)
                } else {
                    start.nanos + window
                })
                &&& bucket_of(after, ip).last_refill.nanos < start.nanos ==> own == 0
                &&& own * TOKEN_SCALE + bucket_of(after, ip).tokens <= config.per_ip_burst
                    * TOKEN_SCALE + config.per_ip_requests_per_second * (to - from)
            }
        }),
    decreases requests.len(),
{
    let rate: int = config.per_ip_requests_per_second as int;
    assert(requests.take(requests.len() as int) =~= requests);
    if requests.len() == 0 {
        assert(rate * 0 == 0) by (nonlinear_arith);
        if is_known(before.peers, ip) {
            let slot: int = peer_index(before.peers, ip);
            assert(peer_wf(config, before.peers[slot]));
        }
    } else {
        let shorter = requests.drop_last();
        assert forall|i: int| 0 <= i < shorter.len() implies start.nanos <= (
        #[trigger] shorter[i]).1.nanos <= start.nanos + window by {
            assert(shorter[i] == requests[i]);
        }
        assert forall|earlier: int, count: int|
            0 <= earlier <= count <= shorter.len() && is_known(
                (#[trigger] admissions(config, before, shorter.take(earlier))).0.peers,
                ip,
            ) implies is_known(
            (#[trigger] admissions(config, before, shorter.take(count))).0.peers,
            ip,
        ) by {
            assert(shorter.take(earlier) =~= requests.take(earlier));
            assert(shorter.take(count) =~= requests.take(count));
        }
        lemma_own_window(config, before, shorter, ip, start, window);
        lemma_admissions_wf(config, before, shorter);
        let state = admissions(config, before, shorter).0;
        let (sender, now) = requests.last();
        assert(requests[requests.len() - 1] == (sender, now));
        let after = admission(config, state, sender, now).0;
        assert(shorter =~= requests.take(requests.len() - 1));
        admission_keeps_bounds(config, state, sender, now);
        let from: int = if is_known(before.peers, ip) {
            later(bucket_of(before, ip).last_refill, start.nanos as int)
        } else {
            start.nanos as int
        };
        let end: int = later(bucket_of(after, ip).last_refill, start.nanos as int);
        if is_known(state.peers, ip) {
            assert(is_known(admissions(config, before, requests.take(requests.len() as int)).0.peers, ip));
            lemma_own_bucket(config, state, sender, now, ip);
            let middle: int = later(bucket_of(state, ip).last_refill, start.nanos as int);
            assert(rate * (end - from) == rate * (middle - from) + rate * (end - middle))
                by (nonlinear_arith);
            if bucket_of(state, ip).last_refill.nanos < start.nanos {
                assert(rate * (end - from) >= 0) by (nonlinear_arith)
                    requires
                        rate >= 0,
                        end >= from,
                ;
            }
        } else if is_known(after.peers, ip) {
            assert(requests.take(0) =~= Seq::<(IpAddr, Instant)>::empty());
            assert(admissions(config, before, requests.take(0)).0 == before);
            assert(!is_known(before.peers, ip));
            lemma_newly_tracked(config, state, sender, now, ip);
            assert(rate * (end - from) >= 0) by (nonlinear_arith)
                requires
                    rate >= 0,
                    end >= from,
            ;
        } else {
            lemma_admitted_is_tracked(config, state, sender, now);
        }
    }
}

proof fn lemma_newly_tracked(
    config: HttpRequestRateLimitConfig,
    state: RateLimiterState,
    sender: IpAddr,
    now: Instant,
    ip: IpAddr,
)
    requires
        limiter_state_wf(config, state),
        !is_known(state.peers, ip),
        is_known(admission(config, state, sender, now).0.peers, ip),
    ensures
        ({
            let (after, result) = admission(config, state, sender, now);
            &&& sender == ip
            &&& bucket_of(after, ip).last_refill == now
            &&& (if result is Ok { TOKEN_SCALE as int } else { 0 }) + bucket_of(after, ip).tokens
                <= config.per_ip_burst * TOKEN_SCALE
        }),
{
    let (after, result) = admission(config, state, sender, now);
    admission_keeps_bounds(config, state, sender, now);
    let place: int = peer_index(after.peers, ip);
    assert(0 <= place < after.peers.len() && after.peers[place].ip == ip);
    if sender != ip {
        other_peers_are_untouched(config, state, sender, now, after.peers[place]);
        let k: int = choose|k: int|
            0 <= k < state.peers.len() && state.peers[k] == after.peers[place];
        assert(state.peers[k].ip == ip);
    } else {
        let refreshed = RateLimiterState { global: refilled(state.global, now), ..state };
        assert(!is_known(refreshed.peers, ip));
        lemma_cleaned(config, refreshed.peers, now, config.peer_idle_ttl);
        let kept = cleaned(refreshed.peers, now, config.peer_idle_ttl);
        if bucket_wait(refreshed.global) is None && kept.len() < config.max_tracked_ips {
            let known = with_peer(config, refreshed, ip, now);
            assert(known.peers[kept.len() as int].ip == ip);
            assert forall|i: int, j: int| 0 <= i < j < known.peers.len() implies (
            #[trigger] known.peers[i]).ip != (#[trigger] known.peers[j]).ip by {
                assert(kept[i] == known.peers[i]);
                if j < kept.len() {
                    assert(kept[j] == known.peers[j]);
                } else {
                    assert(is_known(kept, known.peers[i].ip));
                }
            }
            lemma_peer_index(known.peers, ip, kept.len() as int);
            assert(after.peers[kept.len() as int].ip == ip);
            lemma_peer_index(after.peers, ip, kept.len() as int);
        } else {
            assert(after.peers == refreshed.peers || after.peers == kept);
            if after.peers == kept {
                assert(is_known(kept, ip));
            }
        }
    }
}

proof fn lemma_admitted_is_tracked(
    config: HttpRequestRateLimitConfig,
    state: RateLimiterState,
    sender: IpAddr,
    now: Instant,
)
    requires
        limiter_state_wf(config, state),
    ensures
        admission(config, state, sender, now).1 is Ok ==> is_known(
            admission(config, state, sender, now).0.peers,
            sender,
        ),
{
    let refreshed = RateLimiterState { global: refilled(state.global, now), ..state };
    let known = with_peer(config, refreshed, sender, now);
    let kept = cleaned(refreshed.peers, now, config.peer_idle_ttl);
    let after = admission(config, state, sender, now).0;
    if admission(config, state, sender, now).1 is Ok {
        if !is_known(refreshed.peers, sender) {
            assert(known.peers[kept.len() as int].ip == sender);
        }
        assert(is_known(known.peers, sender));
        let slot: int = peer_index(known.peers, sender);
        assert(0 <= slot < known.peers.len());
        assert(after.peers[slot].ip == sender);
    }
}

/// However requests come, no more of one peer's own requests are admitted within any
/// stretch of time than its burst and what its rate earns in that stretch, unless the
/// limiter forgets the peer meanwhile.
pub proof fn each_peer_is_bounded_in_a_window(
    config: HttpRequestRateLimitConfig,
    before: RateLimiterState,
    requests: Seq<(IpAddr, Instant)>,
    ip: IpAddr,
    start: Instant,
    window: Duration,
)
    requires
        limiter_state_wf(config, before),
        forall|i: int|
            0 <= i < requests.len() ==> start.nanos <= (#[trigger] requests[i]).1.nanos
                <= start.nanos + window.nanos,
        forall|earlier: int, count: int|
            0 <= earlier <= count <= requests.len() && is_known(
                (#[trigger] admissions(config, before, requests.take(earlier))).0.peers,
                ip,
            ) ==> is_known(
                (#[trigger] admissions(config, before, requests.take(count))).0.peers,
                ip,
            ),
    ensures
        own_admissions(config, before, requests, ip) <= config.per_ip_burst + (
        config.per_ip_requests_per_second * window.nanos) / (TOKEN_SCALE as int),
{
    lemma_own_window(config, before, requests, ip, start, window.nanos as nat);
    let after = admissions(config, before, requests).0;
    let rate: int = config.per_ip_requests_per_second as int;
    assert(rate * window.nanos >= 0) by (nonlinear_arith)
        requires
            rate >= 0,
    ;
    if is_known(after.peers, ip) {
        let from: int = if is_known(before.peers, ip) {
            later(bucket_of(before, ip).last_refill, start.nanos as int)
        } else {
            start.nanos as int
        };
        let to: int = later(bucket_of(after, ip).last_refill, start.nanos as int);
        assert(rate * (to - from) <= rate * window.nanos) by (nonlinear_arith)
            requires
                rate >= 0,
                to - from <= window.nanos,
        ;
    }
}

/// A request is admitted whenever the shared bucket holds one request's tokens and the
/// peer is tracked with as many, or is new and there is room to track it.
pub proof fn requests_within_the_limits_are_admitted(
    config: HttpRequestRateLimitConfig,
    before: RateLimiterState,
    ip: IpAddr,
    now: Instant,
)
    requires
        limiter_state_wf(config, before),
        before.global.tokens >= TOKEN_SCALE,
        is_known(before.peers, ip) ==> bucket_of(before, ip).tokens >= TOKEN_SCALE,
        !is_known(before.peers, ip) ==> before.peers.len() < config.max_tracked_ips,
    ensures
        admission(config, before, ip, now).1 is Ok,
{
    let state = RateLimiterState { global: refilled(before.global, now), ..before };
    lemma_refill_keeps(before.global, now);
    lemma_cleaned(config, state.peers, now, config.peer_idle_ttl);
    if is_known(before.peers, ip) {
        assert(is_known(state.peers, ip));
        let slot: int = peer_index(before.peers, ip);
        assert(peer_wf(config, before.peers[slot]));
        lemma_refill_keeps(bucket_of(before, ip), now);
    } else {
        assert(!is_known(state.peers, ip));
        let kept = cleaned(state.peers, now, config.peer_idle_ttl);
        let known = with_peer(config, state, ip, now);
        assert(known.peers[kept.len() as int].ip == ip);
        assert forall|i: int, j: int| 0 <= i < j < known.peers.len() implies (
        #[trigger] known.peers[i]).ip != (#[trigger] known.peers[j]).ip by {
            assert(kept[i] == known.peers[i]);
            if j < kept.len() {
                assert(kept[j] == known.peers[j]);
            } else {
                assert(is_known(kept, known.peers[i].ip));
            }
        }
        lemma_peer_index(known.peers, ip, kept.len() as int);
        assert(config.per_ip_burst >= 1);
        lemma_refill_keeps(fresh_peer(config, ip, now).bucket, now);
    }
}

proof fn lemma_refill_keeps(bucket: TokenBucket, now: Instant)
    requires
        bucket.wf(),
    ensures
        refilled(bucket, now).tokens >= bucket.tokens,
{
    let elapsed: int = nanos_since(now, bucket.last_refill) as int;
    assert(elapsed * bucket.rate >= 0) by (nonlinear_arith)
        requires
            elapsed >= 0,
            bucket.rate >= 0,
    ;
}

/// A request is refused for what stands against it: the shared bucket first, then a full
/// table of peers, then the peer's own bucket. A refusal for want of tokens names the
/// time after which the bucket that refused holds enough, and not a moment less.
pub proof fn refusals_name_their_cause(
    config: HttpRequestRateLimitConfig,
    before: RateLimiterState,
    ip: IpAddr,
    now: Instant,
    moment: Instant,
)
    requires
        limiter_state_wf(config, before),
    ensures
        ({
            let (after, result) = admission(config, before, ip, now);
            match result {
                Ok(_) => refilled(before.global, now).tokens >= TOKEN_SCALE,
                Err(HttpRateLimitRejection::Global { retry_after }) => {
                    &&& refilled(before.global, now).tokens < TOKEN_SCALE
                    &&& refilled(after.global, moment).tokens >= TOKEN_SCALE <==> moment.nanos
                        >= after.global.last_refill.nanos + retry_after.nanos
                },
                Err(HttpRateLimitRejection::PeerTableFull { retry_after }) => {
                    &&& refilled(before.global, now).tokens >= TOKEN_SCALE
                    &&& !is_known(before.peers, ip)
                    &&& retry_after.nanos <= config.peer_idle_ttl.nanos
                    &&& retry_after.nanos <= 60_000_000_000
                    &&& retry_after.nanos == config.peer_idle_ttl.nanos || retry_after.nanos
                        == 60_000_000_000
                },
                Err(HttpRateLimitRejection::PerIp { retry_after }) => {
                    &&& refilled(before.global, now).tokens >= TOKEN_SCALE
                    &&& is_known(before.peers, ip)
                    &&& refilled(bucket_of(before, ip), now).tokens < TOKEN_SCALE
                    &&& bucket_of(after, ip) == refilled(bucket_of(before, ip), now)
                    &&& refilled(bucket_of(after, ip), moment).tokens >= TOKEN_SCALE
                        <==> moment.nanos >= bucket_of(after, ip).last_refill.nanos
                        + retry_after.nanos
                },
            }
        }),
{
    let state = RateLimiterState { global: refilled(before.global, now), ..before };
    let (after, result) = admission(config, before, ip, now);
    admission_keeps_bounds(config, before, ip, now);
    assert(config.global_burst >= 1 && config.per_ip_burst >= 1);
    match result {
        Err(HttpRateLimitRejection::Global { retry_after }) => {
            waiting_is_enough_and_no_longer_than_needed(after.global, moment);
        },
        Err(HttpRateLimitRejection::PerIp { retry_after }) => {
            if !is_known(before.peers, ip) {
                lemma_cleaned(config, state.peers, now, config.peer_idle_ttl);
                let kept = cleaned(state.peers, now, config.peer_idle_ttl);
                let known = with_peer(config, state, ip, now);
                assert(known.peers[kept.len() as int].ip == ip);
                assert forall|i: int, j: int| 0 <= i < j < known.peers.len() implies (
                #[trigger] known.peers[i]).ip != (#[trigger] known.peers[j]).ip by {
                    assert(kept[i] == known.peers[i]);
                    if j < kept.len() {
                        assert(kept[j] == known.peers[j]);
                    } else {
                        assert(is_known(kept, known.peers[i].ip));
                    }
                }
                lemma_peer_index(known.peers, ip, kept.len() as int);
            } else {
                let slot: int = peer_index(before.peers, ip);
                assert(0 <= slot < before.peers.len() && before.peers[slot].ip == ip);
                assert(after.peers[slot].ip == ip);
                lemma_peer_index(after.peers, ip, slot);
                assert(peer_wf(config, after.peers[slot]));
                waiting_is_enough_and_no_longer_than_needed(bucket_of(after, ip), moment);
            }
        },
        _ => {},
    }
}

/// The limiter forgets a peer only after it was idle for the configured time, and only to
/// make room for another.
pub proof fn only_idle_peers_are_forgotten(
    config: HttpRequestRateLimitConfig,
    before: RateLimiterState,
    ip: IpAddr,
    now: Instant,
    peer: TrackedPeer,
)
    requires
        limiter_state_wf(config, before),
        before.peers.contains(peer),
        !is_known(admission(config, before, ip, now).0.peers, peer.ip),
    ensures
        peer.ip != ip,
        !is_known(before.peers, ip),
        now.nanos >= peer.last_seen.nanos + config.peer_idle_ttl.nanos,
{
    let state = RateLimiterState { global: refilled(before.global, now), ..before };
    let after = admission(config, before, ip, now).0;
    let at: int = choose|k: int| 0 <= k < before.peers.len() && before.peers[k] == peer;
    assert(is_known(before.peers, peer.ip));
    let kept = cleaned(state.peers, now, config.peer_idle_ttl);
    let batch: int = cleanup_len(state.peers);
    assert(config.peer_idle_ttl.nanos >= 1);
    if is_known(before.peers, ip) {
        let slot: int = peer_index(before.peers, ip);
        assert(0 <= slot < before.peers.len() && before.peers[slot].ip == ip);
        if after.peers != before.peers {
            assert(after.peers[at].ip == peer.ip);
        }
        assert(after.peers[at].ip == peer.ip);
    } else {
        if bucket_wait(state.global) is Some {
            assert(after.peers[at].ip == peer.ip);
        } else {
            if !idle_for(peer, now, config.peer_idle_ttl) || at >= batch {
                lemma_kept(state.peers, now, config.peer_idle_ttl, at);
                let spot: int = choose|k: int| 0 <= k < kept.len() && kept[k] == peer;
                let known = with_peer(config, state, ip, now);
                if kept.len() < config.max_tracked_ips {
                    assert(known.peers[spot] == peer);
                    assert(known.peers[kept.len() as int].ip == ip);
                    assert(is_known(known.peers, ip));
                    assert(0 <= peer_index(known.peers, ip) < known.peers.len());
                    assert(after.peers[spot].ip == peer.ip);
                } else {
                    assert(after.peers[spot].ip == peer.ip);
                }
            }
        }
    }
}

proof fn lemma_kept(peers: Seq<TrackedPeer>, now: Instant, ttl: Duration, at: int)
    requires
        0 <= at < peers.len(),
        !idle_for(peers[at], now, ttl) || at >= cleanup_len(peers),
    ensures
        cleaned(peers, now, ttl).contains(peers[at]),
{
    let batch: int = cleanup_len(peers);
    let keep = |p: TrackedPeer| !idle_for(p, now, ttl);
    let back: Seq<TrackedPeer> = peers.skip(batch);
    let front: Seq<TrackedPeer> = peers.take(batch).filter(keep);
    let all: Seq<TrackedPeer> = cleaned(peers, now, ttl);
    if at >= batch {
        assert(all[at - batch] == peers[at]);
    } else {
        assert(peers.take(batch)[at] == peers[at]);
        peers.take(batch).lemma_filter_contains(keep, at);
        let k: int = choose|k: int| 0 <= k < front.len() && front[k] == peers[at];
        assert(all[back.len() + k] == peers[at]);
    }
}

/// Limits pass exactly where rates are from 1 to a million, bursts hold a second's
/// worth and no more than a million, no source is allowed more than all of them
/// together, and sources are remembered within bounds: 1 to 65536 of them, for a
/// millisecond to a day.
pub proof fn limits_pass_within_their_bounds(c: HttpRequestRateLimitConfig)
    ensures
        rate_limit_fault(c) is None <==> {
            &&& 1 <= c.per_ip_requests_per_second <= c.global_requests_per_second <= 1_000_000
            &&& c.per_ip_requests_per_second <= c.per_ip_burst <= c.global_burst <= 1_000_000
            &&& c.global_requests_per_second <= c.global_burst
            &&& 1 <= c.max_tracked_ips <= 65_536
            &&& 1_000_000 <= c.peer_idle_ttl.nanos <= 86_400_000_000_000
        },
{
}

/// A fault in the limits names the bound that does not hold.
pub proof fn limit_faults_name_what_is_wrong(c: HttpRequestRateLimitConfig)
    requires
        rate_limit_fault(c) is Some,
    ensures
        match rate_limit_fault(c)->0 {
            HttpRequestRateLimitConfigError::InvalidGlobalRate => c.global_requests_per_second == 0
                || c.global_requests_per_second > 1_000_000,
            HttpRequestRateLimitConfigError::InvalidGlobalBurst => c.global_burst
                < c.global_requests_per_second || c.global_burst > 1_000_000,
            HttpRequestRateLimitConfigError::InvalidPerIpRate => c.per_ip_requests_per_second == 0
                || c.per_ip_requests_per_second > 1_000_000,
            HttpRequestRateLimitConfigError::InvalidPerIpBurst => c.per_ip_burst
                < c.per_ip_requests_per_second || c.per_ip_burst > 1_000_000,
            HttpRequestRateLimitConfigError::PerIpRateExceedsGlobal => c.per_ip_requests_per_second
                > c.global_requests_per_second,
            HttpRequestRateLimitConfigError::PerIpBurstExceedsGlobal => c.per_ip_burst
                > c.global_burst,
            HttpRequestRateLimitConfigError::InvalidTrackedIpLimit => c.max_tracked_ips == 0
                || c.max_tracked_ips > 65_536,
            HttpRequestRateLimitConfigError::InvalidPeerIdleTtl => c.peer_idle_ttl.nanos < 1_000_000
                || c.peer_idle_ttl.nanos > 86_400_000_000_000,
        },
{
}

/// The most peers that were ever tracked is never forgotten, and grows only with a peer
/// that was not tracked yet.
pub proof fn peaks_are_kept(
    config: HttpRequestRateLimitConfig,
    before: RateLimiterState,
    ip: IpAddr,
    now: Instant,
)
    requires
        limiter_state_wf(config, before),
    ensures
        ({
            let after = admission(config, before, ip, now).0;
            &&& after.peak >= before.peak
            &&& after.peak > before.peak ==> !is_known(before.peers, ip)
        }),
{
}

} // verus!
