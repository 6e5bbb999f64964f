//! Bounded, redacted, process-local HTTPS request history.

use vstd::prelude::*;
use vstd::string::*;
use vstd::utf8::*;

use crate::clock::{nanos_since, saturated_u64, Duration, Instant, NANOS_PER_MILLI};

verus! {

pub const MAX_REQUEST_HISTORY_ENTRIES: usize = 128;

pub const MAX_REQUEST_HISTORY_PATH_BYTES: usize = 2 * 1024;

pub const MAX_REQUEST_HISTORY_METHOD_BYTES: usize = 32;

pub const MAX_REQUEST_HISTORY_RESPONSE_BYTES: usize = 64 * 1024;

/// The protocol that a request came over.
#[derive(Debug, Clone, Copy, PartialEq, Eq, Structural)]
pub enum RequestHistoryProtocol {
    Http1,
    Http2,
}

/// What became of a request.
#[derive(Debug, Clone, Copy, PartialEq, Eq, Structural)]
pub enum RequestHistoryOutcome {
    Forwarded,
    LocalUnavailable,
    Timeout,
    Rejected,
}

impl RequestHistoryProtocol {
    /// The protocol's name.
    pub open spec fn text(self) -> Seq<char> {
        match self {
            RequestHistoryProtocol::Http1 => "http1"@,
            RequestHistoryProtocol::Http2 => "http2"@,
        }
    }

    /// The protocol's name.
    pub fn as_str(self) -> (name: &'static str)
        ensures
            name@ == self.text(),
    {
        match self {
            RequestHistoryProtocol::Http1 => "http1",
            RequestHistoryProtocol::Http2 => "http2",
        }
    }
}

impl RequestHistoryOutcome {
    /// The outcome's name.
    pub open spec fn text(self) -> Seq<char> {
        match self {
            RequestHistoryOutcome::Forwarded => "forwarded"@,
            RequestHistoryOutcome::LocalUnavailable => "local_unavailable"@,
            RequestHistoryOutcome::Timeout => "timeout"@,
            RequestHistoryOutcome::Rejected => "rejected"@,
        }
    }

    /// The outcome's place among the counts.
    pub open spec fn place(self) -> int {
        match self {
            RequestHistoryOutcome::Forwarded => 0,
            RequestHistoryOutcome::LocalUnavailable => 1,
            RequestHistoryOutcome::Timeout => 2,
            RequestHistoryOutcome::Rejected => 3,
        }
    }

    /// The outcome's name.
    pub fn as_str(self) -> (name: &'static str)
        ensures
            name@ == self.text(),
    {
        match self {
            RequestHistoryOutcome::Forwarded => "forwarded",
            RequestHistoryOutcome::LocalUnavailable => "local_unavailable",
            RequestHistoryOutcome::Timeout => "timeout",
            RequestHistoryOutcome::Rejected => "rejected",
        }
    }

    /// The outcome's place among the counts.
    pub fn index(self) -> (index: usize)
        ensures
            index == self.place(),
            index < 4,
    {
        match self {
            RequestHistoryOutcome::Forwarded => 0,
            RequestHistoryOutcome::LocalUnavailable => 1,
            RequestHistoryOutcome::Timeout => 2,
            RequestHistoryOutcome::Rejected => 3,
        }
    }
}

/// One recorded request.
#[derive(Debug, PartialEq, Eq)]
pub struct RequestHistoryEntry {
    pub request_id: u64,
    pub hostname: String,
    pub tunnel_id: String,
    pub method: String,
    pub path: String,
    pub path_truncated: bool,
    pub protocol: RequestHistoryProtocol,
    pub response_status: u16,
    pub response_header_ms: u64,
    pub outcome: RequestHistoryOutcome,
}

impl Clone for RequestHistoryEntry {
    fn clone(&self) -> (copy: RequestHistoryEntry)
        ensures
            copy == *self,
    {
        RequestHistoryEntry {
            request_id: self.request_id,
            hostname: self.hostname.clone(),
            tunnel_id: self.tunnel_id.clone(),
            method: self.method.clone(),
            path: self.path.clone(),
            path_truncated: self.path_truncated,
            protocol: self.protocol,
            response_status: self.response_status,
            response_header_ms: self.response_header_ms,
            outcome: self.outcome,
        }
    }
}

/// What a history shows at one moment, the newest request first.
#[derive(Debug)]
pub struct RequestHistorySnapshot {
    pub capacity: usize,
    pub recorded_total: u64,
    pub evicted_total: u64,
    pub sequence_exhaustions: u64,
    pub outcomes: [u64; 4],
    pub entries: Vec<RequestHistoryEntry>,
}

impl RequestHistorySnapshot {
    /// How many requests had that outcome.
    pub fn outcome_count(&self, outcome: RequestHistoryOutcome) -> (count: u64)
        ensures
            count == self.outcomes@[outcome.place()],
    {
        self.outcomes[outcome.index()]
    }
}

/// The capacity is not one that a history may have.
#[derive(Debug, Clone, Copy, PartialEq, Eq, Structural)]
pub enum RequestHistoryConfigError {
    InvalidCapacity,
}

impl RequestHistoryConfigError {
    /// The text shown to an operator.
    pub fn message(self) -> (message: &'static str)
        ensures
            message@ == "request history capacity must be between 1 and 128"@,
    {
        "request history capacity must be between 1 and 128"
    }
}

/// A request that has not been answered yet.
#[derive(Debug)]
pub struct RequestHistoryPending {
    pub hostname: String,
    pub tunnel_id: String,
    pub method: String,
    pub path: String,
    pub path_truncated: bool,
    pub protocol: RequestHistoryProtocol,
    pub started: Instant,
    pub outcome: RequestHistoryOutcome,
}

/// The most recent requests, and how many there were of each outcome.
#[derive(Debug)]
pub struct RequestHistory {
    pub capacity: usize,
    pub next_id: u64,
    pub recorded_total: u64,
    pub evicted_total: u64,
    pub sequence_exhaustions: u64,
    pub outcomes: [u64; 4],
    pub entries: Vec<RequestHistoryEntry>,
}

/// What a history holds: the oldest request first.
#[verifier::ext_equal]
pub struct HistoryState {
    pub capacity: nat,
    pub next_id: u64,
    pub recorded_total: u64,
    pub evicted_total: u64,
    pub sequence_exhaustions: u64,
    pub outcomes: Seq<u64>,
    pub entries: Seq<RequestHistoryEntry>,
}

impl View for RequestHistory {
    type V = HistoryState;

    open spec fn view(&self) -> HistoryState {
        HistoryState {
            capacity: self.capacity as nat,
            next_id: self.next_id,
            recorded_total: self.recorded_total,
            evicted_total: self.evicted_total,
            sequence_exhaustions: self.sequence_exhaustions,
            outcomes: self.outcomes@,
            entries: self.entries@,
        }
    }
}

/// One more, but no more than the largest `u64`.
pub open spec fn one_more(n: u64) -> u64 {
    if n == u64::MAX { n } else { (n + 1) as u64 }
}

/// The entry for a request.
pub open spec fn entry_of(
    pending: RequestHistoryPending,
    request_id: u64,
    response_status: u16,
    elapsed: Duration,
) -> RequestHistoryEntry {
    RequestHistoryEntry {
        request_id,
        hostname: pending.hostname,
        tunnel_id: pending.tunnel_id,
        method: pending.method,
        path: pending.path,
        path_truncated: pending.path_truncated,
        protocol: pending.protocol,
        response_status,
        response_header_ms: saturated_u64((elapsed.nanos / NANOS_PER_MILLI) as nat) as u64,
        outcome: pending.outcome,
    }
}

/// The history with one request more. Identifiers count up from 1; once they are
/// used up nothing more is recorded. The oldest request leaves where there is no
/// room.
pub open spec fn recorded(
    history: HistoryState,
    pending: RequestHistoryPending,
    response_status: u16,
    elapsed: Duration,
) -> HistoryState {
    if history.next_id == 0 {
        HistoryState {
            sequence_exhaustions: one_more(history.sequence_exhaustions),
            ..history
        }
    } else {
        let full = history.entries.len() == history.capacity;
        let kept = if full && history.entries.len() > 0 {
            history.entries.skip(1)
        } else {
            history.entries
        };
        HistoryState {
            capacity: history.capacity,
            next_id: if history.next_id == u64::MAX { 0 } else { (history.next_id + 1) as u64 },
            recorded_total: one_more(history.recorded_total),
            evicted_total: if full {
                one_more(history.evicted_total)
            } else {
                history.evicted_total
            },
            sequence_exhaustions: history.sequence_exhaustions,
            outcomes: history.outcomes.update(
                pending.outcome.place(),
                one_more(history.outcomes[pending.outcome.place()]),
            ),
            entries: kept.push(entry_of(pending, history.next_id, response_status, elapsed)),
        }
    }
}

/// A method's name, or a fixed one where it is too long.
pub open spec fn method_shown(method: Seq<char>) -> Seq<char> {
    if encode_utf8(method).len() <= MAX_REQUEST_HISTORY_METHOD_BYTES { method } else { "OTHER"@ }
}

/// The largest character boundary that is no more than `end`.
pub open spec fn boundary_before(bytes: Seq<u8>, end: int) -> int
    decreases end,
{
    if end <= 0 || is_char_boundary(bytes, end) { end } else { boundary_before(bytes, end - 1) }
}

/// The bytes of a path that are shown: all where there are few enough, else as
/// many whole characters as fit.
pub open spec fn path_shown(path: Seq<u8>) -> Seq<u8> {
    if path.len() <= MAX_REQUEST_HISTORY_PATH_BYTES {
        path
    } else {
        path.take(boundary_before(path, MAX_REQUEST_HISTORY_PATH_BYTES as int))
    }
}

/// A method's name, or a fixed one where it is too long.
pub fn bounded_method(method: &str) -> (shown: String)
    ensures
        shown@ == method_shown(method@),
{
    if method.as_bytes().len() <= MAX_REQUEST_HISTORY_METHOD_BYTES {
        method.to_owned()
    } else {
        "OTHER".to_owned()
    }
}

/// The part of a path that is shown, and whether that is not all of it.
pub fn bounded_path(path: &str) -> (shown: (String, bool))
    ensures
        encode_utf8(shown.0@) == path_shown(encode_utf8(path@)),
        shown.1 == (encode_utf8(path@).len() > MAX_REQUEST_HISTORY_PATH_BYTES),
        !shown.1 ==> shown.0@ == path@,
{
    let bytes: &[u8] = path.as_bytes();
    if bytes.len() <= MAX_REQUEST_HISTORY_PATH_BYTES {
        return (path.to_owned(), false);
    }
    let mut end: usize = MAX_REQUEST_HISTORY_PATH_BYTES;
    while !path.is_char_boundary(end)
        invariant
            end <= MAX_REQUEST_HISTORY_PATH_BYTES < path.spec_bytes().len(),
            boundary_before(path.spec_bytes(), MAX_REQUEST_HISTORY_PATH_BYTES as int)
                == boundary_before(path.spec_bytes(), end as int),
        decreases end,
    {
        proof {
            encode_utf8_valid_utf8(path@);
            is_char_boundary_start_end_of_seq(path.spec_bytes());
        }
        end = end - 1;
    }
    let (front, _): (&str, &str) = path.split_at(end);
    proof {
        assert(front.spec_bytes() =~= path.spec_bytes().take(end as int));
    }
    (front.to_owned(), true)
}

impl RequestHistoryPending {
    /// Notes what became of the request.
    pub fn set_outcome(&mut self, outcome: RequestHistoryOutcome)
        ensures
            *final(self) == (RequestHistoryPending { outcome, ..*old(self) }),
    {
        self.outcome = outcome;
    }

    /// Records the request as answered at `now`.
    pub fn finish(self, history: &mut RequestHistory, response_status: u16, now: Instant)
        ensures
            final(history)@ == recorded(
                old(history)@,
                self,
                response_status,
                Duration { nanos: nanos_since(now, self.started) as u128 },
            ),
    {
        let elapsed: Duration = now.saturating_duration_since(self.started);
        history.record(self, response_status, elapsed);
    }
}

impl RequestHistory {
    /// An empty history of that capacity.
    pub fn new(capacity: usize) -> (result: Result<RequestHistory, RequestHistoryConfigError>)
        ensures
            match result {
                Ok(history) => 1 <= capacity <= MAX_REQUEST_HISTORY_ENTRIES && history@ == (
                HistoryState {
                    capacity: capacity as nat,
                    next_id: 1,
                    recorded_total: 0,
                    evicted_total: 0,
                    sequence_exhaustions: 0,
                    outcomes: seq![0, 0, 0, 0],
                    entries: Seq::empty(),
                }) && history_wf(history@),
                Err(error) => !(1 <= capacity <= MAX_REQUEST_HISTORY_ENTRIES) && error
                    == RequestHistoryConfigError::InvalidCapacity,
            },
    {
        if capacity < 1 || capacity > MAX_REQUEST_HISTORY_ENTRIES {
            return Err(RequestHistoryConfigError::InvalidCapacity);
        }
        let history = RequestHistory {
            capacity,
            next_id: 1,
            recorded_total: 0,
            evicted_total: 0,
            sequence_exhaustions: 0,
            outcomes: [0, 0, 0, 0],
            entries: Vec::new(),
        };
        proof {
            assert(history@.outcomes =~= seq![0, 0, 0, 0]);
            reveal_with_fuel(total, 5);
            assert(history_wf(history@));
        }
        Ok(history)
    }

    /// Notes a request that has been received; it counts as forwarded until
    /// something else is known.
    pub fn begin(
        &self,
        hostname: &str,
        tunnel_id: &str,
        method: &str,
        path: &str,
        protocol: RequestHistoryProtocol,
        started: Instant,
    ) -> (pending: RequestHistoryPending)
        ensures
            pending.hostname@ == hostname@,
            pending.tunnel_id@ == tunnel_id@,
            pending.method@ == method_shown(method@),
            encode_utf8(pending.path@) == path_shown(encode_utf8(path@)),
            pending.path_truncated == (encode_utf8(path@).len() > MAX_REQUEST_HISTORY_PATH_BYTES),
            pending.protocol == protocol,
            pending.started == started,
            pending.outcome == RequestHistoryOutcome::Forwarded,
    {
        let (path, path_truncated): (String, bool) = bounded_path(path);
        RequestHistoryPending {
            hostname: hostname.to_owned(),
            tunnel_id: tunnel_id.to_owned(),
            method: bounded_method(method),
            path,
            path_truncated,
            protocol,
            started,
            outcome: RequestHistoryOutcome::Forwarded,
        }
    }

    /// Records a request that took so long to be answered.
    pub fn record(&mut self, pending: RequestHistoryPending, response_status: u16, elapsed: Duration)
        ensures
            final(self)@ == recorded(old(self)@, pending, response_status, elapsed),
    {
        if self.next_id == 0 {
            self.sequence_exhaustions = self.sequence_exhaustions.saturating_add(1);
            return ;
        }
        let request_id: u64 = self.next_id;
        self.next_id = if request_id == u64::MAX { 0 } else { request_id + 1 };
        if self.entries.len() == self.capacity {
            if self.entries.len() > 0 {
                let _ = self.entries.remove(0);
                proof {
                    assert(self.entries@ =~= old(self).entries@.skip(1));
                }
            }
            self.evicted_total = self.evicted_total.saturating_add(1);
        }
        self.recorded_total = self.recorded_total.saturating_add(1);
        let place: usize = pending.outcome.index();
        let count: u64 = self.outcomes[place].saturating_add(1);
        self.outcomes[place] = count;
        self.entries.push(
            RequestHistoryEntry {
                request_id,
                hostname: pending.hostname,
                tunnel_id: pending.tunnel_id,
                method: pending.method,
                path: pending.path,
                path_truncated: pending.path_truncated,
                protocol: pending.protocol,
                response_status,
                response_header_ms: elapsed.as_millis_saturating(),
                outcome: pending.outcome,
            },
        );
        proof {
            assert(self@ =~= recorded(old(self)@, pending, response_status, elapsed));
        }
    }

    /// What the history shows now, the newest request first.
    pub fn snapshot(&self) -> (snapshot: RequestHistorySnapshot)
        ensures
            snapshot.capacity == self@.capacity,
            snapshot.recorded_total == self@.recorded_total,
            snapshot.evicted_total == self@.evicted_total,
            snapshot.sequence_exhaustions == self@.sequence_exhaustions,
            snapshot.outcomes@ == self@.outcomes,
            snapshot.entries@ == self@.entries.reverse(),
    {
        let mut entries: Vec<RequestHistoryEntry> = Vec::new();
        let mut left: usize = self.entries.len();
        while left > 0
            invariant
                left <= self.entries@.len(),
                entries@.len() == self.entries@.len() - left,
                forall|i: int|
                    0 <= i < entries@.len() ==> #[trigger] entries@[i]
                        == self.entries@[self.entries@.len() - 1 - i],
            decreases left,
        {
            left = left - 1;
            entries.push(self.entries[left].clone());
        }
        proof {
            assert(entries@ =~= self.entries@.reverse());
        }
        RequestHistorySnapshot {
            capacity: self.capacity,
            recorded_total: self.recorded_total,
            evicted_total: self.evicted_total,
            sequence_exhaustions: self.sequence_exhaustions,
            outcomes: self.outcomes,
            entries,
        }
    }
}

/// The sum of counts.
pub open spec fn total(counts: Seq<u64>) -> nat
    decreases counts.len(),
{
    if counts.len() == 0 { 0 } else { total(counts.drop_last()) + counts.last() as nat }
}

/// What holds of every history: it holds no more requests than it may, in the
/// order of their identifiers, which are consecutive and end with the last one
/// given; every recorded request is held or evicted, and counted under its
/// outcome.
pub open spec fn history_wf(history: HistoryState) -> bool {
    &&& 1 <= history.capacity <= MAX_REQUEST_HISTORY_ENTRIES
    &&& history.entries.len() <= history.capacity
    &&& history.recorded_total == (if history.next_id == 0 {
        u64::MAX as int
    } else {
        history.next_id - 1
    })
    &&& history.recorded_total == history.evicted_total + history.entries.len()
    &&& history.outcomes.len() == 4
    &&& total(history.outcomes) == history.recorded_total
    &&& forall|i: int|
        0 <= i < history.entries.len() ==> (#[trigger] history.entries[i]).request_id
            == history.evicted_total + 1 + i
}

proof fn lemma_total_update(counts: Seq<u64>, place: int)
    requires
        0 <= place < counts.len(),
        counts[place] < u64::MAX,
    ensures
        total(counts.update(place, (counts[place] + 1) as u64)) == total(counts) + 1,
    decreases counts.len(),
{
    let more: Seq<u64> = counts.update(place, (counts[place] + 1) as u64);
    if place == counts.len() - 1 {
        assert(more.drop_last() =~= counts.drop_last());
    } else {
        assert(more.drop_last() =~= counts.drop_last().update(place, (counts[place] + 1) as u64));
        lemma_total_update(counts.drop_last(), place);
    }
}

proof fn lemma_total_bounds(counts: Seq<u64>, place: int)
    requires
        0 <= place < counts.len(),
    ensures
        counts[place] <= total(counts),
    decreases counts.len(),
{
    if place < counts.len() - 1 {
        lemma_total_bounds(counts.drop_last(), place);
    }
}

/// Recording keeps a history in order, and once identifiers are used up it
/// changes nothing but the count of requests that were not recorded.
pub proof fn recording_keeps_history_in_order(
    history: HistoryState,
    pending: RequestHistoryPending,
    response_status: u16,
    elapsed: Duration,
)
    requires
        history_wf(history),
    ensures
        history_wf(recorded(history, pending, response_status, elapsed)),
        history.next_id == 0 ==> recorded(history, pending, response_status, elapsed).entries
            == history.entries,
        history.next_id != 0 ==> recorded(
            history,
            pending,
            response_status,
            elapsed,
        ).entries.last().request_id == history.next_id,
{
    let after = recorded(history, pending, response_status, elapsed);
    if history.next_id != 0 {
        let place: int = pending.outcome.place();
        lemma_total_bounds(history.outcomes, place);
        assert(history.recorded_total < u64::MAX);
        lemma_total_update(history.outcomes, place);
        assert forall|i: int| 0 <= i < after.entries.len() implies (
        #[trigger] after.entries[i]).request_id == after.evicted_total + 1 + i by {
            if history.entries.len() == history.capacity {
                if i < after.entries.len() - 1 {
                    assert(after.entries[i] == history.entries[i + 1]);
                }
            } else if i < after.entries.len() - 1 {
                assert(after.entries[i] == history.entries[i]);
            }
        }
    }
}

/// A request is recorded as it was: behind all earlier ones, under the next identifier,
/// with the status that it was answered and the time that it took; the earlier requests
/// stay as they were, but for the oldest where there is no room.
pub proof fn requests_are_recorded_as_they_were(
    history: HistoryState,
    pending: RequestHistoryPending,
    response_status: u16,
    elapsed: Duration,
)
    requires
        history_wf(history),
        history.next_id != 0,
    ensures
        ({
            let after = recorded(history, pending, response_status, elapsed);
            let entry = after.entries.last();
            &&& after.entries.len() == (if history.entries.len() < history.capacity {
                history.entries.len() + 1
            } else {
                history.entries.len()
            })
            &&& after.entries.drop_last() == (if history.entries.len() < history.capacity {
                history.entries
            } else {
                history.entries.skip(1)
            })
            &&& entry.request_id == history.next_id
            &&& entry.hostname@ == pending.hostname@
            &&& entry.tunnel_id@ == pending.tunnel_id@
            &&& entry.method@ == pending.method@
            &&& entry.path@ == pending.path@
            &&& entry.path_truncated == pending.path_truncated
            &&& entry.protocol == pending.protocol
            &&& entry.response_status == response_status
            &&& elapsed.nanos / 1_000_000 <= u64::MAX ==> entry.response_header_ms
                == elapsed.nanos / 1_000_000
            &&& entry.outcome == pending.outcome
            &&& after.recorded_total == history.recorded_total + 1
            &&& after.evicted_total == history.evicted_total + (if history.entries.len()
                < history.capacity {
                0int
            } else {
                1
            })
        }),
{
    let after = recorded(history, pending, response_status, elapsed);
    recording_keeps_history_in_order(history, pending, response_status, elapsed);
    assert(after.entries.drop_last() =~= (if history.entries.len() < history.capacity {
        history.entries
    } else {
        history.entries.skip(1)
    }));
    lemma_total_bounds(history.outcomes, pending.outcome.place());
}

/// A method is shown as it is where it is short, and a path as far as it fits, never more
/// than its own beginning.
pub proof fn requests_are_shown_as_far_as_they_fit(method: Seq<char>, path: Seq<u8>)
    ensures
        encode_utf8(method).len() <= MAX_REQUEST_HISTORY_METHOD_BYTES ==> method_shown(method)
            == method,
        encode_utf8(method).len() > MAX_REQUEST_HISTORY_METHOD_BYTES ==> method_shown(method)
            == "OTHER"@,
        path.len() <= MAX_REQUEST_HISTORY_PATH_BYTES ==> path_shown(path) == path,
        path.len() > MAX_REQUEST_HISTORY_PATH_BYTES ==> path_shown(path).len()
            <= MAX_REQUEST_HISTORY_PATH_BYTES && path_shown(path) == path.take(
            path_shown(path).len() as int,
        ),
{
    if path.len() > MAX_REQUEST_HISTORY_PATH_BYTES {
        lemma_boundary_within(path, MAX_REQUEST_HISTORY_PATH_BYTES as int);
        assert(path_shown(path) =~= path.take(path_shown(path).len() as int));
    }
}

proof fn lemma_boundary_within(bytes: Seq<u8>, end: int)
    requires
        0 <= end,
    ensures
        0 <= boundary_before(bytes, end) <= end,
    decreases end,
{
    if end > 0 && !is_char_boundary(bytes, end) {
        lemma_boundary_within(bytes, end - 1);
    }
}

/// A request that is recorded counts towards its own outcome, and no outcome shares the
/// count of another.
pub proof fn outcomes_are_counted_apart(
    history: HistoryState,
    pending: RequestHistoryPending,
    response_status: u16,
    elapsed: Duration,
    outcome: RequestHistoryOutcome,
)
    requires
        history_wf(history),
        history.next_id != 0,
    ensures
        recorded(history, pending, response_status, elapsed).outcomes[outcome.place()]
            == history.outcomes[outcome.place()] + (if outcome == pending.outcome {
            1int
        } else {
            0
        }),
        outcome.place() == pending.outcome.place() ==> outcome == pending.outcome,
        0 <= outcome.place() < 4,
{
    lemma_total_bounds(history.outcomes, pending.outcome.place());
}

/// Identifiers count up by one; after the last one nothing is recorded any more, and each
/// request that is not is counted.
pub proof fn identifiers_count_up(
    history: HistoryState,
    pending: RequestHistoryPending,
    response_status: u16,
    elapsed: Duration,
)
    requires
        history_wf(history),
    ensures
        ({
            let after = recorded(history, pending, response_status, elapsed);
            &&& 0 < history.next_id < u64::MAX ==> after.next_id == history.next_id + 1
            &&& history.next_id == u64::MAX ==> after.next_id == 0
            &&& history.next_id != 0 ==> after.sequence_exhaustions == history.sequence_exhaustions
            &&& history.next_id == 0 && history.sequence_exhaustions < u64::MAX
                ==> after.sequence_exhaustions == history.sequence_exhaustions + 1
            &&& history.next_id == 0 ==> after.next_id == 0 && after.recorded_total
                == history.recorded_total && after.evicted_total == history.evicted_total
                && after.outcomes == history.outcomes
            &&& after.capacity == history.capacity
        }),
{
}

/// A path that is cut ends with a whole character, and with the last one that fits into 2
/// KiB; a method of up to 32 bytes is shown whole.
pub proof fn cut_paths_end_with_a_character(path: Seq<u8>, method: Seq<char>)
    requires
        valid_utf8(path),
    ensures
        path.len() > 2048 ==> ({
            let n = path_shown(path).len() as int;
            &&& n == 0 || is_char_boundary(path, n)
            &&& forall|k: int| n < k <= 2048 ==> !#[trigger] is_char_boundary(path, k)
        }),
        path.len() <= 2048 ==> path_shown(path) == path,
        encode_utf8(method).len() <= 32 ==> method_shown(method) == method,
{
    if path.len() > 2048 {
        lemma_boundary_within(path, 2048);
        lemma_boundary_is_last(path, 2048);
    }
}

proof fn lemma_boundary_is_last(bytes: Seq<u8>, end: int)
    requires
        0 <= end,
    ensures
        boundary_before(bytes, end) == 0 || is_char_boundary(bytes, boundary_before(bytes, end)),
        forall|k: int|
            boundary_before(bytes, end) < k <= end ==> !#[trigger] is_char_boundary(bytes, k),
    decreases end,
{
    if end > 0 && !is_char_boundary(bytes, end) {
        lemma_boundary_is_last(bytes, end - 1);
    }
}

} // verus!
