//! The metrics page: a fixed list of series, whatever their values are.

use vstd::prelude::*;
use vstd::string::*;

use crate::http_routes::HttpsRouteSourceHealth;
use crate::http_status::HttpIngressStatus;
use crate::multiplex::AuthorizationSourceStatus;
use crate::raw_ingress::RawIngressRouteStatus;
use crate::request_history::{RequestHistoryOutcome, RequestHistorySnapshot};
use crate::text::{decimal, push_decimal};

verus! {

/// One line of the page: what kind of metric a name stands for, or the value of a
/// series.
pub enum MetricRow {
    Type { name: Seq<char>, kind: Seq<char> },
    Sample { series: Seq<char>, value: u64 },
}

/// How a line is written.
pub open spec fn row_text(row: MetricRow) -> Seq<char> {
    match row {
        MetricRow::Type { name, kind } => "# TYPE "@ + name + " "@ + kind + "\n"@,
        MetricRow::Sample { series, value } => series + " "@ + decimal(value as nat) + "\n"@,
    }
}

/// How lines are written.
pub open spec fn page_text(rows: Seq<MetricRow>) -> Seq<char>
    decreases rows.len(),
{
    if rows.len() == 0 {
        Seq::empty()
    } else {
        page_text(rows.drop_last()) + row_text(rows.last())
    }
}

/// What a line says apart from a value.
pub open spec fn row_label(row: MetricRow) -> (Seq<char>, Seq<char>) {
    match row {
        MetricRow::Type { name, kind } => (name, kind),
        MetricRow::Sample { series, .. } => (series, Seq::empty()),
    }
}

/// What lines say apart from their values.
pub open spec fn labels(rows: Seq<MetricRow>) -> Seq<(Seq<char>, Seq<char>)> {
    rows.map_values(|row: MetricRow| row_label(row))
}

/// The lines with one that gives a name its kind.
pub open spec fn with_type(rows: Seq<MetricRow>, name: Seq<char>, kind: Seq<char>) -> Seq<
    MetricRow,
> {
    rows.push(MetricRow::Type { name, kind })
}

/// The lines with the value of a series.
pub open spec fn with_sample(rows: Seq<MetricRow>, series: Seq<char>, value: u64) -> Seq<
    MetricRow,
> {
    rows.push(MetricRow::Sample { series, value })
}

/// The lines with a metric that is one series.
pub open spec fn with_metric(
    rows: Seq<MetricRow>,
    name: Seq<char>,
    kind: Seq<char>,
    value: u64,
) -> Seq<MetricRow> {
    with_sample(with_type(rows, name, kind), name, value)
}

/// One for yes, nothing for no.
pub open spec fn flag(yes: bool) -> u64 {
    if yes { 1 } else { 0 }
}

/// One for yes, nothing for no.
pub fn one_if(yes: bool) -> (value: u64)
    ensures
        value == flag(yes),
{
    if yes {
        1
    } else {
        0
    }
}

/// A page that is being written, and the lines on it.
pub struct MetricPage {
    pub text: String,
    pub rows: Ghost<Seq<MetricRow>>,
}

impl MetricPage {
    /// The text is that of the lines.
    pub open spec fn wf(self) -> bool {
        self.text@ == page_text(self.rows@)
    }

    /// An empty page.
    pub fn new() -> (page: MetricPage)
        ensures
            page.wf(),
            page.rows@ == Seq::<MetricRow>::empty(),
    {
        MetricPage { text: String::new(), rows: Ghost(Seq::empty()) }
    }

    /// Writes what kind of metric a name stands for.
    pub fn metric_type(&mut self, name: &str, kind: &str)
        requires
            old(self).wf(),
        ensures
            final(self).wf(),
            final(self).rows@ == with_type(old(self).rows@, name@, kind@),
    {
        self.text.append("# TYPE ");
        self.text.append(name);
        self.text.append(" ");
        self.text.append(kind);
        self.text.append("\n");
        let ghost row = MetricRow::Type { name: name@, kind: kind@ };
        proof {
            let more = old(self).rows@.push(row);
            assert(more.drop_last() =~= old(self).rows@);
            assert(self.text@ =~= page_text(old(self).rows@) + row_text(row));
        }
        self.rows = Ghost(self.rows@.push(row));
    }

    /// Writes the value of a series.
    pub fn sample(&mut self, series: &str, value: u64)
        requires
            old(self).wf(),
        ensures
            final(self).wf(),
            final(self).rows@ == with_sample(old(self).rows@, series@, value),
    {
        self.text.append(series);
        self.text.append(" ");
        push_decimal(&mut self.text, value);
        self.text.append("\n");
        let ghost row = MetricRow::Sample { series: series@, value };
        proof {
            let more = old(self).rows@.push(row);
            assert(more.drop_last() =~= old(self).rows@);
            assert(self.text@ =~= page_text(old(self).rows@) + row_text(row));
        }
        self.rows = Ghost(self.rows@.push(row));
    }

    /// Writes a metric that is one series.
    pub fn metric(&mut self, name: &str, kind: &str, value: u64)
        requires
            old(self).wf(),
        ensures
            final(self).wf(),
            final(self).rows@ == with_metric(old(self).rows@, name@, kind@, value),
    {
        self.metric_type(name, kind);
        self.sample(name, value);
    }
}

/// The process's log buffer at one moment.
#[derive(Debug, Clone, Copy, PartialEq, Eq, Structural)]
pub struct ProcessLoggingSnapshot {
    pub buffer_capacity_events: u64,
    pub accepted_events: u64,
    pub dropped_events: u64,
    pub oversized_events: u64,
    pub write_failures: u64,
}

/// The Agent sessions' traffic at one moment.
#[derive(Debug, Clone, Copy, PartialEq, Eq, Structural)]
pub struct MultiplexTelemetrySnapshot {
    pub active_streams: u64,
    pub peak_active_streams: u64,
    pub sent_data_frames: u64,
    pub received_data_frames: u64,
    pub sent_data_bytes: u64,
    pub received_data_bytes: u64,
    pub data_admission_waits: u64,
    pub data_pipeline_frames: u64,
    pub data_pipeline_capacity_frames: u64,
    pub peak_data_pipeline_frames: u64,
    pub flow_control_resets: u64,
    pub control_burst_yields: u64,
}

/// The operations endpoint's counters at one moment.
#[derive(Debug, Clone, Copy, PartialEq, Eq, Structural)]
pub struct OperationsCounterSnapshot {
    pub active_connections: usize,
    pub accepted_connections: u64,
    pub completed_requests: u64,
    pub rejected_requests: u64,
    pub capacity_rejections: u64,
}

/// The ingress at one moment.
#[derive(Debug)]
pub enum IngressMetricSnapshot {
    Raw(Option<RawIngressRouteStatus>),
    Https {
        status: HttpIngressStatus,
        route_health: Option<HttpsRouteSourceHealth>,
        route_version: u64,
        route_count: usize,
        request_history: Option<RequestHistorySnapshot>,
    },
}

/// What the page shows.
#[derive(Debug)]
pub struct EdgeMetricSnapshot {
    pub ready: bool,
    pub tunnel_connected: bool,
    pub authorization_source: AuthorizationSourceStatus,
    pub authorization_version: u64,
    pub revoked_sessions: u64,
    pub logging: ProcessLoggingSnapshot,
    pub transport: MultiplexTelemetrySnapshot,
    pub operations: OperationsCounterSnapshot,
    pub ingress: IngressMetricSnapshot,
}

/// The lines about the log buffer.
pub open spec fn logging_rows(
    rows: Seq<MetricRow>,
    logging: ProcessLoggingSnapshot,
) -> Seq<MetricRow> {
    let rows = with_metric(rows, "tunnelproxy_edge_logging_nonblocking_enabled"@, "gauge"@, flag(logging.buffer_capacity_events > 0));
    let rows = with_metric(rows, "tunnelproxy_edge_logging_buffer_capacity_events"@, "gauge"@, logging.buffer_capacity_events);
    let rows = with_metric(rows, "tunnelproxy_edge_logging_accepted_events_total"@, "counter"@, logging.accepted_events);
    let rows = with_metric(rows, "tunnelproxy_edge_logging_dropped_events_total"@, "counter"@, logging.dropped_events);
    let rows = with_metric(rows, "tunnelproxy_edge_logging_oversized_events_total"@, "counter"@, logging.oversized_events);
    let rows = with_metric(rows, "tunnelproxy_edge_logging_write_failures_total"@, "counter"@, logging.write_failures);
    rows
}

/// The lines about the log buffer.
pub fn render_logging_metrics(
    page: &mut MetricPage,
    logging: ProcessLoggingSnapshot,
)
    requires
        old(page).wf(),
    ensures
        final(page).wf(),
        final(page).rows@ == logging_rows(old(page).rows@, logging),
{
    page.metric("tunnelproxy_edge_logging_nonblocking_enabled", "gauge", one_if(logging.buffer_capacity_events > 0));
    page.metric("tunnelproxy_edge_logging_buffer_capacity_events", "gauge", logging.buffer_capacity_events);
    page.metric("tunnelproxy_edge_logging_accepted_events_total", "counter", logging.accepted_events);
    page.metric("tunnelproxy_edge_logging_dropped_events_total", "counter", logging.dropped_events);
    page.metric("tunnelproxy_edge_logging_oversized_events_total", "counter", logging.oversized_events);
    page.metric("tunnelproxy_edge_logging_write_failures_total", "counter", logging.write_failures);
}

/// The lines about the Agent sessions' traffic.
pub open spec fn transport_rows(
    rows: Seq<MetricRow>,
    transport: MultiplexTelemetrySnapshot,
) -> Seq<MetricRow> {
    let rows = with_metric(rows, "tunnelproxy_edge_transport_active_streams"@, "gauge"@, transport.active_streams);
    let rows = with_metric(rows, "tunnelproxy_edge_transport_peak_active_streams"@, "gauge"@, transport.peak_active_streams);
    let rows = with_type(rows, "tunnelproxy_edge_transport_data_frames_total"@, "counter"@);
    let rows = with_sample(rows, "tunnelproxy_edge_transport_data_frames_total{direction=\"sent\"}"@, transport.sent_data_frames);
    let rows = with_sample(rows, "tunnelproxy_edge_transport_data_frames_total{direction=\"received\"}"@, transport.received_data_frames);
    let rows = with_type(rows, "tunnelproxy_edge_transport_data_bytes_total"@, "counter"@);
    let rows = with_sample(rows, "tunnelproxy_edge_transport_data_bytes_total{direction=\"sent\"}"@, transport.sent_data_bytes);
    let rows = with_sample(rows, "tunnelproxy_edge_transport_data_bytes_total{direction=\"received\"}"@, transport.received_data_bytes);
    let rows = with_metric(rows, "tunnelproxy_edge_transport_data_admission_waits_total"@, "counter"@, transport.data_admission_waits);
    let rows = with_metric(rows, "tunnelproxy_edge_transport_data_pipeline_frames"@, "gauge"@, transport.data_pipeline_frames);
    let rows = with_metric(rows, "tunnelproxy_edge_transport_data_pipeline_capacity_frames"@, "gauge"@, transport.data_pipeline_capacity_frames);
    let rows = with_metric(rows, "tunnelproxy_edge_transport_peak_data_pipeline_frames"@, "gauge"@, transport.peak_data_pipeline_frames);
    let rows = with_metric(rows, "tunnelproxy_edge_transport_flow_control_resets_total"@, "counter"@, transport.flow_control_resets);
    let rows = with_metric(rows, "tunnelproxy_edge_transport_control_burst_yields_total"@, "counter"@, transport.control_burst_yields);
    rows
}

/// The lines about the Agent sessions' traffic.
pub fn render_transport_metrics(
    page: &mut MetricPage,
    transport: MultiplexTelemetrySnapshot,
)
    requires
        old(page).wf(),
    ensures
        final(page).wf(),
        final(page).rows@ == transport_rows(old(page).rows@, transport),
{
    page.metric("tunnelproxy_edge_transport_active_streams", "gauge", transport.active_streams);
    page.metric("tunnelproxy_edge_transport_peak_active_streams", "gauge", transport.peak_active_streams);
    page.metric_type("tunnelproxy_edge_transport_data_frames_total", "counter");
    page.sample("tunnelproxy_edge_transport_data_frames_total{direction=\"sent\"}", transport.sent_data_frames);
    page.sample("tunnelproxy_edge_transport_data_frames_total{direction=\"received\"}", transport.received_data_frames);
    page.metric_type("tunnelproxy_edge_transport_data_bytes_total", "counter");
    page.sample("tunnelproxy_edge_transport_data_bytes_total{direction=\"sent\"}", transport.sent_data_bytes);
    page.sample("tunnelproxy_edge_transport_data_bytes_total{direction=\"received\"}", transport.received_data_bytes);
    page.metric("tunnelproxy_edge_transport_data_admission_waits_total", "counter", transport.data_admission_waits);
    page.metric("tunnelproxy_edge_transport_data_pipeline_frames", "gauge", transport.data_pipeline_frames);
    page.metric("tunnelproxy_edge_transport_data_pipeline_capacity_frames", "gauge", transport.data_pipeline_capacity_frames);
    page.metric("tunnelproxy_edge_transport_peak_data_pipeline_frames", "gauge", transport.peak_data_pipeline_frames);
    page.metric("tunnelproxy_edge_transport_flow_control_resets_total", "counter", transport.flow_control_resets);
    page.metric("tunnelproxy_edge_transport_control_burst_yields_total", "counter", transport.control_burst_yields);
}

/// The lines about raw ingress.
pub open spec fn raw_rows(
    rows: Seq<MetricRow>,
    status: Option<RawIngressRouteStatus>,
) -> Seq<MetricRow> {
    let rows = with_metric(rows, "tunnelproxy_edge_ingress_mode_raw"@, "gauge"@, 1);
    let rows = with_metric(rows, "tunnelproxy_edge_ingress_mode_https"@, "gauge"@, 0);
    let rows = with_metric(rows, "tunnelproxy_edge_raw_route_present"@, "gauge"@, flag(status is Some));
    let rows = with_metric(
        rows,
        "tunnelproxy_edge_raw_active_connections"@,
        "gauge"@,
        if status is Some { status->0.active_connections as u64 } else { 0 },
    );
    let rows = with_metric(
        rows,
        "tunnelproxy_edge_raw_accepted_connections_total"@,
        "counter"@,
        if status is Some { status->0.accepted_connections as u64 } else { 0 },
    );
    let rows = with_metric(
        rows,
        "tunnelproxy_edge_raw_global_capacity_rejections_total"@,
        "counter"@,
        if status is Some { status->0.global_capacity_rejections as u64 } else { 0 },
    );
    let rows = with_metric(
        rows,
        "tunnelproxy_edge_raw_per_ip_capacity_rejections_total"@,
        "counter"@,
        if status is Some { status->0.per_ip_capacity_rejections as u64 } else { 0 },
    );
    let rows = with_metric(
        rows,
        "tunnelproxy_edge_raw_target_unavailable_rejections_total"@,
        "counter"@,
        if status is Some { status->0.target_unavailable_rejections as u64 } else { 0 },
    );
    rows
}

/// The lines about raw ingress.
pub fn render_raw_metrics(page: &mut MetricPage, status: &Option<RawIngressRouteStatus>)
    requires
        old(page).wf(),
    ensures
        final(page).wf(),
        final(page).rows@ == raw_rows(old(page).rows@, *status),
{
    let (present, active, accepted, global, per_ip, unavailable): (bool, u64, u64, u64, u64, u64) =
        match status {
            Some(status) => (
                true,
                status.active_connections as u64,
                status.accepted_connections,
                status.global_capacity_rejections,
                status.per_ip_capacity_rejections,
                status.target_unavailable_rejections,
            ),
            None => (false, 0, 0, 0, 0, 0),
        };
    page.metric("tunnelproxy_edge_ingress_mode_raw", "gauge", 1);
    page.metric("tunnelproxy_edge_ingress_mode_https", "gauge", 0);
    page.metric("tunnelproxy_edge_raw_route_present", "gauge", one_if(present));
    page.metric("tunnelproxy_edge_raw_active_connections", "gauge", active);
    page.metric("tunnelproxy_edge_raw_accepted_connections_total", "counter", accepted);
    page.metric("tunnelproxy_edge_raw_global_capacity_rejections_total", "counter", global);
    page.metric("tunnelproxy_edge_raw_per_ip_capacity_rejections_total", "counter", per_ip);
    page.metric("tunnelproxy_edge_raw_target_unavailable_rejections_total", "counter", unavailable);
}

/// What is shown of a request history: its capacity, how many requests it holds,
/// its totals, and how many requests had each outcome.
#[derive(Debug, Clone, Copy, PartialEq, Eq, Structural)]
pub struct HistoryCounts {
    pub capacity: u64,
    pub retained: u64,
    pub recorded_total: u64,
    pub evicted_total: u64,
    pub sequence_exhaustions: u64,
    pub forwarded: u64,
    pub local_unavailable: u64,
    pub timeout: u64,
    pub rejected: u64,
}

/// What is shown of a request history, or nothing but zeros where there is none.
pub open spec fn history_counts(history: Option<RequestHistorySnapshot>) -> HistoryCounts {
    match history {
        None => HistoryCounts {
            capacity: 0,
            retained: 0,
            recorded_total: 0,
            evicted_total: 0,
            sequence_exhaustions: 0,
            forwarded: 0,
            local_unavailable: 0,
            timeout: 0,
            rejected: 0,
        },
        Some(history) => HistoryCounts {
            capacity: history.capacity as u64,
            retained: history.entries@.len() as u64,
            recorded_total: history.recorded_total,
            evicted_total: history.evicted_total,
            sequence_exhaustions: history.sequence_exhaustions,
            forwarded: history.outcomes@[RequestHistoryOutcome::Forwarded.place()],
            local_unavailable: history.outcomes@[RequestHistoryOutcome::LocalUnavailable.place()],
            timeout: history.outcomes@[RequestHistoryOutcome::Timeout.place()],
            rejected: history.outcomes@[RequestHistoryOutcome::Rejected.place()],
        },
    }
}

/// What is shown of a request history, or nothing but zeros where there is none.
pub fn count_history(history: &Option<RequestHistorySnapshot>) -> (counts: HistoryCounts)
    ensures
        counts == history_counts(*history),
{
    match history {
        None => HistoryCounts {
            capacity: 0,
            retained: 0,
            recorded_total: 0,
            evicted_total: 0,
            sequence_exhaustions: 0,
            forwarded: 0,
            local_unavailable: 0,
            timeout: 0,
            rejected: 0,
        },
        Some(history) => HistoryCounts {
            capacity: history.capacity as u64,
            retained: history.entries.len() as u64,
            recorded_total: history.recorded_total,
            evicted_total: history.evicted_total,
            sequence_exhaustions: history.sequence_exhaustions,
            forwarded: history.outcome_count(RequestHistoryOutcome::Forwarded),
            local_unavailable: history.outcome_count(RequestHistoryOutcome::LocalUnavailable),
            timeout: history.outcome_count(RequestHistoryOutcome::Timeout),
            rejected: history.outcome_count(RequestHistoryOutcome::Rejected),
        },
    }
}

/// The lines about HTTPS routes and the request history.
pub open spec fn route_and_history_rows(
    rows: Seq<MetricRow>,
    route_health: Option<HttpsRouteSourceHealth>,
    route_version: u64,
    route_count: usize,
    history: HistoryCounts,
) -> Seq<MetricRow> {
    let rows = with_metric(rows, "tunnelproxy_edge_ingress_mode_raw"@, "gauge"@, 0);
    let rows = with_metric(rows, "tunnelproxy_edge_ingress_mode_https"@, "gauge"@, 1);
    let rows = with_type(rows, "tunnelproxy_edge_https_route_source"@, "gauge"@);
    let rows = with_sample(rows, "tunnelproxy_edge_https_route_source{source=\"static\"}"@, flag(route_health is None));
    let rows = with_sample(rows, "tunnelproxy_edge_https_route_source{source=\"live\"}"@, flag(route_health == Some(HttpsRouteSourceHealth::Live)));
    let rows = with_sample(rows, "tunnelproxy_edge_https_route_source{source=\"stale\"}"@, flag(route_health == Some(HttpsRouteSourceHealth::Stale)));
    let rows = with_sample(rows, "tunnelproxy_edge_https_route_source{source=\"expired\"}"@, flag(route_health == Some(HttpsRouteSourceHealth::Expired)));
    let rows = with_metric(rows, "tunnelproxy_edge_https_route_catalog_version"@, "gauge"@, route_version);
    let rows = with_metric(rows, "tunnelproxy_edge_https_enabled_routes"@, "gauge"@, route_count as u64);
    let rows = with_metric(rows, "tunnelproxy_edge_https_request_history_capacity"@, "gauge"@, history.capacity);
    let rows = with_metric(rows, "tunnelproxy_edge_https_request_history_retained"@, "gauge"@, history.retained);
    let rows = with_metric(rows, "tunnelproxy_edge_https_request_history_recorded_total"@, "counter"@, history.recorded_total);
    let rows = with_metric(rows, "tunnelproxy_edge_https_request_history_evicted_total"@, "counter"@, history.evicted_total);
    let rows = with_metric(rows, "tunnelproxy_edge_https_request_history_sequence_exhaustions_total"@, "counter"@, history.sequence_exhaustions);
    let rows = with_type(rows, "tunnelproxy_edge_https_request_history_outcomes_total"@, "counter"@);
    let rows = with_sample(rows, "tunnelproxy_edge_https_request_history_outcomes_total{outcome=\"forwarded\"}"@, history.forwarded);
    let rows = with_sample(rows, "tunnelproxy_edge_https_request_history_outcomes_total{outcome=\"local_unavailable\"}"@, history.local_unavailable);
    let rows = with_sample(rows, "tunnelproxy_edge_https_request_history_outcomes_total{outcome=\"timeout\"}"@, history.timeout);
    let rows = with_sample(rows, "tunnelproxy_edge_https_request_history_outcomes_total{outcome=\"rejected\"}"@, history.rejected);
    rows
}

/// The lines about HTTPS routes and the request history.
pub fn render_route_and_history_metrics(
    page: &mut MetricPage,
    route_health: Option<HttpsRouteSourceHealth>,
    route_version: u64,
    route_count: usize,
    history: HistoryCounts,
)
    requires
        old(page).wf(),
    ensures
        final(page).wf(),
        final(page).rows@ == route_and_history_rows(old(page).rows@, route_health, route_version, route_count, history),
{
    let (live, stale, expired): (bool, bool, bool) = match route_health {
        None => (false, false, false),
        Some(HttpsRouteSourceHealth::Live) => (true, false, false),
        Some(HttpsRouteSourceHealth::Stale) => (false, true, false),
        Some(HttpsRouteSourceHealth::Expired) => (false, false, true),
    };
    page.metric("tunnelproxy_edge_ingress_mode_raw", "gauge", 0);
    page.metric("tunnelproxy_edge_ingress_mode_https", "gauge", 1);
    page.metric_type("tunnelproxy_edge_https_route_source", "gauge");
    page.sample("tunnelproxy_edge_https_route_source{source=\"static\"}", one_if(route_health.is_none()));
    page.sample("tunnelproxy_edge_https_route_source{source=\"live\"}", one_if(live));
    page.sample("tunnelproxy_edge_https_route_source{source=\"stale\"}", one_if(stale));
    page.sample("tunnelproxy_edge_https_route_source{source=\"expired\"}", one_if(expired));
    page.metric("tunnelproxy_edge_https_route_catalog_version", "gauge", route_version);
    page.metric("tunnelproxy_edge_https_enabled_routes", "gauge", route_count as u64);
    page.metric("tunnelproxy_edge_https_request_history_capacity", "gauge", history.capacity);
    page.metric("tunnelproxy_edge_https_request_history_retained", "gauge", history.retained);
    page.metric("tunnelproxy_edge_https_request_history_recorded_total", "counter", history.recorded_total);
    page.metric("tunnelproxy_edge_https_request_history_evicted_total", "counter", history.evicted_total);
    page.metric("tunnelproxy_edge_https_request_history_sequence_exhaustions_total", "counter", history.sequence_exhaustions);
    page.metric_type("tunnelproxy_edge_https_request_history_outcomes_total", "counter");
    page.sample("tunnelproxy_edge_https_request_history_outcomes_total{outcome=\"forwarded\"}", history.forwarded);
    page.sample("tunnelproxy_edge_https_request_history_outcomes_total{outcome=\"local_unavailable\"}", history.local_unavailable);
    page.sample("tunnelproxy_edge_https_request_history_outcomes_total{outcome=\"timeout\"}", history.timeout);
    page.sample("tunnelproxy_edge_https_request_history_outcomes_total{outcome=\"rejected\"}", history.rejected);
}

/// The lines about HTTPS connections and sessions.
pub open spec fn session_rows(
    rows: Seq<MetricRow>,
    status: HttpIngressStatus,
) -> Seq<MetricRow> {
    let rows = with_metric(rows, "tunnelproxy_edge_https_active_connections"@, "gauge"@, status.active_connections as u64);
    let rows = with_metric(rows, "tunnelproxy_edge_https_accepted_connections_total"@, "counter"@, status.accepted_connections);
    let rows = with_metric(rows, "tunnelproxy_edge_https_http1_connections_total"@, "counter"@, status.http1_connections);
    let rows = with_metric(rows, "tunnelproxy_edge_https_http2_connections_total"@, "counter"@, status.http2_connections);
    let rows = with_metric(rows, "tunnelproxy_edge_https_active_http2_streams"@, "gauge"@, status.active_http2_streams as u64);
    let rows = with_metric(rows, "tunnelproxy_edge_https_peak_active_http2_streams"@, "gauge"@, status.peak_active_http2_streams as u64);
    let rows = with_metric(rows, "tunnelproxy_edge_https_websocket_upgrades_total"@, "counter"@, status.accepted_websocket_upgrades);
    let rows = with_metric(rows, "tunnelproxy_edge_https_websocket_rejections_total"@, "counter"@, status.rejected_websocket_upgrades);
    let rows = with_metric(rows, "tunnelproxy_edge_https_active_websocket_sessions"@, "gauge"@, status.active_websocket_sessions as u64);
    let rows = with_metric(rows, "tunnelproxy_edge_https_peak_active_websocket_sessions"@, "gauge"@, status.peak_active_websocket_sessions as u64);
    let rows = with_metric(rows, "tunnelproxy_edge_https_websocket_idle_timeouts_total"@, "counter"@, status.websocket_idle_timeouts);
    let rows = with_metric(rows, "tunnelproxy_edge_https_http2_websocket_sessions_total"@, "counter"@, status.accepted_http2_websocket_sessions);
    let rows = with_metric(rows, "tunnelproxy_edge_https_http2_websocket_rejections_total"@, "counter"@, status.rejected_http2_websocket_sessions);
    let rows = with_metric(rows, "tunnelproxy_edge_https_active_http2_websocket_sessions"@, "gauge"@, status.active_http2_websocket_sessions as u64);
    let rows = with_metric(rows, "tunnelproxy_edge_https_peak_active_http2_websocket_sessions"@, "gauge"@, status.peak_active_http2_websocket_sessions as u64);
    let rows = with_metric(rows, "tunnelproxy_edge_https_http2_websocket_idle_timeouts_total"@, "counter"@, status.http2_websocket_idle_timeouts);
    let rows = with_metric(rows, "tunnelproxy_edge_https_connect_sessions_total"@, "counter"@, status.accepted_connect_sessions);
    let rows = with_metric(rows, "tunnelproxy_edge_https_connect_rejections_total"@, "counter"@, status.rejected_connect_sessions);
    let rows = with_metric(rows, "tunnelproxy_edge_https_active_connect_sessions"@, "gauge"@, status.active_connect_sessions as u64);
    let rows = with_metric(rows, "tunnelproxy_edge_https_peak_active_connect_sessions"@, "gauge"@, status.peak_active_connect_sessions as u64);
    let rows = with_metric(rows, "tunnelproxy_edge_https_connect_idle_timeouts_total"@, "counter"@, status.connect_idle_timeouts);
    let rows = with_metric(rows, "tunnelproxy_edge_https_http2_connect_sessions_total"@, "counter"@, status.accepted_http2_connect_sessions);
    let rows = with_metric(rows, "tunnelproxy_edge_https_http2_connect_rejections_total"@, "counter"@, status.rejected_http2_connect_sessions);
    let rows = with_metric(rows, "tunnelproxy_edge_https_active_http2_connect_sessions"@, "gauge"@, status.active_http2_connect_sessions as u64);
    let rows = with_metric(rows, "tunnelproxy_edge_https_peak_active_http2_connect_sessions"@, "gauge"@, status.peak_active_http2_connect_sessions as u64);
    rows
}

/// The lines about HTTPS connections and sessions.
pub fn render_session_metrics(
    page: &mut MetricPage,
    status: HttpIngressStatus,
)
    requires
        old(page).wf(),
    ensures
        final(page).wf(),
        final(page).rows@ == session_rows(old(page).rows@, status),
{
    page.metric("tunnelproxy_edge_https_active_connections", "gauge", status.active_connections as u64);
    page.metric("tunnelproxy_edge_https_accepted_connections_total", "counter", status.accepted_connections);
    page.metric("tunnelproxy_edge_https_http1_connections_total", "counter", status.http1_connections);
    page.metric("tunnelproxy_edge_https_http2_connections_total", "counter", status.http2_connections);
    page.metric("tunnelproxy_edge_https_active_http2_streams", "gauge", status.active_http2_streams as u64);
    page.metric("tunnelproxy_edge_https_peak_active_http2_streams", "gauge", status.peak_active_http2_streams as u64);
    page.metric("tunnelproxy_edge_https_websocket_upgrades_total", "counter", status.accepted_websocket_upgrades);
    page.metric("tunnelproxy_edge_https_websocket_rejections_total", "counter", status.rejected_websocket_upgrades);
    page.metric("tunnelproxy_edge_https_active_websocket_sessions", "gauge", status.active_websocket_sessions as u64);
    page.metric("tunnelproxy_edge_https_peak_active_websocket_sessions", "gauge", status.peak_active_websocket_sessions as u64);
    page.metric("tunnelproxy_edge_https_websocket_idle_timeouts_total", "counter", status.websocket_idle_timeouts);
    page.metric("tunnelproxy_edge_https_http2_websocket_sessions_total", "counter", status.accepted_http2_websocket_sessions);
    page.metric("tunnelproxy_edge_https_http2_websocket_rejections_total", "counter", status.rejected_http2_websocket_sessions);
    page.metric("tunnelproxy_edge_https_active_http2_websocket_sessions", "gauge", status.active_http2_websocket_sessions as u64);
    page.metric("tunnelproxy_edge_https_peak_active_http2_websocket_sessions", "gauge", status.peak_active_http2_websocket_sessions as u64);
    page.metric("tunnelproxy_edge_https_http2_websocket_idle_timeouts_total", "counter", status.http2_websocket_idle_timeouts);
    page.metric("tunnelproxy_edge_https_connect_sessions_total", "counter", status.accepted_connect_sessions);
    page.metric("tunnelproxy_edge_https_connect_rejections_total", "counter", status.rejected_connect_sessions);
    page.metric("tunnelproxy_edge_https_active_connect_sessions", "gauge", status.active_connect_sessions as u64);
    page.metric("tunnelproxy_edge_https_peak_active_connect_sessions", "gauge", status.peak_active_connect_sessions as u64);
    page.metric("tunnelproxy_edge_https_connect_idle_timeouts_total", "counter", status.connect_idle_timeouts);
    page.metric("tunnelproxy_edge_https_http2_connect_sessions_total", "counter", status.accepted_http2_connect_sessions);
    page.metric("tunnelproxy_edge_https_http2_connect_rejections_total", "counter", status.rejected_http2_connect_sessions);
    page.metric("tunnelproxy_edge_https_active_http2_connect_sessions", "gauge", status.active_http2_connect_sessions as u64);
    page.metric("tunnelproxy_edge_https_peak_active_http2_connect_sessions", "gauge", status.peak_active_http2_connect_sessions as u64);
}

/// The lines about HTTPS requests.
pub open spec fn request_rows(
    rows: Seq<MetricRow>,
    status: HttpIngressStatus,
) -> Seq<MetricRow> {
    let rows = with_metric(rows, "tunnelproxy_edge_https_http2_connect_idle_timeouts_total"@, "counter"@, status.http2_connect_idle_timeouts);
    let rows = with_metric(rows, "tunnelproxy_edge_https_completed_requests_total"@, "counter"@, status.completed_requests);
    let rows = with_metric(rows, "tunnelproxy_edge_https_admitted_requests_total"@, "counter"@, status.admitted_requests);
    let rows = with_metric(rows, "tunnelproxy_edge_https_rejected_requests_total"@, "counter"@, status.rejected_requests);
    let rows = with_metric(rows, "tunnelproxy_edge_https_global_capacity_rejections_total"@, "counter"@, status.global_capacity_rejections);
    let rows = with_metric(rows, "tunnelproxy_edge_https_per_ip_capacity_rejections_total"@, "counter"@, status.per_ip_capacity_rejections);
    let rows = with_metric(rows, "tunnelproxy_edge_https_tls_rejections_total"@, "counter"@, status.tls_rejections);
    let rows = with_metric(rows, "tunnelproxy_edge_https_reused_requests_total"@, "counter"@, status.reused_requests);
    let rows = with_metric(rows, "tunnelproxy_edge_https_request_timeouts_total"@, "counter"@, status.request_timeouts);
    let rows = with_metric(rows, "tunnelproxy_edge_https_global_rate_limit_rejections_total"@, "counter"@, status.global_rate_limit_rejections);
    let rows = with_metric(rows, "tunnelproxy_edge_https_per_ip_rate_limit_rejections_total"@, "counter"@, status.per_ip_rate_limit_rejections);
    let rows = with_metric(rows, "tunnelproxy_edge_https_rate_limit_peer_capacity_rejections_total"@, "counter"@, status.rate_limit_peer_capacity_rejections);
    let rows = with_metric(rows, "tunnelproxy_edge_https_signed_access_requests_total"@, "counter"@, status.accepted_signed_access_requests);
    let rows = with_metric(rows, "tunnelproxy_edge_https_signed_access_missing_rejections_total"@, "counter"@, status.missing_signed_access_rejections);
    let rows = with_metric(rows, "tunnelproxy_edge_https_signed_access_invalid_rejections_total"@, "counter"@, status.invalid_signed_access_rejections);
    let rows = with_metric(rows, "tunnelproxy_edge_https_signed_access_expired_rejections_total"@, "counter"@, status.expired_signed_access_rejections);
    let rows = with_metric(rows, "tunnelproxy_edge_https_signed_access_keyring_generation"@, "gauge"@, status.signed_access_keyring_generation);
    let rows = with_metric(rows, "tunnelproxy_edge_https_signed_access_keyring_reload_failed"@, "gauge"@, flag(status.signed_access_keyring_reload_failed));
    let rows = with_metric(rows, "tunnelproxy_edge_https_signed_access_keyring_reload_successes_total"@, "counter"@, status.signed_access_keyring_reload_successes);
    let rows = with_metric(rows, "tunnelproxy_edge_https_signed_access_keyring_reload_failures_total"@, "counter"@, status.signed_access_keyring_reload_failures);
    let rows = with_metric(rows, "tunnelproxy_edge_https_reachability_probe_requests_total"@, "counter"@, status.reachability_probe_requests);
    let rows = with_metric(rows, "tunnelproxy_edge_https_reachability_probe_successes_total"@, "counter"@, status.successful_reachability_probes);
    let rows = with_metric(rows, "tunnelproxy_edge_https_reachability_probe_failures_total"@, "counter"@, status.failed_reachability_probes);
    let rows = with_metric(rows, "tunnelproxy_edge_https_tracked_rate_limit_peers"@, "gauge"@, status.tracked_rate_limit_peers as u64);
    let rows = with_metric(rows, "tunnelproxy_edge_https_peak_tracked_rate_limit_peers"@, "gauge"@, status.peak_tracked_rate_limit_peers as u64);
    rows
}

/// The lines about HTTPS requests.
pub fn render_request_metrics(
    page: &mut MetricPage,
    status: HttpIngressStatus,
)
    requires
        old(page).wf(),
    ensures
        final(page).wf(),
        final(page).rows@ == request_rows(old(page).rows@, status),
{
    page.metric("tunnelproxy_edge_https_http2_connect_idle_timeouts_total", "counter", status.http2_connect_idle_timeouts);
    page.metric("tunnelproxy_edge_https_completed_requests_total", "counter", status.completed_requests);
    page.metric("tunnelproxy_edge_https_admitted_requests_total", "counter", status.admitted_requests);
    page.metric("tunnelproxy_edge_https_rejected_requests_total", "counter", status.rejected_requests);
    page.metric("tunnelproxy_edge_https_global_capacity_rejections_total", "counter", status.global_capacity_rejections);
    page.metric("tunnelproxy_edge_https_per_ip_capacity_rejections_total", "counter", status.per_ip_capacity_rejections);
    page.metric("tunnelproxy_edge_https_tls_rejections_total", "counter", status.tls_rejections);
    page.metric("tunnelproxy_edge_https_reused_requests_total", "counter", status.reused_requests);
    page.metric("tunnelproxy_edge_https_request_timeouts_total", "counter", status.request_timeouts);
    page.metric("tunnelproxy_edge_https_global_rate_limit_rejections_total", "counter", status.global_rate_limit_rejections);
    page.metric("tunnelproxy_edge_https_per_ip_rate_limit_rejections_total", "counter", status.per_ip_rate_limit_rejections);
    page.metric("tunnelproxy_edge_https_rate_limit_peer_capacity_rejections_total", "counter", status.rate_limit_peer_capacity_rejections);
    page.metric("tunnelproxy_edge_https_signed_access_requests_total", "counter", status.accepted_signed_access_requests);
    page.metric("tunnelproxy_edge_https_signed_access_missing_rejections_total", "counter", status.missing_signed_access_rejections);
    page.metric("tunnelproxy_edge_https_signed_access_invalid_rejections_total", "counter", status.invalid_signed_access_rejections);
    page.metric("tunnelproxy_edge_https_signed_access_expired_rejections_total", "counter", status.expired_signed_access_rejections);
    page.metric("tunnelproxy_edge_https_signed_access_keyring_generation", "gauge", status.signed_access_keyring_generation);
    page.metric("tunnelproxy_edge_https_signed_access_keyring_reload_failed", "gauge", one_if(status.signed_access_keyring_reload_failed));
    page.metric("tunnelproxy_edge_https_signed_access_keyring_reload_successes_total", "counter", status.signed_access_keyring_reload_successes);
    page.metric("tunnelproxy_edge_https_signed_access_keyring_reload_failures_total", "counter", status.signed_access_keyring_reload_failures);
    page.metric("tunnelproxy_edge_https_reachability_probe_requests_total", "counter", status.reachability_probe_requests);
    page.metric("tunnelproxy_edge_https_reachability_probe_successes_total", "counter", status.successful_reachability_probes);
    page.metric("tunnelproxy_edge_https_reachability_probe_failures_total", "counter", status.failed_reachability_probes);
    page.metric("tunnelproxy_edge_https_tracked_rate_limit_peers", "gauge", status.tracked_rate_limit_peers as u64);
    page.metric("tunnelproxy_edge_https_peak_tracked_rate_limit_peers", "gauge", status.peak_tracked_rate_limit_peers as u64);
}

/// The lines about HTTPS ingress.
pub open spec fn https_rows(
    rows: Seq<MetricRow>,
    status: HttpIngressStatus,
    route_health: Option<HttpsRouteSourceHealth>,
    route_version: u64,
    route_count: usize,
    history: HistoryCounts,
) -> Seq<MetricRow> {
    request_rows(
        session_rows(
            route_and_history_rows(rows, route_health, route_version, route_count, history),
            status,
        ),
        status,
    )
}

/// The lines about HTTPS ingress.
pub fn render_https_metrics(
    page: &mut MetricPage,
    status: HttpIngressStatus,
    route_health: Option<HttpsRouteSourceHealth>,
    route_version: u64,
    route_count: usize,
    request_history: &Option<RequestHistorySnapshot>,
)
    requires
        old(page).wf(),
    ensures
        final(page).wf(),
        final(page).rows@ == https_rows(
            old(page).rows@,
            status,
            route_health,
            route_version,
            route_count,
            history_counts(*request_history),
        ),
{
    let history: HistoryCounts = count_history(request_history);
    render_route_and_history_metrics(page, route_health, route_version, route_count, history);
    render_session_metrics(page, status);
    render_request_metrics(page, status);
}

/// The lines about the process, its authorization and its operations endpoint.
pub open spec fn process_rows(
    rows: Seq<MetricRow>,
    ready: bool,
    tunnel_connected: bool,
    source: AuthorizationSourceStatus,
    version: u64,
    revoked_sessions: u64,
    operations: OperationsCounterSnapshot,
) -> Seq<MetricRow> {
    let rows = with_metric(rows, "tunnelproxy_edge_up"@, "gauge"@, 1);
    let rows = with_metric(rows, "tunnelproxy_edge_ready"@, "gauge"@, flag(ready));
    let rows = with_metric(rows, "tunnelproxy_edge_tunnel_connected"@, "gauge"@, flag(tunnel_connected));
    let rows = with_type(rows, "tunnelproxy_edge_authorization_source"@, "gauge"@);
    let rows = with_sample(rows, "tunnelproxy_edge_authorization_source{source=\"static\"}"@, flag(source == AuthorizationSourceStatus::Static));
    let rows = with_sample(rows, "tunnelproxy_edge_authorization_source{source=\"live\"}"@, flag(source == AuthorizationSourceStatus::Live));
    let rows = with_sample(rows, "tunnelproxy_edge_authorization_source{source=\"stale\"}"@, flag(source == AuthorizationSourceStatus::Stale));
    let rows = with_metric(rows, "tunnelproxy_edge_authorization_snapshot_version"@, "gauge"@, version);
    let rows = with_metric(rows, "tunnelproxy_edge_authorization_revoked_sessions_total"@, "counter"@, revoked_sessions);
    let rows = with_metric(rows, "tunnelproxy_edge_operations_active_connections"@, "gauge"@, operations.active_connections as u64);
    let rows = with_metric(rows, "tunnelproxy_edge_operations_accepted_connections_total"@, "counter"@, operations.accepted_connections);
    let rows = with_metric(rows, "tunnelproxy_edge_operations_completed_requests_total"@, "counter"@, operations.completed_requests);
    let rows = with_metric(rows, "tunnelproxy_edge_operations_rejected_requests_total"@, "counter"@, operations.rejected_requests);
    let rows = with_metric(rows, "tunnelproxy_edge_operations_capacity_rejections_total"@, "counter"@, operations.capacity_rejections);
    rows
}

/// The lines about the process, its authorization and its operations endpoint.
pub fn render_process_metrics(
    page: &mut MetricPage,
    ready: bool,
    tunnel_connected: bool,
    source: AuthorizationSourceStatus,
    version: u64,
    revoked_sessions: u64,
    operations: OperationsCounterSnapshot,
)
    requires
        old(page).wf(),
    ensures
        final(page).wf(),
        final(page).rows@ == process_rows(old(page).rows@, ready, tunnel_connected, source, version, revoked_sessions, operations),
{
    page.metric("tunnelproxy_edge_up", "gauge", 1);
    page.metric("tunnelproxy_edge_ready", "gauge", one_if(ready));
    page.metric("tunnelproxy_edge_tunnel_connected", "gauge", one_if(tunnel_connected));
    page.metric_type("tunnelproxy_edge_authorization_source", "gauge");
    page.sample("tunnelproxy_edge_authorization_source{source=\"static\"}", one_if(source == AuthorizationSourceStatus::Static));
    page.sample("tunnelproxy_edge_authorization_source{source=\"live\"}", one_if(source == AuthorizationSourceStatus::Live));
    page.sample("tunnelproxy_edge_authorization_source{source=\"stale\"}", one_if(source == AuthorizationSourceStatus::Stale));
    page.metric("tunnelproxy_edge_authorization_snapshot_version", "gauge", version);
    page.metric("tunnelproxy_edge_authorization_revoked_sessions_total", "counter", revoked_sessions);
    page.metric("tunnelproxy_edge_operations_active_connections", "gauge", operations.active_connections as u64);
    page.metric("tunnelproxy_edge_operations_accepted_connections_total", "counter", operations.accepted_connections);
    page.metric("tunnelproxy_edge_operations_completed_requests_total", "counter", operations.completed_requests);
    page.metric("tunnelproxy_edge_operations_rejected_requests_total", "counter", operations.rejected_requests);
    page.metric("tunnelproxy_edge_operations_capacity_rejections_total", "counter", operations.capacity_rejections);
}

/// The lines of the whole page.
pub open spec fn metric_rows(snapshot: EdgeMetricSnapshot) -> Seq<MetricRow> {
    let rows = process_rows(
        Seq::empty(),
        snapshot.ready,
        snapshot.tunnel_connected,
        snapshot.authorization_source,
        snapshot.authorization_version,
        snapshot.revoked_sessions,
        snapshot.operations,
    );
    let rows = logging_rows(rows, snapshot.logging);
    let rows = transport_rows(rows, snapshot.transport);
    match snapshot.ingress {
        IngressMetricSnapshot::Raw(status) => raw_rows(rows, status),
        IngressMetricSnapshot::Https {
            status,
            route_health,
            route_version,
            route_count,
            request_history,
        } => https_rows(
            rows,
            status,
            route_health,
            route_version,
            route_count,
            history_counts(request_history),
        ),
    }
}

/// Writes the whole page.
pub fn render_metrics(snapshot: &EdgeMetricSnapshot) -> (text: String)
    ensures
        text@ == page_text(metric_rows(*snapshot)),
{
    let mut page: MetricPage = MetricPage::new();
    render_process_metrics(
        &mut page,
        snapshot.ready,
        snapshot.tunnel_connected,
        snapshot.authorization_source,
        snapshot.authorization_version,
        snapshot.revoked_sessions,
        snapshot.operations,
    );
    render_logging_metrics(&mut page, snapshot.logging);
    render_transport_metrics(&mut page, snapshot.transport);
    match &snapshot.ingress {
        IngressMetricSnapshot::Raw(status) => render_raw_metrics(&mut page, status),
        IngressMetricSnapshot::Https {
            status,
            route_health,
            route_version,
            route_count,
            request_history,
        } => render_https_metrics(
            &mut page,
            *status,
            *route_health,
            *route_version,
            *route_count,
            request_history,
        ),
    }
    page.text
}

broadcast proof fn lemma_type_label(rows: Seq<MetricRow>, name: Seq<char>, kind: Seq<char>)
    ensures
        #[trigger] labels(with_type(rows, name, kind)) == labels(rows).push((name, kind)),
{
    assert(labels(with_type(rows, name, kind)) =~= labels(rows).push((name, kind)));
}

broadcast proof fn lemma_sample_label(rows: Seq<MetricRow>, series: Seq<char>, value: u64)
    ensures
        #[trigger] labels(with_sample(rows, series, value)) == labels(rows).push(
            (series, Seq::empty()),
        ),
{
    assert(labels(with_sample(rows, series, value)) =~= labels(rows).push((series, Seq::empty())));
}

broadcast proof fn lemma_metric_label(
    rows: Seq<MetricRow>,
    name: Seq<char>,
    kind: Seq<char>,
    value: u64,
)
    ensures
        #[trigger] labels(with_metric(rows, name, kind, value)) == labels(rows).push(
            (name, kind),
        ).push((name, Seq::empty())),
{
    lemma_type_label(rows, name, kind);
    lemma_sample_label(with_type(rows, name, kind), name, value);
}

broadcast group group_labels {
    lemma_type_label,
    lemma_sample_label,
    lemma_metric_label,
}

proof fn lemma_route_labels(
    r: Seq<MetricRow>,
    q: Seq<MetricRow>,
    a: (Option<HttpsRouteSourceHealth>, u64, usize, HistoryCounts),
    b: (Option<HttpsRouteSourceHealth>, u64, usize, HistoryCounts),
)
    requires
        labels(r) == labels(q),
    ensures
        labels(route_and_history_rows(r, a.0, a.1, a.2, a.3)) == labels(
            route_and_history_rows(q, b.0, b.1, b.2, b.3),
        ),
{
    broadcast use group_labels;

}

proof fn lemma_session_labels(
    r: Seq<MetricRow>,
    q: Seq<MetricRow>,
    a: HttpIngressStatus,
    b: HttpIngressStatus,
)
    requires
        labels(r) == labels(q),
    ensures
        labels(session_rows(r, a)) == labels(session_rows(q, b)),
{
    broadcast use group_labels;

}

proof fn lemma_request_labels(
    r: Seq<MetricRow>,
    q: Seq<MetricRow>,
    a: HttpIngressStatus,
    b: HttpIngressStatus,
)
    requires
        labels(r) == labels(q),
    ensures
        labels(request_rows(r, a)) == labels(request_rows(q, b)),
{
    broadcast use group_labels;

}

proof fn lemma_https_labels(
    r: Seq<MetricRow>,
    q: Seq<MetricRow>,
    a: (HttpIngressStatus, Option<HttpsRouteSourceHealth>, u64, usize, HistoryCounts),
    b: (HttpIngressStatus, Option<HttpsRouteSourceHealth>, u64, usize, HistoryCounts),
)
    requires
        labels(r) == labels(q),
    ensures
        labels(https_rows(r, a.0, a.1, a.2, a.3, a.4)) == labels(
            https_rows(q, b.0, b.1, b.2, b.3, b.4),
        ),
{
    lemma_route_labels(r, q, (a.1, a.2, a.3, a.4), (b.1, b.2, b.3, b.4));
    let r1 = route_and_history_rows(r, a.1, a.2, a.3, a.4);
    let q1 = route_and_history_rows(q, b.1, b.2, b.3, b.4);
    lemma_session_labels(r1, q1, a.0, b.0);
    lemma_request_labels(session_rows(r1, a.0), session_rows(q1, b.0), a.0, b.0);
}

/// Which lines the page has, and what series they are about, depends on the kind
/// of ingress alone: no value of any counter, name or client changes it.
pub proof fn page_series_are_fixed(a: EdgeMetricSnapshot, b: EdgeMetricSnapshot)
    requires
        a.ingress is Raw <==> b.ingress is Raw,
    ensures
        labels(metric_rows(a)) == labels(metric_rows(b)),
{
    broadcast use group_labels;

    let r1 = process_rows(
        Seq::empty(),
        a.ready,
        a.tunnel_connected,
        a.authorization_source,
        a.authorization_version,
        a.revoked_sessions,
        a.operations,
    );
    let q1 = process_rows(
        Seq::empty(),
        b.ready,
        b.tunnel_connected,
        b.authorization_source,
        b.authorization_version,
        b.revoked_sessions,
        b.operations,
    );
    assert(labels(r1) == labels(q1));
    let r2 = logging_rows(r1, a.logging);
    let q2 = logging_rows(q1, b.logging);
    assert(labels(r2) == labels(q2));
    let r3 = transport_rows(r2, a.transport);
    let q3 = transport_rows(q2, b.transport);
    assert(labels(r3) == labels(q3));
    match (a.ingress, b.ingress) {
        (IngressMetricSnapshot::Raw(s), IngressMetricSnapshot::Raw(t)) => {
            assert(labels(raw_rows(r3, s)) == labels(raw_rows(q3, t)));
        },
        (
            IngressMetricSnapshot::Https {
                status,
                route_health,
                route_version,
                route_count,
                request_history,
            },
            IngressMetricSnapshot::Https {
                status: status_b,
                route_health: health_b,
                route_version: version_b,
                route_count: count_b,
                request_history: history_b,
            },
        ) => {
            lemma_https_labels(
                r3,
                q3,
                (status, route_health, route_version, route_count, history_counts(request_history)),
                (status_b, health_b, version_b, count_b, history_counts(history_b)),
            );
        },
        _ => {},
    }
}

/// Whether lines give a series that value.
#[verifier::opaque]
pub open spec fn shows(rows: Seq<MetricRow>, series: Seq<char>, value: int) -> bool {
    exists|i: int|
        0 <= i < rows.len() && (#[trigger] rows[i] matches MetricRow::Sample { series: s, value: v }
            && s == series && v == value)
}

/// Whether lines give a name that kind.
#[verifier::opaque]
pub open spec fn declares(rows: Seq<MetricRow>, name: Seq<char>, kind: Seq<char>) -> bool {
    rows.contains(MetricRow::Type { name, kind })
}

broadcast proof fn lemma_shown(rows: Seq<MetricRow>, series: Seq<char>, value: u64)
    ensures
        shows(#[trigger] with_sample(rows, series, value), series, value as int),
{
    reveal(shows);
    let after: Seq<MetricRow> = with_sample(rows, series, value);
    assert(after[rows.len() as int] == (MetricRow::Sample { series, value }));
}

broadcast proof fn lemma_shown_before_sample(
    rows: Seq<MetricRow>,
    name: Seq<char>,
    n: u64,
    series: Seq<char>,
    value: int,
)
    requires
        shows(rows, series, value),
    ensures
        #[trigger] shows(with_sample(rows, name, n), series, value),
{
    reveal(shows);
    let i: int = choose|i: int|
        0 <= i < rows.len() && (#[trigger] rows[i] matches MetricRow::Sample { series: s, value: v }
            && s == series && v == value);
    assert(with_sample(rows, name, n)[i] == rows[i]);
}

broadcast proof fn lemma_shown_before_type(
    rows: Seq<MetricRow>,
    name: Seq<char>,
    kind: Seq<char>,
    series: Seq<char>,
    value: int,
)
    requires
        shows(rows, series, value),
    ensures
        #[trigger] shows(with_type(rows, name, kind), series, value),
{
    reveal(shows);
    let i: int = choose|i: int|
        0 <= i < rows.len() && (#[trigger] rows[i] matches MetricRow::Sample { series: s, value: v }
            && s == series && v == value);
    assert(with_type(rows, name, kind)[i] == rows[i]);
}

broadcast proof fn lemma_declared(rows: Seq<MetricRow>, name: Seq<char>, kind: Seq<char>)
    ensures
        declares(#[trigger] with_type(rows, name, kind), name, kind),
{
    reveal(declares);
    let after: Seq<MetricRow> = with_type(rows, name, kind);
    assert(after[rows.len() as int] == (MetricRow::Type { name, kind }));
}

broadcast proof fn lemma_declared_before_sample(
    rows: Seq<MetricRow>,
    series: Seq<char>,
    n: u64,
    name: Seq<char>,
    kind: Seq<char>,
)
    requires
        declares(rows, name, kind),
    ensures
        #[trigger] declares(with_sample(rows, series, n), name, kind),
{
    reveal(declares);
    let i: int = choose|i: int|
        0 <= i < rows.len() && rows[i] == (MetricRow::Type { name, kind });
    assert(with_sample(rows, series, n)[i] == rows[i]);
}

broadcast proof fn lemma_declared_before_type(
    rows: Seq<MetricRow>,
    other: Seq<char>,
    other_kind: Seq<char>,
    name: Seq<char>,
    kind: Seq<char>,
)
    requires
        declares(rows, name, kind),
    ensures
        #[trigger] declares(with_type(rows, other, other_kind), name, kind),
{
    reveal(declares);
    let i: int = choose|i: int|
        0 <= i < rows.len() && rows[i] == (MetricRow::Type { name, kind });
    assert(with_type(rows, other, other_kind)[i] == rows[i]);
}

broadcast group group_shown {
    lemma_shown,
    lemma_shown_before_sample,
    lemma_shown_before_type,
    lemma_declared,
    lemma_declared_before_sample,
    lemma_declared_before_type,
}

proof fn lemma_process_rows_keep(
    rows: Seq<MetricRow>,
    ready: bool,
    tunnel_connected: bool,
    source: AuthorizationSourceStatus,
    version: u64,
    revoked_sessions: u64,
    operations: OperationsCounterSnapshot,
)
    ensures
        forall|series: Seq<char>, value: int| shows(rows, series, value) ==> #[trigger] shows(process_rows(rows, ready, tunnel_connected, source, version, revoked_sessions, operations), series, value),
        forall|name: Seq<char>, kind: Seq<char>| declares(rows, name, kind) ==> #[trigger] declares(process_rows(rows, ready, tunnel_connected, source, version, revoked_sessions, operations), name, kind),
{
    broadcast use group_shown;

}

proof fn lemma_process_rows(
    rows: Seq<MetricRow>,
    ready: bool,
    tunnel_connected: bool,
    source: AuthorizationSourceStatus,
    version: u64,
    revoked_sessions: u64,
    operations: OperationsCounterSnapshot,
)
    ensures
        declares(process_rows(rows, ready, tunnel_connected, source, version, revoked_sessions, operations), "tunnelproxy_edge_up"@, "gauge"@),
        shows(process_rows(rows, ready, tunnel_connected, source, version, revoked_sessions, operations), "tunnelproxy_edge_up"@, 1),
        declares(process_rows(rows, ready, tunnel_connected, source, version, revoked_sessions, operations), "tunnelproxy_edge_ready"@, "gauge"@),
        shows(process_rows(rows, ready, tunnel_connected, source, version, revoked_sessions, operations), "tunnelproxy_edge_ready"@, if ready { 1int } else { 0int }),
        declares(process_rows(rows, ready, tunnel_connected, source, version, revoked_sessions, operations), "tunnelproxy_edge_tunnel_connected"@, "gauge"@),
        shows(process_rows(rows, ready, tunnel_connected, source, version, revoked_sessions, operations), "tunnelproxy_edge_tunnel_connected"@, if tunnel_connected { 1int } else { 0int }),
        declares(process_rows(rows, ready, tunnel_connected, source, version, revoked_sessions, operations), "tunnelproxy_edge_authorization_source"@, "gauge"@),
        shows(process_rows(rows, ready, tunnel_connected, source, version, revoked_sessions, operations), "tunnelproxy_edge_authorization_source{source=\"static\"}"@, if source == AuthorizationSourceStatus::Static { 1int } else { 0int }),
        shows(process_rows(rows, ready, tunnel_connected, source, version, revoked_sessions, operations), "tunnelproxy_edge_authorization_source{source=\"live\"}"@, if source == AuthorizationSourceStatus::Live { 1int } else { 0int }),
        shows(process_rows(rows, ready, tunnel_connected, source, version, revoked_sessions, operations), "tunnelproxy_edge_authorization_source{source=\"stale\"}"@, if source == AuthorizationSourceStatus::Stale { 1int } else { 0int }),
        declares(process_rows(rows, ready, tunnel_connected, source, version, revoked_sessions, operations), "tunnelproxy_edge_authorization_snapshot_version"@, "gauge"@),
        shows(process_rows(rows, ready, tunnel_connected, source, version, revoked_sessions, operations), "tunnelproxy_edge_authorization_snapshot_version"@, version as int),
        declares(process_rows(rows, ready, tunnel_connected, source, version, revoked_sessions, operations), "tunnelproxy_edge_authorization_revoked_sessions_total"@, "counter"@),
        shows(process_rows(rows, ready, tunnel_connected, source, version, revoked_sessions, operations), "tunnelproxy_edge_authorization_revoked_sessions_total"@, revoked_sessions as int),
        declares(process_rows(rows, ready, tunnel_connected, source, version, revoked_sessions, operations), "tunnelproxy_edge_operations_active_connections"@, "gauge"@),
        shows(process_rows(rows, ready, tunnel_connected, source, version, revoked_sessions, operations), "tunnelproxy_edge_operations_active_connections"@, operations.active_connections as int),
        declares(process_rows(rows, ready, tunnel_connected, source, version, revoked_sessions, operations), "tunnelproxy_edge_operations_accepted_connections_total"@, "counter"@),
        shows(process_rows(rows, ready, tunnel_connected, source, version, revoked_sessions, operations), "tunnelproxy_edge_operations_accepted_connections_total"@, operations.accepted_connections as int),
        declares(process_rows(rows, ready, tunnel_connected, source, version, revoked_sessions, operations), "tunnelproxy_edge_operations_completed_requests_total"@, "counter"@),
        shows(process_rows(rows, ready, tunnel_connected, source, version, revoked_sessions, operations), "tunnelproxy_edge_operations_completed_requests_total"@, operations.completed_requests as int),
        declares(process_rows(rows, ready, tunnel_connected, source, version, revoked_sessions, operations), "tunnelproxy_edge_operations_rejected_requests_total"@, "counter"@),
        shows(process_rows(rows, ready, tunnel_connected, source, version, revoked_sessions, operations), "tunnelproxy_edge_operations_rejected_requests_total"@, operations.rejected_requests as int),
        declares(process_rows(rows, ready, tunnel_connected, source, version, revoked_sessions, operations), "tunnelproxy_edge_operations_capacity_rejections_total"@, "counter"@),
        shows(process_rows(rows, ready, tunnel_connected, source, version, revoked_sessions, operations), "tunnelproxy_edge_operations_capacity_rejections_total"@, operations.capacity_rejections as int),
{
    broadcast use group_shown;

}

proof fn lemma_logging_rows_keep(
    rows: Seq<MetricRow>,
    logging: ProcessLoggingSnapshot,
)
    ensures
        forall|series: Seq<char>, value: int| shows(rows, series, value) ==> #[trigger] shows(logging_rows(rows, logging), series, value),
        forall|name: Seq<char>, kind: Seq<char>| declares(rows, name, kind) ==> #[trigger] declares(logging_rows(rows, logging), name, kind),
{
    broadcast use group_shown;

}

proof fn lemma_logging_rows(
    rows: Seq<MetricRow>,
    logging: ProcessLoggingSnapshot,
)
    ensures
        declares(logging_rows(rows, logging), "tunnelproxy_edge_logging_nonblocking_enabled"@, "gauge"@),
        shows(logging_rows(rows, logging), "tunnelproxy_edge_logging_nonblocking_enabled"@, if logging.buffer_capacity_events > 0 { 1int } else { 0int }),
        declares(logging_rows(rows, logging), "tunnelproxy_edge_logging_buffer_capacity_events"@, "gauge"@),
        shows(logging_rows(rows, logging), "tunnelproxy_edge_logging_buffer_capacity_events"@, logging.buffer_capacity_events as int),
        declares(logging_rows(rows, logging), "tunnelproxy_edge_logging_accepted_events_total"@, "counter"@),
        shows(logging_rows(rows, logging), "tunnelproxy_edge_logging_accepted_events_total"@, logging.accepted_events as int),
        declares(logging_rows(rows, logging), "tunnelproxy_edge_logging_dropped_events_total"@, "counter"@),
        shows(logging_rows(rows, logging), "tunnelproxy_edge_logging_dropped_events_total"@, logging.dropped_events as int),
        declares(logging_rows(rows, logging), "tunnelproxy_edge_logging_oversized_events_total"@, "counter"@),
        shows(logging_rows(rows, logging), "tunnelproxy_edge_logging_oversized_events_total"@, logging.oversized_events as int),
        declares(logging_rows(rows, logging), "tunnelproxy_edge_logging_write_failures_total"@, "counter"@),
        shows(logging_rows(rows, logging), "tunnelproxy_edge_logging_write_failures_total"@, logging.write_failures as int),
{
    broadcast use group_shown;

}

proof fn lemma_transport_rows_keep(
    rows: Seq<MetricRow>,
    transport: MultiplexTelemetrySnapshot,
)
    ensures
        forall|series: Seq<char>, value: int| shows(rows, series, value) ==> #[trigger] shows(transport_rows(rows, transport), series, value),
        forall|name: Seq<char>, kind: Seq<char>| declares(rows, name, kind) ==> #[trigger] declares(transport_rows(rows, transport), name, kind),
{
    broadcast use group_shown;

}

proof fn lemma_transport_rows(
    rows: Seq<MetricRow>,
    transport: MultiplexTelemetrySnapshot,
)
    ensures
        declares(transport_rows(rows, transport), "tunnelproxy_edge_transport_active_streams"@, "gauge"@),
        shows(transport_rows(rows, transport), "tunnelproxy_edge_transport_active_streams"@, transport.active_streams as int),
        declares(transport_rows(rows, transport), "tunnelproxy_edge_transport_peak_active_streams"@, "gauge"@),
        shows(transport_rows(rows, transport), "tunnelproxy_edge_transport_peak_active_streams"@, transport.peak_active_streams as int),
        declares(transport_rows(rows, transport), "tunnelproxy_edge_transport_data_frames_total"@, "counter"@),
        shows(transport_rows(rows, transport), "tunnelproxy_edge_transport_data_frames_total{direction=\"sent\"}"@, transport.sent_data_frames as int),
        shows(transport_rows(rows, transport), "tunnelproxy_edge_transport_data_frames_total{direction=\"received\"}"@, transport.received_data_frames as int),
        declares(transport_rows(rows, transport), "tunnelproxy_edge_transport_data_bytes_total"@, "counter"@),
        shows(transport_rows(rows, transport), "tunnelproxy_edge_transport_data_bytes_total{direction=\"sent\"}"@, transport.sent_data_bytes as int),
        shows(transport_rows(rows, transport), "tunnelproxy_edge_transport_data_bytes_total{direction=\"received\"}"@, transport.received_data_bytes as int),
        declares(transport_rows(rows, transport), "tunnelproxy_edge_transport_data_admission_waits_total"@, "counter"@),
        shows(transport_rows(rows, transport), "tunnelproxy_edge_transport_data_admission_waits_total"@, transport.data_admission_waits as int),
        declares(transport_rows(rows, transport), "tunnelproxy_edge_transport_data_pipeline_frames"@, "gauge"@),
        shows(transport_rows(rows, transport), "tunnelproxy_edge_transport_data_pipeline_frames"@, transport.data_pipeline_frames as int),
        declares(transport_rows(rows, transport), "tunnelproxy_edge_transport_data_pipeline_capacity_frames"@, "gauge"@),
        shows(transport_rows(rows, transport), "tunnelproxy_edge_transport_data_pipeline_capacity_frames"@, transport.data_pipeline_capacity_frames as int),
        declares(transport_rows(rows, transport), "tunnelproxy_edge_transport_peak_data_pipeline_frames"@, "gauge"@),
        shows(transport_rows(rows, transport), "tunnelproxy_edge_transport_peak_data_pipeline_frames"@, transport.peak_data_pipeline_frames as int),
        declares(transport_rows(rows, transport), "tunnelproxy_edge_transport_flow_control_resets_total"@, "counter"@),
        shows(transport_rows(rows, transport), "tunnelproxy_edge_transport_flow_control_resets_total"@, transport.flow_control_resets as int),
        declares(transport_rows(rows, transport), "tunnelproxy_edge_transport_control_burst_yields_total"@, "counter"@),
        shows(transport_rows(rows, transport), "tunnelproxy_edge_transport_control_burst_yields_total"@, transport.control_burst_yields as int),
{
    broadcast use group_shown;

}

proof fn lemma_raw_rows_keep(
    rows: Seq<MetricRow>,
    status: Option<RawIngressRouteStatus>,
)
    ensures
        forall|series: Seq<char>, value: int| shows(rows, series, value) ==> #[trigger] shows(raw_rows(rows, status), series, value),
        forall|name: Seq<char>, kind: Seq<char>| declares(rows, name, kind) ==> #[trigger] declares(raw_rows(rows, status), name, kind),
{
    broadcast use group_shown;

}

proof fn lemma_raw_rows(
    rows: Seq<MetricRow>,
    status: Option<RawIngressRouteStatus>,
)
    ensures
        declares(raw_rows(rows, status), "tunnelproxy_edge_ingress_mode_raw"@, "gauge"@),
        shows(raw_rows(rows, status), "tunnelproxy_edge_ingress_mode_raw"@, 1),
        declares(raw_rows(rows, status), "tunnelproxy_edge_ingress_mode_https"@, "gauge"@),
        shows(raw_rows(rows, status), "tunnelproxy_edge_ingress_mode_https"@, 0),
        declares(raw_rows(rows, status), "tunnelproxy_edge_raw_route_present"@, "gauge"@),
        shows(raw_rows(rows, status), "tunnelproxy_edge_raw_route_present"@, if status is Some { 1int } else { 0int }),
        declares(raw_rows(rows, status), "tunnelproxy_edge_raw_active_connections"@, "gauge"@),
        shows(raw_rows(rows, status), "tunnelproxy_edge_raw_active_connections"@, if status is Some { status->0.active_connections as int } else { 0int }),
        declares(raw_rows(rows, status), "tunnelproxy_edge_raw_accepted_connections_total"@, "counter"@),
        shows(raw_rows(rows, status), "tunnelproxy_edge_raw_accepted_connections_total"@, if status is Some { status->0.accepted_connections as int } else { 0int }),
        declares(raw_rows(rows, status), "tunnelproxy_edge_raw_global_capacity_rejections_total"@, "counter"@),
        shows(raw_rows(rows, status), "tunnelproxy_edge_raw_global_capacity_rejections_total"@, if status is Some { status->0.global_capacity_rejections as int } else { 0int }),
        declares(raw_rows(rows, status), "tunnelproxy_edge_raw_per_ip_capacity_rejections_total"@, "counter"@),
        shows(raw_rows(rows, status), "tunnelproxy_edge_raw_per_ip_capacity_rejections_total"@, if status is Some { status->0.per_ip_capacity_rejections as int } else { 0int }),
        declares(raw_rows(rows, status), "tunnelproxy_edge_raw_target_unavailable_rejections_total"@, "counter"@),
        shows(raw_rows(rows, status), "tunnelproxy_edge_raw_target_unavailable_rejections_total"@, if status is Some { status->0.target_unavailable_rejections as int } else { 0int }),
{
    broadcast use group_shown;

}

proof fn lemma_route_and_history_rows_keep(
    rows: Seq<MetricRow>,
    route_health: Option<HttpsRouteSourceHealth>,
    route_version: u64,
    route_count: usize,
    history: HistoryCounts,
)
    ensures
        forall|series: Seq<char>, value: int| shows(rows, series, value) ==> #[trigger] shows(route_and_history_rows(rows, route_health, route_version, route_count, history), series, value),
        forall|name: Seq<char>, kind: Seq<char>| declares(rows, name, kind) ==> #[trigger] declares(route_and_history_rows(rows, route_health, route_version, route_count, history), name, kind),
{
    broadcast use group_shown;

}

proof fn lemma_route_and_history_rows(
    rows: Seq<MetricRow>,
    route_health: Option<HttpsRouteSourceHealth>,
    route_version: u64,
    route_count: usize,
    history: HistoryCounts,
)
    ensures
        declares(route_and_history_rows(rows, route_health, route_version, route_count, history), "tunnelproxy_edge_ingress_mode_raw"@, "gauge"@),
        shows(route_and_history_rows(rows, route_health, route_version, route_count, history), "tunnelproxy_edge_ingress_mode_raw"@, 0),
        declares(route_and_history_rows(rows, route_health, route_version, route_count, history), "tunnelproxy_edge_ingress_mode_https"@, "gauge"@),
        shows(route_and_history_rows(rows, route_health, route_version, route_count, history), "tunnelproxy_edge_ingress_mode_https"@, 1),
        declares(route_and_history_rows(rows, route_health, route_version, route_count, history), "tunnelproxy_edge_https_route_source"@, "gauge"@),
        shows(route_and_history_rows(rows, route_health, route_version, route_count, history), "tunnelproxy_edge_https_route_source{source=\"static\"}"@, if route_health is None { 1int } else { 0int }),
        shows(route_and_history_rows(rows, route_health, route_version, route_count, history), "tunnelproxy_edge_https_route_source{source=\"live\"}"@, if route_health == Some(HttpsRouteSourceHealth::Live) { 1int } else { 0int }),
        shows(route_and_history_rows(rows, route_health, route_version, route_count, history), "tunnelproxy_edge_https_route_source{source=\"stale\"}"@, if route_health == Some(HttpsRouteSourceHealth::Stale) { 1int } else { 0int }),
        shows(route_and_history_rows(rows, route_health, route_version, route_count, history), "tunnelproxy_edge_https_route_source{source=\"expired\"}"@, if route_health == Some(HttpsRouteSourceHealth::Expired) { 1int } else { 0int }),
        declares(route_and_history_rows(rows, route_health, route_version, route_count, history), "tunnelproxy_edge_https_route_catalog_version"@, "gauge"@),
        shows(route_and_history_rows(rows, route_health, route_version, route_count, history), "tunnelproxy_edge_https_route_catalog_version"@, route_version as int),
        declares(route_and_history_rows(rows, route_health, route_version, route_count, history), "tunnelproxy_edge_https_enabled_routes"@, "gauge"@),
        shows(route_and_history_rows(rows, route_health, route_version, route_count, history), "tunnelproxy_edge_https_enabled_routes"@, route_count as int),
        declares(route_and_history_rows(rows, route_health, route_version, route_count, history), "tunnelproxy_edge_https_request_history_capacity"@, "gauge"@),
        shows(route_and_history_rows(rows, route_health, route_version, route_count, history), "tunnelproxy_edge_https_request_history_capacity"@, history.capacity as int),
        declares(route_and_history_rows(rows, route_health, route_version, route_count, history), "tunnelproxy_edge_https_request_history_retained"@, "gauge"@),
        shows(route_and_history_rows(rows, route_health, route_version, route_count, history), "tunnelproxy_edge_https_request_history_retained"@, history.retained as int),
        declares(route_and_history_rows(rows, route_health, route_version, route_count, history), "tunnelproxy_edge_https_request_history_recorded_total"@, "counter"@),
        shows(route_and_history_rows(rows, route_health, route_version, route_count, history), "tunnelproxy_edge_https_request_history_recorded_total"@, history.recorded_total as int),
        declares(route_and_history_rows(rows, route_health, route_version, route_count, history), "tunnelproxy_edge_https_request_history_evicted_total"@, "counter"@),
        shows(route_and_history_rows(rows, route_health, route_version, route_count, history), "tunnelproxy_edge_https_request_history_evicted_total"@, history.evicted_total as int),
        declares(route_and_history_rows(rows, route_health, route_version, route_count, history), "tunnelproxy_edge_https_request_history_sequence_exhaustions_total"@, "counter"@),
        shows(route_and_history_rows(rows, route_health, route_version, route_count, history), "tunnelproxy_edge_https_request_history_sequence_exhaustions_total"@, history.sequence_exhaustions as int),
        declares(route_and_history_rows(rows, route_health, route_version, route_count, history), "tunnelproxy_edge_https_request_history_outcomes_total"@, "counter"@),
        shows(route_and_history_rows(rows, route_health, route_version, route_count, history), "tunnelproxy_edge_https_request_history_outcomes_total{outcome=\"forwarded\"}"@, history.forwarded as int),
        shows(route_and_history_rows(rows, route_health, route_version, route_count, history), "tunnelproxy_edge_https_request_history_outcomes_total{outcome=\"local_unavailable\"}"@, history.local_unavailable as int),
        shows(route_and_history_rows(rows, route_health, route_version, route_count, history), "tunnelproxy_edge_https_request_history_outcomes_total{outcome=\"timeout\"}"@, history.timeout as int),
        shows(route_and_history_rows(rows, route_health, route_version, route_count, history), "tunnelproxy_edge_https_request_history_outcomes_total{outcome=\"rejected\"}"@, history.rejected as int),
{
    broadcast use group_shown;

}

proof fn lemma_session_rows_keep(
    rows: Seq<MetricRow>,
    status: HttpIngressStatus,
)
    ensures
        forall|series: Seq<char>, value: int| shows(rows, series, value) ==> #[trigger] shows(session_rows(rows, status), series, value),
        forall|name: Seq<char>, kind: Seq<char>| declares(rows, name, kind) ==> #[trigger] declares(session_rows(rows, status), name, kind),
{
    broadcast use group_shown;

}

proof fn lemma_session_rows(
    rows: Seq<MetricRow>,
    status: HttpIngressStatus,
)
    ensures
        declares(session_rows(rows, status), "tunnelproxy_edge_https_active_connections"@, "gauge"@),
        shows(session_rows(rows, status), "tunnelproxy_edge_https_active_connections"@, status.active_connections as int),
        declares(session_rows(rows, status), "tunnelproxy_edge_https_accepted_connections_total"@, "counter"@),
        shows(session_rows(rows, status), "tunnelproxy_edge_https_accepted_connections_total"@, status.accepted_connections as int),
        declares(session_rows(rows, status), "tunnelproxy_edge_https_http1_connections_total"@, "counter"@),
        shows(session_rows(rows, status), "tunnelproxy_edge_https_http1_connections_total"@, status.http1_connections as int),
        declares(session_rows(rows, status), "tunnelproxy_edge_https_http2_connections_total"@, "counter"@),
        shows(session_rows(rows, status), "tunnelproxy_edge_https_http2_connections_total"@, status.http2_connections as int),
        declares(session_rows(rows, status), "tunnelproxy_edge_https_active_http2_streams"@, "gauge"@),
        shows(session_rows(rows, status), "tunnelproxy_edge_https_active_http2_streams"@, status.active_http2_streams as int),
        declares(session_rows(rows, status), "tunnelproxy_edge_https_peak_active_http2_streams"@, "gauge"@),
        shows(session_rows(rows, status), "tunnelproxy_edge_https_peak_active_http2_streams"@, status.peak_active_http2_streams as int),
        declares(session_rows(rows, status), "tunnelproxy_edge_https_websocket_upgrades_total"@, "counter"@),
        shows(session_rows(rows, status), "tunnelproxy_edge_https_websocket_upgrades_total"@, status.accepted_websocket_upgrades as int),
        declares(session_rows(rows, status), "tunnelproxy_edge_https_websocket_rejections_total"@, "counter"@),
        shows(session_rows(rows, status), "tunnelproxy_edge_https_websocket_rejections_total"@, status.rejected_websocket_upgrades as int),
        declares(session_rows(rows, status), "tunnelproxy_edge_https_active_websocket_sessions"@, "gauge"@),
        shows(session_rows(rows, status), "tunnelproxy_edge_https_active_websocket_sessions"@, status.active_websocket_sessions as int),
        declares(session_rows(rows, status), "tunnelproxy_edge_https_peak_active_websocket_sessions"@, "gauge"@),
        shows(session_rows(rows, status), "tunnelproxy_edge_https_peak_active_websocket_sessions"@, status.peak_active_websocket_sessions as int),
        declares(session_rows(rows, status), "tunnelproxy_edge_https_websocket_idle_timeouts_total"@, "counter"@),
        shows(session_rows(rows, status), "tunnelproxy_edge_https_websocket_idle_timeouts_total"@, status.websocket_idle_timeouts as int),
        declares(session_rows(rows, status), "tunnelproxy_edge_https_http2_websocket_sessions_total"@, "counter"@),
        shows(session_rows(rows, status), "tunnelproxy_edge_https_http2_websocket_sessions_total"@, status.accepted_http2_websocket_sessions as int),
        declares(session_rows(rows, status), "tunnelproxy_edge_https_http2_websocket_rejections_total"@, "counter"@),
        shows(session_rows(rows, status), "tunnelproxy_edge_https_http2_websocket_rejections_total"@, status.rejected_http2_websocket_sessions as int),
        declares(session_rows(rows, status), "tunnelproxy_edge_https_active_http2_websocket_sessions"@, "gauge"@),
        shows(session_rows(rows, status), "tunnelproxy_edge_https_active_http2_websocket_sessions"@, status.active_http2_websocket_sessions as int),
        declares(session_rows(rows, status), "tunnelproxy_edge_https_peak_active_http2_websocket_sessions"@, "gauge"@),
        shows(session_rows(rows, status), "tunnelproxy_edge_https_peak_active_http2_websocket_sessions"@, status.peak_active_http2_websocket_sessions as int),
        declares(session_rows(rows, status), "tunnelproxy_edge_https_http2_websocket_idle_timeouts_total"@, "counter"@),
        shows(session_rows(rows, status), "tunnelproxy_edge_https_http2_websocket_idle_timeouts_total"@, status.http2_websocket_idle_timeouts as int),
        declares(session_rows(rows, status), "tunnelproxy_edge_https_connect_sessions_total"@, "counter"@),
        shows(session_rows(rows, status), "tunnelproxy_edge_https_connect_sessions_total"@, status.accepted_connect_sessions as int),
        declares(session_rows(rows, status), "tunnelproxy_edge_https_connect_rejections_total"@, "counter"@),
        shows(session_rows(rows, status), "tunnelproxy_edge_https_connect_rejections_total"@, status.rejected_connect_sessions as int),
        declares(session_rows(rows, status), "tunnelproxy_edge_https_active_connect_sessions"@, "gauge"@),
        shows(session_rows(rows, status), "tunnelproxy_edge_https_active_connect_sessions"@, status.active_connect_sessions as int),
        declares(session_rows(rows, status), "tunnelproxy_edge_https_peak_active_connect_sessions"@, "gauge"@),
        shows(session_rows(rows, status), "tunnelproxy_edge_https_peak_active_connect_sessions"@, status.peak_active_connect_sessions as int),
        declares(session_rows(rows, status), "tunnelproxy_edge_https_connect_idle_timeouts_total"@, "counter"@),
        shows(session_rows(rows, status), "tunnelproxy_edge_https_connect_idle_timeouts_total"@, status.connect_idle_timeouts as int),
        declares(session_rows(rows, status), "tunnelproxy_edge_https_http2_connect_sessions_total"@, "counter"@),
        shows(session_rows(rows, status), "tunnelproxy_edge_https_http2_connect_sessions_total"@, status.accepted_http2_connect_sessions as int),
        declares(session_rows(rows, status), "tunnelproxy_edge_https_http2_connect_rejections_total"@, "counter"@),
        shows(session_rows(rows, status), "tunnelproxy_edge_https_http2_connect_rejections_total"@, status.rejected_http2_connect_sessions as int),
        declares(session_rows(rows, status), "tunnelproxy_edge_https_active_http2_connect_sessions"@, "gauge"@),
        shows(session_rows(rows, status), "tunnelproxy_edge_https_active_http2_connect_sessions"@, status.active_http2_connect_sessions as int),
        declares(session_rows(rows, status), "tunnelproxy_edge_https_peak_active_http2_connect_sessions"@, "gauge"@),
        shows(session_rows(rows, status), "tunnelproxy_edge_https_peak_active_http2_connect_sessions"@, status.peak_active_http2_connect_sessions as int),
{
    broadcast use group_shown;

}

proof fn lemma_request_rows_keep(
    rows: Seq<MetricRow>,
    status: HttpIngressStatus,
)
    ensures
        forall|series: Seq<char>, value: int| shows(rows, series, value) ==> #[trigger] shows(request_rows(rows, status), series, value),
        forall|name: Seq<char>, kind: Seq<char>| declares(rows, name, kind) ==> #[trigger] declares(request_rows(rows, status), name, kind),
{
    broadcast use group_shown;

}

proof fn lemma_request_rows(
    rows: Seq<MetricRow>,
    status: HttpIngressStatus,
)
    ensures
        declares(request_rows(rows, status), "tunnelproxy_edge_https_http2_connect_idle_timeouts_total"@, "counter"@),
        shows(request_rows(rows, status), "tunnelproxy_edge_https_http2_connect_idle_timeouts_total"@, status.http2_connect_idle_timeouts as int),
        declares(request_rows(rows, status), "tunnelproxy_edge_https_completed_requests_total"@, "counter"@),
        shows(request_rows(rows, status), "tunnelproxy_edge_https_completed_requests_total"@, status.completed_requests as int),
        declares(request_rows(rows, status), "tunnelproxy_edge_https_admitted_requests_total"@, "counter"@),
        shows(request_rows(rows, status), "tunnelproxy_edge_https_admitted_requests_total"@, status.admitted_requests as int),
        declares(request_rows(rows, status), "tunnelproxy_edge_https_rejected_requests_total"@, "counter"@),
        shows(request_rows(rows, status), "tunnelproxy_edge_https_rejected_requests_total"@, status.rejected_requests as int),
        declares(request_rows(rows, status), "tunnelproxy_edge_https_global_capacity_rejections_total"@, "counter"@),
        shows(request_rows(rows, status), "tunnelproxy_edge_https_global_capacity_rejections_total"@, status.global_capacity_rejections as int),
        declares(request_rows(rows, status), "tunnelproxy_edge_https_per_ip_capacity_rejections_total"@, "counter"@),
        shows(request_rows(rows, status), "tunnelproxy_edge_https_per_ip_capacity_rejections_total"@, status.per_ip_capacity_rejections as int),
        declares(request_rows(rows, status), "tunnelproxy_edge_https_tls_rejections_total"@, "counter"@),
        shows(request_rows(rows, status), "tunnelproxy_edge_https_tls_rejections_total"@, status.tls_rejections as int),
        declares(request_rows(rows, status), "tunnelproxy_edge_https_reused_requests_total"@, "counter"@),
        shows(request_rows(rows, status), "tunnelproxy_edge_https_reused_requests_total"@, status.reused_requests as int),
        declares(request_rows(rows, status), "tunnelproxy_edge_https_request_timeouts_total"@, "counter"@),
        shows(request_rows(rows, status), "tunnelproxy_edge_https_request_timeouts_total"@, status.request_timeouts as int),
        declares(request_rows(rows, status), "tunnelproxy_edge_https_global_rate_limit_rejections_total"@, "counter"@),
        shows(request_rows(rows, status), "tunnelproxy_edge_https_global_rate_limit_rejections_total"@, status.global_rate_limit_rejections as int),
        declares(request_rows(rows, status), "tunnelproxy_edge_https_per_ip_rate_limit_rejections_total"@, "counter"@),
        shows(request_rows(rows, status), "tunnelproxy_edge_https_per_ip_rate_limit_rejections_total"@, status.per_ip_rate_limit_rejections as int),
        declares(request_rows(rows, status), "tunnelproxy_edge_https_rate_limit_peer_capacity_rejections_total"@, "counter"@),
        shows(request_rows(rows, status), "tunnelproxy_edge_https_rate_limit_peer_capacity_rejections_total"@, status.rate_limit_peer_capacity_rejections as int),
        declares(request_rows(rows, status), "tunnelproxy_edge_https_signed_access_requests_total"@, "counter"@),
        shows(request_rows(rows, status), "tunnelproxy_edge_https_signed_access_requests_total"@, status.accepted_signed_access_requests as int),
        declares(request_rows(rows, status), "tunnelproxy_edge_https_signed_access_missing_rejections_total"@, "counter"@),
        shows(request_rows(rows, status), "tunnelproxy_edge_https_signed_access_missing_rejections_total"@, status.missing_signed_access_rejections as int),
        declares(request_rows(rows, status), "tunnelproxy_edge_https_signed_access_invalid_rejections_total"@, "counter"@),
        shows(request_rows(rows, status), "tunnelproxy_edge_https_signed_access_invalid_rejections_total"@, status.invalid_signed_access_rejections as int),
        declares(request_rows(rows, status), "tunnelproxy_edge_https_signed_access_expired_rejections_total"@, "counter"@),
        shows(request_rows(rows, status), "tunnelproxy_edge_https_signed_access_expired_rejections_total"@, status.expired_signed_access_rejections as int),
        declares(request_rows(rows, status), "tunnelproxy_edge_https_signed_access_keyring_generation"@, "gauge"@),
        shows(request_rows(rows, status), "tunnelproxy_edge_https_signed_access_keyring_generation"@, status.signed_access_keyring_generation as int),
        declares(request_rows(rows, status), "tunnelproxy_edge_https_signed_access_keyring_reload_failed"@, "gauge"@),
        shows(request_rows(rows, status), "tunnelproxy_edge_https_signed_access_keyring_reload_failed"@, if status.signed_access_keyring_reload_failed { 1int } else { 0int }),
        declares(request_rows(rows, status), "tunnelproxy_edge_https_signed_access_keyring_reload_successes_total"@, "counter"@),
        shows(request_rows(rows, status), "tunnelproxy_edge_https_signed_access_keyring_reload_successes_total"@, status.signed_access_keyring_reload_successes as int),
        declares(request_rows(rows, status), "tunnelproxy_edge_https_signed_access_keyring_reload_failures_total"@, "counter"@),
        shows(request_rows(rows, status), "tunnelproxy_edge_https_signed_access_keyring_reload_failures_total"@, status.signed_access_keyring_reload_failures as int),
        declares(request_rows(rows, status), "tunnelproxy_edge_https_reachability_probe_requests_total"@, "counter"@),
        shows(request_rows(rows, status), "tunnelproxy_edge_https_reachability_probe_requests_total"@, status.reachability_probe_requests as int),
        declares(request_rows(rows, status), "tunnelproxy_edge_https_reachability_probe_successes_total"@, "counter"@),
        shows(request_rows(rows, status), "tunnelproxy_edge_https_reachability_probe_successes_total"@, status.successful_reachability_probes as int),
        declares(request_rows(rows, status), "tunnelproxy_edge_https_reachability_probe_failures_total"@, "counter"@),
        shows(request_rows(rows, status), "tunnelproxy_edge_https_reachability_probe_failures_total"@, status.failed_reachability_probes as int),
        declares(request_rows(rows, status), "tunnelproxy_edge_https_tracked_rate_limit_peers"@, "gauge"@),
        shows(request_rows(rows, status), "tunnelproxy_edge_https_tracked_rate_limit_peers"@, status.tracked_rate_limit_peers as int),
        declares(request_rows(rows, status), "tunnelproxy_edge_https_peak_tracked_rate_limit_peers"@, "gauge"@),
        shows(request_rows(rows, status), "tunnelproxy_edge_https_peak_tracked_rate_limit_peers"@, status.peak_tracked_rate_limit_peers as int),
{
    broadcast use group_shown;

}

/// The page shows whether the edge is ready and connected, where its authorization comes
/// from, what its operations endpoint counted, and what its log buffer did.
pub proof fn pages_show_the_process(snapshot: EdgeMetricSnapshot)
    ensures
        declares(metric_rows(snapshot), "tunnelproxy_edge_up"@, "gauge"@),
        shows(metric_rows(snapshot), "tunnelproxy_edge_up"@, 1),
        declares(metric_rows(snapshot), "tunnelproxy_edge_ready"@, "gauge"@),
        shows(metric_rows(snapshot), "tunnelproxy_edge_ready"@, if snapshot.ready { 1int } else { 0int }),
        declares(metric_rows(snapshot), "tunnelproxy_edge_tunnel_connected"@, "gauge"@),
        shows(metric_rows(snapshot), "tunnelproxy_edge_tunnel_connected"@, if snapshot.tunnel_connected { 1int } else { 0int }),
        declares(metric_rows(snapshot), "tunnelproxy_edge_authorization_source"@, "gauge"@),
        shows(metric_rows(snapshot), "tunnelproxy_edge_authorization_source{source=\"static\"}"@, if snapshot.authorization_source == AuthorizationSourceStatus::Static { 1int } else { 0int }),
        shows(metric_rows(snapshot), "tunnelproxy_edge_authorization_source{source=\"live\"}"@, if snapshot.authorization_source == AuthorizationSourceStatus::Live { 1int } else { 0int }),
        shows(metric_rows(snapshot), "tunnelproxy_edge_authorization_source{source=\"stale\"}"@, if snapshot.authorization_source == AuthorizationSourceStatus::Stale { 1int } else { 0int }),
        declares(metric_rows(snapshot), "tunnelproxy_edge_authorization_snapshot_version"@, "gauge"@),
        shows(metric_rows(snapshot), "tunnelproxy_edge_authorization_snapshot_version"@, snapshot.authorization_version as int),
        declares(metric_rows(snapshot), "tunnelproxy_edge_authorization_revoked_sessions_total"@, "counter"@),
        shows(metric_rows(snapshot), "tunnelproxy_edge_authorization_revoked_sessions_total"@, snapshot.revoked_sessions as int),
        declares(metric_rows(snapshot), "tunnelproxy_edge_operations_active_connections"@, "gauge"@),
        shows(metric_rows(snapshot), "tunnelproxy_edge_operations_active_connections"@, snapshot.operations.active_connections as int),
        declares(metric_rows(snapshot), "tunnelproxy_edge_operations_accepted_connections_total"@, "counter"@),
        shows(metric_rows(snapshot), "tunnelproxy_edge_operations_accepted_connections_total"@, snapshot.operations.accepted_connections as int),
        declares(metric_rows(snapshot), "tunnelproxy_edge_operations_completed_requests_total"@, "counter"@),
        shows(metric_rows(snapshot), "tunnelproxy_edge_operations_completed_requests_total"@, snapshot.operations.completed_requests as int),
        declares(metric_rows(snapshot), "tunnelproxy_edge_operations_rejected_requests_total"@, "counter"@),
        shows(metric_rows(snapshot), "tunnelproxy_edge_operations_rejected_requests_total"@, snapshot.operations.rejected_requests as int),
        declares(metric_rows(snapshot), "tunnelproxy_edge_operations_capacity_rejections_total"@, "counter"@),
        shows(metric_rows(snapshot), "tunnelproxy_edge_operations_capacity_rejections_total"@, snapshot.operations.capacity_rejections as int),
        declares(metric_rows(snapshot), "tunnelproxy_edge_logging_nonblocking_enabled"@, "gauge"@),
        shows(metric_rows(snapshot), "tunnelproxy_edge_logging_nonblocking_enabled"@, if snapshot.logging.buffer_capacity_events > 0 { 1int } else { 0int }),
        declares(metric_rows(snapshot), "tunnelproxy_edge_logging_buffer_capacity_events"@, "gauge"@),
        shows(metric_rows(snapshot), "tunnelproxy_edge_logging_buffer_capacity_events"@, snapshot.logging.buffer_capacity_events as int),
        declares(metric_rows(snapshot), "tunnelproxy_edge_logging_accepted_events_total"@, "counter"@),
        shows(metric_rows(snapshot), "tunnelproxy_edge_logging_accepted_events_total"@, snapshot.logging.accepted_events as int),
        declares(metric_rows(snapshot), "tunnelproxy_edge_logging_dropped_events_total"@, "counter"@),
        shows(metric_rows(snapshot), "tunnelproxy_edge_logging_dropped_events_total"@, snapshot.logging.dropped_events as int),
        declares(metric_rows(snapshot), "tunnelproxy_edge_logging_oversized_events_total"@, "counter"@),
        shows(metric_rows(snapshot), "tunnelproxy_edge_logging_oversized_events_total"@, snapshot.logging.oversized_events as int),
        declares(metric_rows(snapshot), "tunnelproxy_edge_logging_write_failures_total"@, "counter"@),
        shows(metric_rows(snapshot), "tunnelproxy_edge_logging_write_failures_total"@, snapshot.logging.write_failures as int),
{
    let r1: Seq<MetricRow> = process_rows(Seq::empty(), snapshot.ready, snapshot.tunnel_connected, snapshot.authorization_source, snapshot.authorization_version, snapshot.revoked_sessions, snapshot.operations);
    let r2: Seq<MetricRow> = logging_rows(r1, snapshot.logging);
    let r3: Seq<MetricRow> = transport_rows(r2, snapshot.transport);
    lemma_process_rows(Seq::empty(), snapshot.ready, snapshot.tunnel_connected, snapshot.authorization_source, snapshot.authorization_version, snapshot.revoked_sessions, snapshot.operations);
    lemma_logging_rows(r1, snapshot.logging);
    lemma_logging_rows_keep(r1, snapshot.logging);
    lemma_transport_rows_keep(r2, snapshot.transport);
    if snapshot.ingress is Raw {
        lemma_raw_rows_keep(r3, snapshot.ingress->Raw_0);
    } else {
        let r4: Seq<MetricRow> = route_and_history_rows(r3, snapshot.ingress->Https_route_health, snapshot.ingress->Https_route_version, snapshot.ingress->Https_route_count, history_counts(snapshot.ingress->Https_request_history));
        let r5: Seq<MetricRow> = session_rows(r4, snapshot.ingress->Https_status);
        lemma_route_and_history_rows_keep(r3, snapshot.ingress->Https_route_health, snapshot.ingress->Https_route_version, snapshot.ingress->Https_route_count, history_counts(snapshot.ingress->Https_request_history));
        lemma_session_rows_keep(r4, snapshot.ingress->Https_status);
        lemma_request_rows_keep(r5, snapshot.ingress->Https_status);
    }
}

/// The page shows what the sessions with Agents carried.
pub proof fn pages_show_the_traffic(snapshot: EdgeMetricSnapshot)
    ensures
        declares(metric_rows(snapshot), "tunnelproxy_edge_transport_active_streams"@, "gauge"@),
        shows(metric_rows(snapshot), "tunnelproxy_edge_transport_active_streams"@, snapshot.transport.active_streams as int),
        declares(metric_rows(snapshot), "tunnelproxy_edge_transport_peak_active_streams"@, "gauge"@),
        shows(metric_rows(snapshot), "tunnelproxy_edge_transport_peak_active_streams"@, snapshot.transport.peak_active_streams as int),
        declares(metric_rows(snapshot), "tunnelproxy_edge_transport_data_frames_total"@, "counter"@),
        shows(metric_rows(snapshot), "tunnelproxy_edge_transport_data_frames_total{direction=\"sent\"}"@, snapshot.transport.sent_data_frames as int),
        shows(metric_rows(snapshot), "tunnelproxy_edge_transport_data_frames_total{direction=\"received\"}"@, snapshot.transport.received_data_frames as int),
        declares(metric_rows(snapshot), "tunnelproxy_edge_transport_data_bytes_total"@, "counter"@),
        shows(metric_rows(snapshot), "tunnelproxy_edge_transport_data_bytes_total{direction=\"sent\"}"@, snapshot.transport.sent_data_bytes as int),
        shows(metric_rows(snapshot), "tunnelproxy_edge_transport_data_bytes_total{direction=\"received\"}"@, snapshot.transport.received_data_bytes as int),
        declares(metric_rows(snapshot), "tunnelproxy_edge_transport_data_admission_waits_total"@, "counter"@),
        shows(metric_rows(snapshot), "tunnelproxy_edge_transport_data_admission_waits_total"@, snapshot.transport.data_admission_waits as int),
        declares(metric_rows(snapshot), "tunnelproxy_edge_transport_data_pipeline_frames"@, "gauge"@),
        shows(metric_rows(snapshot), "tunnelproxy_edge_transport_data_pipeline_frames"@, snapshot.transport.data_pipeline_frames as int),
        declares(metric_rows(snapshot), "tunnelproxy_edge_transport_data_pipeline_capacity_frames"@, "gauge"@),
        shows(metric_rows(snapshot), "tunnelproxy_edge_transport_data_pipeline_capacity_frames"@, snapshot.transport.data_pipeline_capacity_frames as int),
        declares(metric_rows(snapshot), "tunnelproxy_edge_transport_peak_data_pipeline_frames"@, "gauge"@),
        shows(metric_rows(snapshot), "tunnelproxy_edge_transport_peak_data_pipeline_frames"@, snapshot.transport.peak_data_pipeline_frames as int),
        declares(metric_rows(snapshot), "tunnelproxy_edge_transport_flow_control_resets_total"@, "counter"@),
        shows(metric_rows(snapshot), "tunnelproxy_edge_transport_flow_control_resets_total"@, snapshot.transport.flow_control_resets as int),
        declares(metric_rows(snapshot), "tunnelproxy_edge_transport_control_burst_yields_total"@, "counter"@),
        shows(metric_rows(snapshot), "tunnelproxy_edge_transport_control_burst_yields_total"@, snapshot.transport.control_burst_yields as int),
{
    let r1: Seq<MetricRow> = process_rows(Seq::empty(), snapshot.ready, snapshot.tunnel_connected, snapshot.authorization_source, snapshot.authorization_version, snapshot.revoked_sessions, snapshot.operations);
    let r2: Seq<MetricRow> = logging_rows(r1, snapshot.logging);
    let r3: Seq<MetricRow> = transport_rows(r2, snapshot.transport);
    lemma_transport_rows(r2, snapshot.transport);
    if snapshot.ingress is Raw {
        lemma_raw_rows_keep(r3, snapshot.ingress->Raw_0);
    } else {
        let r4: Seq<MetricRow> = route_and_history_rows(r3, snapshot.ingress->Https_route_health, snapshot.ingress->Https_route_version, snapshot.ingress->Https_route_count, history_counts(snapshot.ingress->Https_request_history));
        let r5: Seq<MetricRow> = session_rows(r4, snapshot.ingress->Https_status);
        lemma_route_and_history_rows_keep(r3, snapshot.ingress->Https_route_health, snapshot.ingress->Https_route_version, snapshot.ingress->Https_route_count, history_counts(snapshot.ingress->Https_request_history));
        lemma_session_rows_keep(r4, snapshot.ingress->Https_status);
        lemma_request_rows_keep(r5, snapshot.ingress->Https_status);
    }
}

/// The page of an edge with raw ingress shows what its route counted, and zeros where
/// it has none.
pub proof fn pages_show_raw_ingress(snapshot: EdgeMetricSnapshot)
    requires
        snapshot.ingress is Raw,
    ensures
        declares(metric_rows(snapshot), "tunnelproxy_edge_ingress_mode_raw"@, "gauge"@),
        shows(metric_rows(snapshot), "tunnelproxy_edge_ingress_mode_raw"@, 1),
        declares(metric_rows(snapshot), "tunnelproxy_edge_ingress_mode_https"@, "gauge"@),
        shows(metric_rows(snapshot), "tunnelproxy_edge_ingress_mode_https"@, 0),
        declares(metric_rows(snapshot), "tunnelproxy_edge_raw_route_present"@, "gauge"@),
        shows(metric_rows(snapshot), "tunnelproxy_edge_raw_route_present"@, if snapshot.ingress->Raw_0 is Some { 1int } else { 0int }),
        declares(metric_rows(snapshot), "tunnelproxy_edge_raw_active_connections"@, "gauge"@),
        shows(metric_rows(snapshot), "tunnelproxy_edge_raw_active_connections"@, if snapshot.ingress->Raw_0 is Some { snapshot.ingress->Raw_0->0.active_connections as int } else { 0int }),
        declares(metric_rows(snapshot), "tunnelproxy_edge_raw_accepted_connections_total"@, "counter"@),
        shows(metric_rows(snapshot), "tunnelproxy_edge_raw_accepted_connections_total"@, if snapshot.ingress->Raw_0 is Some { snapshot.ingress->Raw_0->0.accepted_connections as int } else { 0int }),
        declares(metric_rows(snapshot), "tunnelproxy_edge_raw_global_capacity_rejections_total"@, "counter"@),
        shows(metric_rows(snapshot), "tunnelproxy_edge_raw_global_capacity_rejections_total"@, if snapshot.ingress->Raw_0 is Some { snapshot.ingress->Raw_0->0.global_capacity_rejections as int } else { 0int }),
        declares(metric_rows(snapshot), "tunnelproxy_edge_raw_per_ip_capacity_rejections_total"@, "counter"@),
        shows(metric_rows(snapshot), "tunnelproxy_edge_raw_per_ip_capacity_rejections_total"@, if snapshot.ingress->Raw_0 is Some { snapshot.ingress->Raw_0->0.per_ip_capacity_rejections as int } else { 0int }),
        declares(metric_rows(snapshot), "tunnelproxy_edge_raw_target_unavailable_rejections_total"@, "counter"@),
        shows(metric_rows(snapshot), "tunnelproxy_edge_raw_target_unavailable_rejections_total"@, if snapshot.ingress->Raw_0 is Some { snapshot.ingress->Raw_0->0.target_unavailable_rejections as int } else { 0int }),
{
    let r1: Seq<MetricRow> = process_rows(Seq::empty(), snapshot.ready, snapshot.tunnel_connected, snapshot.authorization_source, snapshot.authorization_version, snapshot.revoked_sessions, snapshot.operations);
    let r2: Seq<MetricRow> = logging_rows(r1, snapshot.logging);
    let r3: Seq<MetricRow> = transport_rows(r2, snapshot.transport);
    lemma_raw_rows(r3, snapshot.ingress->Raw_0);
}

/// The page of an edge with HTTPS ingress shows where its routes come from and how many
/// they are, and what its history of requests keeps.
pub proof fn pages_show_routes_and_history(snapshot: EdgeMetricSnapshot)
    requires
        snapshot.ingress is Https,
    ensures
        declares(metric_rows(snapshot), "tunnelproxy_edge_ingress_mode_raw"@, "gauge"@),
        shows(metric_rows(snapshot), "tunnelproxy_edge_ingress_mode_raw"@, 0),
        declares(metric_rows(snapshot), "tunnelproxy_edge_ingress_mode_https"@, "gauge"@),
        shows(metric_rows(snapshot), "tunnelproxy_edge_ingress_mode_https"@, 1),
        declares(metric_rows(snapshot), "tunnelproxy_edge_https_route_source"@, "gauge"@),
        shows(metric_rows(snapshot), "tunnelproxy_edge_https_route_source{source=\"static\"}"@, if snapshot.ingress->Https_route_health is None { 1int } else { 0int }),
        shows(metric_rows(snapshot), "tunnelproxy_edge_https_route_source{source=\"live\"}"@, if snapshot.ingress->Https_route_health == Some(HttpsRouteSourceHealth::Live) { 1int } else { 0int }),
        shows(metric_rows(snapshot), "tunnelproxy_edge_https_route_source{source=\"stale\"}"@, if snapshot.ingress->Https_route_health == Some(HttpsRouteSourceHealth::Stale) { 1int } else { 0int }),
        shows(metric_rows(snapshot), "tunnelproxy_edge_https_route_source{source=\"expired\"}"@, if snapshot.ingress->Https_route_health == Some(HttpsRouteSourceHealth::Expired) { 1int } else { 0int }),
        declares(metric_rows(snapshot), "tunnelproxy_edge_https_route_catalog_version"@, "gauge"@),
        shows(metric_rows(snapshot), "tunnelproxy_edge_https_route_catalog_version"@, snapshot.ingress->Https_route_version as int),
        declares(metric_rows(snapshot), "tunnelproxy_edge_https_enabled_routes"@, "gauge"@),
        shows(metric_rows(snapshot), "tunnelproxy_edge_https_enabled_routes"@, snapshot.ingress->Https_route_count as int),
        declares(metric_rows(snapshot), "tunnelproxy_edge_https_request_history_capacity"@, "gauge"@),
        shows(metric_rows(snapshot), "tunnelproxy_edge_https_request_history_capacity"@, if snapshot.ingress->Https_request_history is Some { snapshot.ingress->Https_request_history->0.capacity as int } else { 0int }),
        declares(metric_rows(snapshot), "tunnelproxy_edge_https_request_history_retained"@, "gauge"@),
        shows(metric_rows(snapshot), "tunnelproxy_edge_https_request_history_retained"@, if snapshot.ingress->Https_request_history is Some { snapshot.ingress->Https_request_history->0.entries.len() as int } else { 0int }),
        declares(metric_rows(snapshot), "tunnelproxy_edge_https_request_history_recorded_total"@, "counter"@),
        shows(metric_rows(snapshot), "tunnelproxy_edge_https_request_history_recorded_total"@, if snapshot.ingress->Https_request_history is Some { snapshot.ingress->Https_request_history->0.recorded_total as int } else { 0int }),
        declares(metric_rows(snapshot), "tunnelproxy_edge_https_request_history_evicted_total"@, "counter"@),
        shows(metric_rows(snapshot), "tunnelproxy_edge_https_request_history_evicted_total"@, if snapshot.ingress->Https_request_history is Some { snapshot.ingress->Https_request_history->0.evicted_total as int } else { 0int }),
        declares(metric_rows(snapshot), "tunnelproxy_edge_https_request_history_sequence_exhaustions_total"@, "counter"@),
        shows(metric_rows(snapshot), "tunnelproxy_edge_https_request_history_sequence_exhaustions_total"@, if snapshot.ingress->Https_request_history is Some { snapshot.ingress->Https_request_history->0.sequence_exhaustions as int } else { 0int }),
        declares(metric_rows(snapshot), "tunnelproxy_edge_https_request_history_outcomes_total"@, "counter"@),
        shows(metric_rows(snapshot), "tunnelproxy_edge_https_request_history_outcomes_total{outcome=\"forwarded\"}"@, if snapshot.ingress->Https_request_history is Some { snapshot.ingress->Https_request_history->0.outcomes@[RequestHistoryOutcome::Forwarded.place()] as int } else { 0int }),
        shows(metric_rows(snapshot), "tunnelproxy_edge_https_request_history_outcomes_total{outcome=\"local_unavailable\"}"@, if snapshot.ingress->Https_request_history is Some { snapshot.ingress->Https_request_history->0.outcomes@[RequestHistoryOutcome::LocalUnavailable.place()] as int } else { 0int }),
        shows(metric_rows(snapshot), "tunnelproxy_edge_https_request_history_outcomes_total{outcome=\"timeout\"}"@, if snapshot.ingress->Https_request_history is Some { snapshot.ingress->Https_request_history->0.outcomes@[RequestHistoryOutcome::Timeout.place()] as int } else { 0int }),
        shows(metric_rows(snapshot), "tunnelproxy_edge_https_request_history_outcomes_total{outcome=\"rejected\"}"@, if snapshot.ingress->Https_request_history is Some { snapshot.ingress->Https_request_history->0.outcomes@[RequestHistoryOutcome::Rejected.place()] as int } else { 0int }),
{
    let r1: Seq<MetricRow> = process_rows(Seq::empty(), snapshot.ready, snapshot.tunnel_connected, snapshot.authorization_source, snapshot.authorization_version, snapshot.revoked_sessions, snapshot.operations);
    let r2: Seq<MetricRow> = logging_rows(r1, snapshot.logging);
    let r3: Seq<MetricRow> = transport_rows(r2, snapshot.transport);
    let r4: Seq<MetricRow> = route_and_history_rows(r3, snapshot.ingress->Https_route_health, snapshot.ingress->Https_route_version, snapshot.ingress->Https_route_count, history_counts(snapshot.ingress->Https_request_history));
    let r5: Seq<MetricRow> = session_rows(r4, snapshot.ingress->Https_status);
    lemma_route_and_history_rows(r3, snapshot.ingress->Https_route_health, snapshot.ingress->Https_route_version, snapshot.ingress->Https_route_count, history_counts(snapshot.ingress->Https_request_history));
    lemma_session_rows_keep(r4, snapshot.ingress->Https_status);
    lemma_request_rows_keep(r5, snapshot.ingress->Https_status);
}

/// The page of an edge with HTTPS ingress shows its connections and sessions.
pub proof fn pages_show_sessions(snapshot: EdgeMetricSnapshot)
    requires
        snapshot.ingress is Https,
    ensures
        declares(metric_rows(snapshot), "tunnelproxy_edge_https_active_connections"@, "gauge"@),
        shows(metric_rows(snapshot), "tunnelproxy_edge_https_active_connections"@, snapshot.ingress->Https_status.active_connections as int),
        declares(metric_rows(snapshot), "tunnelproxy_edge_https_accepted_connections_total"@, "counter"@),
        shows(metric_rows(snapshot), "tunnelproxy_edge_https_accepted_connections_total"@, snapshot.ingress->Https_status.accepted_connections as int),
        declares(metric_rows(snapshot), "tunnelproxy_edge_https_http1_connections_total"@, "counter"@),
        shows(metric_rows(snapshot), "tunnelproxy_edge_https_http1_connections_total"@, snapshot.ingress->Https_status.http1_connections as int),
        declares(metric_rows(snapshot), "tunnelproxy_edge_https_http2_connections_total"@, "counter"@),
        shows(metric_rows(snapshot), "tunnelproxy_edge_https_http2_connections_total"@, snapshot.ingress->Https_status.http2_connections as int),
        declares(metric_rows(snapshot), "tunnelproxy_edge_https_active_http2_streams"@, "gauge"@),
        shows(metric_rows(snapshot), "tunnelproxy_edge_https_active_http2_streams"@, snapshot.ingress->Https_status.active_http2_streams as int),
        declares(metric_rows(snapshot), "tunnelproxy_edge_https_peak_active_http2_streams"@, "gauge"@),
        shows(metric_rows(snapshot), "tunnelproxy_edge_https_peak_active_http2_streams"@, snapshot.ingress->Https_status.peak_active_http2_streams as int),
        declares(metric_rows(snapshot), "tunnelproxy_edge_https_websocket_upgrades_total"@, "counter"@),
        shows(metric_rows(snapshot), "tunnelproxy_edge_https_websocket_upgrades_total"@, snapshot.ingress->Https_status.accepted_websocket_upgrades as int),
        declares(metric_rows(snapshot), "tunnelproxy_edge_https_websocket_rejections_total"@, "counter"@),
        shows(metric_rows(snapshot), "tunnelproxy_edge_https_websocket_rejections_total"@, snapshot.ingress->Https_status.rejected_websocket_upgrades as int),
        declares(metric_rows(snapshot), "tunnelproxy_edge_https_active_websocket_sessions"@, "gauge"@),
        shows(metric_rows(snapshot), "tunnelproxy_edge_https_active_websocket_sessions"@, snapshot.ingress->Https_status.active_websocket_sessions as int),
        declares(metric_rows(snapshot), "tunnelproxy_edge_https_peak_active_websocket_sessions"@, "gauge"@),
        shows(metric_rows(snapshot), "tunnelproxy_edge_https_peak_active_websocket_sessions"@, snapshot.ingress->Https_status.peak_active_websocket_sessions as int),
        declares(metric_rows(snapshot), "tunnelproxy_edge_https_websocket_idle_timeouts_total"@, "counter"@),
        shows(metric_rows(snapshot), "tunnelproxy_edge_https_websocket_idle_timeouts_total"@, snapshot.ingress->Https_status.websocket_idle_timeouts as int),
        declares(metric_rows(snapshot), "tunnelproxy_edge_https_http2_websocket_sessions_total"@, "counter"@),
        shows(metric_rows(snapshot), "tunnelproxy_edge_https_http2_websocket_sessions_total"@, snapshot.ingress->Https_status.accepted_http2_websocket_sessions as int),
        declares(metric_rows(snapshot), "tunnelproxy_edge_https_http2_websocket_rejections_total"@, "counter"@),
        shows(metric_rows(snapshot), "tunnelproxy_edge_https_http2_websocket_rejections_total"@, snapshot.ingress->Https_status.rejected_http2_websocket_sessions as int),
        declares(metric_rows(snapshot), "tunnelproxy_edge_https_active_http2_websocket_sessions"@, "gauge"@),
        shows(metric_rows(snapshot), "tunnelproxy_edge_https_active_http2_websocket_sessions"@, snapshot.ingress->Https_status.active_http2_websocket_sessions as int),
        declares(metric_rows(snapshot), "tunnelproxy_edge_https_peak_active_http2_websocket_sessions"@, "gauge"@),
        shows(metric_rows(snapshot), "tunnelproxy_edge_https_peak_active_http2_websocket_sessions"@, snapshot.ingress->Https_status.peak_active_http2_websocket_sessions as int),
        declares(metric_rows(snapshot), "tunnelproxy_edge_https_http2_websocket_idle_timeouts_total"@, "counter"@),
        shows(metric_rows(snapshot), "tunnelproxy_edge_https_http2_websocket_idle_timeouts_total"@, snapshot.ingress->Https_status.http2_websocket_idle_timeouts as int),
        declares(metric_rows(snapshot), "tunnelproxy_edge_https_connect_sessions_total"@, "counter"@),
        shows(metric_rows(snapshot), "tunnelproxy_edge_https_connect_sessions_total"@, snapshot.ingress->Https_status.accepted_connect_sessions as int),
        declares(metric_rows(snapshot), "tunnelproxy_edge_https_connect_rejections_total"@, "counter"@),
        shows(metric_rows(snapshot), "tunnelproxy_edge_https_connect_rejections_total"@, snapshot.ingress->Https_status.rejected_connect_sessions as int),
        declares(metric_rows(snapshot), "tunnelproxy_edge_https_active_connect_sessions"@, "gauge"@),
        shows(metric_rows(snapshot), "tunnelproxy_edge_https_active_connect_sessions"@, snapshot.ingress->Https_status.active_connect_sessions as int),
        declares(metric_rows(snapshot), "tunnelproxy_edge_https_peak_active_connect_sessions"@, "gauge"@),
        shows(metric_rows(snapshot), "tunnelproxy_edge_https_peak_active_connect_sessions"@, snapshot.ingress->Https_status.peak_active_connect_sessions as int),
        declares(metric_rows(snapshot), "tunnelproxy_edge_https_connect_idle_timeouts_total"@, "counter"@),
        shows(metric_rows(snapshot), "tunnelproxy_edge_https_connect_idle_timeouts_total"@, snapshot.ingress->Https_status.connect_idle_timeouts as int),
        declares(metric_rows(snapshot), "tunnelproxy_edge_https_http2_connect_sessions_total"@, "counter"@),
        shows(metric_rows(snapshot), "tunnelproxy_edge_https_http2_connect_sessions_total"@, snapshot.ingress->Https_status.accepted_http2_connect_sessions as int),
        declares(metric_rows(snapshot), "tunnelproxy_edge_https_http2_connect_rejections_total"@, "counter"@),
        shows(metric_rows(snapshot), "tunnelproxy_edge_https_http2_connect_rejections_total"@, snapshot.ingress->Https_status.rejected_http2_connect_sessions as int),
        declares(metric_rows(snapshot), "tunnelproxy_edge_https_active_http2_connect_sessions"@, "gauge"@),
        shows(metric_rows(snapshot), "tunnelproxy_edge_https_active_http2_connect_sessions"@, snapshot.ingress->Https_status.active_http2_connect_sessions as int),
        declares(metric_rows(snapshot), "tunnelproxy_edge_https_peak_active_http2_connect_sessions"@, "gauge"@),
        shows(metric_rows(snapshot), "tunnelproxy_edge_https_peak_active_http2_connect_sessions"@, snapshot.ingress->Https_status.peak_active_http2_connect_sessions as int),
{
    let r1: Seq<MetricRow> = process_rows(Seq::empty(), snapshot.ready, snapshot.tunnel_connected, snapshot.authorization_source, snapshot.authorization_version, snapshot.revoked_sessions, snapshot.operations);
    let r2: Seq<MetricRow> = logging_rows(r1, snapshot.logging);
    let r3: Seq<MetricRow> = transport_rows(r2, snapshot.transport);
    let r4: Seq<MetricRow> = route_and_history_rows(r3, snapshot.ingress->Https_route_health, snapshot.ingress->Https_route_version, snapshot.ingress->Https_route_count, history_counts(snapshot.ingress->Https_request_history));
    let r5: Seq<MetricRow> = session_rows(r4, snapshot.ingress->Https_status);
    lemma_session_rows(r4, snapshot.ingress->Https_status);
    lemma_request_rows_keep(r5, snapshot.ingress->Https_status);
}

/// The page of an edge with HTTPS ingress shows what became of its requests.
pub proof fn pages_show_requests(snapshot: EdgeMetricSnapshot)
    requires
        snapshot.ingress is Https,
    ensures
        declares(metric_rows(snapshot), "tunnelproxy_edge_https_http2_connect_idle_timeouts_total"@, "counter"@),
        shows(metric_rows(snapshot), "tunnelproxy_edge_https_http2_connect_idle_timeouts_total"@, snapshot.ingress->Https_status.http2_connect_idle_timeouts as int),
        declares(metric_rows(snapshot), "tunnelproxy_edge_https_completed_requests_total"@, "counter"@),
        shows(metric_rows(snapshot), "tunnelproxy_edge_https_completed_requests_total"@, snapshot.ingress->Https_status.completed_requests as int),
        declares(metric_rows(snapshot), "tunnelproxy_edge_https_admitted_requests_total"@, "counter"@),
        shows(metric_rows(snapshot), "tunnelproxy_edge_https_admitted_requests_total"@, snapshot.ingress->Https_status.admitted_requests as int),
        declares(metric_rows(snapshot), "tunnelproxy_edge_https_rejected_requests_total"@, "counter"@),
        shows(metric_rows(snapshot), "tunnelproxy_edge_https_rejected_requests_total"@, snapshot.ingress->Https_status.rejected_requests as int),
        declares(metric_rows(snapshot), "tunnelproxy_edge_https_global_capacity_rejections_total"@, "counter"@),
        shows(metric_rows(snapshot), "tunnelproxy_edge_https_global_capacity_rejections_total"@, snapshot.ingress->Https_status.global_capacity_rejections as int),
        declares(metric_rows(snapshot), "tunnelproxy_edge_https_per_ip_capacity_rejections_total"@, "counter"@),
        shows(metric_rows(snapshot), "tunnelproxy_edge_https_per_ip_capacity_rejections_total"@, snapshot.ingress->Https_status.per_ip_capacity_rejections as int),
        declares(metric_rows(snapshot), "tunnelproxy_edge_https_tls_rejections_total"@, "counter"@),
        shows(metric_rows(snapshot), "tunnelproxy_edge_https_tls_rejections_total"@, snapshot.ingress->Https_status.tls_rejections as int),
        declares(metric_rows(snapshot), "tunnelproxy_edge_https_reused_requests_total"@, "counter"@),
        shows(metric_rows(snapshot), "tunnelproxy_edge_https_reused_requests_total"@, snapshot.ingress->Https_status.reused_requests as int),
        declares(metric_rows(snapshot), "tunnelproxy_edge_https_request_timeouts_total"@, "counter"@),
        shows(metric_rows(snapshot), "tunnelproxy_edge_https_request_timeouts_total"@, snapshot.ingress->Https_status.request_timeouts as int),
        declares(metric_rows(snapshot), "tunnelproxy_edge_https_global_rate_limit_rejections_total"@, "counter"@),
        shows(metric_rows(snapshot), "tunnelproxy_edge_https_global_rate_limit_rejections_total"@, snapshot.ingress->Https_status.global_rate_limit_rejections as int),
        declares(metric_rows(snapshot), "tunnelproxy_edge_https_per_ip_rate_limit_rejections_total"@, "counter"@),
        shows(metric_rows(snapshot), "tunnelproxy_edge_https_per_ip_rate_limit_rejections_total"@, snapshot.ingress->Https_status.per_ip_rate_limit_rejections as int),
        declares(metric_rows(snapshot), "tunnelproxy_edge_https_rate_limit_peer_capacity_rejections_total"@, "counter"@),
        shows(metric_rows(snapshot), "tunnelproxy_edge_https_rate_limit_peer_capacity_rejections_total"@, snapshot.ingress->Https_status.rate_limit_peer_capacity_rejections as int),
        declares(metric_rows(snapshot), "tunnelproxy_edge_https_signed_access_requests_total"@, "counter"@),
        shows(metric_rows(snapshot), "tunnelproxy_edge_https_signed_access_requests_total"@, snapshot.ingress->Https_status.accepted_signed_access_requests as int),
        declares(metric_rows(snapshot), "tunnelproxy_edge_https_signed_access_missing_rejections_total"@, "counter"@),
        shows(metric_rows(snapshot), "tunnelproxy_edge_https_signed_access_missing_rejections_total"@, snapshot.ingress->Https_status.missing_signed_access_rejections as int),
        declares(metric_rows(snapshot), "tunnelproxy_edge_https_signed_access_invalid_rejections_total"@, "counter"@),
        shows(metric_rows(snapshot), "tunnelproxy_edge_https_signed_access_invalid_rejections_total"@, snapshot.ingress->Https_status.invalid_signed_access_rejections as int),
        declares(metric_rows(snapshot), "tunnelproxy_edge_https_signed_access_expired_rejections_total"@, "counter"@),
        shows(metric_rows(snapshot), "tunnelproxy_edge_https_signed_access_expired_rejections_total"@, snapshot.ingress->Https_status.expired_signed_access_rejections as int),
        declares(metric_rows(snapshot), "tunnelproxy_edge_https_signed_access_keyring_generation"@, "gauge"@),
        shows(metric_rows(snapshot), "tunnelproxy_edge_https_signed_access_keyring_generation"@, snapshot.ingress->Https_status.signed_access_keyring_generation as int),
        declares(metric_rows(snapshot), "tunnelproxy_edge_https_signed_access_keyring_reload_failed"@, "gauge"@),
        shows(metric_rows(snapshot), "tunnelproxy_edge_https_signed_access_keyring_reload_failed"@, if snapshot.ingress->Https_status.signed_access_keyring_reload_failed { 1int } else { 0int }),
        declares(metric_rows(snapshot), "tunnelproxy_edge_https_signed_access_keyring_reload_successes_total"@, "counter"@),
        shows(metric_rows(snapshot), "tunnelproxy_edge_https_signed_access_keyring_reload_successes_total"@, snapshot.ingress->Https_status.signed_access_keyring_reload_successes as int),
        declares(metric_rows(snapshot), "tunnelproxy_edge_https_signed_access_keyring_reload_failures_total"@, "counter"@),
        shows(metric_rows(snapshot), "tunnelproxy_edge_https_signed_access_keyring_reload_failures_total"@, snapshot.ingress->Https_status.signed_access_keyring_reload_failures as int),
        declares(metric_rows(snapshot), "tunnelproxy_edge_https_reachability_probe_requests_total"@, "counter"@),
        shows(metric_rows(snapshot), "tunnelproxy_edge_https_reachability_probe_requests_total"@, snapshot.ingress->Https_status.reachability_probe_requests as int),
        declares(metric_rows(snapshot), "tunnelproxy_edge_https_reachability_probe_successes_total"@, "counter"@),
        shows(metric_rows(snapshot), "tunnelproxy_edge_https_reachability_probe_successes_total"@, snapshot.ingress->Https_status.successful_reachability_probes as int),
        declares(metric_rows(snapshot), "tunnelproxy_edge_https_reachability_probe_failures_total"@, "counter"@),
        shows(metric_rows(snapshot), "tunnelproxy_edge_https_reachability_probe_failures_total"@, snapshot.ingress->Https_status.failed_reachability_probes as int),
        declares(metric_rows(snapshot), "tunnelproxy_edge_https_tracked_rate_limit_peers"@, "gauge"@),
        shows(metric_rows(snapshot), "tunnelproxy_edge_https_tracked_rate_limit_peers"@, snapshot.ingress->Https_status.tracked_rate_limit_peers as int),
        declares(metric_rows(snapshot), "tunnelproxy_edge_https_peak_tracked_rate_limit_peers"@, "gauge"@),
        shows(metric_rows(snapshot), "tunnelproxy_edge_https_peak_tracked_rate_limit_peers"@, snapshot.ingress->Https_status.peak_tracked_rate_limit_peers as int),
{
    let r1: Seq<MetricRow> = process_rows(Seq::empty(), snapshot.ready, snapshot.tunnel_connected, snapshot.authorization_source, snapshot.authorization_version, snapshot.revoked_sessions, snapshot.operations);
    let r2: Seq<MetricRow> = logging_rows(r1, snapshot.logging);
    let r3: Seq<MetricRow> = transport_rows(r2, snapshot.transport);
    let r4: Seq<MetricRow> = route_and_history_rows(r3, snapshot.ingress->Https_route_health, snapshot.ingress->Https_route_version, snapshot.ingress->Https_route_count, history_counts(snapshot.ingress->Https_request_history));
    let r5: Seq<MetricRow> = session_rows(r4, snapshot.ingress->Https_status);
    lemma_request_rows(r5, snapshot.ingress->Https_status);
}

/// A value stands behind the name of its series in decimal digits, on a line of its own.
pub proof fn lines_are_written_one_by_one(rows: Seq<MetricRow>, series: Seq<char>, value: u64)
    ensures
        page_text(rows.push(MetricRow::Sample { series, value })) == page_text(rows) + (series
            + seq![' '] + decimal(value as nat) + seq!['\n']),
        page_text(Seq::empty()) == Seq::<char>::empty(),
{
    reveal_strlit(" ");
    reveal_strlit("\n");
    assert(" "@ =~= seq![' ']);
    assert("\n"@ =~= seq!['\n']);
    assert(rows.push(MetricRow::Sample { series, value }).drop_last() =~= rows);
}

} // verus!
