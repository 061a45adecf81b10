//! Outbound command requests: one fixed record per command, published
//! verbatim on its dedicated channel by the shell. Every builder here
//! fills the caller-supplied timestamp slot with the accepted sentinel 0
//! — callers needing ordering set the field themselves — and the two
//! log-replay commands validate their identifying fields before a request
//! is produced at all: with an empty identifier nothing is built, so
//! nothing is published.

use vstd::prelude::*;
use crate::catalog::SinkEvent;

verus! {

/// Announce the application to the backend and ask for the strategy list.
pub struct AppRequest {
    pub timestamp_ns: u64,
    pub user_id: String,
}

/// Ask for the chart of one strategy and symbol at one period.
pub struct ChartRequest {
    pub timestamp_ns: u64,
    pub batch_id: String,
    pub strategy_id: String,
    pub symbol: String,
    pub period_s: u32,
}

/// Ask for the overall statistics of a batch.
pub struct OverallRequest {
    pub timestamp_ns: u64,
    pub batch_id: String,
}

/// Ask the backend to read strategy logs from a directory.
pub struct ReadFromDirRequest {
    pub timestamp_ns: u64,
    pub log_dir: String,
}

/// Replay one strategy from its logs.
pub struct StrategyFromLogRequest {
    pub timestamp_ns: u64,
    pub batch_id: String,
    pub strategy_id: String,
    pub symbol: String,
    pub period_s: u32,
}

/// Replay the overall statistics of a batch from its logs.
pub struct OverallFromLogRequest {
    pub timestamp_ns: u64,
    pub batch_id: String,
}

/// Load and run a run definition from a file.
pub struct RunYaml {
    pub timestamp_ns: u64,
    pub yaml_path: String,
}

/// The startup announcement: an anonymous application request with the
/// unset-timestamp sentinel.
pub fn app_request() -> (r: AppRequest)
    ensures
        r.timestamp_ns == 0,
        r.user_id@ == Seq::<char>::empty(),
{
    AppRequest { timestamp_ns: 0, user_id: String::new() }
}

/// Build the chart request for a strategy, symbol and period.
pub fn chart_request(
    batch_id: String,
    strategy_id: String,
    symbol: String,
    period_s: u32,
) -> (r: ChartRequest)
    ensures
        r.timestamp_ns == 0,
        r.batch_id == batch_id,
        r.strategy_id == strategy_id,
        r.symbol == symbol,
        r.period_s == period_s,
{
    ChartRequest { timestamp_ns: 0, batch_id, strategy_id, symbol, period_s }
}

/// Build the overall-statistics request for a batch.
pub fn overall_request(batch_id: String) -> (r: OverallRequest)
    ensures
        r.timestamp_ns == 0,
        r.batch_id == batch_id,
{
    OverallRequest { timestamp_ns: 0, batch_id }
}

/// Build the directory-read request for a directory the user picked, and
/// the progress notification shown while the backend scans it.
pub fn read_from_dir(log_dir: String) -> (r: (ReadFromDirRequest, SinkEvent))
    ensures
        r.0.timestamp_ns == 0,
        r.0.log_dir == log_dir,
        r.1 == SinkEvent::Loading,
{
    (ReadFromDirRequest { timestamp_ns: 0, log_dir }, SinkEvent::Loading)
}

/// Build a strategy log-replay request, validating its identifying fields
/// first: with an empty strategy, an empty symbol or a zero period no
/// request is produced — the command is dropped silently, not an error —
/// so nothing reaches the publisher.
pub fn strategy_from_log_request(
    batch_id: String,
    strategy_id: String,
    symbol: String,
    period_s: u32,
) -> (r: Option<StrategyFromLogRequest>)
    ensures
        r is Some <==> (strategy_id@.len() > 0 && symbol@.len() > 0 && period_s > 0),
        r matches Some(q) ==> q.timestamp_ns == 0 && q.batch_id == batch_id && q.strategy_id
            == strategy_id && q.symbol == symbol && q.period_s == period_s,
{
    if !strategy_id.as_str().is_empty() && !symbol.as_str().is_empty() && period_s > 0 {
        Some(StrategyFromLogRequest { timestamp_ns: 0, batch_id, strategy_id, symbol, period_s })
    } else {
        None
    }
}

/// Build an overall log-replay request, validating its identifying field
/// first: with an empty batch identifier no request is produced — the
/// command is dropped silently, not an error — so nothing reaches the
/// publisher.
pub fn overall_from_log_request(batch_id: String) -> (r: Option<OverallFromLogRequest>)
    ensures
        r is Some <==> batch_id@.len() > 0,
        r matches Some(q) ==> q.timestamp_ns == 0 && q.batch_id == batch_id,
{
    if !batch_id.as_str().is_empty() {
        Some(OverallFromLogRequest { timestamp_ns: 0, batch_id })
    } else {
        None
    }
}

/// Build the run-definition request for a file the user picked, and the
/// progress notification shown while the backend loads it. Before the
/// shell publishes this request it must suspend the router's active feed
/// — `Router::suspend` — since the run that produced it is being replaced.
pub fn run_yaml(yaml_path: String) -> (r: (RunYaml, SinkEvent))
    ensures
        r.0.timestamp_ns == 0,
        r.0.yaml_path == yaml_path,
        r.1 == SinkEvent::Loading,
{
    (RunYaml { timestamp_ns: 0, yaml_path }, SinkEvent::Loading)
}

} // verus!
