use trade_relay::catalog::SinkEvent;
use trade_relay::outbound::{
    app_request, chart_request, overall_from_log_request, overall_request, read_from_dir,
    run_yaml, strategy_from_log_request,
};

#[test]
fn app_request_is_anonymous_with_unset_timestamp() {
    let r = app_request();
    assert_eq!(r.timestamp_ns, 0);
    assert_eq!(r.user_id, "");
}

#[test]
fn chart_request_carries_its_fields() {
    let r = chart_request("b1".to_string(), "s1".to_string(), "ES".to_string(), 60);
    assert_eq!(r.timestamp_ns, 0);
    assert_eq!(r.batch_id, "b1");
    assert_eq!(r.strategy_id, "s1");
    assert_eq!(r.symbol, "ES");
    assert_eq!(r.period_s, 60);
}

#[test]
fn overall_request_carries_the_batch() {
    let r = overall_request("batch-7".to_string());
    assert_eq!(r.timestamp_ns, 0);
    assert_eq!(r.batch_id, "batch-7");
}

#[test]
fn read_from_dir_builds_request_and_loading_notice() {
    let (r, notice) = read_from_dir("/logs/run1".to_string());
    assert_eq!(r.timestamp_ns, 0);
    assert_eq!(r.log_dir, "/logs/run1");
    assert_eq!(notice, SinkEvent::Loading);
}

#[test]
fn strategy_replay_is_built_only_with_complete_identifiers() {
    let ok = strategy_from_log_request("b".to_string(), "s".to_string(), "ES".to_string(), 60);
    let q = ok.unwrap();
    assert_eq!(q.timestamp_ns, 0);
    assert_eq!(q.batch_id, "b");
    assert_eq!(q.strategy_id, "s");
    assert_eq!(q.symbol, "ES");
    assert_eq!(q.period_s, 60);

    assert!(strategy_from_log_request("b".to_string(), "".to_string(), "ES".to_string(), 60)
        .is_none());
    assert!(strategy_from_log_request("b".to_string(), "s".to_string(), "".to_string(), 60)
        .is_none());
    assert!(strategy_from_log_request("b".to_string(), "s".to_string(), "ES".to_string(), 0)
        .is_none());
}

#[test]
fn overall_replay_with_empty_batch_is_never_published() {
    // An empty batch identifier builds no request at all, so the shell has
    // nothing to hand to its publisher: zero publish calls.
    let mut publish_calls: u32 = 0;
    if let Some(_req) = overall_from_log_request("".to_string()) {
        publish_calls += 1;
    }
    assert_eq!(publish_calls, 0);

    let ok = overall_from_log_request("batch-1".to_string()).unwrap();
    assert_eq!(ok.timestamp_ns, 0);
    assert_eq!(ok.batch_id, "batch-1");
}

#[test]
fn run_yaml_builds_request_and_loading_notice() {
    let (r, notice) = run_yaml("/tmp/run.yml".to_string());
    assert_eq!(r.timestamp_ns, 0);
    assert_eq!(r.yaml_path, "/tmp/run.yml");
    assert_eq!(notice, SinkEvent::Loading);
}
