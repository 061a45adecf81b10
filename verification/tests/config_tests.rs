use trade_relay::config::{
    control_topic, publisher_topic, ControlChannel, RequestChannel, ServiceConfig, TopicConfig,
};

#[test]
fn get_returns_mapped_topic_when_present() {
    let config = TopicConfig {
        topics: vec![
            ("app_request".to_string(), "custom/app".to_string()),
            ("chart_request".to_string(), "custom/chart".to_string()),
        ],
    };
    assert_eq!(config.get("app_request"), "custom/app");
    assert_eq!(config.get("chart_request"), "custom/chart");
}

#[test]
fn get_returns_default_topic_when_absent() {
    let config = TopicConfig {
        topics: vec![("app_request".to_string(), "custom/app".to_string())],
    };
    assert_eq!(config.get("overall_request"), "overall_request");
}

#[test]
fn default_table_is_empty_and_keeps_every_default() {
    let config = TopicConfig::default();
    assert_eq!(config.topics.len(), 0);
    assert_eq!(config.get("run_yaml"), "run_yaml");
}

#[test]
fn from_entries_keeps_the_entries() {
    let entries = vec![("a".to_string(), "b".to_string())];
    let config = TopicConfig::from(entries);
    assert_eq!(config.get("a"), "b");
}

#[test]
fn publisher_topics_use_the_documented_defaults() {
    let config = TopicConfig::default();
    assert_eq!(publisher_topic(&config, RequestChannel::App), "app_request");
    assert_eq!(publisher_topic(&config, RequestChannel::RunDefinition), "run_yaml");
    assert_eq!(publisher_topic(&config, RequestChannel::Chart), "chart_request");
    assert_eq!(publisher_topic(&config, RequestChannel::Overall), "overall_request");
    assert_eq!(publisher_topic(&config, RequestChannel::ReadFromDir), "read_from_dir_request");
    assert_eq!(
        publisher_topic(&config, RequestChannel::StrategyFromLog),
        "strategy_from_log_request"
    );
    assert_eq!(
        publisher_topic(&config, RequestChannel::OverallFromLog),
        "overall_from_log_request"
    );
}

#[test]
fn control_topics_use_the_documented_defaults_and_the_table() {
    let config = TopicConfig::default();
    assert_eq!(control_topic(&config, ControlChannel::AppResponse), "app_response");
    assert_eq!(
        control_topic(&config, ControlChannel::ReadFromDirResponse),
        "read_from_dir_response"
    );
    let remapped = TopicConfig {
        topics: vec![("app_response".to_string(), "svc/responses".to_string())],
    };
    assert_eq!(control_topic(&remapped, ControlChannel::AppResponse), "svc/responses");
}

#[test]
fn service_config_holds_plain_startup_values() {
    let config = ServiceConfig {
        zenoh_config_path: None,
        ip: "127.0.0.1".to_string(),
        port: 7550,
        topics: Some(vec![("app_request".to_string(), "custom/app".to_string())]),
    };
    assert_eq!(config.ip, "127.0.0.1");
    assert_eq!(config.port, 7550);
    let table = TopicConfig::from(config.topics.unwrap());
    assert_eq!(table.get("app_request"), "custom/app");
}
