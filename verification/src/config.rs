//! Startup configuration: the service endpoint and the optional topic-name
//! remapping table. Any topic absent from the table keeps its default name.

use vstd::prelude::*;

verus! {

/// The startup configuration of the relay: where the service bus lives,
/// an optional transport configuration path, and an optional topic-name
/// remapping table. Loading and parsing the file is the shell's job; the
/// parsed values arrive here as plain data.
pub struct ServiceConfig {
    pub zenoh_config_path: Option<String>,
    pub ip: String,
    pub port: u16,
    pub topics: Option<Vec<(String, String)>>,
}

/// The topic-name remapping table: a list of (default name, custom name)
/// entries. The first entry with a matching default name wins; a
/// well-formed configuration names each default at most once.
pub struct TopicConfig {
    pub topics: Vec<(String, String)>,
}

/// The custom name the table assigns to a default name: the value of the
/// first entry whose key matches, if any.
pub open spec fn lookup_topic(entries: Seq<(String, String)>, key: Seq<char>) -> Option<
    Seq<char>,
>
    decreases entries.len(),
{
    if entries.len() == 0 {
        None
    } else if entries[0].0@ == key {
        Some(entries[0].1@)
    } else {
        lookup_topic(entries.drop_first(), key)
    }
}

impl TopicConfig {
    /// The topic name to use for a default name: the remapped name where
    /// the table has one, and the default name itself otherwise.
    pub open spec fn spec_get(self, key: Seq<char>) -> Seq<char> {
        match lookup_topic(self.topics@, key) {
            Some(v) => v,
            None => key,
        }
    }

    /// Resolve a topic name through the table. If no mapping exists this
    /// returns the default topic unchanged.
    pub fn get(&self, default_topic: &str) -> (r: String)
        ensures
            r@ == self.spec_get(default_topic@),
    {
        let key: String = default_topic.to_owned();
        let n: usize = self.topics.len();
        proof {
            assert(self.topics@.skip(0) =~= self.topics@);
        }
        for i in 0..n
            invariant
                n == self.topics@.len(),
                key@ == default_topic@,
                lookup_topic(self.topics@, key@) == lookup_topic(self.topics@.skip(i as int), key@),
        {
            proof {
                assert(self.topics@.skip(i as int).drop_first() =~= self.topics@.skip(i + 1));
                assert(self.topics@.skip(i as int)[0] == self.topics@[i as int]);
            }
            let entry = &self.topics[i];
            if entry.0.eq(&key) {
                return clone_entry_value(entry);
            }
        }
        proof {
            assert(self.topics@.skip(n as int) =~= Seq::<(String, String)>::empty());
        }
        key
    }
}

/// Clones the value of one table entry.
fn clone_entry_value(entry: &(String, String)) -> (r: String)
    ensures
        r@ == entry.1@,
{
    entry.1.clone()
}

impl Default for TopicConfig {
    /// An empty table: every topic keeps its default name.
    fn default() -> (r: TopicConfig)
        ensures
            r.topics@.len() == 0,
    {
        TopicConfig { topics: Vec::new() }
    }
}

impl From<Vec<(String, String)>> for TopicConfig {
    fn from(topics: Vec<(String, String)>) -> (r: TopicConfig) {
        TopicConfig { topics }
    }
}

impl vstd::std_specs::convert::FromSpecImpl<Vec<(String, String)>> for TopicConfig {
    open spec fn obeys_from_spec() -> bool {
        true
    }

    open spec fn from_spec(topics: Vec<(String, String)>) -> TopicConfig {
        TopicConfig { topics }
    }
}

/// The outbound request channels the relay opens at startup, one
/// publisher each.
#[derive(Clone, Copy, Debug, PartialEq, Eq, Structural)]
pub enum RequestChannel {
    App,
    RunDefinition,
    Chart,
    Overall,
    ReadFromDir,
    StrategyFromLog,
    OverallFromLog,
}

/// The default topic name of an outbound request channel.
pub open spec fn spec_default_request_topic(channel: RequestChannel) -> Seq<char> {
    match channel {
        RequestChannel::App => "app_request"@,
        RequestChannel::RunDefinition => "run_yaml"@,
        RequestChannel::Chart => "chart_request"@,
        RequestChannel::Overall => "overall_request"@,
        RequestChannel::ReadFromDir => "read_from_dir_request"@,
        RequestChannel::StrategyFromLog => "strategy_from_log_request"@,
        RequestChannel::OverallFromLog => "overall_from_log_request"@,
    }
}

/// The topic a request channel publishes on: its default name resolved
/// through the remapping table.
pub fn publisher_topic(config: &TopicConfig, channel: RequestChannel) -> (r: String)
    ensures
        r@ == config.spec_get(spec_default_request_topic(channel)),
{
    match channel {
        RequestChannel::App => config.get("app_request"),
        RequestChannel::RunDefinition => config.get("run_yaml"),
        RequestChannel::Chart => config.get("chart_request"),
        RequestChannel::Overall => config.get("overall_request"),
        RequestChannel::ReadFromDir => config.get("read_from_dir_request"),
        RequestChannel::StrategyFromLog => config.get("strategy_from_log_request"),
        RequestChannel::OverallFromLog => config.get("overall_from_log_request"),
    }
}

/// The two well-known control topics the relay subscribes to at startup,
/// against the statically configured endpoint.
#[derive(Clone, Copy, Debug, PartialEq, Eq, Structural)]
pub enum ControlChannel {
    AppResponse,
    ReadFromDirResponse,
}

/// The default topic name of a control channel.
pub open spec fn spec_default_control_topic(channel: ControlChannel) -> Seq<char> {
    match channel {
        ControlChannel::AppResponse => "app_response"@,
        ControlChannel::ReadFromDirResponse => "read_from_dir_response"@,
    }
}

/// The topic a control channel is subscribed on: its default name
/// resolved through the remapping table.
pub fn control_topic(config: &TopicConfig, channel: ControlChannel) -> (r: String)
    ensures
        r@ == config.spec_get(spec_default_control_topic(channel)),
{
    match channel {
        ControlChannel::AppResponse => config.get("app_response"),
        ControlChannel::ReadFromDirResponse => config.get("read_from_dir_response"),
    }
}

} // verus!
