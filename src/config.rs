//! The agent configuration: its defaults and the lenient merge from raw JSON text.
use vstd::prelude::*;
use crate::json::{
    json_member_string, json_member_string_list, json_string_list_member, json_string_member,
    json_valid, parse_json, strings_view,
};

verus! {

/// The configuration of the agent.
#[derive(Clone, Debug)]
pub struct AgentConfig {
    /// The channels the agent subscribes to, in order.
    pub monitor_channels: Vec<String>,
    /// The channel that outbound user messages are published on.
    pub message_channel: String,
}

/// What a configuration holds, as plain sequences.
pub struct ConfigView {
    pub monitor_channels: Seq<Seq<char>>,
    pub message_channel: Seq<char>,
}

impl View for AgentConfig {
    type V = ConfigView;

    open spec fn view(&self) -> ConfigView {
        ConfigView {
            monitor_channels: strings_view(self.monitor_channels@),
            message_channel: self.message_channel@,
        }
    }
}

/// The default configuration.
pub open spec fn default_config() -> ConfigView {
    ConfigView {
        monitor_channels: seq!["application"@, "browser"@],
        message_channel: "user_message"@,
    }
}

/// The configuration read from raw JSON text: each recognised member that is
/// present, with the right shape, replaces its default; text that is empty or
/// not well-formed JSON gives the defaults.
pub open spec fn config_from_raw(raw: Seq<char>) -> ConfigView {
    let d = default_config();
    if raw.len() == 0 || !json_valid(raw) {
        d
    } else {
        ConfigView {
            monitor_channels: match json_string_list_member(raw, "monitor_channels"@) {
                Some(l) => l,
                None => d.monitor_channels,
            },
            message_channel: match json_string_member(raw, "message_channel"@) {
                Some(m) => m,
                None => d.message_channel,
            },
        }
    }
}

impl AgentConfig {
    /// The default configuration: subscribed to `application` and `browser`,
    /// sending user messages on `user_message`.
    pub fn new() -> (r: AgentConfig)
        ensures
            r@ == default_config(),
    {
        let r = AgentConfig {
            monitor_channels: vec!["application".to_owned(), "browser".to_owned()],
            message_channel: "user_message".to_owned(),
        };
        assert(r@.monitor_channels =~= default_config().monitor_channels);
        r
    }

    /// Reads a configuration from raw JSON text, falling back member by member
    /// to the defaults; never fails.
    pub fn from_raw(raw: &str) -> (r: AgentConfig)
        ensures
            r@ == config_from_raw(raw@),
    {
        let mut cfg = AgentConfig::new();
        if raw.is_empty() {
            return cfg;
        }
        if parse_json(raw).is_none() {
            return cfg;
        }
        match json_member_string_list(raw, "monitor_channels") {
            Some(v) => {
                cfg.monitor_channels = v;
            },
            None => {},
        }
        match json_member_string(raw, "message_channel") {
            Some(m) => {
                cfg.message_channel = m;
            },
            None => {},
        }
        cfg
    }
}

impl Default for AgentConfig {
    fn default() -> (r: AgentConfig)
        ensures
            r@ == default_config(),
    {
        AgentConfig::new()
    }
}

/// The configuration at startup: the defaults without raw text, else the
/// lenient merge of the raw text over them.
pub fn init(config: Option<String>) -> (r: AgentConfig)
    ensures
        r@ == match config {
            None => default_config(),
            Some(s) => config_from_raw(s@),
        },
{
    match config {
        None => AgentConfig::new(),
        Some(s) => AgentConfig::from_raw(s.as_str()),
    }
}

/// Merging the defaults with raw text that is empty or not well-formed JSON
/// reproduces the defaults.
pub proof fn lemma_merge_invalid_is_default(raw: Seq<char>)
    requires
        raw.len() == 0 || !json_valid(raw),
    ensures
        config_from_raw(raw) == default_config(),
{
}

} // verus!
