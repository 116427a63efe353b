use mnemnk_monitor::command::{decode, parse_input, Command};
use mnemnk_monitor::config::{init, AgentConfig};
use mnemnk_monitor::dispatch::{process_line, Action, Dispatcher};
use mnemnk_monitor::outbound::{config_to_json, send_message, startup_lines};
use mnemnk_monitor::protocol::{parse_line, split_publish_args};
use mnemnk_monitor::text::trim_text;

fn config_with_channel(ch: &str) -> AgentConfig {
    let mut c = AgentConfig::new();
    c.message_channel = ch.to_string();
    c
}

#[test]
fn blank_lines_yield_nothing() {
    assert_eq!(parse_line(""), None);
    assert_eq!(parse_line("   "), None);
    assert_eq!(parse_line(" \t\r\n"), None);
    assert_eq!(parse_line("\u{3000}\u{a0}"), None);
}

#[test]
fn line_without_space_is_all_keyword() {
    assert_eq!(parse_line(".QUIT"), Some((".QUIT", "")));
    assert_eq!(parse_line("  .QUIT \n"), Some((".QUIT", "")));
}

#[test]
fn line_splits_at_first_space() {
    assert_eq!(parse_line(".CONFIG {\"a\": 1}\n"), Some((".CONFIG", "{\"a\": 1}")));
    assert_eq!(parse_line(".IN  a b c"), Some((".IN", " a b c")));
}

#[test]
fn trim_removes_surrounding_whitespace() {
    assert_eq!(trim_text("\t a b \n"), "a b");
    assert_eq!(trim_text("  "), "");
}

#[test]
fn publish_args_split_into_three_fields() {
    assert_eq!(split_publish_args("a c {\"x\": 1}"), Some(("a", "c", "{\"x\": 1}")));
    assert_eq!(split_publish_args("  a\t c   v w"), Some(("a", "c", "v w")));
}

#[test]
fn fewer_than_three_tokens_are_dropped() {
    assert_eq!(split_publish_args(""), None);
    assert_eq!(split_publish_args("agentA"), None);
    assert_eq!(split_publish_args("agentA chanA"), None);
    assert_eq!(split_publish_args("agentA   chanA  "), None);
    assert!(parse_input("agentA chanA", 5).is_none());
    assert!(decode(".PUBLISH", "agentA chanA", 5).is_none());
    assert!(decode(".IN", "agentA", 5).is_none());
}

#[test]
fn well_formed_publish_gives_event() {
    let e = parse_input("agentA chanA [1, 2]", 1234).unwrap();
    assert_eq!(e.agent, "agentA");
    assert_eq!(e.channel, "chanA");
    assert_eq!(e.value, Some(serde_json::from_str::<serde_json::Value>("[1,2]").unwrap()));
    assert_eq!(e.time, 1234);
}

#[test]
fn malformed_payload_gives_null() {
    let e = parse_input("agentA chanA {oops", 7).unwrap();
    assert_eq!(e.value, None);
    let e = parse_input("agentA chanA null", 7).unwrap();
    assert_eq!(e.value, Some(serde_json::Value::Null));
}

#[test]
fn publish_line_emits_event() {
    let mut d = Dispatcher::new();
    match d.step(Some(".PUBLISH agentA chanA {\"x\":1}"), 99) {
        Action::Emit(e) => {
            assert_eq!(e.agent, "agentA");
            assert_eq!(e.channel, "chanA");
            let mut m = serde_json::Map::new();
            m.insert("x".to_string(), serde_json::Value::from(1));
            assert_eq!(e.value, Some(serde_json::Value::Object(m)));
            assert_eq!(e.time, 99);
        }
        other => panic!("unexpected action {:?}", other),
    }
    assert!(!d.terminated());
}

#[test]
fn publish_line_with_bad_json_emits_null() {
    let mut d = Dispatcher::new();
    match d.step(Some(".PUBLISH agentA chanA not-json"), 1) {
        Action::Emit(e) => {
            assert_eq!(e.agent, "agentA");
            assert_eq!(e.channel, "chanA");
            assert_eq!(e.value, None);
        }
        other => panic!("unexpected action {:?}", other),
    }
}

#[test]
fn input_line_emits_event() {
    match process_line(".IN a b \"s\"", 3) {
        Some(Command::Input(e)) => {
            assert_eq!(e.agent, "a");
            assert_eq!(e.channel, "b");
            assert_eq!(e.value, Some(serde_json::Value::from("s")));
        }
        other => panic!("unexpected command {:?}", other),
    }
}

#[test]
fn quit_line_exits_and_stays_terminated() {
    let mut d = Dispatcher::new();
    assert!(matches!(d.step(Some(".QUIT"), 0), Action::Exit));
    assert!(d.terminated());
    assert!(matches!(d.step(Some(".PUBLISH a b 1"), 0), Action::Skip));
    assert!(matches!(d.step(None, 0), Action::Skip));
}

#[test]
fn end_of_input_stops_without_events() {
    let cfg = init(None);
    let lines = startup_lines(&cfg);
    assert_eq!(lines.len(), 4);
    let mut d = Dispatcher::new();
    assert!(matches!(d.step(None, 0), Action::Stop));
    assert!(!d.terminated());
}

#[test]
fn unknown_keyword_is_ignored() {
    let mut d = Dispatcher::new();
    match d.step(Some("PUBLISH a b 1"), 0) {
        Action::Ignore(k) => assert_eq!(k, "PUBLISH"),
        other => panic!("unexpected action {:?}", other),
    }
    assert!(matches!(d.step(Some("   "), 0), Action::Skip));
    assert!(!d.terminated());
}

#[test]
fn config_line_replaces_config() {
    let mut d = Dispatcher::new();
    match d.step(Some(".CONFIG {\"monitor_channels\":[\"x\"],\"message_channel\":\"out\"}"), 0) {
        Action::ReplaceConfig(c) => {
            assert_eq!(c.monitor_channels, vec!["x".to_string()]);
            assert_eq!(c.message_channel, "out");
        }
        other => panic!("unexpected action {:?}", other),
    }
}

#[test]
fn default_config_values() {
    let c = AgentConfig::new();
    assert_eq!(c.monitor_channels, vec!["application".to_string(), "browser".to_string()]);
    assert_eq!(c.message_channel, "user_message");
    let d = AgentConfig::default();
    assert_eq!(d.monitor_channels, c.monitor_channels);
    assert_eq!(d.message_channel, c.message_channel);
}

#[test]
fn merge_with_empty_or_invalid_text_gives_default() {
    let d = AgentConfig::new();
    for raw in ["", "not json", "{", "   "] {
        let c = AgentConfig::from_raw(raw);
        assert_eq!(c.monitor_channels, d.monitor_channels);
        assert_eq!(c.message_channel, d.message_channel);
    }
    let c = init(Some(String::new()));
    assert_eq!(c.monitor_channels, d.monitor_channels);
}

#[test]
fn merge_overrides_member_by_member() {
    let c = AgentConfig::from_raw("{\"message_channel\":\"m\"}");
    assert_eq!(c.monitor_channels, vec!["application".to_string(), "browser".to_string()]);
    assert_eq!(c.message_channel, "m");
    let c = AgentConfig::from_raw("{\"monitor_channels\":[],\"message_channel\":7}");
    assert!(c.monitor_channels.is_empty());
    assert_eq!(c.message_channel, "user_message");
    let c = AgentConfig::from_raw("{\"monitor_channels\":[1]}");
    assert_eq!(c.monitor_channels.len(), 2);
    let c = init(Some("{\"monitor_channels\":[\"a\",\"b\",\"c\"]}".to_string()));
    assert_eq!(c.monitor_channels.len(), 3);
}

#[test]
fn send_message_on_user_message_channel() {
    let cfg = config_with_channel("user_message");
    let line = send_message(&cfg, "hi".to_string()).unwrap();
    assert_eq!(line, ".WRITE user_message {\"message\":\"hi\"}");
}

#[test]
fn send_message_without_channel_fails() {
    let cfg = config_with_channel("");
    let r = send_message(&cfg, "hi".to_string());
    assert_eq!(r, Err("message channel is not configured".to_string()));
}

#[test]
fn send_message_escapes_text() {
    let cfg = config_with_channel("c");
    let line = send_message(&cfg, "a\"b\n".to_string()).unwrap();
    assert_eq!(line, ".WRITE c {\"message\":\"a\\\"b\\n\"}");
}

#[test]
fn startup_announcements_in_order() {
    let cfg = AgentConfig::new();
    let lines = startup_lines(&cfg);
    assert!(lines[0].starts_with(".CONFIG_SCHEMA {"));
    let schema: serde_json::Value = serde_json::from_str(&lines[0][".CONFIG_SCHEMA ".len()..]).unwrap();
    assert!(schema.get("properties").unwrap().get("monitor_channels").is_some());
    assert_eq!(
        lines[1],
        ".CONFIG {\"monitor_channels\":[\"application\",\"browser\"],\"message_channel\":\"user_message\"}"
    );
    assert_eq!(lines[2], ".SUBSCRIBE application");
    assert_eq!(lines[3], ".SUBSCRIBE browser");
}

#[test]
fn config_json_of_empty_channel_list() {
    let mut cfg = AgentConfig::new();
    cfg.monitor_channels = Vec::new();
    cfg.message_channel = "q\"".to_string();
    assert_eq!(config_to_json(&cfg), "{\"monitor_channels\":[],\"message_channel\":\"q\\\"\"}");
}
