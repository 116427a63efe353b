//! The outbound protocol lines: startup announcements and user messages.
use vstd::prelude::*;
use vstd::string::*;
use crate::config::AgentConfig;
use crate::json::{encode_json_string, json_string_of, strings_view};

verus! {

/// The JSON object `{"message": m}`.
pub open spec fn user_message_json(m: Seq<char>) -> Seq<char> {
    "{\"message\":"@ + json_string_of(m) + "}"@
}

/// The line that publishes user message `m` on channel `ch`.
pub open spec fn write_line(ch: Seq<char>, m: Seq<char>) -> Seq<char> {
    ".WRITE "@ + ch + " "@ + user_message_json(m)
}

/// The error text of a send without a message channel.
pub open spec fn no_channel_error() -> Seq<char> {
    "message channel is not configured"@
}

/// The JSON strings for `s`, separated by commas.
pub open spec fn json_string_list(s: Seq<Seq<char>>) -> Seq<char>
    decreases s.len(),
{
    if s.len() == 0 {
        Seq::<char>::empty()
    } else if s.len() == 1 {
        json_string_of(s[0])
    } else {
        json_string_list(s.drop_last()) + ","@ + json_string_of(s.last())
    }
}

/// The JSON text of a configuration.
pub open spec fn config_json(chs: Seq<Seq<char>>, msg: Seq<char>) -> Seq<char> {
    "{\"monitor_channels\":["@ + json_string_list(chs) + "],\"message_channel\":"@
        + json_string_of(msg) + "}"@
}

/// The JSON schema that describes the configuration.
pub open spec fn config_schema() -> Seq<char> {
    "{\"type\":\"object\",\"properties\":{\"monitor_channels\":{\"type\":\"array\",\"items\":{\"type\":\"string\"},\"description\":\"Channels to subscribe to, in order\"},\"message_channel\":{\"type\":\"string\",\"description\":\"Channel that user messages are published on\"}}}"@
}

/// Builds the line that sends `message` on the configured message channel.
///
/// Fails, with nothing to write, where no message channel is configured.
pub fn send_message(config: &AgentConfig, message: String) -> (r: Result<String, String>)
    ensures
        config@.message_channel.len() == 0 <==> r is Err,
        r matches Err(e) ==> e@ == no_channel_error(),
        r matches Ok(line) ==> line@ == write_line(config@.message_channel, message@),
{
    if config.message_channel.as_str().is_empty() {
        return Err("message channel is not configured".to_owned());
    }
    let mut line = ".WRITE ".to_owned();
    line.append(config.message_channel.as_str());
    line.append(" ");
    line.append("{\"message\":");
    let enc = encode_json_string(message.as_str());
    line.append(enc.as_str());
    line.append("}");
    assert(line@ =~= write_line(config@.message_channel, message@));
    Ok(line)
}

/// The JSON text of `config`.
pub fn config_to_json(config: &AgentConfig) -> (r: String)
    ensures
        r@ == config_json(config@.monitor_channels, config@.message_channel),
{
    let chs = &config.monitor_channels;
    let mut list = String::new();
    let mut i: usize = 0;
    while i < chs.len()
        invariant
            i <= chs@.len(),
            list@ == json_string_list(strings_view(chs@).subrange(0, i as int)),
        decreases chs@.len() - i,
    {
        let ghost done = strings_view(chs@).subrange(0, i as int);
        let ghost next = strings_view(chs@).subrange(0, i + 1);
        assert(next.drop_last() =~= done);
        if i > 0 {
            list.append(",");
        }
        let enc = encode_json_string(chs[i].as_str());
        list.append(enc.as_str());
        assert(list@ =~= json_string_list(next));
        i = i + 1;
    }
    assert(strings_view(chs@).subrange(0, chs@.len() as int) =~= strings_view(chs@));
    let mut r = "{\"monitor_channels\":[".to_owned();
    r.append(list.as_str());
    r.append("],\"message_channel\":");
    let enc = encode_json_string(config.message_channel.as_str());
    r.append(enc.as_str());
    r.append("}");
    assert(r@ =~= config_json(config@.monitor_channels, config@.message_channel));
    r
}

/// The lines the agent writes at startup, in order: the configuration's
/// schema, the configuration itself, then one subscription per monitored channel.
pub fn startup_lines(config: &AgentConfig) -> (r: Vec<String>)
    ensures
        r@.len() == 2 + config@.monitor_channels.len(),
        r@[0]@ == ".CONFIG_SCHEMA "@ + config_schema(),
        r@[1]@ == ".CONFIG "@ + config_json(config@.monitor_channels, config@.message_channel),
        forall|i: int|
            0 <= i < config@.monitor_channels.len() ==> #[trigger] r@[i + 2]@ == ".SUBSCRIBE "@
                + config@.monitor_channels[i],
{
    let mut lines: Vec<String> = Vec::new();
    let mut schema = ".CONFIG_SCHEMA ".to_owned();
    schema.append("{\"type\":\"object\",\"properties\":{\"monitor_channels\":{\"type\":\"array\",\"items\":{\"type\":\"string\"},\"description\":\"Channels to subscribe to, in order\"},\"message_channel\":{\"type\":\"string\",\"description\":\"Channel that user messages are published on\"}}}");
    lines.push(schema);
    let mut current = ".CONFIG ".to_owned();
    let json = config_to_json(config);
    current.append(json.as_str());
    lines.push(current);
    let chs = &config.monitor_channels;
    let mut i: usize = 0;
    while i < chs.len()
        invariant
            i <= chs@.len(),
            chs == &config.monitor_channels,
            lines@.len() == 2 + i,
            lines@[0]@ == ".CONFIG_SCHEMA "@ + config_schema(),
            lines@[1]@ == ".CONFIG "@ + config_json(config@.monitor_channels, config@.message_channel),
            forall|k: int| 0 <= k < i ==> #[trigger] lines@[k + 2]@ == ".SUBSCRIBE "@ + config@.monitor_channels[k],
        decreases chs@.len() - i,
    {
        let mut sub = ".SUBSCRIBE ".to_owned();
        sub.append(chs[i].as_str());
        lines.push(sub);
        i = i + 1;
    }
    lines
}

} // verus!
