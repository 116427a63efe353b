//! Decoding a keyword and its arguments into a typed command.
use vstd::prelude::*;
use vstd::string::*;
use crate::json::{json_valid, parse_json};
use crate::protocol::{lemma_publish_needs_three_tokens, publish_parts, split_publish_args, token_count};

verus! {

/// A value published on a channel, as handed to the host's event bus.
#[derive(Clone, Debug)]
pub struct InputEvent {
    /// The producer that published the value.
    pub agent: String,
    /// The channel it was published on.
    pub channel: String,
    /// The published JSON value; `None` stands for JSON `null` where the
    /// payload text was not well-formed JSON.
    pub value: Option<serde_json::Value>,
    /// Milliseconds since the Unix epoch at decoding.
    pub time: u128,
}

/// One decoded protocol line.
#[derive(Clone, Debug)]
pub enum Command {
    /// `.PUBLISH <agent> <channel> <json>`
    Publish(InputEvent),
    /// `.IN <agent> <channel> <json>`, the later name of `.PUBLISH`
    Input(InputEvent),
    /// `.CONFIG <json-object>`: the raw configuration text
    Config(String),
    /// `.QUIT`
    Quit,
    /// Any other keyword
    Unknown(String),
}

/// `e` is the event that publish arguments `args` give at `time`.
pub open spec fn event_of(args: Seq<char>, time: u128, e: InputEvent) -> bool {
    match publish_parts(args) {
        Some((a, c, v)) => e.agent@ == a && e.channel@ == c && (e.value is Some <==> json_valid(v))
            && e.time == time,
        None => false,
    }
}

/// `r` is what the keyword `k` with arguments `args` decodes to at `time`.
pub open spec fn decoded(k: Seq<char>, args: Seq<char>, time: u128, r: Option<Command>) -> bool {
    if k == ".PUBLISH"@ {
        match r {
            None => publish_parts(args) is None,
            Some(Command::Publish(e)) => event_of(args, time, e),
            _ => false,
        }
    } else if k == ".IN"@ {
        match r {
            None => publish_parts(args) is None,
            Some(Command::Input(e)) => event_of(args, time, e),
            _ => false,
        }
    } else if k == ".CONFIG"@ {
        r matches Some(Command::Config(raw)) && raw@ == args
    } else if k == ".QUIT"@ {
        r matches Some(Command::Quit)
    } else {
        r matches Some(Command::Unknown(w)) && w@ == k
    }
}

/// Whether two strings hold the same characters.
pub fn same_text(a: &str, b: &str) -> (r: bool)
    ensures
        r == (a@ == b@),
{
    let n = a.unicode_len();
    if n != b.unicode_len() {
        return false;
    }
    let mut i: usize = 0;
    while i < n
        invariant
            n == a@.len(),
            n == b@.len(),
            i <= n,
            a@.subrange(0, i as int) =~= b@.subrange(0, i as int),
        decreases n - i,
    {
        if a.get_char(i) != b.get_char(i) {
            return false;
        }
        assert(a@.subrange(0, i + 1) =~= a@.subrange(0, i as int).push(a@[i as int]));
        assert(b@.subrange(0, i + 1) =~= b@.subrange(0, i as int).push(b@[i as int]));
        i = i + 1;
    }
    assert(a@ =~= a@.subrange(0, n as int));
    assert(b@ =~= b@.subrange(0, n as int));
    true
}

/// Decodes the arguments of a publish command into an event stamped with
/// `time`: agent, channel and the payload parsed as JSON (null where it does
/// not parse). Nothing where fewer than three tokens are given.
pub fn parse_input(args: &str, time: u128) -> (r: Option<InputEvent>)
    ensures
        r is None <==> publish_parts(args@) is None,
        r is None <==> token_count(args@) < 3,
        r matches Some(e) ==> event_of(args@, time, e),
{
    proof {
        lemma_publish_needs_three_tokens(args@);
    }
    match split_publish_args(args) {
        None => None,
        Some((agent, channel, payload)) => Some(
            InputEvent {
                agent: agent.to_owned(),
                channel: channel.to_owned(),
                value: parse_json(payload),
                time,
            },
        ),
    }
}

/// Decodes a command keyword and its arguments; publish commands are stamped with `time`.
pub fn decode(keyword: &str, args: &str, time: u128) -> (r: Option<Command>)
    ensures
        decoded(keyword@, args@, time, r),
{
    if same_text(keyword, ".PUBLISH") {
        match parse_input(args, time) {
            Some(e) => Some(Command::Publish(e)),
            None => None,
        }
    } else if same_text(keyword, ".IN") {
        match parse_input(args, time) {
            Some(e) => Some(Command::Input(e)),
            None => None,
        }
    } else if same_text(keyword, ".CONFIG") {
        Some(Command::Config(args.to_owned()))
    } else if same_text(keyword, ".QUIT") {
        Some(Command::Quit)
    } else {
        Some(Command::Unknown(keyword.to_owned()))
    }
}

} // verus!
