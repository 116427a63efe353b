//! The read loop's decisions: from the current state and the next input line
//! to the next state and the effect to carry out.
use vstd::prelude::*;
use crate::command::{decode, decoded, event_of, Command, InputEvent};
use crate::config::{config_from_raw, AgentConfig};
use crate::protocol::{parse_line, parse_line_spec};

verus! {

/// `r` is what the raw input line `line` decodes to at `time`: nothing for a
/// blank line, else the decoding of its keyword and arguments.
pub open spec fn line_decoded(line: Seq<char>, time: u128, r: Option<Command>) -> bool {
    match parse_line_spec(line) {
        None => r is None,
        Some((k, a)) => decoded(k, a, time, r),
    }
}

/// Parses and decodes one raw input line; publish commands are stamped with `time`.
pub fn process_line(line: &str, time: u128) -> (r: Option<Command>)
    ensures
        line_decoded(line@, time, r),
{
    match parse_line(line) {
        None => None,
        Some((cmd, args)) => decode(cmd, args, time),
    }
}

/// The effect the read loop carries out for one step.
#[derive(Clone, Debug)]
pub enum Action {
    /// Nothing to do; read the next line.
    Skip,
    /// Deliver this event to the host's event bus.
    Emit(InputEvent),
    /// Replace the stored configuration with this one.
    ReplaceConfig(AgentConfig),
    /// Log this unknown keyword and read on.
    Ignore(String),
    /// Exit the process with success status, writing nothing more.
    Exit,
    /// The input has ended: leave the loop quietly.
    Stop,
}

/// The state of the read loop: running, or terminated for good.
pub struct Dispatcher {
    terminated: bool,
}

/// `act` is the effect of the command `c`.
pub open spec fn action_for(c: Option<Command>, act: Action) -> bool {
    match c {
        None => act is Skip,
        Some(Command::Publish(e)) => act == Action::Emit(e),
        Some(Command::Input(e)) => act == Action::Emit(e),
        Some(Command::Config(raw)) => (act matches Action::ReplaceConfig(cfg) && cfg@
            == config_from_raw(raw@)),
        Some(Command::Quit) => act is Exit,
        Some(Command::Unknown(k)) => act == Action::Ignore(k),
    }
}

impl Dispatcher {
    /// Whether a quit command has ended the loop.
    pub closed spec fn is_terminated(&self) -> bool {
        self.terminated
    }

    /// A running read loop.
    pub fn new() -> (r: Dispatcher)
        ensures
            !r.is_terminated(),
    {
        Dispatcher { terminated: false }
    }

    /// Whether a quit command has ended the loop.
    pub fn terminated(&self) -> (r: bool)
        ensures
            r == self.is_terminated(),
    {
        self.terminated
    }

    /// Decides the effect of the next input: `Some(line)` for a line read,
    /// `None` for the end of the input; `time` stamps publish events.
    ///
    /// Once terminated the loop does nothing more. The end of input stops the
    /// loop quietly. A line takes its decoded command's effect; a quit command
    /// terminates the loop and asks for the process to exit.
    pub fn step(&mut self, line: Option<&str>, time: u128) -> (act: Action)
        ensures
            old(self).is_terminated() ==> (act is Skip) && final(self).is_terminated(),
            !old(self).is_terminated() ==> match line {
                None => (act is Stop) && !final(self).is_terminated(),
                Some(l) => exists|c: Option<Command>|
                    line_decoded(l@, time, c) && #[trigger] action_for(c, act) && (final(self).is_terminated()
                        <==> (c matches Some(Command::Quit))),
            },
            final(self).is_terminated() <==> (old(self).is_terminated() || (act is Exit)),
    {
        if self.terminated {
            return Action::Skip;
        }
        match line {
            None => Action::Stop,
            Some(l) => {
                let c = process_line(l, time);
                let act = match c {
                    None => Action::Skip,
                    Some(Command::Publish(e)) => Action::Emit(e),
                    Some(Command::Input(e)) => Action::Emit(e),
                    Some(Command::Config(raw)) => Action::ReplaceConfig(
                        AgentConfig::from_raw(raw.as_str()),
                    ),
                    Some(Command::Quit) => {
                        self.terminated = true;
                        Action::Exit
                    },
                    Some(Command::Unknown(k)) => Action::Ignore(k),
                };
                assert(action_for(c, act));
                act
            },
        }
    }
}

} // verus!
