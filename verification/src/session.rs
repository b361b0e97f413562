//! The interactive session: the command-line gateway and what a typed line asks for.
use vstd::prelude::*;
use crate::json::str_eq;
use crate::text::{has_prefix, strip_prefix, trim, trim_spec};

verus! {

/// The greeting shown when an interactive session starts.
pub const BANNER: &'static str =
    "Anima Flow — Your second cortex, always on.\nType /help for commands, or just talk.\n";

/// The prompt shown before each line of input.
pub const PROMPT: &'static str = "> ";

/// The answer to `/help`.
pub const HELP: &'static str =
    "Commands:\n  /morning    Morning briefing\n  /inbox      Process inbox\n  /breakdown  Break down a task\n  /review     Daily review\n  /quit       Exit";

/// The gateway that talks to the user on standard input and output.
#[derive(Clone, Debug)]
pub struct CliGateway;

impl CliGateway {
    /// A command-line gateway.
    pub fn new() -> (r: Self)
        ensures
            r == CliGateway,
    {
        CliGateway
    }

    /// What a line read from standard input says: the line without leading and
    /// trailing white space (and so without its line break).
    pub fn input_text(&self, line: &str) -> (r: String)
        ensures
            r@ == trim_spec(line@),
    {
        trim(line)
    }
}

impl Default for CliGateway {
    fn default() -> (r: Self)
        ensures
            r == CliGateway,
    {
        CliGateway::new()
    }
}

/// What a line typed in an interactive session asks for.
#[derive(Clone, Debug)]
pub enum Command {
    /// An empty line: nothing, prompt again.
    Empty,
    /// `/quit` or `/exit`: end the session.
    Quit,
    /// `/help`: list the commands.
    Help,
    /// `/morning`: the morning briefing.
    Morning,
    /// `/inbox`: process the inbox.
    Inbox,
    /// `/review`: the daily review.
    Review,
    /// `/breakdown <task>`: break the task down.
    Breakdown(String),
    /// Anything else: talk, with recalled context.
    Chat(String),
}

/// The meaning of a command, over the views of its strings.
pub enum CommandSpec {
    Empty,
    Quit,
    Help,
    Morning,
    Inbox,
    Review,
    Breakdown(Seq<char>),
    Chat(Seq<char>),
}

/// The view of a command.
pub open spec fn command_view(c: Command) -> CommandSpec {
    match c {
        Command::Empty => CommandSpec::Empty,
        Command::Quit => CommandSpec::Quit,
        Command::Help => CommandSpec::Help,
        Command::Morning => CommandSpec::Morning,
        Command::Inbox => CommandSpec::Inbox,
        Command::Review => CommandSpec::Review,
        Command::Breakdown(t) => CommandSpec::Breakdown(t@),
        Command::Chat(t) => CommandSpec::Chat(t@),
    }
}

/// What the line `input` asks for: the exact words first, then `/breakdown `
/// followed by the task, and anything else is talk.
pub open spec fn command_of(input: Seq<char>) -> CommandSpec {
    if input.len() == 0 {
        CommandSpec::Empty
    } else if input == "/quit"@ || input == "/exit"@ {
        CommandSpec::Quit
    } else if input == "/help"@ {
        CommandSpec::Help
    } else if input == "/morning"@ {
        CommandSpec::Morning
    } else if input == "/inbox"@ {
        CommandSpec::Inbox
    } else if input == "/review"@ {
        CommandSpec::Review
    } else if has_prefix(input, "/breakdown "@) {
        CommandSpec::Breakdown(input.skip("/breakdown "@.len() as int))
    } else {
        CommandSpec::Chat(input)
    }
}

/// Reads a typed line as a command.
pub fn parse_command(input: &str) -> (c: Command)
    ensures
        command_view(c) == command_of(input@),
{
    if input.unicode_len() == 0 {
        return Command::Empty;
    }
    if str_eq(input, "/quit") || str_eq(input, "/exit") {
        Command::Quit
    } else if str_eq(input, "/help") {
        Command::Help
    } else if str_eq(input, "/morning") {
        Command::Morning
    } else if str_eq(input, "/inbox") {
        Command::Inbox
    } else if str_eq(input, "/review") {
        Command::Review
    } else {
        match strip_prefix(input, "/breakdown ") {
            Some(task) => Command::Breakdown(task),
            None => Command::Chat(input.to_owned()),
        }
    }
}

} // verus!
