//! Chat commands: what a command is, how many arguments it takes, and how
//! an incoming line finds its command.

pub mod average;
pub mod config;
pub mod placeholders;

use vstd::prelude::*;
use crate::text::{
    append_str, decimal, push_decimal, same_text, split_whitespace, str_views, string_of, words,
};

verus! {

/// Why a command did not complete.
#[derive(Debug, Clone, PartialEq, Eq)]
pub enum CommandError {
    /// Something failed on our side. The cause is logged and the command
    /// loop ends.
    Server(String),
    /// The request cannot be served as the user wrote it. The message is
    /// sent to the chat as it is and the loop goes on.
    Client(String),
}

impl CommandError {
    /// The text that the error carries.
    pub open spec fn message_view(&self) -> Seq<char> {
        match self {
            CommandError::Server(cause) => cause@,
            CommandError::Client(message) => message@,
        }
    }

    /// Whether this is the client error with the given message.
    pub open spec fn tells_client(&self, message: Seq<char>) -> bool {
        self is Client && self.message_view() == message
    }

    /// The text that the error carries.
    pub fn message(&self) -> (m: &str)
        ensures
            m@ == self.message_view(),
    {
        match self {
            CommandError::Server(cause) => cause.as_str(),
            CommandError::Client(message) => message.as_str(),
        }
    }
}

/// How many arguments a command takes.
#[derive(Debug, Clone, Copy, PartialEq, Eq, PartialOrd, Ord)]
pub enum ArgumentLength {
    /// Exactly `n` arguments are required.
    Fixed(usize),
    /// At least `n` arguments are required.
    Minimum(usize),
    /// The number of arguments must be within a given range (inclusive).
    Range(usize, usize),
    /// Any number of arguments is acceptable.
    Variadic,
}

impl ArgumentLength {
    /// Whether `count` arguments are acceptable.
    pub open spec fn accepts(self, count: nat) -> bool {
        match self {
            ArgumentLength::Fixed(expected) => count == expected,
            ArgumentLength::Minimum(min) => count >= min,
            ArgumentLength::Range(min, max) => min <= count <= max,
            ArgumentLength::Variadic => true,
        }
    }

    /// What the user is told when `count` arguments are not acceptable.
    pub open spec fn complaint(self, count: nat) -> Seq<char> {
        match self {
            ArgumentLength::Fixed(expected) => "This command needs exactly "@ + decimal(
                expected as nat,
            ) + " arguments, but you gave "@ + decimal(count) + "."@,
            ArgumentLength::Minimum(min) => "This command needs at least "@ + decimal(min as nat)
                + " arguments, but you gave "@ + decimal(count) + "."@,
            ArgumentLength::Range(min, max) => "This command needs between "@ + decimal(min as nat)
                + " and "@ + decimal(max as nat) + " arguments, but you gave "@ + decimal(count)
                + "."@,
            ArgumentLength::Variadic => Seq::empty(),
        }
    }

    /// Checks a number of arguments: `None` where it is acceptable, else
    /// the message for the user.
    pub fn check(self, arg_count: usize) -> (r: Option<String>)
        ensures
            match r {
                None => self.accepts(arg_count as nat),
                Some(message) => !self.accepts(arg_count as nat) && message@ == self.complaint(
                    arg_count as nat,
                ),
            },
    {
        let mut out: Vec<char> = Vec::new();
        match self {
            ArgumentLength::Fixed(expected) => {
                if arg_count == expected {
                    return None;
                }
                append_str(&mut out, "This command needs exactly ");
                push_decimal(&mut out, expected as u128);
            },
            ArgumentLength::Minimum(min) => {
                if arg_count >= min {
                    return None;
                }
                append_str(&mut out, "This command needs at least ");
                push_decimal(&mut out, min as u128);
            },
            ArgumentLength::Range(min, max) => {
                if min <= arg_count && arg_count <= max {
                    return None;
                }
                append_str(&mut out, "This command needs between ");
                push_decimal(&mut out, min as u128);
                append_str(&mut out, " and ");
                push_decimal(&mut out, max as u128);
            },
            ArgumentLength::Variadic => {
                return None;
            },
        }
        append_str(&mut out, " arguments, but you gave ");
        push_decimal(&mut out, arg_count as u128);
        append_str(&mut out, ".");
        assert(out@ =~= self.complaint(arg_count as nat));
        Some(string_of(&out))
    }
}

/// A chat command: the word that calls it and the number of arguments it
/// takes.
pub trait Command {
    /// The word that calls the command, as a sequence of characters.
    spec fn prefix_view(&self) -> Seq<char>;

    /// The number of arguments that the command takes.
    spec fn arity(&self) -> ArgumentLength;

    /// The command's prefix
    fn command_prefix(&self) -> (prefix: &'static str)
        ensures
            prefix@ == self.prefix_view(),
    ;

    /// The number of arguments that the command takes.
    fn length(&self) -> (length: ArgumentLength)
        ensures
            length == self.arity(),
    ;

    /// Checks the number of arguments before the command runs: `None`
    /// where it is acceptable, else the message for the user.
    fn check_length(&self, args: &[&str]) -> (r: Option<String>)
        ensures
            match r {
                None => self.arity().accepts(args@.len()),
                Some(message) => !self.arity().accepts(args@.len()) && message@
                    == self.arity().complaint(args@.len()),
            },
    {
        self.length().check(args.len())
    }
}

/// What the router knows of a command: its prefix and the number of
/// arguments that it takes.
#[derive(Debug, Clone, Copy, PartialEq, Eq)]
pub struct Descriptor {
    pub prefix: &'static str,
    pub length: ArgumentLength,
}

impl Descriptor {
    /// The descriptor of a command.
    pub fn of<C: Command>(command: &C) -> (descriptor: Descriptor)
        ensures
            descriptor.prefix_view() == command.prefix_view(),
            descriptor.arity() == command.arity(),
    {
        Descriptor { prefix: command.command_prefix(), length: command.length() }
    }
}

impl Command for Descriptor {
    open spec fn prefix_view(&self) -> Seq<char> {
        self.prefix@
    }

    open spec fn arity(&self) -> ArgumentLength {
        self.length
    }

    fn command_prefix(&self) -> (prefix: &'static str) {
        self.prefix
    }

    fn length(&self) -> (length: ArgumentLength) {
        self.length
    }
}

/// The command that each prefix calls once the commands have been
/// registered in the order given: of two commands with one prefix the later
/// one stays.
pub open spec fn registered<C: Command>(commands: Seq<C>) -> Map<Seq<char>, C>
    decreases commands.len(),
{
    if commands.len() == 0 {
        Map::empty()
    } else {
        registered(commands.drop_last()).insert(commands.last().prefix_view(), commands.last())
    }
}

/// A prefix calls the last command that was registered under it.
pub proof fn lemma_registered_last<C: Command>(commands: Seq<C>, prefix: Seq<char>, i: int)
    requires
        0 <= i < commands.len(),
        commands[i].prefix_view() == prefix,
        forall|j: int| i < j < commands.len() ==> (#[trigger] commands[j]).prefix_view() != prefix,
    ensures
        registered(commands).contains_key(prefix),
        registered(commands)[prefix] == commands[i],
    decreases commands.len(),
{
    if i < commands.len() - 1 {
        let init = commands.drop_last();
        assert(init[i] == commands[i]);
        assert forall|j: int| i < j < init.len() implies (#[trigger] init[j]).prefix_view()
            != prefix by {
            assert(init[j] == commands[j]);
        }
        lemma_registered_last(init, prefix, i);
        assert(commands[commands.len() - 1].prefix_view() != prefix);
    }
}

/// A prefix that no registered command has calls none.
pub proof fn lemma_registered_none<C: Command>(commands: Seq<C>, prefix: Seq<char>)
    requires
        forall|j: int| 0 <= j < commands.len() ==> (#[trigger] commands[j]).prefix_view() != prefix,
    ensures
        !registered(commands).contains_key(prefix),
    decreases commands.len(),
{
    if commands.len() > 0 {
        let init = commands.drop_last();
        assert forall|j: int| 0 <= j < init.len() implies (#[trigger] init[j]).prefix_view()
            != prefix by {
            assert(init[j] == commands[j]);
        }
        lemma_registered_none(init, prefix);
        assert(commands[commands.len() - 1].prefix_view() != prefix);
    }
}

/// The commands of the running process, found by their prefix.
pub struct CommandMap<C> {
    entries: Vec<C>,
}

impl<C: Command> View for CommandMap<C> {
    type V = Map<Seq<char>, C>;

    closed spec fn view(&self) -> Map<Seq<char>, C> {
        registered(self.entries@)
    }
}

impl<C: Command> CommandMap<C> {
    /// The command that `prefix` calls, if there is one.
    pub fn get(&self, prefix: &str) -> (found: Option<&C>)
        ensures
            match found {
                Some(command) => self@.contains_key(prefix@) && *command == self@[prefix@],
                None => !self@.contains_key(prefix@),
            },
    {
        let mut i: usize = self.entries.len();
        while i > 0
            invariant
                i <= self.entries.len(),
                forall|j: int|
                    i <= j < self.entries.len() ==> (#[trigger] self.entries@[j]).prefix_view()
                        != prefix@,
            decreases i,
        {
            i -= 1;
            if same_text(self.entries[i].command_prefix(), prefix) {
                proof {
                    lemma_registered_last(self.entries@, prefix@, i as int);
                }
                return Some(&self.entries[i]);
            }
        }
        proof {
            lemma_registered_none(self.entries@, prefix@);
        }
        None
    }
}

/// Registers the commands in the order given.
pub fn create_command_map<C: Command>(commands: Vec<C>) -> (map: CommandMap<C>)
    ensures
        map@ == registered(commands@),
{
    CommandMap { entries: commands }
}

/// What is to be done with a line from the chat.
pub enum Dispatch<'a, C> {
    /// The line calls no command: nothing is done.
    Ignore,
    /// The command does not take that many arguments: the message is sent
    /// and the command is not run.
    Reject(String),
    /// The command is run with these arguments.
    Invoke { command: &'a C, args: Vec<&'a str> },
}

/// Finds the command that a chat line calls and checks its arguments.
///
/// The line is split at white space into words. The first word is looked
/// up as a prefix; the other words are the arguments. A line without a
/// word calls no command.
pub fn route<'a, C: Command>(line: &'a str, commands: &'a CommandMap<C>) -> (dispatch: Dispatch<
    'a,
    C,
>)
    ensures
        ({
            let parts = words(line@);
            let count = (parts.len() - 1) as nat;
            match dispatch {
                Dispatch::Ignore => parts.len() == 0 || !commands@.contains_key(parts[0]),
                Dispatch::Reject(message) => {
                    &&& parts.len() > 0
                    &&& commands@.contains_key(parts[0])
                    &&& !commands@[parts[0]].arity().accepts(count)
                    &&& message@ == commands@[parts[0]].arity().complaint(count)
                },
                Dispatch::Invoke { command, args } => {
                    &&& parts.len() > 0
                    &&& commands@.contains_key(parts[0])
                    &&& *command == commands@[parts[0]]
                    &&& command.arity().accepts(count)
                    &&& str_views(args@) == parts.skip(1)
                },
            }
        }),
{
    let mut parts = split_whitespace(line);
    if parts.len() == 0 {
        return Dispatch::Ignore;
    }
    let ghost all = parts@;
    let sent_command = parts.remove(0);
    assert(sent_command@ == str_views(all)[0]);
    assert(str_views(parts@) =~= str_views(all).skip(1));
    let command = match commands.get(sent_command) {
        Some(command) => command,
        None => {
            return Dispatch::Ignore;
        },
    };
    match command.check_length(parts.as_slice()) {
        Some(message) => Dispatch::Reject(message),
        None => Dispatch::Invoke { command, args: parts },
    }
}

/// What the command loop does once a command has run.
#[derive(Debug, Clone, PartialEq, Eq)]
pub enum Followup {
    /// The command has sent its own reply: go on with the next line.
    Continue,
    /// Send this message to the chat, then go on with the next line.
    Say(String),
    /// Log this cause and end the command loop with it.
    Stop(String),
}

/// Decides what follows the run of a command: a client error is told to
/// the user, a server error ends the loop.
pub fn settle(outcome: Result<(), CommandError>) -> (followup: Followup)
    ensures
        match outcome {
            Ok(_) => followup == Followup::Continue,
            Err(CommandError::Client(message)) => followup == Followup::Say(message),
            Err(CommandError::Server(cause)) => followup == Followup::Stop(cause),
        },
{
    match outcome {
        Ok(_) => Followup::Continue,
        Err(CommandError::Client(message)) => Followup::Say(message),
        Err(CommandError::Server(cause)) => Followup::Stop(cause),
    }
}

} // verus!
