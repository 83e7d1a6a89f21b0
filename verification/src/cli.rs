//! What an invocation of the tool asks for.

use vstd::prelude::*;
use vstd::string::*;
use crate::logging::{Level, LogEntry, LogEntryView};
use crate::queue::{Message, MessageView};

verus! {

/// The text that explains how the tool is called.
pub const USAGE: &'static str =
    "ntfy-send v1.0\nUsage:\n  Send message: ntfy-send -s SERVER -t TOPIC -m MESSAGE [-u USERNAME -p PASSWORD]\n  Clear queue: ntfy-send clear-queue\n";

/// A subcommand of the tool.
#[derive(Clone, Copy, PartialEq, Eq, Structural, Debug)]
pub enum Command {
    /// Retry every queued message.
    ClearQueue,
}

/// What the tool does for the arguments it was called with.
#[derive(Debug, PartialEq, Eq)]
pub enum Invocation {
    /// Empty the queue and try to deliver each of its messages.
    ClearQueue,
    /// Show [`USAGE`].
    Help,
    /// Try to deliver this message.
    Send(Message),
    /// Say that a required argument is missing, and show [`USAGE`].
    Incomplete,
}

/// What an [`Invocation`] says, as mathematical values.
pub ghost enum InvocationView {
    ClearQueue,
    Help,
    Send(MessageView),
    Incomplete,
}

impl View for Invocation {
    type V = InvocationView;

    open spec fn view(&self) -> InvocationView {
        match self {
            Invocation::ClearQueue => InvocationView::ClearQueue,
            Invocation::Help => InvocationView::Help,
            Invocation::Send(message) => InvocationView::Send(message@),
            Invocation::Incomplete => InvocationView::Incomplete,
        }
    }
}

/// What the arguments ask for. A subcommand wins over every flag. Without
/// one: help where none of server, topic and message is given, whatever the
/// credentials; a delivery where all three are; else a required one is
/// missing.
pub open spec fn invocation_for(
    command: Option<Command>,
    server: Option<Seq<char>>,
    topic: Option<Seq<char>>,
    message: Option<Seq<char>>,
    username: Option<Seq<char>>,
    password: Option<Seq<char>>,
) -> InvocationView {
    if command is Some {
        InvocationView::ClearQueue
    } else if server is None && topic is None && message is None {
        InvocationView::Help
    } else if server is Some && topic is Some && message is Some {
        InvocationView::Send(
            MessageView {
                server: server->0,
                topic: topic->0,
                message: message->0,
                username,
                password,
            },
        )
    } else {
        InvocationView::Incomplete
    }
}

impl InvocationView {
    /// The record that an invocation writes to the log before anything else,
    /// where it writes one.
    pub open spec fn notice(self) -> Option<LogEntryView> {
        match self {
            InvocationView::ClearQueue => Some(
                LogEntryView { level: Level::Info, message: "Clearing message queue"@ },
            ),
            InvocationView::Incomplete => Some(
                LogEntryView {
                    level: Level::Error,
                    message: "Missing required parameters: server, topic, or message"@,
                },
            ),
            _ => None,
        }
    }

    /// Whether the invocation shows [`USAGE`].
    pub open spec fn shows_help(self) -> bool {
        self is Help || self is Incomplete
    }
}

/// Decides what the tool does for the arguments it was called with.
pub fn plan(
    command: Option<Command>,
    server: Option<String>,
    topic: Option<String>,
    message: Option<String>,
    username: Option<String>,
    password: Option<String>,
) -> (invocation: Invocation)
    ensures
        invocation@ == invocation_for(
            command,
            server.deep_view(),
            topic.deep_view(),
            message.deep_view(),
            username.deep_view(),
            password.deep_view(),
        ),
{
    if command.is_some() {
        return Invocation::ClearQueue;
    }
    match (server, topic, message) {
        (None, None, None) => Invocation::Help,
        (Some(server), Some(topic), Some(message)) => Invocation::Send(
            Message { server, topic, message, username, password },
        ),
        _ => Invocation::Incomplete,
    }
}

impl Invocation {
    /// The record to write to the log before anything else is done.
    pub fn notice(&self) -> (entry: Option<LogEntry>)
        ensures
            entry.deep_view() == self@.notice(),
    {
        match self {
            Invocation::ClearQueue => Some(
                LogEntry { level: Level::Info, message: String::from_str("Clearing message queue") },
            ),
            Invocation::Incomplete => Some(
                LogEntry {
                    level: Level::Error,
                    message: String::from_str(
                        "Missing required parameters: server, topic, or message",
                    ),
                },
            ),
            _ => None,
        }
    }

    /// Whether [`USAGE`] is to be shown.
    pub fn shows_help(&self) -> (shown: bool)
        ensures
            shown == self@.shows_help(),
    {
        match self {
            Invocation::Help => true,
            Invocation::Incomplete => true,
            _ => false,
        }
    }
}

} // verus!
