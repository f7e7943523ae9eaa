//! Inbound server events and their classification: every variant but a
//! chat message is tagged for the diagnostics sink and discarded; a chat
//! message runs through the command pipeline.

use vstd::prelude::*;

use crate::commands::BotCommand;
use crate::dispatch::{spec_reply, CommandInvocation, DispatchError};
use crate::extract::extract_candidate;
use crate::pipeline::spec_pipeline;
use crate::resolve::resolve;

verus! {

/// One chat message: the payload of the chat-message event variant.
pub struct ChatMessage {
    /// The text the sender typed.
    pub message_text: String,
    /// Who sent it.
    pub sender: String,
    /// The channel it was sent to.
    pub channel: String,
}

/// One inbound protocol event, immutable once received. Every variant the
/// protocol distinguishes is listed; anything else lands in the catch-all.
pub enum ServerEvent {
    ClearChat,
    ClearMsg,
    GlobalUserState,
    Join,
    Notice,
    Part,
    Ping,
    Pong,
    Privmsg(ChatMessage),
    Reconnect,
    RoomState,
    UserNotice,
    UserState,
    Whisper,
    Other,
}

/// The tag under which a classified event appears in the diagnostics.
pub open spec fn variant_label(e: ServerEvent) -> Seq<char> {
    match e {
        ServerEvent::ClearChat => "ClearChat"@,
        ServerEvent::ClearMsg => "ClearMsg"@,
        ServerEvent::GlobalUserState => "GlobalUserState"@,
        ServerEvent::Join => "Join"@,
        ServerEvent::Notice => "Notice"@,
        ServerEvent::Part => "Part"@,
        ServerEvent::Ping => "Ping"@,
        ServerEvent::Pong => "Pong"@,
        ServerEvent::Privmsg(_) => "Privmsg"@,
        ServerEvent::Reconnect => "Reconnect"@,
        ServerEvent::RoomState => "RoomState"@,
        ServerEvent::UserNotice => "UserNotice"@,
        ServerEvent::UserState => "UserState"@,
        ServerEvent::Whisper => "Whisper"@,
        ServerEvent::Other => "Other"@,
    }
}

impl ServerEvent {
    /// The tag of this event for the diagnostics sink.
    pub fn label(&self) -> (r: &'static str)
        ensures
            r@ == variant_label(*self),
    {
        match self {
            ServerEvent::ClearChat => "ClearChat",
            ServerEvent::ClearMsg => "ClearMsg",
            ServerEvent::GlobalUserState => "GlobalUserState",
            ServerEvent::Join => "Join",
            ServerEvent::Notice => "Notice",
            ServerEvent::Part => "Part",
            ServerEvent::Ping => "Ping",
            ServerEvent::Pong => "Pong",
            ServerEvent::Privmsg(_) => "Privmsg",
            ServerEvent::Reconnect => "Reconnect",
            ServerEvent::RoomState => "RoomState",
            ServerEvent::UserNotice => "UserNotice",
            ServerEvent::UserState => "UserState",
            ServerEvent::Whisper => "Whisper",
            ServerEvent::Other => "Other",
        }
    }
}

/// What processing one event comes to. The caller performs the one side
/// effect a reply asks for: sending the text to the joined channel.
pub enum EventOutcome {
    /// Not a chat message: log the tag at debug level and discard.
    Discarded(String),
    /// A chat message that invokes no command: fully processed, nothing
    /// to send, no failure.
    NoReply,
    /// A chat message that resolved to this command, whose handler
    /// produced this reply text, to be sent to the joined channel.
    Reply(BotCommand, String),
    /// A chat message that resolved to this command, whose dispatch
    /// failed; terminates only the handling of this one event.
    Failed(BotCommand, DispatchError),
}

/// Classifies one event and, for a chat message, runs the command
/// pipeline on its text.
pub fn process_event(e: ServerEvent, prefix: &str, version: &str, debug: bool) -> (r:
    EventOutcome)
    ensures
        !(e is Privmsg) ==> (r matches EventOutcome::Discarded(l) && l@ == variant_label(
            e,
        )),
        e matches ServerEvent::Privmsg(m) ==> (spec_pipeline(m.message_text@, prefix@)
            is None ==> r is NoReply),
        e matches ServerEvent::Privmsg(m) ==> (spec_pipeline(m.message_text@, prefix@)
            matches Some(c) ==> (spec_reply(c, version@, debug) matches Some(t) ==> (
        r matches EventOutcome::Reply(rc, s) && rc == c && s@ == t))),
        e matches ServerEvent::Privmsg(m) ==> (spec_pipeline(m.message_text@, prefix@)
            matches Some(c) ==> (spec_reply(c, version@, debug) is None ==> r
            == EventOutcome::Failed(c, DispatchError::NotImplemented))),
{
    match e {
        ServerEvent::Privmsg(m) => {
            match extract_candidate(m.message_text.as_str(), prefix) {
                None => EventOutcome::NoReply,
                Some(candidate) => match resolve(candidate.as_str()) {
                    None => EventOutcome::NoReply,
                    Some(cmd) => {
                        let invocation = CommandInvocation { command: cmd, message: m };
                        match invocation.dispatch(version, debug) {
                            Ok(reply) => EventOutcome::Reply(cmd, reply),
                            Err(err) => EventOutcome::Failed(cmd, err),
                        }
                    },
                },
            }
        },
        other => {
            let l = other.label();
            EventOutcome::Discarded(l.to_owned())
        },
    }
}

} // verus!
