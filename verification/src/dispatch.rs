//! Command dispatch: the reply text each resolved command produces, and
//! the failure a not-yet-implemented command raises.

use vstd::prelude::*;

use crate::commands::BotCommand;
use crate::events::ChatMessage;

verus! {

/// Why handling a resolved command failed. Distinct from "no command
/// matched", which is not a failure at all: this is the internal signal
/// that a command exists in the vocabulary but has no handler yet. It
/// terminates only the handling of the one event that raised it.
#[derive(Clone, Copy, Debug, PartialEq, Eq, Structural)]
pub enum DispatchError {
    NotImplemented,
}

/// The reply text of the ping command.
pub open spec fn pong_text() -> Seq<char> {
    "Pong!"@
}

/// The reply text of the about command, for a given embedded package
/// version and build mode.
pub open spec fn about_text(version: Seq<char>, debug: bool) -> Seq<char> {
    "Version: "@ + version + " - Debug mode: "@ + (if debug {
        "On"@
    } else {
        "Off"@
    })
}

/// The reply a command produces, or `None` for a command that has no
/// handler yet (whose dispatch fails instead of replying).
pub open spec fn spec_reply(c: BotCommand, version: Seq<char>, debug: bool) -> Option<
    Seq<char>,
> {
    match c {
        BotCommand::Ping => Some(pong_text()),
        BotCommand::About => Some(about_text(version, debug)),
        BotCommand::Help => None,
        BotCommand::Quote => None,
    }
}

/// Decides what dispatching a resolved command does: the exact reply text
/// to send for a handled command, or the failure for an unhandled one.
/// `version` is the embedded package version and `debug` whether the
/// build was produced in debug mode, both fixed at build time.
pub fn reply_for(cmd: BotCommand, version: &str, debug: bool) -> (r: Result<
    String,
    DispatchError,
>)
    ensures
        spec_reply(cmd, version@, debug) matches Some(t) ==> (r matches Ok(reply)
            && reply@ == t),
        spec_reply(cmd, version@, debug) is None ==> r == Err::<String, DispatchError>(
            DispatchError::NotImplemented,
        ),
{
    match cmd {
        BotCommand::Ping => Ok(String::from_str("Pong!")),
        BotCommand::About => {
            let reply = String::from_str("Version: ").concat(version).concat(
                " - Debug mode: ",
            ).concat(if debug { "On" } else { "Off" });
            proof {
                assert(reply@ =~= about_text(version@, debug));
            }
            Ok(reply)
        },
        BotCommand::Help => Err(DispatchError::NotImplemented),
        BotCommand::Quote => Err(DispatchError::NotImplemented),
    }
}

/// A successful extraction and resolution: the command to run together
/// with the chat message it came from. Handlers may need the sender and
/// channel context even though the current ones ignore it. Transient; it
/// exists only for the one dispatch.
pub struct CommandInvocation {
    /// The resolved command.
    pub command: BotCommand,
    /// The chat message that invoked it.
    pub message: ChatMessage,
}

impl CommandInvocation {
    /// Dispatches this invocation: yields the exact reply text a handled
    /// command sends to the joined channel, or the failure of an
    /// unhandled one.
    pub fn dispatch(&self, version: &str, debug: bool) -> (r: Result<String, DispatchError>)
        ensures
            spec_reply(self.command, version@, debug) matches Some(t) ==> (r matches Ok(
                reply,
            ) && reply@ == t),
            spec_reply(self.command, version@, debug) is None ==> r == Err::<
                String,
                DispatchError,
            >(DispatchError::NotImplemented),
    {
        reply_for(self.command, version, debug)
    }
}

} // verus!
