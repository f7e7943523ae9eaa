//! The fixed, closed vocabulary of bot commands.

use vstd::prelude::*;

verus! {

/// A command the bot understands. The set is compiled in; there is no
/// runtime registration. The variant order is the declaration order that
/// resolution uses as its sole tie-break.
#[derive(Clone, Copy, Debug, PartialEq, Eq, Structural)]
pub enum BotCommand {
    Ping,
    Help,
    Quote,
    About,
}

/// Canonical lowercase textual form of a command, the form used for
/// prefix matching.
pub open spec fn cmd_name(c: BotCommand) -> Seq<char> {
    match c {
        BotCommand::Ping => "ping"@,
        BotCommand::Help => "help"@,
        BotCommand::Quote => "quote"@,
        BotCommand::About => "about"@,
    }
}

/// Position of a command in declaration order.
pub open spec fn decl_index(c: BotCommand) -> int {
    match c {
        BotCommand::Ping => 0,
        BotCommand::Help => 1,
        BotCommand::Quote => 2,
        BotCommand::About => 3,
    }
}

/// The whole vocabulary, in declaration order.
pub open spec fn declared_commands() -> Seq<BotCommand> {
    seq![BotCommand::Ping, BotCommand::Help, BotCommand::Quote, BotCommand::About]
}

impl BotCommand {
    /// The canonical lowercase name of this command.
    pub fn name(&self) -> (r: &'static str)
        ensures
            r@ == cmd_name(*self),
    {
        match self {
            BotCommand::Ping => "ping",
            BotCommand::Help => "help",
            BotCommand::Quote => "quote",
            BotCommand::About => "about",
        }
    }
}

/// The command list as a runtime value, in declaration order.
pub fn all_commands() -> (r: Vec<BotCommand>)
    ensures
        r@ == declared_commands(),
{
    let mut v: Vec<BotCommand> = Vec::new();
    v.push(BotCommand::Ping);
    v.push(BotCommand::Help);
    v.push(BotCommand::Quote);
    v.push(BotCommand::About);
    proof {
        assert(v@ =~= declared_commands());
    }
    v
}

} // verus!
