//! The command pipeline over one chat message: extract, resolve, decide
//! the dispatch.

use vstd::prelude::*;

use crate::commands::{cmd_name, BotCommand};
use crate::dispatch::{reply_for, spec_reply, DispatchError};
use crate::extract::{extract_candidate, is_prefix_of, lower};
use crate::resolve::{resolve, spec_resolve};

verus! {

/// The command one chat message invokes, if any: none when the text does
/// not start with the prefix, otherwise the resolution of the lowercased
/// remainder after stripping exactly the prefix.
pub open spec fn spec_pipeline(text: Seq<char>, prefix: Seq<char>) -> Option<BotCommand> {
    if is_prefix_of(prefix, text) {
        spec_resolve(lower(text.skip(prefix.len() as int)))
    } else {
        None
    }
}

/// A message that does not start with the prefix invokes no command, so
/// nothing is dispatched and nothing is sent for it.
pub proof fn lemma_no_prefix_no_command(text: Seq<char>, prefix: Seq<char>)
    requires
        !is_prefix_of(prefix, text),
    ensures
        spec_pipeline(text, prefix) is None,
{
}

/// A message that is exactly the prefix invokes no command: stripping
/// leaves the empty remainder, and no command name is empty.
pub proof fn lemma_exact_prefix_no_command(text: Seq<char>, prefix: Seq<char>)
    requires
        text == prefix,
    ensures
        spec_pipeline(text, prefix) is None,
{
    assert(is_prefix_of(prefix, text)) by {
        assert(text.subrange(0, prefix.len() as int) =~= prefix);
    }
    let rest = lower(text.skip(prefix.len() as int));
    assert(rest.len() == 0);
    reveal_strlit("ping");
    reveal_strlit("help");
    reveal_strlit("quote");
    reveal_strlit("about");
    assert(cmd_name(BotCommand::Ping).len() == 4);
    assert(cmd_name(BotCommand::Help).len() == 4);
    assert(cmd_name(BotCommand::Quote).len() == 5);
    assert(cmd_name(BotCommand::About).len() == 5);
}

/// Runs the whole pipeline on one chat message's text.
///
/// A text that does not start with the prefix, or whose candidate
/// resolves to no command, is fully processed with no reply and no
/// failure. A resolved command with a handler yields exactly its reply
/// text; a resolved command without one fails with the distinct
/// not-implemented signal.
pub fn handle_chat_message(text: &str, prefix: &str, version: &str, debug: bool) -> (r:
    Result<Option<String>, DispatchError>)
    ensures
        !is_prefix_of(prefix@, text@) ==> r == Ok::<Option<String>, DispatchError>(None),
        spec_pipeline(text@, prefix@) is None ==> r == Ok::<Option<String>, DispatchError>(
            None,
        ),
        spec_pipeline(text@, prefix@) matches Some(c) ==> (spec_reply(c, version@, debug)
            matches Some(t) ==> (r matches Ok(reply) && reply matches Some(out) && out@
            == t)),
        spec_pipeline(text@, prefix@) matches Some(c) && spec_reply(c, version@, debug)
            is None ==> r == Err::<Option<String>, DispatchError>(
            DispatchError::NotImplemented,
        ),
{
    match extract_candidate(text, prefix) {
        None => Ok(None),
        Some(candidate) => match resolve(candidate.as_str()) {
            None => Ok(None),
            Some(cmd) => match reply_for(cmd, version, debug) {
                Ok(reply) => Ok(Some(reply)),
                Err(e) => Err(e),
            },
        },
    }
}

} // verus!
