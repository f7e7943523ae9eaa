//! Command resolution: matches a lowercase candidate against the fixed
//! vocabulary by prefix, in declaration order.

use vstd::prelude::*;

use crate::commands::{all_commands, cmd_name, decl_index, declared_commands, BotCommand};
use crate::extract::{is_prefix_of, starts_with_str};

verus! {

/// The command a candidate resolves to: the first command in declaration
/// order whose canonical name is a prefix of the candidate, or none.
pub open spec fn spec_resolve(s: Seq<char>) -> Option<BotCommand> {
    if is_prefix_of(cmd_name(BotCommand::Ping), s) {
        Some(BotCommand::Ping)
    } else if is_prefix_of(cmd_name(BotCommand::Help), s) {
        Some(BotCommand::Help)
    } else if is_prefix_of(cmd_name(BotCommand::Quote), s) {
        Some(BotCommand::Quote)
    } else if is_prefix_of(cmd_name(BotCommand::About), s) {
        Some(BotCommand::About)
    } else {
        None
    }
}

/// Resolution is deterministic: the same candidate always resolves to the
/// same command, with no state involved.
pub proof fn lemma_resolution_deterministic(s1: Seq<char>, s2: Seq<char>)
    requires
        s1 == s2,
    ensures
        spec_resolve(s1) == spec_resolve(s2),
{
}

/// Declaration order is the sole tie-break: a resolved command's name is a
/// prefix of the candidate and no earlier-declared command's name is; when
/// nothing resolves, no command's name is a prefix of the candidate.
pub proof fn lemma_first_declared_wins(s: Seq<char>)
    ensures
        spec_resolve(s) matches Some(c) ==> is_prefix_of(cmd_name(c), s) && (forall|d:
            BotCommand|
            decl_index(d) < decl_index(c) ==> !is_prefix_of(cmd_name(d), s)),
        spec_resolve(s) is None ==> forall|d: BotCommand| !is_prefix_of(cmd_name(d), s),
{
    if spec_resolve(s) is Some {
        let c = spec_resolve(s)->0;
        assert forall|d: BotCommand| decl_index(d) < decl_index(c) implies !is_prefix_of(
            cmd_name(d),
            s,
        ) by {
            match d {
                BotCommand::Ping => {},
                BotCommand::Help => {},
                BotCommand::Quote => {},
                BotCommand::About => {},
            }
        }
    } else {
        assert forall|d: BotCommand| !is_prefix_of(cmd_name(d), s) by {
            match d {
                BotCommand::Ping => {},
                BotCommand::Help => {},
                BotCommand::Quote => {},
                BotCommand::About => {},
            }
        }
    }
}

proof fn lemma_resolve_at(s: Seq<char>, i: int)
    requires
        0 <= i < declared_commands().len(),
        is_prefix_of(cmd_name(declared_commands()[i]), s),
        forall|j: int| 0 <= j < i ==> !is_prefix_of(cmd_name(declared_commands()[j]), s),
    ensures
        spec_resolve(s) == Some(declared_commands()[i]),
{
    assert(declared_commands()[0] == BotCommand::Ping);
    assert(declared_commands()[1] == BotCommand::Help);
    assert(declared_commands()[2] == BotCommand::Quote);
    assert(declared_commands()[3] == BotCommand::About);
}

/// Resolves a lowercase candidate: walks the vocabulary in declaration
/// order and returns the first command whose name is a prefix of the
/// candidate, or `None` when no name is.
pub fn resolve(candidate: &str) -> (r: Option<BotCommand>)
    ensures
        r == spec_resolve(candidate@),
{
    let cmds = all_commands();
    let mut i: usize = 0;
    while i < cmds.len()
        invariant
            cmds@ == declared_commands(),
            i <= cmds@.len(),
            forall|j: int| 0 <= j < i ==> !is_prefix_of(cmd_name(declared_commands()[j]), candidate@),
        decreases cmds@.len() - i,
    {
        let c = cmds[i];
        if starts_with_str(candidate, c.name()) {
            proof {
                lemma_resolve_at(candidate@, i as int);
            }
            return Some(c);
        }
        i = i + 1;
    }
    proof {
        assert(declared_commands()[0] == BotCommand::Ping);
        assert(declared_commands()[1] == BotCommand::Help);
        assert(declared_commands()[2] == BotCommand::Quote);
        assert(declared_commands()[3] == BotCommand::About);
    }
    None
}

} // verus!
