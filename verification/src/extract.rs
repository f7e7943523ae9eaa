//! Command extraction: decides whether a chat message is a command
//! invocation, strips the configured prefix and normalizes case.

use vstd::prelude::*;

verus! {

/// Lowercase form of one character: ASCII uppercase letters map to their
/// lowercase counterpart, everything else is unchanged.
pub open spec fn lower_char(c: char) -> char {
    if 'A' <= c && c <= 'Z' {
        (((c as u8) + 32) as char)
    } else {
        c
    }
}

/// Lowercase form of a text, character by character.
pub open spec fn lower(s: Seq<char>) -> Seq<char> {
    s.map_values(|c: char| lower_char(c))
}

/// `p` is a prefix of `s`.
pub open spec fn is_prefix_of(p: Seq<char>, s: Seq<char>) -> bool {
    p.len() <= s.len() && s.subrange(0, p.len() as int) == p
}

/// Lowercase one character.
pub fn lower_char_exec(c: char) -> (r: char)
    ensures
        r == lower_char(c),
{
    if 'A' <= c && c <= 'Z' {
        ((c as u8) + 32) as char
    } else {
        c
    }
}

/// Relies on String::push: appends the given character to the end of the string.
#[verifier::external_body]
fn push_char(s: &mut String, c: char)
    ensures
        final(s)@ == old(s)@.push(c),
{
    s.push(c);
}

/// Does `s` start with `p`?
pub fn starts_with_str(s: &str, p: &str) -> (r: bool)
    ensures
        r == is_prefix_of(p@, s@),
{
    let s_len = s.unicode_len();
    let p_len = p.unicode_len();
    if p_len > s_len {
        return false;
    }
    let mut i: usize = 0;
    while i < p_len
        invariant
            i <= p_len <= s_len,
            p_len == p@.len(),
            s_len == s@.len(),
            forall|j: int| 0 <= j < i ==> s@[j] == p@[j],
        decreases p_len - i,
    {
        if s.get_char(i) != p.get_char(i) {
            proof {
                assert(s@.subrange(0, p@.len() as int)[i as int] != p@[i as int]);
            }
            return false;
        }
        i = i + 1;
    }
    proof {
        assert(s@.subrange(0, p@.len() as int) =~= p@);
    }
    true
}

/// The lowercase form of a text.
pub fn to_lowercase_str(s: &str) -> (r: String)
    ensures
        r@ == lower(s@),
{
    let len = s.unicode_len();
    let mut out = String::new();
    let mut i: usize = 0;
    while i < len
        invariant
            i <= len,
            len == s@.len(),
            out@ =~= lower(s@.take(i as int)),
        decreases len - i,
    {
        let c = lower_char_exec(s.get_char(i));
        push_char(&mut out, c);
        proof {
            assert(s@.take(i + 1 as int) =~= s@.take(i as int).push(s@[i as int]));
            assert(out@ =~= lower(s@.take(i + 1 as int)));
        }
        i = i + 1;
    }
    proof {
        assert(s@.take(len as int) =~= s@);
    }
    out
}

/// Decides whether `text` is a command invocation under `prefix`.
///
/// A text that does not start with the prefix is not a command and yields
/// `None`. Otherwise exactly the prefix is stripped and the remainder,
/// which may be empty, is lowercased: the candidate handed to resolution.
pub fn extract_candidate(text: &str, prefix: &str) -> (r: Option<String>)
    ensures
        r is Some <==> is_prefix_of(prefix@, text@),
        r matches Some(c) ==> c@ == lower(text@.skip(prefix@.len() as int)),
{
    if !starts_with_str(text, prefix) {
        return None;
    }
    let p_len = prefix.unicode_len();
    let t_len = text.unicode_len();
    let stripped = text.substring_char(p_len, t_len);
    proof {
        assert(stripped@ =~= text@.skip(prefix@.len() as int));
    }
    Some(to_lowercase_str(stripped))
}

} // verus!
