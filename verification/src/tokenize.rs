//! Shell-style tokenization of one command string into a program name and
//! its argument list. No pipes, redirects or variable expansion are
//! interpreted here: a command needing those must invoke a shell explicitly.

use vstd::prelude::*;

verus! {

/// The tokens that POSIX-style shell word-splitting yields for a command
/// string, or `None` when the string cannot be tokenized (an unterminated
/// quote, or an escape that a double quote leaves open). The tokens depend
/// on the characters alone.
pub uninterp spec fn shell_split(s: Seq<char>) -> Option<Seq<Seq<char>>>;

/// Relies on shell_words::split: POSIX-style word-splitting of a command
/// string into whitespace-separated, quote-aware tokens; it fails exactly
/// on an unterminated quote or on input ending inside a double-quoted
/// escape, and its result is a function of the input string alone.
#[verifier::external_body]
fn split_words(cmd: &str) -> (r: Option<Vec<String>>)
    ensures
        r is Some <==> shell_split(cmd@) is Some,
        r matches Some(tokens) ==> shell_split(cmd@) matches Some(t) && tokens.deep_view() == t,
{
    match shell_words::split(cmd) {
        Ok(tokens) => Some(tokens),
        Err(_) => None,
    }
}

/// One spawnable command: the program's name and its arguments, as
/// tokenization produced them.
pub struct Invocation {
    pub program: String,
    pub args: Vec<String>,
}

/// Tokenize one command string, shell-style. The first token names the
/// program, the rest are its arguments. `None` when the string cannot be
/// tokenized or yields no token at all; either aborts a run.
pub fn tokenize_command(cmd: &String) -> (r: Option<Invocation>)
    ensures
        r is Some <==> (shell_split(cmd@) matches Some(t) && t.len() > 0),
        r matches Some(inv) ==> shell_split(cmd@) matches Some(t) && inv.program@ == t[0]
            && inv.args.deep_view() == t.skip(1),
{
    match split_words(cmd.as_str()) {
        None => None,
        Some(mut tokens) => {
            if tokens.len() == 0 {
                None
            } else {
                let ghost all = tokens.deep_view();
                let program = tokens.remove(0);
                proof {
                    assert(tokens.deep_view() =~= all.skip(1));
                }
                Some(Invocation { program, args: tokens })
            }
        },
    }
}

} // verus!
