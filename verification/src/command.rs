//! Planning for the supervised sync command: the configured command line is
//! split by shell quoting rules into a program and its arguments.  The
//! surrounding process spawns, polls and stops the child.

use vstd::prelude::*;

verus! {

/// How shell word splitting divides a command line: its words in order, or
/// nothing when the quoting is malformed.
pub uninterp spec fn spec_shell_split(s: Seq<char>) -> Option<Seq<Seq<char>>>;

/// Splits a command line by shell quoting rules.
///
/// Relies on `shell_words::split`: the split depends on the characters
/// alone; a quoting error becomes `None`.
#[verifier::external_body]
fn shell_split(command: &str) -> (r: Option<Vec<String>>)
    ensures
        r.deep_view() == spec_shell_split(command@),
{
    shell_words::split(command).ok()
}

/// Splits the configured sync command into the program to run and its
/// arguments.  An empty command line, a malformed one, and one without any
/// word yield nothing to run.
pub fn parse_sync_command(command: &str) -> (r: Option<(String, Vec<String>)>)
    ensures
        r is Some <==> (command@.len() > 0 && (spec_shell_split(command@) matches Some(parts)
            && parts.len() > 0)),
        r matches Some((prog, args)) ==> (spec_shell_split(command@) matches Some(parts)
            && prog@ == parts[0] && args.deep_view() == parts.subrange(1, parts.len() as int)),
{
    if command.is_empty() {
        return Option::None;
    }
    let parts = match shell_split(command) {
        Option::Some(p) => p,
        Option::None => {
            return Option::None;
        },
    };
    if parts.len() == 0 {
        return Option::None;
    }
    let mut parts = parts;
    let prog = parts.remove(0);
    proof {
        let ghost full = spec_shell_split(command@)->Some_0;
        assert(parts.deep_view() =~= full.subrange(1, full.len() as int));
    }
    Option::Some((prog, parts))
}

} // verus!
