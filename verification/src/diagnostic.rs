//! The verdict of an unwrap-or-exit operation, and the diagnostic it
//! carries on the fatal path.

use vstd::prelude::*;
use vstd::string::StringExecFns;

verus! {

/// What a failed anticipation asks the surrounding program to do:
/// write `line` to the standard error stream, followed by a newline,
/// and then terminate the process with status `exit_code`.
///
/// Every diagnostic this library produces carries `exit_code == 1`:
/// unwrapping a negative container is always fatal with status 1.
pub struct Diagnostic {
    pub line: String,
    pub exit_code: u8,
}

/// The outcome of anticipating a value: either the payload itself, or
/// the diagnostic with which the program is to terminate.
///
/// The fatal branch is terminal by design: a caller that receives it
/// has nothing to recover and is expected to emit the diagnostic and
/// stop, so the payload type appears only in the `Value` branch.
pub enum Anticipated<T> {
    /// The container held the anticipated payload; execution continues.
    Value(T),
    /// The container did not: the program must emit the diagnostic and stop.
    Fatal(Diagnostic),
}

/// The separator between a caller's message and the rendered detail.
pub open spec fn separator() -> Seq<char> {
    seq![':', ' ']
}

/// A diagnostic line of the form `message: detail`.
pub open spec fn detailed_line(msg: Seq<char>, detail: Seq<char>) -> Seq<char> {
    msg + separator() + detail
}

/// Join a message and a rendered detail with `": "`.
pub fn detailed(msg: &str, detail: &str) -> (line: String)
    ensures
        line@ == detailed_line(msg@, detail@),
{
    proof {
        reveal_strlit(": ");
    }
    let mut line = msg.to_owned();
    line.append(": ");
    line.append(detail);
    proof {
        assert(line@ =~= detailed_line(msg@, detail@));
    }
    line
}

} // verus!
