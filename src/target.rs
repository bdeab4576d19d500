//! Completing a target written on the command line.
use vstd::prelude::*;
use vstd::string::StrSliceExecFns;
use vstd::string::StringExecFns;

verus! {

/// The port that a target without one is given.
pub const DEFAULT_PORT: u16 = 19132;

/// A target with the port completed: one that names no port (no `:` in it)
/// gets the default port appended.
pub open spec fn target_with_port(target: Seq<char>) -> Seq<char> {
    if target.contains(':') {
        target
    } else {
        target + ":19132"@
    }
}

/// Appends `:19132` to a target that holds no `:`, and keeps any other as it
/// is.
pub fn with_default_port(target: &str) -> (r: String)
    ensures
        r@ == target_with_port(target@),
{
    let n = target.unicode_len();
    let mut i: usize = 0;
    while i < n
        invariant
            n == target@.len(),
            i <= n,
            forall|j: int| 0 <= j < i ==> target@[j] != ':',
        decreases n - i,
    {
        if target.get_char(i) == ':' {
            return target.to_owned();
        }
        i = i + 1;
    }
    let mut completed = target.to_owned();
    completed.append(":19132");
    completed
}

} // verus!
