//! Commands run inside the runner pod through the Kubernetes `exec` API.

use vstd::prelude::*;
use vstd::string::*;

verus! {

/// A command to run in the runner pod, and which of its standard streams
/// are attached.
#[derive(Debug, PartialEq, Eq)]
pub struct ExecRequest {
    pub command: Vec<String>,
    pub stdin: bool,
    pub stdout: bool,
    pub stderr: bool,
}

/// `v` holds exactly the texts `expected`, in order.
pub open spec fn texts_are(v: Seq<String>, expected: Seq<Seq<char>>) -> bool {
    &&& v.len() == expected.len()
    &&& forall|i: int| 0 <= i < v.len() ==> (#[trigger] v[i])@ == expected[i]
}

/// Appends an owned copy of `s` to `v`.
pub fn push_text(v: &mut Vec<String>, s: &str)
    ensures
        final(v)@.len() == old(v)@.len() + 1,
        forall|i: int| 0 <= i < old(v)@.len() ==> final(v)@[i] == old(v)@[i],
        final(v)@[old(v)@.len() as int]@ == s@,
{
    v.push(String::from_str(s));
}

} // verus!
