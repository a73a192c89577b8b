//! Checks on the PersistentVolumeClaim, and the estimate of how much data
//! it holds.

use vstd::prelude::*;
use vstd::string::*;
use crate::error::MigrationError;
use crate::exec::{ExecRequest, texts_are, push_text};
use crate::text::{parse_u64, trim, parse_trimmed_u64, decimal, law_decimal_parses_back};

verus! {

/// What the PVC lookup decides: a PVC that exists lets the work go on; a
/// missing one fails fast with a message that names it, rather than later as
/// a runner pod that never gets scheduled.
pub fn require_pvc(found: bool, namespace: &str, name: &str) -> (r: Result<(), MigrationError>)
    ensures
        found ==> r is Ok,
        !found ==> (r matches Err(MigrationError::PvcMissing { namespace: ns, name: n })
            && ns@ == namespace@ && n@ == name@),
{
    if found {
        Ok(())
    } else {
        Err(
            MigrationError::PvcMissing {
                namespace: String::from_str(namespace),
                name: String::from_str(name),
            },
        )
    }
}

/// The size estimate: `du -sk /data | cut -f1` run in the runner pod, with
/// only its standard output attached.
pub fn du_request() -> (r: ExecRequest)
    ensures
        texts_are(r.command@, seq!["sh"@, "-c"@, "du -sk /data | cut -f1"@]),
        !r.stdin,
        r.stdout,
        !r.stderr,
{
    let mut command: Vec<String> = Vec::new();
    push_text(&mut command, "sh");
    push_text(&mut command, "-c");
    push_text(&mut command, "du -sk /data | cut -f1");
    ExecRequest { command, stdin: false, stdout: true, stderr: false }
}

/// The size in bytes that the output of the size estimate gives: the
/// output, trimmed, read as a number of kibibytes, times 1024. `None` when it
/// is not such a number, or when the bytes do not fit in a `u64`.
pub open spec fn du_output_bytes(out: Seq<char>) -> Option<u64> {
    match parse_u64(trim(out)) {
        Some(kb) => if kb * 1024 <= u64::MAX {
            Some((kb * 1024) as u64)
        } else {
            None
        },
        None => None,
    }
}

/// Reads the output of the size estimate; see `du_output_bytes`.
pub fn size_from_du_output(out: &str) -> (r: Option<u64>)
    ensures
        r == du_output_bytes(out@),
{
    match parse_trimmed_u64(out) {
        Some(kb) => kb.checked_mul(1024),
        None => None,
    }
}

/// Law: a line of `du` output that holds the number `kb` gives `kb * 1024`
/// bytes, whenever that fits in a `u64`.
pub proof fn law_du_line_gives_bytes(kb: u64)
    requires
        kb * 1024 <= u64::MAX,
    ensures
        du_output_bytes(decimal(kb as nat) + seq!['\n']) == Some((kb * 1024) as u64),
{
    law_decimal_parses_back(kb);
}

} // verus!
