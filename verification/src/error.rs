//! The failures that the migration logic itself decides on, and their
//! messages.

use vstd::prelude::*;
use vstd::string::*;

verus! {

/// A failed backup or restore.
#[derive(Debug, PartialEq, Eq)]
pub enum MigrationError {
    /// The PVC to copy does not exist in the namespace.
    PvcMissing { namespace: String, name: String },
    /// The runner pod reached phase `Failed` before it was running.
    PodFailed { pod: String },
    /// The watch on the runner pod closed before the pod was running.
    WatchEnded { pod: String },
    /// The runner pod was not running within the deadline.
    WatchTimedOut { pod: String },
    /// `tar` inside the runner pod exited unsuccessfully.
    TarFailed { detail: String },
    /// A failure reported by the cluster, the network or the local file
    /// system, already rendered as text.
    External { message: String },
}

pub open spec fn pvc_missing_text(namespace: Seq<char>, name: Seq<char>) -> Seq<char> {
    "PVC '"@ + name + "' does not exist in namespace '"@ + namespace
        + "'. On restore, it usually already comes from the app's own Helm release (even with replicaCount: 0) \u{2014} check whether the Application has synced yet."@
}

/// The text of each error.
pub open spec fn error_text(e: MigrationError) -> Seq<char> {
    match e {
        MigrationError::PvcMissing { namespace, name } => pvc_missing_text(namespace@, name@),
        MigrationError::PodFailed { pod } => "pod "@ + pod@ + " entered Failed before becoming ready"@,
        MigrationError::WatchEnded { pod } => "watch on "@ + pod@ + " ended before it became Running"@,
        MigrationError::WatchTimedOut { pod } => "timed out waiting for pod "@ + pod@
            + " to become Running"@,
        MigrationError::TarFailed { detail } => "tar exited with error: "@ + detail@,
        MigrationError::External { message } => message@,
    }
}

/// `prefix`, then `middle`, then `suffix`.
pub fn surround(prefix: &str, middle: &str, suffix: &str) -> (s: String)
    ensures
        s@ == prefix@ + middle@ + suffix@,
{
    let mut s = String::from_str(prefix);
    s.append(middle);
    s.append(suffix);
    s
}

impl MigrationError {
    /// The error's message.
    pub fn message(&self) -> (s: String)
        ensures
            s@ == error_text(*self),
    {
        match self {
            MigrationError::PvcMissing { namespace, name } => {
                let mut s = surround("PVC '", name.as_str(), "' does not exist in namespace '");
                s.append(namespace.as_str());
                s.append(
                    "'. On restore, it usually already comes from the app's own Helm release (even with replicaCount: 0) \u{2014} check whether the Application has synced yet.",
                );
                assert(s@ =~= error_text(*self));
                s
            },
            MigrationError::PodFailed { pod } => surround(
                "pod ",
                pod.as_str(),
                " entered Failed before becoming ready",
            ),
            MigrationError::WatchEnded { pod } => surround(
                "watch on ",
                pod.as_str(),
                " ended before it became Running",
            ),
            MigrationError::WatchTimedOut { pod } => surround(
                "timed out waiting for pod ",
                pod.as_str(),
                " to become Running",
            ),
            MigrationError::TarFailed { detail } => {
                let mut s = String::from_str("tar exited with error: ");
                s.append(detail.as_str());
                s
            },
            MigrationError::External { message } => message.clone(),
        }
    }
}

} // verus!
