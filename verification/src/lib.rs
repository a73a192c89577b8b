//! Verified core of a tool that copies the contents of a Kubernetes
//! PersistentVolumeClaim to a local tar file and back, through a short-lived
//! runner pod.

pub mod error;
pub mod exec;
pub mod pvc;
pub mod runner_pod;
pub mod session;
pub mod text;
pub mod transfer;
pub mod util;
