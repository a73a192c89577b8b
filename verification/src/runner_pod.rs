//! The short-lived pod that mounts the PVC and runs `tar`, and how to tell
//! from a watch on it that it is ready.

use vstd::prelude::*;
use vstd::string::*;
use crate::error::MigrationError;
use crate::exec::{texts_are, push_text};
use crate::transfer::{Direction, direction_name, direction_word};
use crate::util::{short_id_text, law_short_id_shape};
use crate::text::is_hex_digit_lower;

verus! {

/// Security settings of the pod as a whole.
#[derive(Debug, PartialEq, Eq)]
pub struct PodSecurity {
    pub run_as_non_root: bool,
    pub run_as_user: i64,
    pub run_as_group: i64,
    pub fs_group: i64,
    pub seccomp_profile: String,
}

/// Security settings of the container.
#[derive(Debug, PartialEq, Eq)]
pub struct ContainerSecurity {
    pub allow_privilege_escalation: bool,
    pub read_only_root_filesystem: bool,
    pub run_as_non_root: bool,
    pub drop_capabilities: Vec<String>,
}

/// A volume mounted into the container.
#[derive(Debug, PartialEq, Eq)]
pub struct VolumeMount {
    pub name: String,
    pub mount_path: String,
}

/// Where a volume's content comes from.
#[derive(Debug, PartialEq, Eq)]
pub enum VolumeSource {
    PersistentVolumeClaim { claim_name: String },
    EmptyDir,
}

/// A volume of the pod.
#[derive(Debug, PartialEq, Eq)]
pub struct Volume {
    pub name: String,
    pub source: VolumeSource,
}

/// The container of the pod.
#[derive(Debug, PartialEq, Eq)]
pub struct RunnerContainer {
    pub name: String,
    pub image: String,
    pub command: Vec<String>,
    pub security: ContainerSecurity,
    pub volume_mounts: Vec<VolumeMount>,
}

/// The runner pod, as it is submitted to the cluster.
#[derive(Debug, PartialEq, Eq)]
pub struct RunnerPodManifest {
    pub name: String,
    pub labels: Vec<(String, String)>,
    pub restart_policy: String,
    pub security: PodSecurity,
    pub containers: Vec<RunnerContainer>,
    pub volumes: Vec<Volume>,
}

/// The image of the runner: small, and always with `tar`, `sh` and `du`.
pub open spec fn runner_image() -> Seq<char> {
    "busybox:1.36"@
}

/// `m` is the runner pod named `name` that mounts the PVC `pvc` at `/data`
/// and runs as `uid`/`gid`.
pub open spec fn is_runner_pod(m: RunnerPodManifest, name: Seq<char>, pvc: Seq<char>, uid: i64, gid: i64) -> bool {
    &&& m.name@ == name
    &&& m.labels@.len() == 1
    &&& m.labels@[0].0@ == "app"@
    &&& m.labels@[0].1@ == "pvc-migrator"@
    &&& m.restart_policy@ == "Never"@
    &&& m.security.run_as_non_root == (uid != 0)
    &&& m.security.run_as_user == uid
    &&& m.security.run_as_group == gid
    &&& m.security.fs_group == gid
    &&& m.security.seccomp_profile@ == "RuntimeDefault"@
    &&& m.containers@.len() == 1
    &&& {
        let c = m.containers@[0];
        &&& c.name@ == "runner"@
        &&& c.image@ == runner_image()
        &&& texts_are(c.command@, seq!["sleep"@, "3600"@])
        &&& !c.security.allow_privilege_escalation
        &&& c.security.read_only_root_filesystem
        &&& c.security.run_as_non_root == (uid != 0)
        &&& texts_are(c.security.drop_capabilities@, seq!["ALL"@])
        &&& c.volume_mounts@.len() == 2
        &&& c.volume_mounts@[0].name@ == "data"@
        &&& c.volume_mounts@[0].mount_path@ == "/data"@
        &&& c.volume_mounts@[1].name@ == "tmp"@
        &&& c.volume_mounts@[1].mount_path@ == "/tmp"@
    }
    &&& m.volumes@.len() == 2
    &&& m.volumes@[0].name@ == "data"@
    &&& m.volumes@[0].source matches VolumeSource::PersistentVolumeClaim { claim_name }
    &&& claim_name@ == pvc
    &&& m.volumes@[1].name@ == "tmp"@
    &&& m.volumes@[1].source == VolumeSource::EmptyDir
}

fn volume_mount(name: &str, mount_path: &str) -> (v: VolumeMount)
    ensures
        v.name@ == name@,
        v.mount_path@ == mount_path@,
{
    VolumeMount { name: String::from_str(name), mount_path: String::from_str(mount_path) }
}

/// The runner pod named `name`: it mounts the PVC `pvc_name` at `/data` and
/// runs as `uid`/`gid` (`gid` also as `fsGroup`, so that the mounted files
/// can be read and written whoever wrote them). Its security settings meet
/// the `restricted` Pod Security Standard: no privilege escalation, every
/// capability dropped, seccomp `RuntimeDefault`, a read-only root file
/// system with an `emptyDir` at `/tmp` for scratch files, and non-root,
/// except that it claims non-root only when `uid` is not 0, so that a pod
/// asked to run as root on purpose is not refused outright.
pub fn runner_pod_manifest(name: &str, pvc_name: &str, uid: i64, gid: i64) -> (m: RunnerPodManifest)
    ensures
        is_runner_pod(m, name@, pvc_name@, uid, gid),
{
    let mut labels: Vec<(String, String)> = Vec::new();
    labels.push((String::from_str("app"), String::from_str("pvc-migrator")));
    let mut command: Vec<String> = Vec::new();
    push_text(&mut command, "sleep");
    push_text(&mut command, "3600");
    let mut drop_capabilities: Vec<String> = Vec::new();
    push_text(&mut drop_capabilities, "ALL");
    let mut volume_mounts: Vec<VolumeMount> = Vec::new();
    volume_mounts.push(volume_mount("data", "/data"));
    volume_mounts.push(volume_mount("tmp", "/tmp"));
    let mut containers: Vec<RunnerContainer> = Vec::new();
    containers.push(
        RunnerContainer {
            name: String::from_str("runner"),
            image: String::from_str("busybox:1.36"),
            command,
            security: ContainerSecurity {
                allow_privilege_escalation: false,
                read_only_root_filesystem: true,
                run_as_non_root: uid != 0,
                drop_capabilities,
            },
            volume_mounts,
        },
    );
    let mut volumes: Vec<Volume> = Vec::new();
    volumes.push(
        Volume {
            name: String::from_str("data"),
            source: VolumeSource::PersistentVolumeClaim { claim_name: String::from_str(pvc_name) },
        },
    );
    volumes.push(Volume { name: String::from_str("tmp"), source: VolumeSource::EmptyDir });
    RunnerPodManifest {
        name: String::from_str(name),
        labels,
        restart_policy: String::from_str("Never"),
        security: PodSecurity {
            run_as_non_root: uid != 0,
            run_as_user: uid,
            run_as_group: gid,
            fs_group: gid,
            seccomp_profile: String::from_str("RuntimeDefault"),
        },
        containers,
        volumes,
    }
}

/// Every container of `m` mounts only volumes that `m` declares.
pub open spec fn mounts_resolve(m: RunnerPodManifest) -> bool {
    forall|i: int, j: int|
        0 <= i < m.containers@.len() && 0 <= j < m.containers@[i].volume_mounts@.len() ==> exists|
            k: int,
        |
            0 <= k < m.volumes@.len() && #[trigger] m.volumes@[k].name@
                == (#[trigger] m.containers@[i].volume_mounts@[j]).name@
}

/// What the `restricted` Pod Security Standard asks of `m`.
pub open spec fn meets_restricted_profile(m: RunnerPodManifest) -> bool {
    &&& m.security.run_as_non_root
    &&& m.security.run_as_user != 0
    &&& forall|k: int|
        0 <= k < m.volumes@.len() ==> ((#[trigger] m.volumes@[k]).source is PersistentVolumeClaim
            || m.volumes@[k].source is EmptyDir)
    &&& m.security.seccomp_profile@ == "RuntimeDefault"@
    &&& forall|i: int|
        0 <= i < m.containers@.len() ==> {
            let s = (#[trigger] m.containers@[i]).security;
            &&& !s.allow_privilege_escalation
            &&& s.run_as_non_root
            &&& exists|k: int| 0 <= k < s.drop_capabilities@.len() && #[trigger] s.drop_capabilities@[k]@ == "ALL"@
        }
}

/// Law: the runner pod meets the `restricted` Pod Security Standard whenever
/// it is not asked to run as root; as root it claims non-root nowhere; it
/// keeps its root file system read-only either way, and every mount names a
/// declared volume.
pub proof fn law_runner_pod_restricted(m: RunnerPodManifest, name: Seq<char>, pvc: Seq<char>, uid: i64, gid: i64)
    requires
        is_runner_pod(m, name, pvc, uid, gid),
    ensures
        uid != 0 ==> meets_restricted_profile(m),
        uid == 0 ==> !m.security.run_as_non_root && !m.containers@[0].security.run_as_non_root,
        m.containers@[0].security.read_only_root_filesystem,
        mounts_resolve(m),
{
    let c = m.containers@[0];
    assert(c.security.drop_capabilities@[0]@ == "ALL"@);
    assert forall|k: int| 0 <= k < m.volumes@.len() implies ((#[trigger] m.volumes@[k]).source is PersistentVolumeClaim
        || m.volumes@[k].source is EmptyDir) by {
        if k == 0 {
        } else {
            assert(k == 1);
        }
    }
    assert forall|i: int, j: int|
        0 <= i < m.containers@.len() && 0 <= j < m.containers@[i].volume_mounts@.len() implies exists|k: int|
            0 <= k < m.volumes@.len() && #[trigger] m.volumes@[k].name@
                == (#[trigger] m.containers@[i].volume_mounts@[j]).name@ by {
        assert(i == 0);
        if j == 0 {
            assert(m.volumes@[0].name@ == m.containers@[i].volume_mounts@[j].name@);
        } else {
            assert(m.volumes@[1].name@ == m.containers@[i].volume_mounts@[j].name@);
        }
    }
}

/// The name of the runner pod: `pvc-migrator-backup-<id>` or
/// `pvc-migrator-restore-<id>`.
pub open spec fn runner_pod_name_text(d: Direction, id: Seq<char>) -> Seq<char> {
    "pvc-migrator-"@ + direction_word(d) + "-"@ + id
}

/// See `runner_pod_name_text`.
pub fn runner_pod_name(d: Direction, id: &str) -> (s: String)
    ensures
        s@ == runner_pod_name_text(d, id@),
{
    let mut s = String::from_str("pvc-migrator-");
    s.append(direction_name(d));
    s.append("-");
    s.append(id);
    s
}

pub open spec fn is_dns_label_char(c: char) -> bool {
    'a' <= c <= 'z' || '0' <= c <= '9' || c == '-'
}

/// A valid Kubernetes object name in the form of a DNS-1123 label: 1 to 63
/// lower-case letters, digits and `-`, beginning and ending with a letter or
/// digit.
pub open spec fn is_dns_label(s: Seq<char>) -> bool {
    &&& 1 <= s.len() <= 63
    &&& forall|i: int| 0 <= i < s.len() ==> is_dns_label_char(#[trigger] s[i])
    &&& s[0] != '-'
    &&& s.last() != '-'
}

/// Law: the runner pod's name, with a suffix made from any clock reading, is
/// a valid DNS-1123 label, so the cluster never refuses it for its name.
pub proof fn law_runner_pod_name_is_dns_label(d: Direction, nanos: nat)
    ensures
        is_dns_label(runner_pod_name_text(d, short_id_text(nanos))),
{
    let id = short_id_text(nanos);
    law_short_id_shape(nanos);
    reveal_strlit("pvc-migrator-");
    reveal_strlit("backup");
    reveal_strlit("restore");
    reveal_strlit("-");
    let prefix = "pvc-migrator-"@ + direction_word(d) + "-"@;
    let s = prefix + id;
    assert(forall|i: int| 0 <= i < prefix.len() ==> is_dns_label_char(#[trigger] prefix[i]));
    assert forall|i: int| 0 <= i < s.len() implies is_dns_label_char(#[trigger] s[i]) by {
        if i < prefix.len() {
            assert(s[i] == prefix[i]);
        } else {
            assert(s[i] == id[i - prefix.len()]);
            assert(is_hex_digit_lower(id[i - prefix.len()]));
        }
    }
    assert(s[0] == 'p');
    assert(s.last() == id.last());
    assert(is_hex_digit_lower(id[id.len() - 1]));
}

/// The field selector that restricts a watch to the pod named `name`.
pub open spec fn watch_selector_text(name: Seq<char>) -> Seq<char> {
    "metadata.name="@ + name
}

/// See `watch_selector_text`.
pub fn watch_field_selector(name: &str) -> (s: String)
    ensures
        s@ == watch_selector_text(name@),
{
    let mut s = String::from_str("metadata.name=");
    s.append(name);
    s
}

/// How long one watch request may stay open, in seconds.
pub const WATCH_TIMEOUT_SECS: u32 = 60;

/// The resource version the watch on the runner pod starts from: `"0"`,
/// any version the API server has at hand.
pub const WATCH_RESOURCE_VERSION: &'static str = "0";

/// How long to wait for the runner pod to be running, in seconds.
pub const RUNNING_DEADLINE_SECS: u64 = 90;

/// What the watch on the runner pod reported.
#[derive(Debug, PartialEq, Eq)]
pub enum PodWatchEvent {
    /// The pod was added or modified; its status phase, if it has a status
    /// with a phase.
    Upserted { phase: Option<String> },
    /// Any other watch event (deletion, bookmark, error object).
    Other,
    /// The watch stream failed with this error.
    StreamFailed { message: String },
    /// The watch stream ended.
    StreamEnded,
    /// The deadline passed.
    DeadlineReached,
}

/// What to make of a watch event.
#[derive(Debug, PartialEq, Eq)]
pub enum WatchVerdict {
    KeepWatching,
    /// The pod is running: the transfer can start.
    Running,
    /// The pod will not be ready.
    Failed(MigrationError),
}

/// The verdict on `ev` for the pod named `pod`.
pub open spec fn watch_verdict(pod: Seq<char>, ev: PodWatchEvent, v: WatchVerdict) -> bool {
    match ev {
        PodWatchEvent::Upserted { phase: Some(p) } => if p@ == "Running"@ {
            v == WatchVerdict::Running
        } else if p@ == "Failed"@ {
            v matches WatchVerdict::Failed(MigrationError::PodFailed { pod: n }) && n@ == pod
        } else {
            v == WatchVerdict::KeepWatching
        },
        PodWatchEvent::Upserted { phase: None } => v == WatchVerdict::KeepWatching,
        PodWatchEvent::Other => v == WatchVerdict::KeepWatching,
        PodWatchEvent::StreamFailed { message } => v == WatchVerdict::Failed(
            MigrationError::External { message },
        ),
        PodWatchEvent::StreamEnded => v matches WatchVerdict::Failed(
            MigrationError::WatchEnded { pod: n },
        ) && n@ == pod,
        PodWatchEvent::DeadlineReached => v matches WatchVerdict::Failed(
            MigrationError::WatchTimedOut { pod: n },
        ) && n@ == pod,
    }
}

/// Judges one event of the watch on the pod named `pod`: running means
/// ready, `Failed` means it never will be, the end of the stream or the
/// deadline means giving up; anything else means waiting on.
pub fn judge_watch_event(pod: &str, ev: PodWatchEvent) -> (v: WatchVerdict)
    ensures
        watch_verdict(pod@, ev, v),
{
    match ev {
        PodWatchEvent::Upserted { phase: Some(p) } => {
            if p == String::from_str("Running") {
                WatchVerdict::Running
            } else if p == String::from_str("Failed") {
                WatchVerdict::Failed(MigrationError::PodFailed { pod: String::from_str(pod) })
            } else {
                WatchVerdict::KeepWatching
            }
        },
        PodWatchEvent::Upserted { phase: None } => WatchVerdict::KeepWatching,
        PodWatchEvent::Other => WatchVerdict::KeepWatching,
        PodWatchEvent::StreamFailed { message } => WatchVerdict::Failed(
            MigrationError::External { message },
        ),
        PodWatchEvent::StreamEnded => WatchVerdict::Failed(
            MigrationError::WatchEnded { pod: String::from_str(pod) },
        ),
        PodWatchEvent::DeadlineReached => WatchVerdict::Failed(
            MigrationError::WatchTimedOut { pod: String::from_str(pod) },
        ),
    }
}

/// Law: for every uid and gid, 0 included, the runner pod runs as exactly the
/// ids asked for (the gid also as fsGroup), carries the name asked for, and
/// mounts the PVC asked for at `/data`.
pub proof fn law_runner_pod_runs_as_asked(
    m: RunnerPodManifest,
    name: Seq<char>,
    pvc: Seq<char>,
    uid: i64,
    gid: i64,
)
    requires
        is_runner_pod(m, name, pvc, uid, gid),
    ensures
        m.security.run_as_user == uid,
        m.security.run_as_group == gid,
        m.security.fs_group == gid,
        m.name@ == name,
        m.volumes@.len() == 2,
        m.volumes@[0].source matches VolumeSource::PersistentVolumeClaim { claim_name } && claim_name@
            == pvc,
        m.containers@[0].volume_mounts@[0].name@ == m.volumes@[0].name@,
        m.containers@[0].volume_mounts@[0].mount_path@ == "/data"@,
{
}

/// Law: for every pod name, a pod reported in phase `Running` is ready, and
/// one reported in phase `Failed` fails the wait with `PodFailed` naming the
/// pod.
pub proof fn law_watch_phase_decides(pod: Seq<char>, p: String, v: WatchVerdict)
    requires
        watch_verdict(pod, PodWatchEvent::Upserted { phase: Some(p) }, v),
    ensures
        p@ == "Running"@ ==> v == WatchVerdict::Running,
        p@ == "Failed"@ ==> (v matches WatchVerdict::Failed(MigrationError::PodFailed { pod: n })
            && n@ == pod),
{
    reveal_strlit("Running");
    reveal_strlit("Failed");
    if p@ == "Failed"@ {
        assert(p@[0] == 'F');
        assert("Running"@[0] == 'R');
    }
}

/// Law: the verdict on a reported phase does not depend on the pod's name.
pub proof fn law_watch_verdict_ignores_name(
    pod1: Seq<char>,
    pod2: Seq<char>,
    p: String,
    v1: WatchVerdict,
    v2: WatchVerdict,
)
    requires
        watch_verdict(pod1, PodWatchEvent::Upserted { phase: Some(p) }, v1),
        watch_verdict(pod2, PodWatchEvent::Upserted { phase: Some(p) }, v2),
    ensures
        (v1 == WatchVerdict::Running) == (v2 == WatchVerdict::Running),
        (v1 == WatchVerdict::KeepWatching) == (v2 == WatchVerdict::KeepWatching),
        (v1 is Failed) == (v2 is Failed),
{
}

} // verus!
