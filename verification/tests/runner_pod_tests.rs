use pvc_migrator::error::MigrationError;
use pvc_migrator::runner_pod::{
    PodWatchEvent, RUNNING_DEADLINE_SECS, VolumeSource, WATCH_RESOURCE_VERSION, WATCH_TIMEOUT_SECS, WatchVerdict,
    judge_watch_event, runner_pod_manifest, runner_pod_name, watch_field_selector,
};
use pvc_migrator::transfer::Direction;
use pvc_migrator::util::short_id_from_nanos;

#[test]
fn manifest_for_non_root() {
    let m = runner_pod_manifest("pvc-migrator-backup-abc", "redis-data", 999, 998);
    assert_eq!(m.name, "pvc-migrator-backup-abc");
    assert_eq!(m.labels, vec![("app".to_string(), "pvc-migrator".to_string())]);
    assert_eq!(m.restart_policy, "Never");
    assert!(m.security.run_as_non_root);
    assert_eq!(m.security.run_as_user, 999);
    assert_eq!(m.security.run_as_group, 998);
    assert_eq!(m.security.fs_group, 998);
    assert_eq!(m.security.seccomp_profile, "RuntimeDefault");
    assert_eq!(m.containers.len(), 1);
    let c = &m.containers[0];
    assert_eq!(c.name, "runner");
    assert_eq!(c.image, "busybox:1.36");
    assert_eq!(c.command, vec!["sleep", "3600"]);
    assert!(!c.security.allow_privilege_escalation);
    assert!(c.security.read_only_root_filesystem);
    assert!(c.security.run_as_non_root);
    assert_eq!(c.security.drop_capabilities, vec!["ALL"]);
    assert_eq!(c.volume_mounts.len(), 2);
    assert_eq!((c.volume_mounts[0].name.as_str(), c.volume_mounts[0].mount_path.as_str()), ("data", "/data"));
    assert_eq!((c.volume_mounts[1].name.as_str(), c.volume_mounts[1].mount_path.as_str()), ("tmp", "/tmp"));
    assert_eq!(m.volumes.len(), 2);
    assert_eq!(m.volumes[0].name, "data");
    assert_eq!(
        m.volumes[0].source,
        VolumeSource::PersistentVolumeClaim { claim_name: "redis-data".to_string() }
    );
    assert_eq!(m.volumes[1].name, "tmp");
    assert_eq!(m.volumes[1].source, VolumeSource::EmptyDir);
}

#[test]
fn manifest_for_root_claims_no_non_root() {
    let m = runner_pod_manifest("p", "v", 0, 0);
    assert!(!m.security.run_as_non_root);
    assert!(!m.containers[0].security.run_as_non_root);
    assert!(m.containers[0].security.read_only_root_filesystem);
    assert!(!m.containers[0].security.allow_privilege_escalation);
}

fn is_dns_label(s: &str) -> bool {
    !s.is_empty()
        && s.len() <= 63
        && s.chars().all(|c| c.is_ascii_lowercase() || c.is_ascii_digit() || c == '-')
        && !s.starts_with('-')
        && !s.ends_with('-')
}

#[test]
fn runner_pod_names() {
    assert_eq!(runner_pod_name(Direction::Backup, "1a2b3c"), "pvc-migrator-backup-1a2b3c");
    assert_eq!(runner_pod_name(Direction::Restore, "0"), "pvc-migrator-restore-0");
    for nanos in [0u128, 0xffffff, 1_700_000_000_987_654_321] {
        for d in [Direction::Backup, Direction::Restore] {
            let name = runner_pod_name(d, &short_id_from_nanos(nanos));
            assert!(is_dns_label(&name), "{name}");
        }
    }
}

#[test]
fn watch_settings() {
    assert_eq!(watch_field_selector("pvc-migrator-backup-1"), "metadata.name=pvc-migrator-backup-1");
    assert_eq!(WATCH_TIMEOUT_SECS, 60);
    assert_eq!(WATCH_RESOURCE_VERSION, "0");
    assert_eq!(RUNNING_DEADLINE_SECS, 90);
}

#[test]
fn watch_verdicts() {
    let pod = "pvc-migrator-restore-9";
    let up = |p: &str| PodWatchEvent::Upserted { phase: Some(p.to_string()) };
    assert_eq!(judge_watch_event(pod, up("Running")), WatchVerdict::Running);
    assert_eq!(
        judge_watch_event(pod, up("Failed")),
        WatchVerdict::Failed(MigrationError::PodFailed { pod: pod.to_string() })
    );
    assert_eq!(judge_watch_event(pod, up("Pending")), WatchVerdict::KeepWatching);
    assert_eq!(judge_watch_event(pod, up("running")), WatchVerdict::KeepWatching);
    assert_eq!(
        judge_watch_event(pod, PodWatchEvent::Upserted { phase: None }),
        WatchVerdict::KeepWatching
    );
    assert_eq!(judge_watch_event(pod, PodWatchEvent::Other), WatchVerdict::KeepWatching);
    assert_eq!(
        judge_watch_event(pod, PodWatchEvent::StreamFailed { message: "gone".to_string() }),
        WatchVerdict::Failed(MigrationError::External { message: "gone".to_string() })
    );
    assert_eq!(
        judge_watch_event(pod, PodWatchEvent::StreamEnded),
        WatchVerdict::Failed(MigrationError::WatchEnded { pod: pod.to_string() })
    );
    assert_eq!(
        judge_watch_event(pod, PodWatchEvent::DeadlineReached),
        WatchVerdict::Failed(MigrationError::WatchTimedOut { pod: pod.to_string() })
    );
}
