use pvc_migrator::error::MigrationError;

#[test]
fn error_messages() {
    let pod = "pvc-migrator-backup-1a2b".to_string();
    assert_eq!(
        MigrationError::PodFailed { pod: pod.clone() }.message(),
        "pod pvc-migrator-backup-1a2b entered Failed before becoming ready"
    );
    assert_eq!(
        MigrationError::WatchEnded { pod: pod.clone() }.message(),
        "watch on pvc-migrator-backup-1a2b ended before it became Running"
    );
    assert_eq!(
        MigrationError::WatchTimedOut { pod }.message(),
        "timed out waiting for pod pvc-migrator-backup-1a2b to become Running"
    );
    assert_eq!(
        MigrationError::TarFailed { detail: "exit code 2".to_string() }.message(),
        "tar exited with error: exit code 2"
    );
    assert_eq!(
        MigrationError::External { message: "connection refused".to_string() }.message(),
        "connection refused"
    );
    assert_eq!(
        MigrationError::PvcMissing { namespace: "ns".to_string(), name: "p".to_string() }.message(),
        format!(
            "PVC 'p' does not exist in namespace 'ns'. On restore, it usually already comes from \
             the app's own Helm release (even with replicaCount: 0) \u{2014} check whether the \
             Application has synced yet."
        )
    );
}
