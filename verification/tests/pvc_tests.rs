use pvc_migrator::error::MigrationError;
use pvc_migrator::pvc::{du_request, require_pvc, size_from_du_output};

#[test]
fn require_pvc_found() {
    assert_eq!(require_pvc(true, "default", "redis-data"), Ok(()));
}

#[test]
fn require_pvc_missing() {
    let err = require_pvc(false, "default", "redis-data").unwrap_err();
    assert_eq!(
        err,
        MigrationError::PvcMissing {
            namespace: "default".to_string(),
            name: "redis-data".to_string()
        }
    );
    assert_eq!(
        err.message(),
        "PVC 'redis-data' does not exist in namespace 'default'. On restore, it usually already \
         comes from the app's own Helm release (even with replicaCount: 0) \u{2014} check whether \
         the Application has synced yet."
    );
}

#[test]
fn du_request_is_size_estimate() {
    let r = du_request();
    assert_eq!(r.command, vec!["sh", "-c", "du -sk /data | cut -f1"]);
    assert!(!r.stdin && r.stdout && !r.stderr);
}

#[test]
fn du_output_sizes() {
    assert_eq!(size_from_du_output("12\n"), Some(12 * 1024));
    assert_eq!(size_from_du_output("0\n"), Some(0));
    assert_eq!(size_from_du_output("  4 \n"), Some(4096));
    assert_eq!(size_from_du_output(""), None);
    assert_eq!(size_from_du_output("du: /data: No such file"), None);
    let max_kb = u64::MAX / 1024;
    assert_eq!(size_from_du_output(&format!("{max_kb}\n")), Some(max_kb * 1024));
    assert_eq!(size_from_du_output(&format!("{}\n", max_kb + 1)), None);
}
