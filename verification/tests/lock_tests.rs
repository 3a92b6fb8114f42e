//! Acquisition and reclamation decisions of the model lock.

use capi_core::ModelLock;
use capi_core::model_lock::lock_file_name;

#[test]
fn live_holder_refuses_acquisition() {
    let marker = Some("1234".to_string());
    let r = ModelLock::try_acquire("org/model", &marker, true, 999);
    match r {
        Err(busy) => assert_eq!(busy.pid, 1234),
        Ok(_) => panic!("a live holder must refuse the acquisition"),
    }
}

#[test]
fn dead_holder_is_reclaimed() {
    let marker = Some("1234".to_string());
    let r = ModelLock::try_acquire("org/model", &marker, false, 4242);
    let plan = r.expect("a stale marker must not block acquisition");
    assert!(plan.remove_stale_first);
    assert_eq!(plan.marker_name, "capi-model-org_model.lock");
    assert_eq!(plan.marker_content, "4242");
    assert_eq!(plan.handle.owning_pid, 4242);
    assert_eq!(plan.handle.lock_path, "capi-model-org_model.lock");
}

#[test]
fn unreadable_marker_is_reclaimed() {
    let marker = Some("not a pid".to_string());
    // The liveness answer is meaningless for an unreadable marker and must
    // not matter.
    for alive in [false, true] {
        let r = ModelLock::try_acquire("m", &marker, alive, 7);
        let plan = r.expect("an unreadable marker must not block acquisition");
        assert!(plan.remove_stale_first);
    }
}

#[test]
fn absent_marker_acquires_directly() {
    let r = ModelLock::try_acquire("m", &None, false, 7);
    let plan = r.expect("no marker, no obstacle");
    assert!(!plan.remove_stale_first);
    assert_eq!(plan.marker_content, "7");
}

#[test]
fn release_names_the_marker_to_remove() {
    let plan = ModelLock::try_acquire("some/model", &None, false, 1).unwrap();
    let handle = plan.handle;
    let path = handle.release();
    assert_eq!(path, "capi-model-some_model.lock");
}

#[test]
fn lock_file_name_sanitizes_separators() {
    assert_eq!(lock_file_name("a/b\\c:d"), "capi-model-a_b_c_d.lock");
    assert_eq!(lock_file_name("plain"), "capi-model-plain.lock");
    assert_eq!(lock_file_name(""), "capi-model-.lock");
}

#[test]
fn stale_marker_check() {
    assert!(ModelLock::marker_is_stale("1234", false));
    assert!(!ModelLock::marker_is_stale("1234", true));
    assert!(ModelLock::marker_is_stale("junk", true));
    assert!(ModelLock::marker_is_stale("", false));
}

#[test]
fn forced_release_names_the_marker() {
    assert_eq!(ModelLock::force_release_name("x/y"), "capi-model-x_y.lock");
}
