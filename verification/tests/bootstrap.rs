use shell_bootstrap::backend::{backend_executable_name, BackendGuard, BackendSlot, BackendStatus};
use shell_bootstrap::icon::{icon_bytes, icon_dir_name, icon_file_name, provision_payload};

#[test]
fn placeholder_payload_is_seventy_bytes_with_container_signature() {
    let bytes = icon_bytes();
    assert_eq!(bytes.len(), 70);
    assert_eq!(&bytes[..6], &[0x00, 0x00, 0x01, 0x00, 0x01, 0x00]);
}

#[test]
fn placeholder_payload_exact_bytes() {
    let expected: [u8; 70] = [
        // container header: reserved, type icon, one image
        0x00, 0x00, 0x01, 0x00, 0x01, 0x00,
        // directory entry: 1x1, no palette, 1 plane, 32 bpp, 48 bytes at offset 22
        0x01, 0x01, 0x00, 0x00, 0x01, 0x00, 0x20, 0x00, 0x30, 0x00, 0x00, 0x00, 0x16, 0x00,
        0x00, 0x00,
        // bitmap-info header: size 40, width 1, height 2, 1 plane, 32 bpp, rest zero
        0x28, 0x00, 0x00, 0x00, 0x01, 0x00, 0x00, 0x00, 0x02, 0x00, 0x00, 0x00, 0x01, 0x00,
        0x20, 0x00, 0x00, 0x00, 0x00, 0x00, 0x00, 0x00, 0x00, 0x00, 0x00, 0x00, 0x00, 0x00,
        0x00, 0x00, 0x00, 0x00, 0x00, 0x00, 0x00, 0x00, 0x00, 0x00, 0x00, 0x00,
        // transparent pixel
        0x00, 0x00, 0x00, 0x00,
        // opacity mask
        0x00, 0x00, 0x00, 0x00,
    ];
    assert_eq!(icon_bytes().as_slice(), &expected[..]);
}

#[test]
fn provisioning_skips_existing_icon() {
    assert!(provision_payload(true).is_none());
}

#[test]
fn provisioning_emits_payload_when_icon_absent() {
    let payload = provision_payload(false);
    assert_eq!(payload, Some(icon_bytes()));
}

#[test]
fn icon_path_components() {
    assert_eq!(icon_dir_name(), "icons");
    assert_eq!(icon_file_name(), "icon.ico");
}

#[test]
fn backend_executable_file_name() {
    assert_eq!(backend_executable_name(), "MegaMelangeBackend.exe");
}

#[test]
fn successful_spawn_records_positive_pid() {
    let mut slot = BackendSlot::new();
    assert_eq!(slot.status(), BackendStatus::NotStarted);
    slot.record_spawn(Some(4242));
    match slot.status() {
        BackendStatus::Running(pid) => assert!(pid > 0 && pid == 4242),
        other => panic!("backend should be running, was {:?}", other),
    }
}

#[test]
fn failed_spawn_leaves_slot_empty() {
    let mut slot = BackendSlot::new();
    slot.record_spawn(None);
    assert_eq!(slot.status(), BackendStatus::NotStarted);
    assert_eq!(slot.take_for_kill(), None);
}

#[test]
fn close_request_takes_handle_once() {
    let mut slot = BackendSlot::new();
    slot.record_spawn(Some(77));
    assert_eq!(slot.take_for_kill(), Some(77));
    assert_eq!(slot.status(), BackendStatus::Terminated);
}

#[test]
fn close_request_twice_is_idempotent() {
    let mut slot = BackendSlot::new();
    slot.record_spawn(Some(77));
    assert_eq!(slot.take_for_kill(), Some(77));
    assert_eq!(slot.take_for_kill(), None);
    assert_eq!(slot.status(), BackendStatus::Terminated);
}

#[test]
fn guard_lifecycle() {
    let guard = BackendGuard::new();
    assert_eq!(guard.status(), BackendStatus::NotStarted);
    guard.record_spawn(Some(31337));
    assert_eq!(guard.status(), BackendStatus::Running(31337));
    assert_eq!(guard.handle_close_request(), Some(31337));
    assert_eq!(guard.status(), BackendStatus::Terminated);
    assert_eq!(guard.handle_close_request(), None);
    assert_eq!(guard.status(), BackendStatus::Terminated);
}

#[test]
fn guard_interleavings_stay_consistent() {
    // Close request delivered before the spawn outcome: the slot stays
    // consistent, and the late outcome still starts the backend.
    let guard = BackendGuard::new();
    assert_eq!(guard.handle_close_request(), None);
    guard.record_spawn(Some(9));
    assert_eq!(guard.status(), BackendStatus::Running(9));
    assert_eq!(guard.handle_close_request(), Some(9));

    // Spawn outcome delivered twice: the second report is ignored.
    let guard = BackendGuard::new();
    guard.record_spawn(Some(9));
    guard.record_spawn(Some(10));
    assert_eq!(guard.status(), BackendStatus::Running(9));

    // A failed spawn never turns into a running backend.
    let guard = BackendGuard::new();
    guard.record_spawn(None);
    assert_eq!(guard.status(), BackendStatus::NotStarted);
    assert_eq!(guard.handle_close_request(), None);
}
