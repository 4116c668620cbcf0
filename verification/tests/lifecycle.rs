use golem_frontend::lifecycle::{CoreManager, LaunchConfig, LaunchFailure, INITIAL_STATUS_BITS};

fn paths(entries: &[&str]) -> Vec<String> {
    entries.iter().map(|p| p.to_string()).collect()
}

#[test]
fn launch_with_missing_core_image_fails_without_side_effects() {
    let mut manager = CoreManager::new();
    let present = paths(&["/media/fat/games/NES/mario.nes"]);
    let config = LaunchConfig::rbf("/media/fat/cores/NES.rbf".to_string());
    let r = manager.launch(config, &present);
    assert_eq!(r, Err(LaunchFailure::MissingCoreImage));
    // No active core handle exists afterwards: the failure is idempotent.
    assert!(!manager.has_active_core());
    assert!(!manager.osd_visible());
}

#[test]
fn launch_with_missing_rom_fails() {
    let mut manager = CoreManager::new();
    let present = paths(&["/media/fat/cores/NES.rbf"]);
    let config = LaunchConfig::rbf("/media/fat/cores/NES.rbf".to_string())
        .with_rom("/media/fat/games/NES/mario.nes".to_string());
    assert_eq!(manager.launch(config, &present), Err(LaunchFailure::MissingRom));
    assert!(!manager.has_active_core());
}

#[test]
fn launch_with_invalid_file_slot_names_the_slot() {
    let mut manager = CoreManager::new();
    let present = paths(&["/media/fat/cores/NES.rbf", "/media/fat/save0.sav"]);
    let mut config = LaunchConfig::rbf("/media/fat/cores/NES.rbf".to_string());
    config.set_file_slot(0, "/media/fat/save0.sav".to_string());
    config.set_file_slot(2, "/media/fat/missing.sav".to_string());
    assert_eq!(
        manager.launch(config, &present),
        Err(LaunchFailure::InvalidFileSlot { slot: 2 })
    );
    assert!(!manager.has_active_core());
}

#[test]
fn successful_launch_reports_nonempty_status_bits() {
    let mut manager = CoreManager::new();
    let present = paths(&[
        "/media/fat/cores/NES.rbf",
        "/media/fat/games/NES/mario.nes",
    ]);
    let config = LaunchConfig::rbf("/media/fat/cores/NES.rbf".to_string())
        .with_rom("/media/fat/games/NES/mario.nes".to_string());
    assert_eq!(manager.launch(config, &present), Ok(()));
    assert!(manager.has_active_core());
    assert_eq!(manager.status_bits(), INITIAL_STATUS_BITS);
    assert_ne!(manager.status_bits(), 0);
}

#[test]
fn teardown_always_releases_the_core() {
    let mut manager = CoreManager::new();
    let present = paths(&["/core.rbf"]);
    assert_eq!(manager.launch(LaunchConfig::rbf("/core.rbf".to_string()), &present), Ok(()));
    assert!(manager.has_active_core());
    manager.teardown();
    assert!(!manager.has_active_core());
}

#[test]
fn poll_mounts_is_idempotent_at_fixpoint() {
    let mut manager = CoreManager::new();
    let present = paths(&["/core.rbf"]);
    assert_eq!(manager.launch(LaunchConfig::rbf("/core.rbf".to_string()), &present), Ok(()));
    let core = manager.core_mut();
    core.mount_requested(41);
    core.mount_requested(42);
    assert!(core.poll_mounts());
    assert!(core.poll_mounts());
    // The queue is drained: no change is reported.
    assert!(!core.poll_mounts());
    // With no new request in between, polling again still reports no
    // change and the applied order is preserved.
    assert!(!core.poll_mounts());
    assert_eq!(core.applied_mounts, vec![41, 42]);
    assert_eq!(core.pending_mounts, Vec::<u64>::new());
}

#[test]
fn drain_mounts_applies_everything_in_order() {
    let mut manager = CoreManager::new();
    let present = paths(&["/core.rbf"]);
    assert_eq!(manager.launch(LaunchConfig::rbf("/core.rbf".to_string()), &present), Ok(()));
    let core = manager.core_mut();
    core.mount_requested(1);
    core.mount_requested(2);
    core.mount_requested(3);
    core.drain_mounts();
    assert_eq!(core.applied_mounts, vec![1, 2, 3]);
    assert!(core.pending_mounts.is_empty());
}

#[test]
fn pulse_reset_leaves_status_and_mounts_alone() {
    let mut manager = CoreManager::new();
    let present = paths(&["/core.rbf"]);
    assert_eq!(manager.launch(LaunchConfig::rbf("/core.rbf".to_string()), &present), Ok(()));
    let core = manager.core_mut();
    core.mount_requested(9);
    let status_before = core.status_bits();
    core.pulse_reset(0);
    core.pulse_reset(0);
    assert_eq!(core.reset_pulses, 2);
    assert_eq!(core.status_bits(), status_before);
    assert_eq!(core.pending_mounts, vec![9]);
}

#[test]
fn show_and_hide_menu_toggle_the_native_overlay() {
    let mut manager = CoreManager::new();
    assert!(!manager.osd_visible());
    manager.show_menu();
    assert!(manager.osd_visible());
    manager.hide_menu();
    assert!(!manager.osd_visible());
}

#[test]
fn set_file_slot_grows_sparse_table() {
    let mut config = LaunchConfig::rbf("/core.rbf".to_string());
    config.set_file_slot(2, "/b.sav".to_string());
    assert_eq!(config.file_slots.len(), 3);
    assert_eq!(config.file_slots[0], None);
    assert_eq!(config.file_slots[1], None);
    assert_eq!(config.file_slots[2], Some("/b.sav".to_string()));
    config.set_file_slot(0, "/a.sav".to_string());
    assert_eq!(config.file_slots.len(), 3);
    assert_eq!(config.file_slots[0], Some("/a.sav".to_string()));
}
