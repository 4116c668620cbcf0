use golem_frontend::lifecycle::{CoreManager, LaunchConfig, INITIAL_STATUS_BITS};
use golem_frontend::session::{core_menu, run_core_loop, step, CoreMenuAction, SessionEvent, SessionState};

fn launched_manager() -> CoreManager {
    let mut manager = CoreManager::new();
    let present = vec!["/core.rbf".to_string()];
    assert_eq!(manager.launch(LaunchConfig::rbf("/core.rbf".to_string()), &present), Ok(()));
    manager
}

#[test]
fn session_starts_running_and_menu_input_opens_overlay() {
    assert_eq!(
        step(SessionState::Running, SessionEvent::MenuRequested),
        SessionState::MenuOverlay
    );
}

#[test]
fn reset_selection_returns_to_running() {
    assert_eq!(
        step(SessionState::MenuOverlay, SessionEvent::MenuSelect(CoreMenuAction::Reset)),
        SessionState::Running
    );
}

#[test]
fn settings_change_requiring_restart_exits_to_caller() {
    assert_eq!(
        step(
            SessionState::MenuOverlay,
            SessionEvent::MenuSelect(CoreMenuAction::CoreSettings { restart_needed: true })
        ),
        SessionState::Exiting { quit: false }
    );
    assert_eq!(
        step(
            SessionState::MenuOverlay,
            SessionEvent::MenuSelect(CoreMenuAction::CoreSettings { restart_needed: false })
        ),
        SessionState::MenuOverlay
    );
}

#[test]
fn back_returns_to_running_and_quit_exits() {
    assert_eq!(
        step(SessionState::MenuOverlay, SessionEvent::MenuSelect(CoreMenuAction::Back)),
        SessionState::Running
    );
    assert_eq!(
        step(SessionState::MenuOverlay, SessionEvent::MenuSelect(CoreMenuAction::Quit)),
        SessionState::Exiting { quit: true }
    );
}

#[test]
fn fatal_core_error_exits_from_either_state() {
    assert_eq!(
        step(SessionState::Running, SessionEvent::CoreFatalError),
        SessionState::Exiting { quit: true }
    );
    assert_eq!(
        step(SessionState::MenuOverlay, SessionEvent::CoreFatalError),
        SessionState::Exiting { quit: true }
    );
}

#[test]
fn hardware_fault_is_non_fatal_and_keeps_the_session() {
    assert_eq!(step(SessionState::Running, SessionEvent::HardwareFault), SessionState::Running);
    assert_eq!(
        step(SessionState::MenuOverlay, SessionEvent::HardwareFault),
        SessionState::MenuOverlay
    );
}

#[test]
fn exiting_is_terminal() {
    assert_eq!(
        step(SessionState::Exiting { quit: false }, SessionEvent::MenuRequested),
        SessionState::Exiting { quit: false }
    );
}

#[test]
fn run_core_loop_quits_on_quit_selection() {
    let mut manager = launched_manager();
    let events = vec![
        SessionEvent::MenuRequested,
        SessionEvent::MenuSelect(CoreMenuAction::Quit),
    ];
    assert_eq!(run_core_loop(&mut manager, &events), Some(true));
    assert!(!manager.osd_visible());
    assert_eq!(manager.status_bits(), INITIAL_STATUS_BITS);
}

#[test]
fn run_core_loop_drains_mounts_on_menu_entry() {
    let mut manager = launched_manager();
    manager.core_mut().mount_requested(5);
    manager.core_mut().mount_requested(6);
    let events = vec![
        SessionEvent::MenuRequested,
        SessionEvent::MenuSelect(CoreMenuAction::Back),
    ];
    assert_eq!(run_core_loop(&mut manager, &events), None);
    let core = manager.core_mut();
    assert_eq!(core.applied_mounts, vec![5, 6]);
    assert!(core.pending_mounts.is_empty());
}

#[test]
fn run_core_loop_counts_reset_pulses() {
    let mut manager = launched_manager();
    let events = vec![
        SessionEvent::MenuRequested,
        SessionEvent::MenuSelect(CoreMenuAction::Reset),
        SessionEvent::MenuRequested,
        SessionEvent::MenuSelect(CoreMenuAction::Reset),
    ];
    assert_eq!(run_core_loop(&mut manager, &events), None);
    assert_eq!(manager.core_mut().reset_pulses, 2);
}

#[test]
fn run_core_loop_leaves_overlay_shown_while_in_menu() {
    let mut manager = launched_manager();
    let events = vec![SessionEvent::MenuRequested];
    assert_eq!(run_core_loop(&mut manager, &events), None);
    assert!(manager.osd_visible());
}

#[test]
fn core_menu_quit_reloads_top_level_menu() {
    let mut manager = launched_manager();
    let actions = vec![CoreMenuAction::Quit];
    assert!(core_menu(&mut manager, &actions));
    assert!(!manager.osd_visible());
}

#[test]
fn core_menu_back_returns_to_core() {
    let mut manager = launched_manager();
    let actions = vec![CoreMenuAction::DebugMenu, CoreMenuAction::Back];
    assert!(!core_menu(&mut manager, &actions));
    assert!(!manager.osd_visible());
}

#[test]
fn core_menu_reset_pulses_then_quit() {
    let mut manager = launched_manager();
    manager.core_mut().mount_requested(7);
    let actions = vec![
        CoreMenuAction::Reset,
        CoreMenuAction::CoreSettings { restart_needed: false },
        CoreMenuAction::Quit,
    ];
    assert!(core_menu(&mut manager, &actions));
    let core = manager.core_mut();
    // The menu entry flushed the pending mount before anything else.
    assert_eq!(core.applied_mounts, vec![7]);
    assert_eq!(core.reset_pulses, 1);
}

#[test]
fn core_menu_settings_restart_exits_without_quit() {
    let mut manager = launched_manager();
    let actions = vec![CoreMenuAction::CoreSettings { restart_needed: true }];
    assert!(!core_menu(&mut manager, &actions));
}

#[test]
fn menu_action_selectability() {
    assert!(CoreMenuAction::Reset.is_selectable());
    assert!(CoreMenuAction::Quit.is_selectable());
    assert!(!CoreMenuAction::Unselectable.is_selectable());
    assert_eq!(CoreMenuAction::back(), Some(CoreMenuAction::Back));
}
