use golem_frontend::lifecycle::{LaunchFailure, INITIAL_STATUS_BITS};
use golem_frontend::script::{
    drive_to_completion, launch_config_of, run_core, CoreType, GameType, PromiseState, RunOptions,
    ScriptFault, ScriptTask,
};
use golem_frontend::lifecycle::CoreManager;
use golem_frontend::session::{CoreMenuAction, SessionEvent};

fn nes_options() -> RunOptions {
    RunOptions {
        core: CoreType::Path { path: "/media/fat/cores/NES.rbf".to_string() },
        game: Some(GameType::RomPath { path: "/media/fat/games/NES/mario.nes".to_string() }),
        files: None,
        savestate: None,
        showmenu: Some(true),
        autoloop: Some(true),
    }
}

#[test]
fn core_type_accepts_only_the_path_tag() {
    let r = CoreType::try_from_fields("path".to_string(), "/a.rbf".to_string());
    assert_eq!(r, Ok(CoreType::Path { path: "/a.rbf".to_string() }));
    let r = CoreType::try_from_fields("url".to_string(), "/a.rbf".to_string());
    assert_eq!(r, Err(ScriptFault::InvalidCoreType));
}

#[test]
fn game_type_accepts_only_the_rom_path_tag() {
    let r = GameType::try_from_fields("rom-path".to_string(), "/m.nes".to_string());
    assert_eq!(r, Ok(GameType::RomPath { path: "/m.nes".to_string() }));
    let r = GameType::try_from_fields("path".to_string(), "/m.nes".to_string());
    assert_eq!(r, Err(ScriptFault::InvalidGameType));
}

#[test]
fn launch_config_translation_keeps_every_option() {
    let mut files = Vec::new();
    files.push(None);
    files.push(Some("/media/fat/save1.sav".to_string()));
    let options = RunOptions {
        core: CoreType::Path { path: "/core.rbf".to_string() },
        game: Some(GameType::RomPath { path: "/rom.nes".to_string() }),
        files: Some(files),
        savestate: Some("/state.ss".to_string()),
        showmenu: Some(false),
        autoloop: Some(false),
    };
    let config = launch_config_of(options);
    assert_eq!(config.core_path, "/core.rbf".to_string());
    assert_eq!(config.game_path, Some("/rom.nes".to_string()));
    assert_eq!(config.file_slots.len(), 2);
    assert_eq!(config.file_slots[1], Some("/media/fat/save1.sav".to_string()));
    assert_eq!(config.savestate, Some("/state.ss".to_string()));
    assert!(!config.show_menu);
    assert!(!config.auto_loop);
}

#[test]
fn launch_config_defaults_mirror_an_empty_call() {
    let options = RunOptions {
        core: CoreType::Path { path: "/core.rbf".to_string() },
        game: None,
        files: None,
        savestate: None,
        showmenu: None,
        autoloop: None,
    };
    let config = launch_config_of(options);
    assert_eq!(config.game_path, None);
    assert!(config.file_slots.is_empty());
    assert!(config.show_menu);
    assert!(config.auto_loop);
}

#[test]
fn scripted_launch_runs_the_session_to_the_menu() {
    // The end-to-end scenario: launch a core with a ROM, menu offered,
    // session loop run within the call; a menu input then opens the
    // overlay.
    let mut manager = CoreManager::new();
    let present = vec![
        "/media/fat/cores/NES.rbf".to_string(),
        "/media/fat/games/NES/mario.nes".to_string(),
    ];
    let events = vec![SessionEvent::MenuRequested];
    let r = run_core(&mut manager, nes_options(), &present, &events);
    assert_eq!(r, Ok(None));
    assert!(manager.has_active_core());
    assert_ne!(manager.status_bits(), 0);
    assert_eq!(manager.status_bits(), INITIAL_STATUS_BITS);
    // The session sits in the menu overlay after the menu input.
    assert!(manager.osd_visible());
}

#[test]
fn scripted_launch_quit_disposition_comes_back() {
    let mut manager = CoreManager::new();
    let present = vec![
        "/media/fat/cores/NES.rbf".to_string(),
        "/media/fat/games/NES/mario.nes".to_string(),
    ];
    let events = vec![
        SessionEvent::MenuRequested,
        SessionEvent::MenuSelect(CoreMenuAction::Quit),
    ];
    let r = run_core(&mut manager, nes_options(), &present, &events);
    assert_eq!(r, Ok(Some(true)));
}

#[test]
fn scripted_launch_with_missing_core_fails_cleanly() {
    let mut manager = CoreManager::new();
    let present = vec!["/media/fat/games/NES/mario.nes".to_string()];
    let events = Vec::new();
    let r = run_core(&mut manager, nes_options(), &present, &events);
    assert_eq!(r, Err(LaunchFailure::MissingCoreImage));
    assert!(!manager.has_active_core());
    assert!(!manager.osd_visible());
}

#[test]
fn scripted_launch_without_autoloop_returns_at_once() {
    let mut manager = CoreManager::new();
    let present = vec!["/core.rbf".to_string()];
    let mut options = nes_options();
    options.core = CoreType::Path { path: "/core.rbf".to_string() };
    options.game = None;
    options.autoloop = Some(false);
    let events = vec![SessionEvent::MenuRequested];
    let r = run_core(&mut manager, options, &present, &events);
    assert_eq!(r, Ok(None));
    assert!(manager.has_active_core());
    // Without the synchronous loop no menu was entered.
    assert!(!manager.osd_visible());
}

#[test]
fn script_task_resolves_exactly_once() {
    let mut task = ScriptTask::new();
    assert_eq!(task.poll(), PromiseState::Pending);
    task.resolve();
    assert_eq!(task.poll(), PromiseState::Fulfilled);
    let mut rejected = ScriptTask::new();
    rejected.reject();
    assert_eq!(rejected.poll(), PromiseState::Rejected);
}

#[test]
fn drive_to_completion_finishes_on_fulfilled() {
    let observed = vec![
        PromiseState::Pending,
        PromiseState::Pending,
        PromiseState::Fulfilled,
    ];
    assert_eq!(drive_to_completion(&observed), Ok(()));
}

#[test]
fn drive_to_completion_surfaces_rejection() {
    let observed = vec![PromiseState::Pending, PromiseState::Rejected, PromiseState::Fulfilled];
    assert_eq!(drive_to_completion(&observed), Err(ScriptFault::Rejected));
}
