use golem_frontend::application::{FrameOutcome, GoLEmApp, InputEvent};
use golem_frontend::devices::DeviceKind;
use golem_frontend::nav::MenuState;
use golem_frontend::surface::{Surface, OFF_BYTE, ON_BYTE};

fn app() -> GoLEmApp {
    GoLEmApp::new(4, 2, 3, 1)
}

#[test]
fn frame_events_update_registry_before_rendering() {
    let mut app = app();
    let events = vec![
        InputEvent::JoyDeviceAdded { which: 5, handle: 50 },
        InputEvent::ControllerDeviceAdded { which: 7, handle: 70 },
        InputEvent::Other,
    ];
    let FrameOutcome { quit, anomalies, rejected } = app.process_events(&events);
    assert!(!quit);
    assert_eq!(anomalies, 0);
    assert_eq!(rejected, 0);
    assert_eq!(app.device_slot(DeviceKind::Joystick, 5), Some(50));
    assert_eq!(app.device_slot(DeviceKind::Gamepad, 7), Some(70));
}

#[test]
fn frame_counts_anomalies_and_rejections() {
    let mut app = app();
    let events = vec![
        InputEvent::JoyDeviceAdded { which: 1, handle: 10 },
        InputEvent::JoyDeviceAdded { which: 1, handle: 11 },
        InputEvent::ControllerDeviceRemoved { which: 9 },
        InputEvent::JoyDeviceAdded { which: 64, handle: 12 },
    ];
    let outcome = app.process_events(&events);
    assert!(!outcome.quit);
    assert_eq!(outcome.anomalies, 2);
    assert_eq!(outcome.rejected, 1);
    assert_eq!(app.device_slot(DeviceKind::Joystick, 1), Some(11));
}

#[test]
fn quit_event_stops_the_frame_at_once() {
    let mut app = app();
    let events = vec![
        InputEvent::Quit,
        InputEvent::JoyDeviceAdded { which: 2, handle: 20 },
    ];
    let outcome = app.process_events(&events);
    assert!(outcome.quit);
    // Nothing after the hard quit was applied.
    assert_eq!(app.device_slot(DeviceKind::Joystick, 2), None);
}

#[test]
fn toolbar_redraw_only_when_rendered_and_changed() {
    let mut app = app();
    assert!(app.toolbar_needs_redraw(true));
    assert!(!app.toolbar_needs_redraw(false));
    app.hide_toolbar();
    assert!(!app.toolbar_needs_redraw(true));
    app.show_toolbar();
    assert!(app.toolbar_needs_redraw(true));
}

#[test]
fn finish_toolbar_applies_the_inversion_setting() {
    let mut app = app();
    app.toolbar_buffer().set_pixel(0, 0, true);
    app.finish_toolbar();
    // No inversion configured: the lit pixel stays lit.
    assert!(app.toolbar_buffer().get_pixel(0, 0));
    app.set_invert_toolbar(true);
    app.finish_toolbar();
    assert!(!app.toolbar_buffer().get_pixel(0, 0));
    assert!(app.toolbar_buffer().get_pixel(1, 0));
}

#[test]
fn main_plane_is_one_channel_plane_of_black_on_white() {
    let mut app = app();
    app.main_buffer().set_pixel(1, 0, true);
    let plane = app.main_plane();
    // One byte per pixel of the 4x2 surface.
    assert_eq!(plane.len(), 8);
    // Pixel (1, 0) is byte stream positions 4..8 of the full image, so
    // the plane holds its first channel at offset 4.
    assert_eq!(plane[0], OFF_BYTE);
    assert_eq!(plane[4], ON_BYTE);
    assert_eq!(plane[3], 255);
}

#[test]
fn surface_encodes_exact_rgba_bytes() {
    let mut surface = Surface::new(2, 1);
    surface.set_pixel(0, 0, true);
    let bytes = surface.encode_rgba();
    assert_eq!(bytes, vec![0, 0, 0, 255, 255, 255, 255, 255]);
    let plane = surface.present_plane();
    assert_eq!(plane, vec![0, 0]);
}

#[test]
fn surface_clear_and_invert() {
    let mut surface = Surface::new(2, 2);
    assert_eq!(surface.width(), 2);
    assert_eq!(surface.height(), 2);
    surface.set_pixel(1, 1, true);
    assert!(surface.get_pixel(1, 1));
    surface.invert();
    assert!(!surface.get_pixel(1, 1));
    assert!(surface.get_pixel(0, 0));
    surface.clear();
    assert!(!surface.get_pixel(0, 0));
    assert!(!surface.get_pixel(1, 1));
}

#[test]
fn menu_state_round_trips_the_cursor() {
    // Enter a menu of five items with no carried state: the first item
    // is highlighted.
    let mut state = MenuState::enter(None, 5);
    assert_eq!(state.selected, 0);
    // Select item 3.
    state.move_down(5);
    state.move_down(5);
    state.move_down(5);
    assert_eq!(state.selected, 3);
    // Back out and re-enter: the cursor is restored to item 3, not 0.
    let reopened = MenuState::enter(Some(state), 5);
    assert_eq!(reopened.selected, 3);
}

#[test]
fn menu_state_clamps_when_the_menu_shrank() {
    let state = MenuState { selected: 9, scroll: 8 };
    let reopened = MenuState::enter(Some(state), 4);
    assert_eq!(reopened.selected, 3);
    assert_eq!(reopened.scroll, 3);
}

#[test]
fn menu_cursor_stops_at_the_edges() {
    let mut state = MenuState::new();
    state.move_up();
    assert_eq!(state.selected, 0);
    state.move_down(2);
    state.move_down(2);
    assert_eq!(state.selected, 1);
}
