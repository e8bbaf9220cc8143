use gpui_bridge::renderer::window_manager::api::{WindowManager, WindowManagerError};
use gpui_bridge::renderer::window_manager::app::WindowManagerApp;
use gpui_bridge::renderer::window_manager::types::{
    WindowAction, WindowCommand, WindowState, WorkerEvent,
};

/// Lets the worker take the queue, answering each request for a native window with the next
/// identifier from `next_native`. Returns every action asked for, in order.
fn drain(
    app: &mut WindowManagerApp,
    manager: &mut WindowManager,
    next_native: &mut u64,
) -> Vec<WindowAction> {
    let mut all: Vec<WindowAction> = Vec::new();
    let mut actions = app.handle_event(manager, WorkerEvent::AboutToWait);
    loop {
        let waits = matches!(actions.last(), Some(WindowAction::CreateWindow { .. }));
        all.append(&mut actions);
        if !waits {
            return all;
        }
        let native = *next_native;
        *next_native += 1;
        actions = app.handle_event(manager, WorkerEvent::WindowCreated { window: native });
    }
}

fn pixels_of(manager: &WindowManager, id: u64) -> Vec<u32> {
    manager.state.windows.get(&id).unwrap().pixel_buffer.clone()
}

fn record_of(manager: &WindowManager, id: u64) -> &WindowState {
    manager.state.windows.get(&id).unwrap()
}

#[test]
fn new_manager_is_empty() {
    let manager = WindowManager::new();
    assert_eq!(manager.window_count(), 0);
    assert!(!manager.window_exists(0));
    assert!(!manager.window_exists(1));
    assert!(manager.state.pending_commands.is_empty());
    assert!(!manager.state.should_exit);
    assert_eq!(manager.next_window_id, 1);
    assert!(!manager.started);
}

#[test]
fn first_window_is_one_second_is_two() {
    let mut manager = WindowManager::new();
    assert_eq!(manager.create_window(100, 100, "t".to_string()), Ok(1));
    manager.close_window(1);
    assert_eq!(manager.create_window(100, 100, "t".to_string()), Ok(2));
}

#[test]
fn ids_increase_strictly() {
    let mut manager = WindowManager::new();
    let mut app = WindowManagerApp::new();
    let mut native: u64 = 50;
    let mut last: u64 = 0;
    for round in 0..6u32 {
        let id = manager.create_window(2, 2, "w".to_string()).unwrap();
        assert!(id > last);
        last = id;
        if round % 2 == 0 {
            manager.close_window(id);
            drain(&mut app, &mut manager, &mut native);
            assert!(!manager.window_exists(id));
        }
    }
    assert_eq!(last, 6);
}

#[test]
fn created_window_is_registered_before_start() {
    let mut manager = WindowManager::new();
    assert!(!manager.started);
    let before = manager.window_count();
    let id = manager.create_window(8, 4, "early".to_string()).unwrap();
    assert!(manager.window_exists(id));
    assert_eq!(manager.window_count(), before + 1);
    let second = manager.create_window(8, 4, "later".to_string()).unwrap();
    assert!(manager.window_exists(second));
    assert_eq!(manager.window_count(), before + 2);
    assert!(!manager.started);
}

#[test]
fn create_window_defaults() {
    let mut manager = WindowManager::new();
    let id = manager.create_window(3, 2, "plain".to_string()).unwrap();
    let record = record_of(&manager, id);
    assert_eq!(record.width, 3);
    assert_eq!(record.height, 2);
    assert_eq!(record.pixel_buffer, vec![0xFF000000u32; 6]);
    assert!(record.needs_redraw);
    assert_eq!(record.title, "plain");
    assert_eq!(record.x, None);
    assert_eq!(record.y, None);
    assert!(!record.always_on_top);
    assert!(!record.transparent);
    assert!(record.decorations);
    assert_eq!(record.winit_id, None);
    assert_eq!(
        manager.state.pending_commands,
        vec![WindowCommand::CreateWindow {
            id: 1,
            width: 3,
            height: 2,
            title: "plain".to_string(),
            x: None,
            y: None,
            always_on_top: false,
            transparent: false,
            decorations: true,
        }]
    );
}

#[test]
fn create_window_with_position_places_it() {
    let mut manager = WindowManager::new();
    let id = manager.create_window_with_position(3, 2, "p".to_string(), -5, 9).unwrap();
    let record = record_of(&manager, id);
    assert_eq!(record.x, Some(-5));
    assert_eq!(record.y, Some(9));
    assert!(record.decorations);
    assert!(!record.transparent);
    assert_eq!(
        manager.state.pending_commands,
        vec![WindowCommand::CreateWindow {
            id: 1,
            width: 3,
            height: 2,
            title: "p".to_string(),
            x: Some(-5),
            y: Some(9),
            always_on_top: false,
            transparent: false,
            decorations: true,
        }]
    );
}

#[test]
fn transparent_window_starts_transparent() {
    let mut manager = WindowManager::new();
    let id = manager
        .create_window_with_options(2, 2, "glass".to_string(), None, Some(3), true, true, false)
        .unwrap();
    let record = record_of(&manager, id);
    assert_eq!(record.pixel_buffer, vec![0u32; 4]);
    assert!(record.transparent);
    assert!(record.always_on_top);
    assert!(!record.decorations);
    assert_eq!(record.x, None);
    assert_eq!(record.y, Some(3));
}

#[test]
fn window_of_no_pixels_is_registered() {
    let mut manager = WindowManager::new();
    let id = manager.create_window(0, 10, "flat".to_string()).unwrap();
    assert!(manager.window_exists(id));
    assert!(pixels_of(&manager, id).is_empty());
    manager.set_pixel(id, 0, 0, 1, 2, 3);
    manager.clear(id, 1, 2, 3, None);
    assert!(pixels_of(&manager, id).is_empty());
}

#[test]
fn too_many_pixels_are_refused() {
    let mut manager = WindowManager::new();
    assert_eq!(
        manager.create_window(65536, 65536, "huge".to_string()),
        Err(WindowManagerError::SizeOverflow)
    );
    assert_eq!(
        manager.create_window(u32::MAX, 2, "huge".to_string()),
        Err(WindowManagerError::SizeOverflow)
    );
    assert_eq!(manager.window_count(), 0);
    assert_eq!(manager.next_window_id, 1);
    assert!(manager.state.pending_commands.is_empty());
    assert_eq!(manager.create_window(1, 1, "small".to_string()), Ok(1));
}

#[test]
fn exhausted_ids_are_refused() {
    let mut manager = WindowManager::new();
    manager.next_window_id = u64::MAX - 1;
    assert_eq!(manager.create_window(1, 1, "last".to_string()), Ok(u64::MAX - 1));
    assert_eq!(
        manager.create_window(1, 1, "none".to_string()),
        Err(WindowManagerError::IdsExhausted)
    );
    assert_eq!(manager.window_count(), 1);
    assert_eq!(manager.state.pending_commands.len(), 1);
    assert_eq!(
        manager.create_window(65536, 65536, "huge".to_string()),
        Err(WindowManagerError::SizeOverflow)
    );
}

#[test]
fn start_is_refused_the_second_time() {
    let mut manager = WindowManager::new();
    assert_eq!(manager.start(), Ok(()));
    assert!(manager.started);
    assert_eq!(manager.start(), Err(WindowManagerError::AlreadyStarted));
    assert!(manager.started);
    assert_eq!(manager.create_window(1, 1, "after".to_string()), Ok(1));
}

#[test]
fn set_pixel_reads_back_opaque() {
    let mut manager = WindowManager::new();
    let id = manager.create_window(4, 3, "w".to_string()).unwrap();
    manager.set_pixel(id, 1, 2, 0x12, 0x34, 0x56);
    let record = record_of(&manager, id);
    assert_eq!(record.pixel_buffer[2 * 4 + 1], 0xFF123456);
    assert_eq!(record.pixel(1, 2), Some(0xFF123456));
    assert_eq!(record.pixel(0, 0), Some(0xFF000000));
    assert_eq!(record.pixel(4, 0), None);
    assert_eq!(record.pixel(0, 3), None);
    let mut expected = vec![0xFF000000u32; 12];
    expected[9] = 0xFF123456;
    assert_eq!(record.pixel_buffer, expected);
}

#[test]
fn set_pixel_rgba_keeps_alpha() {
    let mut manager = WindowManager::new();
    let id = manager.create_window(4, 3, "w".to_string()).unwrap();
    manager.set_pixel_rgba(id, 3, 0, 0x12, 0x34, 0x56, 0x80);
    manager.set_pixel_rgba(id, 0, 1, 0xFF, 0xFF, 0xFF, 0);
    let record = record_of(&manager, id);
    assert_eq!(record.pixel(3, 0), Some(0x80123456));
    assert_eq!(record.pixel(0, 1), Some(0x00FFFFFF));
}

#[test]
fn set_pixel_marks_dirty() {
    let mut manager = WindowManager::new();
    let mut app = WindowManagerApp::new();
    let mut native: u64 = 10;
    let id = manager.create_window(2, 2, "w".to_string()).unwrap();
    drain(&mut app, &mut manager, &mut native);
    app.handle_event(&mut manager, WorkerEvent::RedrawRequested { window: 10 });
    assert!(!record_of(&manager, id).needs_redraw);
    manager.set_pixel(id, 5, 5, 1, 1, 1);
    assert!(!record_of(&manager, id).needs_redraw);
    manager.set_pixel(id, 1, 1, 1, 1, 1);
    assert!(record_of(&manager, id).needs_redraw);
}

#[test]
fn set_pixel_outside_changes_nothing() {
    let mut manager = WindowManager::new();
    let id = manager.create_window(4, 3, "w".to_string()).unwrap();
    let before = pixels_of(&manager, id);
    let queued = manager.state.pending_commands.len();
    manager.set_pixel(id, 4, 0, 255, 255, 255);
    manager.set_pixel(id, 0, 3, 255, 255, 255);
    manager.set_pixel(id, 4, 3, 255, 255, 255);
    manager.set_pixel(id, u32::MAX, u32::MAX, 255, 255, 255);
    manager.set_pixel_rgba(id, 4, 2, 255, 255, 255, 7);
    manager.set_pixel_rgba(id, 0, u32::MAX, 255, 255, 255, 7);
    assert_eq!(pixels_of(&manager, id), before);
    assert_eq!(manager.state.pending_commands.len(), queued);
}

#[test]
fn drawing_on_unknown_window_changes_nothing() {
    let mut manager = WindowManager::new();
    let id = manager.create_window(2, 2, "w".to_string()).unwrap();
    let before = pixels_of(&manager, id);
    manager.set_pixel(id + 1, 0, 0, 255, 255, 255);
    manager.set_pixel_rgba(0, 0, 0, 255, 255, 255, 255);
    manager.clear(id + 1, 1, 2, 3, None);
    manager.clear_black(77);
    assert_eq!(pixels_of(&manager, id), before);
    assert_eq!(manager.window_count(), 1);
    assert_eq!(manager.state.pending_commands.len(), 1);
}

#[test]
fn clear_is_uniform_and_idempotent() {
    let mut manager = WindowManager::new();
    let id = manager.create_window(5, 3, "w".to_string()).unwrap();
    manager.set_pixel(id, 2, 2, 9, 9, 9);
    manager.clear(id, 0x10, 0x20, 0x30, None);
    assert_eq!(pixels_of(&manager, id), vec![0xFF102030u32; 15]);
    manager.clear(id, 0x10, 0x20, 0x30, None);
    assert_eq!(pixels_of(&manager, id), vec![0xFF102030u32; 15]);
    assert!(record_of(&manager, id).needs_redraw);
}

#[test]
fn clear_with_alpha_and_clear_black() {
    let mut manager = WindowManager::new();
    let id = manager.create_window(2, 2, "w".to_string()).unwrap();
    manager.clear(id, 0x10, 0x20, 0x30, Some(0x40));
    assert_eq!(pixels_of(&manager, id), vec![0x40102030u32; 4]);
    manager.clear(id, 1, 2, 3, Some(0));
    assert_eq!(pixels_of(&manager, id), vec![0x00010203u32; 4]);
    manager.clear_black(id);
    assert_eq!(pixels_of(&manager, id), vec![0xFF000000u32; 4]);
}

#[test]
fn two_windows_red_and_blue() {
    let mut manager = WindowManager::new();
    let mut app = WindowManagerApp::new();
    let mut native: u64 = 100;
    let first = manager.create_window(4, 4, "one".to_string()).unwrap();
    let second = manager.create_window(4, 4, "two".to_string()).unwrap();
    for y in 0..4u32 {
        for x in 0..4u32 {
            manager.set_pixel(first, x, y, 255, 0, 0);
            manager.set_pixel(second, x, y, 0, 0, 255);
        }
    }
    drain(&mut app, &mut manager, &mut native);
    assert_eq!(pixels_of(&manager, first), vec![0xFFFF0000u32; 16]);
    assert_eq!(pixels_of(&manager, second), vec![0xFF0000FFu32; 16]);
    assert_eq!(record_of(&manager, first).winit_id, Some(100));
    assert_eq!(record_of(&manager, second).winit_id, Some(101));
}

#[test]
fn requests_on_known_window_update_record_and_queue() {
    let mut manager = WindowManager::new();
    let id = manager.create_window(2, 2, "old".to_string()).unwrap();
    manager.set_position(id, 10, -20);
    manager.set_always_on_top(id, true);
    manager.set_title(id, "new".to_string());
    manager.set_ignore_input(id, true);
    manager.present(id);
    manager.close_window(id);
    let record = record_of(&manager, id);
    assert_eq!(record.x, Some(10));
    assert_eq!(record.y, Some(-20));
    assert!(record.always_on_top);
    assert_eq!(record.title, "new");
    assert!(manager.window_exists(id));
    assert_eq!(
        manager.state.pending_commands[1..],
        [
            WindowCommand::SetPosition { window_id: id, x: 10, y: -20 },
            WindowCommand::SetAlwaysOnTop { window_id: id, always_on_top: true },
            WindowCommand::SetTitle { window_id: id, title: "new".to_string() },
            WindowCommand::SetIgnoreInput { window_id: id, ignore: true },
            WindowCommand::Present { window_id: id },
            WindowCommand::CloseWindow { window_id: id },
        ]
    );
}

#[test]
fn requests_on_unknown_window_are_still_queued() {
    let mut manager = WindowManager::new();
    manager.set_position(9, 1, 2);
    manager.set_always_on_top(9, false);
    manager.set_title(9, "ghost".to_string());
    manager.set_ignore_input(9, false);
    manager.present(9);
    manager.close_window(9);
    assert_eq!(manager.window_count(), 0);
    assert_eq!(
        manager.state.pending_commands,
        vec![
            WindowCommand::SetPosition { window_id: 9, x: 1, y: 2 },
            WindowCommand::SetAlwaysOnTop { window_id: 9, always_on_top: false },
            WindowCommand::SetTitle { window_id: 9, title: "ghost".to_string() },
            WindowCommand::SetIgnoreInput { window_id: 9, ignore: false },
            WindowCommand::Present { window_id: 9 },
            WindowCommand::CloseWindow { window_id: 9 },
        ]
    );
    let mut app = WindowManagerApp::new();
    let actions = app.handle_event(&mut manager, WorkerEvent::AboutToWait);
    assert!(actions.is_empty());
    assert!(manager.state.pending_commands.is_empty());
    assert!(!manager.state.should_exit);
}

#[test]
fn present_marks_dirty_without_touching_pixels() {
    let mut manager = WindowManager::new();
    let mut app = WindowManagerApp::new();
    let mut native: u64 = 10;
    let id = manager.create_window(2, 1, "w".to_string()).unwrap();
    manager.set_pixel(id, 1, 0, 1, 2, 3);
    drain(&mut app, &mut manager, &mut native);
    app.handle_event(&mut manager, WorkerEvent::RedrawRequested { window: 10 });
    assert!(!record_of(&manager, id).needs_redraw);
    let before = pixels_of(&manager, id);
    manager.present(id);
    assert!(record_of(&manager, id).needs_redraw);
    assert_eq!(pixels_of(&manager, id), before);
    let actions = drain(&mut app, &mut manager, &mut native);
    assert_eq!(
        actions,
        vec![
            WindowAction::RequestRedraw { window: 10 },
            WindowAction::RequestRedraw { window: 10 },
        ]
    );
}

#[test]
fn worker_asks_for_native_window_and_waits() {
    let mut manager = WindowManager::new();
    let mut app = WindowManagerApp::new();
    let id = manager
        .create_window_with_options(6, 5, "w".to_string(), Some(7), Some(8), true, true, false)
        .unwrap();
    manager.set_title(id, "renamed".to_string());
    let actions = app.handle_event(&mut manager, WorkerEvent::AboutToWait);
    assert_eq!(
        actions,
        vec![WindowAction::CreateWindow {
            id,
            width: 6,
            height: 5,
            title: "w".to_string(),
            position: Some((7, 8)),
            always_on_top: true,
            transparent: true,
            decorations: false,
        }]
    );
    assert!(manager.state.pending_commands.is_empty());
    assert_eq!(app.backlog.len(), 2);
    assert!(app.windows.is_empty());
    manager.present(id);
    assert!(app.handle_event(&mut manager, WorkerEvent::AboutToWait).is_empty());
    assert_eq!(manager.state.pending_commands.len(), 1);
    let actions = app.handle_event(&mut manager, WorkerEvent::WindowCreated { window: 42 });
    assert_eq!(
        actions,
        vec![
            WindowAction::RequestRedraw { window: 42 },
            WindowAction::SetTitle { window: 42, title: "renamed".to_string() },
            WindowAction::RequestRedraw { window: 42 },
        ]
    );
    assert!(app.backlog.is_empty());
    assert_eq!(app.windows.len(), 1);
    assert_eq!(app.windows[0].window, 42);
    assert_eq!(app.windows[0].state_id, id);
    assert_eq!(record_of(&manager, id).winit_id, Some(42));
}

#[test]
fn window_is_placed_only_with_both_coordinates() {
    let mut manager = WindowManager::new();
    let mut app = WindowManagerApp::new();
    manager
        .create_window_with_options(1, 1, "x".to_string(), Some(3), None, false, false, true)
        .unwrap();
    manager
        .create_window_with_options(1, 1, "y".to_string(), None, Some(4), false, false, true)
        .unwrap();
    let first = app.handle_event(&mut manager, WorkerEvent::AboutToWait);
    assert!(matches!(
        first.last(),
        Some(WindowAction::CreateWindow { id: 1, position: None, .. })
    ));
    let second = app.handle_event(&mut manager, WorkerEvent::WindowCreated { window: 5 });
    assert!(matches!(
        second.last(),
        Some(WindowAction::CreateWindow { id: 2, position: None, .. })
    ));
}

#[test]
fn commands_reach_the_platform_in_order() {
    let mut manager = WindowManager::new();
    let mut app = WindowManagerApp::new();
    let mut native: u64 = 20;
    let a = manager.create_window(2, 2, "a".to_string()).unwrap();
    let b = manager.create_window(2, 2, "b".to_string()).unwrap();
    drain(&mut app, &mut manager, &mut native);
    app.handle_event(&mut manager, WorkerEvent::RedrawRequested { window: 20 });
    app.handle_event(&mut manager, WorkerEvent::RedrawRequested { window: 21 });
    manager.set_title(b, "B".to_string());
    manager.set_position(a, 1, 2);
    manager.set_ignore_input(b, true);
    manager.set_always_on_top(a, true);
    manager.set_ignore_input(a, false);
    manager.set_position(b, -3, -4);
    let actions = drain(&mut app, &mut manager, &mut native);
    assert_eq!(
        actions,
        vec![
            WindowAction::SetTitle { window: 21, title: "B".to_string() },
            WindowAction::SetPosition { window: 20, x: 1, y: 2 },
            WindowAction::SetCursorHittest { window: 21, hittest: false },
            WindowAction::SetCursorHittest { window: 20, hittest: true },
            WindowAction::SetPosition { window: 21, x: -3, y: -4 },
        ]
    );
    assert!(manager.state.pending_commands.is_empty());
    assert!(drain(&mut app, &mut manager, &mut native).is_empty());
}

#[test]
fn process_commands_takes_the_queue_once() {
    let mut manager = WindowManager::new();
    let mut app = WindowManagerApp::new();
    let id = manager.create_window(2, 2, "a".to_string()).unwrap();
    let actions = app.process_commands(&mut manager);
    assert_eq!(actions.len(), 1);
    assert!(matches!(actions[0], WindowAction::CreateWindow { id: 1, .. }));
    assert!(manager.state.pending_commands.is_empty());
    manager.close_window(id);
    assert!(app.process_commands(&mut manager).is_empty());
    assert_eq!(manager.state.pending_commands.len(), 1);
    app.handle_event(&mut manager, WorkerEvent::WindowCreated { window: 3 });
    let actions = app.process_commands(&mut manager);
    assert_eq!(
        actions,
        vec![WindowAction::DestroyWindow { window: 3 }, WindowAction::ExitEventLoop]
    );
    assert!(app.process_commands(&mut manager).is_empty());
}

#[test]
fn close_window_is_realized_by_the_worker() {
    let mut manager = WindowManager::new();
    let mut app = WindowManagerApp::new();
    let mut native: u64 = 30;
    let keep = manager.create_window(2, 2, "keep".to_string()).unwrap();
    let gone = manager.create_window(2, 2, "gone".to_string()).unwrap();
    drain(&mut app, &mut manager, &mut native);
    manager.close_window(gone);
    assert!(manager.window_exists(gone));
    let actions = drain(&mut app, &mut manager, &mut native);
    assert_eq!(
        actions,
        vec![
            WindowAction::DestroyWindow { window: 31 },
            WindowAction::RequestRedraw { window: 30 },
        ]
    );
    assert!(!manager.window_exists(gone));
    assert!(manager.window_exists(keep));
    assert_eq!(manager.window_count(), 1);
    assert_eq!(app.windows.len(), 1);
    assert!(!manager.state.should_exit);
}

#[test]
fn closing_twice_or_unknown_is_no_error() {
    let mut manager = WindowManager::new();
    let mut app = WindowManagerApp::new();
    let mut native: u64 = 30;
    let keep = manager.create_window(2, 2, "keep".to_string()).unwrap();
    let gone = manager.create_window(2, 2, "gone".to_string()).unwrap();
    drain(&mut app, &mut manager, &mut native);
    app.handle_event(&mut manager, WorkerEvent::RedrawRequested { window: 30 });
    manager.close_window(gone);
    manager.close_window(gone);
    manager.close_window(999);
    let actions = drain(&mut app, &mut manager, &mut native);
    assert_eq!(actions, vec![WindowAction::DestroyWindow { window: 31 }]);
    manager.close_window(gone);
    assert!(drain(&mut app, &mut manager, &mut native).is_empty());
    assert!(manager.window_exists(keep));
    assert!(!manager.window_exists(gone));
    assert_eq!(manager.window_count(), 1);
}

#[test]
fn created_and_closed_before_the_worker_ran() {
    let mut manager = WindowManager::new();
    let mut app = WindowManagerApp::new();
    let mut native: u64 = 1;
    let other = manager.create_window(2, 2, "other".to_string()).unwrap();
    let mut next = native;
    drain(&mut app, &mut manager, &mut next);
    native = next;
    let id = manager.create_window(2, 2, "brief".to_string()).unwrap();
    manager.close_window(id);
    assert!(manager.window_exists(id));
    let actions = drain(&mut app, &mut manager, &mut native);
    assert!(!manager.window_exists(id));
    assert!(manager.window_exists(other));
    assert_eq!(actions.len(), 4);
    assert!(matches!(actions[0], WindowAction::CreateWindow { id: 2, .. }));
    assert_eq!(actions[1], WindowAction::RequestRedraw { window: 2 });
    assert_eq!(actions[2], WindowAction::DestroyWindow { window: 2 });
    assert_eq!(actions[3], WindowAction::RequestRedraw { window: 1 });
}

#[test]
fn last_window_closed_by_command_ends_the_loop() {
    let mut manager = WindowManager::new();
    let mut app = WindowManagerApp::new();
    let mut native: u64 = 30;
    let id = manager.create_window(2, 2, "only".to_string()).unwrap();
    drain(&mut app, &mut manager, &mut native);
    manager.close_window(id);
    let actions = drain(&mut app, &mut manager, &mut native);
    assert_eq!(
        actions,
        vec![
            WindowAction::DestroyWindow { window: 30 },
            WindowAction::ExitEventLoop,
            WindowAction::ExitProcess,
        ]
    );
    assert!(manager.state.should_exit);
    assert_eq!(manager.window_count(), 0);
    assert!(app.windows.is_empty());
}

#[test]
fn native_close_forgets_the_window() {
    let mut manager = WindowManager::new();
    let mut app = WindowManagerApp::new();
    let mut native: u64 = 30;
    let first = manager.create_window(2, 2, "a".to_string()).unwrap();
    let second = manager.create_window(2, 2, "b".to_string()).unwrap();
    drain(&mut app, &mut manager, &mut native);
    let actions = app.handle_event(&mut manager, WorkerEvent::CloseRequested { window: 30 });
    assert_eq!(actions, vec![WindowAction::DestroyWindow { window: 30 }]);
    assert!(!manager.window_exists(first));
    assert!(manager.window_exists(second));
    assert!(!manager.state.should_exit);
    let again = app.handle_event(&mut manager, WorkerEvent::CloseRequested { window: 30 });
    assert!(again.is_empty());
    let actions = app.handle_event(&mut manager, WorkerEvent::CloseRequested { window: 31 });
    assert_eq!(
        actions,
        vec![WindowAction::DestroyWindow { window: 31 }, WindowAction::ExitEventLoop]
    );
    assert!(manager.state.should_exit);
    assert_eq!(manager.window_count(), 0);
    let last = app.handle_event(&mut manager, WorkerEvent::AboutToWait);
    assert_eq!(last, vec![WindowAction::ExitProcess]);
}

#[test]
fn native_close_spares_a_window_not_yet_realized() {
    let mut manager = WindowManager::new();
    let mut app = WindowManagerApp::new();
    let mut native: u64 = 30;
    manager.create_window(2, 2, "a".to_string()).unwrap();
    drain(&mut app, &mut manager, &mut native);
    let pending = manager.create_window(2, 2, "b".to_string()).unwrap();
    let actions = app.handle_event(&mut manager, WorkerEvent::CloseRequested { window: 30 });
    assert_eq!(actions, vec![WindowAction::DestroyWindow { window: 30 }]);
    assert!(!manager.state.should_exit);
    assert!(manager.window_exists(pending));
    let actions = drain(&mut app, &mut manager, &mut native);
    assert!(matches!(actions[0], WindowAction::CreateWindow { id: 2, .. }));
    assert_eq!(record_of(&manager, pending).winit_id, Some(31));
}

#[test]
fn close_of_unknown_native_window_is_ignored() {
    let mut manager = WindowManager::new();
    let mut app = WindowManagerApp::new();
    let actions = app.handle_event(&mut manager, WorkerEvent::CloseRequested { window: 5 });
    assert!(actions.is_empty());
    assert!(!manager.state.should_exit);
    assert!(app.handle_event(&mut manager, WorkerEvent::AboutToWait).is_empty());
}

#[test]
fn redraw_copies_pixels_to_the_surface() {
    let mut manager = WindowManager::new();
    let mut app = WindowManagerApp::new();
    let mut native: u64 = 7;
    let id = manager
        .create_window_with_options(2, 1, "w".to_string(), None, None, false, true, true)
        .unwrap();
    manager.set_pixel_rgba(id, 0, 0, 0x12, 0x34, 0x56, 0x80);
    manager.set_pixel(id, 1, 0, 255, 0, 0);
    drain(&mut app, &mut manager, &mut native);
    assert_eq!(app.surface_data(7), Some(&[0u8; 8][..]));
    assert_eq!(app.surface_data(8), None);
    let actions = app.handle_event(&mut manager, WorkerEvent::RedrawRequested { window: 7 });
    assert_eq!(
        actions,
        vec![WindowAction::Present { window: 7, width: 2, height: 1, transparent: true }]
    );
    assert_eq!(
        app.surface_data(7),
        Some(&[0x12u8, 0x34, 0x56, 0x80, 0xFF, 0x00, 0x00, 0xFF][..])
    );
    assert!(!record_of(&manager, id).needs_redraw);
    assert_eq!(pixels_of(&manager, id), vec![0x80123456, 0xFFFF0000]);
}

#[test]
fn redraw_of_unknown_window_does_nothing() {
    let mut manager = WindowManager::new();
    let mut app = WindowManagerApp::new();
    let mut native: u64 = 7;
    let id = manager.create_window(2, 1, "w".to_string()).unwrap();
    drain(&mut app, &mut manager, &mut native);
    let actions = app.handle_event(&mut manager, WorkerEvent::RedrawRequested { window: 8 });
    assert!(actions.is_empty());
    assert!(record_of(&manager, id).needs_redraw);
    assert_eq!(app.surface_data(7), Some(&[0u8; 8][..]));
}

#[test]
fn dirty_windows_are_asked_to_redraw_on_every_wake() {
    let mut manager = WindowManager::new();
    let mut app = WindowManagerApp::new();
    let mut native: u64 = 1;
    let a = manager.create_window(1, 1, "a".to_string()).unwrap();
    let b = manager.create_window(1, 1, "b".to_string()).unwrap();
    let actions = drain(&mut app, &mut manager, &mut native);
    assert_eq!(actions.len(), 6);
    assert_eq!(actions[4], WindowAction::RequestRedraw { window: 1 });
    assert_eq!(actions[5], WindowAction::RequestRedraw { window: 2 });
    app.handle_event(&mut manager, WorkerEvent::RedrawRequested { window: 1 });
    let actions = drain(&mut app, &mut manager, &mut native);
    assert_eq!(actions, vec![WindowAction::RequestRedraw { window: 2 }]);
    app.handle_event(&mut manager, WorkerEvent::RedrawRequested { window: 2 });
    assert!(drain(&mut app, &mut manager, &mut native).is_empty());
    manager.set_pixel(a, 0, 0, 1, 1, 1);
    let actions = drain(&mut app, &mut manager, &mut native);
    assert_eq!(actions, vec![WindowAction::RequestRedraw { window: 1 }]);
    assert!(record_of(&manager, b).winit_id.is_some());
}

#[test]
fn resize_marks_the_window_dirty() {
    let mut manager = WindowManager::new();
    let mut app = WindowManagerApp::new();
    let mut native: u64 = 7;
    let id = manager.create_window(2, 2, "w".to_string()).unwrap();
    drain(&mut app, &mut manager, &mut native);
    app.handle_event(&mut manager, WorkerEvent::RedrawRequested { window: 7 });
    assert!(!record_of(&manager, id).needs_redraw);
    let before = pixels_of(&manager, id);
    assert!(app.handle_event(&mut manager, WorkerEvent::Resized { window: 8 }).is_empty());
    assert!(!record_of(&manager, id).needs_redraw);
    assert!(app.handle_event(&mut manager, WorkerEvent::Resized { window: 7 }).is_empty());
    assert!(record_of(&manager, id).needs_redraw);
    assert_eq!(pixels_of(&manager, id), before);
    assert_eq!(record_of(&manager, id).width, 2);
    assert_eq!(record_of(&manager, id).height, 2);
}

#[test]
fn other_events_change_nothing() {
    let mut manager = WindowManager::new();
    let mut app = WindowManagerApp::new();
    manager.create_window(2, 2, "w".to_string()).unwrap();
    assert!(app.handle_event(&mut manager, WorkerEvent::Other).is_empty());
    assert_eq!(manager.state.pending_commands.len(), 1);
    assert!(app.windows.is_empty());
    assert!(app.backlog.is_empty());
}

#[test]
fn report_of_a_window_nobody_asked_for_is_ignored() {
    let mut manager = WindowManager::new();
    let mut app = WindowManagerApp::new();
    manager.create_window(2, 2, "w".to_string()).unwrap();
    let actions = app.handle_event(&mut manager, WorkerEvent::WindowCreated { window: 9 });
    assert!(actions.is_empty());
    assert!(app.windows.is_empty());
    assert_eq!(manager.state.pending_commands.len(), 1);
}

#[test]
fn window_without_surface_is_reported() {
    let mut manager = WindowManager::new();
    let mut app = WindowManagerApp::new();
    let flat = manager.create_window(0, 4, "flat".to_string()).unwrap();
    let fine = manager.create_window(1, 1, "fine".to_string()).unwrap();
    let actions = app.handle_event(&mut manager, WorkerEvent::AboutToWait);
    assert!(matches!(actions[0], WindowAction::CreateWindow { id: 1, .. }));
    let actions = app.handle_event(&mut manager, WorkerEvent::WindowCreated { window: 11 });
    assert_eq!(actions.len(), 2);
    assert_eq!(actions[0], WindowAction::SurfaceFailed { id: flat, window: 11 });
    assert!(matches!(actions[1], WindowAction::CreateWindow { id: 2, .. }));
    assert!(app.windows.is_empty());
    assert_eq!(record_of(&manager, flat).winit_id, None);
    let actions = app.handle_event(&mut manager, WorkerEvent::WindowCreated { window: 12 });
    assert_eq!(
        actions,
        vec![
            WindowAction::RequestRedraw { window: 12 },
            WindowAction::RequestRedraw { window: 12 },
        ]
    );
    assert_eq!(record_of(&manager, fine).winit_id, Some(12));
    assert_eq!(app.surface_data(12), Some(&[0u8; 4][..]));
}

#[test]
fn too_wide_a_window_gets_no_surface() {
    let mut manager = WindowManager::new();
    let mut app = WindowManagerApp::new();
    let id = manager.create_window(536870912, 1, "wide".to_string()).unwrap();
    app.handle_event(&mut manager, WorkerEvent::AboutToWait);
    let actions = app.handle_event(&mut manager, WorkerEvent::WindowCreated { window: 3 });
    assert_eq!(actions, vec![WindowAction::SurfaceFailed { id, window: 3 }]);
    assert!(app.windows.is_empty());
}

#[test]
fn native_window_reported_twice_replaces_its_entry() {
    let mut manager = WindowManager::new();
    let mut app = WindowManagerApp::new();
    let a = manager.create_window(1, 1, "a".to_string()).unwrap();
    let b = manager.create_window(2, 2, "b".to_string()).unwrap();
    app.handle_event(&mut manager, WorkerEvent::AboutToWait);
    app.handle_event(&mut manager, WorkerEvent::WindowCreated { window: 5 });
    app.handle_event(&mut manager, WorkerEvent::WindowCreated { window: 5 });
    assert_eq!(app.windows.len(), 1);
    assert_eq!(app.windows[0].window, 5);
    assert_eq!(app.windows[0].state_id, b);
    assert_eq!(record_of(&manager, a).winit_id, Some(5));
    assert_eq!(record_of(&manager, b).winit_id, Some(5));
    assert_eq!(app.surface_data(5).unwrap().len(), 16);
}

#[test]
fn creation_for_a_forgotten_window_registers_it_again() {
    let mut manager = WindowManager::new();
    let mut app = WindowManagerApp::new();
    let id = manager
        .create_window_with_options(2, 1, "back".to_string(), Some(1), Some(2), true, true, false)
        .unwrap();
    app.handle_event(&mut manager, WorkerEvent::AboutToWait);
    manager.state.windows.remove(&id);
    assert!(!manager.window_exists(id));
    app.handle_event(&mut manager, WorkerEvent::WindowCreated { window: 4 });
    let record = record_of(&manager, id);
    assert_eq!(record.winit_id, Some(4));
    assert_eq!(record.pixel_buffer, vec![0u32; 2]);
    assert_eq!(record.title, "back");
    assert_eq!(record.x, Some(1));
    assert_eq!(record.y, Some(2));
    assert!(record.always_on_top);
    assert!(record.transparent);
    assert!(!record.decorations);
    assert!(record.needs_redraw);
}

#[test]
fn creation_for_a_window_never_issued_registers_nothing() {
    let mut first = WindowManager::new();
    let mut second = WindowManager::new();
    let mut app = WindowManagerApp::new();
    first.create_window(1, 1, "a".to_string()).unwrap();
    let id = first.create_window(1, 1, "b".to_string()).unwrap();
    app.handle_event(&mut first, WorkerEvent::AboutToWait);
    app.handle_event(&mut first, WorkerEvent::WindowCreated { window: 1 });
    let actions = app.handle_event(&mut second, WorkerEvent::WindowCreated { window: 2 });
    assert_eq!(
        actions,
        vec![WindowAction::RequestRedraw { window: 2 }]
    );
    assert!(!second.window_exists(id));
    assert_eq!(second.window_count(), 0);
    assert_eq!(app.windows.len(), 2);
}

#[test]
fn redraw_skips_a_surface_of_another_size() {
    let mut manager = WindowManager::new();
    let mut app = WindowManagerApp::new();
    let a = manager.create_window(1, 1, "a".to_string()).unwrap();
    let b = manager.create_window(2, 2, "b".to_string()).unwrap();
    app.handle_event(&mut manager, WorkerEvent::AboutToWait);
    app.handle_event(&mut manager, WorkerEvent::WindowCreated { window: 5 });
    app.handle_event(&mut manager, WorkerEvent::WindowCreated { window: 6 });
    app.windows[0].state_id = b;
    let actions = app.handle_event(&mut manager, WorkerEvent::RedrawRequested { window: 5 });
    assert!(actions.is_empty());
    assert!(record_of(&manager, b).needs_redraw);
    assert_eq!(app.surface_data(5), Some(&[0u8; 4][..]));
    assert!(record_of(&manager, a).needs_redraw);
}
