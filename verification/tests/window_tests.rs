use overlay::color::Color;
use overlay::types::{
    DecodedImage, OverlayError, OverlayEvent, WindowConfig, WindowLevel, WindowPosition,
    WindowSize,
};
use overlay::window::{
    create_overlay_window, dispatch_event, platform_failure, poll_event_loop, run_event_loop,
    CallbackHandle, FrameController, Lifecycle, PlatformEvent, SurfaceInfo, TargetedEvent,
    WindowCommand, WindowController, WindowState,
};

const INK: Color = Color { r: 9, g: 8, b: 7, a: 6 };

/// A state whose surface of `width` by `height` exists as window `id`.
fn ready(id: u64, width: u32, height: u32) -> WindowState {
    let mut state = WindowState::new();
    let plan = state.begin_creation(WindowConfig::default()).unwrap();
    let size = WindowSize { width, height };
    let position = Err("not supported".to_string());
    state.finish_creation(plan, Ok(SurfaceInfo { window_id: id, size, position })).unwrap();
    state
}

fn pixels(state: &WindowState) -> Vec<u8> {
    state.frame().chunks(4).map(|p| p[0]).collect()
}

#[test]
fn new_state_is_empty() {
    let state = WindowState::new();
    assert_eq!(state.lifecycle(), Lifecycle::Uninitialized);
    assert!(state.window().is_none());
    assert!(state.pending().is_none());
    assert!(state.frame().is_empty());
    assert_eq!((state.width(), state.height()), (0, 0));
    assert!(state.render_when_occluded());
    assert_eq!(state.callback(), None);
    assert!(state.commands().is_empty());
    assert!(!WindowController::new().is_occluded(&state));
}

#[test]
fn plan_takes_the_configuration_and_the_defaults() {
    let config = WindowConfig {
        width: Some(320),
        x: Some(5),
        title: Some("Panel".to_string()),
        always_on_top: Some(false),
        decorations: Some(true),
        minimized: Some(true),
        ..WindowConfig::default()
    };
    let plan = create_overlay_window(&config);
    assert_eq!((plan.width, plan.height), (320, 600));
    assert_eq!(plan.title, "Panel");
    // a position needs both coordinates
    assert_eq!(plan.position, None);
    assert_eq!(plan.level, WindowLevel::Normal);
    assert!(plan.decorations && plan.minimized && plan.transparent);

    let config = WindowConfig { x: Some(5), y: Some(-6), ..WindowConfig::default() };
    assert_eq!(create_overlay_window(&config).position, Some(WindowPosition { x: 5, y: -6 }));
}

#[test]
fn staged_values_win_over_the_configuration() {
    let mut state = WindowState::new();
    let controller = WindowController::new();
    controller.set_size(&mut state, 10, 20).unwrap();
    controller.set_title(&mut state, "Staged").unwrap();
    controller.set_render_when_occluded(&mut state, false);
    let config = WindowConfig {
        width: Some(1),
        height: Some(2),
        title: Some("Configured".to_string()),
        fullscreen: Some(true),
        always_on_top: Some(false),
        render_when_occluded: Some(true),
        ..WindowConfig::default()
    };
    let plan = state.begin_creation(config).unwrap();
    assert_eq!((plan.width, plan.height), (10, 20));
    assert_eq!(plan.title, "Staged");
    assert!(plan.fullscreen);
    assert_eq!(plan.level, WindowLevel::Normal);
    assert!(!plan.render_when_occluded);
    assert_eq!((state.width(), state.height()), (10, 20));
    assert_eq!(state.lifecycle(), Lifecycle::Creating);
    // while the window is built nothing can be staged or done
    assert_eq!(controller.set_size(&mut state, 1, 1), Err(OverlayError::NotInitialized));
    assert_eq!(controller.show(&mut state), Err(OverlayError::NotInitialized));
}

#[test]
fn minimized_plan_minimizes_after_creation() {
    let mut state = WindowState::new();
    let config = WindowConfig { minimized: Some(true), ..WindowConfig::default() };
    let plan = state.begin_creation(config).unwrap();
    let created = SurfaceInfo {
        window_id: 3,
        size: WindowSize { width: 2, height: 1 },
        position: Ok(WindowPosition { x: 40, y: 50 }),
    };
    state.finish_creation(plan, Ok(created)).unwrap();
    assert_eq!(state.take_commands(), vec![WindowCommand::SetMinimized(true)]);
    let window = state.window().unwrap();
    assert!(window.minimized);
    assert_eq!(window.id, 3);
    assert_eq!(window.position, Ok(WindowPosition { x: 40, y: 50 }));
    assert_eq!(state.frame(), &[0u8; 8][..]);
}

#[test]
fn window_operations_update_the_record_and_queue_commands() {
    let mut state = ready(1, 2, 2);
    let controller = WindowController::new();
    controller.hide_window(&mut state).unwrap();
    assert_eq!(controller.is_visible(&state), Ok(false));
    controller.show(&mut state).unwrap();
    assert_eq!(controller.is_visible(&state), Ok(true));
    controller.minimize(&mut state).unwrap();
    controller.maximize(&mut state).unwrap();
    controller.restore(&mut state).unwrap();
    assert_eq!(controller.is_fullscreen(&state), Ok(false));
    controller.set_fullscreen(&mut state, true).unwrap();
    assert_eq!(controller.is_fullscreen(&state), Ok(true));
    controller.set_position(&mut state, -3, 4).unwrap();
    assert_eq!(controller.get_position(&state), Ok(WindowPosition { x: -3, y: 4 }));
    controller.set_size(&mut state, 30, 40).unwrap();
    assert_eq!(controller.get_size(&state), Ok(WindowSize { width: 30, height: 40 }));
    controller.set_title(&mut state, "Name").unwrap();
    controller.set_window_level(&mut state, WindowLevel::Normal).unwrap();
    controller.request_redraw(&mut state).unwrap();
    controller.set_cursor_visible(&mut state, false).unwrap();
    controller.set_ignore_mouse_events(&mut state, true).unwrap();
    // the record follows when the platform has agreed
    assert!(!state.window().unwrap().click_through);
    assert_eq!(controller.finish_ignore_mouse_events(&mut state, true, Ok(())), Ok(()));
    let window = state.window().unwrap();
    assert!(!window.minimized && !window.maximized);
    assert_eq!(window.title, "Name");
    assert_eq!(window.level, WindowLevel::Normal);
    assert!(!window.cursor_visible && window.click_through);
    assert_eq!(
        state.take_commands(),
        vec![
            WindowCommand::SetVisible(false),
            WindowCommand::SetVisible(true),
            WindowCommand::SetMinimized(true),
            WindowCommand::SetMaximized(true),
            WindowCommand::SetMinimized(false),
            WindowCommand::SetMaximized(false),
            WindowCommand::SetFullscreen(true),
            WindowCommand::SetPosition(WindowPosition { x: -3, y: 4 }),
            WindowCommand::SetSize(WindowSize { width: 30, height: 40 }),
            WindowCommand::SetTitle,
            WindowCommand::SetWindowLevel(WindowLevel::Normal),
            WindowCommand::RequestRedraw,
            WindowCommand::SetCursorVisible(false),
            WindowCommand::SetCursorHittest(false),
        ]
    );
    assert!(state.commands().is_empty());
    // the frame keeps its size until the platform reports the resize
    assert_eq!((state.width(), state.height()), (2, 2));
}

#[test]
fn unknown_position_is_a_platform_failure() {
    let state = ready(1, 2, 2);
    assert_eq!(
        WindowController::new().get_position(&state),
        Err(OverlayError::PlatformFailure(
            "Failed to get position: not supported".to_string()
        ))
    );
}

#[test]
fn operations_without_a_default_fail_before_creation() {
    let mut state = WindowState::new();
    let window = WindowController::new();
    let frame = FrameController::new();
    let refused = Err(OverlayError::NotInitialized);
    assert_eq!(window.minimize(&mut state), refused);
    assert_eq!(window.maximize(&mut state), refused);
    assert_eq!(window.restore(&mut state), refused);
    assert_eq!(window.set_fullscreen(&mut state, true), refused);
    assert_eq!(window.is_fullscreen(&state).map(|_| ()), refused);
    assert_eq!(window.get_position(&state).map(|_| ()), refused);
    assert_eq!(window.set_cursor_visible(&mut state, true), refused);
    assert_eq!(window.set_ignore_mouse_events(&mut state, true), refused);
    assert_eq!(window.finish_ignore_mouse_events(&mut state, true, Ok(())), refused);
    assert_eq!(frame.draw_line(&mut state, 0, 0, 1, 1, &INK), refused);
    assert_eq!(frame.draw_circle(&mut state, 0, 0, 1, &INK), refused);
    assert_eq!(frame.draw_pixel(&mut state, 0, 0, &INK), refused);
    assert_eq!(frame.get_frame_buffer(&state).map(|_| ()), refused);
    assert_eq!(frame.render(&mut state), refused);
    assert_eq!(frame.resize(&mut state, 1, 1), refused);
    let one = WindowSize { width: 1, height: 1 };
    assert_eq!(frame.finish_resize(&mut state, one, Ok(())), refused);
    assert_eq!(frame.finish_resize(&mut state, one, Err("lost".to_string())), refused);
    let image = DecodedImage { data: vec![0u8; 4], width: 1, height: 1 };
    assert_eq!(frame.draw_image(&mut state, 0, 0, &image), refused);
    assert!(state.commands().is_empty());
    assert!(state.pending().is_none());
}

#[test]
fn frame_operations_draw_and_request_a_redraw() {
    let mut state = ready(1, 4, 3);
    let frame = FrameController::new();
    frame.draw_pixel(&mut state, 3, 2, &INK).unwrap();
    assert_eq!(pixels(&state), vec![0, 0, 0, 0, 0, 0, 0, 0, 0, 0, 0, 9]);
    frame.draw_line(&mut state, 0, 0, 3, 0, &INK).unwrap();
    assert_eq!(pixels(&state), vec![9, 9, 9, 9, 0, 0, 0, 0, 0, 0, 0, 9]);
    frame.draw_rectangle(&mut state, 1, 1, 9, 1, &INK).unwrap();
    assert_eq!(pixels(&state), vec![9, 9, 9, 9, 0, 9, 9, 9, 0, 0, 0, 9]);
    frame.clear_frame(&mut state, &Color::new(1, 1, 1, 1)).unwrap();
    assert_eq!(pixels(&state), vec![1; 12]);
    frame.draw_circle(&mut state, 1, 1, 0, &INK).unwrap();
    assert_eq!(pixels(&state), vec![1, 1, 1, 1, 1, 9, 1, 1, 1, 1, 1, 1]);
    let image = DecodedImage { data: vec![5u8; 16], width: 2, height: 2 };
    frame.draw_image(&mut state, 3, 2, &image).unwrap();
    assert_eq!(pixels(&state), vec![1, 1, 1, 1, 1, 9, 1, 1, 1, 1, 1, 5]);
    assert_eq!(frame.get_frame_buffer(&state).unwrap(), state.frame().to_vec());
    assert_eq!(frame.get_frame_size(&state), Ok(vec![4, 3]));
    assert_eq!(state.take_commands(), vec![WindowCommand::RequestRedraw; 6]);
}

#[test]
fn pixel_outside_the_frame_is_an_invalid_argument() {
    let mut state = ready(1, 4, 3);
    let before = state.frame().to_vec();
    assert_eq!(
        FrameController::new().draw_pixel(&mut state, 0, 3, &INK),
        Err(OverlayError::InvalidArgument("Pixel position out of bounds".to_string()))
    );
    assert_eq!(state.frame(), &before[..]);
    assert!(state.commands().is_empty());
}

#[test]
fn resize_keeps_leading_bytes_and_zeroes_the_rest() {
    let mut state = ready(1, 2, 1);
    let frame = FrameController::new();
    frame.update_frame(&mut state, &[1, 2, 3, 4, 5, 6, 7, 8]).unwrap();
    state.take_commands();
    let size = WindowSize { width: 3, height: 1 };
    assert_eq!(frame.resize(&mut state, 3, 1), Ok(()));
    // the surface is asked; nothing changes before it has answered
    assert_eq!(state.take_commands(), vec![WindowCommand::ResizeSurface(size)]);
    assert_eq!(frame.get_frame_size(&state), Ok(vec![2, 1]));
    assert_eq!(state.frame(), &[1, 2, 3, 4, 5, 6, 7, 8][..]);
    assert_eq!(frame.finish_resize(&mut state, size, Ok(())), Ok(()));
    assert_eq!(state.frame(), &[1, 2, 3, 4, 5, 6, 7, 8, 0, 0, 0, 0][..]);
    assert_eq!(frame.get_frame_size(&state), Ok(vec![3, 1]));
    assert_eq!(state.take_commands(), vec![WindowCommand::RequestRedraw]);
    frame.resize(&mut state, 1, 1).unwrap();
    frame.finish_resize(&mut state, WindowSize { width: 1, height: 1 }, Ok(())).unwrap();
    assert_eq!(state.frame(), &[1, 2, 3, 4][..]);
    assert!(state.check_invariant());
    if usize::BITS == 64 {
        state.take_commands();
        let huge = WindowSize { width: u32::MAX, height: u32::MAX };
        let too_large = Err(OverlayError::PlatformFailure(
            "Failed to resize: frame size exceeds addressable memory".to_string(),
        ));
        assert_eq!(frame.resize(&mut state, u32::MAX, u32::MAX), too_large);
        assert_eq!(frame.finish_resize(&mut state, huge, Ok(())), too_large);
        assert_eq!(frame.get_frame_size(&state), Ok(vec![1, 1]));
        assert!(state.commands().is_empty());
    }
}

#[test]
fn failed_resize_changes_nothing() {
    let mut state = ready(1, 2, 1);
    let frame = FrameController::new();
    frame.update_frame(&mut state, &[1, 2, 3, 4, 5, 6, 7, 8]).unwrap();
    state.take_commands();
    // the backend refuses a width of zero
    let size = WindowSize { width: 0, height: 5 };
    assert_eq!(frame.resize(&mut state, 0, 5), Ok(()));
    assert_eq!(state.take_commands(), vec![WindowCommand::ResizeSurface(size)]);
    assert_eq!(
        frame.finish_resize(&mut state, size, Err("Texture width is invalid: 0".to_string())),
        Err(OverlayError::PlatformFailure(
            "Failed to resize: Texture width is invalid: 0".to_string()
        ))
    );
    assert_eq!(frame.get_frame_size(&state), Ok(vec![2, 1]));
    assert_eq!(state.frame(), &[1, 2, 3, 4, 5, 6, 7, 8][..]);
    assert!(state.commands().is_empty());
    assert!(state.check_invariant());
}

#[test]
fn refused_hit_testing_changes_nothing() {
    let mut state = ready(1, 1, 1);
    let window = WindowController::new();
    window.set_ignore_mouse_events(&mut state, true).unwrap();
    assert_eq!(state.take_commands(), vec![WindowCommand::SetCursorHittest(false)]);
    assert_eq!(
        window.finish_ignore_mouse_events(&mut state, true, Err("not supported".to_string())),
        Err(OverlayError::PlatformFailure("Failed to set hittest: not supported".to_string()))
    );
    assert!(!state.window().unwrap().click_through);
    assert!(state.commands().is_empty());
    assert_eq!(window.finish_ignore_mouse_events(&mut state, true, Ok(())), Ok(()));
    assert!(state.window().unwrap().click_through);
    assert_eq!(window.finish_ignore_mouse_events(&mut state, false, Ok(())), Ok(()));
    assert!(!state.window().unwrap().click_through);
}

#[test]
fn render_follows_the_occlusion_policy() {
    let mut state = ready(1, 1, 1);
    let frame = FrameController::new();
    let window = WindowController::new();
    frame.render(&mut state).unwrap();
    assert_eq!(state.take_commands(), vec![WindowCommand::Present]);
    state.handle_event(PlatformEvent::Occluded(true));
    assert!(window.is_occluded(&state));
    // occluded, and frames are presented while occluded
    frame.render(&mut state).unwrap();
    assert_eq!(state.take_commands(), vec![WindowCommand::Present]);
    window.set_render_when_occluded(&mut state, false);
    assert_eq!(frame.render(&mut state), Ok(()));
    assert!(state.take_commands().is_empty());
    assert!(!state.handle_event(PlatformEvent::RedrawRequested));
    assert!(state.take_commands().is_empty());
    state.handle_event(PlatformEvent::Occluded(false));
    state.handle_event(PlatformEvent::RedrawRequested);
    assert_eq!(state.take_commands(), vec![WindowCommand::Present]);
}

#[test]
fn events_reach_the_callback_once_each() {
    let mut state = ready(1, 1, 1);
    // without a callback nobody is told
    state.handle_event(PlatformEvent::Focused(true));
    assert!(state.take_commands().is_empty());
    WindowController::new().set_event_callback(&mut state, CallbackHandle { id: 5 });
    assert_eq!(state.callback(), Some(CallbackHandle { id: 5 }));
    let signals = [
        (PlatformEvent::Moved(WindowPosition { x: 1, y: 2 }), Some(OverlayEvent::Moved)),
        (PlatformEvent::Focused(true), Some(OverlayEvent::Focused)),
        (PlatformEvent::Focused(false), Some(OverlayEvent::Blurred)),
        (PlatformEvent::CursorEntered, Some(OverlayEvent::MouseEnter)),
        (PlatformEvent::CursorLeft, Some(OverlayEvent::MouseLeave)),
        (PlatformEvent::Occluded(true), Some(OverlayEvent::Minimized)),
        (PlatformEvent::Occluded(false), Some(OverlayEvent::Restored)),
        (PlatformEvent::MainEventsCleared, None),
        (PlatformEvent::Other, None),
    ];
    for (signal, event) in signals {
        assert!(!state.handle_event(signal));
        let told: Vec<WindowCommand> = event.into_iter().map(WindowCommand::Notify).collect();
        assert_eq!(state.take_commands(), told);
    }
    assert_eq!(
        WindowController::new().get_position(&state),
        Ok(WindowPosition { x: 1, y: 2 })
    );
}

#[test]
fn resize_event_updates_size_and_surface() {
    let mut state = ready(1, 1, 1);
    WindowController::new().set_event_callback(&mut state, CallbackHandle { id: 5 });
    FrameController::new().update_frame(&mut state, &[4, 3, 2, 1]).unwrap();
    state.take_commands();
    let size = WindowSize { width: 2, height: 2 };
    assert!(!state.handle_event(PlatformEvent::Resized(size)));
    assert_eq!(state.window().unwrap().size, size);
    assert_eq!(
        state.take_commands(),
        vec![WindowCommand::ResizeSurface(size), WindowCommand::Notify(OverlayEvent::Resized)]
    );
    // the frame follows when the surface has
    assert_eq!((state.width(), state.height()), (1, 1));
    FrameController::new().finish_resize(&mut state, size, Ok(())).unwrap();
    assert_eq!((state.width(), state.height()), (2, 2));
    assert_eq!(state.frame(), &[4, 3, 2, 1, 0, 0, 0, 0, 0, 0, 0, 0, 0, 0, 0, 0][..]);
    assert_eq!(state.take_commands(), vec![WindowCommand::RequestRedraw]);
}

#[test]
fn close_request_ends_the_loop_and_destruction_tears_down() {
    let mut state = ready(1, 1, 1);
    WindowController::new().set_event_callback(&mut state, CallbackHandle { id: 5 });
    assert!(state.handle_event(PlatformEvent::CloseRequested));
    assert_eq!(state.lifecycle(), Lifecycle::Closing);
    assert_eq!(
        state.take_commands(),
        vec![WindowCommand::Notify(OverlayEvent::CloseRequested), WindowCommand::ExitLoop]
    );
    // a closing window is told of events but not touched
    let size = WindowSize { width: 2, height: 2 };
    assert!(!state.handle_event(PlatformEvent::Resized(size)));
    assert_eq!((state.width(), state.height()), (1, 1));
    assert_eq!(state.take_commands(), vec![WindowCommand::Notify(OverlayEvent::Resized)]);
    assert!(!state.handle_event(PlatformEvent::RedrawRequested));
    assert!(state.take_commands().is_empty());
    assert!(!state.handle_event(PlatformEvent::Destroyed));
    assert_eq!(state.lifecycle(), Lifecycle::Closed);
    assert_eq!(state.take_commands(), vec![WindowCommand::Notify(OverlayEvent::Destroyed)]);
    // a closed window reacts to nothing
    assert!(!state.handle_event(PlatformEvent::CloseRequested));
    assert!(state.take_commands().is_empty());
}

#[test]
fn events_before_creation_are_ignored() {
    let mut state = WindowState::new();
    WindowController::new().set_event_callback(&mut state, CallbackHandle { id: 5 });
    assert!(!state.handle_event(PlatformEvent::CloseRequested));
    assert!(!state.handle_event(PlatformEvent::Focused(true)));
    assert_eq!(state.lifecycle(), Lifecycle::Uninitialized);
    assert!(state.commands().is_empty());
}

#[test]
fn dispatch_finds_the_first_window_with_the_id() {
    let mut windows = vec![WindowState::new(), ready(7, 1, 1), ready(8, 1, 1), ready(7, 1, 1)];
    for state in windows.iter_mut() {
        WindowController::new().set_event_callback(state, CallbackHandle { id: 1 });
    }
    assert!(!dispatch_event(&mut windows, 7, PlatformEvent::Focused(true)));
    assert_eq!(windows[1].take_commands(), vec![WindowCommand::Notify(OverlayEvent::Focused)]);
    assert!(windows[0].commands().is_empty());
    assert!(windows[2].commands().is_empty());
    assert!(windows[3].commands().is_empty());
    assert!(dispatch_event(&mut windows, 8, PlatformEvent::CloseRequested));
    assert_eq!(windows[2].lifecycle(), Lifecycle::Closing);
    assert_eq!(windows[1].lifecycle(), Lifecycle::Ready);
    // no window has the id
    assert!(!dispatch_event(&mut windows, 9, PlatformEvent::CloseRequested));
    assert!(!dispatch_event(&mut Vec::new(), 9, PlatformEvent::CloseRequested));
}

fn to(window_id: u64, event: PlatformEvent) -> TargetedEvent {
    TargetedEvent { window_id, event }
}

#[test]
fn event_loop_stops_at_the_first_close_request() {
    let mut windows = vec![ready(1, 1, 1), ready(2, 1, 1)];
    let events = [
        to(1, PlatformEvent::RedrawRequested),
        to(2, PlatformEvent::Occluded(true)),
        to(2, PlatformEvent::CloseRequested),
        to(1, PlatformEvent::CloseRequested),
    ];
    assert_eq!(run_event_loop(&mut windows, &events), 3);
    assert_eq!(windows[0].lifecycle(), Lifecycle::Ready);
    assert_eq!(windows[1].lifecycle(), Lifecycle::Closing);
    assert_eq!(windows[0].take_commands(), vec![WindowCommand::Present]);
    assert_eq!(windows[1].take_commands(), vec![WindowCommand::ExitLoop]);
    // without a close request every signal is taken
    assert_eq!(run_event_loop(&mut windows, &events[..2]), 2);
    assert_eq!(run_event_loop(&mut windows, &[]), 0);
}

#[test]
fn poll_reports_whether_to_exit() {
    let mut windows = vec![ready(1, 1, 1)];
    assert!(!poll_event_loop(&mut windows, &[to(1, PlatformEvent::RedrawRequested)]));
    assert!(!poll_event_loop(&mut windows, &[]));
    assert!(!poll_event_loop(&mut windows, &[to(5, PlatformEvent::Destroyed)]));
    assert_eq!(windows[0].lifecycle(), Lifecycle::Ready);
    let events = [
        to(1, PlatformEvent::Occluded(true)),
        to(1, PlatformEvent::CloseRequested),
        to(1, PlatformEvent::Focused(false)),
    ];
    assert!(poll_event_loop(&mut windows, &events));
    assert_eq!(windows[0].lifecycle(), Lifecycle::Closing);
    assert!(WindowController::new().is_occluded(&windows[0]));
    assert!(!poll_event_loop(&mut windows, &[to(1, PlatformEvent::Destroyed)]));
    assert_eq!(windows[0].lifecycle(), Lifecycle::Closed);
}

#[test]
fn poll_exits_on_a_close_request_for_any_window() {
    // a close request for a window that no state holds
    let mut windows = vec![ready(1, 1, 1)];
    WindowController::new().set_event_callback(&mut windows[0], CallbackHandle { id: 5 });
    assert!(poll_event_loop(&mut windows, &[to(5, PlatformEvent::CloseRequested)]));
    assert_eq!(windows[0].lifecycle(), Lifecycle::Ready);
    assert!(windows[0].commands().is_empty());
    assert!(poll_event_loop(&mut Vec::new(), &[to(5, PlatformEvent::CloseRequested)]));
    // the running loop ignores it
    assert_eq!(run_event_loop(&mut windows, &[to(5, PlatformEvent::CloseRequested)]), 1);
    assert!(!dispatch_event(&mut windows, 5, PlatformEvent::CloseRequested));
    assert_eq!(windows[0].lifecycle(), Lifecycle::Ready);
    // a window that a state holds closes and its callback is told
    let events = [to(5, PlatformEvent::Focused(true)), to(1, PlatformEvent::CloseRequested)];
    assert!(poll_event_loop(&mut windows, &events));
    assert_eq!(windows[0].lifecycle(), Lifecycle::Closing);
    assert_eq!(
        windows[0].take_commands(),
        vec![WindowCommand::Notify(OverlayEvent::CloseRequested), WindowCommand::ExitLoop]
    );
}

#[test]
fn platform_failures_carry_their_detail() {
    assert_eq!(
        platform_failure("Failed to render", "surface lost"),
        OverlayError::PlatformFailure("Failed to render: surface lost".to_string())
    );
}
