use wolf_engine::event_loop::{init, BackendAction, Event, NativeWindowEvent, WindowEvent};
use wolf_engine::input::{Input, Key, KeyCode};
use wolf_engine::window::{WindowError, WindowHandle, WindowId, WindowSettings};

#[test]
fn should_emit_started_exactly_once() {
    let mut event_loop = init().build();

    assert_eq!(event_loop.on_resumed(), Some(Event::Started));
    assert_eq!(
        event_loop.on_resumed(),
        None,
        "a second platform resume emits nothing"
    );
}

#[test]
fn should_emit_one_events_cleared_per_tick() {
    let mut event_loop = init().build();

    let (events, actions) = event_loop.on_tick();
    assert_eq!(events, vec![Event::EventsCleared]);
    assert!(actions.is_empty());

    let (events, _) = event_loop.on_tick();
    assert_eq!(events, vec![Event::EventsCleared]);
}

#[test]
fn should_hand_queued_requests_to_the_backend_in_order() {
    let mut event_loop = init().build();
    let settings = WindowSettings::default().with_title("A");
    let window = event_loop.context_mut().create_window(settings.clone());
    window.redraw(event_loop.context_mut());

    let (events, actions) = event_loop.on_tick();

    assert_eq!(events, vec![Event::EventsCleared]);
    assert_eq!(
        actions,
        vec![
            BackendAction::CreateWindow(window.id(), settings),
            BackendAction::RedrawWindow(window.id()),
        ]
    );
}

#[test]
fn should_exit_exactly_once_and_stay_terminal() {
    let mut event_loop = init().build();
    assert_eq!(event_loop.on_resumed(), Some(Event::Started));

    event_loop.context_mut().exit();
    event_loop.context_mut().exit();

    let (events, actions) = event_loop.on_tick();
    assert_eq!(events, vec![Event::Exited]);
    assert_eq!(actions, vec![BackendAction::Exit]);

    let (events, actions) = event_loop.on_tick();
    assert!(events.is_empty(), "an exited loop emits nothing");
    assert!(actions.is_empty());

    assert_eq!(event_loop.on_resumed(), None);
    assert_eq!(
        event_loop.on_input(Input::KeyReleased {
            key: Key { scancode: 1, keycode: Some(KeyCode::Escape) },
        }),
        None
    );

    event_loop.context_mut().exit();
    let (events, actions) = event_loop.on_tick();
    assert!(
        events.is_empty() && actions.is_empty(),
        "an exit requested after the exit is a silent no-op"
    );
}

#[test]
fn should_report_materialization_results() {
    let mut event_loop = init().build();
    let window = event_loop
        .context_mut()
        .create_window(WindowSettings::default());
    let id = window.id();
    event_loop.on_tick();

    let handle = WindowHandle::new(7);
    let event = event_loop.notify_window_ready(id, Ok(handle));
    assert_eq!(event, Some(Event::WindowEvent(id, WindowEvent::Created(Ok(())))));
    assert_eq!(window.handle(event_loop.context()), Some(handle));
}

#[test]
fn should_report_materialization_failures() {
    let mut event_loop = init().build();
    let window = event_loop
        .context_mut()
        .create_window(WindowSettings::default());
    let id = window.id();
    event_loop.on_tick();

    let error = WindowError::UnsupportedError("no display".to_string());
    let event = event_loop.notify_window_ready(id, Err(error.clone()));
    assert_eq!(
        event,
        Some(Event::WindowEvent(id, WindowEvent::Created(Err(error))))
    );
    assert!(
        window.handle(event_loop.context()).is_none(),
        "a failed materialization records no handle"
    );
}

#[test]
fn should_translate_window_callbacks() {
    let mut event_loop = init().build();
    let window = event_loop
        .context_mut()
        .create_window(WindowSettings::default().with_size((100, 100)));
    let id = window.id();

    let event = event_loop.on_window_event(id, NativeWindowEvent::Resized(800, 600));
    assert_eq!(event, Some(Event::WindowEvent(id, WindowEvent::Resized(800, 600))));
    assert_eq!(window.size(event_loop.context()), (800, 600));

    let event = event_loop.on_window_event(id, NativeWindowEvent::CloseRequested);
    assert_eq!(event, Some(Event::WindowEvent(id, WindowEvent::Closed)));

    let event = event_loop.on_window_event(id, NativeWindowEvent::RedrawRequested);
    assert_eq!(event, Some(Event::WindowEvent(id, WindowEvent::RedrawRequested)));
}

#[test]
fn should_drop_callbacks_for_unknown_windows() {
    let mut event_loop = init().build();
    let stale = WindowId { bits: 42 };

    let event = event_loop.on_window_event(stale, NativeWindowEvent::Resized(800, 600));
    assert_eq!(event, None, "a callback for a window already gone is dropped");
}

#[test]
fn should_forward_input_events() {
    let mut event_loop = init().build();
    let input = Input::KeyPressed {
        key: Key { scancode: 30, keycode: Some(KeyCode::A) },
        is_repeat: false,
    };

    assert_eq!(event_loop.on_input(input), Some(Event::Input(input)));
}
