use wolf_engine::context::WindowContext;
use wolf_engine::dynamic::DynamicEvent;
use wolf_engine::window::{FullscreenMode, WindowContextEvent, WindowSettings};

#[test]
fn should_emit_window_created_events() {
    let mut context = WindowContext::new();
    let window_settings = WindowSettings::default().with_size((100, 100));
    let window = context.create_window(window_settings.clone());

    while let Some(event) = context.next_request() {
        if let DynamicEvent::Window(context_event) = event {
            match context_event {
                WindowContextEvent::WindowCreated(uuid, event_settings) => {
                    assert_eq!(uuid, window.id(), "Event is for the wrong window uuid");
                    assert_eq!(
                        event_settings, window_settings,
                        "The window settings do not match"
                    );
                    return;
                }
                _ => (),
            }
        }
    }

    panic!("The window created event was not emitted")
}

#[test]
fn should_bookkeep_window_state() {
    let mut context = WindowContext::new();

    assert_eq!(context.window_count(), 0);
    let a = context.create_window(WindowSettings::default());
    assert_eq!(context.window_count(), 1);
    let a_copy = a.clone_handle(&mut context);
    assert_eq!(
        context.window_count(),
        1,
        "Window clones should not change the window count"
    );

    let b = context.create_window(WindowSettings::default());
    assert_eq!(context.window_count(), 2);

    let c = context.create_window(WindowSettings::default());
    assert_eq!(context.window_count(), 3);

    a.release(&mut context);
    assert_eq!(
        context.window_count(),
        3,
        "Window should not be cleaned up until clone is dropped"
    );
    a_copy.release(&mut context);
    assert_eq!(
        context.window_count(),
        2,
        "Dropping last copy should clean up the window"
    );

    b.release(&mut context);
    assert_eq!(context.window_count(), 1);
    c.release(&mut context);
    assert_eq!(context.window_count(), 0);
}

#[test]
fn should_emit_window_closed_events() {
    let mut context = WindowContext::new();
    let window = context.create_window(WindowSettings::default());
    let window_clone = window.clone_handle(&mut context);
    let window_id = window.id();

    window.release(&mut context);

    while let Some(event) = context.next_request() {
        if let DynamicEvent::Window(context_event) = event {
            match context_event {
                WindowContextEvent::WindowClosed(_uuid) => {
                    panic!("Window closed events should only be emitted when the last clone is dropped")
                }
                _ => (),
            }
        }
    }

    window_clone.release(&mut context);
    while let Some(event) = context.next_request() {
        if let DynamicEvent::Window(context_event) = event {
            match context_event {
                WindowContextEvent::WindowClosed(uuid) => {
                    assert_eq!(uuid, window_id, "Event is for the wrong window uuid");
                    return;
                }
                _ => (),
            }
        }
    }

    panic!("The window close event was not emitted.");
}

#[test]
fn should_resize_windows() {
    let mut context = WindowContext::new();
    let window = context.create_window(WindowSettings::default().with_size((100, 100)));

    context.process_event(WindowContextEvent::WindowResized(window.id(), 800, 600));

    assert_eq!(window.size(&context), (800, 600), "The window was not resized");
}

#[test]
fn should_emit_rename_events() {
    let mut context = WindowContext::new();
    let window = context.create_window(WindowSettings::default());

    window.set_title(&mut context, "I can haz rename?");

    while let Some(event) = context.next_request() {
        if let DynamicEvent::Window(context_event) = event {
            match context_event {
                WindowContextEvent::WindowRenameRequested(uuid, new_title) => {
                    assert_eq!(uuid, window.id(), "Event is for the wrong window uuid");
                    assert_eq!(
                        new_title, "I can haz rename?",
                        "the new title is not correct"
                    );
                    return;
                }
                _ => (),
            }
        }
    }

    panic!("NO! Window cannot haz rename. :( \nThe rename event was not emitted.");
}

#[test]
fn should_emit_redraw_requested_events() {
    let mut context = WindowContext::new();
    let window = context.create_window(WindowSettings::default());

    window.redraw(&mut context);

    while let Some(event) = context.next_request() {
        if let DynamicEvent::Window(context_event) = event {
            match context_event {
                WindowContextEvent::WindowRedrawRequested(uuid) => {
                    assert_eq!(uuid, window.id(), "Event is for the wrong window uuid");
                    return;
                }
                _ => (),
            }
        }
    }

    panic!("The redraw event was not emitted.");
}

#[test]
fn should_emit_exited_events() {
    let mut context = WindowContext::new();

    context.exit();

    while let Some(event) = context.next_request() {
        if let DynamicEvent::Window(context_event) = event {
            match context_event {
                WindowContextEvent::Exited => {
                    return;
                }
                _ => (),
            }
        }
    }

    panic!("The exited event was not emitted.");
}

#[test]
fn should_close_only_the_released_window() {
    let mut context = WindowContext::new();
    let a = context.create_window(WindowSettings::default());
    let b = context.create_window(WindowSettings::default());
    let a_id = a.id();
    let b_id = b.id();
    assert_eq!(context.window_count(), 2);

    a.release(&mut context);
    assert_eq!(context.window_count(), 1);

    let mut closed = Vec::new();
    while let Some(event) = context.next_request() {
        if let DynamicEvent::Window(WindowContextEvent::WindowClosed(uuid)) = event {
            closed.push(uuid);
        }
    }
    assert_eq!(closed.len(), 1, "exactly one close notification is emitted");
    assert_eq!(closed[0], a_id);
    assert_ne!(closed[0], b_id, "no close notification for the live window");
    assert!(context.has_window(b_id));
}

#[test]
fn should_report_requested_size_before_materialization() {
    let mut context = WindowContext::new();
    let window = context.create_window(WindowSettings::default().with_size((123, 456)));

    assert_eq!(window.size(&context), (123, 456));
    assert!(
        window.handle(&context).is_none(),
        "no platform handle exists before the backend materializes the window"
    );
}

#[test]
fn should_show_backend_resizes_through_every_handle() {
    let mut context = WindowContext::new();
    let a = context.create_window(WindowSettings::default().with_size((100, 100)));
    let a_second = a.clone_handle(&mut context);

    context.process_event(WindowContextEvent::WindowResized(a.id(), 800, 600));

    assert_eq!(a_second.size(&context), (800, 600));
    assert_eq!(a.size(&context), (800, 600));
}

#[test]
fn should_drop_stale_resize_observations() {
    let mut context = WindowContext::new();
    let window = context.create_window(WindowSettings::default());
    let gone = window.id();
    window.release(&mut context);

    context.process_event(WindowContextEvent::WindowResized(gone, 800, 600));

    assert_eq!(context.window_count(), 0);
    assert!(!context.has_window(gone));
}

#[test]
fn should_store_fullscreen_requests_as_events() {
    let mut context = WindowContext::new();
    let window = context.create_window(WindowSettings::default());

    window.set_fullscreen_mode(&mut context, Some(FullscreenMode::Borderless));

    while let Some(event) = context.next_request() {
        if let DynamicEvent::Window(WindowContextEvent::WindowFullscreenRequested(uuid, mode)) =
            event
        {
            assert_eq!(uuid, window.id());
            assert_eq!(mode, Some(FullscreenMode::Borderless));
            return;
        }
    }
    panic!("The fullscreen request was not emitted.");
}
