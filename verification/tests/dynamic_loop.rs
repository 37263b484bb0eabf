use wolf_engine::dynamic::{DynamicEvent, EventLoop};

#[test]
fn event_loop_should_run_and_quit() {
    let mut event_loop = EventLoop::new();
    let mut updates = 0;

    while let Some(event) = event_loop.next_event() {
        if matches!(event, DynamicEvent::EventsCleared) {
            if updates == 3 {
                event_loop.send_event(DynamicEvent::Quit).unwrap();
            } else {
                updates += 1;
            }
        }
    }

    assert!(event_loop.has_quit());
    assert_eq!(updates, 3);
}

#[test]
fn should_emit_events_cleared_when_event_queue_is_empty() {
    let mut event_loop = EventLoop::new();

    assert!(
        matches!(event_loop.next_event().unwrap(), DynamicEvent::EventsCleared),
        "The event-loop did not emit the expected EventsCleared event."
    );
}

#[test]
fn should_not_infinite_loop_when_quit_is_emitted_while_handing_a_quit_event() {
    let mut event_loop = EventLoop::new();
    while let Some(event) = event_loop.next_event() {
        if matches!(event, DynamicEvent::Quit) || matches!(event, DynamicEvent::EventsCleared) {
            event_loop.send_event(DynamicEvent::Quit).unwrap();
        }
    }
}

#[test]
fn should_return_none_forever_after_quit() {
    let mut event_loop = EventLoop::new();
    event_loop.send_event(DynamicEvent::Quit).unwrap();

    assert!(matches!(event_loop.next_event(), Some(DynamicEvent::Quit)));
    assert!(event_loop.next_event().is_none());

    event_loop
        .send_event(DynamicEvent::EventsCleared)
        .unwrap();
    assert!(
        event_loop.next_event().is_none(),
        "events sent after the quit must never come out"
    );
}

#[test]
fn should_deliver_queued_events_before_the_frame_boundary() {
    let mut event_loop = EventLoop::new();
    event_loop.send_event(DynamicEvent::EventsCleared).unwrap();
    event_loop.send_event(DynamicEvent::Quit).unwrap();

    assert!(matches!(
        event_loop.next_event(),
        Some(DynamicEvent::EventsCleared)
    ));
    assert!(matches!(event_loop.next_event(), Some(DynamicEvent::Quit)));
    assert!(event_loop.next_event().is_none());
}
