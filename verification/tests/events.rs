use render_core::control::{MouseButton, ToControl};
use render_core::handle_events::{handle_events, InputEvent, Key};

#[test]
fn close_request_terminates() {
    let events = vec![InputEvent::Other, InputEvent::CloseRequested];
    let (terminate, intents) = handle_events(&events);
    assert!(terminate);
    assert!(intents.is_empty());
}

#[test]
fn escape_key_terminates() {
    let events = vec![InputEvent::KeyDown(Key::Escape)];
    let (terminate, intents) = handle_events(&events);
    assert!(terminate);
    assert!(intents.is_empty());
}

#[test]
fn releasing_escape_does_not_terminate() {
    let events = vec![InputEvent::KeyUp(Key::Escape)];
    let (terminate, _) = handle_events(&events);
    assert!(!terminate);
}

#[test]
fn ordinary_events_do_not_terminate() {
    let events = vec![
        InputEvent::KeyDown(Key::Left),
        InputEvent::MouseMoved(3, 4),
        InputEvent::Other,
    ];
    let (terminate, _) = handle_events(&events);
    assert!(!terminate);
}

#[test]
fn directional_keys_become_intents_with_pressed_state() {
    let events = vec![
        InputEvent::KeyDown(Key::Left),
        InputEvent::KeyUp(Key::Left),
        InputEvent::KeyDown(Key::Right),
        InputEvent::KeyDown(Key::Up),
        InputEvent::KeyUp(Key::Down),
    ];
    let (_, intents) = handle_events(&events);
    assert_eq!(
        intents,
        vec![
            ToControl::Left(true),
            ToControl::Left(false),
            ToControl::Right(true),
            ToControl::Up(true),
            ToControl::Down(false),
        ]
    );
}

#[test]
fn pointer_and_resize_events_are_forwarded() {
    let events = vec![
        InputEvent::MouseMoved(10, 20),
        InputEvent::MouseInput(true, MouseButton::Left),
        InputEvent::Resized(800, 600),
    ];
    let (terminate, intents) = handle_events(&events);
    assert!(!terminate);
    assert_eq!(
        intents,
        vec![
            ToControl::MouseMoved(10, 20),
            ToControl::MouseInput(true, MouseButton::Left),
            ToControl::Resize(800, 600),
        ]
    );
}

#[test]
fn ignored_events_produce_no_intent() {
    let events = vec![
        InputEvent::Other,
        InputEvent::KeyDown(Key::Other(42)),
        InputEvent::KeyUp(Key::Other(42)),
        InputEvent::KeyDown(Key::Escape),
    ];
    let (_, intents) = handle_events(&events);
    assert!(intents.is_empty());
}

#[test]
fn intents_keep_event_order() {
    let events = vec![
        InputEvent::Resized(1, 2),
        InputEvent::Other,
        InputEvent::KeyDown(Key::Down),
        InputEvent::MouseMoved(5, 6),
    ];
    let (_, intents) = handle_events(&events);
    assert_eq!(
        intents,
        vec![
            ToControl::Resize(1, 2),
            ToControl::Down(true),
            ToControl::MouseMoved(5, 6),
        ]
    );
}
