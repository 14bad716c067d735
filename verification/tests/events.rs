use rust_mc::event::{Event, EventSystem};

fn join(name: &str, id: u128) -> Event {
    Event::PlayerJoin((name.to_string(), id))
}

#[test]
fn emit_without_listener_gives_event_back() {
    let events = EventSystem::new();
    assert_eq!(events.listener_count(), 0);
    match events.emit(join("steve", 1)) {
        Err(Event::PlayerJoin((name, id))) => {
            assert_eq!(name, "steve");
            assert_eq!(id, 1);
        },
        Ok(_) => panic!("sent without a listener"),
    }
}

#[test]
fn listeners_receive_emitted_events() {
    let events = EventSystem::new();
    let mut first = events.register_listener();
    let mut second = events.register_listener();
    assert_eq!(events.listener_count(), 2);
    assert_eq!(events.emit(join("alex", 2)).ok(), Some(2));
    match first.try_recv() {
        Ok(Event::PlayerJoin((name, id))) => assert_eq!((name.as_str(), id), ("alex", 2)),
        other => panic!("unexpected {:?}", other),
    }
    assert!(second.try_recv().is_ok());
    drop(second);
    assert_eq!(events.listener_count(), 1);
}

#[test]
fn cloned_event_is_equal() {
    let e = join("a", 3);
    match e.clone() {
        Event::PlayerJoin((n, i)) => assert_eq!((n.as_str(), i), ("a", 3)),
    }
}

#[test]
fn emit_delivers_to_a_listener_and_channel_keeps_capacity() {
    let events = EventSystem::new();
    let mut listener = events.register_listener();
    for i in 0..256u128 {
        assert_eq!(events.emit(join("p", i)).ok(), Some(1));
    }
    // The channel holds 256 events: all of them are still there.
    for i in 0..256u128 {
        match listener.try_recv() {
            Ok(Event::PlayerJoin((_, id))) => assert_eq!(id, i),
            other => panic!("unexpected {:?}", other),
        }
    }
}

#[test]
fn registered_listener_receives_from_this_system() {
    let events = EventSystem::new();
    let other = EventSystem::new();
    let mut listener = events.register_listener();
    let _other_listener = other.register_listener();
    assert_eq!(other.emit(join("x", 9)).ok(), Some(1));
    assert!(listener.try_recv().is_err());
    assert_eq!(events.emit(join("y", 10)).ok(), Some(1));
    match listener.try_recv() {
        Ok(Event::PlayerJoin((n, i))) => assert_eq!((n.as_str(), i), ("y", 10)),
        other => panic!("unexpected {:?}", other),
    }
}
