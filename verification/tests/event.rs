use async_lsp::AnyEvent;

#[derive(Debug, Clone, PartialEq, Eq)]
struct MyEvent<T>(T);

#[test]
fn any_event() {
    let event = MyEvent("hello".to_owned());
    let mut any_event = AnyEvent::new(event.clone(), "event::MyEvent<String>");
    assert!(any_event.type_label().contains("MyEvent"));

    assert!(!any_event.is::<String>());
    assert!(!any_event.is::<MyEvent<i32>>());
    assert!(any_event.is::<MyEvent<String>>());

    assert_eq!(any_event.downcast_ref::<i32>(), None);
    assert_eq!(any_event.downcast_ref::<MyEvent<String>>(), Some(&event));

    assert_eq!(any_event.downcast_mut::<MyEvent<i32>>(), None);
    any_event.downcast_mut::<MyEvent<String>>().unwrap().0 += " world";

    let any_event = any_event.downcast::<()>().unwrap_err();
    match any_event.downcast::<MyEvent<String>>() {
        Ok(inner) => assert_eq!(inner.0, "hello world"),
        Err(_) => panic!("the event is of this type"),
    }
}

#[test]
fn event_type_and_debug_text() {
    let event = AnyEvent::new(7u8, "u8");
    assert_eq!(event.inner_type_id(), std::any::TypeId::of::<u8>());
    assert_ne!(event.inner_type_id(), std::any::TypeId::of::<i8>());
    assert_eq!(event.debug(), "AnyEvent { type_name: \"u8\", .. }");
}
