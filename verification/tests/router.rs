use std::ops::ControlFlow;
use std::task::Context;

use async_lsp::json::JsonValue;
use async_lsp::router::{
    event_value, handle_event, handle_notification, handle_request, notification_params,
    request_params, Router, RouterFuture,
};
use async_lsp::{
    AnyEvent, AnyNotification, AnyRequest, Error, ErrorCode, LspService, Poll, RequestId, Result,
};

type State = Vec<String>;
type ReqHandler = fn(&mut State, AnyRequest) -> i64;
type NotifHandler = fn(&mut State, AnyNotification) -> ControlFlow<Result<()>>;
type EventHandler = fn(&mut State, AnyEvent) -> ControlFlow<Result<()>>;
type TestRouter = Router<State, ReqHandler, NotifHandler, EventHandler>;

fn request(method: &str) -> AnyRequest {
    AnyRequest { id: RequestId::Number(1), method: method.into(), params: 5.into() }
}

fn notification(method: &str) -> AnyNotification {
    AnyNotification { method: method.into(), params: JsonValue::Null }
}

fn length(state: &mut State, req: AnyRequest) -> i64 {
    state.push(req.method);
    req.params.as_i64().unwrap()
}

fn negative(_: &mut State, _: AnyRequest) -> i64 {
    -1
}

fn note(state: &mut State, notif: AnyNotification) -> ControlFlow<Result<()>> {
    state.push(notif.method);
    ControlFlow::Continue(())
}

fn stop(_: &mut State, _: AnyNotification) -> ControlFlow<Result<()>> {
    ControlFlow::Break(Ok(()))
}

fn on_u8(state: &mut State, event: AnyEvent) -> ControlFlow<Result<()>> {
    state.push(event_value::<u8>(event).to_string());
    ControlFlow::Continue(())
}

fn on_other(_: &mut State, _: AnyEvent) -> ControlFlow<Result<()>> {
    ControlFlow::Break(Ok(()))
}

fn routing_error(flow: ControlFlow<Result<()>>) -> String {
    match flow {
        ControlFlow::Break(Err(Error::Routing(text))) => text,
        _ => panic!("the loop does not end with a routing error"),
    }
}

#[test]
fn router_without_handlers() {
    let mut cx = Context::from_waker(futures::task::noop_waker_ref());
    let mut router = TestRouter::default();
    assert!(matches!(router.poll_ready(&mut cx), Poll::Ready(Ok(()))));
    match router.call(request("a/b")) {
        RouterFuture::Unhandled(error) => {
            assert_eq!(error.code.0, ErrorCode::METHOD_NOT_FOUND);
            assert_eq!(error.message, "No such method a/b");
        }
        RouterFuture::Handled(_) => panic!("there is no handler"),
    }
    assert!(matches!(router.notify(notification("$/x")), ControlFlow::Continue(())));
    assert_eq!(routing_error(router.notify(notification("$x"))), "Unhandled notification: $x");
    assert_eq!(routing_error(router.notify(notification("")) ), "Unhandled notification: ");
    assert_eq!(
        routing_error(router.emit(AnyEvent::new(1u8, "u\"8"))),
        "Unhandled event: AnyEvent { type_name: \"u\\\"8\", .. }"
    );
}

#[test]
fn messages_go_to_their_handlers() {
    let mut router = TestRouter::new(Vec::new());
    router
        .request("a".to_owned(), negative)
        .request("a".to_owned(), length)
        .request("b".to_owned(), negative)
        .notification("n".to_owned(), note)
        .event::<u8>(on_u8);
    assert!(matches!(router.call(request("a")), RouterFuture::Handled(5)));
    assert!(matches!(router.call(request("b")), RouterFuture::Handled(-1)));
    assert!(matches!(router.call(request("n")), RouterFuture::Unhandled(_)));
    assert!(matches!(router.notify(notification("n")), ControlFlow::Continue(())));
    assert!(matches!(router.emit(AnyEvent::new(8u8, "u8")), ControlFlow::Continue(())));
    assert!(matches!(router.emit(AnyEvent::new(8i8, "i8")), ControlFlow::Break(Err(_))));
    assert_eq!(router.state, vec!["a", "n", "8"]);
}

#[test]
fn catch_all_handlers_get_the_rest() {
    let mut router = TestRouter::new(Vec::new());
    router
        .request("a".to_owned(), length)
        .unhandled_request(negative)
        .notification("n".to_owned(), note)
        .unhandled_notification(stop)
        .event::<u8>(on_u8)
        .unhandled_event(on_other);
    assert!(matches!(router.call(request("a")), RouterFuture::Handled(5)));
    assert!(matches!(router.call(request("z")), RouterFuture::Handled(-1)));
    assert!(matches!(router.notify(notification("n")), ControlFlow::Continue(())));
    assert!(matches!(router.notify(notification("$/z")), ControlFlow::Break(Ok(()))));
    assert!(matches!(router.emit(AnyEvent::new(8u8, "u8")), ControlFlow::Continue(())));
    assert!(matches!(router.emit(AnyEvent::new("z", "&str")), ControlFlow::Break(Ok(()))));
}

#[test]
fn event_handlers_are_replaced_by_type() {
    let mut router = TestRouter::new(Vec::new());
    router.event::<u8>(on_other).event::<String>(on_other).event::<u8>(on_u8);
    assert!(matches!(router.emit(AnyEvent::new(8u8, "u8")), ControlFlow::Continue(())));
    assert!(matches!(
        router.emit(AnyEvent::new(String::new(), "String")),
        ControlFlow::Break(Ok(()))
    ));
    assert_eq!(router.event_handlers.len(), 2);
}

#[test]
fn parameters_that_cannot_be_read() {
    let read = || serde_json::from_value::<u8>(JsonValue::Null);
    assert_eq!(request_params(serde_json::from_value::<u8>(7.into())).unwrap(), 7);
    let error = request_params(read()).unwrap_err();
    assert_eq!(error.code.0, ErrorCode::INVALID_PARAMS);
    assert_eq!(
        error.message,
        format!("Failed to deserialize parameters: {}", read().unwrap_err())
    );
    assert!(matches!(notification_params(serde_json::from_value::<u8>(7.into())), Ok(7)));
    assert!(matches!(
        notification_params(read()),
        Err(ControlFlow::Break(Err(Error::Deserialize(_))))
    ));
}

#[test]
fn handlers_of_parameters_run_on_what_was_read() {
    let read = |value: JsonValue| serde_json::from_value::<u8>(value);
    let mut state = State::new();

    let double = |state: &mut State, params: u8| {
        state.push("request".to_owned());
        params * 2
    };
    assert!(matches!(
        handle_request(&double, &mut state, read(7.into())),
        RouterFuture::Handled(14)
    ));
    assert_eq!(state, vec!["request"]);
    match handle_request(&double, &mut state, read(JsonValue::Null)) {
        RouterFuture::Unhandled(error) => {
            assert_eq!(error.code.0, ErrorCode::INVALID_PARAMS);
            assert_eq!(
                error.message,
                format!(
                    "Failed to deserialize parameters: {}",
                    read(JsonValue::Null).unwrap_err()
                )
            );
        }
        RouterFuture::Handled(_) => panic!("the parameters cannot be read"),
    }
    assert_eq!(state, vec!["request"]);

    let note = |state: &mut State, params: u8| {
        state.push(params.to_string());
        ControlFlow::Continue(())
    };
    assert!(matches!(
        handle_notification(&note, &mut state, read(8.into())),
        ControlFlow::Continue(())
    ));
    assert_eq!(state, vec!["request", "8"]);
    assert!(matches!(
        handle_notification(&note, &mut state, read("8".into())),
        ControlFlow::Break(Err(Error::Deserialize(_)))
    ));
    assert_eq!(state, vec!["request", "8"]);

    let event = AnyEvent::new(9u8, "u8");
    assert!(matches!(handle_event(&note, &mut state, event), ControlFlow::Continue(())));
    assert_eq!(state, vec!["request", "8", "9"]);
}
