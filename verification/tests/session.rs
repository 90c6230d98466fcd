use std::ops::ControlFlow;
use std::task::Context;

use async_lsp::frame::{write_frame, HeaderReader};
use async_lsp::json::JsonValue;
use async_lsp::main_loop::{finish, Action, Found, RequestFuture, Source};
use async_lsp::router::{Router, RouterFuture};
use async_lsp::run::{Phase, Run};
use async_lsp::server::{LifecycleLayer, ResponseFuture};
use async_lsp::socket::PeerSocketRequestFuture;
use async_lsp::{
    AnyEvent, AnyNotification, AnyRequest, AnyResponse, ClientSocket, Error, ErrorCode, LspService,
    MainLoop, Message, Poll, RequestId, ResponseError, Result,
};
use futures::future::{BoxFuture, FutureExt};

type Outcome = core::result::Result<JsonValue, ResponseError>;
type Pending = BoxFuture<'static, Outcome>;
type ReqHandler<S> = Box<dyn Fn(&mut S, AnyRequest) -> Pending + Send>;
type NotifHandler<S> = Box<dyn Fn(&mut S, AnyNotification) -> ControlFlow<Result<()>> + Send>;
type EventHandler<S> = Box<dyn Fn(&mut S, AnyEvent) -> ControlFlow<Result<()>> + Send>;
type BoxRouter<S> = Router<S, ReqHandler<S>, NotifHandler<S>, EventHandler<S>>;

struct ServerState {
    client: ClientSocket,
}

struct ClientState {
    messages: Vec<String>,
}

fn request_handler<S>(
    handler: impl Fn(&mut S, AnyRequest) -> Pending + Send + 'static,
) -> ReqHandler<S> {
    Box::new(handler)
}

fn notif_handler<S>(
    handler: impl Fn(&mut S, AnyNotification) -> ControlFlow<Result<()>> + Send + 'static,
) -> NotifHandler<S> {
    Box::new(handler)
}

fn routed(fut: RouterFuture<Pending>) -> Pending {
    match fut {
        RouterFuture::Handled(fut) => fut,
        RouterFuture::Unhandled(error) => futures::future::ready(Err(error)).boxed(),
    }
}

fn through_lifecycle(fut: ResponseFuture<RouterFuture<Pending>>) -> Pending {
    match fut {
        ResponseFuture::Forwarded(fut) => routed(fut),
        ResponseFuture::Refused(error) => futures::future::ready(Err(error)).boxed(),
    }
}

fn cx() -> Context<'static> {
    Context::from_waker(futures::task::noop_waker_ref())
}

/// The bytes of a message on the channel.
fn write(msg: Message) -> Vec<u8> {
    let mut object = serde_json::Map::new();
    object.insert("jsonrpc".to_owned(), "2.0".into());
    let id = match msg {
        Message::Request(req) => {
            object.insert("method".to_owned(), req.method.into());
            object.insert("params".to_owned(), req.params);
            Some(req.id)
        }
        Message::Notification(notif) => {
            object.insert("method".to_owned(), notif.method.into());
            object.insert("params".to_owned(), notif.params);
            None
        }
        Message::Response(response) => {
            match response.error {
                Some(error) => {
                    let mut fields = serde_json::Map::new();
                    fields.insert("code".to_owned(), error.code.0.into());
                    fields.insert("message".to_owned(), error.message.into());
                    object.insert("error".to_owned(), fields.into());
                }
                None => {
                    object.insert("result".to_owned(), response.result.unwrap_or_default());
                }
            }
            Some(response.id)
        }
    };
    match id {
        Some(RequestId::Number(n)) => object.insert("id".to_owned(), n.into()),
        Some(RequestId::String(s)) => object.insert("id".to_owned(), s.into()),
        None => None,
    };
    write_frame(JsonValue::from(object).to_string().as_bytes())
}

fn decode(content: &[u8]) -> Message {
    let value: JsonValue = serde_json::from_slice(content).unwrap();
    assert_eq!(value["jsonrpc"], "2.0");
    let id = value.get("id").map(|id| RequestId::Number(id.as_i64().unwrap() as i32));
    let method = value.get("method").map(|method| method.as_str().unwrap().to_owned());
    let params = value.get("params").cloned().unwrap_or_default();
    match (id, method) {
        (Some(id), Some(method)) => Message::Request(AnyRequest { id, method, params }),
        (None, Some(method)) => Message::Notification(AnyNotification { method, params }),
        (Some(id), None) => Message::Response(AnyResponse {
            id,
            result: value.get("result").cloned(),
            error: value.get("error").map(|error| {
                let code = ErrorCode(error["code"].as_i64().unwrap() as i32);
                ResponseError::new(code, error["message"].as_str().unwrap())
            }),
        }),
        (None, None) => panic!("this is no message"),
    }
}

/// Reads the next message off the channel, line by line and then the content.
fn read(channel: &mut Vec<u8>) -> Result<Message> {
    let mut header = HeaderReader::new();
    let content_len = loop {
        let end = channel.iter().position(|byte| *byte == b'\n').map_or(channel.len(), |i| i + 1);
        let line: Vec<u8> = channel.drain(..end).collect();
        if let Some(content_len) = header.feed(std::str::from_utf8(&line).unwrap())? {
            break content_len;
        }
    };
    let content: Vec<u8> = channel.drain(..content_len).collect();
    Ok(decode(&content))
}

/// One side of a conversation, with the requests that it processes and the bytes it has not read.
struct Side<S: LspService> {
    run: Run<S>,
    drive: fn(S::Future) -> Pending,
    tasks: Vec<(RequestId, Pending)>,
    channel: Vec<u8>,
    closed: bool,
}

impl<S: LspService<Response = JsonValue, Error = ResponseError>> Side<S> {
    fn new(main: MainLoop<S>, drive: fn(S::Future) -> Pending) -> Self {
        let run = Run::new(main);
        Side { run, drive, tasks: Vec::new(), channel: Vec::new(), closed: false }
    }

    fn completed(&mut self) -> Option<Found> {
        for i in 0..self.tasks.len() {
            if let std::task::Poll::Ready(outcome) = self.tasks[i].1.poll_unpin(&mut cx()) {
                let (id, _) = self.tasks.remove(i);
                let response = RequestFuture { fut: (), id }.response(Poll::Ready(outcome));
                return Some(Found::Completed(response.unwrap()));
            }
        }
        None
    }

    fn look(&mut self) -> Option<Found> {
        let mut tried = 0;
        while let Some(source) = self.run.source_at(tried) {
            tried += 1;
            let found = match source {
                Source::Flush | Source::Waiting => None,
                Source::Task => self.completed(),
                Source::Event => self.run.main.rx.try_recv().ok().map(Found::Asked),
                Source::Incoming if self.channel.is_empty() && !self.closed => None,
                Source::Incoming => Some(Found::Read(read(&mut self.channel))),
            };
            if found.is_some() {
                return found;
            }
        }
        None
    }

    /// Makes one turn, with what it sends to the other side, or none.
    fn turn(&mut self) -> Option<core::result::Result<Vec<u8>, Result<()>>> {
        let found = self.look()?;
        Some(match self.run.turn(Some(found), &mut cx()) {
            None | Some(Action::GoOn) => Ok(Vec::new()),
            Some(Action::Send(msg)) => Ok(write(msg)),
            Some(Action::Spawn(RequestFuture { fut, id })) => {
                self.tasks.push((id, (self.drive)(fut)));
                Ok(Vec::new())
            }
            Some(Action::Stop(ret)) => Err(finish(ret, Ok(()))),
            Some(Action::Fail(error)) => Err(Err(error)),
            Some(Action::Wait(_)) => panic!("a run keeps the request that waits"),
        })
    }
}

/// Lets both sides work until there is nothing left to do, or the first one ends.
fn converse<A, B>(first: &mut Side<A>, second: &mut Side<B>) -> Option<Result<()>>
where
    A: LspService<Response = JsonValue, Error = ResponseError>,
    B: LspService<Response = JsonValue, Error = ResponseError>,
{
    loop {
        match first.turn() {
            Some(Ok(bytes)) => second.channel.extend(bytes),
            Some(Err(ret)) => {
                second.closed = true;
                return Some(ret);
            }
            None => match second.turn() {
                Some(Ok(bytes)) => first.channel.extend(bytes),
                Some(Err(_)) => panic!("the second side does not end"),
                None => return None,
            },
        }
    }
}

fn outcome(fut: &mut PeerSocketRequestFuture) -> Result<JsonValue> {
    match fut.poll(&mut cx()) {
        Poll::Ready(outcome) => outcome,
        Poll::Pending => panic!("the response has come"),
    }
}

#[test]
fn mock_server_and_client() {
    // The server with handlers.
    let (server_main, client) = MainLoop::new_server(|client| {
        let mut router = BoxRouter::new(ServerState { client });
        router
            .request(
                "initialize".to_owned(),
                request_handler(|_, _| futures::future::ready(Ok("capabilities".into())).boxed()),
            )
            .notification("initialized".to_owned(), notif_handler(|_, _| ControlFlow::Continue(())))
            .request(
                "shutdown".to_owned(),
                request_handler(|_, _| futures::future::ready(Ok(JsonValue::Null)).boxed()),
            )
            .notification("exit".to_owned(), notif_handler(|_, _| ControlFlow::Break(Ok(()))))
            .request(
                "textDocument/hover".to_owned(),
                request_handler(|state: &mut ServerState, _| {
                    // Interact with the client, then respond.
                    let mut text = state
                        .client
                        .request("workspace/configuration".to_owned(), "mylsp.hoverText".into());
                    futures::future::poll_fn(move |cx| match text.poll(cx) {
                        Poll::Ready(text) => std::task::Poll::Ready(Ok(text.unwrap_or_default())),
                        Poll::Pending => std::task::Poll::Pending,
                    })
                    .boxed()
                }),
            );
        LifecycleLayer::default().layer(router)
    });

    // The client with handlers.
    let (client_main, server) = MainLoop::new_client(|_server| {
        let mut router = BoxRouter::new(ClientState { messages: Vec::new() });
        router
            .notification(
                "window/showMessage".to_owned(),
                notif_handler(|state: &mut ClientState, notif| {
                    state.messages.push(notif.params.as_str().unwrap().to_owned());
                    ControlFlow::Continue(())
                }),
            )
            .request(
                "workspace/configuration".to_owned(),
                request_handler(|_, req| {
                    assert_eq!(req.params, "mylsp.hoverText");
                    futures::future::ready(Ok("Some hover text".into())).boxed()
                }),
            );
        router
    });

    let mut server_side = Side::new(server_main, through_lifecycle);
    let mut client_side = Side::new(client_main, routed);

    // Before the initialization, requests are refused.
    let mut early = server.request("textDocument/hover".to_owned(), "file:///foo".into());
    assert!(converse(&mut server_side, &mut client_side).is_none());
    assert!(matches!(outcome(&mut early), Err(Error::Response(error))
        if error.code.0 == ErrorCode::SERVER_NOT_INITIALIZED));

    let mut initialize = server.request("initialize".to_owned(), JsonValue::Null);
    assert!(converse(&mut server_side, &mut client_side).is_none());
    assert_eq!(outcome(&mut initialize).unwrap(), "capabilities");
    server.notify("initialized".to_owned(), JsonValue::Null).unwrap();

    // After the initialization sequence, do some real requests.
    let mut hover = server.request("textDocument/hover".to_owned(), "file:///foo".into());
    assert!(converse(&mut server_side, &mut client_side).is_none());
    assert_eq!(outcome(&mut hover).unwrap(), "Some hover text");

    // In contrast, send notifications to the client on behalf of the server.
    client.notify("window/showMessage".to_owned(), "Some message".into()).unwrap();
    assert!(converse(&mut server_side, &mut client_side).is_none());
    assert_eq!(client_side.run.main.get_ref().state.messages, vec!["Some message"]);

    // Shut the server down.
    let mut shutdown = server.request("shutdown".to_owned(), JsonValue::Null);
    assert!(converse(&mut server_side, &mut client_side).is_none());
    assert_eq!(outcome(&mut shutdown).unwrap(), JsonValue::Null);
    server.notify("exit".to_owned(), JsonValue::Null).unwrap();

    // Now the server main loop should stop normally.
    assert!(matches!(converse(&mut server_side, &mut client_side), Some(Ok(()))));
    assert!(matches!(server_side.run.phase, Phase::Ended));
    assert!(server_side.turn().is_none());
    // And the client main loop should stop due to EOF.
    let end = client_side.turn();
    assert!(matches!(end, Some(Err(Err(Error::Eof)))), "should fail due to EOF");
    assert!(matches!(client_side.run.phase, Phase::Ended));
}

/// A service that is ready when it is told, and notes what it is handed.
struct Slow {
    ready: bool,
    seen: Vec<String>,
}

impl LspService for Slow {
    type Response = JsonValue;
    type Error = ResponseError;
    type Future = ();

    fn poll_ready(&mut self, _: &mut Context<'_>) -> Poll<core::result::Result<(), ResponseError>> {
        if self.ready {
            Poll::Ready(Ok(()))
        } else {
            Poll::Pending
        }
    }

    fn call(&mut self, req: AnyRequest) {
        self.seen.push(req.method);
    }

    fn notify(&mut self, notif: AnyNotification) -> ControlFlow<Result<()>> {
        self.seen.push(notif.method);
        ControlFlow::Break(Ok(()))
    }

    fn emit(&mut self, _: AnyEvent) -> ControlFlow<Result<()>> {
        ControlFlow::Continue(())
    }
}

fn request(method: &str) -> Found {
    Found::Read(Ok(Message::Request(AnyRequest {
        id: RequestId::Number(1),
        method: method.into(),
        params: JsonValue::Null,
    })))
}

#[test]
fn messages_are_dispatched_in_the_order_they_are_read() {
    let (main, _socket) = MainLoop::new_server(|_| Slow { ready: false, seen: Vec::new() });
    let mut run = Run::new(main);
    assert_eq!(run.source_at(0), Some(Source::Flush));
    assert_eq!(run.source_at(3), Some(Source::Incoming));
    assert!(run.turn(Some(request("first")), &mut cx()).is_none());
    assert!(matches!(&run.phase, Phase::Waiting(req) if req.method == "first"));

    // While the request waits, it is tried again, and the last message is flushed.
    assert_eq!(run.source_at(0), Some(Source::Waiting));
    assert_eq!(run.source_at(1), Some(Source::Flush));
    assert_eq!(run.source_at(2), None);
    assert!(run.turn(None, &mut cx()).is_none());
    assert!(matches!(run.turn(Some(Found::Flushed(Ok(()))), &mut cx()), Some(Action::GoOn)));
    assert!(matches!(run.phase, Phase::Waiting(_)));
    assert!(run.main.service.seen.is_empty());

    run.main.get_mut().ready = true;
    assert!(matches!(run.turn(None, &mut cx()), Some(Action::Spawn(_))));
    assert!(matches!(run.phase, Phase::Running));
    assert!(matches!(run.turn(Some(request("second")), &mut cx()), Some(Action::Spawn(_))));
    let last = AnyNotification { method: "last".into(), params: JsonValue::Null };
    let found = Found::Read(Ok(Message::Notification(last)));
    assert!(matches!(run.turn(Some(found), &mut cx()), Some(Action::Stop(Ok(())))));
    assert!(matches!(run.phase, Phase::Ended));
    assert_eq!(run.source_at(0), None);
    assert_eq!(run.main.service.seen, vec!["first", "second", "last"]);
}

#[test]
fn failure_while_a_request_waits_ends_the_run() {
    let (main, _socket) = MainLoop::new_server(|_| Slow { ready: false, seen: Vec::new() });
    let mut run = Run::new(main);
    assert!(run.turn(Some(request("first")), &mut cx()).is_none());
    let failed = run.turn(Some(Found::Flushed(Err(Error::Eof))), &mut cx());
    assert!(matches!(failed, Some(Action::Fail(Error::Eof))));
    assert!(matches!(run.phase, Phase::Ended));
}

fn response(id: i32, result: &str) -> Found {
    Found::Read(Ok(Message::Response(AnyResponse {
        id: RequestId::Number(id),
        result: Some(result.into()),
        error: None,
    })))
}

#[test]
fn response_reaches_the_requester_over_other_turns() {
    let (main, socket) = MainLoop::new_server(|_| Slow { ready: true, seen: Vec::new() });
    let mut run = Run::new(main);
    let mut first = socket.request("first".into(), JsonValue::Null);
    let mut second = socket.request("second".into(), JsonValue::Null);
    let mut sent = Vec::new();
    for _ in 0..2 {
        let event = run.main.rx.try_recv().ok().map(Found::Asked);
        match run.turn(event, &mut cx()) {
            Some(Action::Send(Message::Request(req))) => sent.push((req.id, req.method)),
            _ => panic!("the request is sent"),
        }
    }
    assert_eq!(sent[0], (RequestId::Number(0), "first".to_owned()));
    assert_eq!(sent[1], (RequestId::Number(1), "second".to_owned()));

    assert!(matches!(run.turn(Some(request("other")), &mut cx()), Some(Action::Spawn(_))));
    assert!(matches!(run.turn(Some(response(1, "b")), &mut cx()), Some(Action::GoOn)));
    assert!(matches!(run.turn(Some(response(7, "c")), &mut cx()), Some(Action::GoOn)));
    assert!(matches!(first.poll(&mut cx()), Poll::Pending));
    assert!(matches!(run.turn(Some(response(0, "a")), &mut cx()), Some(Action::GoOn)));
    // Another response under the same identifier is ignored.
    assert!(matches!(run.turn(Some(response(0, "d")), &mut cx()), Some(Action::GoOn)));
    assert!(run.main.outgoing.is_empty());
    assert!(matches!(first.poll(&mut cx()), Poll::Ready(Ok(value)) if value == "a"));
    assert!(matches!(second.poll(&mut cx()), Poll::Ready(Ok(value)) if value == "b"));
}
