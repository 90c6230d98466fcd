//! Stop the main loop when the Language Client process aborted unexpectedly.
//!
//! *Only applies to Language Servers.*
//!
//! Typically, the Language Client should send an `exit` notification to inform the Language Server
//! to exit. In case it unexpectedly aborted without the notification, and the communication channel
//! is left open somehow (eg. a FIFO or UNIX domain socket), the Language Server would wait
//! indefinitely, wasting system resources.
//!
//! It is encouraged by the Language Server Protocol that,
//! > If the parent process (`processId`) is not alive then the server should exit (see exit
//! > notification) its process.
//!
//! And this middleware does exactly this monitor mechanism. Waiting for a process is left to the
//! program around the library; which process is waited for, and what follows, is decided here.
use std::ops::ControlFlow;
use std::task::Context;

use vstd::prelude::*;

use crate::error::{Error, Result};
use crate::event::{is_id_of, AnyEvent};
use crate::message::{AnyNotification, AnyRequest};
use crate::server::INITIALIZE;
use crate::service::{LspService, Poll};
use crate::socket::{ClientSocket, MainLoopEvent};
use crate::text::str_eq;

verus! {

/// The event that the client process exited.
#[derive(Debug, Clone, Copy)]
pub struct ClientProcessExited;

/// The number of the error that a process does not exist: that of
/// [`rustix::io::Errno::SRCH`], which depends on the system.
#[verifier::external_body]
fn no_such_process() -> (code: i32) {
    rustix::io::Errno::SRCH.raw_os_error()
}

/// An error that has this number, if any, tells that the process does not exist.
pub closed spec fn tells_exit(raw_os_error: Option<i32>, yes: bool) -> bool {
    exists|code: i32| #[trigger]
        call_ensures(no_such_process, (), code) && yes == (raw_os_error == Some(code))
}

/// Whether an error that has this number, if any, tells that the process does not exist.
pub fn already_exited(raw_os_error: Option<i32>) -> (yes: bool)
    ensures
        tells_exit(raw_os_error, yes),
        raw_os_error is None ==> !yes,
{
    let no_such = no_such_process;
    let code: i32 = no_such();
    match raw_os_error {
        Some(raw) => raw == code,
        None => false,
    }
}

/// The event tells that the client exited.
pub open spec fn tells_of_exit(event: AnyEvent) -> bool {
    &&& event.carries(ClientProcessExited)
    &&& is_id_of::<ClientProcessExited>(event.inner_id())
}

/// Makes the event that the client exited.
fn exit_event() -> (event: AnyEvent)
    ensures
        tells_of_exit(event),
{
    AnyEvent::new(ClientProcessExited, "async_lsp::client_monitor::ClientProcessExited")
}

/// The service of the main loop was told, through its socket, that the client exited.
pub open spec fn reported(client: ClientSocket) -> bool {
    exists|event: AnyEvent, result: Result<()>|
        {
            &&& tells_of_exit(event)
            &&& #[trigger] client.0.sends(MainLoopEvent::Any(event), result)
        }
}

/// Tells the service of the main loop, through its socket, that the client exited. It does not
/// matter if the main loop has stopped.
pub fn report_exit(client: &ClientSocket)
    ensures
        reported(*client),
{
    let _ = client.0.send(MainLoopEvent::Any(exit_event()));
}

/// What to do when the process of the client was opened, or could not be.
#[derive(Debug, Clone, Copy, PartialEq, Eq, Structural)]
pub enum Next {
    /// Wait until the process exits.
    Wait,
    /// The process has exited.
    Exited,
    /// The process cannot be waited for.
    Fail,
}

/// Given the number of the error with which the process could not be opened, `next` is what to do.
/// The outer `None` stands for a process that was opened, and the inner one for an error without a
/// number.
pub open spec fn follows(failed: Option<Option<i32>>, next: Next) -> bool {
    match failed {
        None => next == Next::Wait,
        Some(raw_os_error) => exists|exited: bool| #[trigger]
            tells_exit(raw_os_error, exited) && next == if exited {
                Next::Exited
            } else {
                Next::Fail
            },
    }
}

/// Decides what to do, given the error with which the process could not be opened, if any.
pub fn after_open(failed: Option<Option<i32>>) -> (next: Next)
    ensures
        follows(failed, next),
{
    match failed {
        None => Next::Wait,
        Some(raw_os_error) => {
            let exited = already_exited(raw_os_error);
            if exited {
                Next::Exited
            } else {
                Next::Fail
            }
        },
    }
}

/// The middleware stopping the main loop when the Language Client process aborted unexpectedly.
///
/// See the documentation of the module for details.
pub struct ClientProcessMonitor<S> {
    /// The inner service.
    pub service: S,
    /// The socket through which the exit of the client is reported.
    pub client: ClientSocket,
}

impl<S> ClientProcessMonitor<S> {
    /// Creates the middleware with the socket through which the exit of the client is reported.
    pub fn new(service: S, client: ClientSocket) -> (monitor: Self)
        ensures
            monitor.service == service,
            monitor.client == client,
    {
        ClientProcessMonitor { service, client }
    }

    /// The process to be opened and waited for when a request comes: that of the client, as the
    /// parameters of an `initialize` request tell, where they could be read.
    pub fn to_watch(&self, req: &AnyRequest, process_id: Option<i32>) -> (watched: Option<i32>)
        ensures
            watched == if req.method@ == INITIALIZE@ {
                process_id
            } else {
                None
            },
    {
        if str_eq(req.method.as_str(), INITIALIZE) {
            process_id
        } else {
            None
        }
    }

    /// Decides what to do, given the error with which the process could not be opened, if any.
    /// Beside it stands what is to be sent through the socket at once: if the process has exited
    /// already, the event that it did, and else nothing.
    pub fn opened(&self, failed: Option<Option<i32>>) -> (decided: (Next, Option<MainLoopEvent>))
        ensures
            follows(failed, decided.0),
            decided.0 == Next::Exited <==> decided.1 is Some,
            decided.1 matches Some(report) ==> (report matches MainLoopEvent::Any(event)
                && tells_of_exit(event)),
    {
        let next = after_open(failed);
        if next == Next::Exited {
            (next, Some(MainLoopEvent::Any(exit_event())))
        } else {
            (next, None)
        }
    }
}

impl<S: LspService> LspService for ClientProcessMonitor<S> {
    type Response = S::Response;

    type Error = S::Error;

    type Future = S::Future;

    open spec fn can_poll(self) -> bool {
        self.service.can_poll()
    }

    open spec fn can_call(self, req: AnyRequest) -> bool {
        self.service.can_call(req)
    }

    open spec fn can_notify(self, notif: AnyNotification) -> bool {
        self.service.can_notify(notif)
    }

    open spec fn can_emit(self, event: AnyEvent) -> bool {
        is_id_of::<ClientProcessExited>(event.inner_id()) || self.service.can_emit(event)
    }

    open spec fn polls(
        pre: Self,
        post: Self,
        ready: Poll<core::result::Result<(), S::Error>>,
    ) -> bool {
        &&& S::polls(pre.service, post.service, ready)
        &&& post.client == pre.client
    }

    open spec fn calls(pre: Self, req: AnyRequest, post: Self, fut: S::Future) -> bool {
        &&& S::calls(pre.service, req, post.service, fut)
        &&& post.client == pre.client
    }

    open spec fn notifies(
        pre: Self,
        notif: AnyNotification,
        post: Self,
        flow: ControlFlow<Result<()>>,
    ) -> bool {
        &&& S::notifies(pre.service, notif, post.service, flow)
        &&& post.client == pre.client
    }

    open spec fn emits(
        pre: Self,
        event: AnyEvent,
        post: Self,
        flow: ControlFlow<Result<()>>,
    ) -> bool {
        &&& post.client == pre.client
        &&& if is_id_of::<ClientProcessExited>(event.inner_id()) {
            &&& flow matches ControlFlow::Break(Err(Error::Protocol(text)))
            &&& text@ == "Client process exited"@
            &&& post.service == pre.service
        } else {
            S::emits(pre.service, event, post.service, flow)
        }
    }

    fn poll_ready(&mut self, cx: &mut Context<'_>) -> (ready: Poll<
        core::result::Result<(), S::Error>,
    >) {
        self.service.poll_ready(cx)
    }

    fn call(&mut self, req: AnyRequest) -> (fut: S::Future) {
        self.service.call(req)
    }

    fn notify(&mut self, notif: AnyNotification) -> (flow: ControlFlow<Result<()>>) {
        self.service.notify(notif)
    }

    fn emit(&mut self, event: AnyEvent) -> (flow: ControlFlow<Result<()>>) {
        match event.downcast::<ClientProcessExited>() {
            Ok(_) => ControlFlow::Break(
                Err(Error::Protocol("Client process exited".to_owned())),
            ),
            Err(event) => self.service.emit(event),
        }
    }
}

/// The builder of [`ClientProcessMonitor`].
#[must_use]
pub struct ClientProcessMonitorBuilder {
    /// The socket through which the exit of the client is reported.
    pub client: ClientSocket,
}

/// Another name of [`ClientProcessMonitorBuilder`], which builds a layer around a service.
pub type ClientProcessMonitorLayer = ClientProcessMonitorBuilder;

impl ClientProcessMonitorBuilder {
    /// Creates the builder with the socket through which the exit of the client is reported.
    pub fn new(client: ClientSocket) -> (builder: Self)
        ensures
            builder.client == client,
    {
        ClientProcessMonitorBuilder { client }
    }

    /// Puts the middleware around a service.
    pub fn layer<S>(&self, inner: S) -> (monitor: ClientProcessMonitor<S>)
        ensures
            monitor.service == inner,
            monitor.client == self.client,
    {
        ClientProcessMonitor::new(inner, self.client.clone())
    }
}

/// When the exit of the client is reported and the event gets through, the main loop ends with
/// [`Error::Protocol`]; any other event is for the inner service.
pub proof fn law_exit_of_the_client_ends_the_loop<S: LspService>(
    pre: ClientProcessMonitor<S>,
    event: AnyEvent,
    post: ClientProcessMonitor<S>,
    flow: ControlFlow<Result<()>>,
)
    requires
        ClientProcessMonitor::<S>::emits(pre, event, post, flow),
    ensures
        is_id_of::<ClientProcessExited>(event.inner_id()) ==> (flow matches ControlFlow::Break(
            Err(error),
        ) && error is Protocol),
        !is_id_of::<ClientProcessExited>(event.inner_id()) ==> S::emits(
            pre.service,
            event,
            post.service,
            flow,
        ),
{
}

/// The middleware hands every request, every notification and every event but the one that the
/// client exited to the inner service, whose answer is the answer; and the inner service alone says
/// whether it is ready.
pub proof fn law_monitor_passes_everything_on<S: LspService>(
    pre: ClientProcessMonitor<S>,
    post: ClientProcessMonitor<S>,
    ready: Poll<core::result::Result<(), S::Error>>,
    req: AnyRequest,
    fut: S::Future,
    notif: AnyNotification,
    event: AnyEvent,
    flow: ControlFlow<Result<()>>,
)
    ensures
        ClientProcessMonitor::<S>::polls(pre, post, ready) ==> S::polls(
            pre.service,
            post.service,
            ready,
        ) && post.client == pre.client,
        ClientProcessMonitor::<S>::calls(pre, req, post, fut) ==> S::calls(
            pre.service,
            req,
            post.service,
            fut,
        ) && post.client == pre.client,
        ClientProcessMonitor::<S>::notifies(pre, notif, post, flow) ==> S::notifies(
            pre.service,
            notif,
            post.service,
            flow,
        ) && post.client == pre.client,
        ClientProcessMonitor::<S>::emits(pre, event, post, flow) && !is_id_of::<
            ClientProcessExited,
        >(event.inner_id()) ==> S::emits(pre.service, event, post.service, flow) && post.client
            == pre.client,
{
}

/// The event that the client exited ends the main loop with an error that says so, and never
/// reaches the inner service.
pub proof fn law_exit_stays_inside<S: LspService>(
    pre: ClientProcessMonitor<S>,
    event: AnyEvent,
    post: ClientProcessMonitor<S>,
    flow: ControlFlow<Result<()>>,
)
    requires
        ClientProcessMonitor::<S>::emits(pre, event, post, flow),
        is_id_of::<ClientProcessExited>(event.inner_id()),
    ensures
        post == pre,
        flow matches ControlFlow::Break(Err(Error::Protocol(text))) && text@
            == "Client process exited"@,
{
}

/// The middleware asks nothing of those who use it that the inner service does not.
pub proof fn law_monitor_asks_no_more<S: LspService>(
    monitor: ClientProcessMonitor<S>,
    req: AnyRequest,
    notif: AnyNotification,
    event: AnyEvent,
)
    ensures
        monitor.service.can_poll() ==> monitor.can_poll(),
        monitor.service.can_call(req) ==> monitor.can_call(req),
        monitor.service.can_notify(notif) ==> monitor.can_notify(notif),
        monitor.service.can_emit(event) ==> monitor.can_emit(event),
        is_id_of::<ClientProcessExited>(event.inner_id()) ==> monitor.can_emit(event),
{
}

/// Only an `initialize` request tells which process is watched. A process that could be opened is
/// waited for. Of one that could not, its exit is reported at once where the error tells that it
/// does not exist, and else it cannot be waited for.
pub proof fn law_watched_process<S>(
    monitor: ClientProcessMonitor<S>,
    req: AnyRequest,
    process_id: Option<i32>,
    watched: Option<i32>,
    failed: Option<Option<i32>>,
    decided: (Next, Option<MainLoopEvent>),
)
    ensures
        call_ensures(
            ClientProcessMonitor::<S>::to_watch,
            (&monitor, &req, process_id),
            watched,
        ) ==> {
            &&& req.method@ == "initialize"@ ==> watched == process_id
            &&& req.method@ != "initialize"@ ==> watched is None
        },
        call_ensures(ClientProcessMonitor::<S>::opened, (&monitor, failed), decided) ==> {
            &&& failed is None ==> decided.0 == Next::Wait
            &&& failed == Some(None::<i32>) ==> decided.0 == Next::Fail
            &&& failed matches Some(raw_os_error) ==> tells_exit(
                raw_os_error,
                decided.0 == Next::Exited,
            ) && decided.0 != Next::Wait
            &&& decided.0 == Next::Exited ==> (decided.1 matches Some(MainLoopEvent::Any(event))
                && event.carries(ClientProcessExited))
            &&& decided.0 != Next::Exited ==> decided.1 is None
        },
{
}

/// Reporting the exit sends the event that the client exited through the socket, and such an event
/// ends the main loop behind the middleware.
pub proof fn law_report_ends_the_loop<S: LspService>(
    client: ClientSocket,
    pre: ClientProcessMonitor<S>,
    post: ClientProcessMonitor<S>,
    flow: ControlFlow<Result<()>>,
)
    requires
        call_ensures(report_exit, (&client,), ()),
    ensures
        exists|event: AnyEvent, result: Result<()>|
            {
                &&& #[trigger] client.0.sends(MainLoopEvent::Any(event), result)
                &&& event.carries(ClientProcessExited)
                &&& ClientProcessMonitor::<S>::emits(pre, event, post, flow) ==> flow is Break
            },
{
}

/// Only one number tells that a process does not exist, and an error without a number does not.
pub proof fn law_one_number_tells_exit(
    code: i32,
    other: i32,
    raw_os_error: Option<i32>,
    yes: bool,
)
    ensures
        tells_exit(Some(code), true) ==> tells_exit(Some(other), other == code),
        call_ensures(already_exited, (raw_os_error,), yes) ==> tells_exit(raw_os_error, yes),
        call_ensures(already_exited, (None,), yes) ==> !yes,
{
}

/// The middleware is put around the service with the socket that its builder was given.
pub proof fn law_new_monitor<S>(
    service: S,
    client: ClientSocket,
    builder: ClientProcessMonitorBuilder,
    monitor: ClientProcessMonitor<S>,
)
    ensures
        call_ensures(ClientProcessMonitor::<S>::new, (service, client), monitor) ==> monitor.service
            == service && monitor.client == client,
        call_ensures(ClientProcessMonitorBuilder::new, (client,), builder) ==> builder.client
            == client,
        call_ensures(ClientProcessMonitorBuilder::layer::<S>, (&builder, service), monitor)
            ==> monitor.service == service && monitor.client == builder.client,
{
}

} // verus!
