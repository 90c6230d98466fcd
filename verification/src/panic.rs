//! Turning panics of underlying handlers into error responses.
//!
//! *Applies to both Language Servers and Language Clients.*
//!
//! Panics are caught around the calls into the inner service. What is made of a caught panic, or of
//! a call that went well, is decided here.
use vstd::prelude::*;

use crate::error::{ErrorCode, ResponseError};
use crate::json::JsonValue;
use crate::service::Poll;
use crate::text::join;

verus! {

/// What a handler panicked with.
#[derive(Debug)]
pub enum PanicPayload {
    /// A formatted text.
    Text(String),
    /// A constant text.
    Literal(&'static str),
    /// The text that another value is shown as.
    Shown(String),
    /// A value that cannot be shown.
    Other,
}

impl PanicPayload {
    /// The text that is reported.
    pub open spec fn text(self) -> Seq<char> {
        match self {
            PanicPayload::Text(text) => text@,
            PanicPayload::Literal(text) => text@,
            PanicPayload::Shown(text) => text@,
            PanicPayload::Other => "unknown"@,
        }
    }
}

/// The handler of panics by default: an [`ErrorCode::INTERNAL_ERROR`] with the text of the panic,
/// or the text that its payload is shown as.
pub fn default_handler(method: &str, payload: PanicPayload) -> (error: ResponseError)
    ensures
        error.says(
            ErrorCode::INTERNAL_ERROR,
            "Request handler of "@ + method@ + " panicked: "@ + payload.text(),
        ),
{
    let text = match payload {
        PanicPayload::Text(text) => text,
        PanicPayload::Literal(text) => text.to_owned(),
        PanicPayload::Shown(text) => text,
        PanicPayload::Other => "unknown".to_owned(),
    };
    let mut message = join("Request handler of ", method);
    message.append(" panicked: ");
    message.append(text.as_str());
    ResponseError::of(ErrorCode::INTERNAL_ERROR, message)
}

/// The handler can be asked about a panic of the method.
pub open spec fn can_report<P, H: Fn(&str, P) -> ResponseError>(
    handler: H,
    method: Seq<char>,
    payload: P,
) -> bool {
    forall|m: &str| m@ == method ==> #[trigger] call_requires(handler, (m, payload))
}

/// The handler may turn a panic of the method into `error`.
pub open spec fn reports<P, H: Fn(&str, P) -> ResponseError>(
    handler: H,
    method: Seq<char>,
    payload: P,
    error: ResponseError,
) -> bool {
    exists|m: &str| m@ == method && #[trigger] call_ensures(handler, (m, payload), error)
}

/// Asks the handler about a panic.
fn report<P, H: Fn(&str, P) -> ResponseError>(handler: &H, method: &str, payload: P) -> (error:
    ResponseError)
    requires
        can_report(*handler, method@, payload),
    ensures
        reports(*handler, method@, payload, error),
{
    (*handler)(method, payload)
}

/// The pending outcome of a request to [`CatchUnwind`].
#[derive(Debug)]
pub enum ResponseFuture<Fut, H> {
    /// The inner service took the request.
    Future {
        /// The pending outcome of the inner service.
        fut: Fut,
        /// The method of the request.
        method: String,
        /// The handler of panics.
        handler: H,
    },
    /// The inner service panicked.
    Ready {
        /// What the panic was turned into, until it is handed out.
        err: Option<ResponseError>,
    },
}

/// What the outcome of a request is, given what came of asking for it under the guard: the answer,
/// or what a panic was turned into.
pub fn polled<P, H: Fn(&str, P) -> ResponseError>(
    handler: &H,
    method: &str,
    caught: core::result::Result<Poll<core::result::Result<JsonValue, ResponseError>>, P>,
) -> (polled: Poll<core::result::Result<JsonValue, ResponseError>>)
    requires
        caught matches Err(payload) ==> can_report(*handler, method@, payload),
    ensures
        match caught {
            Ok(answer) => polled == answer,
            Err(payload) => polled matches Poll::Ready(Err(error)) && reports(
                *handler,
                method@,
                payload,
                error,
            ),
        },
{
    match caught {
        Ok(answer) => answer,
        Err(payload) => Poll::Ready(Err(report(handler, method, payload))),
    }
}

/// Hands out what the panic of a request was turned into. It is handed out once.
pub fn take_error(err: &mut Option<ResponseError>) -> (error: ResponseError)
    requires
        *old(err) is Some,
    ensures
        *old(err) == Some(error),
        *final(err) is None,
{
    err.take().unwrap()
}

/// The middleware turning panics of underlying handlers into error responses.
///
/// See the documentation of the module for details.
#[derive(Debug)]
pub struct CatchUnwind<S, H> {
    /// The inner service.
    pub service: S,
    /// The handler of panics.
    pub handler: H,
}

impl<S, H: Copy> CatchUnwind<S, H> {
    /// The pending outcome of a request, given what came of handing it to the inner service under
    /// the guard: the one of the inner service, or what a panic was turned into.
    pub fn called<P, Fut>(
        &self,
        method: String,
        caught: core::result::Result<Fut, P>,
    ) -> (response: ResponseFuture<Fut, H>) where H: Fn(&str, P) -> ResponseError
        requires
            caught matches Err(payload) ==> can_report(self.handler, method@, payload),
        ensures
            match caught {
                Ok(inner) => response == (ResponseFuture::Future {
                    fut: inner,
                    method,
                    handler: self.handler,
                }),
                Err(payload) => response matches ResponseFuture::Ready { err: Some(error) }
                    && reports(self.handler, method@, payload, error),
            },
    {
        match caught {
            Ok(fut) => ResponseFuture::Future { fut, method, handler: self.handler },
            Err(payload) => ResponseFuture::Ready {
                err: Some(report(&self.handler, method.as_str(), payload)),
            },
        }
    }
}

/// The builder of [`CatchUnwind`].
#[derive(Debug)]
#[must_use]
pub struct CatchUnwindBuilder<H> {
    /// The handler of panics.
    pub handler: H,
}

impl<H: Copy> Clone for CatchUnwindBuilder<H> {
    fn clone(&self) -> (copy: Self)
        ensures
            copy == *self,
    {
        CatchUnwindBuilder { handler: self.handler }
    }
}

/// Another name of [`CatchUnwindBuilder`], which builds a layer around a service.
pub type CatchUnwindLayer<H> = CatchUnwindBuilder<H>;

impl<H: Copy> CatchUnwindBuilder<H> {
    /// Creates the builder with a handler that turns panics into error responses.
    pub fn new_with_handler(handler: H) -> (builder: Self)
        ensures
            builder.handler == handler,
    {
        CatchUnwindBuilder { handler }
    }

    /// Puts the middleware around a service.
    pub fn layer<S>(&self, inner: S) -> (catching: CatchUnwind<S, H>)
        ensures
            catching.service == inner,
            catching.handler == self.handler,
    {
        CatchUnwind { service: inner, handler: self.handler }
    }
}

/// A panic becomes an internal error that names the method and says what the handler panicked with.
pub proof fn law_panics_are_reported(
    method: &str,
    text: String,
    literal: &'static str,
    error: ResponseError,
)
    ensures
        call_ensures(default_handler, (method, PanicPayload::Text(text)), error) ==> {
            &&& error.code.0 == -32603
            &&& error.message@ == "Request handler of "@ + method@ + " panicked: "@ + text@
            &&& error.data is None
        },
        call_ensures(default_handler, (method, PanicPayload::Literal(literal)), error) ==> {
            &&& error.code.0 == -32603
            &&& error.message@ == "Request handler of "@ + method@ + " panicked: "@ + literal@
            &&& error.data is None
        },
        call_ensures(default_handler, (method, PanicPayload::Shown(text)), error) ==> {
            &&& error.code.0 == -32603
            &&& error.message@ == "Request handler of "@ + method@ + " panicked: "@ + text@
            &&& error.data is None
        },
        call_ensures(default_handler, (method, PanicPayload::Other), error) ==> {
            &&& error.code.0 == -32603
            &&& error.message@ == "Request handler of "@ + method@ + " panicked: unknown"@
            &&& error.data is None
        },
{
    reveal_strlit(" panicked: ");
    reveal_strlit("unknown");
    reveal_strlit(" panicked: unknown");
    assert("Request handler of "@ + method@ + " panicked: "@ + "unknown"@
        =~= "Request handler of "@ + method@ + " panicked: unknown"@);
}

/// Where the inner service does not panic, its answer is the answer, whatever it is. Where it does,
/// the handler of panics is asked about the method and the panic, and the request is answered with
/// the error that it gives.
pub proof fn law_only_panics_are_changed<S, P, Fut, H: Copy + Fn(&str, P) -> ResponseError>(
    catching: CatchUnwind<S, H>,
    method: String,
    name: &str,
    payload: P,
    inner: Fut,
    called: ResponseFuture<Fut, H>,
    answer: Poll<core::result::Result<JsonValue, ResponseError>>,
    polls: Poll<core::result::Result<JsonValue, ResponseError>>,
)
    ensures
        call_ensures(
            CatchUnwind::<S, H>::called::<P, Fut>,
            (&catching, method, Ok(inner)),
            called,
        ) ==> called == (ResponseFuture::Future { fut: inner, method, handler: catching.handler }),
        call_ensures(
            CatchUnwind::<S, H>::called::<P, Fut>,
            (&catching, method, Err(payload)),
            called,
        ) ==> (called matches ResponseFuture::Ready { err: Some(error) } && exists|m: &str|
            m@ == method@ && #[trigger] call_ensures(catching.handler, (m, payload), error)),
        call_ensures(polled::<P, H>, (&catching.handler, name, Ok(answer)), polls) ==> polls
            == answer,
        call_ensures(polled::<P, H>, (&catching.handler, name, Err(payload)), polls) ==> (
        polls matches Poll::Ready(Err(error)) && exists|m: &str|
            m@ == name@ && #[trigger] call_ensures(catching.handler, (m, payload), error)),
{
}

/// The error of a panic is handed out, and then there is none left.
pub proof fn law_error_is_handed_out_once(held: ResponseError)
    ensures
        forall|err: &mut Option<ResponseError>, error: ResponseError|
            *err == Some(held) && #[trigger] call_ensures(take_error, (err,), error) ==> error
                == held && *final(err) is None,
{
}

/// The middleware is put around the service with the handler of panics that its builder was given.
pub proof fn law_new_guard<S, H: Copy>(
    handler: H,
    builder: CatchUnwindBuilder<H>,
    service: S,
    catching: CatchUnwind<S, H>,
)
    ensures
        call_ensures(CatchUnwindBuilder::<H>::new_with_handler, (handler,), builder)
            ==> builder.handler == handler,
        call_ensures(CatchUnwindBuilder::<H>::layer::<S>, (&builder, service), catching)
            ==> catching.service == service && catching.handler == builder.handler,
{
}

} // verus!
