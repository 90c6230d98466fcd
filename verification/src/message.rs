//! Messages of the protocol.
use vstd::prelude::*;
use vstd::std_specs::cmp::PartialEqSpec;

use crate::error::ResponseError;
use crate::json::{json_is_null, JsonValue};
use crate::text::str_eq;

verus! {

/// The identifier of requests and responses.
///
/// A `null` identifier is not accepted: it hardly makes sense in valid communication.
#[derive(Debug, Hash)]
pub enum RequestId {
    /// A number.
    Number(i32),
    /// A text.
    String(String),
}

/// What a [`RequestId`] says.
pub enum RequestIdView {
    /// A number.
    Number(i32),
    /// A text.
    String(Seq<char>),
}

impl View for RequestId {
    type V = RequestIdView;

    open spec fn view(&self) -> RequestIdView {
        match self {
            RequestId::Number(n) => RequestIdView::Number(*n),
            RequestId::String(s) => RequestIdView::String(s@),
        }
    }
}

impl Clone for RequestId {
    fn clone(&self) -> (id: Self)
        ensures
            id == *self,
    {
        match self {
            RequestId::Number(n) => RequestId::Number(*n),
            RequestId::String(s) => RequestId::String(s.clone()),
        }
    }
}

impl RequestId {
    /// Whether two identifiers say the same.
    pub(crate) fn says_same(&self, other: &Self) -> (same: bool)
        ensures
            same == (self@ == other@),
    {
        match self {
            RequestId::Number(a) => match other {
                RequestId::Number(b) => *a == *b,
                RequestId::String(_) => false,
            },
            RequestId::String(a) => match other {
                RequestId::Number(_) => false,
                RequestId::String(b) => str_eq(a.as_str(), b.as_str()),
            },
        }
    }
}

impl PartialEq for RequestId {
    fn eq(&self, other: &Self) -> (equal: bool) {
        self.says_same(other)
    }
}

impl vstd::std_specs::cmp::PartialEqSpecImpl for RequestId {
    open spec fn obeys_eq_spec() -> bool {
        true
    }

    open spec fn eq_spec(&self, other: &Self) -> bool {
        self@ == other@
    }
}

impl Eq for RequestId {

}

/// The version of JSON-RPC that every message names.
#[derive(Debug, Clone, Copy, PartialEq, Eq, Structural)]
pub enum RpcVersion {
    /// `2.0`
    V2,
}

/// A message together with the version of JSON-RPC it follows.
#[derive(Debug, PartialEq, Eq)]
pub struct RawMessage<T> {
    /// The version of JSON-RPC.
    pub jsonrpc: RpcVersion,
    /// The message.
    pub inner: T,
}

impl<T> RawMessage<T> {
    /// Puts the version that the library speaks beside a message.
    pub fn new(inner: T) -> (raw: Self)
        ensures
            raw.inner == inner,
            raw.jsonrpc == RpcVersion::V2,
    {
        RawMessage { jsonrpc: RpcVersion::V2, inner }
    }
}

/// Any message.
#[derive(Debug)]
pub enum Message {
    /// A request, which is answered with a response.
    Request(AnyRequest),
    /// The answer to a request.
    Response(AnyResponse),
    /// A notification, which is not answered.
    Notification(AnyNotification),
}

impl Clone for Message {
    fn clone(&self) -> (copy: Self)
        ensures
            copy == *self,
    {
        match self {
            Message::Request(request) => Message::Request(request.clone()),
            Message::Response(response) => Message::Response(response.clone()),
            Message::Notification(notif) => Message::Notification(notif.clone()),
        }
    }
}

/// A dynamic request.
#[derive(Debug)]
pub struct AnyRequest {
    /// The identifier of the request.
    pub id: RequestId,
    /// The method to be invoked.
    pub method: String,
    /// The parameters of the method.
    pub params: JsonValue,
}

impl Clone for AnyRequest {
    fn clone(&self) -> (copy: Self)
        ensures
            copy == *self,
    {
        AnyRequest {
            id: self.id.clone(),
            method: self.method.clone(),
            params: self.params.clone(),
        }
    }
}

impl AnyRequest {
    /// Whether the parameters are left out when the request is sent.
    pub fn omits_params(&self) -> (omits: bool)
        ensures
            omits == json_is_null(self.params),
    {
        self.params.is_null()
    }
}

/// A dynamic notification.
#[derive(Debug, PartialEq, Eq)]
pub struct AnyNotification {
    /// The method to be invoked.
    pub method: String,
    /// The parameters of the notification.
    pub params: JsonValue,
}

impl Clone for AnyNotification {
    fn clone(&self) -> (copy: Self)
        ensures
            copy == *self,
    {
        AnyNotification { method: self.method.clone(), params: self.params.clone() }
    }
}

impl AnyNotification {
    /// Whether the parameters are left out when the notification is sent.
    pub fn omits_params(&self) -> (omits: bool)
        ensures
            omits == json_is_null(self.params),
    {
        self.params.is_null()
    }
}

/// A dynamic response.
#[derive(Debug)]
pub struct AnyResponse {
    /// The identifier of the request that is answered.
    pub id: RequestId,
    /// The result, where the request succeeded.
    pub result: Option<JsonValue>,
    /// The error, where the request failed.
    pub error: Option<ResponseError>,
}

impl Clone for AnyResponse {
    fn clone(&self) -> (copy: Self)
        ensures
            copy == *self,
    {
        let result = match &self.result {
            Some(result) => Some(result.clone()),
            None => None,
        };
        let error = match &self.error {
            Some(error) => Some(error.clone()),
            None => None,
        };
        AnyResponse { id: self.id.clone(), result, error }
    }
}

impl AnyResponse {
    /// The response answers request `id` with `outcome`.
    pub open spec fn answers(
        self,
        id: RequestId,
        outcome: core::result::Result<JsonValue, ResponseError>,
    ) -> bool {
        &&& self.id == id
        &&& match outcome {
            Ok(value) => self.result == Some(value) && self.error is None,
            Err(error) => self.result is None && self.error == Some(error),
        }
    }

    /// Answers request `id` with `outcome`.
    pub fn new(
        id: RequestId,
        outcome: core::result::Result<JsonValue, ResponseError>,
    ) -> (response: Self)
        ensures
            response.answers(id, outcome),
    {
        match outcome {
            Ok(value) => AnyResponse { id, result: Some(value), error: None },
            Err(error) => AnyResponse { id, result: None, error: Some(error) },
        }
    }

    /// `outcome` is what the response says of the request: its error if it has one, else its
    /// result, or `null` without one.
    pub open spec fn says(
        self,
        outcome: core::result::Result<JsonValue, ResponseError>,
    ) -> bool {
        match self.error {
            Some(error) => outcome == Err::<JsonValue, ResponseError>(error),
            None => match self.result {
                Some(value) => outcome == Ok::<JsonValue, ResponseError>(value),
                None => outcome matches Ok(value) && json_is_null(value),
            },
        }
    }

    /// What the response says of the request.
    pub fn into_outcome(self) -> (outcome: core::result::Result<JsonValue, ResponseError>)
        ensures
            self.says(outcome),
    {
        match self.error {
            Some(error) => Err(error),
            None => Ok(self.result.unwrap_or_default()),
        }
    }
}

/// The outcome of a request comes back out of the response that carries it.
pub proof fn law_outcome_round_trip(
    response: AnyResponse,
    id: RequestId,
    sent: core::result::Result<JsonValue, ResponseError>,
    received: core::result::Result<JsonValue, ResponseError>,
)
    requires
        response.answers(id, sent),
        response.says(received),
    ensures
        received == sent,
{
}

/// A response carries the identifier of the request, and either its result or its error.
pub proof fn law_response_carries_one_outcome(
    id: RequestId,
    value: JsonValue,
    error: ResponseError,
    response: AnyResponse,
)
    ensures
        call_ensures(AnyResponse::new, (id, Ok(value)), response) ==> response == (AnyResponse {
            id,
            result: Some(value),
            error: None,
        }),
        call_ensures(AnyResponse::new, (id, Err(error)), response) ==> response == (AnyResponse {
            id,
            result: None,
            error: Some(error),
        }),
{
}

/// An outcome that is sent in a response comes out of it again. A response with an error is a
/// failure, whatever else it carries, and one with neither an error nor a result succeeds with
/// `null`.
pub proof fn law_response_gives_its_outcome(
    id: RequestId,
    sent: core::result::Result<JsonValue, ResponseError>,
    response: AnyResponse,
    outcome: core::result::Result<JsonValue, ResponseError>,
)
    requires
        call_ensures(AnyResponse::into_outcome, (response,), outcome),
    ensures
        call_ensures(AnyResponse::new, (id, sent), response) ==> outcome == sent,
        response.error matches Some(error) ==> outcome == Err::<JsonValue, ResponseError>(error),
        response.error is None ==> outcome is Ok,
        response.error is None && response.result is None ==> json_is_null(outcome->Ok_0),
{
}

/// Two identifiers are the same exactly where both are the same number or both are the same text: a
/// number is never the same as a text.
pub proof fn law_same_identifiers(a: RequestId, b: RequestId)
    ensures
        a.eq_spec(&b) == match (a, b) {
            (RequestId::Number(m), RequestId::Number(n)) => m == n,
            (RequestId::String(s), RequestId::String(t)) => s@ == t@,
            _ => false,
        },
        a@ == b@ <==> a.eq_spec(&b),
{
}

/// Parameters are left out exactly where they are `null`, and every message names the version of
/// JSON-RPC.
pub proof fn law_null_parameters_are_left_out<T>(
    req: AnyRequest,
    notif: AnyNotification,
    omits: bool,
    inner: T,
    raw: RawMessage<T>,
)
    ensures
        call_ensures(AnyRequest::omits_params, (&req,), omits) ==> omits == json_is_null(req.params),
        call_ensures(AnyNotification::omits_params, (&notif,), omits) ==> omits == json_is_null(
            notif.params,
        ),
        call_ensures(RawMessage::<T>::new, (inner,), raw) ==> raw.inner == inner && raw.jsonrpc
            == RpcVersion::V2,
{
}

/// Copies of messages say what the messages say.
pub proof fn law_copies(
    id: RequestId,
    id_copy: RequestId,
    message: Message,
    message_copy: Message,
    error: ResponseError,
    error_copy: ResponseError,
)
    ensures
        call_ensures(<RequestId as Clone>::clone, (&id,), id_copy) ==> id_copy == id,
        call_ensures(<Message as Clone>::clone, (&message,), message_copy) ==> message_copy
            == message,
        call_ensures(<ResponseError as Clone>::clone, (&error,), error_copy) ==> error_copy == error,
{
}

} // verus!
