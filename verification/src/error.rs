//! Errors of the library and error objects of responses.
use vstd::prelude::*;
use vstd::std_specs::convert::FromSpec;
use vstd::string::to_string_from_display_ensures;

use crate::json::JsonValue;
use crate::text::{join, signed_decimal, signed_decimal_text};

verus! {

/// [`std::io::Error`], carried as an opaque value.
#[verifier::external_type_specification]
#[verifier::external_body]
pub struct ExIoError(std::io::Error);

/// `Result` with [`Error`] as its default error.
pub type Result<T, E = Error> = core::result::Result<T, E>;

/// Possible errors.
#[derive(Debug)]
#[non_exhaustive]
pub enum Error {
    /// The service main loop stopped.
    ServiceStopped,
    /// The peer sends undecodable or invalid messages.
    Deserialize(serde_json::Error),
    /// The peer replies an error.
    Response(ResponseError),
    /// The peer violates the Language Server Protocol.
    Protocol(String),
    /// Input or output on the underlying channels fails.
    Io(std::io::Error),
    /// The underlying channel reached its end.
    Eof,
    /// No handler for an event or for a mandatory notification, one whose method does not start
    /// with `$/`.
    ///
    /// It does not occur where catch-all handlers are installed.
    Routing(String),
}

impl Error {
    /// `text` is how the error is shown to a reader.
    pub open spec fn shown_as(self, text: Seq<char>) -> bool {
        match self {
            Error::ServiceStopped => text == "service stopped"@,
            Error::Deserialize(err) => exists|inner: String|
                #[trigger] to_string_from_display_ensures(&err, inner) && text
                    == "deserialization failed: "@ + inner@,
            Error::Response(err) => text == err.shown(),
            Error::Protocol(detail) => text == "protocol error: "@ + detail@,
            Error::Io(err) => exists|inner: String|
                #[trigger] to_string_from_display_ensures(&err, inner) && text == inner@,
            Error::Eof => text == "the underlying channel reached EOF"@,
            Error::Routing(detail) => text == detail@,
        }
    }

    /// Shows the error to a reader.
    pub fn display(&self) -> (text: String)
        ensures
            self.shown_as(text@),
    {
        match self {
            Error::ServiceStopped => "service stopped".to_owned(),
            Error::Deserialize(err) => {
                let inner = err.to_string();
                join("deserialization failed: ", inner.as_str())
            },
            Error::Response(err) => err.display(),
            Error::Protocol(detail) => join("protocol error: ", detail.as_str()),
            Error::Io(err) => err.to_string(),
            Error::Eof => "the underlying channel reached EOF".to_owned(),
            Error::Routing(detail) => detail.clone(),
        }
    }
}

impl From<serde_json::Error> for Error {
    fn from(err: serde_json::Error) -> (error: Self) {
        Error::Deserialize(err)
    }
}

impl vstd::std_specs::convert::FromSpecImpl<serde_json::Error> for Error {
    open spec fn obeys_from_spec() -> bool {
        true
    }

    open spec fn from_spec(err: serde_json::Error) -> Self {
        Error::Deserialize(err)
    }
}

impl From<ResponseError> for Error {
    fn from(err: ResponseError) -> (error: Self) {
        Error::Response(err)
    }
}

impl vstd::std_specs::convert::FromSpecImpl<ResponseError> for Error {
    open spec fn obeys_from_spec() -> bool {
        true
    }

    open spec fn from_spec(err: ResponseError) -> Self {
        Error::Response(err)
    }
}

impl From<std::io::Error> for Error {
    fn from(err: std::io::Error) -> (error: Self) {
        Error::Io(err)
    }
}

impl vstd::std_specs::convert::FromSpecImpl<std::io::Error> for Error {
    open spec fn obeys_from_spec() -> bool {
        true
    }

    open spec fn from_spec(err: std::io::Error) -> Self {
        Error::Io(err)
    }
}

/// A JSON-RPC error code.
///
/// The codes that the Language Server Protocol defines are associated constants.
#[derive(Debug, Clone, Copy, PartialEq, Eq, Hash, PartialOrd, Ord, Structural)]
pub struct ErrorCode(pub i32);

impl ErrorCode {
    /// Invalid JSON was received, or an error occurred while parsing it.
    pub const PARSE_ERROR: i32 = -32700;

    /// The JSON sent is not a valid request object.
    pub const INVALID_REQUEST: i32 = -32600;

    /// The method does not exist or is not available.
    pub const METHOD_NOT_FOUND: i32 = -32601;

    /// The parameters of the method are invalid.
    pub const INVALID_PARAMS: i32 = -32602;

    /// Internal JSON-RPC error.
    pub const INTERNAL_ERROR: i32 = -32603;

    /// The start of the range that JSON-RPC reserves. It is no error code of its own.
    pub const JSONRPC_RESERVED_ERROR_RANGE_START: i32 = -32099;

    /// A request or notification came before the `initialize` request.
    pub const SERVER_NOT_INITIALIZED: i32 = -32002;

    /// An unknown error.
    pub const UNKNOWN_ERROR_CODE: i32 = -32001;

    /// The end of the range that JSON-RPC reserves. It is no error code of its own.
    pub const JSONRPC_RESERVED_ERROR_RANGE_END: i32 = -32000;

    /// The start of the range that the protocol reserves. It is no error code of its own.
    pub const LSP_RESERVED_ERROR_RANGE_START: i32 = -32899;

    /// A syntactically correct request with a known method and valid parameters failed.
    pub const REQUEST_FAILED: i32 = -32803;

    /// The server cancelled the request.
    pub const SERVER_CANCELLED: i32 = -32802;

    /// The content of a document was modified outside normal conditions.
    pub const CONTENT_MODIFIED: i32 = -32801;

    /// The client cancelled the request.
    pub const REQUEST_CANCELLED: i32 = -32800;

    /// The end of the range that the protocol reserves. It is no error code of its own.
    pub const LSP_RESERVED_ERROR_RANGE_END: i32 = -32800;

    /// How the code is shown to a reader.
    pub open spec fn shown(self) -> Seq<char> {
        "jsonrpc error "@ + signed_decimal(self.0 as int)
    }

    /// Shows the code to a reader.
    pub fn display(&self) -> (text: String)
        ensures
            text@ == self.shown(),
    {
        join("jsonrpc error ", signed_decimal_text(self.0).as_str())
    }
}

impl From<i32> for ErrorCode {
    fn from(i: i32) -> (code: Self) {
        Self(i)
    }
}

impl vstd::std_specs::convert::FromSpecImpl<i32> for ErrorCode {
    open spec fn obeys_from_spec() -> bool {
        true
    }

    open spec fn from_spec(i: i32) -> Self {
        ErrorCode(i)
    }
}

/// The error object of a failed request.
#[derive(Debug)]
pub struct ResponseError {
    /// The kind of the error.
    pub code: ErrorCode,
    /// A short description of the error.
    pub message: String,
    /// More about the error, where there is more to say.
    pub data: Option<JsonValue>,
}

impl Clone for ResponseError {
    fn clone(&self) -> (copy: Self)
        ensures
            copy == *self,
    {
        let data = match &self.data {
            Some(data) => Some(data.clone()),
            None => None,
        };
        ResponseError { code: self.code, message: self.message.clone(), data }
    }
}

impl ResponseError {
    /// The error object has this code and message, and no further data.
    pub open spec fn says(self, code: i32, message: Seq<char>) -> bool {
        &&& self.code == ErrorCode(code)
        &&& self.message@ == message
        &&& self.data is None
    }

    /// How the error object is shown to a reader.
    pub open spec fn shown(self) -> Seq<char> {
        self.message@ + " ("@ + self.code.shown() + ")"@
    }

    /// Creates an error object with a code and a message.
    #[must_use]
    pub fn new<M: core::fmt::Display>(code: ErrorCode, message: M) -> (error: Self)
        ensures
            error.code == code,
            to_string_from_display_ensures(&message, error.message),
            error.data is None,
    {
        ResponseError { code, message: message.to_string(), data: None }
    }

    /// Creates an error object with a code, a message and further data.
    #[must_use]
    pub fn new_with_data<M: core::fmt::Display>(
        code: ErrorCode,
        message: M,
        data: JsonValue,
    ) -> (error: Self)
        ensures
            error.code == code,
            to_string_from_display_ensures(&message, error.message),
            error.data == Some(data),
    {
        ResponseError { code, message: message.to_string(), data: Some(data) }
    }

    /// Creates an error object with a code and a message that is at hand.
    pub(crate) fn of(code: i32, message: String) -> (error: Self)
        ensures
            error.says(code, message@),
    {
        ResponseError { code: ErrorCode(code), message, data: None }
    }

    /// Shows the error object to a reader.
    pub fn display(&self) -> (text: String)
        ensures
            text@ == self.shown(),
    {
        let mut text = join(self.message.as_str(), " (");
        text.append(self.code.display().as_str());
        text.append(")");
        text
    }
}

/// `code` lies in the range that JSON-RPC reserves.
pub open spec fn jsonrpc_reserved(code: i32) -> bool {
    ErrorCode::JSONRPC_RESERVED_ERROR_RANGE_START <= code
        <= ErrorCode::JSONRPC_RESERVED_ERROR_RANGE_END
}

/// `code` lies in the range that the protocol reserves.
pub open spec fn lsp_reserved(code: i32) -> bool {
    ErrorCode::LSP_RESERVED_ERROR_RANGE_START <= code <= ErrorCode::LSP_RESERVED_ERROR_RANGE_END
}

/// `code` is one of those that JSON-RPC itself defines.
pub open spec fn defined_by_jsonrpc(code: i32) -> bool {
    ||| code == ErrorCode::PARSE_ERROR
    ||| code == ErrorCode::INVALID_REQUEST
    ||| code == ErrorCode::METHOD_NOT_FOUND
    ||| code == ErrorCode::INVALID_PARAMS
    ||| code == ErrorCode::INTERNAL_ERROR
}

/// `code` is one of those that the protocol adds to JSON-RPC.
pub open spec fn defined_by_lsp(code: i32) -> bool {
    ||| code == ErrorCode::SERVER_NOT_INITIALIZED
    ||| code == ErrorCode::UNKNOWN_ERROR_CODE
    ||| code == ErrorCode::REQUEST_FAILED
    ||| code == ErrorCode::SERVER_CANCELLED
    ||| code == ErrorCode::CONTENT_MODIFIED
    ||| code == ErrorCode::REQUEST_CANCELLED
}

/// The two reserved ranges are disjoint. A code of JSON-RPC itself lies in neither. A code of the
/// protocol lies in the range that the protocol reserves, except for
/// [`ErrorCode::SERVER_NOT_INITIALIZED`] and [`ErrorCode::UNKNOWN_ERROR_CODE`], which were left in
/// the range of JSON-RPC.
pub proof fn law_reserved_ranges(code: i32)
    ensures
        !(jsonrpc_reserved(code) && lsp_reserved(code)),
        defined_by_jsonrpc(code) ==> !jsonrpc_reserved(code) && !lsp_reserved(code),
        defined_by_lsp(code) ==> (lsp_reserved(code) <==> code != ErrorCode::SERVER_NOT_INITIALIZED
            && code != ErrorCode::UNKNOWN_ERROR_CODE),
        defined_by_lsp(code) ==> lsp_reserved(code) || jsonrpc_reserved(code),
{
}

/// The codes are those of the protocol.
pub proof fn law_codes_of_the_protocol()
    ensures
        ErrorCode::PARSE_ERROR == -32700,
        ErrorCode::INVALID_REQUEST == -32600,
        ErrorCode::METHOD_NOT_FOUND == -32601,
        ErrorCode::INVALID_PARAMS == -32602,
        ErrorCode::INTERNAL_ERROR == -32603,
        ErrorCode::JSONRPC_RESERVED_ERROR_RANGE_START == -32099,
        ErrorCode::SERVER_NOT_INITIALIZED == -32002,
        ErrorCode::UNKNOWN_ERROR_CODE == -32001,
        ErrorCode::JSONRPC_RESERVED_ERROR_RANGE_END == -32000,
        ErrorCode::LSP_RESERVED_ERROR_RANGE_START == -32899,
        ErrorCode::REQUEST_FAILED == -32803,
        ErrorCode::SERVER_CANCELLED == -32802,
        ErrorCode::CONTENT_MODIFIED == -32801,
        ErrorCode::REQUEST_CANCELLED == -32800,
        ErrorCode::LSP_RESERVED_ERROR_RANGE_END == -32800,
{
}

/// A code is shown as its number, and an error object as its message with the code behind it,
/// whatever the code and the message.
pub proof fn law_shown_error_objects(code: ErrorCode, error: ResponseError, text: String)
    ensures
        call_ensures(ErrorCode::display, (&code,), text) ==> text@ == "jsonrpc error "@
            + signed_decimal(code.0 as int),
        call_ensures(ResponseError::display, (&error,), text) ==> text@ == error.message@
            + " (jsonrpc error "@ + signed_decimal(error.code.0 as int) + ")"@,
{
    reveal_strlit(" (");
    reveal_strlit(")");
    reveal_strlit("jsonrpc error ");
    reveal_strlit(" (jsonrpc error ");
    let number = signed_decimal(error.code.0 as int);
    assert(error.message@ + " ("@ + ("jsonrpc error "@ + number) + ")"@ =~= error.message@
        + " (jsonrpc error "@ + number + ")"@);
}

/// Each error is shown with what it carries.
pub proof fn law_shown_errors(
    detail: String,
    response: ResponseError,
    json: serde_json::Error,
    io: std::io::Error,
    text: String,
)
    ensures
        call_ensures(Error::display, (&Error::ServiceStopped,), text) ==> text@
            == "service stopped"@,
        call_ensures(Error::display, (&Error::Eof,), text) ==> text@
            == "the underlying channel reached EOF"@,
        call_ensures(Error::display, (&Error::Protocol(detail),), text) ==> text@
            == "protocol error: "@ + detail@,
        call_ensures(Error::display, (&Error::Routing(detail),), text) ==> text@ == detail@,
        call_ensures(Error::display, (&Error::Response(response),), text) ==> text@
            == response.message@ + " (jsonrpc error "@ + signed_decimal(response.code.0 as int)
            + ")"@,
        call_ensures(Error::display, (&Error::Deserialize(json),), text) ==> exists|inner: String|
            #[trigger] to_string_from_display_ensures(&json, inner) && text@
                == "deserialization failed: "@ + inner@,
        call_ensures(Error::display, (&Error::Io(io),), text) ==> exists|inner: String|
            #[trigger] to_string_from_display_ensures(&io, inner) && text@ == inner@,
{
    reveal_strlit(" (");
    reveal_strlit(")");
    reveal_strlit("jsonrpc error ");
    reveal_strlit(" (jsonrpc error ");
    let number = signed_decimal(response.code.0 as int);
    assert(response.message@ + " ("@ + ("jsonrpc error "@ + number) + ")"@ =~= response.message@
        + " (jsonrpc error "@ + number + ")"@);
}

/// An error object carries the code, the message and the data that it was made with.
pub proof fn law_error_objects<M: core::fmt::Display>(
    code: ErrorCode,
    message: M,
    data: JsonValue,
    error: ResponseError,
)
    ensures
        call_ensures(ResponseError::new::<M>, (code, message), error) ==> {
            &&& error.code == code
            &&& to_string_from_display_ensures(&message, error.message)
            &&& error.data is None
        },
        call_ensures(ResponseError::new_with_data::<M>, (code, message, data), error) ==> {
            &&& error.code == code
            &&& to_string_from_display_ensures(&message, error.message)
            &&& error.data == Some(data)
        },
{
}

/// An error of another kind is carried as it is.
pub proof fn law_carried_errors(json: serde_json::Error, response: ResponseError, io: std::io::Error)
    ensures
        <Error as FromSpec<serde_json::Error>>::from_spec(json) == Error::Deserialize(json),
        <Error as FromSpec<ResponseError>>::from_spec(response) == Error::Response(response),
        <Error as FromSpec<std::io::Error>>::from_spec(io) == Error::Io(io),
{
}

/// Each number is a code.
pub proof fn law_numbers_are_codes(number: i32)
    ensures
        (<ErrorCode as FromSpec<i32>>::from_spec(number)).0 == number,
{
}

} // verus!
