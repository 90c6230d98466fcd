//! The answers to standard requests and notifications that an implementation leaves out.
use std::ops::ControlFlow;

use vstd::prelude::*;

use crate::error::{Error, ErrorCode, ResponseError, Result};
use crate::server::{EXIT, INITIALIZED};
use crate::text::{join, starts_with, str_eq};

verus! {

/// The notification is optional, so that a server need not handle it.
pub open spec fn optional(method: Seq<char>) -> bool {
    ||| "$/"@.is_prefix_of(method)
    ||| method == EXIT@
    ||| method == INITIALIZED@
}

/// The answer to a notification that is not handled.
pub fn fallback(method: &str) -> (flow: ControlFlow<Result<()>>)
    ensures
        if optional(method@) {
            flow == ControlFlow::<Result<()>>::Continue(())
        } else {
            flow matches ControlFlow::Break(Err(Error::Routing(text))) && text@
                == "Unhandled notification: "@ + method@
        },
{
    if starts_with(method, "$/") || str_eq(method, EXIT) || str_eq(method, INITIALIZED) {
        ControlFlow::Continue(())
    } else {
        ControlFlow::Break(Err(Error::Routing(join("Unhandled notification: ", method))))
    }
}

/// The answer to a request that is not handled.
pub fn method_not_found(method: &str) -> (error: ResponseError)
    ensures
        error.says(ErrorCode::METHOD_NOT_FOUND, "No such method: "@ + method@),
{
    ResponseError::of(ErrorCode::METHOD_NOT_FOUND, join("No such method: ", method))
}

/// A notification that an implementation leaves out goes by without a trace where its method starts
/// with `$/` or is `exit` or `initialized`; any other one ends the main loop, and the error names
/// it.
pub proof fn law_left_out_notifications(method: &str, flow: ControlFlow<Result<()>>)
    requires
        call_ensures(fallback, (method,), flow),
    ensures
        ({
            let m = method@;
            if m.len() >= 2 && m[0] == '$' && m[1] == '/' || m == "exit"@ || m == "initialized"@ {
                flow == ControlFlow::<Result<()>>::Continue(())
            } else {
                flow matches ControlFlow::Break(Err(Error::Routing(text))) && text@
                    == "Unhandled notification: "@ + m
            }
        }),
{
    reveal_strlit("$/");
    let m = method@;
    if m.len() >= 2 && m[0] == '$' && m[1] == '/' {
        assert("$/"@ =~= m.subrange(0, 2));
    } else if "$/"@.is_prefix_of(m) {
        assert(m.subrange(0, 2)[0] == '$' && m.subrange(0, 2)[1] == '/');
    }
}

/// A request that an implementation leaves out is answered with the error that there is no such
/// method, which names it.
pub proof fn law_left_out_requests(method: &str, error: ResponseError)
    requires
        call_ensures(method_not_found, (method,), error),
    ensures
        error.code.0 == -32601,
        error.message@ == "No such method: "@ + method@,
        error.data is None,
{
}

} // verus!
