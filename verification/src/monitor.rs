//! Monitoring the Language Client process in asynchronous runtimes.
//!
//! The middleware is that of [`client_monitor`](crate::client_monitor), but the process is waited
//! for in a task instead of a thread. Waiting is left to the program around the library; which
//! process is waited for is decided here.
use vstd::prelude::*;

use crate::json::{json_integer, json_member, member, JsonValue};
use crate::message::AnyRequest;
use crate::server::INITIALIZE;
use crate::text::{join, signed_decimal, signed_decimal_text, str_eq};

pub use crate::client_monitor::{
    report_exit, ClientProcessExited, ClientProcessMonitor, ClientProcessMonitorLayer,
};

verus! {

/// The number of the client process in the parameters of an `initialize` request.
pub open spec fn process_id_in(params: JsonValue) -> Option<i32> {
    match json_member(params, "processId"@) {
        Some(value) => match json_integer(value) {
            Some(pid) if i32::MIN <= pid <= i32::MAX => Some(pid as i32),
            _ => None,
        },
        None => None,
    }
}

/// Reads the number of the client process in the parameters of an `initialize` request.
pub fn process_id(params: &JsonValue) -> (pid: Option<i32>)
    ensures
        pid == process_id_in(*params),
{
    match member(params, "processId") {
        Some(value) => match value.as_i64() {
            Some(pid) => if -0x8000_0000 <= pid && pid <= 0x7fff_ffff {
                Some(pid as i32)
            } else {
                None
            },
            None => None,
        },
        None => None,
    }
}

/// Whether a number can be that of a process, and else the text of the error.
pub fn check_pid(pid: i32) -> (checked: core::result::Result<i32, String>)
    ensures
        match checked {
            Ok(valid) => pid > 0 && valid == pid,
            Err(text) => pid <= 0 && text@ == "Invalid PID "@ + signed_decimal(pid as int),
        },
{
    if pid > 0 {
        Ok(pid)
    } else {
        Err(join("Invalid PID ", signed_decimal_text(pid).as_str()))
    }
}

/// The process to be waited for when a request comes: that of the client, as the parameters of an
/// `initialize` request tell.
pub fn to_watch(req: &AnyRequest) -> (watched: Option<i32>)
    ensures
        watched == if req.method@ == INITIALIZE@ {
            process_id_in(req.params)
        } else {
            None
        },
{
    if str_eq(req.method.as_str(), INITIALIZE) {
        process_id(&req.params)
    } else {
        None
    }
}

/// The client process is the one whose number an `initialize` request gives as `processId`, where
/// it is a number that fits; no other request tells of a process.
pub proof fn law_process_of_the_client(req: AnyRequest, watched: Option<i32>, pid: i32)
    ensures
        call_ensures(to_watch, (&req,), watched) ==> {
            &&& req.method@ != "initialize"@ ==> watched is None
            &&& req.method@ == "initialize"@ ==> (watched == Some(pid) <==> (json_member(
                req.params,
                "processId"@,
            ) matches Some(value) && json_integer(value) == Some(pid as i64)))
        },
        call_ensures(process_id, (&req.params,), watched) ==> (watched == Some(pid) <==> (
        json_member(req.params, "processId"@) matches Some(value) && json_integer(value) == Some(
            pid as i64,
        ))),
{
}

/// The number of a process is positive: each positive number passes as it is, and any other is
/// refused with an error that names it.
pub proof fn law_numbers_of_processes(pid: i32, checked: core::result::Result<i32, String>)
    requires
        call_ensures(check_pid, (pid,), checked),
    ensures
        pid > 0 ==> checked == Ok::<i32, String>(pid),
        pid <= 0 ==> (checked matches Err(text) && text@ == "Invalid PID "@ + signed_decimal(
            pid as int,
        )),
{
}

} // verus!
