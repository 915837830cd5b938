//! The worker's side of the exchange with its module supervisor.
//!
//! A worker lives for one task: it takes the request out of the task,
//! computes a response, and sends the response back under the request's
//! identity.

use crate::http::{synthesized, Request, RequestView, Response, ResponseView, STATUS_OK};
use crate::module_supervisor::{ModuleSupervisorMessage, WorkerMessage};
use crate::ProcessHandle;
use vstd::prelude::*;
use vstd::string::*;

verus! {

/// The message that returns `response` for `task`, and the supervisor it has
/// to be sent to.
pub fn answer(task: WorkerMessage, response: Response) -> (reply: (
    ProcessHandle,
    ModuleSupervisorMessage,
))
    ensures
        task matches WorkerMessage::Request(request_id, _, reply_to) && reply.0 == reply_to
            && reply.1 == ModuleSupervisorMessage::CompleteRequest(request_id, response),
{
    match task {
        WorkerMessage::Request(request_id, _, reply_to) => (
            reply_to,
            ModuleSupervisorMessage::CompleteRequest(request_id, response),
        ),
    }
}

/// What the greeting service answers to any request: a 200 in the request's
/// version.
pub open spec fn greeting(request: RequestView) -> ResponseView {
    synthesized(STATUS_OK, request.version, "Hello World!".spec_bytes())
}

/// The greeting service: answers every request with the same greeting.
pub fn hello_world(request: &Request) -> (response: Response)
    ensures
        response@ == greeting(request@),
{
    Response::synthesized(STATUS_OK, request.metadata.version, "Hello World!".as_bytes_vec())
}

} // verus!
