//! What a listener decides for each request it accepts.
//!
//! The listener itself, the transport that decodes requests and serves
//! responses, is not part of this library. What is here are its decisions:
//! which part of a path names the service, what becomes of a request with a
//! given path, and what the caller gets when nothing comes back.

use crate::http::{
    bad_reply, is_valid_status, lost_service, missing_prefix, outer_timeout, synthesized,
    unknown_service, Request, RequestView, Response, ResponseView, Version, STATUS_NOT_FOUND,
    STATUS_SERVICE_UNAVAILABLE,
};
use crate::router::{resolution, Router};
use crate::service_registry::{ServiceRegistryMessage, ServiceRegistryMessageView};
use crate::{ProcessHandle, RequestId, ServiceId};
use vstd::prelude::*;
use vstd::string::*;

verus! {

/// How long a listener waits for the reply to a request, in milliseconds.
/// Every service's own deadline is shorter.
pub const OUTER_TIMEOUT_MILLIS: u64 = 30_000;

/// The largest module, in bytes, that the management surface takes in.
pub const MAX_MODULE_BYTES: usize = 5_242_880;

/// The position of the first `/` of `path` at or after `from`, or the length
/// of `path` if there is none.
pub open spec fn slash_from(path: Seq<char>, from: int) -> int
    decreases path.len() - from,
{
    if from < 0 || from >= path.len() {
        path.len() as int
    } else if path[from] == '/' {
        from
    } else {
        slash_from(path, from + 1)
    }
}

/// The part of a path that names the service: its first segment.
///
/// A path without `/` has none. In a path that starts with `/`, it is what
/// stands between that `/` and the next one, or the end. In any other path it
/// is what stands before the first `/`.
pub open spec fn prefix_of(path: Seq<char>) -> Option<Seq<char>> {
    let first = slash_from(path, 0);
    if first == path.len() {
        None
    } else if first == 0 {
        Some(path.subrange(1, slash_from(path, 1)))
    } else {
        Some(path.subrange(0, first))
    }
}

/// `slash_from` finds the first `/` from `from` on: nothing before the
/// position it gives is a `/`, and the position holds one unless it is the
/// end of the path.
pub proof fn lemma_slash_from(path: Seq<char>, from: int)
    requires
        0 <= from <= path.len(),
    ensures
        from <= slash_from(path, from) <= path.len(),
        forall|i: int| from <= i < slash_from(path, from) ==> path[i] != '/',
        slash_from(path, from) < path.len() ==> path[slash_from(path, from)] == '/',
    decreases path.len() - from,
{
    if from < path.len() && path[from] != '/' {
        lemma_slash_from(path, from + 1);
    }
}

/// Only one position is that of the first `/` from `from` on.
proof fn lemma_slash_from_is(path: Seq<char>, from: int, at: int)
    requires
        0 <= from <= at <= path.len(),
        forall|i: int| from <= i < at ==> path[i] != '/',
        at < path.len() ==> path[at] == '/',
    ensures
        slash_from(path, from) == at,
    decreases at - from,
{
    if from < at {
        lemma_slash_from_is(path, from + 1, at);
    }
}

/// The position of the first `/` of `path` at or after `from`, in characters.
fn find_slash(path: &str, from: usize) -> (at: usize)
    requires
        from <= path@.len(),
    ensures
        at == slash_from(path@, from as int),
{
    broadcast use vstd::string::group_string_axioms;

    let length = path.unicode_len();
    let mut position: usize = 0;
    let mut found: Option<usize> = None;
    for letter in walk: path.chars()
        invariant
            length == path@.len(),
            walk.seq() == path@,
            position == walk.index(),
            from <= length,
            match found {
                Some(at) => {
                    &&& from <= at < position
                    &&& path@[at as int] == '/'
                    &&& forall|i: int| from <= i < at ==> path@[i] != '/'
                },
                None => forall|i: int| from <= i < position ==> path@[i] != '/',
            },
    {
        if found.is_none() && position >= from && letter == '/' {
            found = Some(position);
        }
        position += 1;
    }
    let at = match found {
        Some(at) => at,
        None => length,
    };
    proof {
        lemma_slash_from_is(path@, from as int, at as int);
    }
    at
}

/// The first segment of `path`, by which its service is found.
pub fn path_prefix(path: &str) -> (prefix: Option<String>)
    ensures
        match prefix {
            Some(segment) => prefix_of(path@) == Some(segment@),
            None => prefix_of(path@) is None,
        },
{
    let length = path.unicode_len();
    let first = find_slash(path, 0);
    proof {
        lemma_slash_from(path@, 0);
    }
    if first == length {
        None
    } else if first == 0 {
        let second = find_slash(path, 1);
        proof {
            lemma_slash_from(path@, 1);
        }
        Some(path.substring_char(1, second).to_owned())
    } else {
        Some(path.substring_char(0, first).to_owned())
    }
}

/// Where a path leads.
#[derive(Debug, PartialEq, Eq)]
pub enum Route {
    /// To the management surface.
    Management,
    /// To the service registered under the prefix.
    Service(String),
    /// Nowhere: the path has no first segment.
    Missing,
}

/// The mathematical value of a [`Route`].
pub enum RouteView {
    Management,
    Service(Seq<char>),
    Missing,
}

impl View for Route {
    type V = RouteView;

    open spec fn view(&self) -> RouteView {
        match *self {
            Route::Management => RouteView::Management,
            Route::Service(prefix) => RouteView::Service(prefix@),
            Route::Missing => RouteView::Missing,
        }
    }
}

/// Where `path` leads: the prefix `services` is the management surface, any
/// other prefix names a service.
pub open spec fn route_of(path: Seq<char>) -> RouteView {
    match prefix_of(path) {
        Some(prefix) => if prefix == "services"@ {
            RouteView::Management
        } else {
            RouteView::Service(prefix)
        },
        None => RouteView::Missing,
    }
}

/// Where `path` leads.
pub fn route(path: &str) -> (found: Route)
    ensures
        found@ == route_of(path@),
{
    match path_prefix(path) {
        Some(prefix) => {
            let reserved = "services".to_owned();
            if prefix == reserved {
                Route::Management
            } else {
                Route::Service(prefix)
            }
        },
        None => Route::Missing,
    }
}

/// What a listener does with a request.
#[derive(Debug, PartialEq, Eq)]
pub enum Decision {
    /// Answer the caller at once.
    Respond(Response),
    /// Hand the request to the management surface.
    Manage,
    /// Send `message` to the registry, then wait for the reply, for
    /// `wait_millis` milliseconds at most; see [`conclude`].
    Forward { message: ServiceRegistryMessage, wait_millis: u64 },
}

/// The mathematical value of a [`Decision`].
pub enum DecisionView {
    Respond(ResponseView),
    Manage,
    Forward { message: ServiceRegistryMessageView, wait_millis: u64 },
}

impl View for Decision {
    type V = DecisionView;

    open spec fn view(&self) -> DecisionView {
        match *self {
            Decision::Respond(response) => DecisionView::Respond(response@),
            Decision::Manage => DecisionView::Manage,
            Decision::Forward { message, wait_millis } => DecisionView::Forward {
                message: message@,
                wait_millis,
            },
        }
    }
}

/// What becomes of a request on a given route, once the router has been
/// asked: `resolved` is the router's answer for a route to a service.
///
/// A path without prefix, and a prefix under which no service is registered,
/// are answered with a 404 at once. A request for a registered service goes
/// to the registry under the identity the router gave it, with `reply_to` as
/// the destination of the answer, and the listener waits for the outer bound
/// at most.
pub open spec fn decision_on(
    found: RouteView,
    resolved: Option<(ServiceId, RequestId)>,
    request: RequestView,
    reply_to: ProcessHandle,
) -> DecisionView {
    match found {
        RouteView::Management => DecisionView::Manage,
        RouteView::Service(_) => match resolved {
            Some((service_id, request_id)) => DecisionView::Forward {
                message: ServiceRegistryMessageView::StartRequest(
                    request_id,
                    service_id,
                    request,
                    reply_to,
                ),
                wait_millis: OUTER_TIMEOUT_MILLIS,
            },
            None => DecisionView::Respond(unknown_service(request.version)),
        },
        RouteView::Missing => DecisionView::Respond(missing_prefix(request.version)),
    }
}

/// What becomes of a request with the given path, for a router with the
/// given table: the route is that of the path, and the router is asked for
/// the route's prefix with `fresh_tag` at hand.
pub open spec fn decision_of(
    table: Map<Seq<char>, ServiceId>,
    path: Seq<char>,
    request: RequestView,
    reply_to: ProcessHandle,
    fresh_tag: i64,
) -> DecisionView {
    decision_on(
        route_of(path),
        match route_of(path) {
            RouteView::Service(prefix) => resolution(table, prefix, fresh_tag),
            _ => None,
        },
        request,
        reply_to,
    )
}

/// Decides what becomes of a request on the route `found`. `resolved` is
/// what the router answered when asked for the route's prefix; it is not
/// looked at on a route that leads to no service. `reply_to` is the address
/// at which the listener will wait.
pub fn decide(
    found: Route,
    resolved: Option<(ServiceId, RequestId)>,
    request: Request,
    reply_to: ProcessHandle,
) -> (decision: Decision)
    ensures
        decision@ == decision_on(found@, resolved, request@, reply_to),
{
    match found {
        Route::Management => Decision::Manage,
        Route::Service(_) => match resolved {
            Some((service_id, request_id)) => Decision::Forward {
                message: crate::service_registry::start_request(
                    request_id,
                    service_id,
                    request,
                    reply_to,
                ),
                wait_millis: OUTER_TIMEOUT_MILLIS,
            },
            None => Decision::Respond(Response::unknown_service(request.metadata.version)),
        },
        Route::Missing => Decision::Respond(Response::missing_prefix(request.metadata.version)),
    }
}

/// Decides what becomes of a request, asking `router` where the path leads to
/// a service. `path` is the path of the request's URI, `reply_to` the address
/// at which the listener will wait, and `fresh_tag` a tag newly minted by the
/// runtime, which is used only if the request is forwarded.
pub fn handle(
    router: &Router,
    path: &str,
    request: Request,
    reply_to: ProcessHandle,
    fresh_tag: i64,
) -> (decision: Decision)
    ensures
        decision@ == decision_of(router@, path@, request@, reply_to, fresh_tag),
{
    let found = route(path);
    let resolved = match &found {
        Route::Service(prefix) => router.create_request(prefix.clone(), fresh_tag),
        _ => None,
    };
    decide(found, resolved, request, reply_to)
}

/// How a listener's wait ended.
#[derive(Debug, PartialEq, Eq)]
pub enum Arrival {
    /// A reply arrived.
    Reply(Response),
    /// Nothing arrived within the outer bound.
    TimedOut,
    /// A process linked to the waiting one died.
    LinkDied,
    /// Something arrived that is no response.
    Undecodable,
}

/// The mathematical value of an [`Arrival`].
pub enum ArrivalView {
    Reply(ResponseView),
    TimedOut,
    LinkDied,
    Undecodable,
}

impl View for Arrival {
    type V = ArrivalView;

    open spec fn view(&self) -> ArrivalView {
        match *self {
            Arrival::Reply(response) => ArrivalView::Reply(response@),
            Arrival::TimedOut => ArrivalView::TimedOut,
            Arrival::LinkDied => ArrivalView::LinkDied,
            Arrival::Undecodable => ArrivalView::Undecodable,
        }
    }
}

/// What the caller gets at the end of the wait: the reply if one arrived and
/// carries a status that can be passed on, a 502 in the reply's version if
/// its status cannot; the 408 if nothing arrived; a 503 if the wait ended
/// with a death; a 502 if what arrived was no response.
pub open spec fn conclusion(arrival: ArrivalView) -> ResponseView {
    match arrival {
        ArrivalView::Reply(response) => if is_valid_status(response.status) {
            response
        } else {
            bad_reply(response.version)
        },
        ArrivalView::TimedOut => outer_timeout(),
        ArrivalView::LinkDied => lost_service(),
        ArrivalView::Undecodable => bad_reply(Version::Http11),
    }
}

/// Ends a listener's wait with the response for the caller. Whatever
/// happened, the response carries a status of three digits.
pub fn conclude(arrival: Arrival) -> (response: Response)
    ensures
        response@ == conclusion(arrival@),
        is_valid_status(response@.status),
{
    match arrival {
        Arrival::Reply(response) => if response.has_valid_status() {
            response
        } else {
            Response::bad_reply(response.metadata.version)
        },
        Arrival::TimedOut => Response::outer_timeout(),
        Arrival::LinkDied => Response::lost_service(),
        Arrival::Undecodable => Response::bad_reply(Version::Http11),
    }
}

/// Every response a listener decides on by itself carries a status of three
/// digits: the answer given at once to a request that is not forwarded, and
/// the answer at the end of a wait.
pub proof fn lemma_listener_answers_are_well_formed(
    found: RouteView,
    resolved: Option<(ServiceId, RequestId)>,
    request: RequestView,
    reply_to: ProcessHandle,
    arrival: ArrivalView,
)
    ensures
        decision_on(found, resolved, request, reply_to) matches DecisionView::Respond(response)
            ==> is_valid_status(response.status),
        is_valid_status(conclusion(arrival).status),
{
}

/// What the management surface is asked to do.
#[derive(Clone, Copy, Debug, PartialEq, Eq, Structural)]
pub enum ManagementRoute {
    /// Fetch a module and register it as a service.
    AddService,
    /// Nothing it knows of.
    Unknown,
}

/// What the management surface is asked to do under `path`.
pub open spec fn management_route_of(path: Seq<char>) -> ManagementRoute {
    if path == "/services/add"@ {
        ManagementRoute::AddService
    } else {
        ManagementRoute::Unknown
    }
}

/// What the management surface is asked to do under `path`.
pub fn service_handler(path: &str) -> (found: ManagementRoute)
    ensures
        found == management_route_of(path@),
{
    let given = path.to_owned();
    let known = "/services/add".to_owned();
    if given == known {
        ManagementRoute::AddService
    } else {
        ManagementRoute::Unknown
    }
}

/// The answer to a management request, which has no body unless the request
/// succeeded: a 404 for one the surface does not know, a 503 for one that
/// failed, and a 200 with a report for one that succeeded.
pub open spec fn management_response(
    found: ManagementRoute,
    outcome: Option<Seq<u8>>,
    version: Version,
) -> ResponseView {
    match found {
        ManagementRoute::Unknown => synthesized(STATUS_NOT_FOUND, version, Seq::empty()),
        ManagementRoute::AddService => match outcome {
            Some(report) => synthesized(crate::http::STATUS_OK, version, report),
            None => synthesized(STATUS_SERVICE_UNAVAILABLE, version, Seq::empty()),
        },
    }
}

/// Answers a management request. `outcome` holds the report of a service
/// that was added, and is empty if adding it failed.
pub fn respond_to_management(
    found: ManagementRoute,
    outcome: Option<Vec<u8>>,
    version: Version,
) -> (response: Response)
    ensures
        response@ == management_response(
            found,
            match outcome {
                Some(report) => Some(report@),
                None => None,
            },
            version,
        ),
{
    match found {
        ManagementRoute::Unknown => Response::synthesized(STATUS_NOT_FOUND, version, Vec::new()),
        ManagementRoute::AddService => match outcome {
            Some(report) => Response::synthesized(crate::http::STATUS_OK, version, report),
            None => Response::synthesized(STATUS_SERVICE_UNAVAILABLE, version, Vec::new()),
        },
    }
}

/// The port at which the host of a module is asked when its address names
/// none.
pub const DEFAULT_MODULE_PORT: u16 = 80;

/// The port at which the host of a module is asked.
pub fn module_port(named: Option<u16>) -> (port: u16)
    ensures
        port == match named {
            Some(port) => port,
            None => DEFAULT_MODULE_PORT,
        },
{
    match named {
        Some(port) => port,
        None => DEFAULT_MODULE_PORT,
    }
}

/// The request by which the management surface asks a host for a module:
/// a `GET` over HTTP/1.0 for the module's path, with three headers and no
/// body.
pub open spec fn module_request_text(path_and_query: Seq<char>, host: Seq<char>) -> Seq<char> {
    "GET "@ + path_and_query + " HTTP/1.0\r\n"@ + "User-Agent: Custom-Lunatic/0.0\r\n"@
        + "Connection: keep-alive\r\n"@ + "Host: "@ + host + "\r\n"@ + "\r\n"@
}

/// The request by which the management surface asks `host` for the module
/// at `path_and_query`.
pub fn module_request(path_and_query: &str, host: &str) -> (text: String)
    ensures
        text@ == module_request_text(path_and_query@, host@),
{
    let mut text = "GET ".to_owned();
    text.append(path_and_query);
    text.append(" HTTP/1.0\r\n");
    text.append("User-Agent: Custom-Lunatic/0.0\r\n");
    text.append("Connection: keep-alive\r\n");
    text.append("Host: ");
    text.append(host);
    text.append("\r\n");
    text.append("\r\n");
    text
}

/// Whether `line` ends the headers of an answer: it does if it is empty but
/// for its line break.
pub fn ends_headers(line: &str) -> (last: bool)
    ensures
        last == (line@ == "\r\n"@),
{
    let given = line.to_owned();
    let blank = "\r\n".to_owned();
    given == blank
}

/// Whether `line` is the status line of the only answer the management
/// surface accepts from the host of a module.
pub fn is_ok_status_line(line: &str) -> (accepted: bool)
    ensures
        accepted == (line@ == "HTTP/1.0 200 OK\r\n"@),
{
    let given = line.to_owned();
    let expected = "HTTP/1.0 200 OK\r\n".to_owned();
    given == expected
}

/// Whether a module of `length` bytes is small enough to be taken in.
pub fn accepts_module_size(length: usize) -> (accepted: bool)
    ensures
        accepted == (length <= MAX_MODULE_BYTES),
{
    length <= MAX_MODULE_BYTES
}

/// The deadline a service has unless its deployment chooses another is
/// shorter than the listener's wait.
pub proof fn lemma_standard_deadline_precedes_outer_bound()
    ensures
        crate::module_supervisor::MODULE_TIMEOUT_MILLIS < OUTER_TIMEOUT_MILLIS,
{
}

} // verus!
