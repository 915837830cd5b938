//! The supervision and dispatch core of a request-routing runtime.
//!
//! Incoming requests are resolved by path prefix to a registered service,
//! tracked by the service registry while a single-use worker handles them, and
//! answered exactly once. Each actor of the runtime is modelled as a state
//! with transition functions: a transition takes the state and one event and
//! returns the effects that the surrounding runtime has to carry out (messages
//! to send, workers to terminate). Nothing here performs I/O.

use vstd::prelude::*;

pub mod application;
pub mod encoding;
pub mod headers;
pub mod http;
pub mod listener;
pub mod module_supervisor;
pub mod protocol;
pub mod router;
pub mod service_registry;
pub mod worker;

pub use crate::application::Application;
pub use crate::http::{Method, Request, RequestMetadata, Response, ResponseMetadata, Version};
pub use crate::module_supervisor::{ModuleSupervisor, ModuleSupervisorMessage, WorkerMessage};
pub use crate::router::Router;
pub use crate::service_registry::{ServiceRegistry, ServiceRegistryMessage};

verus! {

/// Identity of a registered service.
///
/// The tag is minted by the runtime when the service is registered. It keys
/// the registry's service table and is the link tag of the service's module
/// supervisor.
#[derive(Clone, Copy, Debug, PartialEq, Eq, Structural, Hash)]
pub struct ServiceId {
    pub tag: i64,
}

/// Address of an actor: the node it runs on and its id on that node.
///
/// The library never inspects an address; it stores addresses it is given and
/// hands them back in the effects it returns.
#[derive(Clone, Copy, Debug, PartialEq, Eq, Structural, Hash)]
pub struct ProcessHandle {
    pub node_id: u64,
    pub id: u64,
}

/// Identity of one request in flight.
///
/// The tag is minted by the runtime when the router accepts the request. It
/// keys the outstanding-request tables and is the link tag of the worker that
/// handles the request.
#[derive(Clone, Copy, Debug, PartialEq, Eq, Structural, Hash)]
pub struct RequestId {
    pub tag: i64,
}

} // verus!
