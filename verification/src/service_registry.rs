//! The service registry: the table of services and, for each, of the requests
//! that still wait for an answer.
//!
//! The registry is the one place that knows where an answer has to go. Every
//! way a request can end (completion, cancellation, the deadline, a crash of
//! its worker, the deletion of its service, the death of its supervisor)
//! leads here, and whichever comes
//! first removes the request and produces the one reply. What comes later
//! finds nothing and does nothing.

use crate::http::{canceled, service_deleted, Request, RequestView, Response, ResponseView};
use crate::module_supervisor::{ModuleSupervisorMessage, ModuleSupervisorMessageView};
use crate::{ProcessHandle, RequestId, ServiceId};
use std::collections::hash_map::Entry;
use std::collections::HashMap;
use vstd::prelude::*;
use vstd::std_specs::iter::IteratorSpec;

verus! {

/// What the registry is told.
#[derive(Debug, PartialEq, Eq)]
pub enum ServiceRegistryMessage {
    StartRequest(RequestId, ServiceId, Request, ProcessHandle),
    CancelRequest(RequestId, ServiceId),
    CompleteRequest(RequestId, ServiceId, Response),
    AddService(ServiceId, Vec<u8>),
    DeleteService(ServiceId),
}

/// The mathematical value of a [`ServiceRegistryMessage`].
pub enum ServiceRegistryMessageView {
    StartRequest(RequestId, ServiceId, RequestView, ProcessHandle),
    CancelRequest(RequestId, ServiceId),
    CompleteRequest(RequestId, ServiceId, ResponseView),
    AddService(ServiceId, Seq<u8>),
    DeleteService(ServiceId),
}

impl View for ServiceRegistryMessage {
    type V = ServiceRegistryMessageView;

    open spec fn view(&self) -> ServiceRegistryMessageView {
        match *self {
            ServiceRegistryMessage::StartRequest(request_id, service_id, request, respond_to) =>
                ServiceRegistryMessageView::StartRequest(
                    request_id,
                    service_id,
                    request@,
                    respond_to,
                ),
            ServiceRegistryMessage::CancelRequest(request_id, service_id) =>
                ServiceRegistryMessageView::CancelRequest(request_id, service_id),
            ServiceRegistryMessage::CompleteRequest(request_id, service_id, response) =>
                ServiceRegistryMessageView::CompleteRequest(request_id, service_id, response@),
            ServiceRegistryMessage::AddService(service_id, module_data) =>
                ServiceRegistryMessageView::AddService(service_id, module_data@),
            ServiceRegistryMessage::DeleteService(service_id) =>
                ServiceRegistryMessageView::DeleteService(service_id),
        }
    }
}

impl Clone for ServiceRegistryMessage {
    fn clone(&self) -> (copy: Self)
        ensures
            copy@ == self@,
    {
        match self {
            ServiceRegistryMessage::StartRequest(request_id, service_id, request, respond_to) =>
                ServiceRegistryMessage::StartRequest(
                    *request_id,
                    *service_id,
                    request.clone(),
                    *respond_to,
                ),
            ServiceRegistryMessage::CancelRequest(request_id, service_id) =>
                ServiceRegistryMessage::CancelRequest(*request_id, *service_id),
            ServiceRegistryMessage::CompleteRequest(request_id, service_id, response) =>
                ServiceRegistryMessage::CompleteRequest(*request_id, *service_id, response.clone()),
            ServiceRegistryMessage::AddService(service_id, module_data) =>
                ServiceRegistryMessage::AddService(*service_id, module_data.clone()),
            ServiceRegistryMessage::DeleteService(service_id) =>
                ServiceRegistryMessage::DeleteService(*service_id),
        }
    }
}

/// Why the registry refused something.
#[derive(Clone, Copy, Debug, PartialEq, Eq, Structural)]
pub enum RegistryError {
    /// A service was to be added whose module could not be loaded.
    LoadFailed,
}

/// Something the runtime has to do on behalf of the registry.
#[derive(Debug, PartialEq, Eq)]
pub enum RegistryEffect {
    /// Send `message` to the module supervisor `supervisor`.
    Instruct { supervisor: ProcessHandle, message: ModuleSupervisorMessage },
    /// Deliver `response` to the caller waiting at `to`.
    Reply { to: ProcessHandle, response: Response },
    /// Terminate the module supervisor, and with it its workers.
    Kill { supervisor: ProcessHandle },
    /// Load the module and start a supervisor for it, linked under the
    /// service's tag, then call [`ServiceRegistry::add_service`] with the
    /// outcome.
    Launch { service_id: ServiceId, module_data: Vec<u8> },
}

/// The mathematical value of a [`RegistryEffect`].
pub enum RegistryEffectView {
    Instruct { supervisor: ProcessHandle, message: ModuleSupervisorMessageView },
    Reply { to: ProcessHandle, response: ResponseView },
    Kill { supervisor: ProcessHandle },
    Launch { service_id: ServiceId, module_data: Seq<u8> },
}

impl View for RegistryEffect {
    type V = RegistryEffectView;

    open spec fn view(&self) -> RegistryEffectView {
        match *self {
            RegistryEffect::Instruct { supervisor, message } => RegistryEffectView::Instruct {
                supervisor,
                message: message@,
            },
            RegistryEffect::Reply { to, response } => RegistryEffectView::Reply {
                to,
                response: response@,
            },
            RegistryEffect::Kill { supervisor } => RegistryEffectView::Kill { supervisor },
            RegistryEffect::Launch { service_id, module_data } => RegistryEffectView::Launch {
                service_id,
                module_data: module_data@,
            },
        }
    }
}

/// The values of a list of effects, in order.
pub open spec fn effect_views(effects: Seq<RegistryEffect>) -> Seq<RegistryEffectView> {
    effects.map_values(|effect: RegistryEffect| effect@)
}

/// A request that waits for its answer, as a mathematical value.
pub struct OutstandingView {
    /// The request as it came in.
    pub request: RequestView,
    /// Where its answer has to go.
    pub respond_to: ProcessHandle,
}

/// A registered service, as a mathematical value.
pub struct ServiceView {
    /// The service's module supervisor.
    pub supervisor: ProcessHandle,
    /// The service's requests that wait for an answer.
    pub requests: Map<RequestId, OutstandingView>,
}

impl ServiceView {
    /// The reply owed to an outstanding request when its service is deleted.
    pub open spec fn deletion_reply(self, request_id: RequestId) -> RegistryEffectView {
        RegistryEffectView::Reply {
            to: self.requests[request_id].respond_to,
            response: service_deleted(self.requests[request_id].request.version),
        }
    }

    /// The reply owed to an outstanding request when the service's supervisor
    /// has died: the request counts as cancelled.
    pub open spec fn abandonment_reply(self, request_id: RequestId) -> RegistryEffectView {
        RegistryEffectView::Reply {
            to: self.requests[request_id].respond_to,
            response: canceled(self.requests[request_id].request.version),
        }
    }

    /// The reply owed to an outstanding request when its service ends, by
    /// deletion or by the death of its supervisor.
    pub open spec fn closing_reply(self, request_id: RequestId, deleted: bool) -> RegistryEffectView {
        if deleted {
            self.deletion_reply(request_id)
        } else {
            self.abandonment_reply(request_id)
        }
    }

    /// Whether `effects` answer the requests of this service, whose
    /// supervisor has died, in the order `order`: each outstanding request,
    /// taken once, gets its reply, and nothing else is done.
    pub open spec fn is_abandoned_by(
        self,
        order: Seq<RequestId>,
        effects: Seq<RegistryEffectView>,
    ) -> bool {
        &&& order.no_duplicates()
        &&& order.to_set() == self.requests.dom()
        &&& effects == order.map_values(|request_id: RequestId| self.abandonment_reply(request_id))
    }

    /// Whether `effects` end this service with its requests answered in the
    /// order `order`: the supervisor is terminated, then each outstanding
    /// request, taken once, gets its reply.
    pub open spec fn is_drained_by(
        self,
        order: Seq<RequestId>,
        effects: Seq<RegistryEffectView>,
    ) -> bool {
        &&& order.no_duplicates()
        &&& order.to_set() == self.requests.dom()
        &&& effects == seq![RegistryEffectView::Kill { supervisor: self.supervisor }]
            + order.map_values(|request_id: RequestId| self.deletion_reply(request_id))
    }
}

/// The state of the registry as a mathematical value.
pub struct RegistryView {
    pub services: Map<ServiceId, ServiceView>,
}

impl RegistryView {
    /// Whether `request_id` waits for an answer under `service_id`.
    pub open spec fn is_outstanding(self, service_id: ServiceId, request_id: RequestId) -> bool {
        self.services.contains_key(service_id) && self.services[service_id].requests.contains_key(
            request_id,
        )
    }

    /// The state after a request was started: it is outstanding under its
    /// service. Nothing changes if the service is unknown.
    pub open spec fn after_start(
        self,
        service_id: ServiceId,
        request_id: RequestId,
        request: RequestView,
        respond_to: ProcessHandle,
    ) -> RegistryView {
        if self.services.contains_key(service_id) {
            let service = self.services[service_id];
            RegistryView {
                services: self.services.insert(
                    service_id,
                    ServiceView {
                        requests: service.requests.insert(
                            request_id,
                            OutstandingView { request, respond_to },
                        ),
                        ..service
                    },
                ),
            }
        } else {
            self
        }
    }

    /// What follows the start of a request for a known service: its
    /// supervisor is told to start it.
    pub open spec fn start_effects(
        self,
        service_id: ServiceId,
        request_id: RequestId,
        request: RequestView,
    ) -> Seq<RegistryEffectView> {
        seq![
            RegistryEffectView::Instruct {
                supervisor: self.services[service_id].supervisor,
                message: ModuleSupervisorMessageView::StartRequest(request_id, request),
            },
        ]
    }

    /// The state once `request_id` no longer waits under `service_id`.
    /// Nothing changes if it did not wait there.
    pub open spec fn settle(self, service_id: ServiceId, request_id: RequestId) -> RegistryView {
        if self.is_outstanding(service_id, request_id) {
            let service = self.services[service_id];
            RegistryView {
                services: self.services.insert(
                    service_id,
                    ServiceView { requests: service.requests.remove(request_id), ..service },
                ),
            }
        } else {
            self
        }
    }

    /// What follows a cancellation: if the request is outstanding, its
    /// supervisor is told to cancel it and the caller gets a 503.
    pub open spec fn cancel_effects(
        self,
        service_id: ServiceId,
        request_id: RequestId,
    ) -> Seq<RegistryEffectView> {
        if self.is_outstanding(service_id, request_id) {
            let service = self.services[service_id];
            let outstanding = service.requests[request_id];
            seq![
                RegistryEffectView::Instruct {
                    supervisor: service.supervisor,
                    message: ModuleSupervisorMessageView::CancelRequest(request_id),
                },
                RegistryEffectView::Reply {
                    to: outstanding.respond_to,
                    response: canceled(outstanding.request.version),
                },
            ]
        } else {
            seq![]
        }
    }

    /// What follows a completion: if the request is outstanding, the caller
    /// gets the response.
    pub open spec fn complete_effects(
        self,
        service_id: ServiceId,
        request_id: RequestId,
        response: ResponseView,
    ) -> Seq<RegistryEffectView> {
        if self.is_outstanding(service_id, request_id) {
            seq![
                RegistryEffectView::Reply {
                    to: self.services[service_id].requests[request_id].respond_to,
                    response,
                },
            ]
        } else {
            seq![]
        }
    }

    /// The state after a service was to be added: with a supervisor, the
    /// service is registered under it with no request outstanding, in place
    /// of whatever was registered under the same identity; without one,
    /// nothing changes.
    pub open spec fn after_add(
        self,
        service_id: ServiceId,
        loaded: Option<ProcessHandle>,
    ) -> RegistryView {
        match loaded {
            Some(supervisor) => RegistryView {
                services: self.services.insert(
                    service_id,
                    ServiceView { supervisor, requests: Map::empty() },
                ),
            },
            None => self,
        }
    }

    /// The state without the service.
    pub open spec fn after_delete(self, service_id: ServiceId) -> RegistryView {
        RegistryView { services: self.services.remove(service_id) }
    }

    /// Whether `effects` are what follows the deletion of a service: nothing
    /// for an unknown service; else the end of its supervisor and one 404 for
    /// each of its outstanding requests, in some order.
    pub open spec fn is_delete_effects(
        self,
        service_id: ServiceId,
        effects: Seq<RegistryEffectView>,
    ) -> bool {
        if self.services.contains_key(service_id) {
            exists|order: Seq<RequestId>| #[trigger]
                self.services[service_id].is_drained_by(order, effects)
        } else {
            effects == Seq::<RegistryEffectView>::empty()
        }
    }

    /// Whether `effects` are what follows the death of a service's
    /// supervisor: nothing for an unknown service; else one 503 for each of
    /// its outstanding requests, in some order. The supervisor is not
    /// terminated again.
    pub open spec fn is_death_effects(
        self,
        service_id: ServiceId,
        effects: Seq<RegistryEffectView>,
    ) -> bool {
        if self.services.contains_key(service_id) {
            exists|order: Seq<RequestId>| #[trigger]
                self.services[service_id].is_abandoned_by(order, effects)
        } else {
            effects == Seq::<RegistryEffectView>::empty()
        }
    }

    /// Whether the registry refuses the message: it does so for a request
    /// that is to be started for an unknown service, and for nothing else.
    pub open spec fn refuses(self, message: ServiceRegistryMessageView) -> bool {
        message matches ServiceRegistryMessageView::StartRequest(_, service_id, _, _)
            && !self.services.contains_key(service_id)
    }

    /// The state after a message.
    pub open spec fn after_message(self, message: ServiceRegistryMessageView) -> RegistryView {
        match message {
            ServiceRegistryMessageView::StartRequest(request_id, service_id, request, respond_to) =>
                self.after_start(service_id, request_id, request, respond_to),
            ServiceRegistryMessageView::CancelRequest(request_id, service_id) => self.settle(
                service_id,
                request_id,
            ),
            ServiceRegistryMessageView::CompleteRequest(request_id, service_id, _) => self.settle(
                service_id,
                request_id,
            ),
            ServiceRegistryMessageView::AddService(_, _) => self,
            ServiceRegistryMessageView::DeleteService(service_id) => self.after_delete(service_id),
        }
    }

    /// Whether `effects` are what follows a message that is not refused.
    pub open spec fn is_message_effects(
        self,
        message: ServiceRegistryMessageView,
        effects: Seq<RegistryEffectView>,
    ) -> bool {
        match message {
            ServiceRegistryMessageView::StartRequest(request_id, service_id, request, _) => effects
                == self.start_effects(service_id, request_id, request),
            ServiceRegistryMessageView::CancelRequest(request_id, service_id) => effects
                == self.cancel_effects(service_id, request_id),
            ServiceRegistryMessageView::CompleteRequest(request_id, service_id, response) => effects
                == self.complete_effects(service_id, request_id, response),
            ServiceRegistryMessageView::AddService(service_id, module_data) => effects == seq![
                RegistryEffectView::Launch { service_id, module_data },
            ],
            ServiceRegistryMessageView::DeleteService(service_id) => self.is_delete_effects(
                service_id,
                effects,
            ),
        }
    }
}

/// A request that waits for its answer.
struct Outstanding {
    request: Request,
    respond_to: ProcessHandle,
}

/// A registered service.
struct ServiceEntry {
    supervisor: ProcessHandle,
    requests: HashMap<i64, Outstanding>,
}

/// The table of services and of their outstanding requests.
pub struct ServiceRegistry {
    services: HashMap<i64, ServiceEntry>,
}

spec fn outstanding_view(outstanding: Outstanding) -> OutstandingView {
    OutstandingView { request: outstanding.request@, respond_to: outstanding.respond_to }
}

spec fn requests_view(requests: Map<i64, Outstanding>) -> Map<RequestId, OutstandingView> {
    Map::new(
        |request_id: RequestId| requests.contains_key(request_id.tag),
        |request_id: RequestId| outstanding_view(requests[request_id.tag]),
    )
}

spec fn entry_view(entry: ServiceEntry) -> ServiceView {
    ServiceView { supervisor: entry.supervisor, requests: requests_view(entry.requests@) }
}

spec fn services_view(services: Map<i64, ServiceEntry>) -> RegistryView {
    RegistryView {
        services: Map::new(
            |service_id: ServiceId| services.contains_key(service_id.tag),
            |service_id: ServiceId| entry_view(services[service_id.tag]),
        ),
    }
}

impl View for ServiceRegistry {
    type V = RegistryView;

    closed spec fn view(&self) -> RegistryView {
        services_view(self.services@)
    }
}

impl ServiceRegistry {
    /// A registry without services.
    pub fn new() -> (registry: Self)
        ensures
            registry@.services == Map::<ServiceId, ServiceView>::empty(),
    {
        let registry = ServiceRegistry { services: HashMap::new() };
        registry
    }

    /// Whether a service is registered under `service_id`.
    pub fn has_service(&self, service_id: ServiceId) -> (known: bool)
        ensures
            known == self@.services.contains_key(service_id),
    {
        broadcast use vstd::std_specs::hash::group_hash_axioms;

        self.services.contains_key(&service_id.tag)
    }

    /// Whether `request_id` waits for an answer under `service_id`.
    pub fn is_outstanding(&self, service_id: ServiceId, request_id: RequestId) -> (waiting: bool)
        ensures
            waiting == self@.is_outstanding(service_id, request_id),
    {
        broadcast use vstd::std_specs::hash::group_hash_axioms;

        match self.services.get(&service_id.tag) {
            Some(entry) => entry.requests.contains_key(&request_id.tag),
            None => false,
        }
    }

    /// The number of requests that wait for an answer under `service_id`;
    /// none for an unknown service.
    pub fn outstanding_count(&self, service_id: ServiceId) -> (count: usize)
        ensures
            self@.services.contains_key(service_id) ==> count
                == self@.services[service_id].requests.len(),
            !self@.services.contains_key(service_id) ==> count == 0,
    {
        broadcast use vstd::std_specs::hash::group_hash_axioms;

        match self.services.get(&service_id.tag) {
            Some(entry) => {
                proof {
                    lemma_requests_view_len(entry.requests@);
                }
                entry.requests.len()
            },
            None => 0,
        }
    }

    /// Starts a request for a known service: the request is recorded with
    /// its reply destination, and the service's supervisor is told to start
    /// it.
    ///
    /// A request for a service the registry does not hold means that router
    /// and registry disagree, which nothing here can repair: such a call is
    /// not allowed. [`ServiceRegistry::has_service`] tells beforehand.
    pub fn start_request(
        &mut self,
        service_id: ServiceId,
        request_id: RequestId,
        request: Request,
        respond_to: ProcessHandle,
    ) -> (effects: Vec<RegistryEffect>)
        requires
            old(self)@.services.contains_key(service_id),
        ensures
            final(self)@ == old(self)@.after_start(service_id, request_id, request@, respond_to),
            effect_views(effects@) == old(self)@.start_effects(service_id, request_id, request@),
    {
        broadcast use vstd::std_specs::hash::group_hash_axioms;

        match self.services.entry(service_id.tag) {
            Entry::Occupied(occupied) => {
                let entry = occupied.into_mut();
                let ghost before = entry.requests@;
                let stored = Outstanding { request: request.clone(), respond_to };
                entry.requests.insert(request_id.tag, stored);
                let supervisor = entry.supervisor;
                let effects = vec![
                    RegistryEffect::Instruct {
                        supervisor,
                        message: ModuleSupervisorMessage::StartRequest(request_id, request),
                    },
                ];
                proof {
                    assert(requests_view(entry.requests@) =~= requests_view(before).insert(
                        request_id,
                        outstanding_view(stored),
                    ));
                    assert(self@.services =~= old(self)@.after_start(
                        service_id,
                        request_id,
                        request@,
                        respond_to,
                    ).services);
                }
                effects
            },
            Entry::Vacant(_) => Vec::new(),
        }
    }

    /// Cancels a request.
    ///
    /// If it is outstanding, it is removed, its supervisor is told to cancel
    /// it, and the caller gets a 503. If it is not (it was answered, or never
    /// started), nothing happens.
    pub fn cancel_request(&mut self, service_id: ServiceId, request_id: RequestId) -> (effects: Vec<
        RegistryEffect,
    >)
        ensures
            final(self)@ == old(self)@.settle(service_id, request_id),
            effect_views(effects@) == old(self)@.cancel_effects(service_id, request_id),
    {
        broadcast use vstd::std_specs::hash::group_hash_axioms;

        match self.take(service_id, request_id) {
            Some((supervisor, outstanding)) => {
                vec![
                    RegistryEffect::Instruct {
                        supervisor,
                        message: ModuleSupervisorMessage::CancelRequest(request_id),
                    },
                    RegistryEffect::Reply {
                        to: outstanding.respond_to,
                        response: Response::canceled(outstanding.request.metadata.version),
                    },
                ]
            },
            None => {
                Vec::new()
            },
        }
    }

    /// Completes a request.
    ///
    /// If it is outstanding, it is removed and the caller gets `response`. If
    /// it is not, the response is dropped.
    pub fn complete_request(
        &mut self,
        request_id: RequestId,
        service_id: ServiceId,
        response: Response,
    ) -> (effects: Vec<RegistryEffect>)
        ensures
            final(self)@ == old(self)@.settle(service_id, request_id),
            effect_views(effects@) == old(self)@.complete_effects(
                service_id,
                request_id,
                response@,
            ),
    {
        broadcast use vstd::std_specs::hash::group_hash_axioms;

        match self.take(service_id, request_id) {
            Some((_, outstanding)) => {
                vec![RegistryEffect::Reply { to: outstanding.respond_to, response }]
            },
            None => {
                Vec::new()
            },
        }
    }

    /// Registers a service under the supervisor that was started for its
    /// module; `loaded` is empty if the module could not be loaded. The
    /// failure is reported to the caller and leaves the registry as it was.
    pub fn add_service(&mut self, service_id: ServiceId, loaded: Option<ProcessHandle>) -> (result:
        Result<(), RegistryError>)
        ensures
            final(self)@ == old(self)@.after_add(service_id, loaded),
            loaded is Some ==> result is Ok,
            loaded is None ==> result is Err && result->Err_0 == RegistryError::LoadFailed,
    {
        broadcast use vstd::std_specs::hash::group_hash_axioms;

        match loaded {
            Some(supervisor) => {
                let entry = ServiceEntry { supervisor, requests: HashMap::new() };
                assert(entry_view(entry).requests =~= Map::<RequestId, OutstandingView>::empty());
                self.services.insert(service_id.tag, entry);
                assert(self@.services =~= old(self)@.after_add(service_id, loaded).services);
                Ok(())
            },
            None => Err(RegistryError::LoadFailed),
        }
    }

    /// Deletes a service.
    ///
    /// Its entry is removed, its supervisor is terminated, and every request
    /// that was outstanding under it gets a 404. Nothing happens for an
    /// unknown service.
    pub fn delete_service(&mut self, service_id: ServiceId) -> (effects: Vec<RegistryEffect>)
        ensures
            final(self)@ == old(self)@.after_delete(service_id),
            old(self)@.is_delete_effects(service_id, effect_views(effects@)),
    {
        broadcast use vstd::std_specs::hash::group_hash_axioms;

        let removed = self.services.remove(&service_id.tag);
        assert(self@.services =~= old(self)@.after_delete(service_id).services);
        match removed {
            Some(entry) => {
                let effects = drain(&entry, true);
                assert(entry_view(entry) == old(self)@.services[service_id]);
                effects
            },
            None => {
                let effects = Vec::new();
                assert(effect_views(effects@) =~= Seq::<RegistryEffectView>::empty());
                effects
            },
        }
    }

    /// Takes the death of the module supervisor that was linked under `tag`.
    ///
    /// The service with that tag is removed, and every request that was
    /// outstanding under it gets a 503: with the supervisor its workers are
    /// gone. Nothing is terminated, and nothing happens if no service has
    /// the tag.
    pub fn supervisor_died(&mut self, tag: i64) -> (effects: Vec<RegistryEffect>)
        ensures
            final(self)@ == old(self)@.after_delete(ServiceId { tag }),
            old(self)@.is_death_effects(ServiceId { tag }, effect_views(effects@)),
    {
        broadcast use vstd::std_specs::hash::group_hash_axioms;

        let service_id = ServiceId { tag };
        let removed = self.services.remove(&service_id.tag);
        assert(self@.services =~= old(self)@.after_delete(service_id).services);
        match removed {
            Some(entry) => {
                let effects = drain(&entry, false);
                assert(entry_view(entry) == old(self)@.services[service_id]);
                effects
            },
            None => {
                let effects = Vec::new();
                assert(effect_views(effects@) =~= Seq::<RegistryEffectView>::empty());
                effects
            },
        }
    }

    /// Whether the registry takes the message: it takes every message but a
    /// request to be started for a service it does not hold.
    pub fn accepts(&self, message: &ServiceRegistryMessage) -> (taken: bool)
        ensures
            taken == !self@.refuses(message@),
    {
        match message {
            ServiceRegistryMessage::StartRequest(_, service_id, _, _) => self.has_service(
                *service_id,
            ),
            _ => true,
        }
    }

    /// Takes one message from the mailbox.
    ///
    /// A service to be added is answered with the order to launch its
    /// supervisor; the runtime reports the outcome to
    /// [`ServiceRegistry::add_service`]. Every other message is the call of
    /// the operation it names. A message that the registry refuses is not
    /// allowed here; [`ServiceRegistry::accepts`] tells beforehand.
    pub fn dispatch(&mut self, message: ServiceRegistryMessage) -> (effects: Vec<RegistryEffect>)
        requires
            !old(self)@.refuses(message@),
        ensures
            final(self)@ == old(self)@.after_message(message@),
            old(self)@.is_message_effects(message@, effect_views(effects@)),
    {
        match message {
            ServiceRegistryMessage::StartRequest(request_id, service_id, request, respond_to) =>
                self.start_request(service_id, request_id, request, respond_to),
            ServiceRegistryMessage::CancelRequest(request_id, service_id) => self.cancel_request(
                service_id,
                request_id,
            ),
            ServiceRegistryMessage::CompleteRequest(request_id, service_id, response) =>
                self.complete_request(request_id, service_id, response),
            ServiceRegistryMessage::AddService(service_id, module_data) => {
                let effects = vec![RegistryEffect::Launch { service_id, module_data }];
                assert(effect_views(effects@) =~= seq![
                    RegistryEffectView::Launch { service_id, module_data: module_data@ },
                ]);
                effects
            },
            ServiceRegistryMessage::DeleteService(service_id) => self.delete_service(service_id),
        }
    }

    /// Removes a request from its service's table and hands it out together
    /// with the service's supervisor; nothing if it is not outstanding.
    fn take(&mut self, service_id: ServiceId, request_id: RequestId) -> (taken: Option<
        (ProcessHandle, Outstanding),
    >)
        ensures
            final(self)@ == old(self)@.settle(service_id, request_id),
            taken is Some <==> old(self)@.is_outstanding(service_id, request_id),
            taken matches Some((supervisor, outstanding)) ==> {
                &&& supervisor == old(self)@.services[service_id].supervisor
                &&& outstanding_view(outstanding)
                    == old(self)@.services[service_id].requests[request_id]
            },
    {
        broadcast use vstd::std_specs::hash::group_hash_axioms;

        match self.services.entry(service_id.tag) {
            Entry::Occupied(occupied) => {
                let entry = occupied.into_mut();
                let ghost before = entry.requests@;
                let removed = entry.requests.remove(&request_id.tag);
                let supervisor = entry.supervisor;
                proof {
                    assert(requests_view(entry.requests@) =~= requests_view(before).remove(
                        request_id,
                    ));
                    if removed is None {
                        assert(requests_view(entry.requests@) =~= requests_view(before));
                    }
                    assert(self@.services =~= old(self)@.settle(service_id, request_id).services);
                }
                match removed {
                    Some(outstanding) => Some((supervisor, outstanding)),
                    None => None,
                }
            },
            Entry::Vacant(_) => {
                assert(self.services@ =~= old(self).services@);
                None
            },
        }
    }
}

/// The tags under which a table holds its entries, each once, in the order
/// in which the table hands them out.
fn tags_of(requests: &HashMap<i64, Outstanding>) -> (tags: Vec<i64>)
    ensures
        tags@.no_duplicates(),
        tags@.to_set() == requests@.dom(),
{
    broadcast use vstd::std_specs::hash::group_hash_axioms;

    let mut tags: Vec<i64> = Vec::new();
    for tag in walk: requests.keys()
        invariant
            tags@.len() == walk.index(),
            forall|i: int| 0 <= i < tags@.len() ==> tags@[i] == *walk.seq()[i],
    {
        tags.push(*tag);
    }
    proof {
        let handed_out = requests.keys().remaining();
        assert(tags@ =~= handed_out.unref());
    }
    tags
}

/// The effects that end a service. A service that is deleted has its
/// supervisor terminated and each of its outstanding requests answered with
/// a 404; one whose supervisor has died has each of them answered with a 503.
fn drain(entry: &ServiceEntry, deleted: bool) -> (effects: Vec<RegistryEffect>)
    ensures
        deleted ==> exists|order: Seq<RequestId>| #[trigger]
            entry_view(*entry).is_drained_by(order, effect_views(effects@)),
        !deleted ==> exists|order: Seq<RequestId>| #[trigger]
            entry_view(*entry).is_abandoned_by(order, effect_views(effects@)),
{
    broadcast use vstd::std_specs::hash::group_hash_axioms;

    let tags = tags_of(&entry.requests);
    let ghost service = entry_view(*entry);
    let ghost order = tags@.map_values(|tag: i64| RequestId { tag });
    let mut effects: Vec<RegistryEffect> = Vec::new();
    if deleted {
        effects.push(RegistryEffect::Kill { supervisor: entry.supervisor });
    }
    let ghost head = effect_views(effects@);
    let mut done: usize = 0;
    assert(effect_views(effects@) =~= head + order.take(0).map_values(
        |request_id: RequestId| service.closing_reply(request_id, deleted),
    ));
    while done < tags.len()
        invariant
            done <= tags.len(),
            service == entry_view(*entry),
            order == tags@.map_values(|tag: i64| RequestId { tag }),
            tags@.to_set() == entry.requests@.dom(),
            effect_views(effects@) == head + order.take(done as int).map_values(
                |request_id: RequestId| service.closing_reply(request_id, deleted),
            ),
        decreases tags.len() - done,
    {
        let tag = tags[done];
        assert(tags@.to_set().contains(tag));
        let ghost previous = effects@;
        match entry.requests.get(&tag) {
            Some(outstanding) => {
                let version = outstanding.request.metadata.version;
                let response = if deleted {
                    Response::service_deleted(version)
                } else {
                    Response::canceled(version)
                };
                effects.push(RegistryEffect::Reply { to: outstanding.respond_to, response });
            },
            None => {},
        }
        proof {
            assert(order.take(done + 1) =~= order.take(done as int).push(order[done as int]));
            assert(effect_views(effects@) =~= effect_views(previous).push(
                service.closing_reply(order[done as int], deleted),
            ));
        }
        done += 1;
    }
    proof {
        assert(order.take(done as int) =~= order);
        assert(order.no_duplicates()) by {
            assert forall|i: int, j: int|
                0 <= i < order.len() && 0 <= j < order.len() && i != j implies order[i]
                != order[j] by {
                assert(tags@[i] != tags@[j]);
            }
        }
        assert(order.to_set() =~= service.requests.dom()) by {
            assert forall|request_id: RequestId|
                service.requests.dom().contains(request_id) implies order.to_set().contains(
                request_id,
            ) by {
                assert(tags@.to_set().contains(request_id.tag));
                let i = choose|i: int| 0 <= i < tags@.len() && tags@[i] == request_id.tag;
                assert(order[i] == request_id);
            }
            assert forall|request_id: RequestId|
                order.to_set().contains(request_id) implies service.requests.dom().contains(
                request_id,
            ) by {
                let i = choose|i: int| 0 <= i < order.len() && order[i] == request_id;
                assert(tags@.to_set().contains(tags@[i]));
            }
        }
        let closing = order.map_values(
            |request_id: RequestId| service.closing_reply(request_id, deleted),
        );
        if deleted {
            assert(head =~= seq![RegistryEffectView::Kill { supervisor: service.supervisor }]);
            assert(closing =~= order.map_values(
                |request_id: RequestId| service.deletion_reply(request_id),
            ));
            assert(service.is_drained_by(order, effect_views(effects@)));
        } else {
            assert(head =~= Seq::<RegistryEffectView>::empty());
            assert(closing =~= order.map_values(
                |request_id: RequestId| service.abandonment_reply(request_id),
            ));
            assert(effect_views(effects@) =~= closing);
            assert(service.is_abandoned_by(order, effect_views(effects@)));
        }
    }
    effects
}

/// A table of requests holds as many entries as its mathematical value.
proof fn lemma_requests_view_len(requests: Map<i64, Outstanding>)
    requires
        requests.dom().finite(),
    ensures
        requests_view(requests).len() == requests.len(),
{
    crate::module_supervisor::lemma_tagged_len(requests);
    let tagged = Map::new(
        |request_id: RequestId| requests.contains_key(request_id.tag),
        |request_id: RequestId| requests[request_id.tag],
    );
    assert(requests_view(requests).dom() =~= tagged.dom());
}

/// A request that was started for a known service ends with one reply to
/// the destination it was started with: the first completion delivers its
/// response there, and so does the first cancellation with a 503. Once the
/// request has ended, a further completion or cancellation produces nothing
/// and changes nothing.
pub proof fn lemma_at_most_once_delivery(
    state: RegistryView,
    service_id: ServiceId,
    request_id: RequestId,
    request: RequestView,
    respond_to: ProcessHandle,
    first: ResponseView,
    second: ResponseView,
)
    requires
        state.services.contains_key(service_id),
    ensures
        ({
            let started = state.after_start(service_id, request_id, request, respond_to);
            let ended = started.settle(service_id, request_id);
            &&& started.is_outstanding(service_id, request_id)
            &&& started.complete_effects(service_id, request_id, first) == seq![
                RegistryEffectView::Reply { to: respond_to, response: first },
            ]
            &&& started.cancel_effects(service_id, request_id) == seq![
                RegistryEffectView::Instruct {
                    supervisor: state.services[service_id].supervisor,
                    message: ModuleSupervisorMessageView::CancelRequest(request_id),
                },
                RegistryEffectView::Reply { to: respond_to, response: canceled(request.version) },
            ]
            &&& !ended.is_outstanding(service_id, request_id)
            &&& ended.complete_effects(service_id, request_id, second)
                == Seq::<RegistryEffectView>::empty()
            &&& ended.cancel_effects(service_id, request_id) == Seq::<RegistryEffectView>::empty()
            &&& ended.settle(service_id, request_id) == ended
        }),
{
}

/// Whatever the state, a request that has ended stays ended: after the first
/// completion or cancellation it is not outstanding, and any further one
/// produces nothing and changes nothing.
pub proof fn lemma_ended_request_stays_silent(
    state: RegistryView,
    service_id: ServiceId,
    request_id: RequestId,
    late: ResponseView,
)
    ensures
        ({
            let ended = state.settle(service_id, request_id);
            &&& !ended.is_outstanding(service_id, request_id)
            &&& ended.complete_effects(service_id, request_id, late)
                == Seq::<RegistryEffectView>::empty()
            &&& ended.cancel_effects(service_id, request_id) == Seq::<RegistryEffectView>::empty()
            &&& ended.settle(service_id, request_id) == ended
        }),
{
}

/// Ending one request leaves every other request as it was: whether it is
/// outstanding, and what is recorded for it.
pub proof fn lemma_ending_one_request_keeps_the_others(
    state: RegistryView,
    service_id: ServiceId,
    request_id: RequestId,
    other_service: ServiceId,
    other_request: RequestId,
)
    requires
        other_service != service_id || other_request != request_id,
    ensures
        ({
            let ended = state.settle(service_id, request_id);
            &&& ended.is_outstanding(other_service, other_request) == state.is_outstanding(
                other_service,
                other_request,
            )
            &&& state.is_outstanding(other_service, other_request)
                ==> ended.services[other_service].requests[other_request]
                == state.services[other_service].requests[other_request]
        }),
{
}

/// Deleting a service that has N requests outstanding produces the end of
/// its supervisor followed by exactly N replies, each a 404 and each the one
/// owed to a different outstanding request, so that every outstanding request
/// is answered. Afterwards the service is gone, and with it every entry that
/// was kept for its requests: later completions and cancellations for them
/// produce nothing.
pub proof fn lemma_deletion_answers_every_request(
    state: RegistryView,
    service_id: ServiceId,
    effects: Seq<RegistryEffectView>,
    late: ResponseView,
)
    requires
        state.services.contains_key(service_id),
        state.is_delete_effects(service_id, effects),
    ensures
        state.services[service_id].requests.dom().finite(),
        effects.len() == 1 + state.services[service_id].requests.len(),
        effects[0] == (RegistryEffectView::Kill {
            supervisor: state.services[service_id].supervisor,
        }),
        forall|i: int|
            1 <= i < effects.len() ==> (#[trigger] effects[i]) is Reply
                && effects[i]->response.status == crate::http::STATUS_NOT_FOUND,
        forall|request_id: RequestId| #[trigger]
            state.services[service_id].requests.contains_key(request_id) ==> effects.contains(
                state.services[service_id].deletion_reply(request_id),
            ),
        !state.after_delete(service_id).services.contains_key(service_id),
        forall|request_id: RequestId|
            {
                &&& !(#[trigger] state.after_delete(service_id).is_outstanding(
                    service_id,
                    request_id,
                ))
                &&& state.after_delete(service_id).complete_effects(service_id, request_id, late)
                    == Seq::<RegistryEffectView>::empty()
                &&& state.after_delete(service_id).cancel_effects(service_id, request_id)
                    == Seq::<RegistryEffectView>::empty()
            },
{
    let service = state.services[service_id];
    let order = choose|order: Seq<RequestId>| #[trigger] service.is_drained_by(order, effects);
    let replies = order.map_values(|request_id: RequestId| service.deletion_reply(request_id));
    order.unique_seq_to_set();
    vstd::seq_lib::seq_to_set_is_finite(order);
    assert forall|i: int| 1 <= i < effects.len() implies (#[trigger] effects[i]) is Reply
        && effects[i]->response.status == crate::http::STATUS_NOT_FOUND by {
        assert(effects[i] == replies[i - 1]);
    }
    assert forall|request_id: RequestId| #[trigger]
        service.requests.contains_key(request_id) implies effects.contains(
        service.deletion_reply(request_id),
    ) by {
        assert(order.to_set().contains(request_id));
        let at = choose|at: int| 0 <= at < order.len() && order[at] == request_id;
        assert(effects[at + 1] == replies[at]);
    }
}

/// When the supervisor of a service with N requests outstanding has died,
/// what follows is exactly N replies, each a 503 and each the one owed to a
/// different outstanding request, so that every outstanding request is
/// answered. Afterwards the service is gone with every entry that was kept
/// for its requests: later completions and cancellations for them produce
/// nothing.
pub proof fn lemma_supervisor_death_answers_every_request(
    state: RegistryView,
    service_id: ServiceId,
    effects: Seq<RegistryEffectView>,
    late: ResponseView,
)
    requires
        state.services.contains_key(service_id),
        state.is_death_effects(service_id, effects),
    ensures
        state.services[service_id].requests.dom().finite(),
        effects.len() == state.services[service_id].requests.len(),
        forall|i: int|
            0 <= i < effects.len() ==> (#[trigger] effects[i]) is Reply
                && effects[i]->response.status == crate::http::STATUS_SERVICE_UNAVAILABLE,
        forall|request_id: RequestId| #[trigger]
            state.services[service_id].requests.contains_key(request_id) ==> effects.contains(
                state.services[service_id].abandonment_reply(request_id),
            ),
        !state.after_delete(service_id).services.contains_key(service_id),
        forall|request_id: RequestId|
            {
                &&& !(#[trigger] state.after_delete(service_id).is_outstanding(
                    service_id,
                    request_id,
                ))
                &&& state.after_delete(service_id).complete_effects(service_id, request_id, late)
                    == Seq::<RegistryEffectView>::empty()
                &&& state.after_delete(service_id).cancel_effects(service_id, request_id)
                    == Seq::<RegistryEffectView>::empty()
            },
{
    let service = state.services[service_id];
    let order = choose|order: Seq<RequestId>| #[trigger] service.is_abandoned_by(order, effects);
    order.unique_seq_to_set();
    vstd::seq_lib::seq_to_set_is_finite(order);
    assert forall|request_id: RequestId| #[trigger]
        service.requests.contains_key(request_id) implies effects.contains(
        service.abandonment_reply(request_id),
    ) by {
        assert(order.to_set().contains(request_id));
        let at = choose|at: int| 0 <= at < order.len() && order[at] == request_id;
        assert(effects[at] == service.abandonment_reply(request_id));
    }
}

/// Registering a service leaves every service with another identity as it
/// was, and with it the requests outstanding there: they end as they would
/// have ended without the registration.
pub proof fn lemma_registration_keeps_other_services(
    state: RegistryView,
    new_service: ServiceId,
    loaded: Option<ProcessHandle>,
    service_id: ServiceId,
    request_id: RequestId,
    response: ResponseView,
)
    requires
        service_id != new_service,
    ensures
        ({
            let after = state.after_add(new_service, loaded);
            &&& after.services.contains_key(service_id) == state.services.contains_key(service_id)
            &&& state.services.contains_key(service_id) ==> after.services[service_id]
                == state.services[service_id]
            &&& after.is_outstanding(service_id, request_id) == state.is_outstanding(
                service_id,
                request_id,
            )
            &&& after.complete_effects(service_id, request_id, response) == state.complete_effects(
                service_id,
                request_id,
                response,
            )
            &&& after.cancel_effects(service_id, request_id) == state.cancel_effects(
                service_id,
                request_id,
            )
        }),
{
}

/// The message that asks the registry to start a request.
pub fn start_request(
    request_id: RequestId,
    service_id: ServiceId,
    request: Request,
    respond_to: ProcessHandle,
) -> (message: ServiceRegistryMessage)
    ensures
        message == ServiceRegistryMessage::StartRequest(request_id, service_id, request, respond_to),
{
    ServiceRegistryMessage::StartRequest(request_id, service_id, request, respond_to)
}

/// The message that asks the registry to cancel a request.
pub fn cancel_request(request_id: RequestId, service_id: ServiceId) -> (message:
    ServiceRegistryMessage)
    ensures
        message == ServiceRegistryMessage::CancelRequest(request_id, service_id),
{
    ServiceRegistryMessage::CancelRequest(request_id, service_id)
}

/// The message that asks the registry to add a service.
pub fn add_service(service_id: ServiceId, module_data: Vec<u8>) -> (message: ServiceRegistryMessage)
    ensures
        message == ServiceRegistryMessage::AddService(service_id, module_data),
{
    ServiceRegistryMessage::AddService(service_id, module_data)
}

/// The message that asks the registry to delete a service.
pub fn delete_service(service_id: ServiceId) -> (message: ServiceRegistryMessage)
    ensures
        message == ServiceRegistryMessage::DeleteService(service_id),
{
    ServiceRegistryMessage::DeleteService(service_id)
}

} // verus!
