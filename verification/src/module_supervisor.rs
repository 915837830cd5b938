//! The module supervisor: one per service, it turns every request into one
//! single-use worker and tells the registry how the request ended.
//!
//! The supervisor never starts or stops a worker itself. Its transitions
//! return [`SupervisorEffect`]s, and the runtime that owns the loaded module
//! carries them out in the order given.

use crate::http::{spawn_failed, timed_out, Request, RequestView, Response, ResponseView};
use crate::listener::OUTER_TIMEOUT_MILLIS;
use crate::service_registry::{ServiceRegistryMessage, ServiceRegistryMessageView};
use crate::{ProcessHandle, RequestId, ServiceId};
use std::collections::HashMap;
use vstd::prelude::*;

verus! {

/// Deadline of a request, in milliseconds, unless a deployment chooses its own.
pub const MODULE_TIMEOUT_MILLIS: u64 = 30;

/// Upper bound on the memory of one worker, in bytes.
pub const WORKER_MAX_MEMORY: u64 = 1_073_741_824;

/// What a module supervisor is told, by the registry or by one of its workers.
#[derive(Debug, PartialEq, Eq)]
pub enum ModuleSupervisorMessage {
    StartRequest(RequestId, Request),
    CancelRequest(RequestId),
    CompleteRequest(RequestId, Response),
    /// The deadline of the request has passed. A supervisor sends this to
    /// itself, delayed by the deadline, when it starts a request.
    DeadlinePassed(RequestId),
}

/// The mathematical value of a [`ModuleSupervisorMessage`].
pub enum ModuleSupervisorMessageView {
    StartRequest(RequestId, RequestView),
    CancelRequest(RequestId),
    CompleteRequest(RequestId, ResponseView),
    DeadlinePassed(RequestId),
}

impl View for ModuleSupervisorMessage {
    type V = ModuleSupervisorMessageView;

    open spec fn view(&self) -> ModuleSupervisorMessageView {
        match *self {
            ModuleSupervisorMessage::StartRequest(request_id, request) =>
                ModuleSupervisorMessageView::StartRequest(request_id, request@),
            ModuleSupervisorMessage::CancelRequest(request_id) =>
                ModuleSupervisorMessageView::CancelRequest(request_id),
            ModuleSupervisorMessage::CompleteRequest(request_id, response) =>
                ModuleSupervisorMessageView::CompleteRequest(request_id, response@),
            ModuleSupervisorMessage::DeadlinePassed(request_id) =>
                ModuleSupervisorMessageView::DeadlinePassed(request_id),
        }
    }
}

impl Clone for ModuleSupervisorMessage {
    fn clone(&self) -> (copy: Self)
        ensures
            copy@ == self@,
    {
        match self {
            ModuleSupervisorMessage::StartRequest(request_id, request) =>
                ModuleSupervisorMessage::StartRequest(*request_id, request.clone()),
            ModuleSupervisorMessage::CancelRequest(request_id) =>
                ModuleSupervisorMessage::CancelRequest(*request_id),
            ModuleSupervisorMessage::CompleteRequest(request_id, response) =>
                ModuleSupervisorMessage::CompleteRequest(*request_id, response.clone()),
            ModuleSupervisorMessage::DeadlinePassed(request_id) =>
                ModuleSupervisorMessage::DeadlinePassed(*request_id),
        }
    }
}

/// What a worker is told: the request to handle, and the supervisor that
/// expects the answer.
#[derive(Debug, PartialEq, Eq)]
pub enum WorkerMessage {
    Request(RequestId, Request, ProcessHandle),
}

/// The mathematical value of a [`WorkerMessage`].
pub enum WorkerMessageView {
    Request(RequestId, RequestView, ProcessHandle),
}

impl View for WorkerMessage {
    type V = WorkerMessageView;

    open spec fn view(&self) -> WorkerMessageView {
        match *self {
            WorkerMessage::Request(request_id, request, reply_to) =>
                WorkerMessageView::Request(request_id, request@, reply_to),
        }
    }
}

impl Clone for WorkerMessage {
    fn clone(&self) -> (copy: Self)
        ensures
            copy@ == self@,
    {
        match self {
            WorkerMessage::Request(request_id, request, reply_to) => WorkerMessage::Request(
                *request_id,
                request.clone(),
                *reply_to,
            ),
        }
    }
}

/// Something the runtime has to do on behalf of a module supervisor.
#[derive(Debug, PartialEq, Eq)]
pub enum SupervisorEffect {
    /// Start a worker for the request, linked under the request's tag and
    /// limited to `max_memory` bytes, then call
    /// [`ModuleSupervisor::start_request`] with the outcome.
    Spawn { request_id: RequestId, request: Request, max_memory: u64 },
    /// Send `task` to the worker.
    Dispatch { worker: ProcessHandle, task: WorkerMessage },
    /// Send `message` to the registry `to`.
    Report { to: ProcessHandle, message: ServiceRegistryMessage },
    /// Send `reminder` to the supervisor itself, at `to`, once `millis`
    /// milliseconds have passed.
    RemindAfter { to: ProcessHandle, millis: u64, reminder: ModuleSupervisorMessage },
    /// Terminate the worker.
    Kill { worker: ProcessHandle },
}

/// The mathematical value of a [`SupervisorEffect`].
pub enum SupervisorEffectView {
    Spawn { request_id: RequestId, request: RequestView, max_memory: u64 },
    Dispatch { worker: ProcessHandle, task: WorkerMessageView },
    Report { to: ProcessHandle, message: ServiceRegistryMessageView },
    RemindAfter { to: ProcessHandle, millis: u64, reminder: ModuleSupervisorMessageView },
    Kill { worker: ProcessHandle },
}

impl View for SupervisorEffect {
    type V = SupervisorEffectView;

    open spec fn view(&self) -> SupervisorEffectView {
        match *self {
            SupervisorEffect::Spawn { request_id, request, max_memory } =>
                SupervisorEffectView::Spawn { request_id, request: request@, max_memory },
            SupervisorEffect::Dispatch { worker, task } =>
                SupervisorEffectView::Dispatch { worker, task: task@ },
            SupervisorEffect::Report { to, message } =>
                SupervisorEffectView::Report { to, message: message@ },
            SupervisorEffect::RemindAfter { to, millis, reminder } =>
                SupervisorEffectView::RemindAfter { to, millis, reminder: reminder@ },
            SupervisorEffect::Kill { worker } => SupervisorEffectView::Kill { worker },
        }
    }
}

/// The values of a list of effects, in order.
pub open spec fn effect_views(effects: Seq<SupervisorEffect>) -> Seq<SupervisorEffectView> {
    effects.map_values(|effect: SupervisorEffect| effect@)
}

/// The state of a module supervisor as a mathematical value.
pub struct SupervisorView {
    /// The service this supervisor belongs to.
    pub service_id: ServiceId,
    /// The supervisor's own address, which workers answer to.
    pub this: ProcessHandle,
    /// The registry's address.
    pub supervisor: ProcessHandle,
    /// The deadline given to every request, in milliseconds.
    pub deadline_millis: u64,
    /// The worker of every request that has one.
    pub workers: Map<RequestId, ProcessHandle>,
}

impl SupervisorView {
    /// The state without the tracking entry of `request_id`.
    pub open spec fn forget(self, request_id: RequestId) -> SupervisorView {
        SupervisorView { workers: self.workers.remove(request_id), ..self }
    }

    /// The message that gives a request's outcome to the registry.
    pub open spec fn completion(
        self,
        request_id: RequestId,
        response: ResponseView,
    ) -> ServiceRegistryMessageView {
        ServiceRegistryMessageView::CompleteRequest(request_id, self.service_id, response)
    }

    /// The state after the attempt to start a worker for `request_id`: the
    /// worker is tracked if there is one, and nothing changes if there is none.
    pub open spec fn after_start(
        self,
        request_id: RequestId,
        spawned: Option<ProcessHandle>,
    ) -> SupervisorView {
        match spawned {
            Some(worker) => SupervisorView {
                workers: self.workers.insert(request_id, worker),
                ..self
            },
            None => self,
        }
    }

    /// What follows the attempt to start a worker. With a worker: it gets the
    /// request, and the supervisor reminds itself of the request once the
    /// deadline has passed. Without one: the registry is told at once that
    /// the service is unavailable.
    pub open spec fn start_effects(
        self,
        request_id: RequestId,
        request: RequestView,
        spawned: Option<ProcessHandle>,
    ) -> Seq<SupervisorEffectView> {
        match spawned {
            Some(worker) => seq![
                SupervisorEffectView::Dispatch {
                    worker,
                    task: WorkerMessageView::Request(request_id, request, self.this),
                },
                SupervisorEffectView::RemindAfter {
                    to: self.this,
                    millis: self.deadline_millis,
                    reminder: ModuleSupervisorMessageView::DeadlinePassed(request_id),
                },
            ],
            None => seq![
                SupervisorEffectView::Report {
                    to: self.supervisor,
                    message: self.completion(request_id, spawn_failed(request.version)),
                },
            ],
        }
    }

    /// What follows a cancellation: the worker is terminated, if the request
    /// has one.
    pub open spec fn cancel_effects(self, request_id: RequestId) -> Seq<SupervisorEffectView> {
        if self.workers.contains_key(request_id) {
            seq![SupervisorEffectView::Kill { worker: self.workers[request_id] }]
        } else {
            seq![]
        }
    }

    /// What follows a worker's answer: if the request is tracked, the answer
    /// goes to the registry and the worker is terminated.
    pub open spec fn complete_effects(
        self,
        request_id: RequestId,
        response: ResponseView,
    ) -> Seq<SupervisorEffectView> {
        if self.workers.contains_key(request_id) {
            seq![
                SupervisorEffectView::Report {
                    to: self.supervisor,
                    message: self.completion(request_id, response),
                },
                SupervisorEffectView::Kill { worker: self.workers[request_id] },
            ]
        } else {
            seq![]
        }
    }

    /// What follows the passing of a request's deadline: if the request is
    /// still tracked, the registry gets the 504 as the request's outcome and
    /// the worker is terminated.
    pub open spec fn timeout_effects(self, request_id: RequestId) -> Seq<SupervisorEffectView> {
        if self.workers.contains_key(request_id) {
            seq![
                SupervisorEffectView::Report {
                    to: self.supervisor,
                    message: self.completion(request_id, timed_out()),
                },
                SupervisorEffectView::Kill { worker: self.workers[request_id] },
            ]
        } else {
            seq![]
        }
    }

    /// What follows the death of the worker linked under `tag`: if its
    /// request is tracked, the registry is asked to cancel the request.
    pub open spec fn crash_effects(self, tag: i64) -> Seq<SupervisorEffectView> {
        let request_id = RequestId { tag };
        if self.workers.contains_key(request_id) {
            seq![
                SupervisorEffectView::Report {
                    to: self.supervisor,
                    message: ServiceRegistryMessageView::CancelRequest(request_id, self.service_id),
                },
            ]
        } else {
            seq![]
        }
    }

    /// The state after a message.
    pub open spec fn after_message(self, message: ModuleSupervisorMessageView) -> SupervisorView {
        match message {
            ModuleSupervisorMessageView::StartRequest(_, _) => self,
            ModuleSupervisorMessageView::CancelRequest(request_id) => self.forget(request_id),
            ModuleSupervisorMessageView::CompleteRequest(request_id, _) => self.forget(request_id),
            ModuleSupervisorMessageView::DeadlinePassed(request_id) => self.forget(request_id),
        }
    }

    /// What follows a message. A request to start asks the runtime for a
    /// worker; the others are the cancellation, the completion and the
    /// passing of the deadline.
    pub open spec fn message_effects(
        self,
        message: ModuleSupervisorMessageView,
    ) -> Seq<SupervisorEffectView> {
        match message {
            ModuleSupervisorMessageView::StartRequest(request_id, request) => seq![
                SupervisorEffectView::Spawn { request_id, request, max_memory: WORKER_MAX_MEMORY },
            ],
            ModuleSupervisorMessageView::CancelRequest(request_id) => self.cancel_effects(
                request_id,
            ),
            ModuleSupervisorMessageView::CompleteRequest(request_id, response) =>
                self.complete_effects(request_id, response),
            ModuleSupervisorMessageView::DeadlinePassed(request_id) => self.timeout_effects(
                request_id,
            ),
        }
    }
}

/// The time a service has to answer a request. It is always shorter than
/// the bound a listener waits for, so that the deadline is what the caller of
/// a silent service meets.
#[derive(Clone, Copy, Debug)]
pub struct Deadline {
    millis: u64,
}

impl Deadline {
    #[verifier::type_invariant]
    spec fn below_outer_bound(self) -> bool {
        self.millis < OUTER_TIMEOUT_MILLIS
    }

    /// The deadline in milliseconds.
    pub closed spec fn spec_millis(&self) -> u64 {
        self.millis
    }

    /// A deadline of `millis` milliseconds, if that is below the listener's
    /// outer bound; there is no deadline on or above it.
    pub fn new(millis: u64) -> (deadline: Option<Deadline>)
        ensures
            deadline is Some <==> millis < OUTER_TIMEOUT_MILLIS,
            deadline is Some ==> deadline->0.spec_millis() == millis,
    {
        if millis < OUTER_TIMEOUT_MILLIS {
            Some(Deadline { millis })
        } else {
            None
        }
    }

    /// The deadline of [`MODULE_TIMEOUT_MILLIS`].
    pub fn standard() -> (deadline: Deadline)
        ensures
            deadline.spec_millis() == MODULE_TIMEOUT_MILLIS,
    {
        Deadline { millis: MODULE_TIMEOUT_MILLIS }
    }

    /// The deadline in milliseconds.
    #[verifier::when_used_as_spec(spec_millis)]
    pub fn millis(&self) -> (millis: u64)
        ensures
            millis == self.spec_millis(),
            millis < OUTER_TIMEOUT_MILLIS,
    {
        proof {
            use_type_invariant(self);
        }
        self.millis
    }
}

/// Owner of one service's workers.
pub struct ModuleSupervisor {
    service_id: ServiceId,
    this: ProcessHandle,
    supervisor: ProcessHandle,
    deadline: Deadline,
    outstanding_requests: HashMap<i64, ProcessHandle>,
}

impl View for ModuleSupervisor {
    type V = SupervisorView;

    closed spec fn view(&self) -> SupervisorView {
        SupervisorView {
            service_id: self.service_id,
            this: self.this,
            supervisor: self.supervisor,
            deadline_millis: self.deadline.spec_millis(),
            workers: Map::new(
                |request_id: RequestId| self.outstanding_requests@.contains_key(request_id.tag),
                |request_id: RequestId| self.outstanding_requests@[request_id.tag],
            ),
        }
    }
}

impl ModuleSupervisor {
    /// A supervisor for `service_id` that tracks no request and gives every
    /// request [`MODULE_TIMEOUT_MILLIS`]. `this` is the supervisor's own
    /// address and `supervisor` the registry's.
    pub fn new(service_id: ServiceId, this: ProcessHandle, supervisor: ProcessHandle) -> (created: Self)
        ensures
            created@ == (SupervisorView {
                service_id,
                this,
                supervisor,
                deadline_millis: MODULE_TIMEOUT_MILLIS,
                workers: Map::empty(),
            }),
    {
        ModuleSupervisor::with_deadline(service_id, this, supervisor, Deadline::standard())
    }

    /// A supervisor like that of [`ModuleSupervisor::new`] with a deadline of
    /// the deployment's choice.
    pub fn with_deadline(
        service_id: ServiceId,
        this: ProcessHandle,
        supervisor: ProcessHandle,
        deadline: Deadline,
    ) -> (created: Self)
        ensures
            created@ == (SupervisorView {
                service_id,
                this,
                supervisor,
                deadline_millis: deadline.spec_millis(),
                workers: Map::empty(),
            }),
    {
        let created = ModuleSupervisor {
            service_id,
            this,
            supervisor,
            deadline,
            outstanding_requests: HashMap::new(),
        };
        assert(created@.workers =~= Map::<RequestId, ProcessHandle>::empty());
        created
    }

    /// The deadline this supervisor gives every request, in milliseconds. It
    /// is below the listener's outer bound.
    pub fn deadline_millis(&self) -> (millis: u64)
        ensures
            millis == self@.deadline_millis,
            millis < OUTER_TIMEOUT_MILLIS,
    {
        self.deadline.millis()
    }

    /// Whether a worker is tracked for `request_id`.
    pub fn is_tracking(&self, request_id: RequestId) -> (found: bool)
        ensures
            found == self@.workers.contains_key(request_id),
    {
        broadcast use vstd::std_specs::hash::group_hash_axioms;

        self.outstanding_requests.contains_key(&request_id.tag)
    }

    /// The number of requests that have a worker.
    pub fn tracked_count(&self) -> (count: usize)
        ensures
            count == self@.workers.len(),
    {
        broadcast use vstd::std_specs::hash::group_hash_axioms;

        proof {
            lemma_tagged_len(self.outstanding_requests@);
        }
        self.outstanding_requests.len()
    }

    /// Takes the outcome of the attempt to start a worker for a request:
    /// `spawned` holds the worker, or nothing if none could be started.
    ///
    /// With a worker, the request is tracked, the worker gets the request,
    /// and the supervisor is reminded of the request after the deadline.
    /// Without one, the request is never tracked and the registry gets a 503
    /// completion at once.
    pub fn start_request(
        &mut self,
        request_id: RequestId,
        request: Request,
        spawned: Option<ProcessHandle>,
    ) -> (effects: Vec<SupervisorEffect>)
        ensures
            final(self)@ == old(self)@.after_start(request_id, spawned),
            effect_views(effects@) == old(self)@.start_effects(request_id, request@, spawned),
    {
        broadcast use vstd::std_specs::hash::group_hash_axioms;

        match spawned {
            Some(worker) => {
                self.outstanding_requests.insert(request_id.tag, worker);
                let effects = vec![
                    SupervisorEffect::Dispatch {
                        worker,
                        task: WorkerMessage::Request(request_id, request, self.this),
                    },
                    SupervisorEffect::RemindAfter {
                        to: self.this,
                        millis: self.deadline.millis(),
                        reminder: ModuleSupervisorMessage::DeadlinePassed(request_id),
                    },
                ];
                assert(self@.workers =~= old(self)@.workers.insert(request_id, worker));
                effects
            },
            None => {
                let response = Response::spawn_failed(request.metadata.version);
                vec![
                    SupervisorEffect::Report {
                        to: self.supervisor,
                        message: self.respond(request_id, response),
                    },
                ]
            },
        }
    }

    /// Cancels a request: its worker is terminated and forgotten. Nothing
    /// happens for a request that is not tracked.
    pub fn cancel_request(&mut self, request_id: RequestId) -> (effects: Vec<SupervisorEffect>)
        ensures
            final(self)@ == old(self)@.forget(request_id),
            effect_views(effects@) == old(self)@.cancel_effects(request_id),
    {
        broadcast use vstd::std_specs::hash::group_hash_axioms;

        let removed = self.outstanding_requests.remove(&request_id.tag);
        assert(self@.workers =~= old(self)@.workers.remove(request_id));
        match removed {
            Some(worker) => {
                vec![SupervisorEffect::Kill { worker }]
            },
            None => {
                Vec::new()
            },
        }
    }

    /// Takes a worker's answer: if the request is tracked, the answer goes to
    /// the registry, and the worker is terminated and forgotten. An answer
    /// for a request that is not tracked is dropped.
    pub fn complete_request(&mut self, request_id: RequestId, response: Response) -> (effects: Vec<
        SupervisorEffect,
    >)
        ensures
            final(self)@ == old(self)@.forget(request_id),
            effect_views(effects@) == old(self)@.complete_effects(request_id, response@),
    {
        broadcast use vstd::std_specs::hash::group_hash_axioms;

        let removed = self.outstanding_requests.remove(&request_id.tag);
        assert(self@.workers =~= old(self)@.workers.remove(request_id));
        match removed {
            Some(worker) => {
                vec![
                    SupervisorEffect::Report {
                        to: self.supervisor,
                        message: self.respond(request_id, response),
                    },
                    SupervisorEffect::Kill { worker },
                ]
            },
            None => {
                Vec::new()
            },
        }
    }

    /// Takes the passing of a request's deadline: if the request is still
    /// tracked, it has timed out. The registry gets the 504 as its outcome,
    /// and the worker is terminated and forgotten. For a request that has
    /// ended before, nothing happens.
    pub fn deadline_passed(&mut self, request_id: RequestId) -> (effects: Vec<SupervisorEffect>)
        ensures
            final(self)@ == old(self)@.forget(request_id),
            effect_views(effects@) == old(self)@.timeout_effects(request_id),
    {
        broadcast use vstd::std_specs::hash::group_hash_axioms;

        let removed = self.outstanding_requests.remove(&request_id.tag);
        assert(self@.workers =~= old(self)@.workers.remove(request_id));
        match removed {
            Some(worker) => {
                vec![
                    SupervisorEffect::Report {
                        to: self.supervisor,
                        message: self.respond(request_id, Response::timed_out()),
                    },
                    SupervisorEffect::Kill { worker },
                ]
            },
            None => {
                Vec::new()
            },
        }
    }

    /// Takes the death of the worker that was linked under `tag`: if its
    /// request is tracked, the request is forgotten and the registry is asked
    /// to cancel it. The death of any other linked process changes nothing.
    pub fn worker_died(&mut self, tag: i64) -> (effects: Vec<SupervisorEffect>)
        ensures
            final(self)@ == old(self)@.forget(RequestId { tag }),
            effect_views(effects@) == old(self)@.crash_effects(tag),
    {
        broadcast use vstd::std_specs::hash::group_hash_axioms;

        let request_id = RequestId { tag };
        let removed = self.outstanding_requests.remove(&request_id.tag);
        assert(self@.workers =~= old(self)@.workers.remove(request_id));
        match removed {
            Some(_) => {
                vec![
                    SupervisorEffect::Report {
                        to: self.supervisor,
                        message: ServiceRegistryMessage::CancelRequest(request_id, self.service_id),
                    },
                ]
            },
            None => {
                Vec::new()
            },
        }
    }

    /// Takes one message from the mailbox. A request to start is answered
    /// with the order to start a worker; the runtime reports the outcome to
    /// [`ModuleSupervisor::start_request`].
    pub fn dispatch(&mut self, message: ModuleSupervisorMessage) -> (effects: Vec<SupervisorEffect>)
        ensures
            final(self)@ == old(self)@.after_message(message@),
            effect_views(effects@) == old(self)@.message_effects(message@),
    {
        match message {
            ModuleSupervisorMessage::StartRequest(request_id, request) => {
                vec![
                    SupervisorEffect::Spawn { request_id, request, max_memory: WORKER_MAX_MEMORY },
                ]
            },
            ModuleSupervisorMessage::CancelRequest(request_id) => self.cancel_request(request_id),
            ModuleSupervisorMessage::CompleteRequest(request_id, response) => self.complete_request(
                request_id,
                response,
            ),
            ModuleSupervisorMessage::DeadlinePassed(request_id) => self.deadline_passed(request_id),
        }
    }

    /// The message that gives a request's outcome to the registry.
    fn respond(&self, request_id: RequestId, response: Response) -> (message:
        ServiceRegistryMessage)
        ensures
            message@ == self@.completion(request_id, response@),
    {
        ServiceRegistryMessage::CompleteRequest(request_id, self.service_id, response)
    }
}

/// A table keyed by tags holds as many entries as the same table keyed by the
/// identities that carry those tags.
pub(crate) proof fn lemma_tagged_len<V>(table: Map<i64, V>)
    requires
        table.dom().finite(),
    ensures
        Map::new(
            |request_id: RequestId| table.contains_key(request_id.tag),
            |request_id: RequestId| table[request_id.tag],
        ).len() == table.len(),
{
    let tagged = Map::new(
        |request_id: RequestId| table.contains_key(request_id.tag),
        |request_id: RequestId| table[request_id.tag],
    );
    let image = table.dom().map(|tag: i64| RequestId { tag });
    assert(tagged.dom() =~= image) by {
        assert forall|request_id: RequestId| tagged.dom().contains(request_id) implies image.contains(
            request_id,
        ) by {
            assert(table.dom().contains(request_id.tag));
            assert(request_id == RequestId { tag: request_id.tag });
        }
    }
    vstd::set_lib::lemma_map_size(table.dom(), image, |tag: i64| RequestId { tag });
}

} // verus!
