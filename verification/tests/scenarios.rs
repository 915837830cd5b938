use frenezulo::http::{Method, Request, RequestMetadata, Response, ResponseMetadata, Version};
use frenezulo::listener::{conclude, handle, Arrival, Decision};
use frenezulo::module_supervisor::{
    ModuleSupervisor, ModuleSupervisorMessage, SupervisorEffect, WorkerMessage,
};
use frenezulo::service_registry::{RegistryEffect, ServiceRegistry, ServiceRegistryMessage};
use frenezulo::{ProcessHandle, Router};
use multimap::MultiMap;

const REGISTRY: ProcessHandle = ProcessHandle { node_id: 0, id: 1 };
const SUPERVISOR: ProcessHandle = ProcessHandle { node_id: 0, id: 2 };
const WORKER: ProcessHandle = ProcessHandle { node_id: 0, id: 3 };
const CALLER: ProcessHandle = ProcessHandle { node_id: 0, id: 4 };

/// What a module does with a request.
#[derive(Clone, Copy)]
enum Module {
    /// Answers 200 with the request's body.
    Echo,
    /// Never answers.
    Silent,
    /// Cannot be started.
    Broken,
    /// Dies before it answers.
    Crashing,
}

/// The runtime around the library, with a clock in place of timers: it
/// carries out the effects the actors return and hands messages on.
struct World {
    router: Router,
    registry: ServiceRegistry,
    supervisor: Option<ModuleSupervisor>,
    module: Module,
    now: u64,
    timers: Vec<(u64, ModuleSupervisorMessage)>,
    delivered: Vec<(u64, ProcessHandle, Response)>,
    killed: Vec<ProcessHandle>,
    next_tag: i64,
}

impl World {
    fn new(module: Module) -> World {
        World {
            router: Router::new(),
            registry: ServiceRegistry::new(),
            supervisor: None,
            module,
            now: 0,
            timers: Vec::new(),
            delivered: Vec::new(),
            killed: Vec::new(),
            next_tag: 128,
        }
    }

    fn mint(&mut self) -> i64 {
        self.next_tag += 1;
        self.next_tag
    }

    fn register(&mut self, prefix: &str) {
        let tag = self.mint();
        let (_, message) = self.router.add_service(prefix.to_owned(), vec![0, 97, 115, 109], tag);
        self.to_registry(message);
    }

    fn to_registry(&mut self, message: ServiceRegistryMessage) {
        assert!(self.registry.accepts(&message), "router and registry agree");
        let effects = self.registry.dispatch(message);
        for effect in effects {
            match effect {
                RegistryEffect::Launch { service_id, .. } => {
                    self.supervisor = Some(ModuleSupervisor::new(service_id, SUPERVISOR, REGISTRY));
                    self.registry.add_service(service_id, Some(SUPERVISOR)).unwrap();
                }
                RegistryEffect::Instruct { supervisor, message } => {
                    assert_eq!(supervisor, SUPERVISOR);
                    let effects = self.supervisor.as_mut().unwrap().dispatch(message);
                    self.run_supervisor(effects);
                }
                RegistryEffect::Reply { to, response } => {
                    self.delivered.push((self.now, to, response));
                }
                RegistryEffect::Kill { supervisor } => {
                    self.killed.push(supervisor);
                    self.supervisor = None;
                }
            }
        }
    }

    fn run_supervisor(&mut self, effects: Vec<SupervisorEffect>) {
        for effect in effects {
            match effect {
                SupervisorEffect::Spawn { request_id, request, .. } => {
                    let spawned = match self.module {
                        Module::Broken => None,
                        _ => Some(WORKER),
                    };
                    let effects =
                        self.supervisor.as_mut().unwrap().start_request(request_id, request, spawned);
                    self.run_supervisor(effects);
                }
                SupervisorEffect::Dispatch { worker, task } => {
                    assert_eq!(worker, WORKER);
                    let WorkerMessage::Request(request_id, request, reply_to) = task;
                    assert_eq!(reply_to, SUPERVISOR);
                    match self.module {
                        Module::Echo => {
                            let response = Response {
                                metadata: ResponseMetadata {
                                    status: 200,
                                    version: request.metadata.version,
                                    headers: MultiMap::new(),
                                },
                                body: request.body,
                            };
                            let effects = self
                                .supervisor
                                .as_mut()
                                .unwrap()
                                .complete_request(request_id, response);
                            self.run_supervisor(effects);
                        }
                        Module::Crashing => {
                            let effects =
                                self.supervisor.as_mut().unwrap().worker_died(request_id.tag);
                            self.run_supervisor(effects);
                        }
                        Module::Silent | Module::Broken => {}
                    }
                }
                SupervisorEffect::Report { to, message } => {
                    assert_eq!(to, REGISTRY);
                    self.to_registry(message);
                }
                SupervisorEffect::RemindAfter { to, millis, reminder } => {
                    assert_eq!(to, SUPERVISOR);
                    self.timers.push((self.now + millis, reminder));
                }
                SupervisorEffect::Kill { worker } => self.killed.push(worker),
            }
        }
    }

    /// Lets time pass until `until`, delivering what falls due on the way.
    fn advance(&mut self, until: u64) {
        loop {
            let due = self
                .timers
                .iter()
                .enumerate()
                .filter(|(_, (at, _))| *at <= until)
                .min_by_key(|(_, (at, _))| *at)
                .map(|(i, _)| i);
            match due {
                Some(i) => {
                    let (at, reminder) = self.timers.remove(i);
                    self.now = at;
                    if let Some(supervisor) = self.supervisor.as_mut() {
                        let effects = supervisor.dispatch(reminder);
                        self.run_supervisor(effects);
                    }
                }
                None => break,
            }
        }
        self.now = until;
    }

    /// A caller's request from arrival to the listener's decision.
    fn post(&mut self, path: &str, body: &[u8]) -> Option<Response> {
        let request = Request {
            metadata: RequestMetadata {
                method: Method::Post,
                uri: path.to_owned(),
                version: Version::Http11,
                headers: MultiMap::new(),
            },
            body: body.to_vec(),
        };
        let tag = self.mint();
        match handle(&self.router, path, request, CALLER, tag) {
            Decision::Respond(response) => Some(response),
            Decision::Manage => panic!("not a management request"),
            Decision::Forward { message, wait_millis } => {
                assert_eq!(wait_millis, 30_000);
                self.to_registry(message);
                None
            }
        }
    }

    fn replies(&self) -> Vec<(u64, u16, Vec<u8>)> {
        self.delivered
            .iter()
            .map(|(at, to, response)| {
                assert_eq!(*to, CALLER);
                (*at, response.metadata.status, response.body.clone())
            })
            .collect()
    }
}

#[test]
fn echo_service_returns_the_body() {
    let mut world = World::new(Module::Echo);
    world.register("echo");
    assert_eq!(world.post("/echo/anything", b"hi"), None);
    assert_eq!(world.replies(), vec![(0, 200, b"hi".to_vec())]);
    assert_eq!(world.killed, vec![WORKER]);
    assert_eq!(world.supervisor.as_ref().unwrap().tracked_count(), 0);

    world.advance(30_000);
    assert_eq!(world.replies(), vec![(0, 200, b"hi".to_vec())]);
    let (_, _, response) = world.delivered.pop().unwrap();
    let answer = conclude(Arrival::Reply(response));
    assert_eq!(answer.metadata.status, 200);
    assert_eq!(answer.body, b"hi".to_vec());
}

#[test]
fn request_without_registration_returns_404() {
    let mut world = World::new(Module::Echo);
    let response = world.post("/missing/x", b"hi").expect("answered at once");
    assert_eq!(response.metadata.status, 404);
    assert_eq!(response.body, b"Unknown Service".to_vec());
    assert!(world.delivered.is_empty());
    assert!(world.timers.is_empty());
}

#[test]
fn silent_service_returns_504_at_the_deadline_not_before() {
    let mut world = World::new(Module::Silent);
    world.register("quiet");
    assert_eq!(world.post("/quiet/x", b"hi"), None);
    assert!(world.replies().is_empty());
    world.advance(29);
    assert!(world.replies().is_empty());
    world.advance(30);
    assert_eq!(world.replies(), vec![(30, 504, b"Service timed out".to_vec())]);
    assert_eq!(world.killed, vec![WORKER]);
    assert_eq!(world.supervisor.as_ref().unwrap().tracked_count(), 0);
    world.advance(30_000);
    assert_eq!(world.replies().len(), 1);
}

#[test]
fn late_answer_after_deadline_reaches_nobody() {
    let mut world = World::new(Module::Silent);
    world.register("quiet");
    world.post("/quiet/x", b"hi");
    let request_id = frenezulo::RequestId { tag: 130 };
    assert!(world.supervisor.as_ref().unwrap().is_tracking(request_id));
    world.advance(30);
    assert_eq!(world.replies().len(), 1);
    assert!(!world.supervisor.as_ref().unwrap().is_tracking(request_id));
    assert_eq!(world.killed, vec![WORKER]);

    let late = Response::synthesized(200, Version::Http11, b"late".to_vec());
    let effects = world.supervisor.as_mut().unwrap().complete_request(request_id, late);
    assert!(effects.is_empty());
    world.run_supervisor(effects);
    let late = Response::synthesized(200, Version::Http11, b"late".to_vec());
    let service_id = frenezulo::ServiceId { tag: 129 };
    world.to_registry(ServiceRegistryMessage::CompleteRequest(request_id, service_id, late));
    assert_eq!(world.replies(), vec![(30, 504, b"Service timed out".to_vec())]);
    assert_eq!(world.killed, vec![WORKER]);
}

#[test]
fn dead_supervisor_answers_waiting_callers_with_503() {
    let mut world = World::new(Module::Silent);
    world.register("quiet");
    world.post("/quiet/a", b"1");
    world.post("/quiet/b", b"2");
    let service_id = frenezulo::ServiceId { tag: 129 };
    world.advance(5);
    world.supervisor = None;
    let effects = world.registry.supervisor_died(service_id.tag);
    for effect in effects {
        match effect {
            RegistryEffect::Reply { to, response } => world.delivered.push((world.now, to, response)),
            other => panic!("unexpected effect {:?}", other),
        }
    }
    assert_eq!(
        world.replies(),
        vec![(5, 503, b"Canceled Request".to_vec()), (5, 503, b"Canceled Request".to_vec())]
    );
    assert!(!world.registry.has_service(service_id));
    world.advance(30_000);
    assert_eq!(world.replies().len(), 2);
}

#[test]
fn broken_module_returns_503() {
    let mut world = World::new(Module::Broken);
    world.register("broken");
    world.post("/broken/x", b"hi");
    assert_eq!(world.replies(), vec![(0, 503, b"503 - Failed to start service".to_vec())]);
    assert!(world.timers.is_empty());
    assert_eq!(world.supervisor.as_ref().unwrap().tracked_count(), 0);
}

#[test]
fn crashing_worker_returns_503_once() {
    let mut world = World::new(Module::Crashing);
    world.register("crash");
    world.post("/crash/x", b"hi");
    assert_eq!(world.replies(), vec![(0, 503, b"Canceled Request".to_vec())]);
    world.advance(30_000);
    assert_eq!(world.replies().len(), 1);
    assert_eq!(world.supervisor.as_ref().unwrap().tracked_count(), 0);
}

#[test]
fn deleted_service_answers_waiting_callers_and_is_gone() {
    let mut world = World::new(Module::Silent);
    world.register("quiet");
    world.post("/quiet/a", b"1");
    world.post("/quiet/b", b"2");
    world.post("/quiet/c", b"3");
    let service_id = frenezulo::ServiceId { tag: 129 };
    assert_eq!(world.registry.outstanding_count(service_id), 3);
    world.advance(10);
    world.to_registry(ServiceRegistryMessage::DeleteService(service_id));
    assert_eq!(
        world.replies(),
        vec![
            (10, 404, b"Service Deleted".to_vec()),
            (10, 404, b"Service Deleted".to_vec()),
            (10, 404, b"Service Deleted".to_vec()),
        ]
    );
    assert_eq!(world.killed, vec![SUPERVISOR]);
    assert!(!world.registry.has_service(service_id));
    world.advance(30_000);
    assert_eq!(world.replies().len(), 3);
}

#[test]
fn readded_prefix_serves_new_requests_and_old_ones_finish() {
    let mut world = World::new(Module::Silent);
    world.register("svc");
    world.post("/svc/old", b"old");
    let old_service = frenezulo::ServiceId { tag: 129 };
    let old_request = frenezulo::RequestId { tag: 130 };
    assert!(world.registry.is_outstanding(old_service, old_request));

    let tag = world.mint();
    let (new_service, _) = world.router.add_service("svc".to_owned(), vec![], tag);
    world.registry.add_service(new_service, Some(ProcessHandle { node_id: 0, id: 9 })).unwrap();
    assert_ne!(new_service, old_service);
    assert_eq!(
        world.router.create_request("svc".to_owned(), 500).map(|found| found.0),
        Some(new_service)
    );
    assert!(world.registry.is_outstanding(old_service, old_request));

    world.advance(30);
    assert_eq!(world.replies(), vec![(30, 504, b"Service timed out".to_vec())]);
}
