use frenezulo::http::{Method, Request, RequestMetadata, Response, ResponseMetadata, Version};
use frenezulo::listener::OUTER_TIMEOUT_MILLIS;
use frenezulo::module_supervisor::{
    Deadline, ModuleSupervisor, ModuleSupervisorMessage, SupervisorEffect, WorkerMessage,
    MODULE_TIMEOUT_MILLIS, WORKER_MAX_MEMORY,
};
use frenezulo::service_registry::ServiceRegistryMessage;
use frenezulo::{ProcessHandle, RequestId, ServiceId};
use multimap::MultiMap;

fn handle(id: u64) -> ProcessHandle {
    ProcessHandle { node_id: 0, id }
}

fn request(version: Version, body: &[u8]) -> Request {
    Request {
        metadata: RequestMetadata {
            method: Method::Get,
            uri: "/echo".to_owned(),
            version,
            headers: MultiMap::new(),
        },
        body: body.to_vec(),
    }
}

fn ok(body: &[u8]) -> Response {
    Response {
        metadata: ResponseMetadata {
            status: 200,
            version: Version::Http11,
            headers: MultiMap::new(),
        },
        body: body.to_vec(),
    }
}

const SERVICE: ServiceId = ServiceId { tag: 129 };
const REQUEST: RequestId = RequestId { tag: 200 };
const THIS: ProcessHandle = ProcessHandle { node_id: 0, id: 50 };
const REGISTRY: ProcessHandle = ProcessHandle { node_id: 0, id: 40 };

fn supervisor() -> ModuleSupervisor {
    ModuleSupervisor::new(SERVICE, THIS, REGISTRY)
}

#[test]
fn standard_deadline_is_thirty_milliseconds() {
    assert_eq!(MODULE_TIMEOUT_MILLIS, 30);
    assert_eq!(Deadline::standard().millis(), 30);
    assert_eq!(supervisor().deadline_millis(), 30);
    assert_eq!(supervisor().tracked_count(), 0);
}

#[test]
fn deadline_has_to_stay_below_outer_bound() {
    assert_eq!(OUTER_TIMEOUT_MILLIS, 30_000);
    assert!(Deadline::new(30_000).is_none());
    assert!(Deadline::new(30_001).is_none());
    assert!(Deadline::new(u64::MAX).is_none());
    assert_eq!(Deadline::new(29_999).unwrap().millis(), 29_999);
    assert_eq!(Deadline::new(0).unwrap().millis(), 0);
    assert!(MODULE_TIMEOUT_MILLIS < OUTER_TIMEOUT_MILLIS);
}

#[test]
fn start_message_asks_for_a_worker() {
    let mut supervisor = supervisor();
    let effects = supervisor
        .dispatch(ModuleSupervisorMessage::StartRequest(REQUEST, request(Version::Http11, b"hi")));
    assert_eq!(WORKER_MAX_MEMORY, 1024 * 1024 * 1024);
    assert_eq!(
        effects,
        vec![SupervisorEffect::Spawn {
            request_id: REQUEST,
            request: request(Version::Http11, b"hi"),
            max_memory: 1024 * 1024 * 1024,
        }]
    );
    assert!(!supervisor.is_tracking(REQUEST));
}

#[test]
fn started_worker_gets_request_and_supervisor_is_reminded_of_deadline() {
    let mut supervisor = supervisor();
    let effects = supervisor.start_request(REQUEST, request(Version::Http2, b"hi"), Some(handle(60)));
    assert_eq!(
        effects,
        vec![
            SupervisorEffect::Dispatch {
                worker: handle(60),
                task: WorkerMessage::Request(REQUEST, request(Version::Http2, b"hi"), THIS),
            },
            SupervisorEffect::RemindAfter {
                to: THIS,
                millis: 30,
                reminder: ModuleSupervisorMessage::DeadlinePassed(REQUEST),
            },
        ]
    );
    assert!(supervisor.is_tracking(REQUEST));
    assert_eq!(supervisor.tracked_count(), 1);
}

#[test]
fn chosen_deadline_is_the_one_scheduled() {
    let mut supervisor =
        ModuleSupervisor::with_deadline(SERVICE, THIS, REGISTRY, Deadline::new(250).unwrap());
    assert_eq!(supervisor.deadline_millis(), 250);
    let effects = supervisor.start_request(REQUEST, request(Version::Http11, b""), Some(handle(60)));
    match &effects[1] {
        SupervisorEffect::RemindAfter { millis, to, .. } => {
            assert_eq!(*millis, 250);
            assert_eq!(*to, THIS);
        }
        other => panic!("unexpected effect {:?}", other),
    }
}

#[test]
fn passed_deadline_reports_504_and_ends_the_worker() {
    let mut supervisor = supervisor();
    supervisor.start_request(REQUEST, request(Version::Http2, b"hi"), Some(handle(60)));
    let effects = supervisor.deadline_passed(REQUEST);
    assert_eq!(
        effects,
        vec![
            SupervisorEffect::Report {
                to: REGISTRY,
                message: ServiceRegistryMessage::CompleteRequest(REQUEST, SERVICE, Response::timed_out()),
            },
            SupervisorEffect::Kill { worker: handle(60) },
        ]
    );
    match &effects[0] {
        SupervisorEffect::Report {
            message: ServiceRegistryMessage::CompleteRequest(_, _, response),
            ..
        } => {
            assert_eq!(response.metadata.status, 504);
            assert_eq!(response.metadata.version, Version::Http11);
            assert_eq!(response.body, b"Service timed out".to_vec());
        }
        other => panic!("unexpected effect {:?}", other),
    }
    assert!(!supervisor.is_tracking(REQUEST));
    assert_eq!(supervisor.tracked_count(), 0);
}

#[test]
fn answer_after_passed_deadline_is_dropped() {
    let mut supervisor = supervisor();
    supervisor.start_request(REQUEST, request(Version::Http11, b""), Some(handle(60)));
    supervisor.deadline_passed(REQUEST);
    assert!(supervisor.complete_request(REQUEST, ok(b"late")).is_empty());
    assert!(supervisor.cancel_request(REQUEST).is_empty());
    assert!(supervisor.worker_died(REQUEST.tag).is_empty());
    assert!(supervisor.deadline_passed(REQUEST).is_empty());
}

#[test]
fn deadline_after_answer_changes_nothing() {
    let mut supervisor = supervisor();
    let other = RequestId { tag: 201 };
    supervisor.start_request(REQUEST, request(Version::Http11, b""), Some(handle(60)));
    supervisor.start_request(other, request(Version::Http11, b""), Some(handle(61)));
    supervisor.complete_request(REQUEST, ok(b"hi"));
    assert!(supervisor.deadline_passed(REQUEST).is_empty());
    assert!(supervisor.is_tracking(other));
    assert_eq!(supervisor.tracked_count(), 1);
}

#[test]
fn deadline_of_unknown_request_changes_nothing() {
    let mut supervisor = supervisor();
    supervisor.start_request(REQUEST, request(Version::Http11, b""), Some(handle(60)));
    assert!(supervisor.deadline_passed(RequestId { tag: 999 }).is_empty());
    assert!(supervisor.is_tracking(REQUEST));
}

#[test]
fn failed_start_reports_503_and_tracks_nothing() {
    let mut supervisor = supervisor();
    let effects = supervisor.start_request(REQUEST, request(Version::Http10, b"hi"), None);
    assert_eq!(
        effects,
        vec![SupervisorEffect::Report {
            to: REGISTRY,
            message: ServiceRegistryMessage::CompleteRequest(
                REQUEST,
                SERVICE,
                Response::spawn_failed(Version::Http10)
            ),
        }]
    );
    match &effects[0] {
        SupervisorEffect::Report {
            message: ServiceRegistryMessage::CompleteRequest(_, _, response),
            ..
        } => {
            assert_eq!(response.metadata.status, 503);
            assert_eq!(response.metadata.version, Version::Http10);
            assert_eq!(response.body, b"503 - Failed to start service".to_vec());
        }
        other => panic!("unexpected effect {:?}", other),
    }
    assert!(!supervisor.is_tracking(REQUEST));
    assert_eq!(supervisor.tracked_count(), 0);
}

#[test]
fn cancel_ends_tracked_worker() {
    let mut supervisor = supervisor();
    supervisor.start_request(REQUEST, request(Version::Http11, b""), Some(handle(60)));
    assert_eq!(
        supervisor.cancel_request(REQUEST),
        vec![SupervisorEffect::Kill { worker: handle(60) }]
    );
    assert!(!supervisor.is_tracking(REQUEST));
    assert!(supervisor.cancel_request(REQUEST).is_empty());
}

#[test]
fn cancel_of_untracked_request_does_nothing() {
    let mut supervisor = supervisor();
    assert!(supervisor.cancel_request(REQUEST).is_empty());
    assert_eq!(supervisor.tracked_count(), 0);
}

#[test]
fn answer_goes_to_registry_and_worker_ends() {
    let mut supervisor = supervisor();
    supervisor.start_request(REQUEST, request(Version::Http11, b""), Some(handle(60)));
    assert_eq!(
        supervisor.complete_request(REQUEST, ok(b"hi")),
        vec![
            SupervisorEffect::Report {
                to: REGISTRY,
                message: ServiceRegistryMessage::CompleteRequest(REQUEST, SERVICE, ok(b"hi")),
            },
            SupervisorEffect::Kill { worker: handle(60) },
        ]
    );
    assert!(!supervisor.is_tracking(REQUEST));
}

#[test]
fn answer_for_untracked_request_is_dropped() {
    let mut supervisor = supervisor();
    assert!(supervisor.complete_request(REQUEST, ok(b"hi")).is_empty());
    supervisor.start_request(REQUEST, request(Version::Http11, b""), Some(handle(60)));
    supervisor.complete_request(REQUEST, ok(b"first"));
    assert!(supervisor.complete_request(REQUEST, ok(b"second")).is_empty());
    supervisor.start_request(REQUEST, request(Version::Http11, b""), Some(handle(61)));
    supervisor.cancel_request(REQUEST);
    assert!(supervisor.complete_request(REQUEST, ok(b"late")).is_empty());
}

#[test]
fn death_of_tracked_worker_asks_for_cancellation() {
    let mut supervisor = supervisor();
    supervisor.start_request(REQUEST, request(Version::Http11, b""), Some(handle(60)));
    assert_eq!(
        supervisor.worker_died(REQUEST.tag),
        vec![SupervisorEffect::Report {
            to: REGISTRY,
            message: ServiceRegistryMessage::CancelRequest(REQUEST, SERVICE),
        }]
    );
    assert!(!supervisor.is_tracking(REQUEST));
    assert!(supervisor.worker_died(REQUEST.tag).is_empty());
    assert!(supervisor.cancel_request(REQUEST).is_empty());
}

#[test]
fn death_of_unknown_process_changes_nothing() {
    let mut supervisor = supervisor();
    supervisor.start_request(REQUEST, request(Version::Http11, b""), Some(handle(60)));
    assert!(supervisor.worker_died(999).is_empty());
    assert!(supervisor.is_tracking(REQUEST));
    assert_eq!(supervisor.tracked_count(), 1);
}

#[test]
fn death_after_answer_reports_nothing() {
    let mut supervisor = supervisor();
    supervisor.start_request(REQUEST, request(Version::Http11, b""), Some(handle(60)));
    supervisor.complete_request(REQUEST, ok(b"hi"));
    assert!(supervisor.worker_died(REQUEST.tag).is_empty());
}

#[test]
fn supervisor_dispatch_runs_cancel_and_complete() {
    let mut supervisor = supervisor();
    supervisor.start_request(REQUEST, request(Version::Http11, b""), Some(handle(60)));
    let other = RequestId { tag: 201 };
    supervisor.start_request(other, request(Version::Http11, b""), Some(handle(61)));
    assert_eq!(
        supervisor.dispatch(ModuleSupervisorMessage::CancelRequest(REQUEST)),
        vec![SupervisorEffect::Kill { worker: handle(60) }]
    );
    assert_eq!(
        supervisor.dispatch(ModuleSupervisorMessage::CompleteRequest(other, ok(b"x"))),
        vec![
            SupervisorEffect::Report {
                to: REGISTRY,
                message: ServiceRegistryMessage::CompleteRequest(other, SERVICE, ok(b"x")),
            },
            SupervisorEffect::Kill { worker: handle(61) },
        ]
    );
    let third = RequestId { tag: 202 };
    supervisor.start_request(third, request(Version::Http11, b""), Some(handle(62)));
    assert_eq!(
        supervisor.dispatch(ModuleSupervisorMessage::DeadlinePassed(third)),
        vec![
            SupervisorEffect::Report {
                to: REGISTRY,
                message: ServiceRegistryMessage::CompleteRequest(third, SERVICE, Response::timed_out()),
            },
            SupervisorEffect::Kill { worker: handle(62) },
        ]
    );
    assert_eq!(supervisor.tracked_count(), 0);
}

#[test]
fn requests_are_tracked_independently() {
    let mut supervisor = supervisor();
    let other = RequestId { tag: 201 };
    supervisor.start_request(REQUEST, request(Version::Http11, b""), Some(handle(60)));
    supervisor.start_request(other, request(Version::Http11, b""), Some(handle(61)));
    assert_eq!(supervisor.tracked_count(), 2);
    supervisor.cancel_request(REQUEST);
    assert!(supervisor.is_tracking(other));
    assert_eq!(
        supervisor.cancel_request(other),
        vec![SupervisorEffect::Kill { worker: handle(61) }]
    );
}

#[test]
fn cloned_supervisor_messages_equal_their_sources() {
    let message = ModuleSupervisorMessage::StartRequest(REQUEST, request(Version::Http2, b"hi"));
    assert_eq!(message.clone(), message);
    let message = ModuleSupervisorMessage::CancelRequest(REQUEST);
    assert_eq!(message.clone(), message);
    let message = ModuleSupervisorMessage::CompleteRequest(REQUEST, ok(b"hi"));
    assert_eq!(message.clone(), message);
    let message = ModuleSupervisorMessage::DeadlinePassed(REQUEST);
    assert_eq!(message.clone(), message);
    let message = WorkerMessage::Request(REQUEST, request(Version::Http2, b"hi"), THIS);
    assert_eq!(message.clone(), message);
}
