//! How the actors' transitions fit together: what the caller of a request
//! gets to see for each way the request can end.
//!
//! Each law follows a request that the registry has recorded for a known
//! service, takes what the service's module supervisor hands to the runtime,
//! and states what the registry makes of it once it arrives.

use crate::http::{canceled, spawn_failed, timed_out, RequestView, ResponseView};
use crate::module_supervisor::{
    ModuleSupervisorMessageView, SupervisorEffectView, SupervisorView,
};
use crate::service_registry::{RegistryEffectView, RegistryView, ServiceRegistryMessageView};
use crate::{ProcessHandle, RequestId, ServiceId};
use vstd::prelude::*;

verus! {

/// The effects of a registry that answers the caller at `respond_to` with
/// `response` and does nothing else.
pub open spec fn only_reply(respond_to: ProcessHandle, response: ResponseView) -> Seq<
    RegistryEffectView,
> {
    seq![RegistryEffectView::Reply { to: respond_to, response }]
}

/// A request whose worker stays silent times out, at the supervisor and for
/// the caller.
///
/// When a worker was started for the request, the supervisor reminds itself
/// of the request once the deadline has passed. If the request is still
/// tracked then, the supervisor hands the 504 to the registry as the
/// request's outcome, ends the worker and forgets the request: no entry and
/// no worker is left. The registry, if the request is still outstanding,
/// answers the caller with the 504. An answer that the worker gives
/// afterwards is dropped by the supervisor, and would reach nobody at the
/// registry either.
pub proof fn lemma_silent_service_times_out(
    registry: RegistryView,
    supervisor: SupervisorView,
    request_id: RequestId,
    request: RequestView,
    respond_to: ProcessHandle,
    worker: ProcessHandle,
    late: ResponseView,
)
    requires
        registry.services.contains_key(supervisor.service_id),
    ensures
        ({
            let service_id = supervisor.service_id;
            let started = registry.after_start(service_id, request_id, request, respond_to);
            let working = supervisor.after_start(request_id, Some(worker));
            let reminder = ModuleSupervisorMessageView::DeadlinePassed(request_id);
            let timed_out_here = working.after_message(reminder);
            let outcome = ServiceRegistryMessageView::CompleteRequest(
                request_id,
                service_id,
                timed_out(),
            );
            let ended = started.after_message(outcome);
            let answer = ServiceRegistryMessageView::CompleteRequest(request_id, service_id, late);
            &&& supervisor.start_effects(request_id, request, Some(worker))[1]
                == (SupervisorEffectView::RemindAfter {
                to: supervisor.this,
                millis: supervisor.deadline_millis,
                reminder,
            })
            &&& working.message_effects(reminder) == seq![
                SupervisorEffectView::Report { to: supervisor.supervisor, message: outcome },
                SupervisorEffectView::Kill { worker },
            ]
            &&& !timed_out_here.workers.contains_key(request_id)
            &&& timed_out_here.complete_effects(request_id, late)
                == Seq::<SupervisorEffectView>::empty()
            &&& timed_out_here.timeout_effects(request_id) == Seq::<SupervisorEffectView>::empty()
            &&& !started.refuses(outcome)
            &&& started.is_message_effects(outcome, only_reply(respond_to, timed_out()))
            &&& !ended.is_outstanding(service_id, request_id)
            &&& !ended.refuses(answer)
            &&& ended.is_message_effects(answer, Seq::<RegistryEffectView>::empty())
            &&& ended.after_message(answer) == ended
        }),
{
}

/// An answer that arrives in time reaches the caller, and the deadline that
/// passes after it changes nothing.
///
/// The supervisor passes the answer of a worker it tracks on to the registry,
/// ends the worker and forgets the request. If the request is outstanding
/// when the answer arrives, the caller gets it. When the deadline passes, the
/// supervisor finds the request ended and does nothing.
pub proof fn lemma_answer_in_time_reaches_caller(
    registry: RegistryView,
    supervisor: SupervisorView,
    request_id: RequestId,
    request: RequestView,
    respond_to: ProcessHandle,
    worker: ProcessHandle,
    response: ResponseView,
)
    requires
        registry.services.contains_key(supervisor.service_id),
    ensures
        ({
            let service_id = supervisor.service_id;
            let started = registry.after_start(service_id, request_id, request, respond_to);
            let working = supervisor.after_start(request_id, Some(worker));
            let answered = working.forget(request_id);
            let answer = ServiceRegistryMessageView::CompleteRequest(
                request_id,
                service_id,
                response,
            );
            let reminder = ModuleSupervisorMessageView::DeadlinePassed(request_id);
            &&& working.complete_effects(request_id, response) == seq![
                SupervisorEffectView::Report { to: supervisor.supervisor, message: answer },
                SupervisorEffectView::Kill { worker },
            ]
            &&& !answered.workers.contains_key(request_id)
            &&& started.is_message_effects(answer, only_reply(respond_to, response))
            &&& !started.after_message(answer).is_outstanding(service_id, request_id)
            &&& answered.message_effects(reminder) == Seq::<SupervisorEffectView>::empty()
            &&& answered.after_message(reminder) == answered
        }),
{
    let working = supervisor.after_start(request_id, Some(worker));
    let answered = working.forget(request_id);
    assert(answered.workers.remove(request_id) =~= answered.workers);
}

/// A request for which no worker could be started is answered with a 503,
/// and the supervisor never tracks it.
pub proof fn lemma_failed_start_is_answered(
    registry: RegistryView,
    supervisor: SupervisorView,
    request_id: RequestId,
    request: RequestView,
    respond_to: ProcessHandle,
)
    requires
        registry.services.contains_key(supervisor.service_id),
    ensures
        ({
            let service_id = supervisor.service_id;
            let started = registry.after_start(service_id, request_id, request, respond_to);
            let failure = ServiceRegistryMessageView::CompleteRequest(
                request_id,
                service_id,
                spawn_failed(request.version),
            );
            &&& supervisor.after_start(request_id, None) == supervisor
            &&& supervisor.start_effects(request_id, request, None) == seq![
                SupervisorEffectView::Report { to: supervisor.supervisor, message: failure },
            ]
            &&& started.is_message_effects(
                failure,
                only_reply(respond_to, spawn_failed(request.version)),
            )
            &&& !started.after_message(failure).is_outstanding(service_id, request_id)
        }),
{
}

/// A request whose worker dies is cancelled: the supervisor forgets it and
/// asks the registry to cancel it, and the registry, if the request is still
/// outstanding, answers the caller with a 503 and tells the supervisor to
/// cancel, which by then changes nothing there.
pub proof fn lemma_crash_cancels_request(
    registry: RegistryView,
    supervisor: SupervisorView,
    request_id: RequestId,
    request: RequestView,
    respond_to: ProcessHandle,
    worker: ProcessHandle,
)
    requires
        registry.services.contains_key(supervisor.service_id),
    ensures
        ({
            let service_id = supervisor.service_id;
            let started = registry.after_start(service_id, request_id, request, respond_to);
            let working = supervisor.after_start(request_id, Some(worker));
            let crashed = working.forget(request_id);
            let cancellation = ServiceRegistryMessageView::CancelRequest(request_id, service_id);
            &&& working.crash_effects(request_id.tag) == seq![
                SupervisorEffectView::Report { to: supervisor.supervisor, message: cancellation },
            ]
            &&& !crashed.workers.contains_key(request_id)
            &&& started.is_message_effects(
                cancellation,
                started.cancel_effects(service_id, request_id),
            )
            &&& started.cancel_effects(service_id, request_id)[1] == (RegistryEffectView::Reply {
                to: respond_to,
                response: canceled(request.version),
            })
            &&& !started.after_message(cancellation).is_outstanding(service_id, request_id)
            &&& crashed.cancel_effects(request_id) == Seq::<SupervisorEffectView>::empty()
            &&& crashed.forget(request_id) == crashed
        }),
{
    let working = supervisor.after_start(request_id, Some(worker));
    let crashed = working.forget(request_id);
    assert(crashed.workers.remove(request_id) =~= crashed.workers);
}

} // verus!
