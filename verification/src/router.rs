//! The router: from the path prefix a caller uses to the service that
//! answers under it.
//!
//! Identities are tags that the runtime mints. The router takes each new tag
//! as an argument and decides what it becomes: the identity of a newly
//! registered service, or of an accepted request.

use crate::service_registry::ServiceRegistryMessage;
use crate::{RequestId, ServiceId};
use vstd::hash_map::StringHashMap;
use vstd::prelude::*;

verus! {

/// The table from prefix to service.
pub struct Router {
    table: StringHashMap<ServiceId>,
}

/// What a request under `prefix` resolves to in `table`: the service
/// registered under the prefix together with a request identity made of
/// `fresh_tag`, or nothing for a prefix that is not registered.
pub open spec fn resolution(
    table: Map<Seq<char>, ServiceId>,
    prefix: Seq<char>,
    fresh_tag: i64,
) -> Option<(ServiceId, RequestId)> {
    if table.contains_key(prefix) {
        Some((table[prefix], RequestId { tag: fresh_tag }))
    } else {
        None
    }
}

/// The table after a service was registered under `prefix`: the prefix leads
/// to the new service, whatever it led to before.
pub open spec fn registration(
    table: Map<Seq<char>, ServiceId>,
    prefix: Seq<char>,
    fresh_tag: i64,
) -> Map<Seq<char>, ServiceId> {
    table.insert(prefix, ServiceId { tag: fresh_tag })
}

impl View for Router {
    type V = Map<Seq<char>, ServiceId>;

    closed spec fn view(&self) -> Map<Seq<char>, ServiceId> {
        self.table@
    }
}

impl Router {
    /// A router without registrations.
    pub fn new() -> (router: Self)
        ensures
            router@ == Map::<Seq<char>, ServiceId>::empty(),
    {
        Router { table: StringHashMap::new() }
    }

    /// Registers a service under `prefix`.
    ///
    /// The service's identity is made of `fresh_tag`. The prefix leads to it
    /// from now on; a service registered under the same prefix before is no
    /// longer reachable through the router, and nothing else is done about
    /// it. Returns the identity, and the message that hands the module to the
    /// registry.
    pub fn add_service(&mut self, prefix: String, module_data: Vec<u8>, fresh_tag: i64) -> (added: (
        ServiceId,
        ServiceRegistryMessage,
    ))
        ensures
            final(self)@ == registration(old(self)@, prefix@, fresh_tag),
            added.0 == (ServiceId { tag: fresh_tag }),
            added.1 == ServiceRegistryMessage::AddService(added.0, module_data),
    {
        let service_id = ServiceId { tag: fresh_tag };
        self.table.insert(prefix, service_id);
        (service_id, crate::service_registry::add_service(service_id, module_data))
    }

    /// Accepts a request under `prefix`.
    ///
    /// If a service is registered under the prefix, the request gets the
    /// identity made of `fresh_tag`, and both identities are returned. If
    /// none is, the result is empty and the tag is not used. The request is
    /// not made known to the registry.
    pub fn create_request(&self, prefix: String, fresh_tag: i64) -> (created: Option<
        (ServiceId, RequestId),
    >)
        ensures
            created == resolution(self@, prefix@, fresh_tag),
    {
        match self.table.get(prefix.as_str()) {
            Some(service_id) => Some((*service_id, RequestId { tag: fresh_tag })),
            None => None,
        }
    }
}

/// Accepts a request under `prefix` at the given router. See
/// [`Router::create_request`].
pub fn create_request(router: &Router, prefix: String, fresh_tag: i64) -> (created: Option<
    (ServiceId, RequestId),
>)
    ensures
        created == resolution(router@, prefix@, fresh_tag),
{
    router.create_request(prefix, fresh_tag)
}

/// Registers a service under `prefix` at the given router, and returns its
/// identity and the message for the registry. See [`Router::add_service`].
pub fn add_service(router: &mut Router, prefix: String, module_data: Vec<u8>, fresh_tag: i64) -> (added:
    (ServiceId, ServiceRegistryMessage))
    ensures
        final(router)@ == registration(old(router)@, prefix@, fresh_tag),
        added.0 == (ServiceId { tag: fresh_tag }),
        added.1 == ServiceRegistryMessage::AddService(added.0, module_data),
{
    router.add_service(prefix, module_data, fresh_tag)
}

/// A request under a registered prefix resolves to the service registered
/// under it, and its identity is the tag that was minted for it.
pub proof fn lemma_registered_prefix_resolves(
    table: Map<Seq<char>, ServiceId>,
    prefix: Seq<char>,
    fresh_tag: i64,
)
    requires
        table.contains_key(prefix),
    ensures
        resolution(table, prefix, fresh_tag) == Some((table[prefix], RequestId { tag: fresh_tag })),
{
}

/// Two requests for which different tags were minted get different
/// identities, whatever their prefixes.
pub proof fn lemma_distinct_tags_give_distinct_requests(
    table: Map<Seq<char>, ServiceId>,
    first_prefix: Seq<char>,
    first_tag: i64,
    second_prefix: Seq<char>,
    second_tag: i64,
)
    requires
        table.contains_key(first_prefix),
        table.contains_key(second_prefix),
        first_tag != second_tag,
    ensures
        ({
            let first = resolution(table, first_prefix, first_tag);
            let second = resolution(table, second_prefix, second_tag);
            first is Some && second is Some && first.unwrap().1 != second.unwrap().1
        }),
{
}

/// A request under a prefix that is not registered is not found.
pub proof fn lemma_unregistered_prefix_is_not_found(
    table: Map<Seq<char>, ServiceId>,
    prefix: Seq<char>,
    fresh_tag: i64,
)
    requires
        !table.contains_key(prefix),
    ensures
        resolution(table, prefix, fresh_tag) is None,
{
}

/// After a service was registered under a prefix, every request under that
/// prefix resolves to the new service, whether or not the prefix was in use
/// before; requests under any other prefix resolve as they did. If the
/// prefix was in use and the tag minted for the new service is not the tag
/// of the old one, the new service is not the old one.
pub proof fn lemma_latest_registration_wins(
    table: Map<Seq<char>, ServiceId>,
    prefix: Seq<char>,
    service_tag: i64,
    other_prefix: Seq<char>,
    request_tag: i64,
)
    ensures
        resolution(registration(table, prefix, service_tag), prefix, request_tag) == Some(
            (ServiceId { tag: service_tag }, RequestId { tag: request_tag }),
        ),
        other_prefix != prefix ==> resolution(
            registration(table, prefix, service_tag),
            other_prefix,
            request_tag,
        ) == resolution(table, other_prefix, request_tag),
        table.contains_key(prefix) && table[prefix].tag != service_tag ==> registration(
            table,
            prefix,
            service_tag,
        )[prefix] != table[prefix],
{
}

} // verus!
