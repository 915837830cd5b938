use frenezulo::router::{add_service, create_request, Router};
use frenezulo::service_registry::ServiceRegistryMessage;
use frenezulo::{RequestId, ServiceId};

#[test]
fn new_router_finds_nothing() {
    let router = Router::new();
    assert_eq!(router.create_request("echo".to_owned(), 129), None);
    assert_eq!(router.create_request(String::new(), 130), None);
}

#[test]
fn registered_prefix_resolves_to_its_service() {
    let mut router = Router::new();
    let (service_id, _) = router.add_service("echo".to_owned(), vec![1, 2, 3], 129);
    assert_eq!(service_id, ServiceId { tag: 129 });
    assert_eq!(
        router.create_request("echo".to_owned(), 130),
        Some((ServiceId { tag: 129 }, RequestId { tag: 130 }))
    );
}

#[test]
fn each_request_gets_the_tag_minted_for_it() {
    let mut router = Router::new();
    router.add_service("echo".to_owned(), vec![], 129);
    let first = router.create_request("echo".to_owned(), 130).unwrap();
    let second = router.create_request("echo".to_owned(), 131).unwrap();
    assert_eq!(first.0, second.0);
    assert_eq!(first.1, RequestId { tag: 130 });
    assert_eq!(second.1, RequestId { tag: 131 });
    assert_ne!(first.1, second.1);
}

#[test]
fn unregistered_prefix_is_not_found() {
    let mut router = Router::new();
    router.add_service("echo".to_owned(), vec![], 129);
    assert_eq!(router.create_request("missing".to_owned(), 130), None);
    assert_eq!(router.create_request("ech".to_owned(), 131), None);
    assert_eq!(router.create_request("echo/".to_owned(), 132), None);
    assert_eq!(router.create_request("Echo".to_owned(), 133), None);
}

#[test]
fn add_service_hands_module_to_registry() {
    let mut router = Router::new();
    let (service_id, message) = router.add_service("echo".to_owned(), vec![0, 97, 115, 109], 200);
    assert_eq!(
        message,
        ServiceRegistryMessage::AddService(service_id, vec![0, 97, 115, 109])
    );
}

#[test]
fn readded_prefix_leads_to_new_service() {
    let mut router = Router::new();
    let (old, _) = router.add_service("echo".to_owned(), vec![1], 129);
    let (new, _) = router.add_service("echo".to_owned(), vec![2], 130);
    assert_ne!(old, new);
    assert_eq!(
        router.create_request("echo".to_owned(), 131),
        Some((new, RequestId { tag: 131 }))
    );
    assert_eq!(
        router.create_request("echo".to_owned(), 132),
        Some((new, RequestId { tag: 132 }))
    );
}

#[test]
fn registration_leaves_other_prefixes_alone() {
    let mut router = Router::new();
    let (first, _) = router.add_service("one".to_owned(), vec![], 129);
    let (second, _) = router.add_service("two".to_owned(), vec![], 130);
    assert_eq!(router.create_request("one".to_owned(), 131).unwrap().0, first);
    assert_eq!(router.create_request("two".to_owned(), 132).unwrap().0, second);
}

#[test]
fn router_functions_act_on_given_router() {
    let mut router = Router::new();
    assert_eq!(create_request(&router, "echo".to_owned(), 1), None);
    let (service_id, message) = add_service(&mut router, "echo".to_owned(), vec![9], 129);
    assert_eq!(service_id, ServiceId { tag: 129 });
    assert_eq!(message, ServiceRegistryMessage::AddService(service_id, vec![9]));
    assert_eq!(
        create_request(&router, "echo".to_owned(), 130),
        Some((service_id, RequestId { tag: 130 }))
    );
}

#[test]
fn empty_prefix_can_be_registered() {
    let mut router = Router::new();
    let (service_id, _) = router.add_service(String::new(), vec![], 129);
    assert_eq!(
        router.create_request(String::new(), 130),
        Some((service_id, RequestId { tag: 130 }))
    );
}
