use caro_bus::client::HubResponse;
use caro_bus::errors::Error;
use caro_bus::hub::{ClientRequest, Hub, HubAction};
use caro_bus::messages::{IntoMessage, Message, Response, ServiceMessage, INVALID_SEQ};

fn register_request(uuid: u128, name: &str) -> ClientRequest {
    ClientRequest {
        uuid,
        service_name: name.to_string(),
        message: Message::new_registration(name.to_string()),
    }
}

fn connect_request(uuid: u128, caller: &str, target: &str, seq: u64) -> ClientRequest {
    ClientRequest {
        uuid,
        service_name: caller.to_string(),
        message: ServiceMessage::Connect { peer_service_name: target.to_string() }
            .into_message(seq),
    }
}

#[test]
fn new_hub_knows_nobody() {
    let hub = Hub::new();
    assert_eq!(hub.lookup(&"svc.a".to_string()), None);
    assert_eq!(hub.lookup(&String::new()), None);
}

#[test]
fn free_name_is_registered() {
    let mut hub = Hub::new();
    assert_eq!(hub.register(1, "svc.a".to_string()), Response::Okay);
    assert_eq!(hub.lookup(&"svc.a".to_string()), Some(1));
    assert_eq!(hub.lookup(&"svc.b".to_string()), None);
}

#[test]
fn taken_name_stays_with_its_holder() {
    let mut hub = Hub::new();
    assert_eq!(hub.register(1, "svc.dup".to_string()), Response::Okay);
    assert_eq!(
        hub.register(2, "svc.dup".to_string()),
        Response::Error(Error::NameAlreadyRegistered)
    );
    assert_eq!(hub.lookup(&"svc.dup".to_string()), Some(1));
    assert_eq!(
        hub.register(1, "svc.dup".to_string()),
        Response::Error(Error::NameAlreadyRegistered)
    );
}

#[test]
fn duplicate_registration_through_requests() {
    let mut hub = Hub::new();
    assert_eq!(
        hub.handle(register_request(10, "svc.dup")),
        HubAction::Reply { uuid: 10, message: Response::Okay.into_message(INVALID_SEQ) }
    );
    assert_eq!(
        hub.handle(register_request(11, "svc.dup")),
        HubAction::Reply {
            uuid: 11,
            message: Response::Error(Error::NameAlreadyRegistered).into_message(INVALID_SEQ),
        }
    );
    assert_eq!(hub.lookup(&"svc.dup".to_string()), Some(10));
}

#[test]
fn reply_keeps_the_number_of_the_request() {
    let mut hub = Hub::new();
    let request = ClientRequest {
        uuid: 4,
        service_name: "svc.a".to_string(),
        message: ServiceMessage::Register {
            protocol_version: 1,
            service_name: "svc.a".to_string(),
        }
        .into_message(77),
    };
    assert_eq!(
        hub.handle(request),
        HubAction::Reply { uuid: 4, message: Response::Okay.into_message(77) }
    );
}

#[test]
fn disconnect_frees_the_name() {
    let mut hub = Hub::new();
    hub.register(1, "svc.a".to_string());
    hub.register(2, "svc.b".to_string());
    hub.register(1, "svc.c".to_string());
    hub.disconnect(1);
    assert_eq!(hub.lookup(&"svc.a".to_string()), None);
    assert_eq!(hub.lookup(&"svc.c".to_string()), None);
    assert_eq!(hub.lookup(&"svc.b".to_string()), Some(2));
    assert_eq!(hub.register(3, "svc.a".to_string()), Response::Okay);
    assert_eq!(hub.lookup(&"svc.a".to_string()), Some(3));
}

#[test]
fn disconnect_of_a_stranger_changes_nothing() {
    let mut hub = Hub::new();
    hub.register(1, "svc.a".to_string());
    hub.disconnect(9);
    assert_eq!(hub.lookup(&"svc.a".to_string()), Some(1));
}

#[test]
fn connect_to_an_unknown_service_is_refused() {
    let mut hub = Hub::new();
    hub.register(1, "svc.a".to_string());
    assert_eq!(
        hub.handle(connect_request(1, "svc.a", "svc.b", 5)),
        HubAction::Reply {
            uuid: 1,
            message: Response::Error(Error::ServiceNotFound).into_message(5),
        }
    );
}

#[test]
fn connect_hands_both_ends_out() {
    let mut hub = Hub::new();
    hub.register(1, "svc.a".to_string());
    hub.register(2, "svc.b".to_string());
    let handoff = match hub.handle(connect_request(1, "svc.a", "svc.b", INVALID_SEQ)) {
        HubAction::Connect(handoff) => handoff,
        other => panic!("no handoff: {:?}", other),
    };
    let (to_target, to_caller) = handoff.deliver("end a", "end b");
    assert_eq!(
        to_target,
        (
            2,
            HubResponse::Fd(
                ServiceMessage::IncomingPeerFd { peer_service_name: "svc.a".to_string() }
                    .into_message(INVALID_SEQ),
                "end a",
            ),
        )
    );
    assert_eq!(
        to_caller,
        (1, HubResponse::Fd(Response::Okay.into_message(INVALID_SEQ), "end b"))
    );
    // The table is as it was.
    assert_eq!(hub.lookup(&"svc.a".to_string()), Some(1));
    assert_eq!(hub.lookup(&"svc.b".to_string()), Some(2));
}

#[test]
fn mutual_connects_make_two_handoffs() {
    let mut hub = Hub::new();
    hub.register(1, "svc.a".to_string());
    hub.register(2, "svc.b".to_string());
    let first = hub.handle(connect_request(1, "svc.a", "svc.b", 1));
    let second = hub.handle(connect_request(2, "svc.b", "svc.a", 2));
    match (first, second) {
        (HubAction::Connect(ab), HubAction::Connect(ba)) => {
            let (target, caller) = ab.deliver(0u8, 1u8);
            assert_eq!((target.0, caller.0), (2, 1));
            let (target, caller) = ba.deliver(2u8, 3u8);
            assert_eq!((target.0, caller.0), (1, 2));
        }
        other => panic!("no handoffs: {:?}", other),
    }
}

#[test]
fn handoff_without_sockets_fails_with_internal() {
    let mut hub = Hub::new();
    hub.register(1, "svc.a".to_string());
    hub.register(2, "svc.b".to_string());
    match hub.handle(connect_request(1, "svc.a", "svc.b", 9)) {
        HubAction::Connect(handoff) => {
            let queued: (u128, HubResponse<u8>) = handoff.fail();
            assert_eq!(
                queued,
                (1, HubResponse::Message(Response::Error(Error::Internal).into_message(9)))
            );
        }
        other => panic!("no handoff: {:?}", other),
    }
}

#[test]
fn hub_refuses_what_is_no_request() {
    let mut hub = Hub::new();
    let stray = ClientRequest {
        uuid: 3,
        service_name: String::new(),
        message: Message::new_subscription("a".to_string(), "s".to_string()),
    };
    assert_eq!(
        hub.handle(stray),
        HubAction::Reply {
            uuid: 3,
            message: Response::Error(Error::InvalidProtocol).into_message(INVALID_SEQ),
        }
    );
    let notice = ClientRequest {
        uuid: 3,
        service_name: String::new(),
        message: ServiceMessage::IncomingPeerFd { peer_service_name: "x".to_string() }
            .into_message(1),
    };
    assert_eq!(
        hub.handle(notice),
        HubAction::Reply { uuid: 3, message: Response::Error(Error::InvalidProtocol).into_message(1) }
    );
}
