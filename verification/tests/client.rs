use bson::Bson;
use caro_bus::client::{
    Client, ClientAction, ClientEvent, ClientState, Handled, HubResponse, OUTBOUND_QUEUE_CAPACITY,
};
use caro_bus::errors::Error;
use caro_bus::hub::ClientRequest;
use caro_bus::messages::{IntoMessage, Message, Response, ServiceMessage, INVALID_SEQ};
use caro_bus::permissions::PermissionQuery;

fn refusal(seq: u64, error: Error) -> Message {
    Response::Error(error).into_message(seq)
}

fn incoming(message: Message, allowed: bool) -> ClientEvent<u8> {
    ClientEvent::Incoming { message, allowed }
}

fn registered(uuid: u128, name: &str) -> Client {
    let mut client = Client::new(uuid);
    let action = client.run(incoming(Message::new_registration(name.to_string()), true));
    assert!(matches!(action, ClientAction::Forward(_)));
    let action = client
        .run(ClientEvent::<u8>::Outgoing(HubResponse::Message(Response::Okay.into_message(INVALID_SEQ))));
    assert_eq!(action, ClientAction::Write(Response::Okay.into_message(INVALID_SEQ)));
    client
}

#[test]
fn queue_capacity_is_thirty_two() {
    assert_eq!(OUTBOUND_QUEUE_CAPACITY, 32);
}

#[test]
fn new_client_has_no_name() {
    let client = Client::new(7);
    assert_eq!(client.uuid(), 7);
    assert_eq!(client.state(), &ClientState::Unregistered);
    assert_eq!(client.service_name(), "");
}

#[test]
fn registration_waits_for_the_hub() {
    let mut client = Client::new(7);
    let handled = client.handle_client_message(Message::new_registration("svc.a".to_string()), true);
    assert_eq!(
        handled,
        Handled::Forward(ClientRequest {
            uuid: 7,
            service_name: "svc.a".to_string(),
            message: Message::new_registration("svc.a".to_string()),
        })
    );
    assert_eq!(client.state(), &ClientState::Registering("svc.a".to_string()));
    assert_eq!(client.service_name(), "");
}

#[test]
fn hub_ok_registers_the_client() {
    let client = registered(7, "svc.a");
    assert_eq!(client.state(), &ClientState::Registered("svc.a".to_string()));
    assert_eq!(client.service_name(), "svc.a");
}

#[test]
fn hub_error_sends_the_client_back() {
    let mut client = Client::new(7);
    client.run(incoming(Message::new_registration("svc.dup".to_string()), true));
    let verdict = refusal(INVALID_SEQ, Error::NameAlreadyRegistered);
    let action = client.run(ClientEvent::<u8>::Outgoing(HubResponse::Message(verdict.clone())));
    assert_eq!(action, ClientAction::Write(verdict));
    assert_eq!(client.state(), &ClientState::Unregistered);
    assert_eq!(client.service_name(), "");
    // The client may try another name.
    let action = client.run(incoming(Message::new_registration("svc.other".to_string()), true));
    assert!(matches!(action, ClientAction::Forward(_)));
}

#[test]
fn wrong_version_is_invalid_protocol() {
    let mut client = Client::new(7);
    let message =
        ServiceMessage::Register { protocol_version: 0, service_name: "svc.a".to_string() }
            .into_message(INVALID_SEQ);
    assert_eq!(
        client.run(incoming(message, true)),
        ClientAction::Write(refusal(INVALID_SEQ, Error::InvalidProtocol))
    );
    assert_eq!(client.state(), &ClientState::Unregistered);
    let newer =
        ServiceMessage::Register { protocol_version: 2, service_name: "svc.a".to_string() }
            .into_message(4);
    assert_eq!(
        client.handle_client_message(newer, true),
        Handled::Respond(refusal(4, Error::InvalidProtocol))
    );
}

#[test]
fn wrong_version_is_reported_before_the_oracle() {
    let mut client = Client::new(7);
    assert_eq!(
        client.handle_registration_message(3, 0, "svc.x".to_string(), false),
        Handled::Respond(refusal(3, Error::InvalidProtocol))
    );
}

#[test]
fn denied_name_is_not_allowed() {
    let mut client = Client::new(7);
    assert_eq!(
        client.run(incoming(Message::new_registration("svc.x".to_string()), false)),
        ClientAction::Write(refusal(INVALID_SEQ, Error::NotAllowed))
    );
    assert_eq!(client.state(), &ClientState::Unregistered);
}

#[test]
fn unregistered_client_may_only_register() {
    let mut client = Client::new(7);
    let others = vec![
        Message::new_connection("svc.b".to_string()),
        Message::new_call("a".to_string(), "m".to_string(), Bson::Null),
        Message::new_subscription("a".to_string(), "s".to_string()),
        Response::Okay.into_message(1),
        ServiceMessage::IncomingPeerFd { peer_service_name: "x".to_string() }.into_message(2),
    ];
    for message in others {
        let seq = message.seq();
        assert_eq!(
            client.run(incoming(message, true)),
            ClientAction::Write(refusal(seq, Error::InvalidProtocol))
        );
        assert_eq!(client.state(), &ClientState::Unregistered);
    }
}

#[test]
fn client_that_waits_may_not_ask_again() {
    let mut client = Client::new(7);
    client.run(incoming(Message::new_registration("svc.a".to_string()), true));
    assert_eq!(
        client.run(incoming(Message::new_registration("svc.b".to_string()), true)),
        ClientAction::Write(refusal(INVALID_SEQ, Error::InvalidProtocol))
    );
    assert_eq!(
        client.run(incoming(Message::new_connection("svc.b".to_string()), true)),
        ClientAction::Write(refusal(INVALID_SEQ, Error::InvalidProtocol))
    );
    assert_eq!(client.state(), &ClientState::Registering("svc.a".to_string()));
}

#[test]
fn registered_client_keeps_its_name() {
    let mut client = registered(7, "svc.a");
    assert_eq!(
        client.run(incoming(Message::new_registration("svc.b".to_string()), true)),
        ClientAction::Write(refusal(INVALID_SEQ, Error::InvalidProtocol))
    );
    assert_eq!(client.service_name(), "svc.a");
    // Later answers of the hub do not touch the name either.
    client.run(ClientEvent::<u8>::Outgoing(HubResponse::Message(refusal(1, Error::ServiceNotFound))));
    client.run(ClientEvent::<u8>::Outgoing(HubResponse::Message(Response::Okay.into_message(2))));
    assert_eq!(client.state(), &ClientState::Registered("svc.a".to_string()));
}

#[test]
fn connect_goes_to_the_hub() {
    let mut client = registered(7, "svc.a");
    let request = ServiceMessage::Connect { peer_service_name: "svc.b".to_string() }.into_message(21);
    assert_eq!(
        client.run(incoming(request.clone(), true)),
        ClientAction::Forward(ClientRequest {
            uuid: 7,
            service_name: "svc.a".to_string(),
            message: request,
        })
    );
    assert_eq!(client.state(), &ClientState::Registered("svc.a".to_string()));
}

#[test]
fn denied_connect_is_not_allowed() {
    let mut client = registered(7, "svc.a");
    assert_eq!(
        client.handle_connect_message(5, "svc.b".to_string(), false),
        Handled::Respond(refusal(5, Error::NotAllowed))
    );
    assert_eq!(
        client.run(incoming(Message::new_connection("svc.b".to_string()), false)),
        ClientAction::Write(refusal(INVALID_SEQ, Error::NotAllowed))
    );
    assert_eq!(client.state(), &ClientState::Registered("svc.a".to_string()));
}

#[test]
fn connect_before_registration_is_invalid_protocol() {
    let client = Client::new(7);
    assert_eq!(
        client.handle_connect_message(5, "svc.b".to_string(), true),
        Handled::Respond(refusal(5, Error::InvalidProtocol))
    );
}

#[test]
fn data_message_to_the_hub_is_refused() {
    let mut client = registered(7, "svc.a");
    let call = Message::new_call("svc.a".to_string(), "m".to_string(), Bson::Int32(1));
    assert_eq!(
        client.handle_client_message(call, true),
        Handled::Respond(refusal(INVALID_SEQ, Error::InvalidProtocol))
    );
    assert_eq!(client.state(), &ClientState::Registered("svc.a".to_string()));
}

#[test]
fn oracle_is_asked_about_the_name() {
    let client = Client::new(7);
    assert_eq!(
        client.permission_query(&Message::new_registration("svc.a".to_string())),
        Some(PermissionQuery::ServiceName { service_name: "svc.a".to_string() })
    );
}

#[test]
fn oracle_is_asked_about_the_connection() {
    let client = registered(7, "svc.a");
    assert_eq!(
        client.permission_query(&Message::new_connection("svc.b".to_string())),
        Some(PermissionQuery::Connection {
            caller_name: "svc.a".to_string(),
            target_name: "svc.b".to_string(),
        })
    );
    let stranger = Client::new(8);
    assert_eq!(
        stranger.permission_query(&Message::new_connection("svc.b".to_string())),
        Some(PermissionQuery::Connection {
            caller_name: String::new(),
            target_name: "svc.b".to_string(),
        })
    );
}

#[test]
fn oracle_is_not_asked_about_the_rest() {
    let client = registered(7, "svc.a");
    assert_eq!(client.permission_query(&Response::Okay.into_message(1)), None);
    assert_eq!(
        client.permission_query(&Message::new_subscription("a".to_string(), "s".to_string())),
        None
    );
    assert_eq!(
        client.permission_query(
            &ServiceMessage::IncomingPeerFd { peer_service_name: "x".to_string() }.into_message(1)
        ),
        None
    );
}

#[test]
fn descriptor_follows_its_message() {
    let mut client = registered(7, "svc.a");
    let ok = Response::Okay.into_message(3);
    assert_eq!(
        client.run(ClientEvent::Outgoing(HubResponse::Fd(ok.clone(), 42u8))),
        ClientAction::WriteWithDescriptor(ok, 42u8)
    );
    assert_eq!(client.state(), &ClientState::Registered("svc.a".to_string()));
}

#[test]
fn shutdown_is_written_and_ends_the_task() {
    let mut client = registered(7, "svc.a");
    let bye = Response::Shutdown("hub stops".to_string()).into_message(INVALID_SEQ);
    assert_eq!(
        client.run(ClientEvent::<u8>::Outgoing(HubResponse::Message(bye.clone()))),
        ClientAction::WriteAndClose(bye)
    );
    assert_eq!(client.state(), &ClientState::Terminated);
    assert_eq!(client.service_name(), "");
}

#[test]
fn socket_errors_end_the_task() {
    for event in [ClientEvent::<u8>::ReadFailed, ClientEvent::WriteFailed, ClientEvent::Undecodable] {
        let mut client = registered(7, "svc.a");
        assert_eq!(client.run(event), ClientAction::Close);
        assert_eq!(client.state(), &ClientState::Terminated);
    }
}

#[test]
fn terminated_client_only_closes() {
    let mut client = registered(7, "svc.a");
    client.run(ClientEvent::<u8>::ReadFailed);
    assert_eq!(
        client.run(incoming(Message::new_connection("svc.b".to_string()), true)),
        ClientAction::Close
    );
    assert_eq!(
        client.run(ClientEvent::Outgoing(HubResponse::Fd(Response::Okay.into_message(1), 1u8))),
        ClientAction::Close
    );
    assert_eq!(
        client.run(ClientEvent::<u8>::Outgoing(HubResponse::Message(Response::Okay.into_message(1)))),
        ClientAction::Close
    );
    assert_eq!(client.state(), &ClientState::Terminated);
}

#[test]
fn queued_items_hold_their_messages() {
    let message = refusal(4, Error::NotAllowed);
    assert_eq!(Client::send_message::<u8>(message.clone()), HubResponse::Message(message));
    assert_eq!(
        Client::send_connection_fd(8, "fd"),
        HubResponse::Fd(Response::Okay.into_message(8), "fd")
    );
    assert_eq!(
        Client::send_incoming_peer_fd("svc.a".to_string(), "fd"),
        HubResponse::Fd(
            ServiceMessage::IncomingPeerFd { peer_service_name: "svc.a".to_string() }
                .into_message(INVALID_SEQ),
            "fd",
        )
    );
}

#[test]
fn dropped_record_queues_the_reason() {
    let mut client = registered(7, "svc.a");
    let queued: HubResponse<u8> = Client::shutdown("read error".to_string());
    let bye = Response::Shutdown("read error".to_string()).into_message(INVALID_SEQ);
    assert_eq!(queued, HubResponse::Message(bye.clone()));
    assert_eq!(client.run(ClientEvent::Outgoing(queued)), ClientAction::WriteAndClose(bye));
    assert_eq!(client.state(), &ClientState::Terminated);
}
