//! One connected client, seen from the hub.
//!
//! The task that owns a client's socket reads frames, queues answers and passes
//! descriptors. What it does next is decided here: [`Client::run`] takes the
//! event that the task met and returns the action that the task performs. The
//! client's state moves between four phases:
//!
//! ```text
//! Unregistered --Register--> Registering --Ok--> Registered --Connect--> Registered
//!       ^                        |
//!       +---------Error----------+
//! ```
//!
//! Every phase ends in `Terminated` when the socket fails, a frame cannot be
//! decoded, or the hub shuts the client down.

use crate::errors::Error;
use crate::hub::{ClientRequest, ClientRequestView};
use crate::messages::{
    IntoMessage, Message, MessageBody, MessageBodyView, MessageView, Response, ResponseView,
    ServiceMessage, ServiceMessageView, INVALID_SEQ, PROTOCOL_VERSION,
};
use crate::permissions::{PermissionQuery, PermissionQueryView};
use vstd::prelude::*;

verus! {

/// How many items the queue of one client holds before the hub waits for the
/// client's task to drain it.
pub const OUTBOUND_QUEUE_CAPACITY: usize = 32;

/// What the hub queues for a client: a message, with or without the descriptor
/// of a peer socket. The descriptor's type is the caller's; it is carried, not
/// read.
#[derive(Debug, PartialEq)]
pub enum HubResponse<D> {
    /// A message, and the descriptor to pass right after it.
    Fd(Message, D),
    /// A message alone.
    Message(Message),
}

pub enum HubResponseView<D> {
    Fd(MessageView, D),
    Message(MessageView),
}

impl<D> View for HubResponse<D> {
    type V = HubResponseView<D>;

    open spec fn view(&self) -> HubResponseView<D> {
        match self {
            HubResponse::Fd(message, descriptor) => HubResponseView::Fd(message@, *descriptor),
            HubResponse::Message(message) => HubResponseView::Message(message@),
        }
    }
}

/// Where a client stands with the hub.
#[derive(Debug, PartialEq)]
pub enum ClientState {
    /// Connected, under no name.
    Unregistered,
    /// The hub is deciding on the name given.
    Registering(String),
    /// Registered under the name given.
    Registered(String),
    /// The connection is over.
    Terminated,
}

pub enum ClientStateView {
    Unregistered,
    Registering(Seq<char>),
    Registered(Seq<char>),
    Terminated,
}

impl View for ClientState {
    type V = ClientStateView;

    open spec fn view(&self) -> ClientStateView {
        match self {
            ClientState::Unregistered => ClientStateView::Unregistered,
            ClientState::Registering(name) => ClientStateView::Registering(name@),
            ClientState::Registered(name) => ClientStateView::Registered(name@),
            ClientState::Terminated => ClientStateView::Terminated,
        }
    }
}

/// What the hub does with a message that a client sent.
#[derive(Debug, PartialEq)]
pub enum Handled {
    /// Answer the client at once.
    Respond(Message),
    /// Hand the request to the hub, which answers later.
    Forward(ClientRequest),
}

pub enum HandledView {
    Respond(MessageView),
    Forward(ClientRequestView),
}

impl View for Handled {
    type V = HandledView;

    open spec fn view(&self) -> HandledView {
        match self {
            Handled::Respond(message) => HandledView::Respond(message@),
            Handled::Forward(request) => HandledView::Forward(request@),
        }
    }
}

/// What the task of a client met.
#[derive(Debug, PartialEq)]
pub enum ClientEvent<D> {
    /// The client sent `message`; `allowed` is the permission oracle's answer to
    /// [`Client::permission_query`] for it (any value where there was no query).
    Incoming { message: Message, allowed: bool },
    /// The client sent a whole frame that does not decode to a message.
    Undecodable,
    /// Reading from the socket failed.
    ReadFailed,
    /// Writing to the socket failed.
    WriteFailed,
    /// The hub queued something for the client.
    Outgoing(HubResponse<D>),
}

pub enum ClientEventView<D> {
    Incoming { message: MessageView, allowed: bool },
    Undecodable,
    ReadFailed,
    WriteFailed,
    Outgoing(HubResponseView<D>),
}

impl<D> View for ClientEvent<D> {
    type V = ClientEventView<D>;

    open spec fn view(&self) -> ClientEventView<D> {
        match self {
            ClientEvent::Incoming { message, allowed } => ClientEventView::Incoming {
                message: message@,
                allowed: *allowed,
            },
            ClientEvent::Undecodable => ClientEventView::Undecodable,
            ClientEvent::ReadFailed => ClientEventView::ReadFailed,
            ClientEvent::WriteFailed => ClientEventView::WriteFailed,
            ClientEvent::Outgoing(response) => ClientEventView::Outgoing(response@),
        }
    }
}

/// What the task of a client does next.
#[derive(Debug, PartialEq)]
pub enum ClientAction<D> {
    /// Write the message to the socket.
    Write(Message),
    /// Write the message, wait until the socket is writable, pass the descriptor.
    WriteWithDescriptor(Message, D),
    /// Write the message, then close the socket and end the task.
    WriteAndClose(Message),
    /// Send the request to the hub.
    Forward(ClientRequest),
    /// Close the socket and end the task; the hub forgets the client.
    Close,
}

pub enum ClientActionView<D> {
    Write(MessageView),
    WriteWithDescriptor(MessageView, D),
    WriteAndClose(MessageView),
    Forward(ClientRequestView),
    Close,
}

impl<D> View for ClientAction<D> {
    type V = ClientActionView<D>;

    open spec fn view(&self) -> ClientActionView<D> {
        match self {
            ClientAction::Write(message) => ClientActionView::Write(message@),
            ClientAction::WriteWithDescriptor(message, descriptor) => {
                ClientActionView::WriteWithDescriptor(message@, *descriptor)
            },
            ClientAction::WriteAndClose(message) => ClientActionView::WriteAndClose(message@),
            ClientAction::Forward(request) => ClientActionView::Forward(request@),
            ClientAction::Close => ClientActionView::Close,
        }
    }
}

/// The hub's record of one connection.
#[derive(Debug, PartialEq)]
pub struct Client {
    uuid: u128,
    state: ClientState,
}

pub struct ClientView {
    pub uuid: u128,
    pub state: ClientStateView,
}

/// The answer `error` to the message numbered `seq`.
pub open spec fn refusal(seq: u64, error: Error) -> MessageView {
    MessageView { seq, body: MessageBodyView::Response(ResponseView::Error(error)) }
}

impl ClientView {
    /// The name that the client is registered under; empty until it is.
    pub open spec fn service_name(self) -> Seq<char> {
        match self.state {
            ClientStateView::Registered(name) => name,
            _ => Seq::empty(),
        }
    }

    /// The question that the oracle must answer before `body` is handled, if
    /// there is one.
    pub open spec fn permission_query(self, body: MessageBodyView) -> Option<PermissionQueryView> {
        match body {
            MessageBodyView::ServiceMessage(ServiceMessageView::Register { service_name, .. }) => {
                Some(PermissionQueryView::ServiceName { service_name })
            },
            MessageBodyView::ServiceMessage(ServiceMessageView::Connect { peer_service_name }) => {
                Some(
                    PermissionQueryView::Connection {
                        caller_name: self.service_name(),
                        target_name: peer_service_name,
                    },
                )
            },
            _ => None,
        }
    }

    /// A request to register under `service_name`. Only an unregistered client
    /// that speaks this protocol version may ask; of those, the ones that the
    /// oracle denies are refused, and the others wait for the hub's decision.
    pub open spec fn registration(
        self,
        seq: u64,
        protocol_version: i64,
        service_name: Seq<char>,
        allowed: bool,
    ) -> (ClientView, HandledView) {
        if !(self.state is Unregistered) || protocol_version != PROTOCOL_VERSION {
            (self, HandledView::Respond(refusal(seq, Error::InvalidProtocol)))
        } else if !allowed {
            (self, HandledView::Respond(refusal(seq, Error::NotAllowed)))
        } else {
            (
                ClientView { uuid: self.uuid, state: ClientStateView::Registering(service_name) },
                HandledView::Forward(
                    ClientRequestView {
                        uuid: self.uuid,
                        service_name,
                        message: MessageView {
                            seq,
                            body: MessageBodyView::ServiceMessage(
                                ServiceMessageView::Register { protocol_version, service_name },
                            ),
                        },
                    },
                ),
            )
        }
    }

    /// A request to connect to `peer_service_name`. Only a registered client may
    /// ask; if the oracle denies the connection it is refused, else the hub
    /// decides. The client's state stays as it is.
    pub open spec fn connection(
        self,
        seq: u64,
        peer_service_name: Seq<char>,
        allowed: bool,
    ) -> HandledView {
        if !(self.state is Registered) {
            HandledView::Respond(refusal(seq, Error::InvalidProtocol))
        } else if !allowed {
            HandledView::Respond(refusal(seq, Error::NotAllowed))
        } else {
            HandledView::Forward(
                ClientRequestView {
                    uuid: self.uuid,
                    service_name: self.service_name(),
                    message: MessageView {
                        seq,
                        body: MessageBodyView::ServiceMessage(
                            ServiceMessageView::Connect { peer_service_name },
                        ),
                    },
                },
            )
        }
    }

    /// A message from the client. The hub takes requests to register and to
    /// connect; whatever else arrives is refused, and the client stays connected.
    pub open spec fn message(self, message: MessageView, allowed: bool) -> (
        ClientView,
        HandledView,
    ) {
        match message.body {
            MessageBodyView::ServiceMessage(
                ServiceMessageView::Register { protocol_version, service_name },
            ) => self.registration(message.seq, protocol_version, service_name, allowed),
            MessageBodyView::ServiceMessage(ServiceMessageView::Connect { peer_service_name }) => (
                self,
                self.connection(message.seq, peer_service_name, allowed),
            ),
            _ => (self, HandledView::Respond(refusal(message.seq, Error::InvalidProtocol))),
        }
    }

    /// The client after the hub's `message` went out to it. A client that waits
    /// for the hub's decision on its name learns it here: `Ok` registers it,
    /// an error sends it back. A shutdown ends every client.
    pub open spec fn notified(self, message: MessageView) -> ClientView {
        let state = match message.body {
            MessageBodyView::Response(ResponseView::Shutdown(_)) => ClientStateView::Terminated,
            MessageBodyView::Response(ResponseView::Okay) => match self.state {
                ClientStateView::Registering(name) => ClientStateView::Registered(name),
                other => other,
            },
            MessageBodyView::Response(ResponseView::Error(_)) => match self.state {
                ClientStateView::Registering(_) => ClientStateView::Unregistered,
                other => other,
            },
            _ => self.state,
        };
        ClientView { uuid: self.uuid, state }
    }

    /// The client terminated.
    pub open spec fn terminated(self) -> ClientView {
        ClientView { uuid: self.uuid, state: ClientStateView::Terminated }
    }

    /// One turn of the client's task: the state after `event`, and what to do.
    pub open spec fn step<D>(self, event: ClientEventView<D>) -> (ClientView, ClientActionView<D>) {
        if self.state is Terminated {
            (self, ClientActionView::Close)
        } else {
            match event {
                ClientEventView::Incoming { message, allowed } => {
                    let (next, handled) = self.message(message, allowed);
                    match handled {
                        HandledView::Respond(answer) => (next, ClientActionView::Write(answer)),
                        HandledView::Forward(request) => (next, ClientActionView::Forward(request)),
                    }
                },
                ClientEventView::Undecodable => (self.terminated(), ClientActionView::Close),
                ClientEventView::ReadFailed => (self.terminated(), ClientActionView::Close),
                ClientEventView::WriteFailed => (self.terminated(), ClientActionView::Close),
                ClientEventView::Outgoing(HubResponseView::Message(message)) => {
                    if message.body matches MessageBodyView::Response(ResponseView::Shutdown(_)) {
                        (self.terminated(), ClientActionView::WriteAndClose(message))
                    } else {
                        (self.notified(message), ClientActionView::Write(message))
                    }
                },
                ClientEventView::Outgoing(HubResponseView::Fd(message, descriptor)) => (
                    self,
                    ClientActionView::WriteWithDescriptor(message, descriptor),
                ),
            }
        }
    }
}

impl View for Client {
    type V = ClientView;

    closed spec fn view(&self) -> ClientView {
        ClientView { uuid: self.uuid, state: self.state@ }
    }
}

impl Client {
    /// The record of a connection that was just accepted.
    pub fn new(uuid: u128) -> (client: Self)
        ensures
            client@ == (ClientView { uuid, state: ClientStateView::Unregistered }),
    {
        Self { uuid, state: ClientState::Unregistered }
    }

    /// The identifier of the connection.
    pub fn uuid(&self) -> (uuid: u128)
        ensures
            uuid == self@.uuid,
    {
        self.uuid
    }

    /// Where the client stands.
    pub fn state(&self) -> (state: &ClientState)
        ensures
            state@ == self@.state,
    {
        &self.state
    }

    /// The name that the client is registered under; empty until it is.
    pub fn service_name(&self) -> (name: String)
        ensures
            name@ == self@.service_name(),
    {
        match &self.state {
            ClientState::Registered(name) => name.clone(),
            _ => String::new(),
        }
    }

    /// The question that the permission oracle must answer before `message` is
    /// handled; `None` where the message needs no permission.
    pub fn permission_query(&self, message: &Message) -> (query: Option<PermissionQuery>)
        ensures
            query.is_some() == self@.permission_query(message@.body).is_some(),
            query matches Some(q) ==> q@ == self@.permission_query(message@.body).unwrap(),
    {
        match message.body() {
            MessageBody::ServiceMessage(ServiceMessage::Register { service_name, .. }) => {
                Some(PermissionQuery::ServiceName { service_name: service_name.clone() })
            },
            MessageBody::ServiceMessage(ServiceMessage::Connect { peer_service_name }) => {
                Some(
                    PermissionQuery::Connection {
                        caller_name: self.service_name(),
                        target_name: peer_service_name.clone(),
                    },
                )
            },
            _ => None,
        }
    }

    /// Handles a request to register under `service_name`, sent under `seq`.
    /// `allowed` says whether the oracle lets the peer take that name.
    pub fn handle_registration_message(
        &mut self,
        seq: u64,
        protocol_version: i64,
        service_name: String,
        allowed: bool,
    ) -> (handled: Handled)
        ensures
            (final(self)@, handled@) == old(self)@.registration(
                seq,
                protocol_version,
                service_name@,
                allowed,
            ),
    {
        let unregistered = match &self.state {
            ClientState::Unregistered => true,
            _ => false,
        };
        if !unregistered || protocol_version != PROTOCOL_VERSION {
            return Handled::Respond(Response::Error(Error::InvalidProtocol).into_message(seq));
        }
        if !allowed {
            return Handled::Respond(Response::Error(Error::NotAllowed).into_message(seq));
        }
        let message = ServiceMessage::Register {
            protocol_version,
            service_name: service_name.clone(),
        }.into_message(seq);
        let request = ClientRequest { uuid: self.uuid, service_name: service_name.clone(), message };
        self.state = ClientState::Registering(service_name);
        Handled::Forward(request)
    }

    /// Handles a request to connect to `peer_service_name`, sent under `seq`.
    /// `allowed` says whether the oracle lets this client connect to that peer.
    pub fn handle_connect_message(&self, seq: u64, peer_service_name: String, allowed: bool) -> (handled:
        Handled)
        ensures
            handled@ == self@.connection(seq, peer_service_name@, allowed),
    {
        match &self.state {
            ClientState::Registered(name) => {
                if !allowed {
                    return Handled::Respond(Response::Error(Error::NotAllowed).into_message(seq));
                }
                let message = ServiceMessage::Connect { peer_service_name }.into_message(seq);
                Handled::Forward(
                    ClientRequest { uuid: self.uuid, service_name: name.clone(), message },
                )
            },
            _ => Handled::Respond(Response::Error(Error::InvalidProtocol).into_message(seq)),
        }
    }

    /// Handles a message that the client sent. `allowed` is the oracle's answer
    /// to [`Client::permission_query`] for this message.
    pub fn handle_client_message(&mut self, message: Message, allowed: bool) -> (handled: Handled)
        ensures
            (final(self)@, handled@) == old(self)@.message(message@, allowed),
    {
        let (seq, body) = message.into_parts();
        match body {
            MessageBody::ServiceMessage(
                ServiceMessage::Register { protocol_version, service_name },
            ) => self.handle_registration_message(seq, protocol_version, service_name, allowed),
            MessageBody::ServiceMessage(ServiceMessage::Connect { peer_service_name }) => {
                self.handle_connect_message(seq, peer_service_name, allowed)
            },
            _ => Handled::Respond(Response::Error(Error::InvalidProtocol).into_message(seq)),
        }
    }

    /// Takes note of a message of the hub that goes out to the client.
    fn notify(&mut self, message: &Message)
        ensures
            final(self)@ == old(self)@.notified(message@),
    {
        match message.body() {
            MessageBody::Response(Response::Shutdown(_)) => {
                self.state = ClientState::Terminated;
            },
            MessageBody::Response(Response::Okay) => {
                let registered = match &self.state {
                    ClientState::Registering(name) => Some(name.clone()),
                    _ => None,
                };
                if let Some(name) = registered {
                    self.state = ClientState::Registered(name);
                }
            },
            MessageBody::Response(Response::Error(_)) => {
                let registering = match &self.state {
                    ClientState::Registering(_) => true,
                    _ => false,
                };
                if registering {
                    self.state = ClientState::Unregistered;
                }
            },
            _ => {},
        }
    }

    /// One turn of the client's task: takes the event that the task met, moves
    /// the client's state and returns what the task does next. Once the client
    /// has terminated, every event is answered with `Close`.
    pub fn run<D>(&mut self, event: ClientEvent<D>) -> (action: ClientAction<D>)
        ensures
            (final(self)@, action@) == old(self)@.step(event@),
    {
        let terminated = match &self.state {
            ClientState::Terminated => true,
            _ => false,
        };
        if terminated {
            return ClientAction::Close;
        }
        match event {
            ClientEvent::Incoming { message, allowed } => {
                match self.handle_client_message(message, allowed) {
                    Handled::Respond(answer) => ClientAction::Write(answer),
                    Handled::Forward(request) => ClientAction::Forward(request),
                }
            },
            ClientEvent::Undecodable | ClientEvent::ReadFailed | ClientEvent::WriteFailed => {
                self.state = ClientState::Terminated;
                ClientAction::Close
            },
            ClientEvent::Outgoing(HubResponse::Message(message)) => {
                self.notify(&message);
                let terminated = match &self.state {
                    ClientState::Terminated => true,
                    _ => false,
                };
                if terminated {
                    ClientAction::WriteAndClose(message)
                } else {
                    ClientAction::Write(message)
                }
            },
            ClientEvent::Outgoing(HubResponse::Fd(message, descriptor)) => {
                ClientAction::WriteWithDescriptor(message, descriptor)
            },
        }
    }

    /// What the hub queues to have `message` sent to a client.
    pub fn send_message<D>(message: Message) -> (queued: HubResponse<D>)
        ensures
            queued@ == HubResponseView::<D>::Message(message@),
    {
        HubResponse::Message(message)
    }

    /// What the hub queues for the client that asked for a connection, once the
    /// peer socket exists: the answer `Ok` under the number `seq` of the request,
    /// and the client's end of the socket.
    pub fn send_connection_fd<D>(seq: u64, fd: D) -> (queued: HubResponse<D>)
        ensures
            queued@ == HubResponseView::Fd(
                MessageView { seq, body: MessageBodyView::Response(ResponseView::Okay) },
                fd,
            ),
    {
        HubResponse::Fd(Response::Okay.into_message(seq), fd)
    }

    /// What the hub queues for the client that is being connected to: the notice
    /// that `peer_service_name` connects, and the client's end of the socket.
    pub fn send_incoming_peer_fd<D>(peer_service_name: String, fd: D) -> (queued:
        HubResponse<D>)
        ensures
            queued@ == HubResponseView::Fd(
                MessageView {
                    seq: INVALID_SEQ,
                    body: MessageBodyView::ServiceMessage(
                        ServiceMessageView::IncomingPeerFd { peer_service_name: peer_service_name@ },
                    ),
                },
                fd,
            ),
    {
        HubResponse::Fd(
            ServiceMessage::IncomingPeerFd { peer_service_name }.into_message(INVALID_SEQ),
            fd,
        )
    }

    /// What is queued last for a client whose record the hub drops, so that a
    /// task that still drains the queue tells the peer why the connection
    /// closes. [`Client::run`] ends the task when it meets this message.
    pub fn shutdown<D>(reason: String) -> (queued: HubResponse<D>)
        ensures
            queued@ == HubResponseView::<D>::Message(
                MessageView {
                    seq: INVALID_SEQ,
                    body: MessageBodyView::Response(ResponseView::Shutdown(reason@)),
                },
            ),
    {
        HubResponse::Message(Response::Shutdown(reason).into_message(INVALID_SEQ))
    }
}

/// A name is given once. A registered client keeps its name through every
/// event, until it terminates; and a client gets a name only when the hub's
/// `Ok` goes out to it while it waits for the hub's decision, and then the name
/// that it asked for.
pub proof fn law_name_is_set_once<D>(client: ClientView, event: ClientEventView<D>)
    ensures
        client.state is Registered ==> client.step(event).0.state == client.state
            || client.step(event).0.state is Terminated,
        !(client.state is Registered) && client.step(event).0.state is Registered ==> {
            &&& client.state matches ClientStateView::Registering(name)
            &&& client.step(event).0.state == ClientStateView::Registered(name)
            &&& event matches ClientEventView::Outgoing(HubResponseView::Message(message))
            &&& message.body == MessageBodyView::Response(ResponseView::Okay)
        },
        client.step(event).0.uuid == client.uuid,
{
}

/// A client that has terminated stays so, and its task is told to close.
pub proof fn law_terminated_is_final<D>(client: ClientView, event: ClientEventView<D>)
    requires
        client.state is Terminated,
    ensures
        client.step(event) == (client, ClientActionView::<D>::Close),
{
}

/// What a message of the client leads to. An answer at once is an error under
/// the number of the message, and leaves the client as it was. A request goes on
/// to the hub only with the oracle's leave, and as the client sent it.
pub proof fn law_refusals_keep_the_number(client: ClientView, message: MessageView, allowed: bool)
    ensures
        match client.message(message, allowed).1 {
            HandledView::Respond(reply) => {
                &&& reply.seq == message.seq
                &&& reply.body matches MessageBodyView::Response(ResponseView::Error(_))
                &&& client.message(message, allowed).0 == client
            },
            HandledView::Forward(request) => {
                &&& request.uuid == client.uuid
                &&& request.message == message
                &&& allowed
            },
        },
{
}

} // verus!
