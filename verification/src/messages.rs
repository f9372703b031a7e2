//! The message model: what travels between services and the hub.
//!
//! Every exec type here has a view in which strings are sequences of characters.
//! Payloads of calls and signals are documents whose schema the caller defines;
//! the bus carries them and never looks inside.

use crate::errors::Error;
use bson::Bson;
use vstd::prelude::*;

verus! {

/// A self-describing document of the `bson` crate. The bus only carries such
/// values, so nothing is stated of what one holds.
#[verifier::external_type_specification]
#[verifier::external_body]
pub struct ExBson(bson::Bson);

/// `Bson::clone`, which `bson` derives field by field: the copy equals the
/// value that was cloned.
pub assume_specification[ <bson::Bson as Clone>::clone ](value: &bson::Bson) -> (copy: bson::Bson)
    ensures
        copy == *value,
;

/// The protocol version that the hub speaks.
pub const PROTOCOL_VERSION: i64 = 1;

/// Sequence number of a message that no call registry has numbered yet. Control
/// messages keep it for good.
pub const INVALID_SEQ: u64 = 0xDEADBEEF;

/// Control messages between a service and the hub.
#[derive(Debug, PartialEq)]
pub enum ServiceMessage {
    /// A client asks the hub to register it under `service_name`.
    Register { protocol_version: i64, service_name: String },
    /// A client asks the hub to connect it to `peer_service_name`.
    Connect { peer_service_name: String },
    /// The hub tells a client that `peer_service_name` connects to it. The
    /// descriptor of the peer socket follows this message.
    IncomingPeerFd { peer_service_name: String },
}

pub enum ServiceMessageView {
    Register { protocol_version: i64, service_name: Seq<char> },
    Connect { peer_service_name: Seq<char> },
    IncomingPeerFd { peer_service_name: Seq<char> },
}

impl View for ServiceMessage {
    type V = ServiceMessageView;

    open spec fn view(&self) -> ServiceMessageView {
        match self {
            ServiceMessage::Register { protocol_version, service_name } => {
                ServiceMessageView::Register {
                    protocol_version: *protocol_version,
                    service_name: service_name@,
                }
            },
            ServiceMessage::Connect { peer_service_name } => ServiceMessageView::Connect {
                peer_service_name: peer_service_name@,
            },
            ServiceMessage::IncomingPeerFd { peer_service_name } => {
                ServiceMessageView::IncomingPeerFd { peer_service_name: peer_service_name@ }
            },
        }
    }
}

impl Clone for ServiceMessage {
    fn clone(&self) -> (copy: Self)
        ensures
            copy@ == self@,
    {
        match self {
            ServiceMessage::Register { protocol_version, service_name } => {
                ServiceMessage::Register {
                    protocol_version: *protocol_version,
                    service_name: service_name.clone(),
                }
            },
            ServiceMessage::Connect { peer_service_name } => ServiceMessage::Connect {
                peer_service_name: peer_service_name.clone(),
            },
            ServiceMessage::IncomingPeerFd { peer_service_name } => {
                ServiceMessage::IncomingPeerFd { peer_service_name: peer_service_name.clone() }
            },
        }
    }
}

/// What a peer, or the hub, answers.
#[derive(Debug, PartialEq)]
pub enum Response {
    /// The request was granted. On the wire this variant is called `Ok`.
    Okay,
    /// The connection closes, for the reason given.
    Shutdown(String),
    /// The value that a method call returned.
    Return(Bson),
    /// One emission of a signal that the receiver subscribed to.
    Signal(Bson),
    /// The request was turned down.
    Error(Error),
}

pub enum ResponseView {
    Okay,
    Shutdown(Seq<char>),
    Return(Bson),
    Signal(Bson),
    Error(Error),
}

impl ResponseView {
    /// A terminal response ends the call it answers. Only a signal emission is
    /// not terminal: more of them may follow under the same sequence number.
    pub open spec fn is_terminal(self) -> bool {
        !(self is Signal)
    }
}

impl View for Response {
    type V = ResponseView;

    open spec fn view(&self) -> ResponseView {
        match self {
            Response::Okay => ResponseView::Okay,
            Response::Shutdown(reason) => ResponseView::Shutdown(reason@),
            Response::Return(value) => ResponseView::Return(*value),
            Response::Signal(value) => ResponseView::Signal(*value),
            Response::Error(error) => ResponseView::Error(*error),
        }
    }
}

impl Clone for Response {
    fn clone(&self) -> (copy: Self)
        ensures
            copy@ == self@,
    {
        match self {
            Response::Okay => Response::Okay,
            Response::Shutdown(reason) => Response::Shutdown(reason.clone()),
            Response::Return(value) => Response::Return(value.clone()),
            Response::Signal(value) => Response::Signal(value.clone()),
            Response::Error(error) => Response::Error(*error),
        }
    }
}

impl Response {
    /// Whether this response ends the call it answers.
    pub fn is_terminal(&self) -> (terminal: bool)
        ensures
            terminal == self@.is_terminal(),
    {
        match self {
            Response::Signal(_) => false,
            _ => true,
        }
    }
}

/// The four kinds of message.
#[derive(Debug, PartialEq)]
pub enum MessageBody {
    ServiceMessage(ServiceMessage),
    Response(Response),
    MethodCall { caller_name: String, method_name: String, params: Bson },
    SignalSubscription { subscriber_name: String, signal_name: String },
}

pub enum MessageBodyView {
    ServiceMessage(ServiceMessageView),
    Response(ResponseView),
    MethodCall { caller_name: Seq<char>, method_name: Seq<char>, params: Bson },
    SignalSubscription { subscriber_name: Seq<char>, signal_name: Seq<char> },
}

impl MessageBodyView {
    /// Whether a message with this body ends the call registered under its
    /// sequence number: every body does, but one emission of a signal.
    pub open spec fn ends_call(self) -> bool {
        match self {
            MessageBodyView::Response(response) => response.is_terminal(),
            _ => true,
        }
    }
}

impl View for MessageBody {
    type V = MessageBodyView;

    open spec fn view(&self) -> MessageBodyView {
        match self {
            MessageBody::ServiceMessage(message) => MessageBodyView::ServiceMessage(message@),
            MessageBody::Response(response) => MessageBodyView::Response(response@),
            MessageBody::MethodCall { caller_name, method_name, params } => {
                MessageBodyView::MethodCall {
                    caller_name: caller_name@,
                    method_name: method_name@,
                    params: *params,
                }
            },
            MessageBody::SignalSubscription { subscriber_name, signal_name } => {
                MessageBodyView::SignalSubscription {
                    subscriber_name: subscriber_name@,
                    signal_name: signal_name@,
                }
            },
        }
    }
}

impl Clone for MessageBody {
    fn clone(&self) -> (copy: Self)
        ensures
            copy@ == self@,
    {
        match self {
            MessageBody::ServiceMessage(message) => MessageBody::ServiceMessage(message.clone()),
            MessageBody::Response(response) => MessageBody::Response(response.clone()),
            MessageBody::MethodCall { caller_name, method_name, params } => {
                MessageBody::MethodCall {
                    caller_name: caller_name.clone(),
                    method_name: method_name.clone(),
                    params: params.clone(),
                }
            },
            MessageBody::SignalSubscription { subscriber_name, signal_name } => {
                MessageBody::SignalSubscription {
                    subscriber_name: subscriber_name.clone(),
                    signal_name: signal_name.clone(),
                }
            },
        }
    }
}

impl MessageBody {
    /// Whether a message with this body ends the call registered under its
    /// sequence number.
    pub fn ends_call(&self) -> (ends: bool)
        ensures
            ends == self@.ends_call(),
    {
        match self {
            MessageBody::Response(response) => response.is_terminal(),
            _ => true,
        }
    }
}

/// A message: a sequence number and a body.
#[derive(Debug, PartialEq)]
pub struct Message {
    pub(crate) seq: u64,
    pub(crate) body: MessageBody,
}

pub struct MessageView {
    pub seq: u64,
    pub body: MessageBodyView,
}

impl View for Message {
    type V = MessageView;

    closed spec fn view(&self) -> MessageView {
        MessageView { seq: self.seq, body: self.body@ }
    }
}

impl Clone for Message {
    fn clone(&self) -> (copy: Self)
        ensures
            copy@ == self@,
    {
        Message { seq: self.seq, body: self.body.clone() }
    }
}

/// Whatever can be sent under a sequence number.
pub trait IntoMessage: Sized {
    /// The body of the message that `self` becomes.
    spec fn into_body(self) -> MessageBodyView;

    /// Wraps `self` into a message numbered `seq`.
    fn into_message(self, seq: u64) -> (message: Message)
        ensures
            message@ == (MessageView { seq, body: self.into_body() }),
    ;
}

impl IntoMessage for MessageBody {
    open spec fn into_body(self) -> MessageBodyView {
        self@
    }

    fn into_message(self, seq: u64) -> (message: Message) {
        Message { seq, body: self }
    }
}

impl IntoMessage for ServiceMessage {
    open spec fn into_body(self) -> MessageBodyView {
        MessageBodyView::ServiceMessage(self@)
    }

    fn into_message(self, seq: u64) -> (message: Message) {
        Message { seq, body: MessageBody::ServiceMessage(self) }
    }
}

impl IntoMessage for Response {
    open spec fn into_body(self) -> MessageBodyView {
        MessageBodyView::Response(self@)
    }

    fn into_message(self, seq: u64) -> (message: Message) {
        Message { seq, body: MessageBody::Response(self) }
    }
}

impl Message {
    /// The body of the message.
    pub fn body(&self) -> (body: &MessageBody)
        ensures
            body@ == self@.body,
    {
        &self.body
    }

    /// The sequence number of the message.
    pub fn seq(&self) -> (seq: u64)
        ensures
            seq == self@.seq,
    {
        self.seq
    }

    /// Takes the message apart.
    pub fn into_parts(self) -> (parts: (u64, MessageBody))
        ensures
            parts.0 == self@.seq,
            parts.1@ == self@.body,
    {
        (self.seq, self.body)
    }

    /// A request to register under `service_name`, not numbered yet.
    pub fn new_registration(service_name: String) -> (message: Self)
        ensures
            message@ == (MessageView {
                seq: INVALID_SEQ,
                body: MessageBodyView::ServiceMessage(
                    ServiceMessageView::Register {
                        protocol_version: PROTOCOL_VERSION,
                        service_name: service_name@,
                    },
                ),
            }),
    {
        Self {
            seq: INVALID_SEQ,
            body: MessageBody::ServiceMessage(
                ServiceMessage::Register { protocol_version: PROTOCOL_VERSION, service_name },
            ),
        }
    }

    /// A request to connect to `peer_service_name`, not numbered yet.
    pub fn new_connection(peer_service_name: String) -> (message: Self)
        ensures
            message@ == (MessageView {
                seq: INVALID_SEQ,
                body: MessageBodyView::ServiceMessage(
                    ServiceMessageView::Connect { peer_service_name: peer_service_name@ },
                ),
            }),
    {
        Self {
            seq: INVALID_SEQ,
            body: MessageBody::ServiceMessage(ServiceMessage::Connect { peer_service_name }),
        }
    }

    /// A call of `method_name` with the arguments `params`, not numbered yet.
    pub fn new_call(caller_name: String, method_name: String, params: Bson) -> (message: Self)
        ensures
            message@ == (MessageView {
                seq: INVALID_SEQ,
                body: MessageBodyView::MethodCall {
                    caller_name: caller_name@,
                    method_name: method_name@,
                    params,
                },
            }),
    {
        Self { seq: INVALID_SEQ, body: MessageBody::MethodCall { caller_name, method_name, params } }
    }

    /// A subscription to `signal_name`, not numbered yet.
    pub fn new_subscription(subscriber_name: String, signal_name: String) -> (message: Self)
        ensures
            message@ == (MessageView {
                seq: INVALID_SEQ,
                body: MessageBodyView::SignalSubscription {
                    subscriber_name: subscriber_name@,
                    signal_name: signal_name@,
                },
            }),
    {
        Self {
            seq: INVALID_SEQ,
            body: MessageBody::SignalSubscription { subscriber_name, signal_name },
        }
    }
}

} // verus!
