//! The hub's side of the rendezvous: the table of registered names, and what
//! the hub does with each request that a client task forwards to it.
//!
//! The hub takes the requests one at a time. That is what makes names unique:
//! of two clients that ask for the same name, one is served first and the other
//! finds the name taken.
//!
//! To connect two services the hub needs a pair of connected sockets, which only
//! its caller can make. So [`Hub::handle`] answers a request to connect with a
//! [`Handoff`], and [`Handoff::deliver`] says which end of the pair goes to whom,
//! and with which message.

use crate::client::{
    Client, ClientStateView, ClientView, HandledView, HubResponse, HubResponseView,
};
use crate::errors::Error;
use crate::messages::{
    IntoMessage, Message, MessageBody, MessageBodyView, MessageView, Response, ResponseView,
    ServiceMessage, ServiceMessageView, INVALID_SEQ, PROTOCOL_VERSION,
};
use vstd::prelude::*;

verus! {

/// A request that a client task forwards to the hub.
#[derive(Debug, PartialEq)]
pub struct ClientRequest {
    /// Which connection asks.
    pub uuid: u128,
    /// The name that the asking client goes by: the one it wants to register,
    /// or the one it is registered under.
    pub service_name: String,
    /// The control message as the client sent it.
    pub message: Message,
}

pub struct ClientRequestView {
    pub uuid: u128,
    pub service_name: Seq<char>,
    pub message: MessageView,
}

impl View for ClientRequest {
    type V = ClientRequestView;

    open spec fn view(&self) -> ClientRequestView {
        ClientRequestView {
            uuid: self.uuid,
            service_name: self.service_name@,
            message: self.message@,
        }
    }
}

/// A connection that the hub has decided to make, and that waits for its pair
/// of sockets.
#[derive(Debug, PartialEq)]
pub struct Handoff {
    caller: u128,
    seq: u64,
    caller_name: String,
    target: u128,
}

pub struct HandoffView {
    /// The connection that asked.
    pub caller: u128,
    /// The number of its request.
    pub seq: u64,
    /// The name that it is registered under.
    pub caller_name: Seq<char>,
    /// The connection of the service that it asked for.
    pub target: u128,
}

impl View for Handoff {
    type V = HandoffView;

    closed spec fn view(&self) -> HandoffView {
        HandoffView {
            caller: self.caller,
            seq: self.seq,
            caller_name: self.caller_name@,
            target: self.target,
        }
    }
}

/// What the hub does about a request.
#[derive(Debug, PartialEq)]
pub enum HubAction {
    /// Queue `message` for the connection `uuid`.
    Reply { uuid: u128, message: Message },
    /// Make a pair of connected sockets and deliver its ends.
    Connect(Handoff),
}

pub enum HubActionView {
    Reply { uuid: u128, message: MessageView },
    Connect(HandoffView),
}

impl View for HubAction {
    type V = HubActionView;

    open spec fn view(&self) -> HubActionView {
        match self {
            HubAction::Reply { uuid, message } => HubActionView::Reply {
                uuid: *uuid,
                message: message@,
            },
            HubAction::Connect(handoff) => HubActionView::Connect(handoff@),
        }
    }
}

/// The answer `response` to the message numbered `seq`.
pub open spec fn answer(seq: u64, response: ResponseView) -> MessageView {
    MessageView { seq, body: MessageBodyView::Response(response) }
}

/// Registering `name` for the connection `uuid`: a name that is taken stays
/// with its holder, a free one goes to the connection that asks.
pub open spec fn register(table: Map<Seq<char>, u128>, uuid: u128, name: Seq<char>) -> (
    Map<Seq<char>, u128>,
    ResponseView,
) {
    if table.contains_key(name) {
        (table, ResponseView::Error(Error::NameAlreadyRegistered))
    } else {
        (table.insert(name, uuid), ResponseView::Okay)
    }
}

/// The table without the names of the connection `uuid`.
pub open spec fn disconnect(table: Map<Seq<char>, u128>, uuid: u128) -> Map<Seq<char>, u128> {
    Map::new(
        |name: Seq<char>| table.contains_key(name) && table[name] != uuid,
        |name: Seq<char>| table[name],
    )
}

/// What the hub does about `request`, and the table afterwards.
///
/// A request to register is answered by [`register`]. A request to connect to
/// a name that nobody holds is answered `ServiceNotFound`; to a name that is
/// held, with a handoff between the asking connection and the holder. Nothing
/// else is a request to the hub.
pub open spec fn handle(table: Map<Seq<char>, u128>, request: ClientRequestView) -> (
    Map<Seq<char>, u128>,
    HubActionView,
) {
    let seq = request.message.seq;
    match request.message.body {
        MessageBodyView::ServiceMessage(ServiceMessageView::Register { service_name, .. }) => {
            let (next, response) = register(table, request.uuid, service_name);
            (next, HubActionView::Reply { uuid: request.uuid, message: answer(seq, response) })
        },
        MessageBodyView::ServiceMessage(ServiceMessageView::Connect { peer_service_name }) => {
            if table.contains_key(peer_service_name) {
                (
                    table,
                    HubActionView::Connect(
                        HandoffView {
                            caller: request.uuid,
                            seq,
                            caller_name: request.service_name,
                            target: table[peer_service_name],
                        },
                    ),
                )
            } else {
                (
                    table,
                    HubActionView::Reply {
                        uuid: request.uuid,
                        message: answer(seq, ResponseView::Error(Error::ServiceNotFound)),
                    },
                )
            }
        },
        _ => (
            table,
            HubActionView::Reply {
                uuid: request.uuid,
                message: answer(seq, ResponseView::Error(Error::InvalidProtocol)),
            },
        ),
    }
}

impl Handoff {
    /// Delivers the ends of the socket pair `(a, b)`. First the target is told
    /// who connects to it and gets `a`; then the caller gets its `Ok`, under the
    /// number of its request, and `b`. Each result names the connection whose
    /// queue takes it.
    pub fn deliver<D>(self, a: D, b: D) -> (queued: ((u128, HubResponse<D>), (u128, HubResponse<D>)))
        ensures
            queued.0.0 == self@.target,
            queued.0.1@ == HubResponseView::Fd(
                MessageView {
                    seq: INVALID_SEQ,
                    body: MessageBodyView::ServiceMessage(
                        ServiceMessageView::IncomingPeerFd { peer_service_name: self@.caller_name },
                    ),
                },
                a,
            ),
            queued.1.0 == self@.caller,
            queued.1.1@ == HubResponseView::Fd(answer(self@.seq, ResponseView::Okay), b),
    {
        let to_target = Client::send_incoming_peer_fd(self.caller_name, a);
        let to_caller = Client::send_connection_fd(self.seq, b);
        ((self.target, to_target), (self.caller, to_caller))
    }

    /// Gives the handoff up, because no socket pair could be made: the caller is
    /// told `Internal`, under the number of its request.
    pub fn fail<D>(self) -> (queued: (u128, HubResponse<D>))
        ensures
            queued.0 == self@.caller,
            queued.1@ == HubResponseView::<D>::Message(
                answer(self@.seq, ResponseView::Error(Error::Internal)),
            ),
    {
        (self.caller, Client::send_message(Response::Error(Error::Internal).into_message(self.seq)))
    }
}

/// A name and the connection that holds it.
struct Registration {
    service_name: String,
    uuid: u128,
}

/// Whether no name occurs twice.
spec fn distinct(entries: Seq<Registration>) -> bool {
    forall|i: int, j: int|
        0 <= i < j < entries.len() ==> (#[trigger] entries[i]).service_name@ != (
        #[trigger] entries[j]).service_name@
}

/// Whether some entry holds `name`.
spec fn holds(entries: Seq<Registration>, name: Seq<char>) -> bool {
    exists|i: int| 0 <= i < entries.len() && (#[trigger] entries[i]).service_name@ == name
}

/// An entry that holds `name`.
spec fn index_of(entries: Seq<Registration>, name: Seq<char>) -> int {
    choose|i: int| 0 <= i < entries.len() && (#[trigger] entries[i]).service_name@ == name
}

/// The table that the entries stand for.
spec fn table_of(entries: Seq<Registration>) -> Map<Seq<char>, u128> {
    Map::new(
        |name: Seq<char>| holds(entries, name),
        |name: Seq<char>| entries[index_of(entries, name)].uuid,
    )
}

proof fn lemma_table_entry(entries: Seq<Registration>, i: int)
    requires
        distinct(entries),
        0 <= i < entries.len(),
    ensures
        table_of(entries).contains_key(entries[i].service_name@),
        table_of(entries)[entries[i].service_name@] == entries[i].uuid,
{
    let name = entries[i].service_name@;
    assert(holds(entries, name));
    let j = index_of(entries, name);
    assert(0 <= j < entries.len() && entries[j].service_name@ == name);
    if j < i {
        assert(entries[j].service_name@ != entries[i].service_name@);
    } else if i < j {
        assert(entries[i].service_name@ != entries[j].service_name@);
    }
}

proof fn lemma_table_push(entries: Seq<Registration>, entry: Registration)
    requires
        distinct(entries),
        !holds(entries, entry.service_name@),
    ensures
        distinct(entries.push(entry)),
        table_of(entries.push(entry)) == table_of(entries).insert(entry.service_name@, entry.uuid),
{
    let pushed = entries.push(entry);
    assert forall|i: int, j: int| 0 <= i < j < pushed.len() implies (#[trigger] pushed[i]).service_name@
        != (#[trigger] pushed[j]).service_name@ by {
        if j < entries.len() {
            assert(pushed[i] == entries[i] && pushed[j] == entries[j]);
        } else {
            assert(pushed[i] == entries[i]);
        }
    }
    let grown = table_of(entries).insert(entry.service_name@, entry.uuid);
    assert forall|name: Seq<char>| #[trigger]
        table_of(pushed).dom().contains(name) == grown.dom().contains(name) by {
        if holds(pushed, name) {
            let i = index_of(pushed, name);
            if i < entries.len() {
                assert(entries[i].service_name@ == name);
            }
        }
        if holds(entries, name) {
            let i = index_of(entries, name);
            assert(pushed[i].service_name@ == name);
        }
        if name == entry.service_name@ {
            assert(pushed[entries.len() as int].service_name@ == name);
        }
    }
    assert forall|name: Seq<char>| #[trigger] grown.dom().contains(name) implies table_of(
        pushed,
    )[name] == grown[name] by {
        if name == entry.service_name@ {
            assert(pushed[entries.len() as int] == entry);
            lemma_table_entry(pushed, entries.len() as int);
        } else {
            let i = index_of(entries, name);
            assert(pushed[i] == entries[i]);
            lemma_table_entry(pushed, i);
            lemma_table_entry(entries, i);
        }
    }
    assert(table_of(pushed) =~= grown);
}

proof fn lemma_table_empty()
    ensures
        table_of(Seq::empty()) == Map::<Seq<char>, u128>::empty(),
{
    assert(table_of(Seq::empty()) =~= Map::<Seq<char>, u128>::empty());
}

proof fn lemma_table_take(entries: Seq<Registration>, i: int)
    requires
        distinct(entries),
        0 <= i < entries.len(),
    ensures
        distinct(entries.take(i)),
        distinct(entries.take(i + 1)),
        !holds(entries.take(i), entries[i].service_name@),
        table_of(entries.take(i + 1)) == table_of(entries.take(i)).insert(
            entries[i].service_name@,
            entries[i].uuid,
        ),
{
    let before = entries.take(i);
    assert forall|a: int, b: int| 0 <= a < b < before.len() implies (#[trigger] before[a]).service_name@
        != (#[trigger] before[b]).service_name@ by {
        assert(before[a] == entries[a] && before[b] == entries[b]);
    }
    if holds(before, entries[i].service_name@) {
        let j = index_of(before, entries[i].service_name@);
        assert(before[j] == entries[j]);
        assert(entries[j].service_name@ != entries[i].service_name@);
    }
    assert(entries.take(i + 1) == before.push(entries[i]));
    lemma_table_push(before, entries[i]);
}

/// The hub's table of names.
pub struct Hub {
    clients: Vec<Registration>,
}

impl View for Hub {
    type V = Map<Seq<char>, u128>;

    /// The connection that holds each registered name.
    closed spec fn view(&self) -> Map<Seq<char>, u128> {
        table_of(self.clients@)
    }
}

impl Hub {
    #[verifier::type_invariant]
    spec fn names_are_unique(self) -> bool {
        distinct(self.clients@)
    }

    /// A hub at which nobody is registered.
    pub fn new() -> (hub: Self)
        ensures
            hub@ == Map::<Seq<char>, u128>::empty(),
    {
        proof {
            lemma_table_empty();
        }
        Self { clients: Vec::new() }
    }

    /// The entry that holds `name`, if there is one.
    fn find(&self, name: &String) -> (found: Option<usize>)
        ensures
            match found {
                Some(i) => i < self.clients@.len() && self.clients@[i as int].service_name@ == name@,
                None => !holds(self.clients@, name@),
            },
    {
        let mut i: usize = 0;
        while i < self.clients.len()
            invariant
                i <= self.clients@.len(),
                forall|j: int| 0 <= j < i ==> (#[trigger] self.clients@[j]).service_name@ != name@,
            decreases self.clients@.len() - i,
        {
            if self.clients[i].service_name == *name {
                return Some(i);
            }
            i += 1;
        }
        None
    }

    /// The connection that is registered under `name`, if one is.
    pub fn lookup(&self, name: &String) -> (holder: Option<u128>)
        ensures
            holder == if self@.contains_key(name@) {
                Some(self@[name@])
            } else {
                None
            },
    {
        proof {
            use_type_invariant(self);
        }
        match self.find(name) {
            Some(i) => {
                proof {
                    lemma_table_entry(self.clients@, i as int);
                }
                Some(self.clients[i].uuid)
            },
            None => None,
        }
    }

    /// Registers `service_name` for the connection `uuid`, unless the name is
    /// taken.
    pub fn register(&mut self, uuid: u128, service_name: String) -> (response: Response)
        ensures
            (final(self)@, response@) == register(old(self)@, uuid, service_name@),
    {
        proof {
            use_type_invariant(&*self);
        }
        match self.find(&service_name) {
            Some(i) => {
                proof {
                    lemma_table_entry(self.clients@, i as int);
                }
                Response::Error(Error::NameAlreadyRegistered)
            },
            None => {
                let entry = Registration { service_name, uuid };
                proof {
                    lemma_table_push(self.clients@, entry);
                }
                // The entries leave the hub while they change, and come back
                // with no name twice.
                let mut clients: Vec<Registration> = Vec::new();
                core::mem::swap(&mut self.clients, &mut clients);
                clients.push(entry);
                self.clients = clients;
                Response::Okay
            },
        }
    }

    /// Forgets the connection `uuid`: the names that it held are free again.
    pub fn disconnect(&mut self, uuid: u128)
        ensures
            final(self)@ == disconnect(old(self)@, uuid),
    {
        proof {
            use_type_invariant(&*self);
            lemma_table_empty();
        }
        let mut kept: Vec<Registration> = Vec::new();
        let mut i: usize = 0;
        while i < self.clients.len()
            invariant
                i <= self.clients@.len(),
                distinct(self.clients@),
                distinct(kept@),
                table_of(kept@) == disconnect(table_of(self.clients@.take(i as int)), uuid),
            decreases self.clients@.len() - i,
        {
            proof {
                lemma_table_take(self.clients@, i as int);
            }
            if self.clients[i].uuid != uuid {
                let entry = Registration {
                    service_name: self.clients[i].service_name.clone(),
                    uuid: self.clients[i].uuid,
                };
                proof {
                    if holds(kept@, entry.service_name@) {
                        let k = index_of(kept@, entry.service_name@);
                        lemma_table_entry(kept@, k);
                    }
                    lemma_table_push(kept@, entry);
                }
                kept.push(entry);
            }
            proof {
                let before = table_of(self.clients@.take(i as int));
                let name = self.clients@[i as int].service_name@;
                let holder = self.clients@[i as int].uuid;
                assert(disconnect(before.insert(name, holder), uuid) =~= if holder != uuid {
                    disconnect(before, uuid).insert(name, holder)
                } else {
                    disconnect(before, uuid)
                });
            }
            i += 1;
        }
        proof {
            assert(self.clients@.take(i as int) == self.clients@);
        }
        self.clients = kept;
    }

    /// Takes the next request, changes the table as the request demands and
    /// says what is to be done.
    pub fn handle(&mut self, request: ClientRequest) -> (action: HubAction)
        ensures
            (final(self)@, action@) == handle(old(self)@, request@),
    {
        let ClientRequest { uuid, service_name: caller_name, message } = request;
        let (seq, body) = message.into_parts();
        match body {
            MessageBody::ServiceMessage(ServiceMessage::Register { service_name, .. }) => {
                let response = self.register(uuid, service_name);
                HubAction::Reply { uuid, message: response.into_message(seq) }
            },
            MessageBody::ServiceMessage(ServiceMessage::Connect { peer_service_name }) => {
                match self.lookup(&peer_service_name) {
                    Some(target) => HubAction::Connect(
                        Handoff { caller: uuid, seq, caller_name, target },
                    ),
                    None => HubAction::Reply {
                        uuid,
                        message: Response::Error(Error::ServiceNotFound).into_message(seq),
                    },
                }
            },
            _ => HubAction::Reply {
                uuid,
                message: Response::Error(Error::InvalidProtocol).into_message(seq),
            },
        }
    }
}

/// Names are unique. When two connections ask for the same name, one after the
/// other, the second is told that the name is taken, and the table stays as the
/// first request left it. The first gets the name if and only if the name was
/// free, and then holds it.
pub proof fn law_name_unique(table: Map<Seq<char>, u128>, name: Seq<char>, first: u128, second: u128)
    ensures
        register(table, first, name).1 == ResponseView::Okay <==> !table.contains_key(name),
        !table.contains_key(name) ==> register(table, first, name).0[name] == first,
        register(register(table, first, name).0, second, name) == (
            register(table, first, name).0,
            ResponseView::Error(Error::NameAlreadyRegistered),
        ),
{
}

/// A connection that was forgotten holds no name, and the other connections
/// hold what they held.
pub proof fn law_disconnect_frees_names(table: Map<Seq<char>, u128>, uuid: u128)
    ensures
        forall|name: Seq<char>| #[trigger]
            disconnect(table, uuid).contains_key(name) ==> disconnect(table, uuid)[name] != uuid,
        forall|name: Seq<char>|
            table.contains_key(name) && table[name] != uuid ==> #[trigger] disconnect(
                table,
                uuid,
            ).contains_key(name) && disconnect(table, uuid)[name] == table[name],
{
}

/// A registration from end to end. An unregistered client asks for a free name
/// that the oracle allows: its task forwards the request, the hub binds the name
/// to the client's connection and answers `Ok` under the number of the request,
/// and when that answer goes out the client is registered under the name.
pub proof fn law_registration_granted(
    client: ClientView,
    table: Map<Seq<char>, u128>,
    seq: u64,
    name: Seq<char>,
)
    requires
        client.state is Unregistered,
        !table.contains_key(name),
    ensures
        ({
            let request = MessageView {
                seq,
                body: MessageBodyView::ServiceMessage(
                    ServiceMessageView::Register {
                        protocol_version: PROTOCOL_VERSION,
                        service_name: name,
                    },
                ),
            };
            let (waiting, handled) = client.message(request, true);
            &&& handled matches HandledView::Forward(forwarded)
            &&& handle(table, forwarded) == (
                table.insert(name, client.uuid),
                HubActionView::Reply {
                    uuid: client.uuid,
                    message: answer(seq, ResponseView::Okay),
                },
            )
            &&& waiting.notified(answer(seq, ResponseView::Okay)).state
                == ClientStateView::Registered(name)
        }),
{
}

/// A connection from end to end. A registered client asks for a service that is
/// registered, and the oracle allows it: the hub hands off between the asking
/// connection and the one that holds the name asked for, and no other; the
/// target will be told the name of the client that asks.
pub proof fn law_connection_handed_off(
    client: ClientView,
    table: Map<Seq<char>, u128>,
    seq: u64,
    target: Seq<char>,
)
    requires
        client.state is Registered,
        table.contains_key(target),
    ensures
        ({
            let request = MessageView {
                seq,
                body: MessageBodyView::ServiceMessage(
                    ServiceMessageView::Connect { peer_service_name: target },
                ),
            };
            let (after, handled) = client.message(request, true);
            &&& after == client
            &&& handled matches HandledView::Forward(forwarded)
            &&& handle(table, forwarded) == (
                table,
                HubActionView::Connect(
                    HandoffView {
                        caller: client.uuid,
                        seq,
                        caller_name: client.service_name(),
                        target: table[target],
                    },
                ),
            )
        }),
{
}

} // verus!
