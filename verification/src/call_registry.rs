//! The call registry of a peer: which caller waits for the answer to which
//! sequence number.
//!
//! A call goes out under the next number of the registry's counter, and its
//! caller's sink is kept under that number once the call is on the wire. An
//! answer that comes in is handed to the sink kept under its number. A signal
//! emission leaves the sink in place, since more emissions may follow; every
//! other answer removes it.
//!
//! The registry neither writes to the socket nor sends on a sink. [`CallRegistry::call`]
//! returns what is to be written, [`CallRegistry::complete`] takes the outcome of
//! the write, and [`CallRegistry::resolve`] returns the sink together with the
//! message to deliver on it. The sink's type `S` is the caller's.

use crate::messages::{IntoMessage, Message, MessageView};
use std::collections::HashMap;
use vstd::pervasive::cloned;
use vstd::prelude::*;

verus! {

/// The number that the counter holds after it gave out `seq`. The counter wraps
/// around after `u64::MAX`.
pub open spec fn next_seq(seq: u64) -> u64 {
    if seq == u64::MAX {
        0
    } else {
        (seq + 1) as u64
    }
}

/// The call registry of one peer.
pub struct CallRegistry<S> {
    seq_counter: u64,
    calls: HashMap<u64, S>,
}

pub struct CallRegistryView<S> {
    /// The number that the next call gets.
    pub next_seq: u64,
    /// The sinks of the calls that wait for an answer, by number.
    pub calls: Map<u64, S>,
}

/// A call that has its number and is not on the wire yet.
#[derive(Debug, PartialEq)]
pub struct PendingCall<S> {
    message: Message,
    callback: S,
}

pub struct PendingCallView<S> {
    pub message: MessageView,
    pub callback: S,
}

impl<S> View for PendingCall<S> {
    type V = PendingCallView<S>;

    closed spec fn view(&self) -> PendingCallView<S> {
        PendingCallView { message: self.message@, callback: self.callback }
    }
}

impl<S> PendingCall<S> {
    /// The message to write to the socket.
    pub fn message(&self) -> (message: &Message)
        ensures
            message@ == self@.message,
    {
        &self.message
    }

    /// The number that the call goes out under.
    pub fn seq(&self) -> (seq: u64)
        ensures
            seq == self@.message.seq,
    {
        self.message.seq()
    }
}

/// What to do with an answer that came in.
#[derive(Debug, PartialEq)]
pub enum Resolution<S> {
    /// Send the message on the sink.
    Deliver(S, Message),
    /// No call waits under the message's number: drop it. It may be an answer
    /// that comes after its caller has given up.
    Unknown(Message),
}

/// One step in the life of a registry.
pub enum RegistryOp<S> {
    /// A call is given its number.
    Call,
    /// The write of the call numbered `seq` ended; `written` says whether well.
    Complete { seq: u64, callback: S, written: bool },
    /// An answer came in.
    Resolve(MessageView),
}

impl<S> CallRegistryView<S> {
    /// Whether a call waits under `seq`.
    pub open spec fn has_call(self, seq: u64) -> bool {
        self.calls.contains_key(seq)
    }

    /// The registry after it gave out a number.
    pub open spec fn call(self) -> CallRegistryView<S> {
        CallRegistryView { next_seq: next_seq(self.next_seq), calls: self.calls }
    }

    /// The registry after the write of the call numbered `seq`: the sink is kept
    /// if the call was written, and only then.
    pub open spec fn complete(self, seq: u64, callback: S, written: bool) -> CallRegistryView<S> {
        if written {
            CallRegistryView { next_seq: self.next_seq, calls: self.calls.insert(seq, callback) }
        } else {
            self
        }
    }

    /// The registry after `message` came in: the sink under its number is gone,
    /// unless the message is a signal emission.
    pub open spec fn resolve(self, message: MessageView) -> CallRegistryView<S> {
        if message.body.ends_call() {
            CallRegistryView { next_seq: self.next_seq, calls: self.calls.remove(message.seq) }
        } else {
            self
        }
    }

    /// The registry after `op`.
    pub open spec fn apply(self, op: RegistryOp<S>) -> CallRegistryView<S> {
        match op {
            RegistryOp::Call => self.call(),
            RegistryOp::Complete { seq, callback, written } => self.complete(seq, callback, written),
            RegistryOp::Resolve(message) => self.resolve(message),
        }
    }

    /// The numbers that the calls among `ops` get, in the order of the calls.
    pub open spec fn draws(self, ops: Seq<RegistryOp<S>>) -> Seq<u64>
        decreases ops.len(),
    {
        if ops.len() == 0 {
            Seq::empty()
        } else {
            let drawn = if ops.first() is Call {
                seq![self.next_seq]
            } else {
                Seq::empty()
            };
            drawn + self.apply(ops.first()).draws(ops.drop_first())
        }
    }
}

impl<S> View for CallRegistry<S> {
    type V = CallRegistryView<S>;

    closed spec fn view(&self) -> CallRegistryView<S> {
        CallRegistryView { next_seq: self.seq_counter, calls: self.calls@ }
    }
}

impl<S> CallRegistry<S> {
    /// A registry in which no call waits and whose counter stands at zero.
    pub fn new() -> (registry: Self)
        ensures
            registry@ == (CallRegistryView::<S> { next_seq: 0, calls: Map::empty() }),
    {
        Self { seq_counter: 0, calls: HashMap::new() }
    }

    /// Begins a call: gives `message` the next number. The result holds the
    /// numbered message, which the caller writes to the socket, and the sink.
    /// The registry does not keep the sink before [`CallRegistry::complete`]
    /// hears that the message was written.
    pub fn call(&mut self, message: Message, callback: S) -> (pending: PendingCall<S>)
        ensures
            pending@ == (PendingCallView {
                message: MessageView { seq: old(self)@.next_seq, body: message@.body },
                callback,
            }),
            final(self)@ == old(self)@.call(),
    {
        let seq = self.seq_counter;
        self.seq_counter = if seq == u64::MAX {
            0
        } else {
            seq + 1
        };
        let (_, body) = message.into_parts();
        PendingCall { message: body.into_message(seq), callback }
    }

    /// Ends what [`CallRegistry::call`] began, given the outcome of the write. A
    /// call that was written waits for its answer from now on; one that was not
    /// leaves no trace, and its error goes back to the caller.
    pub fn complete<E>(&mut self, pending: PendingCall<S>, written: Result<(), E>) -> (result:
        Result<(), E>)
        ensures
            result == written,
            final(self)@ == old(self)@.complete(
                pending@.message.seq,
                pending@.callback,
                written is Ok,
            ),
    {
        if written.is_ok() {
            let seq = pending.message.seq();
            self.calls.insert(seq, pending.callback);
        }
        written
    }

    /// Takes an answer that came in and says where it goes. If a call waits
    /// under the message's number, the message goes to that call's sink; the
    /// sink handed out is the one that was kept, or a clone of it where the
    /// registry goes on keeping it. Whether or not a call waits, none waits
    /// under that number afterwards, unless the message is a signal emission.
    pub fn resolve(&mut self, message: Message) -> (resolution: Resolution<S>) where S: Clone
        ensures
            final(self)@ == old(self)@.resolve(message@),
            match resolution {
                Resolution::Deliver(sink, delivered) => {
                    &&& old(self)@.has_call(message@.seq)
                    &&& cloned(old(self)@.calls[message@.seq], sink)
                    &&& delivered == message
                },
                Resolution::Unknown(dropped) => {
                    &&& !old(self)@.has_call(message@.seq)
                    &&& dropped == message
                },
            },
    {
        let seq = message.seq();
        if message.body().ends_call() {
            match self.calls.remove(&seq) {
                Some(sink) => Resolution::Deliver(sink, message),
                None => Resolution::Unknown(message),
            }
        } else {
            match self.calls.get(&seq) {
                Some(sink) => Resolution::Deliver(sink.clone(), message),
                None => Resolution::Unknown(message),
            }
        }
    }

    /// Whether a call waits under `seq`.
    pub fn has_call(&self, seq: u64) -> (waits: bool)
        ensures
            waits == self@.has_call(seq),
    {
        self.calls.contains_key(&seq)
    }
}

/// The numbers that a registry gives out are consecutive: whatever else happens
/// to the registry in between, the calls get the numbers that follow the
/// counter, one by one, in the order in which they were made. After `u64::MAX`
/// the counter goes on at zero; as long as it does not get there, the numbers
/// given out to `n` calls are the `n` numbers from the counter on.
pub proof fn law_seq_contiguous<S>(registry: CallRegistryView<S>, ops: Seq<RegistryOp<S>>)
    ensures
        forall|i: int|
            0 <= i < registry.draws(ops).len() ==> #[trigger] registry.draws(ops)[i] == (
            registry.next_seq + i) % 0x1_0000_0000_0000_0000,
        registry.next_seq + registry.draws(ops).len() <= u64::MAX + 1 ==> forall|i: int|
            0 <= i < registry.draws(ops).len() ==> #[trigger] registry.draws(ops)[i]
                == registry.next_seq + i,
    decreases ops.len(),
{
    if ops.len() > 0 {
        let next = registry.apply(ops.first());
        let rest = next.draws(ops.drop_first());
        law_seq_contiguous(next, ops.drop_first());
        if ops.first() is Call {
            assert(registry.draws(ops) == seq![registry.next_seq] + rest);
            assert forall|i: int| 0 <= i < registry.draws(ops).len() implies #[trigger] registry.draws(
                ops,
            )[i] == (registry.next_seq + i) % 0x1_0000_0000_0000_0000 by {
                if i > 0 {
                    assert(registry.draws(ops)[i] == rest[i - 1]);
                }
            }
        } else {
            assert(registry.draws(ops) == rest);
        }
    }
}

/// One-shot calls and subscriptions. After an answer that is no signal emission,
/// no call waits under its number. After a signal emission, the call that
/// waited under its number still waits. Calls under other numbers are never
/// touched.
pub proof fn law_resolve_one_shot_or_subscription<S>(
    registry: CallRegistryView<S>,
    message: MessageView,
)
    ensures
        message.body.ends_call() ==> !registry.resolve(message).has_call(message.seq),
        !message.body.ends_call() ==> registry.resolve(message).has_call(message.seq)
            == registry.has_call(message.seq),
        forall|seq: u64|
            seq != message.seq ==> #[trigger] registry.resolve(message).has_call(seq)
                == registry.has_call(seq),
{
}

} // verus!
