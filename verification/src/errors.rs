//! The errors that travel on the wire.

use vstd::prelude::*;

verus! {

/// Why the hub, or the client library, turned a request down.
#[derive(Clone, Copy, Debug, PartialEq, Eq, Structural)]
pub enum Error {
    /// Wrong protocol version, or a message that the receiver's state does not accept.
    InvalidProtocol,
    /// The permission oracle denied the request.
    NotAllowed,
    /// No service is registered under the requested name.
    ServiceNotFound,
    /// Another client holds the requested name.
    NameAlreadyRegistered,
    /// The same handle was registered twice.
    AlreadyRegistered,
    /// Anything else.
    Internal,
}

impl Error {
    /// The error's name, as diagnostics print it.
    pub fn name(&self) -> (s: &'static str)
        ensures
            s@ == self.spec_name(),
    {
        match self {
            Error::InvalidProtocol => "InvalidProtocol",
            Error::NotAllowed => "NotAllowed",
            Error::ServiceNotFound => "ServiceNotFound",
            Error::NameAlreadyRegistered => "NameAlreadyRegistered",
            Error::AlreadyRegistered => "AlreadyRegistered",
            Error::Internal => "Internal",
        }
    }

    pub open spec fn spec_name(&self) -> Seq<char> {
        match self {
            Error::InvalidProtocol => "InvalidProtocol"@,
            Error::NotAllowed => "NotAllowed"@,
            Error::ServiceNotFound => "ServiceNotFound"@,
            Error::NameAlreadyRegistered => "NameAlreadyRegistered"@,
            Error::AlreadyRegistered => "AlreadyRegistered"@,
            Error::Internal => "Internal"@,
        }
    }
}

} // verus!
