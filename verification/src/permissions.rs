//! What the hub asks its permission oracle, and how it reads the answer.
//!
//! The policy itself lives outside this crate. The hub names the question, the
//! owner of the policy looks it up, and the answer comes back as a plain value.

use vstd::prelude::*;

verus! {

/// A question for the permission oracle.
#[derive(Debug, PartialEq)]
pub enum PermissionQuery {
    /// May the connected peer register under this name?
    ServiceName { service_name: String },
    /// May the service `caller_name` connect to the service `target_name`?
    Connection { caller_name: String, target_name: String },
}

pub enum PermissionQueryView {
    ServiceName { service_name: Seq<char> },
    Connection { caller_name: Seq<char>, target_name: Seq<char> },
}

impl View for PermissionQuery {
    type V = PermissionQueryView;

    open spec fn view(&self) -> PermissionQueryView {
        match self {
            PermissionQuery::ServiceName { service_name } => PermissionQueryView::ServiceName {
                service_name: service_name@,
            },
            PermissionQuery::Connection { caller_name, target_name } => {
                PermissionQueryView::Connection {
                    caller_name: caller_name@,
                    target_name: target_name@,
                }
            },
        }
    }
}

/// Reads the outcome of a policy lookup. The bus denies by default: only a
/// lookup that succeeded and said yes permits.
pub fn default_deny<E>(lookup: Result<bool, E>) -> (allowed: bool)
    ensures
        allowed == (lookup matches Ok(verdict) && verdict),
{
    match lookup {
        Ok(verdict) => verdict,
        Err(_) => false,
    }
}

} // verus!
