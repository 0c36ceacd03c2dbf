//! Messages that a checker sends to the orchestrator, one per line.
use vstd::prelude::*;
use crate::domain::Host;

verus! {

/// The state of an instance as a checker saw it.
#[derive(PartialEq, Eq, Debug, Clone)]
pub enum InstanceState {
    /// The instance is alive (it responded with a valid NodeInfo document).
    Alive { hide_from_list: bool },
    /// The instance responded with a temporary redirect (HTTP codes 302, 303, 307).
    Moving { to: Host },
    /// The instance responded with a permanent redirect (HTTP codes 301, 308).
    Moved { to: Host },
}

/// Messages that the checker can send to the orchestrator.
#[derive(PartialEq, Eq, Debug, Clone)]
pub enum CheckerResponse {
    /// The state of the instance.
    State { state: InstanceState },
    /// The instance peers with another instance, which is located at `peer`.
    Peer { peer: Host },
}

} // verus!
