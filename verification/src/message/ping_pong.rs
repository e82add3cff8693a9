use vstd::prelude::*;

use crate::autogen;
use crate::message::RequestId;

verus! {

/// A message that checks that the other end is there.
#[derive(Clone, Copy, PartialEq, Eq, Debug, Default, Structural)]
pub struct Ping {
    pub request_id: RequestId,
}

/// The answer to a ping.
#[derive(Clone, Copy, PartialEq, Eq, Debug, Default, Structural)]
pub struct Pong {
    pub request_id: RequestId,
}

impl From<Ping> for Pong {
    /// The answer to a ping, under its request id.
    fn from(p: Ping) -> (r: Pong) {
        Pong { request_id: p.request_id }
    }
}

impl vstd::std_specs::convert::FromSpecImpl<Ping> for Pong {
    open spec fn obeys_from_spec() -> bool {
        true
    }

    open spec fn from_spec(p: Ping) -> Pong {
        Pong { request_id: p.request_id }
    }
}

impl From<Ping> for autogen::Ping {
    fn from(p: Ping) -> (r: autogen::Ping) {
        autogen::Ping { request_id: p.request_id.0 }
    }
}

impl vstd::std_specs::convert::FromSpecImpl<Ping> for autogen::Ping {
    open spec fn obeys_from_spec() -> bool {
        true
    }

    open spec fn from_spec(p: Ping) -> autogen::Ping {
        autogen::Ping { request_id: p.request_id.0 }
    }
}

impl From<autogen::Ping> for Ping {
    fn from(p: autogen::Ping) -> (r: Ping) {
        Ping { request_id: RequestId(p.request_id) }
    }
}

impl vstd::std_specs::convert::FromSpecImpl<autogen::Ping> for Ping {
    open spec fn obeys_from_spec() -> bool {
        true
    }

    open spec fn from_spec(p: autogen::Ping) -> Ping {
        Ping { request_id: RequestId(p.request_id) }
    }
}

impl From<Pong> for autogen::Pong {
    fn from(p: Pong) -> (r: autogen::Pong) {
        autogen::Pong { request_id: p.request_id.0 }
    }
}

impl vstd::std_specs::convert::FromSpecImpl<Pong> for autogen::Pong {
    open spec fn obeys_from_spec() -> bool {
        true
    }

    open spec fn from_spec(p: Pong) -> autogen::Pong {
        autogen::Pong { request_id: p.request_id.0 }
    }
}

impl From<autogen::Pong> for Pong {
    fn from(p: autogen::Pong) -> (r: Pong) {
        Pong { request_id: RequestId(p.request_id) }
    }
}

impl vstd::std_specs::convert::FromSpecImpl<autogen::Pong> for Pong {
    open spec fn obeys_from_spec() -> bool {
        true
    }

    open spec fn from_spec(p: autogen::Pong) -> Pong {
        Pong { request_id: RequestId(p.request_id) }
    }
}

impl Ping {
    /// Whether this is what the wire message reads as.
    pub open spec fn reads(self, p: autogen::Ping) -> bool {
        &&& self.request_id == RequestId(p.request_id)
    }

    /// Whether the wire message is what this writes as.
    pub open spec fn writes(self, p: autogen::Ping) -> bool {
        &&& p.request_id == self.request_id.0
    }
}

impl Pong {
    /// Whether this is what the wire message reads as.
    pub open spec fn reads(self, p: autogen::Pong) -> bool {
        &&& self.request_id == RequestId(p.request_id)
    }

    /// Whether the wire message is what this writes as.
    pub open spec fn writes(self, p: autogen::Pong) -> bool {
        &&& p.request_id == self.request_id.0
    }
}

} // verus!
