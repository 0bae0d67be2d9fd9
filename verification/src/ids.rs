//! Identifiers of clients, connections, channels and ports.
//!
//! An identifier is the number that a host assigned when the entity was
//! registered. It never changes afterwards.

use vstd::prelude::*;

verus! {

/// Names a light client on the chain that hosts it.
#[derive(Clone, Copy, Debug, PartialEq, Eq, Structural, Hash)]
pub struct ClientId {
    pub index: u64,
}

/// Names a connection end on the chain that hosts it.
#[derive(Clone, Copy, Debug, PartialEq, Eq, Structural, Hash)]
pub struct ConnectionId {
    pub index: u64,
}

/// Names a channel end on the chain that hosts it.
#[derive(Clone, Copy, Debug, PartialEq, Eq, Structural, Hash)]
pub struct ChannelId {
    pub index: u64,
}

/// Names the application module that owns a channel end.
#[derive(Clone, Copy, Debug, PartialEq, Eq, Structural, Hash)]
pub struct PortId {
    pub index: u64,
}

/// Names the store under which a chain commits its protocol state. Every
/// path that is proved against that chain's root starts with it.
#[derive(Clone, Copy, Debug, PartialEq, Eq, Structural, Hash)]
pub struct CommitmentPrefix {
    pub store: u64,
}

impl ClientId {
    pub fn new(index: u64) -> (id: ClientId)
        ensures
            id.index == index,
    {
        ClientId { index }
    }
}

impl ConnectionId {
    pub fn new(index: u64) -> (id: ConnectionId)
        ensures
            id.index == index,
    {
        ConnectionId { index }
    }
}

impl ChannelId {
    pub fn new(index: u64) -> (id: ChannelId)
        ensures
            id.index == index,
    {
        ChannelId { index }
    }
}

impl PortId {
    pub fn new(index: u64) -> (id: PortId)
        ensures
            id.index == index,
    {
        PortId { index }
    }
}

impl CommitmentPrefix {
    pub fn new(store: u64) -> (p: CommitmentPrefix)
        ensures
            p.store == store,
    {
        CommitmentPrefix { store }
    }
}

} // verus!
