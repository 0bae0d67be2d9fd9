//! The paths under which a chain commits its protocol state.

use vstd::prelude::*;
use vstd::bytes::spec_u64_to_le_bytes;
use crate::client::{append_height, height_bytes};
use crate::commitment::append_u64;
use crate::height::Height;
use crate::ids::{ChannelId, ClientId, CommitmentPrefix, ConnectionId, PortId};

verus! {

/// A place in a chain's committed state.
#[derive(Clone, Copy, Debug, PartialEq, Eq, Structural)]
pub enum Path {
    ClientState { client_id: ClientId },
    ConsensusState { client_id: ClientId, height: Height },
    Connection { connection_id: ConnectionId },
    Channel { port_id: PortId, channel_id: ChannelId },
    Commitment { port_id: PortId, channel_id: ChannelId, sequence: u64 },
    Acknowledgement { port_id: PortId, channel_id: ChannelId, sequence: u64 },
    Receipt { port_id: PortId, channel_id: ChannelId, sequence: u64 },
    NextSequenceRecv { port_id: PortId, channel_id: ChannelId },
}

impl Path {
    /// The bytes of a path under a store prefix: the prefix, a byte for the
    /// kind of path, then the identifiers.
    pub open spec fn spec_bytes(self, prefix: CommitmentPrefix) -> Seq<u8> {
        spec_u64_to_le_bytes(prefix.store) + match self {
            Path::ClientState { client_id } => seq![1u8] + spec_u64_to_le_bytes(client_id.index),
            Path::ConsensusState { client_id, height } => seq![2u8] + spec_u64_to_le_bytes(
                client_id.index,
            ) + height_bytes(height),
            Path::Connection { connection_id } => seq![3u8] + spec_u64_to_le_bytes(
                connection_id.index,
            ),
            Path::Channel { port_id, channel_id } => seq![4u8] + spec_u64_to_le_bytes(
                port_id.index,
            ) + spec_u64_to_le_bytes(channel_id.index),
            Path::Commitment { port_id, channel_id, sequence } => seq![5u8]
                + spec_u64_to_le_bytes(port_id.index) + spec_u64_to_le_bytes(channel_id.index)
                + spec_u64_to_le_bytes(sequence),
            Path::Acknowledgement { port_id, channel_id, sequence } => seq![6u8]
                + spec_u64_to_le_bytes(port_id.index) + spec_u64_to_le_bytes(channel_id.index)
                + spec_u64_to_le_bytes(sequence),
            Path::Receipt { port_id, channel_id, sequence } => seq![7u8] + spec_u64_to_le_bytes(
                port_id.index,
            ) + spec_u64_to_le_bytes(channel_id.index) + spec_u64_to_le_bytes(sequence),
            Path::NextSequenceRecv { port_id, channel_id } => seq![8u8] + spec_u64_to_le_bytes(
                port_id.index,
            ) + spec_u64_to_le_bytes(channel_id.index),
        }
    }

    pub fn to_bytes(&self, prefix: CommitmentPrefix) -> (v: Vec<u8>)
        ensures
            v@ == self.spec_bytes(prefix),
    {
        let mut v: Vec<u8> = Vec::new();
        append_u64(&mut v, prefix.store);
        match self {
            Path::ClientState { client_id } => {
                v.push(1u8);
                append_u64(&mut v, client_id.index);
            },
            Path::ConsensusState { client_id, height } => {
                v.push(2u8);
                append_u64(&mut v, client_id.index);
                append_height(&mut v, *height);
            },
            Path::Connection { connection_id } => {
                v.push(3u8);
                append_u64(&mut v, connection_id.index);
            },
            Path::Channel { port_id, channel_id } => {
                v.push(4u8);
                append_u64(&mut v, port_id.index);
                append_u64(&mut v, channel_id.index);
            },
            Path::Commitment { port_id, channel_id, sequence } => {
                v.push(5u8);
                append_u64(&mut v, port_id.index);
                append_u64(&mut v, channel_id.index);
                append_u64(&mut v, *sequence);
            },
            Path::Acknowledgement { port_id, channel_id, sequence } => {
                v.push(6u8);
                append_u64(&mut v, port_id.index);
                append_u64(&mut v, channel_id.index);
                append_u64(&mut v, *sequence);
            },
            Path::Receipt { port_id, channel_id, sequence } => {
                v.push(7u8);
                append_u64(&mut v, port_id.index);
                append_u64(&mut v, channel_id.index);
                append_u64(&mut v, *sequence);
            },
            Path::NextSequenceRecv { port_id, channel_id } => {
                v.push(8u8);
                append_u64(&mut v, port_id.index);
                append_u64(&mut v, channel_id.index);
            },
        }
        assert(v@ =~= self.spec_bytes(prefix));
        v
    }
}

} // verus!
