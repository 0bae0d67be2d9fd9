//! Facts that the protocol emits when a step succeeds. A relayer reads them
//! to decide what to do next; nothing here is stored.

use vstd::prelude::*;
use crate::height::Height;
use crate::ids::{ChannelId, ClientId, ConnectionId, PortId};

verus! {

#[derive(Clone, Copy, Debug, PartialEq, Eq, Structural)]
pub enum IbcEvent {
    CreateClient { client_id: ClientId, consensus_height: Height },
    UpdateClient { client_id: ClientId, consensus_height: Height },
    ClientMisbehaviour { client_id: ClientId, frozen_height: Height },
    OpenInitConnection { connection_id: ConnectionId, client_id: ClientId },
    OpenTryConnection { connection_id: ConnectionId, client_id: ClientId },
    OpenAckConnection { connection_id: ConnectionId, client_id: ClientId },
    OpenConfirmConnection { connection_id: ConnectionId, client_id: ClientId },
    OpenInitChannel { port_id: PortId, channel_id: ChannelId, connection_id: ConnectionId },
    OpenTryChannel { port_id: PortId, channel_id: ChannelId, connection_id: ConnectionId },
    OpenAckChannel { port_id: PortId, channel_id: ChannelId, connection_id: ConnectionId },
    OpenConfirmChannel { port_id: PortId, channel_id: ChannelId, connection_id: ConnectionId },
    CloseInitChannel { port_id: PortId, channel_id: ChannelId, connection_id: ConnectionId },
    CloseConfirmChannel { port_id: PortId, channel_id: ChannelId, connection_id: ConnectionId },
    SendPacket { port_id: PortId, channel_id: ChannelId, sequence: u64 },
    ReceivePacket { port_id: PortId, channel_id: ChannelId, sequence: u64 },
    WriteAcknowledgement { port_id: PortId, channel_id: ChannelId, sequence: u64 },
    AcknowledgePacket { port_id: PortId, channel_id: ChannelId, sequence: u64 },
    TimeoutPacket { port_id: PortId, channel_id: ChannelId, sequence: u64 },
}

} // verus!
