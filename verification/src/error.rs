//! The errors of each protocol module. Every failure is a typed value that
//! carries the identifiers and heights it is about.

use vstd::prelude::*;
use vstd::std_specs::convert::FromSpecImpl;
use crate::height::Height;
use crate::ids::{ChannelId, ClientId, ConnectionId, PortId};

verus! {

/// Why a text is not an identifier.
#[derive(Clone, Copy, Debug, PartialEq, Eq, Structural)]
pub enum ValidationError {
    Empty,
    /// The text is shorter than the word, the hyphen and one digit, or
    /// longer than 64 bytes.
    InvalidLength { length: usize },
    /// The text does not start with the word for this kind of identifier
    /// and a hyphen.
    InvalidPrefix,
    /// After the hyphen stands something other than a decimal digit.
    InvalidCharacter { position: usize },
    /// The number starts with a zero that is not its only digit.
    LeadingZero,
    /// The number does not fit in 64 bits.
    NumberTooLarge,
}

/// Why a commitment proof was not accepted.
#[derive(Clone, Copy, Debug, PartialEq, Eq, Structural)]
pub enum ProofError {
    /// The proof bytes are not a sequence of at most 256 sibling digests.
    Malformed { length: usize },
    /// The root computed from the proof is not the trusted root.
    VerificationFailed,
}

/// Errors of the light-client module.
#[derive(Clone, Copy, Debug, PartialEq, Eq, Structural)]
pub enum ClientError {
    ClientNotFound { client_id: ClientId },
    ClientAlreadyExists { client_id: ClientId },
    ClientFrozen { client_id: ClientId, frozen_height: Height },
    ConsensusStateNotFound { client_id: ClientId, height: Height },
    /// A header does not advance the client beyond its latest height.
    LowHeaderHeight { header_height: Height, latest_height: Height },
    /// The consensus algorithm rejected the header.
    HeaderVerificationFailure { client_id: ClientId, height: Height },
    /// A proof was generated above the latest height that the client verified.
    HeightOutOfRange { height: Height, latest_height: Height },
    /// A commitment proof was checked against a verified root and rejected.
    InvalidProof(ProofError),
}

/// Errors of the connection handshake.
#[derive(Clone, Copy, Debug, PartialEq, Eq, Structural)]
pub enum ConnectionError {
    Ics02Client(ClientError),
    ConnectionExistsAlready { connection_id: ConnectionId },
    ConnectionMismatch { connection_id: ConnectionId },
    ConnectionNotFound { connection_id: ConnectionId },
    ConnectionIdMismatch { connection_id: ConnectionId, counterparty_connection_id: ConnectionId },
    InvalidConsensusHeight { target_height: Height, current_height: Height },
    StaleConsensusHeight { target_height: Height, oldest_height: Height },
    EmptyFeatures,
    NoCommonVersion,
    MissingProofHeight,
    MissingConsensusHeight,
    MissingCounterparty,
    NullClientProof,
    /// The host keeps no consensus state of its own for this height.
    MissingLocalConsensusState { height: Height },
    FrozenClient { client_id: ClientId },
    InvalidProof(ProofError),
    ConnectionVerificationFailure,
    ConsensusStateVerificationFailure { height: Height, source: ProofError },
    ClientStateVerificationFailure { client_id: ClientId, source: ProofError },
}

/// Errors of the channel handshake.
#[derive(Clone, Copy, Debug, PartialEq, Eq, Structural)]
pub enum ChannelError {
    Connection(ConnectionError),
    Client(ClientError),
    /// The connection under the channel has not finished its handshake.
    ConnectionNotOpen { connection_id: ConnectionId },
    ChannelExistsAlready { port_id: PortId, channel_id: ChannelId },
    ChannelNotFound { port_id: PortId, channel_id: ChannelId },
    ChannelMismatch { port_id: PortId, channel_id: ChannelId },
    ChannelClosed { port_id: PortId, channel_id: ChannelId },
    ChannelNotOpen { port_id: PortId, channel_id: ChannelId },
    /// The two ends do not agree on ordered or unordered delivery.
    OrderingMismatch { ordered: bool, counterparty_ordered: bool },
    /// The connection's version does not offer the wanted delivery order.
    OrderingNotSupported { ordered: bool },
    MissingProofHeight,
    MissingCounterparty,
    FrozenClient { client_id: ClientId },
    InvalidProof(ProofError),
    ChannelVerificationFailure,
}

/// Errors of packet relay.
#[derive(Clone, Copy, Debug, PartialEq, Eq, Structural)]
pub enum PacketError {
    Channel(ChannelError),
    /// Sequence numbers start at one and stay below the largest number.
    InvalidSequence { sequence: u64 },
    SequenceMismatch { expected: u64, received: u64 },
    /// The packet does not name the channel's other end.
    CounterpartyMismatch { port_id: PortId, channel_id: ChannelId },
    PacketCommitmentNotFound { sequence: u64 },
    IncorrectPacketCommitment { sequence: u64 },
    /// A packet must carry a timeout height or a timeout timestamp.
    MissingTimeout,
    /// The receiving chain is already past the packet's timeout height.
    TimedOutHeight { timeout_height: Height, current_height: Height },
    /// The receiving chain is already past the packet's timeout timestamp.
    TimedOutTimestamp { timeout_timestamp: u64, current_timestamp: u64 },
    /// The proof height does not show that the packet's timeout has passed.
    TimeoutNotReached { timeout_height: Height, proof_height: Height },
    /// On an ordered channel the receiver has already taken the packet.
    PacketAlreadyReceived { sequence: u64 },
    /// An acknowledgement can only be written for a received packet.
    PacketNotReceived { sequence: u64 },
    AcknowledgementExists { sequence: u64 },
    InvalidProof(ProofError),
    PacketVerificationFailure { sequence: u64 },
}

impl From<ClientError> for ConnectionError {
    fn from(e: ClientError) -> (r: ConnectionError) {
        ConnectionError::Ics02Client(e)
    }
}

impl FromSpecImpl<ClientError> for ConnectionError {
    open spec fn obeys_from_spec() -> bool {
        true
    }

    open spec fn from_spec(e: ClientError) -> ConnectionError {
        ConnectionError::Ics02Client(e)
    }
}

impl From<ConnectionError> for ChannelError {
    fn from(e: ConnectionError) -> (r: ChannelError) {
        ChannelError::Connection(e)
    }
}

impl FromSpecImpl<ConnectionError> for ChannelError {
    open spec fn obeys_from_spec() -> bool {
        true
    }

    open spec fn from_spec(e: ConnectionError) -> ChannelError {
        ChannelError::Connection(e)
    }
}

impl From<ChannelError> for PacketError {
    fn from(e: ChannelError) -> (r: PacketError) {
        PacketError::Channel(e)
    }
}

impl FromSpecImpl<ChannelError> for PacketError {
    open spec fn obeys_from_spec() -> bool {
        true
    }

    open spec fn from_spec(e: ChannelError) -> PacketError {
        PacketError::Channel(e)
    }
}

} // verus!
