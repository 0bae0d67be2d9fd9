//! Light clients: creating and updating them, and checking proofs of what
//! the counterparty chain stores against the roots they have verified.
//!
//! Checking a proof changes nothing. A frozen client accepts no update and
//! no proof.

use vstd::prelude::*;
use vstd::bytes::spec_u64_to_le_bytes;
use crate::channel::ChannelEnd;
use crate::client::{
    consensus_at,
    ClientRecord,
    ClientState,
    ClientView,
    ConsensusEntry,
    ConsensusState,
    Header,
    HeaderVerdict,
};
use crate::commitment::{
    append_u64,
    membership,
    verify_membership,
    Digest,
};
use crate::connection::ConnectionEnd;
use crate::error::ClientError;
use crate::events::IbcEvent;
use crate::height::Height;
use crate::host::{Host, HostView};
use crate::ids::{ChannelId, ClientId, CommitmentPrefix, ConnectionId, PortId};
use crate::path::Path;

verus! {

/// The consensus state against which a client checks a proof generated at
/// `proof_height`: the client must exist, must not be frozen, must have
/// verified the counterparty up to that height at least, and must hold the
/// consensus state of exactly that height.
pub open spec fn trusted_state(host: HostView, client_id: ClientId, proof_height: Height) -> Result<
    ConsensusState,
    ClientError,
> {
    if !host.clients.contains_key(client_id.index) {
        Err(ClientError::ClientNotFound { client_id })
    } else {
        let client = host.clients[client_id.index];
        match client.state.frozen_height {
            Some(frozen_height) => Err(ClientError::ClientFrozen { client_id, frozen_height }),
            None => if client.state.latest_height.spec_lt(proof_height) {
                Err(
                    ClientError::HeightOutOfRange {
                        height: proof_height,
                        latest_height: client.state.latest_height,
                    },
                )
            } else {
                match consensus_at(client.consensus, proof_height) {
                    Some(cs) => Ok(cs),
                    None => Err(
                        ClientError::ConsensusStateNotFound { client_id, height: proof_height },
                    ),
                }
            },
        }
    }
}

/// The verdict of a client on a proof that the counterparty stores `value`
/// under `path`.
pub open spec fn verified(
    host: HostView,
    client_id: ClientId,
    proof_height: Height,
    proof: Seq<u8>,
    path: Seq<u8>,
    value: Seq<u8>,
) -> Result<(), ClientError> {
    match trusted_state(host, client_id, proof_height) {
        Err(e) => Err(e),
        Ok(cs) => match membership(cs.root@, proof, path, value) {
            Ok(()) => Ok(()),
            Err(e) => Err(ClientError::InvalidProof(e)),
        },
    }
}

/// The verdict of a client on a proof that the counterparty stores nothing
/// under `path`.
pub open spec fn verified_absent(
    host: HostView,
    client_id: ClientId,
    proof_height: Height,
    proof: Seq<u8>,
    path: Seq<u8>,
) -> Result<(), ClientError> {
    verified(host, client_id, proof_height, proof, path, Seq::<u8>::empty())
}

/// What creating a client gives: the new state and the event, or the error.
pub open spec fn client_created(
    host: HostView,
    client_id: ClientId,
    client_state: ClientState,
    consensus_state: ConsensusState,
) -> Result<(HostView, IbcEvent), ClientError> {
    if host.clients.contains_key(client_id.index) {
        Err(ClientError::ClientAlreadyExists { client_id })
    } else {
        match client_state.frozen_height {
            Some(frozen_height) => Err(ClientError::ClientFrozen { client_id, frozen_height }),
            None => Ok(
                (
                    host.with_client(
                        client_id,
                        ClientView {
                            state: client_state,
                            consensus: seq![
                                ConsensusEntry {
                                    height: client_state.latest_height,
                                    state: consensus_state,
                                },
                            ],
                        },
                    ),
                    IbcEvent::CreateClient {
                        client_id,
                        consensus_height: client_state.latest_height,
                    },
                ),
            ),
        }
    }
}

/// What handing a header to a client gives. A frozen client takes nothing.
/// Misbehaviour freezes the client at the header's height. A valid header
/// above the latest height adds one consensus state and raises the latest
/// height; nothing else changes.
pub open spec fn client_updated(
    host: HostView,
    client_id: ClientId,
    header: Header,
    verdict: HeaderVerdict,
) -> Result<(HostView, IbcEvent), ClientError> {
    if !host.clients.contains_key(client_id.index) {
        Err(ClientError::ClientNotFound { client_id })
    } else {
        let client = host.clients[client_id.index];
        match client.state.frozen_height {
            Some(frozen_height) => Err(ClientError::ClientFrozen { client_id, frozen_height }),
            None => match verdict {
                HeaderVerdict::Misbehaviour => Ok(
                    (
                        host.with_client(
                            client_id,
                            ClientView {
                                state: ClientState {
                                    frozen_height: Some(header.height),
                                    ..client.state
                                },
                                consensus: client.consensus,
                            },
                        ),
                        IbcEvent::ClientMisbehaviour { client_id, frozen_height: header.height },
                    ),
                ),
                HeaderVerdict::Invalid => Err(
                    ClientError::HeaderVerificationFailure { client_id, height: header.height },
                ),
                HeaderVerdict::Valid => if !client.state.latest_height.spec_lt(header.height) {
                    Err(
                        ClientError::LowHeaderHeight {
                            header_height: header.height,
                            latest_height: client.state.latest_height,
                        },
                    )
                } else {
                    Ok(
                        (
                            host.with_client(
                                client_id,
                                ClientView {
                                    state: ClientState {
                                        latest_height: header.height,
                                        ..client.state
                                    },
                                    consensus: client.consensus.push(
                                        ConsensusEntry {
                                            height: header.height,
                                            state: ConsensusState {
                                                timestamp: header.timestamp,
                                                root: header.root,
                                            },
                                        },
                                    ),
                                },
                            ),
                            IbcEvent::UpdateClient { client_id, consensus_height: header.height },
                        ),
                    )
                },
            },
        }
    }
}

/// An operation returned `r` and took the state from `pre` to `post` as
/// `expected` says: on success the new state and the value are those given,
/// on failure the error is the one given and the state is unchanged.
pub open spec fn outcome<T, E>(
    r: Result<T, E>,
    pre: HostView,
    post: HostView,
    expected: Result<(HostView, T), E>,
) -> bool {
    match r {
        Ok(v) => expected == Ok::<(HostView, T), E>((post, v)),
        Err(e) => expected == Err::<(HostView, T), E>(e) && post == pre,
    }
}

pub open spec fn next_sequence_bytes(next_sequence_recv: u64) -> Seq<u8> {
    spec_u64_to_le_bytes(next_sequence_recv)
}

/// What a chain stores under a receipt path once the packet is received.
pub open spec fn receipt_bytes() -> Seq<u8> {
    seq![1u8]
}

impl Host {
    /// Registers a light client under `client_id`, with the consensus state
    /// of its latest height.
    pub fn create_client(
        &mut self,
        client_id: ClientId,
        client_state: ClientState,
        consensus_state: ConsensusState,
    ) -> (r: Result<IbcEvent, ClientError>)
        ensures
            outcome(
                r,
                old(self)@,
                final(self)@,
                client_created(old(self)@, client_id, client_state, consensus_state),
            ),
    {
        if self.query_client_state(client_id).is_some() {
            return Err(ClientError::ClientAlreadyExists { client_id });
        }
        if let Some(frozen_height) = client_state.frozen_height {
            return Err(ClientError::ClientFrozen { client_id, frozen_height });
        }
        let mut consensus: Vec<ConsensusEntry> = Vec::new();
        consensus.push(
            ConsensusEntry { height: client_state.latest_height, state: consensus_state },
        );
        assert(consensus@ =~= seq![
            ConsensusEntry { height: client_state.latest_height, state: consensus_state },
        ]);
        self.put_client(client_id, ClientRecord { state: client_state, consensus });
        Ok(IbcEvent::CreateClient { client_id, consensus_height: client_state.latest_height })
    }

    /// Hands a header of the counterparty chain to a client, together with
    /// what the counterparty's consensus algorithm found about it.
    pub fn update_client(&mut self, client_id: ClientId, header: Header, verdict: HeaderVerdict) -> (r:
        Result<IbcEvent, ClientError>)
        ensures
            outcome(
                r,
                old(self)@,
                final(self)@,
                client_updated(old(self)@, client_id, header, verdict),
            ),
    {
        let state = match self.query_client_state(client_id) {
            Some(s) => s,
            None => {
                return Err(ClientError::ClientNotFound { client_id });
            },
        };
        if let Some(frozen_height) = state.frozen_height {
            return Err(ClientError::ClientFrozen { client_id, frozen_height });
        }
        match verdict {
            HeaderVerdict::Misbehaviour => {},
            HeaderVerdict::Invalid => {
                return Err(
                    ClientError::HeaderVerificationFailure { client_id, height: header.height },
                );
            },
            HeaderVerdict::Valid => {
                if !state.latest_height.lt(&header.height) {
                    return Err(
                        ClientError::LowHeaderHeight {
                            header_height: header.height,
                            latest_height: state.latest_height,
                        },
                    );
                }
            },
        }
        let ghost pre = self@;
        let mut rec = match self.take_client(client_id) {
            Some(rec) => rec,
            None => {
                return Err(ClientError::ClientNotFound { client_id });
            },
        };
        let ghost before = rec@;
        let event = match verdict {
            HeaderVerdict::Misbehaviour => {
                rec.state.frozen_height = Some(header.height);
                IbcEvent::ClientMisbehaviour { client_id, frozen_height: header.height }
            },
            _ => {
                rec.state.latest_height = header.height;
                rec.consensus.push(
                    ConsensusEntry {
                        height: header.height,
                        state: ConsensusState { timestamp: header.timestamp, root: header.root },
                    },
                );
                IbcEvent::UpdateClient { client_id, consensus_height: header.height }
            },
        };
        let ghost after = rec@;
        self.put_client(client_id, rec);
        assert(pre.clients.remove(client_id.index).insert(client_id.index, after)
            =~= pre.clients.insert(client_id.index, after));
        assert(self@ == pre.with_client(client_id, after));
        Ok(event)
    }

    /// The latest height that a client has verified.
    pub fn latest_height(&self, client_id: ClientId) -> (r: Option<Height>)
        ensures
            r == match self@.client_state(client_id) {
                Some(s) => Some(s.latest_height),
                None => None,
            },
    {
        match self.query_client_state(client_id) {
            Some(s) => Some(s.latest_height),
            None => None,
        }
    }

    /// The consensus state against which a proof from `proof_height` is
    /// checked.
    pub fn trusted_consensus_state(&self, client_id: ClientId, proof_height: Height) -> (r: Result<
        ConsensusState,
        ClientError,
    >)
        ensures
            r == trusted_state(self@, client_id, proof_height),
    {
        let state = match self.query_client_state(client_id) {
            Some(s) => s,
            None => {
                return Err(ClientError::ClientNotFound { client_id });
            },
        };
        if let Some(frozen_height) = state.frozen_height {
            return Err(ClientError::ClientFrozen { client_id, frozen_height });
        }
        if state.latest_height.lt(&proof_height) {
            return Err(
                ClientError::HeightOutOfRange {
                    height: proof_height,
                    latest_height: state.latest_height,
                },
            );
        }
        match self.query_client_consensus(client_id, proof_height) {
            Some(cs) => Ok(cs),
            None => Err(ClientError::ConsensusStateNotFound { client_id, height: proof_height }),
        }
    }

    /// Checks a proof that the counterparty stores `value` under `path`.
    pub fn verify_stored(
        &self,
        client_id: ClientId,
        proof_height: Height,
        proof: &[u8],
        path: &[u8],
        value: &[u8],
    ) -> (r: Result<(), ClientError>)
        ensures
            r == verified(self@, client_id, proof_height, proof@, path@, value@),
    {
        let cs = match self.trusted_consensus_state(client_id, proof_height) {
            Ok(cs) => cs,
            Err(e) => {
                return Err(e);
            },
        };
        match verify_membership(&cs.root, proof, path, value) {
            Ok(()) => Ok(()),
            Err(e) => Err(ClientError::InvalidProof(e)),
        }
    }

    /// Checks a proof of the state that the counterparty's client
    /// `counterparty_client_id` holds.
    pub fn verify_client_state(
        &self,
        client_id: ClientId,
        prefix: CommitmentPrefix,
        proof_height: Height,
        proof: &[u8],
        counterparty_client_id: ClientId,
        expected: &ClientState,
    ) -> (r: Result<(), ClientError>)
        ensures
            r == verified(
                self@,
                client_id,
                proof_height,
                proof@,
                (Path::ClientState { client_id: counterparty_client_id }).spec_bytes(prefix),
                expected.spec_bytes(),
            ),
    {
        let path = (Path::ClientState { client_id: counterparty_client_id }).to_bytes(prefix);
        let value = expected.to_bytes();
        self.verify_stored(client_id, proof_height, proof, path.as_slice(), value.as_slice())
    }

    /// Checks a proof of the consensus state that the counterparty's client
    /// `counterparty_client_id` holds for `consensus_height`.
    pub fn verify_consensus_state(
        &self,
        client_id: ClientId,
        prefix: CommitmentPrefix,
        proof_height: Height,
        proof: &[u8],
        counterparty_client_id: ClientId,
        consensus_height: Height,
        expected: &ConsensusState,
    ) -> (r: Result<(), ClientError>)
        ensures
            r == verified(
                self@,
                client_id,
                proof_height,
                proof@,
                (Path::ConsensusState {
                    client_id: counterparty_client_id,
                    height: consensus_height,
                }).spec_bytes(prefix),
                expected.spec_bytes(),
            ),
    {
        let path = (Path::ConsensusState {
            client_id: counterparty_client_id,
            height: consensus_height,
        }).to_bytes(prefix);
        let value = expected.to_bytes();
        self.verify_stored(client_id, proof_height, proof, path.as_slice(), value.as_slice())
    }

    /// Checks a proof of a connection end of the counterparty.
    pub fn verify_connection_state(
        &self,
        client_id: ClientId,
        prefix: CommitmentPrefix,
        proof_height: Height,
        proof: &[u8],
        counterparty_connection_id: ConnectionId,
        expected: &ConnectionEnd,
    ) -> (r: Result<(), ClientError>)
        ensures
            r == verified(
                self@,
                client_id,
                proof_height,
                proof@,
                (Path::Connection { connection_id: counterparty_connection_id }).spec_bytes(prefix),
                expected.spec_bytes(),
            ),
    {
        let path = (Path::Connection { connection_id: counterparty_connection_id }).to_bytes(
            prefix,
        );
        let value = expected.to_bytes();
        self.verify_stored(client_id, proof_height, proof, path.as_slice(), value.as_slice())
    }

    /// Checks a proof of a channel end of the counterparty.
    pub fn verify_channel_state(
        &self,
        client_id: ClientId,
        prefix: CommitmentPrefix,
        proof_height: Height,
        proof: &[u8],
        counterparty_port_id: PortId,
        counterparty_channel_id: ChannelId,
        expected: &ChannelEnd,
    ) -> (r: Result<(), ClientError>)
        ensures
            r == verified(
                self@,
                client_id,
                proof_height,
                proof@,
                (Path::Channel {
                    port_id: counterparty_port_id,
                    channel_id: counterparty_channel_id,
                }).spec_bytes(prefix),
                expected.spec_bytes(),
            ),
    {
        let path = (Path::Channel {
            port_id: counterparty_port_id,
            channel_id: counterparty_channel_id,
        }).to_bytes(prefix);
        let value = expected.to_bytes();
        self.verify_stored(client_id, proof_height, proof, path.as_slice(), value.as_slice())
    }

    /// Checks a proof that the counterparty committed to a packet.
    pub fn verify_packet_commitment(
        &self,
        client_id: ClientId,
        prefix: CommitmentPrefix,
        proof_height: Height,
        proof: &[u8],
        port_id: PortId,
        channel_id: ChannelId,
        sequence: u64,
        commitment: &Digest,
    ) -> (r: Result<(), ClientError>)
        ensures
            r == verified(
                self@,
                client_id,
                proof_height,
                proof@,
                (Path::Commitment { port_id, channel_id, sequence }).spec_bytes(prefix),
                commitment@,
            ),
    {
        let path = (Path::Commitment { port_id, channel_id, sequence }).to_bytes(prefix);
        self.verify_stored(client_id, proof_height, proof, path.as_slice(), commitment.bytes.as_slice())
    }

    /// Checks a proof that the counterparty wrote an acknowledgement with
    /// the given digest.
    pub fn verify_packet_acknowledgement(
        &self,
        client_id: ClientId,
        prefix: CommitmentPrefix,
        proof_height: Height,
        proof: &[u8],
        port_id: PortId,
        channel_id: ChannelId,
        sequence: u64,
        acknowledgement: &Digest,
    ) -> (r: Result<(), ClientError>)
        ensures
            r == verified(
                self@,
                client_id,
                proof_height,
                proof@,
                (Path::Acknowledgement { port_id, channel_id, sequence }).spec_bytes(prefix),
                acknowledgement@,
            ),
    {
        let path = (Path::Acknowledgement { port_id, channel_id, sequence }).to_bytes(prefix);
        self.verify_stored(client_id, proof_height, proof, path.as_slice(), acknowledgement.bytes.as_slice())
    }

    /// Checks a proof that the counterparty holds no receipt for a packet.
    pub fn verify_packet_receipt_absence(
        &self,
        client_id: ClientId,
        prefix: CommitmentPrefix,
        proof_height: Height,
        proof: &[u8],
        port_id: PortId,
        channel_id: ChannelId,
        sequence: u64,
    ) -> (r: Result<(), ClientError>)
        ensures
            r == verified_absent(
                self@,
                client_id,
                proof_height,
                proof@,
                (Path::Receipt { port_id, channel_id, sequence }).spec_bytes(prefix),
            ),
    {
        let path = (Path::Receipt { port_id, channel_id, sequence }).to_bytes(prefix);
        let empty: Vec<u8> = Vec::new();
        self.verify_stored(client_id, proof_height, proof, path.as_slice(), empty.as_slice())
    }

    /// Checks a proof of the sequence that the counterparty's channel end
    /// expects to receive next.
    pub fn verify_next_sequence_recv(
        &self,
        client_id: ClientId,
        prefix: CommitmentPrefix,
        proof_height: Height,
        proof: &[u8],
        port_id: PortId,
        channel_id: ChannelId,
        next_sequence_recv: u64,
    ) -> (r: Result<(), ClientError>)
        ensures
            r == verified(
                self@,
                client_id,
                proof_height,
                proof@,
                (Path::NextSequenceRecv { port_id, channel_id }).spec_bytes(prefix),
                next_sequence_bytes(next_sequence_recv),
            ),
    {
        let path = (Path::NextSequenceRecv { port_id, channel_id }).to_bytes(prefix);
        let mut value: Vec<u8> = Vec::new();
        append_u64(&mut value, next_sequence_recv);
        assert(value@ =~= next_sequence_bytes(next_sequence_recv));
        self.verify_stored(client_id, proof_height, proof, path.as_slice(), value.as_slice())
    }
}

/// Once a client is frozen, it rejects every proof, whatever the proof
/// holds, and every header.
pub proof fn lemma_frozen_client_rejects(
    host: HostView,
    client_id: ClientId,
    proof_height: Height,
    proof: Seq<u8>,
    path: Seq<u8>,
    value: Seq<u8>,
    header: Header,
    verdict: HeaderVerdict,
)
    requires
        host.clients.contains_key(client_id.index),
        host.clients[client_id.index].state.frozen_height.is_some(),
    ensures
        verified(host, client_id, proof_height, proof, path, value) == Err::<(), ClientError>(
            ClientError::ClientFrozen {
                client_id,
                frozen_height: host.clients[client_id.index].state.frozen_height.unwrap(),
            },
        ),
        client_updated(host, client_id, header, verdict) == Err::<(HostView, IbcEvent), ClientError>(
            ClientError::ClientFrozen {
                client_id,
                frozen_height: host.clients[client_id.index].state.frozen_height.unwrap(),
            },
        ),
{
}

/// No update unfreezes a client or changes another client: after any
/// successful update every client that was frozen is frozen at the same
/// height.
pub proof fn lemma_frozen_stays_frozen(
    host: HostView,
    client_id: ClientId,
    header: Header,
    verdict: HeaderVerdict,
    other: ClientId,
)
    requires
        client_updated(host, client_id, header, verdict).is_ok(),
        host.clients.contains_key(other.index),
        host.clients[other.index].state.frozen_height.is_some(),
    ensures
        client_updated(host, client_id, header, verdict).unwrap().0.clients.contains_key(
            other.index,
        ),
        client_updated(host, client_id, header, verdict).unwrap().0.clients[other.index].state
            == host.clients[other.index].state,
{
}

/// A client's consensus states are never changed or dropped: after a
/// successful update every height that had a consensus state has the same
/// one, unless it is the height of the header just accepted.
pub proof fn lemma_consensus_states_kept(
    host: HostView,
    client_id: ClientId,
    header: Header,
    verdict: HeaderVerdict,
    height: Height,
)
    requires
        client_updated(host, client_id, header, verdict).is_ok(),
        host.client_consensus(client_id, height).is_some(),
        height != header.height,
    ensures
        client_updated(host, client_id, header, verdict).unwrap().0.client_consensus(
            client_id,
            height,
        ) == host.client_consensus(client_id, height),
{
    let post = client_updated(host, client_id, header, verdict).unwrap().0;
    let before = host.clients[client_id.index].consensus;
    let after = post.clients[client_id.index].consensus;
    if verdict == HeaderVerdict::Valid {
        assert(after.drop_last() =~= before);
    }
}

} // verus!
