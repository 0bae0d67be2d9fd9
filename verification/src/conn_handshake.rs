//! The connection handshake: four steps that take the two ends of a
//! connection from nothing to `Open`.
//!
//! The initiating chain runs `conn_open_init` and `conn_open_ack`, the other
//! chain `conn_open_try` and `conn_open_confirm`. Each step but the first
//! checks proofs of what the other chain stored. A step that fails changes
//! nothing.

use vstd::prelude::*;
use crate::client::{consensus_at, ClientState, ConsensusState};
use crate::connection::{
    acceptable,
    is_acceptable,
    negotiated,
    pick_version,
    ConnectionEnd,
    ConnectionState,
    Counterparty,
    Version,
};
use crate::error::{ClientError, ConnectionError, ProofError};
use crate::events::IbcEvent;
use crate::height::Height;
use crate::host::{Host, HostView};
use crate::ids::{ClientId, CommitmentPrefix, ConnectionId};
use crate::light_client::{outcome, verified};
use crate::path::Path;

verus! {

/// Asks to create a connection end in `Init`.
#[derive(Debug)]
pub struct MsgConnectionOpenInit {
    /// The identifier to bind the new end to.
    pub connection_id: ConnectionId,
    pub client_id: ClientId,
    pub counterparty: Counterparty,
    /// The version to propose; without one, the default version.
    pub version: Option<Version>,
    pub delay_period: u64,
}

/// Asks to create a connection end in `TryOpen`, answering an `Init` end on
/// the other chain.
#[derive(Debug)]
pub struct MsgConnectionOpenTry {
    /// The identifier to bind the new end to.
    pub connection_id: ConnectionId,
    pub client_id: ClientId,
    /// The other end; its connection identifier must be given.
    pub counterparty: Counterparty,
    /// The version that the other end proposed.
    pub counterparty_version: Version,
    pub delay_period: u64,
    /// The state of the other chain's client for this chain, as claimed. It
    /// must name this chain.
    pub client_state: ClientState,
    /// The height of the other chain at which the proofs were generated.
    pub proof_height: Option<Height>,
    /// The height of this chain whose consensus state the other chain holds.
    pub consensus_height: Option<Height>,
    /// Proof of the other end.
    pub connection_proof: Vec<u8>,
    /// Proof of `client_state`.
    pub client_proof: Option<Vec<u8>>,
    /// Proof of the consensus state held for `consensus_height`.
    pub consensus_proof: Vec<u8>,
}

/// Asks to open an `Init` end, answering a `TryOpen` end on the other chain.
#[derive(Debug)]
pub struct MsgConnectionOpenAck {
    pub connection_id: ConnectionId,
    /// The identifier that the other chain chose for its end.
    pub counterparty_connection_id: ConnectionId,
    /// The version that the other chain chose.
    pub version: Version,
    pub client_state: ClientState,
    pub proof_height: Option<Height>,
    pub consensus_height: Option<Height>,
    pub connection_proof: Vec<u8>,
    pub client_proof: Option<Vec<u8>>,
    pub consensus_proof: Vec<u8>,
}

/// Asks to open a `TryOpen` end, after the other end was opened.
#[derive(Debug)]
pub struct MsgConnectionOpenConfirm {
    pub connection_id: ConnectionId,
    pub proof_height: Option<Height>,
    pub connection_proof: Vec<u8>,
}

/// The state of a client that a connection may use: the client exists and
/// is not frozen.
pub open spec fn usable_client(host: HostView, client_id: ClientId) -> Result<
    ClientState,
    ConnectionError,
> {
    match host.client_state(client_id) {
        None => Err(ConnectionError::Ics02Client(ClientError::ClientNotFound { client_id })),
        Some(state) => if state.frozen_height.is_some() {
            Err(ConnectionError::FrozenClient { client_id })
        } else {
            Ok(state)
        },
    }
}

/// This chain's own consensus state at the height that the other chain
/// claims to hold: the height must not be above the current height nor
/// below the oldest height still kept.
pub open spec fn own_consensus_state(host: HostView, consensus_height: Height) -> Result<
    ConsensusState,
    ConnectionError,
> {
    if host.height.spec_lt(consensus_height) {
        Err(
            ConnectionError::InvalidConsensusHeight {
                target_height: consensus_height,
                current_height: host.height,
            },
        )
    } else if consensus_height.spec_lt(host.oldest_height) {
        Err(
            ConnectionError::StaleConsensusHeight {
                target_height: consensus_height,
                oldest_height: host.oldest_height,
            },
        )
    } else {
        match consensus_at(host.history, consensus_height) {
            Some(cs) => Ok(cs),
            None => Err(ConnectionError::MissingLocalConsensusState { height: consensus_height }),
        }
    }
}

/// The error of a handshake step whose proof of the other connection end
/// was not accepted.
pub open spec fn connection_proof_error(e: ClientError, client_id: ClientId) -> ConnectionError {
    match e {
        ClientError::ClientFrozen { .. } => ConnectionError::FrozenClient { client_id },
        ClientError::InvalidProof(ProofError::VerificationFailed) => {
            ConnectionError::ConnectionVerificationFailure
        },
        ClientError::InvalidProof(pe) => ConnectionError::InvalidProof(pe),
        _ => ConnectionError::Ics02Client(e),
    }
}

/// The error of a handshake step whose proof of the other chain's client
/// state was not accepted.
pub open spec fn client_proof_error(
    e: ClientError,
    client_id: ClientId,
    counterparty_client_id: ClientId,
) -> ConnectionError {
    match e {
        ClientError::ClientFrozen { .. } => ConnectionError::FrozenClient { client_id },
        ClientError::InvalidProof(source) => ConnectionError::ClientStateVerificationFailure {
            client_id: counterparty_client_id,
            source,
        },
        _ => ConnectionError::Ics02Client(e),
    }
}

/// The error of a handshake step whose proof of the consensus state that
/// the other chain holds was not accepted.
pub open spec fn consensus_proof_error(
    e: ClientError,
    client_id: ClientId,
    consensus_height: Height,
) -> ConnectionError {
    match e {
        ClientError::ClientFrozen { .. } => ConnectionError::FrozenClient { client_id },
        ClientError::InvalidProof(source) => ConnectionError::ConsensusStateVerificationFailure {
            height: consensus_height,
            source,
        },
        _ => ConnectionError::Ics02Client(e),
    }
}

/// The three proofs of `conn_open_try` and `conn_open_ack`, checked in
/// order through the client `client_id`: that the other chain stores
/// `expected` under `counterparty_connection_id`, that its client
/// `counterparty_client_id` is in `client_state`, and that this client holds
/// `own` as this chain's consensus state at `consensus_height`.
pub open spec fn handshake_proofs(
    host: HostView,
    client_id: ClientId,
    prefix: CommitmentPrefix,
    proof_height: Height,
    connection_proof: Seq<u8>,
    counterparty_connection_id: ConnectionId,
    expected: ConnectionEnd,
    client_proof: Seq<u8>,
    counterparty_client_id: ClientId,
    client_state: ClientState,
    consensus_proof: Seq<u8>,
    consensus_height: Height,
    own: ConsensusState,
) -> Result<(), ConnectionError> {
    match verified(
        host,
        client_id,
        proof_height,
        connection_proof,
        (Path::Connection { connection_id: counterparty_connection_id }).spec_bytes(prefix),
        expected.spec_bytes(),
    ) {
        Err(e) => Err(connection_proof_error(e, client_id)),
        Ok(()) => match verified(
            host,
            client_id,
            proof_height,
            client_proof,
            (Path::ClientState { client_id: counterparty_client_id }).spec_bytes(prefix),
            client_state.spec_bytes(),
        ) {
            Err(e) => Err(client_proof_error(e, client_id, counterparty_client_id)),
            Ok(()) => match verified(
                host,
                client_id,
                proof_height,
                consensus_proof,
                (Path::ConsensusState {
                    client_id: counterparty_client_id,
                    height: consensus_height,
                }).spec_bytes(prefix),
                own.spec_bytes(),
            ) {
                Err(e) => Err(consensus_proof_error(e, client_id, consensus_height)),
                Ok(()) => Ok(()),
            },
        },
    }
}

/// What `conn_open_init` gives.
pub open spec fn conn_open_init_result(host: HostView, msg: MsgConnectionOpenInit) -> Result<
    (HostView, IbcEvent),
    ConnectionError,
> {
    if host.connections.contains_key(msg.connection_id.index) {
        Err(ConnectionError::ConnectionExistsAlready { connection_id: msg.connection_id })
    } else {
        match usable_client(host, msg.client_id) {
            Err(e) => Err(e),
            Ok(_) => match (match msg.version {
                Some(v) => negotiated(Version::spec_default(), v),
                None => Ok(Version::spec_default()),
            }) {
                Err(e) => Err(e),
                Ok(version) => Ok(
                    (
                        host.with_connection(
                            msg.connection_id,
                            ConnectionEnd {
                                state: ConnectionState::Init,
                                client_id: msg.client_id,
                                counterparty: msg.counterparty,
                                version,
                                delay_period: msg.delay_period,
                            },
                        ),
                        IbcEvent::OpenInitConnection {
                            connection_id: msg.connection_id,
                            client_id: msg.client_id,
                        },
                    ),
                ),
            },
        }
    }
}

/// The `Init` end that `conn_open_try` expects the other chain to store.
pub open spec fn expected_init_end(host: HostView, msg: MsgConnectionOpenTry) -> ConnectionEnd {
    ConnectionEnd {
        state: ConnectionState::Init,
        client_id: msg.counterparty.client_id,
        counterparty: Counterparty {
            client_id: msg.client_id,
            connection_id: None,
            prefix: host.prefix,
        },
        version: msg.counterparty_version,
        delay_period: msg.delay_period,
    }
}

/// What `conn_open_try` gives.
pub open spec fn conn_open_try_result(host: HostView, msg: MsgConnectionOpenTry) -> Result<
    (HostView, IbcEvent),
    ConnectionError,
> {
    if host.connections.contains_key(msg.connection_id.index) {
        Err(ConnectionError::ConnectionExistsAlready { connection_id: msg.connection_id })
    } else if msg.proof_height.is_none() {
        Err(ConnectionError::MissingProofHeight)
    } else if msg.consensus_height.is_none() {
        Err(ConnectionError::MissingConsensusHeight)
    } else if msg.client_proof.is_none() {
        Err(ConnectionError::NullClientProof)
    } else if msg.counterparty.connection_id.is_none() {
        Err(ConnectionError::MissingCounterparty)
    } else if msg.client_state.chain_id != host.chain_id {
        Err(
            ConnectionError::ConnectionMismatch {
                connection_id: msg.counterparty.connection_id.unwrap(),
            },
        )
    } else {
        match usable_client(host, msg.client_id) {
            Err(e) => Err(e),
            Ok(_) => match own_consensus_state(host, msg.consensus_height.unwrap()) {
                Err(e) => Err(e),
                Ok(own) => match negotiated(Version::spec_default(), msg.counterparty_version) {
                    Err(e) => Err(e),
                    Ok(version) => match handshake_proofs(
                        host,
                        msg.client_id,
                        msg.counterparty.prefix,
                        msg.proof_height.unwrap(),
                        msg.connection_proof@,
                        msg.counterparty.connection_id.unwrap(),
                        expected_init_end(host, msg),
                        msg.client_proof.unwrap()@,
                        msg.counterparty.client_id,
                        msg.client_state,
                        msg.consensus_proof@,
                        msg.consensus_height.unwrap(),
                        own,
                    ) {
                        Err(e) => Err(e),
                        Ok(()) => Ok(
                            (
                                host.with_connection(
                                    msg.connection_id,
                                    ConnectionEnd {
                                        state: ConnectionState::TryOpen,
                                        client_id: msg.client_id,
                                        counterparty: msg.counterparty,
                                        version,
                                        delay_period: msg.delay_period,
                                    },
                                ),
                                IbcEvent::OpenTryConnection {
                                    connection_id: msg.connection_id,
                                    client_id: msg.client_id,
                                },
                            ),
                        ),
                    },
                },
            },
        }
    }
}

/// The `TryOpen` end that `conn_open_ack` expects the other chain to store.
pub open spec fn expected_try_end(host: HostView, local: ConnectionEnd, msg: MsgConnectionOpenAck) -> ConnectionEnd {
    ConnectionEnd {
        state: ConnectionState::TryOpen,
        client_id: local.counterparty.client_id,
        counterparty: Counterparty {
            client_id: local.client_id,
            connection_id: Some(msg.connection_id),
            prefix: host.prefix,
        },
        version: msg.version,
        delay_period: local.delay_period,
    }
}

/// What `conn_open_ack` gives.
pub open spec fn conn_open_ack_result(host: HostView, msg: MsgConnectionOpenAck) -> Result<
    (HostView, IbcEvent),
    ConnectionError,
> {
    match host.connection(msg.connection_id) {
        None => Err(ConnectionError::ConnectionNotFound { connection_id: msg.connection_id }),
        Some(local) => if local.state == ConnectionState::Open {
            Err(ConnectionError::ConnectionExistsAlready { connection_id: msg.connection_id })
        } else if local.state != ConnectionState::Init {
            Err(ConnectionError::ConnectionMismatch { connection_id: msg.connection_id })
        } else if local.counterparty.connection_id.is_some()
            && local.counterparty.connection_id.unwrap() != msg.counterparty_connection_id {
            Err(
                ConnectionError::ConnectionIdMismatch {
                    connection_id: local.counterparty.connection_id.unwrap(),
                    counterparty_connection_id: msg.counterparty_connection_id,
                },
            )
        } else if msg.proof_height.is_none() {
            Err(ConnectionError::MissingProofHeight)
        } else if msg.consensus_height.is_none() {
            Err(ConnectionError::MissingConsensusHeight)
        } else if msg.client_proof.is_none() {
            Err(ConnectionError::NullClientProof)
        } else if msg.client_state.chain_id != host.chain_id {
            Err(
                ConnectionError::ConnectionMismatch {
                    connection_id: msg.counterparty_connection_id,
                },
            )
        } else {
            match usable_client(host, local.client_id) {
                Err(e) => Err(e),
                Ok(_) => match own_consensus_state(host, msg.consensus_height.unwrap()) {
                    Err(e) => Err(e),
                    Ok(own) => if !acceptable(local.version, msg.version) {
                        Err(ConnectionError::NoCommonVersion)
                    } else {
                        match handshake_proofs(
                            host,
                            local.client_id,
                            local.counterparty.prefix,
                            msg.proof_height.unwrap(),
                            msg.connection_proof@,
                            msg.counterparty_connection_id,
                            expected_try_end(host, local, msg),
                            msg.client_proof.unwrap()@,
                            local.counterparty.client_id,
                            msg.client_state,
                            msg.consensus_proof@,
                            msg.consensus_height.unwrap(),
                            own,
                        ) {
                            Err(e) => Err(e),
                            Ok(()) => Ok(
                                (
                                    host.with_connection(
                                        msg.connection_id,
                                        ConnectionEnd {
                                            state: ConnectionState::Open,
                                            counterparty: Counterparty {
                                                connection_id: Some(
                                                    msg.counterparty_connection_id,
                                                ),
                                                ..local.counterparty
                                            },
                                            version: msg.version,
                                            ..local
                                        },
                                    ),
                                    IbcEvent::OpenAckConnection {
                                        connection_id: msg.connection_id,
                                        client_id: local.client_id,
                                    },
                                ),
                            ),
                        }
                    },
                },
            }
        },
    }
}

/// The `Open` end that `conn_open_confirm` expects the other chain to store.
pub open spec fn expected_open_end(
    host: HostView,
    local: ConnectionEnd,
    connection_id: ConnectionId,
) -> ConnectionEnd {
    ConnectionEnd {
        state: ConnectionState::Open,
        client_id: local.counterparty.client_id,
        counterparty: Counterparty {
            client_id: local.client_id,
            connection_id: Some(connection_id),
            prefix: host.prefix,
        },
        version: local.version,
        delay_period: local.delay_period,
    }
}

/// What `conn_open_confirm` gives.
pub open spec fn conn_open_confirm_result(host: HostView, msg: MsgConnectionOpenConfirm) -> Result<
    (HostView, IbcEvent),
    ConnectionError,
> {
    match host.connection(msg.connection_id) {
        None => Err(ConnectionError::ConnectionNotFound { connection_id: msg.connection_id }),
        Some(local) => if local.state == ConnectionState::Open {
            Err(ConnectionError::ConnectionExistsAlready { connection_id: msg.connection_id })
        } else if local.state != ConnectionState::TryOpen {
            Err(ConnectionError::ConnectionMismatch { connection_id: msg.connection_id })
        } else if msg.proof_height.is_none() {
            Err(ConnectionError::MissingProofHeight)
        } else if local.counterparty.connection_id.is_none() {
            Err(ConnectionError::MissingCounterparty)
        } else {
            match usable_client(host, local.client_id) {
                Err(e) => Err(e),
                Ok(_) => match verified(
                    host,
                    local.client_id,
                    msg.proof_height.unwrap(),
                    msg.connection_proof@,
                    (Path::Connection {
                        connection_id: local.counterparty.connection_id.unwrap(),
                    }).spec_bytes(local.counterparty.prefix),
                    expected_open_end(host, local, msg.connection_id).spec_bytes(),
                ) {
                    Err(e) => Err(connection_proof_error(e, local.client_id)),
                    Ok(()) => Ok(
                        (
                            host.with_connection(
                                msg.connection_id,
                                ConnectionEnd { state: ConnectionState::Open, ..local },
                            ),
                            IbcEvent::OpenConfirmConnection {
                                connection_id: msg.connection_id,
                                client_id: local.client_id,
                            },
                        ),
                    ),
                },
            }
        },
    }
}

fn map_connection_proof_error(e: ClientError, client_id: ClientId) -> (r: ConnectionError)
    ensures
        r == connection_proof_error(e, client_id),
{
    match e {
        ClientError::ClientFrozen { .. } => ConnectionError::FrozenClient { client_id },
        ClientError::InvalidProof(ProofError::VerificationFailed) => {
            ConnectionError::ConnectionVerificationFailure
        },
        ClientError::InvalidProof(pe) => ConnectionError::InvalidProof(pe),
        _ => ConnectionError::Ics02Client(e),
    }
}

impl Host {
    /// Looks up a client for a connection: it must exist and not be frozen.
    pub fn usable_client_state(&self, client_id: ClientId) -> (r: Result<
        ClientState,
        ConnectionError,
    >)
        ensures
            r == usable_client(self@, client_id),
    {
        match self.query_client_state(client_id) {
            None => Err(ConnectionError::Ics02Client(ClientError::ClientNotFound { client_id })),
            Some(state) => if state.frozen_height.is_some() {
                Err(ConnectionError::FrozenClient { client_id })
            } else {
                Ok(state)
            },
        }
    }

    /// Looks up this chain's own consensus state at a height that the other
    /// chain claims to hold.
    pub fn own_consensus(&self, consensus_height: Height) -> (r: Result<
        ConsensusState,
        ConnectionError,
    >)
        ensures
            r == own_consensus_state(self@, consensus_height),
    {
        let current = self.height();
        let oldest = self.oldest_height();
        if current.lt(&consensus_height) {
            Err(
                ConnectionError::InvalidConsensusHeight {
                    target_height: consensus_height,
                    current_height: current,
                },
            )
        } else if consensus_height.lt(&oldest) {
            Err(
                ConnectionError::StaleConsensusHeight {
                    target_height: consensus_height,
                    oldest_height: oldest,
                },
            )
        } else {
            match self.host_consensus_state(consensus_height) {
                Some(cs) => Ok(cs),
                None => Err(
                    ConnectionError::MissingLocalConsensusState { height: consensus_height },
                ),
            }
        }
    }

    fn check_handshake_proofs(
        &self,
        client_id: ClientId,
        prefix: CommitmentPrefix,
        proof_height: Height,
        connection_proof: &[u8],
        counterparty_connection_id: ConnectionId,
        expected: &ConnectionEnd,
        client_proof: &[u8],
        counterparty_client_id: ClientId,
        client_state: &ClientState,
        consensus_proof: &[u8],
        consensus_height: Height,
        own: &ConsensusState,
    ) -> (r: Result<(), ConnectionError>)
        ensures
            r == handshake_proofs(
                self@,
                client_id,
                prefix,
                proof_height,
                connection_proof@,
                counterparty_connection_id,
                *expected,
                client_proof@,
                counterparty_client_id,
                *client_state,
                consensus_proof@,
                consensus_height,
                *own,
            ),
    {
        if let Err(e) = self.verify_connection_state(
            client_id,
            prefix,
            proof_height,
            connection_proof,
            counterparty_connection_id,
            expected,
        ) {
            return Err(map_connection_proof_error(e, client_id));
        }
        if let Err(e) = self.verify_client_state(
            client_id,
            prefix,
            proof_height,
            client_proof,
            counterparty_client_id,
            client_state,
        ) {
            return Err(
                match e {
                    ClientError::ClientFrozen { .. } => ConnectionError::FrozenClient { client_id },
                    ClientError::InvalidProof(source) => {
                        ConnectionError::ClientStateVerificationFailure {
                            client_id: counterparty_client_id,
                            source,
                        }
                    },
                    _ => ConnectionError::Ics02Client(e),
                },
            );
        }
        if let Err(e) = self.verify_consensus_state(
            client_id,
            prefix,
            proof_height,
            consensus_proof,
            counterparty_client_id,
            consensus_height,
            own,
        ) {
            return Err(
                match e {
                    ClientError::ClientFrozen { .. } => ConnectionError::FrozenClient { client_id },
                    ClientError::InvalidProof(source) => {
                        ConnectionError::ConsensusStateVerificationFailure {
                            height: consensus_height,
                            source,
                        }
                    },
                    _ => ConnectionError::Ics02Client(e),
                },
            );
        }
        Ok(())
    }

    /// First step, on the initiating chain: creates a connection end in
    /// `Init` under the identifier that the message names.
    pub fn conn_open_init(&mut self, msg: &MsgConnectionOpenInit) -> (r: Result<
        IbcEvent,
        ConnectionError,
    >)
        ensures
            outcome(r, old(self)@, final(self)@, conn_open_init_result(old(self)@, *msg)),
    {
        if self.query_connection_end(msg.connection_id).is_some() {
            return Err(
                ConnectionError::ConnectionExistsAlready { connection_id: msg.connection_id },
            );
        }
        if let Err(e) = self.usable_client_state(msg.client_id) {
            return Err(e);
        }
        let supported = Version::default_version();
        let version = match msg.version {
            Some(v) => match pick_version(&supported, &v) {
                Ok(version) => version,
                Err(e) => {
                    return Err(e);
                },
            },
            None => supported,
        };
        self.put_connection(
            msg.connection_id,
            ConnectionEnd {
                state: ConnectionState::Init,
                client_id: msg.client_id,
                counterparty: msg.counterparty,
                version,
                delay_period: msg.delay_period,
            },
        );
        Ok(
            IbcEvent::OpenInitConnection {
                connection_id: msg.connection_id,
                client_id: msg.client_id,
            },
        )
    }

    /// Second step, on the other chain: checks that the initiating chain
    /// stores the `Init` end and knows this chain, and creates a connection
    /// end in `TryOpen`.
    pub fn conn_open_try(&mut self, msg: &MsgConnectionOpenTry) -> (r: Result<
        IbcEvent,
        ConnectionError,
    >)
        ensures
            outcome(r, old(self)@, final(self)@, conn_open_try_result(old(self)@, *msg)),
    {
        if self.query_connection_end(msg.connection_id).is_some() {
            return Err(
                ConnectionError::ConnectionExistsAlready { connection_id: msg.connection_id },
            );
        }
        let proof_height = match msg.proof_height {
            Some(h) => h,
            None => {
                return Err(ConnectionError::MissingProofHeight);
            },
        };
        let consensus_height = match msg.consensus_height {
            Some(h) => h,
            None => {
                return Err(ConnectionError::MissingConsensusHeight);
            },
        };
        let client_proof = match &msg.client_proof {
            Some(p) => p,
            None => {
                return Err(ConnectionError::NullClientProof);
            },
        };
        let counterparty_connection_id = match msg.counterparty.connection_id {
            Some(id) => id,
            None => {
                return Err(ConnectionError::MissingCounterparty);
            },
        };
        if msg.client_state.chain_id != self.chain_id() {
            return Err(
                ConnectionError::ConnectionMismatch { connection_id: counterparty_connection_id },
            );
        }
        if let Err(e) = self.usable_client_state(msg.client_id) {
            return Err(e);
        }
        let own = match self.own_consensus(consensus_height) {
            Ok(cs) => cs,
            Err(e) => {
                return Err(e);
            },
        };
        let supported = Version::default_version();
        let version = match pick_version(&supported, &msg.counterparty_version) {
            Ok(version) => version,
            Err(e) => {
                return Err(e);
            },
        };
        let expected = ConnectionEnd {
            state: ConnectionState::Init,
            client_id: msg.counterparty.client_id,
            counterparty: Counterparty {
                client_id: msg.client_id,
                connection_id: None,
                prefix: self.prefix(),
            },
            version: msg.counterparty_version,
            delay_period: msg.delay_period,
        };
        if let Err(e) = self.check_handshake_proofs(
            msg.client_id,
            msg.counterparty.prefix,
            proof_height,
            msg.connection_proof.as_slice(),
            counterparty_connection_id,
            &expected,
            client_proof.as_slice(),
            msg.counterparty.client_id,
            &msg.client_state,
            msg.consensus_proof.as_slice(),
            consensus_height,
            &own,
        ) {
            return Err(e);
        }
        self.put_connection(
            msg.connection_id,
            ConnectionEnd {
                state: ConnectionState::TryOpen,
                client_id: msg.client_id,
                counterparty: msg.counterparty,
                version,
                delay_period: msg.delay_period,
            },
        );
        Ok(
            IbcEvent::OpenTryConnection {
                connection_id: msg.connection_id,
                client_id: msg.client_id,
            },
        )
    }

    /// Third step, on the initiating chain: checks that the other chain
    /// stores the `TryOpen` end, and opens the local end.
    pub fn conn_open_ack(&mut self, msg: &MsgConnectionOpenAck) -> (r: Result<
        IbcEvent,
        ConnectionError,
    >)
        ensures
            outcome(r, old(self)@, final(self)@, conn_open_ack_result(old(self)@, *msg)),
    {
        let local = match self.query_connection_end(msg.connection_id) {
            Some(end) => end,
            None => {
                return Err(
                    ConnectionError::ConnectionNotFound { connection_id: msg.connection_id },
                );
            },
        };
        match local.state {
            ConnectionState::Open => {
                return Err(
                    ConnectionError::ConnectionExistsAlready { connection_id: msg.connection_id },
                );
            },
            ConnectionState::TryOpen => {
                return Err(
                    ConnectionError::ConnectionMismatch { connection_id: msg.connection_id },
                );
            },
            ConnectionState::Init => {},
        }
        if let Some(known) = local.counterparty.connection_id {
            if known != msg.counterparty_connection_id {
                return Err(
                    ConnectionError::ConnectionIdMismatch {
                        connection_id: known,
                        counterparty_connection_id: msg.counterparty_connection_id,
                    },
                );
            }
        }
        let proof_height = match msg.proof_height {
            Some(h) => h,
            None => {
                return Err(ConnectionError::MissingProofHeight);
            },
        };
        let consensus_height = match msg.consensus_height {
            Some(h) => h,
            None => {
                return Err(ConnectionError::MissingConsensusHeight);
            },
        };
        let client_proof = match &msg.client_proof {
            Some(p) => p,
            None => {
                return Err(ConnectionError::NullClientProof);
            },
        };
        if msg.client_state.chain_id != self.chain_id() {
            return Err(
                ConnectionError::ConnectionMismatch {
                    connection_id: msg.counterparty_connection_id,
                },
            );
        }
        if let Err(e) = self.usable_client_state(local.client_id) {
            return Err(e);
        }
        let own = match self.own_consensus(consensus_height) {
            Ok(cs) => cs,
            Err(e) => {
                return Err(e);
            },
        };
        if !is_acceptable(&local.version, &msg.version) {
            return Err(ConnectionError::NoCommonVersion);
        }
        let expected = ConnectionEnd {
            state: ConnectionState::TryOpen,
            client_id: local.counterparty.client_id,
            counterparty: Counterparty {
                client_id: local.client_id,
                connection_id: Some(msg.connection_id),
                prefix: self.prefix(),
            },
            version: msg.version,
            delay_period: local.delay_period,
        };
        if let Err(e) = self.check_handshake_proofs(
            local.client_id,
            local.counterparty.prefix,
            proof_height,
            msg.connection_proof.as_slice(),
            msg.counterparty_connection_id,
            &expected,
            client_proof.as_slice(),
            local.counterparty.client_id,
            &msg.client_state,
            msg.consensus_proof.as_slice(),
            consensus_height,
            &own,
        ) {
            return Err(e);
        }
        self.put_connection(
            msg.connection_id,
            ConnectionEnd {
                state: ConnectionState::Open,
                client_id: local.client_id,
                counterparty: Counterparty {
                    client_id: local.counterparty.client_id,
                    connection_id: Some(msg.counterparty_connection_id),
                    prefix: local.counterparty.prefix,
                },
                version: msg.version,
                delay_period: local.delay_period,
            },
        );
        Ok(
            IbcEvent::OpenAckConnection {
                connection_id: msg.connection_id,
                client_id: local.client_id,
            },
        )
    }

    /// Fourth step, on the other chain: checks that the initiating chain
    /// opened its end, and opens the local end.
    pub fn conn_open_confirm(&mut self, msg: &MsgConnectionOpenConfirm) -> (r: Result<
        IbcEvent,
        ConnectionError,
    >)
        ensures
            outcome(r, old(self)@, final(self)@, conn_open_confirm_result(old(self)@, *msg)),
    {
        let local = match self.query_connection_end(msg.connection_id) {
            Some(end) => end,
            None => {
                return Err(
                    ConnectionError::ConnectionNotFound { connection_id: msg.connection_id },
                );
            },
        };
        match local.state {
            ConnectionState::Open => {
                return Err(
                    ConnectionError::ConnectionExistsAlready { connection_id: msg.connection_id },
                );
            },
            ConnectionState::Init => {
                return Err(
                    ConnectionError::ConnectionMismatch { connection_id: msg.connection_id },
                );
            },
            ConnectionState::TryOpen => {},
        }
        let proof_height = match msg.proof_height {
            Some(h) => h,
            None => {
                return Err(ConnectionError::MissingProofHeight);
            },
        };
        let counterparty_connection_id = match local.counterparty.connection_id {
            Some(id) => id,
            None => {
                return Err(ConnectionError::MissingCounterparty);
            },
        };
        if let Err(e) = self.usable_client_state(local.client_id) {
            return Err(e);
        }
        let expected = ConnectionEnd {
            state: ConnectionState::Open,
            client_id: local.counterparty.client_id,
            counterparty: Counterparty {
                client_id: local.client_id,
                connection_id: Some(msg.connection_id),
                prefix: self.prefix(),
            },
            version: local.version,
            delay_period: local.delay_period,
        };
        if let Err(e) = self.verify_connection_state(
            local.client_id,
            local.counterparty.prefix,
            proof_height,
            msg.connection_proof.as_slice(),
            counterparty_connection_id,
            &expected,
        ) {
            return Err(map_connection_proof_error(e, local.client_id));
        }
        self.put_connection(
            msg.connection_id,
            ConnectionEnd {
                state: ConnectionState::Open,
                client_id: local.client_id,
                counterparty: local.counterparty,
                version: local.version,
                delay_period: local.delay_period,
            },
        );
        Ok(
            IbcEvent::OpenConfirmConnection {
                connection_id: msg.connection_id,
                client_id: local.client_id,
            },
        )
    }
}

} // verus!
