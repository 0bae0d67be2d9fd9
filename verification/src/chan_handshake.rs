//! The channel handshake, and the closing of channels.
//!
//! A channel runs over a connection. Every step first makes sure that this
//! connection is open. The delivery order is fixed when the first end is
//! created, and both ends must have the same. A closed channel stays closed.

use vstd::prelude::*;
use crate::channel::{ChannelCounterparty, ChannelEnd, ChannelState, ChannelView, Order};
use crate::connection::{ConnectionEnd, ConnectionState};
use crate::error::{ChannelError, ClientError, ConnectionError, ProofError};
use crate::events::IbcEvent;
use crate::height::Height;
use crate::host::{Host, HostView};
use crate::ids::{ChannelId, ClientId, ConnectionId, PortId};
use crate::light_client::{outcome, verified};
use crate::path::Path;

verus! {

/// Asks to create a channel end in `Init`.
#[derive(Debug)]
pub struct MsgChannelOpenInit {
    pub port_id: PortId,
    /// The identifier to bind the new end to.
    pub channel_id: ChannelId,
    pub ordering: Order,
    pub connection_id: ConnectionId,
    pub counterparty_port_id: PortId,
    pub version: u64,
}

/// Asks to create a channel end in `TryOpen`, answering an `Init` end on the
/// other chain.
#[derive(Debug)]
pub struct MsgChannelOpenTry {
    pub port_id: PortId,
    /// The identifier to bind the new end to.
    pub channel_id: ChannelId,
    pub ordering: Order,
    /// The delivery order of the other end.
    pub counterparty_ordering: Order,
    pub connection_id: ConnectionId,
    /// The other end; its channel identifier must be given.
    pub counterparty: ChannelCounterparty,
    pub version: u64,
    /// The version that the other end proposed.
    pub counterparty_version: u64,
    pub proof_height: Option<Height>,
    /// Proof of the other end.
    pub channel_proof: Vec<u8>,
}

/// Asks to open an `Init` end, answering a `TryOpen` end on the other chain.
#[derive(Debug)]
pub struct MsgChannelOpenAck {
    pub port_id: PortId,
    pub channel_id: ChannelId,
    pub counterparty_channel_id: ChannelId,
    pub counterparty_version: u64,
    pub proof_height: Option<Height>,
    pub channel_proof: Vec<u8>,
}

/// Asks to open a `TryOpen` end, after the other end was opened.
#[derive(Debug)]
pub struct MsgChannelOpenConfirm {
    pub port_id: PortId,
    pub channel_id: ChannelId,
    pub proof_height: Option<Height>,
    pub channel_proof: Vec<u8>,
}

/// Asks to close an open channel end.
#[derive(Debug)]
pub struct MsgChannelCloseInit {
    pub port_id: PortId,
    pub channel_id: ChannelId,
}

/// Asks to close an open channel end, after the other end was closed.
#[derive(Debug)]
pub struct MsgChannelCloseConfirm {
    pub port_id: PortId,
    pub channel_id: ChannelId,
    pub proof_height: Option<Height>,
    pub channel_proof: Vec<u8>,
}

/// The connection under a channel, which must be open and know its other
/// end.
pub open spec fn open_connection(host: HostView, connection_id: ConnectionId) -> Result<
    ConnectionEnd,
    ChannelError,
> {
    match host.connection(connection_id) {
        None => Err(
            ChannelError::Connection(ConnectionError::ConnectionNotFound { connection_id }),
        ),
        Some(conn) => if conn.state != ConnectionState::Open {
            Err(ChannelError::ConnectionNotOpen { connection_id })
        } else if conn.counterparty.connection_id.is_none() {
            Err(ChannelError::Connection(ConnectionError::MissingCounterparty))
        } else {
            Ok(conn)
        },
    }
}

/// The channel that a message names by port and identifier.
pub open spec fn named_channel(host: HostView, port_id: PortId, channel_id: ChannelId) -> Result<
    ChannelView,
    ChannelError,
> {
    match host.channel_at(port_id, channel_id) {
        Some(c) => Ok(c),
        None => Err(ChannelError::ChannelNotFound { port_id, channel_id }),
    }
}

/// Whether a connection offers a delivery order to its channels.
pub open spec fn offers(conn: ConnectionEnd, ordering: Order) -> bool {
    match ordering {
        Order::Ordered => conn.version.features.ordered,
        Order::Unordered => conn.version.features.unordered,
    }
}

/// The error of a step whose proof of the other channel end was not
/// accepted.
pub open spec fn channel_proof_error(e: ClientError, client_id: ClientId) -> ChannelError {
    match e {
        ClientError::ClientFrozen { .. } => ChannelError::FrozenClient { client_id },
        ClientError::InvalidProof(ProofError::VerificationFailed) => {
            ChannelError::ChannelVerificationFailure
        },
        ClientError::InvalidProof(pe) => ChannelError::InvalidProof(pe),
        _ => ChannelError::Client(e),
    }
}

/// The verdict on a proof that the other chain stores `expected` as the
/// other end of a channel over `conn`.
pub open spec fn channel_proof_checked(
    host: HostView,
    conn: ConnectionEnd,
    proof_height: Height,
    proof: Seq<u8>,
    counterparty_port_id: PortId,
    counterparty_channel_id: ChannelId,
    expected: ChannelEnd,
) -> Result<(), ChannelError> {
    match verified(
        host,
        conn.client_id,
        proof_height,
        proof,
        (Path::Channel {
            port_id: counterparty_port_id,
            channel_id: counterparty_channel_id,
        }).spec_bytes(conn.counterparty.prefix),
        expected.spec_bytes(),
    ) {
        Ok(()) => Ok(()),
        Err(e) => Err(channel_proof_error(e, conn.client_id)),
    }
}

/// What `chan_open_init` gives.
pub open spec fn chan_open_init_result(host: HostView, msg: MsgChannelOpenInit) -> Result<
    (HostView, IbcEvent),
    ChannelError,
> {
    match open_connection(host, msg.connection_id) {
        Err(e) => Err(e),
        Ok(conn) => if host.channels.contains_key(msg.channel_id.index) {
            Err(
                ChannelError::ChannelExistsAlready {
                    port_id: msg.port_id,
                    channel_id: msg.channel_id,
                },
            )
        } else if !offers(conn, msg.ordering) {
            Err(ChannelError::OrderingNotSupported { ordered: msg.ordering.spec_is_ordered() })
        } else {
            Ok(
                (
                    host.with_channel(
                        msg.channel_id,
                        ChannelView::fresh(
                            msg.port_id,
                            ChannelEnd {
                                state: ChannelState::Init,
                                ordering: msg.ordering,
                                counterparty: ChannelCounterparty {
                                    port_id: msg.counterparty_port_id,
                                    channel_id: None,
                                },
                                connection_id: msg.connection_id,
                                version: msg.version,
                            },
                        ),
                    ),
                    IbcEvent::OpenInitChannel {
                        port_id: msg.port_id,
                        channel_id: msg.channel_id,
                        connection_id: msg.connection_id,
                    },
                ),
            )
        },
    }
}

/// What `chan_open_try` gives.
pub open spec fn chan_open_try_result(host: HostView, msg: MsgChannelOpenTry) -> Result<
    (HostView, IbcEvent),
    ChannelError,
> {
    match open_connection(host, msg.connection_id) {
        Err(e) => Err(e),
        Ok(conn) => if host.channels.contains_key(msg.channel_id.index) {
            Err(
                ChannelError::ChannelExistsAlready {
                    port_id: msg.port_id,
                    channel_id: msg.channel_id,
                },
            )
        } else if msg.proof_height.is_none() {
            Err(ChannelError::MissingProofHeight)
        } else if msg.counterparty.channel_id.is_none() {
            Err(ChannelError::MissingCounterparty)
        } else if msg.ordering != msg.counterparty_ordering {
            Err(
                ChannelError::OrderingMismatch {
                    ordered: msg.ordering.spec_is_ordered(),
                    counterparty_ordered: msg.counterparty_ordering.spec_is_ordered(),
                },
            )
        } else if !offers(conn, msg.ordering) {
            Err(ChannelError::OrderingNotSupported { ordered: msg.ordering.spec_is_ordered() })
        } else {
            match channel_proof_checked(
                host,
                conn,
                msg.proof_height.unwrap(),
                msg.channel_proof@,
                msg.counterparty.port_id,
                msg.counterparty.channel_id.unwrap(),
                ChannelEnd {
                    state: ChannelState::Init,
                    ordering: msg.counterparty_ordering,
                    counterparty: ChannelCounterparty { port_id: msg.port_id, channel_id: None },
                    connection_id: conn.counterparty.connection_id.unwrap(),
                    version: msg.counterparty_version,
                },
            ) {
                Err(e) => Err(e),
                Ok(()) => Ok(
                    (
                        host.with_channel(
                            msg.channel_id,
                            ChannelView::fresh(
                                msg.port_id,
                                ChannelEnd {
                                    state: ChannelState::TryOpen,
                                    ordering: msg.ordering,
                                    counterparty: msg.counterparty,
                                    connection_id: msg.connection_id,
                                    version: msg.version,
                                },
                            ),
                        ),
                        IbcEvent::OpenTryChannel {
                            port_id: msg.port_id,
                            channel_id: msg.channel_id,
                            connection_id: msg.connection_id,
                        },
                    ),
                ),
            }
        },
    }
}

/// The channel that a later step names, with its connection, which must be
/// open. The channel must be in the state `wanted`: a closed channel takes
/// no step, an open one is refused as existing already.
pub open spec fn channel_in_state(
    host: HostView,
    port_id: PortId,
    channel_id: ChannelId,
    wanted: ChannelState,
) -> Result<(ChannelView, ConnectionEnd), ChannelError> {
    match named_channel(host, port_id, channel_id) {
        Err(e) => Err(e),
        Ok(ch) => match open_connection(host, ch.end.connection_id) {
            Err(e) => Err(e),
            Ok(conn) => if ch.end.state == wanted {
                Ok((ch, conn))
            } else if ch.end.state == ChannelState::Closed {
                Err(ChannelError::ChannelClosed { port_id, channel_id })
            } else if ch.end.state == ChannelState::Open {
                Err(ChannelError::ChannelExistsAlready { port_id, channel_id })
            } else if wanted == ChannelState::Open {
                Err(ChannelError::ChannelNotOpen { port_id, channel_id })
            } else {
                Err(ChannelError::ChannelMismatch { port_id, channel_id })
            },
        },
    }
}

/// What `chan_open_ack` gives.
pub open spec fn chan_open_ack_result(host: HostView, msg: MsgChannelOpenAck) -> Result<
    (HostView, IbcEvent),
    ChannelError,
> {
    match channel_in_state(host, msg.port_id, msg.channel_id, ChannelState::Init) {
        Err(e) => Err(e),
        Ok((ch, conn)) => if msg.proof_height.is_none() {
            Err(ChannelError::MissingProofHeight)
        } else {
            match channel_proof_checked(
                host,
                conn,
                msg.proof_height.unwrap(),
                msg.channel_proof@,
                ch.end.counterparty.port_id,
                msg.counterparty_channel_id,
                ChannelEnd {
                    state: ChannelState::TryOpen,
                    ordering: ch.end.ordering,
                    counterparty: ChannelCounterparty {
                        port_id: msg.port_id,
                        channel_id: Some(msg.channel_id),
                    },
                    connection_id: conn.counterparty.connection_id.unwrap(),
                    version: msg.counterparty_version,
                },
            ) {
                Err(e) => Err(e),
                Ok(()) => Ok(
                    (
                        host.with_channel(
                            msg.channel_id,
                            ch.with_end(
                                ChannelEnd {
                                    state: ChannelState::Open,
                                    counterparty: ChannelCounterparty {
                                        port_id: ch.end.counterparty.port_id,
                                        channel_id: Some(msg.counterparty_channel_id),
                                    },
                                    version: msg.counterparty_version,
                                    ..ch.end
                                },
                            ),
                        ),
                        IbcEvent::OpenAckChannel {
                            port_id: msg.port_id,
                            channel_id: msg.channel_id,
                            connection_id: ch.end.connection_id,
                        },
                    ),
                ),
            }
        },
    }
}

/// The end that a step expects the other chain to store for a channel whose
/// other end is known: in `state`, with the same order and version, and
/// pointing back at this end.
pub open spec fn expected_other_end(
    ch: ChannelView,
    conn: ConnectionEnd,
    channel_id: ChannelId,
    state: ChannelState,
) -> ChannelEnd {
    ChannelEnd {
        state,
        ordering: ch.end.ordering,
        counterparty: ChannelCounterparty { port_id: ch.port_id, channel_id: Some(channel_id) },
        connection_id: conn.counterparty.connection_id.unwrap(),
        version: ch.end.version,
    }
}

/// What a step gives that checks a proof of the other end in state
/// `proved` and then puts this end from `wanted` into `next`.
pub open spec fn chan_step_result(
    host: HostView,
    port_id: PortId,
    channel_id: ChannelId,
    proof_height: Option<Height>,
    proof: Seq<u8>,
    wanted: ChannelState,
    proved: ChannelState,
    next: ChannelState,
    event: IbcEvent,
) -> Result<(HostView, IbcEvent), ChannelError> {
    match channel_in_state(host, port_id, channel_id, wanted) {
        Err(e) => Err(e),
        Ok((ch, conn)) => if proof_height.is_none() {
            Err(ChannelError::MissingProofHeight)
        } else if ch.end.counterparty.channel_id.is_none() {
            Err(ChannelError::MissingCounterparty)
        } else {
            match channel_proof_checked(
                host,
                conn,
                proof_height.unwrap(),
                proof,
                ch.end.counterparty.port_id,
                ch.end.counterparty.channel_id.unwrap(),
                expected_other_end(ch, conn, channel_id, proved),
            ) {
                Err(e) => Err(e),
                Ok(()) => Ok(
                    (
                        host.with_channel(
                            channel_id,
                            ch.with_end(ChannelEnd { state: next, ..ch.end }),
                        ),
                        event,
                    ),
                ),
            }
        },
    }
}

/// The connection that a channel runs over, if the channel exists.
pub open spec fn connection_of(host: HostView, channel_id: ChannelId) -> ConnectionId {
    host.channels[channel_id.index].end.connection_id
}

/// What `chan_open_confirm` gives.
pub open spec fn chan_open_confirm_result(host: HostView, msg: MsgChannelOpenConfirm) -> Result<
    (HostView, IbcEvent),
    ChannelError,
> {
    chan_step_result(
        host,
        msg.port_id,
        msg.channel_id,
        msg.proof_height,
        msg.channel_proof@,
        ChannelState::TryOpen,
        ChannelState::Open,
        ChannelState::Open,
        IbcEvent::OpenConfirmChannel {
            port_id: msg.port_id,
            channel_id: msg.channel_id,
            connection_id: connection_of(host, msg.channel_id),
        },
    )
}

/// What `chan_close_init` gives.
pub open spec fn chan_close_init_result(host: HostView, msg: MsgChannelCloseInit) -> Result<
    (HostView, IbcEvent),
    ChannelError,
> {
    match channel_in_state(host, msg.port_id, msg.channel_id, ChannelState::Open) {
        Err(e) => Err(e),
        Ok((ch, conn)) => Ok(
            (
                host.with_channel(
                    msg.channel_id,
                    ch.with_end(ChannelEnd { state: ChannelState::Closed, ..ch.end }),
                ),
                IbcEvent::CloseInitChannel {
                    port_id: msg.port_id,
                    channel_id: msg.channel_id,
                    connection_id: ch.end.connection_id,
                },
            ),
        ),
    }
}

/// What `chan_close_confirm` gives.
pub open spec fn chan_close_confirm_result(host: HostView, msg: MsgChannelCloseConfirm) -> Result<
    (HostView, IbcEvent),
    ChannelError,
> {
    chan_step_result(
        host,
        msg.port_id,
        msg.channel_id,
        msg.proof_height,
        msg.channel_proof@,
        ChannelState::Open,
        ChannelState::Closed,
        ChannelState::Closed,
        IbcEvent::CloseConfirmChannel {
            port_id: msg.port_id,
            channel_id: msg.channel_id,
            connection_id: connection_of(host, msg.channel_id),
        },
    )
}

fn ordering_offered(conn: &ConnectionEnd, ordering: Order) -> (r: bool)
    ensures
        r == offers(*conn, ordering),
{
    match ordering {
        Order::Ordered => conn.version.features.ordered,
        Order::Unordered => conn.version.features.unordered,
    }
}

fn same_order(a: Order, b: Order) -> (r: bool)
    ensures
        r == (a == b),
{
    a.is_ordered() == b.is_ordered()
}

impl Host {
    /// Looks up the connection under a channel, which must be open.
    pub fn open_connection_end(&self, connection_id: ConnectionId) -> (r: Result<
        ConnectionEnd,
        ChannelError,
    >)
        ensures
            r == open_connection(self@, connection_id),
    {
        match self.query_connection_end(connection_id) {
            None => Err(
                ChannelError::Connection(ConnectionError::ConnectionNotFound { connection_id }),
            ),
            Some(conn) => match conn.state {
                ConnectionState::Open => if conn.counterparty.connection_id.is_none() {
                    Err(ChannelError::Connection(ConnectionError::MissingCounterparty))
                } else {
                    Ok(conn)
                },
                _ => Err(ChannelError::ConnectionNotOpen { connection_id }),
            },
        }
    }

    fn check_channel_proof(
        &self,
        conn: &ConnectionEnd,
        proof_height: Height,
        proof: &[u8],
        counterparty_port_id: PortId,
        counterparty_channel_id: ChannelId,
        expected: &ChannelEnd,
    ) -> (r: Result<(), ChannelError>)
        ensures
            r == channel_proof_checked(
                self@,
                *conn,
                proof_height,
                proof@,
                counterparty_port_id,
                counterparty_channel_id,
                *expected,
            ),
    {
        match self.verify_channel_state(
            conn.client_id,
            conn.counterparty.prefix,
            proof_height,
            proof,
            counterparty_port_id,
            counterparty_channel_id,
            expected,
        ) {
            Ok(()) => Ok(()),
            Err(e) => Err(
                match e {
                    ClientError::ClientFrozen { .. } => ChannelError::FrozenClient {
                        client_id: conn.client_id,
                    },
                    ClientError::InvalidProof(ProofError::VerificationFailed) => {
                        ChannelError::ChannelVerificationFailure
                    },
                    ClientError::InvalidProof(pe) => ChannelError::InvalidProof(pe),
                    _ => ChannelError::Client(e),
                },
            ),
        }
    }

    /// Looks up the channel end that a step names, with its connection, and
    /// makes sure that the connection is open and the end in the state that
    /// the step starts from.
    pub fn channel_end_in_state(
        &self,
        port_id: PortId,
        channel_id: ChannelId,
        wanted: ChannelState,
    ) -> (r: Result<(ChannelEnd, ConnectionEnd), ChannelError>)
        ensures
            match r {
                Ok((end, conn)) => channel_in_state(self@, port_id, channel_id, wanted).is_ok()
                    && channel_in_state(self@, port_id, channel_id, wanted).unwrap().0.end == end
                    && channel_in_state(self@, port_id, channel_id, wanted).unwrap().1 == conn,
                Err(e) => channel_in_state(self@, port_id, channel_id, wanted) == Err::<
                    (ChannelView, ConnectionEnd),
                    ChannelError,
                >(e),
            },
    {
        let end = match self.query_channel_end(channel_id, port_id) {
            Some(end) => end,
            None => {
                return Err(ChannelError::ChannelNotFound { port_id, channel_id });
            },
        };
        let conn = match self.open_connection_end(end.connection_id) {
            Ok(conn) => conn,
            Err(e) => {
                return Err(e);
            },
        };
        if end.state.to_byte() == wanted.to_byte() {
            return Ok((end, conn));
        }
        match end.state {
            ChannelState::Closed => Err(ChannelError::ChannelClosed { port_id, channel_id }),
            ChannelState::Open => Err(ChannelError::ChannelExistsAlready { port_id, channel_id }),
            _ => match wanted {
                ChannelState::Open => Err(ChannelError::ChannelNotOpen { port_id, channel_id }),
                _ => Err(ChannelError::ChannelMismatch { port_id, channel_id }),
            },
        }
    }

    /// First step, on the initiating chain: creates a channel end in `Init`.
    pub fn chan_open_init(&mut self, msg: &MsgChannelOpenInit) -> (r: Result<
        IbcEvent,
        ChannelError,
    >)
        ensures
            outcome(r, old(self)@, final(self)@, chan_open_init_result(old(self)@, *msg)),
    {
        let conn = match self.open_connection_end(msg.connection_id) {
            Ok(conn) => conn,
            Err(e) => {
                return Err(e);
            },
        };
        if self.has_channel(msg.channel_id) {
            return Err(
                ChannelError::ChannelExistsAlready {
                    port_id: msg.port_id,
                    channel_id: msg.channel_id,
                },
            );
        }
        if !ordering_offered(&conn, msg.ordering) {
            return Err(ChannelError::OrderingNotSupported { ordered: msg.ordering.is_ordered() });
        }
        self.create_channel(
            msg.channel_id,
            msg.port_id,
            ChannelEnd {
                state: ChannelState::Init,
                ordering: msg.ordering,
                counterparty: ChannelCounterparty {
                    port_id: msg.counterparty_port_id,
                    channel_id: None,
                },
                connection_id: msg.connection_id,
                version: msg.version,
            },
        );
        Ok(
            IbcEvent::OpenInitChannel {
                port_id: msg.port_id,
                channel_id: msg.channel_id,
                connection_id: msg.connection_id,
            },
        )
    }

    /// Second step, on the other chain: checks that the initiating chain
    /// stores the `Init` end with the same delivery order, and creates a
    /// channel end in `TryOpen`.
    pub fn chan_open_try(&mut self, msg: &MsgChannelOpenTry) -> (r: Result<IbcEvent, ChannelError>)
        ensures
            outcome(r, old(self)@, final(self)@, chan_open_try_result(old(self)@, *msg)),
    {
        let conn = match self.open_connection_end(msg.connection_id) {
            Ok(conn) => conn,
            Err(e) => {
                return Err(e);
            },
        };
        if self.has_channel(msg.channel_id) {
            return Err(
                ChannelError::ChannelExistsAlready {
                    port_id: msg.port_id,
                    channel_id: msg.channel_id,
                },
            );
        }
        let proof_height = match msg.proof_height {
            Some(h) => h,
            None => {
                return Err(ChannelError::MissingProofHeight);
            },
        };
        let counterparty_channel_id = match msg.counterparty.channel_id {
            Some(id) => id,
            None => {
                return Err(ChannelError::MissingCounterparty);
            },
        };
        if !same_order(msg.ordering, msg.counterparty_ordering) {
            return Err(
                ChannelError::OrderingMismatch {
                    ordered: msg.ordering.is_ordered(),
                    counterparty_ordered: msg.counterparty_ordering.is_ordered(),
                },
            );
        }
        if !ordering_offered(&conn, msg.ordering) {
            return Err(ChannelError::OrderingNotSupported { ordered: msg.ordering.is_ordered() });
        }
        let hop = match conn.counterparty.connection_id {
            Some(id) => id,
            None => {
                return Err(ChannelError::Connection(ConnectionError::MissingCounterparty));
            },
        };
        let expected = ChannelEnd {
            state: ChannelState::Init,
            ordering: msg.counterparty_ordering,
            counterparty: ChannelCounterparty { port_id: msg.port_id, channel_id: None },
            connection_id: hop,
            version: msg.counterparty_version,
        };
        if let Err(e) = self.check_channel_proof(
            &conn,
            proof_height,
            msg.channel_proof.as_slice(),
            msg.counterparty.port_id,
            counterparty_channel_id,
            &expected,
        ) {
            return Err(e);
        }
        self.create_channel(
            msg.channel_id,
            msg.port_id,
            ChannelEnd {
                state: ChannelState::TryOpen,
                ordering: msg.ordering,
                counterparty: msg.counterparty,
                connection_id: msg.connection_id,
                version: msg.version,
            },
        );
        Ok(
            IbcEvent::OpenTryChannel {
                port_id: msg.port_id,
                channel_id: msg.channel_id,
                connection_id: msg.connection_id,
            },
        )
    }

    /// Third step, on the initiating chain: checks that the other chain
    /// stores the `TryOpen` end, and opens the local end.
    pub fn chan_open_ack(&mut self, msg: &MsgChannelOpenAck) -> (r: Result<IbcEvent, ChannelError>)
        ensures
            outcome(r, old(self)@, final(self)@, chan_open_ack_result(old(self)@, *msg)),
    {
        let (end, conn) = match self.channel_end_in_state(
            msg.port_id,
            msg.channel_id,
            ChannelState::Init,
        ) {
            Ok(found) => found,
            Err(e) => {
                return Err(e);
            },
        };
        let proof_height = match msg.proof_height {
            Some(h) => h,
            None => {
                return Err(ChannelError::MissingProofHeight);
            },
        };
        let hop = match conn.counterparty.connection_id {
            Some(id) => id,
            None => {
                return Err(ChannelError::Connection(ConnectionError::MissingCounterparty));
            },
        };
        let expected = ChannelEnd {
            state: ChannelState::TryOpen,
            ordering: end.ordering,
            counterparty: ChannelCounterparty {
                port_id: msg.port_id,
                channel_id: Some(msg.channel_id),
            },
            connection_id: hop,
            version: msg.counterparty_version,
        };
        if let Err(e) = self.check_channel_proof(
            &conn,
            proof_height,
            msg.channel_proof.as_slice(),
            end.counterparty.port_id,
            msg.counterparty_channel_id,
            &expected,
        ) {
            return Err(e);
        }
        self.set_channel_end(
            msg.channel_id,
            ChannelEnd {
                state: ChannelState::Open,
                ordering: end.ordering,
                counterparty: ChannelCounterparty {
                    port_id: end.counterparty.port_id,
                    channel_id: Some(msg.counterparty_channel_id),
                },
                connection_id: end.connection_id,
                version: msg.counterparty_version,
            },
        );
        Ok(
            IbcEvent::OpenAckChannel {
                port_id: msg.port_id,
                channel_id: msg.channel_id,
                connection_id: end.connection_id,
            },
        )
    }

    fn chan_step(
        &mut self,
        port_id: PortId,
        channel_id: ChannelId,
        proof_height: Option<Height>,
        proof: &[u8],
        wanted: ChannelState,
        proved: ChannelState,
        next: ChannelState,
    ) -> (r: Result<ConnectionId, ChannelError>)
        ensures
            match r {
                Ok(connection_id) => connection_id == connection_of(old(self)@, channel_id)
                    && forall|event: IbcEvent|
                    #[trigger] chan_step_result(
                        old(self)@,
                        port_id,
                        channel_id,
                        proof_height,
                        proof@,
                        wanted,
                        proved,
                        next,
                        event,
                    ) == Ok::<(HostView, IbcEvent), ChannelError>((final(self)@, event)),
                Err(e) => final(self)@ == old(self)@ && forall|event: IbcEvent|
                    #[trigger] chan_step_result(
                        old(self)@,
                        port_id,
                        channel_id,
                        proof_height,
                        proof@,
                        wanted,
                        proved,
                        next,
                        event,
                    ) == Err::<(HostView, IbcEvent), ChannelError>(e),
            },
    {
        let (end, conn) = match self.channel_end_in_state(port_id, channel_id, wanted) {
            Ok(found) => found,
            Err(e) => {
                return Err(e);
            },
        };
        let proof_height = match proof_height {
            Some(h) => h,
            None => {
                return Err(ChannelError::MissingProofHeight);
            },
        };
        let counterparty_channel_id = match end.counterparty.channel_id {
            Some(id) => id,
            None => {
                return Err(ChannelError::MissingCounterparty);
            },
        };
        let hop = match conn.counterparty.connection_id {
            Some(id) => id,
            None => {
                return Err(ChannelError::Connection(ConnectionError::MissingCounterparty));
            },
        };
        let expected = ChannelEnd {
            state: proved,
            ordering: end.ordering,
            counterparty: ChannelCounterparty { port_id, channel_id: Some(channel_id) },
            connection_id: hop,
            version: end.version,
        };
        if let Err(e) = self.check_channel_proof(
            &conn,
            proof_height,
            proof,
            end.counterparty.port_id,
            counterparty_channel_id,
            &expected,
        ) {
            return Err(e);
        }
        self.set_channel_end(
            channel_id,
            ChannelEnd {
                state: next,
                ordering: end.ordering,
                counterparty: end.counterparty,
                connection_id: end.connection_id,
                version: end.version,
            },
        );
        Ok(end.connection_id)
    }

    /// Fourth step, on the other chain: checks that the initiating chain
    /// opened its end, and opens the local end.
    pub fn chan_open_confirm(&mut self, msg: &MsgChannelOpenConfirm) -> (r: Result<
        IbcEvent,
        ChannelError,
    >)
        ensures
            outcome(r, old(self)@, final(self)@, chan_open_confirm_result(old(self)@, *msg)),
    {
        match self.chan_step(
            msg.port_id,
            msg.channel_id,
            msg.proof_height,
            msg.channel_proof.as_slice(),
            ChannelState::TryOpen,
            ChannelState::Open,
            ChannelState::Open,
        ) {
            Ok(connection_id) => Ok(
                IbcEvent::OpenConfirmChannel {
                    port_id: msg.port_id,
                    channel_id: msg.channel_id,
                    connection_id,
                },
            ),
            Err(e) => Err(e),
        }
    }

    /// Closes an open channel end.
    pub fn chan_close_init(&mut self, msg: &MsgChannelCloseInit) -> (r: Result<
        IbcEvent,
        ChannelError,
    >)
        ensures
            outcome(r, old(self)@, final(self)@, chan_close_init_result(old(self)@, *msg)),
    {
        let (end, _conn) = match self.channel_end_in_state(
            msg.port_id,
            msg.channel_id,
            ChannelState::Open,
        ) {
            Ok(found) => found,
            Err(e) => {
                return Err(e);
            },
        };
        self.set_channel_end(
            msg.channel_id,
            ChannelEnd {
                state: ChannelState::Closed,
                ordering: end.ordering,
                counterparty: end.counterparty,
                connection_id: end.connection_id,
                version: end.version,
            },
        );
        Ok(
            IbcEvent::CloseInitChannel {
                port_id: msg.port_id,
                channel_id: msg.channel_id,
                connection_id: end.connection_id,
            },
        )
    }

    /// Closes an open channel end after the other end was closed, on a proof
    /// of that.
    pub fn chan_close_confirm(&mut self, msg: &MsgChannelCloseConfirm) -> (r: Result<
        IbcEvent,
        ChannelError,
    >)
        ensures
            outcome(r, old(self)@, final(self)@, chan_close_confirm_result(old(self)@, *msg)),
    {
        match self.chan_step(
            msg.port_id,
            msg.channel_id,
            msg.proof_height,
            msg.channel_proof.as_slice(),
            ChannelState::Open,
            ChannelState::Closed,
            ChannelState::Closed,
        ) {
            Ok(connection_id) => Ok(
                IbcEvent::CloseConfirmChannel {
                    port_id: msg.port_id,
                    channel_id: msg.channel_id,
                    connection_id,
                },
            ),
            Err(e) => Err(e),
        }
    }
}

} // verus!
