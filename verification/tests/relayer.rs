use hyperspace_core::chain::AnyError;
use hyperspace_core::channel::ChannelState;
use hyperspace_core::connection::ConnectionState;
use hyperspace_core::error::{ChannelError, ClientError, ConnectionError, PacketError, ProofError};
use hyperspace_core::height::Height;
use hyperspace_core::ids::{ChannelId, ClientId, ConnectionId, PortId};
use hyperspace_core::plan::{
    any_aims_at, next_channel_step, next_connection_step, Action, ChannelStep, ConnectionStep,
    Observation, Pending, Side,
};
use hyperspace_core::relayer::{
    classify_channel_error, classify_client_error, classify_connection_error,
    classify_packet_error, classify_transport_error, ActionKey, ActionKind, Disposition, KeySet,
    Relayer,
};

const CONN: ConnectionId = ConnectionId { index: 2 };
const CHAN: ChannelId = ChannelId { index: 5 };

fn recv_key(sequence: u64) -> ActionKey {
    ActionKey::Packet { channel_id: CHAN, sequence, kind: ActionKind::Recv }
}

#[test]
fn key_set_holds_each_key_once() {
    let mut s = KeySet::new();
    assert!(!s.contains(recv_key(1)));
    assert!(s.insert(recv_key(1)));
    assert!(!s.insert(recv_key(1)));
    assert!(s.insert(recv_key(2)));
    assert!(s.contains(recv_key(1)));
    assert!(s.contains(recv_key(2)));
    assert!(!s.contains(ActionKey::Packet { channel_id: CHAN, sequence: 1, kind: ActionKind::Ack }));
    assert!(s.remove(recv_key(1)));
    assert!(!s.remove(recv_key(1)));
    assert!(!s.contains(recv_key(1)));
    assert!(s.contains(recv_key(2)));
}

#[test]
fn nothing_is_in_flight_twice() {
    let mut r = Relayer::new();
    let key = ActionKey::Connection { connection_id: CONN };
    assert!(!r.is_in_flight(key));
    assert!(r.begin(key));
    assert!(r.is_in_flight(key));
    assert!(!r.begin(key));
    assert!(r.begin(ActionKey::Channel { channel_id: CHAN }));
    r.settle(key, None);
    assert!(!r.is_in_flight(key));
    assert!(r.begin(key));
    r.settle(key, Some(Disposition::Retry));
    assert!(!r.is_halted(key));
    assert!(r.begin(key));
    r.settle(key, Some(Disposition::Fatal));
    assert!(!r.is_halted(key));
    assert!(r.begin(key));
    r.settle(key, Some(Disposition::Halt));
    assert!(r.is_halted(key));
    assert!(!r.is_in_flight(key));
    assert!(!r.begin(key));
    assert!(!r.is_in_flight(key));
    assert!(r.resume(key));
    assert!(!r.resume(key));
    assert!(r.begin(key));
}

#[test]
fn errors_decide_what_becomes_of_an_action() {
    let client_id = ClientId::new(1);
    let h = Height::new(0, 1);
    assert_eq!(
        classify_client_error(&ClientError::ClientFrozen { client_id, frozen_height: h }),
        Disposition::Halt
    );
    assert_eq!(
        classify_client_error(&ClientError::InvalidProof(ProofError::VerificationFailed)),
        Disposition::Retry
    );
    for e in [
        ConnectionError::MissingProofHeight,
        ConnectionError::MissingConsensusHeight,
        ConnectionError::MissingCounterparty,
        ConnectionError::NullClientProof,
        ConnectionError::EmptyFeatures,
    ] {
        assert_eq!(classify_connection_error(&e), Disposition::Fatal);
    }
    for e in [
        ConnectionError::FrozenClient { client_id },
        ConnectionError::NoCommonVersion,
        ConnectionError::Ics02Client(ClientError::ClientFrozen { client_id, frozen_height: h }),
    ] {
        assert_eq!(classify_connection_error(&e), Disposition::Halt);
    }
    for e in [
        ConnectionError::ConnectionVerificationFailure,
        ConnectionError::InvalidProof(ProofError::Malformed { length: 1 }),
        ConnectionError::ConnectionExistsAlready { connection_id: CONN },
        ConnectionError::ConsensusStateVerificationFailure {
            height: h,
            source: ProofError::VerificationFailed,
        },
        ConnectionError::StaleConsensusHeight { target_height: h, oldest_height: h },
        ConnectionError::Ics02Client(ClientError::ClientNotFound { client_id }),
    ] {
        assert_eq!(classify_connection_error(&e), Disposition::Retry);
    }
    assert_eq!(classify_channel_error(&ChannelError::MissingProofHeight), Disposition::Fatal);
    assert_eq!(classify_channel_error(&ChannelError::MissingCounterparty), Disposition::Fatal);
    assert_eq!(
        classify_channel_error(&ChannelError::OrderingMismatch {
            ordered: true,
            counterparty_ordered: false
        }),
        Disposition::Fatal
    );
    assert_eq!(
        classify_channel_error(&ChannelError::OrderingNotSupported { ordered: true }),
        Disposition::Fatal
    );
    assert_eq!(classify_channel_error(&ChannelError::FrozenClient { client_id }), Disposition::Halt);
    assert_eq!(
        classify_channel_error(&ChannelError::Connection(ConnectionError::NoCommonVersion)),
        Disposition::Halt
    );
    assert_eq!(
        classify_channel_error(&ChannelError::Client(ClientError::ClientNotFound { client_id })),
        Disposition::Retry
    );
    assert_eq!(classify_channel_error(&ChannelError::ChannelVerificationFailure), Disposition::Retry);
    assert_eq!(
        classify_channel_error(&ChannelError::ConnectionNotOpen { connection_id: CONN }),
        Disposition::Retry
    );
    assert_eq!(
        classify_packet_error(&PacketError::InvalidSequence { sequence: 0 }),
        Disposition::Fatal
    );
    assert_eq!(classify_packet_error(&PacketError::MissingTimeout), Disposition::Fatal);
    assert_eq!(
        classify_packet_error(&PacketError::Channel(ChannelError::FrozenClient { client_id })),
        Disposition::Halt
    );
    assert_eq!(
        classify_packet_error(&PacketError::PacketVerificationFailure { sequence: 1 }),
        Disposition::Retry
    );
    assert_eq!(
        classify_packet_error(&PacketError::Channel(ChannelError::ChannelClosed {
            port_id: PortId::new(1),
            channel_id: CHAN
        })),
        Disposition::Retry
    );
    assert_eq!(
        classify_transport_error(&AnyError::Other("timed out".to_string())),
        Disposition::Retry
    );
    assert_eq!(
        classify_transport_error(&AnyError::Parachain("rpc".to_string())),
        Disposition::Retry
    );
}

#[test]
fn connection_steps_follow_the_handshake() {
    assert_eq!(next_connection_step(None, None), None);
    assert_eq!(next_connection_step(Some(ConnectionState::Init), None), Some((Side::B, ConnectionStep::OpenTry)));
    assert_eq!(next_connection_step(None, Some(ConnectionState::Init)), Some((Side::A, ConnectionStep::OpenTry)));
    assert_eq!(
        next_connection_step(Some(ConnectionState::Init), Some(ConnectionState::TryOpen)),
        Some((Side::A, ConnectionStep::OpenAck))
    );
    assert_eq!(
        next_connection_step(Some(ConnectionState::TryOpen), Some(ConnectionState::Init)),
        Some((Side::B, ConnectionStep::OpenAck))
    );
    assert_eq!(
        next_connection_step(Some(ConnectionState::Open), Some(ConnectionState::TryOpen)),
        Some((Side::B, ConnectionStep::OpenConfirm))
    );
    assert_eq!(
        next_connection_step(Some(ConnectionState::TryOpen), Some(ConnectionState::Open)),
        Some((Side::A, ConnectionStep::OpenConfirm))
    );
    assert_eq!(next_connection_step(Some(ConnectionState::Open), Some(ConnectionState::Open)), None);
    assert_eq!(next_connection_step(Some(ConnectionState::Init), Some(ConnectionState::Init)), None);
    assert_eq!(next_connection_step(Some(ConnectionState::TryOpen), Some(ConnectionState::TryOpen)), None);
    assert_eq!(next_connection_step(Some(ConnectionState::Init), Some(ConnectionState::Open)), None);
    assert_eq!(next_connection_step(Some(ConnectionState::Open), None), None);
    assert_eq!(Side::A.other(), Side::B);
    assert_eq!(Side::B.other(), Side::A);
}

#[test]
fn channel_steps_follow_the_handshake() {
    assert_eq!(next_channel_step(None, None), None);
    assert_eq!(next_channel_step(Some(ChannelState::Init), None), Some((Side::B, ChannelStep::OpenTry)));
    assert_eq!(next_channel_step(None, Some(ChannelState::Init)), Some((Side::A, ChannelStep::OpenTry)));
    assert_eq!(next_channel_step(Some(ChannelState::Init), Some(ChannelState::TryOpen)), Some((Side::A, ChannelStep::OpenAck)));
    assert_eq!(next_channel_step(Some(ChannelState::TryOpen), Some(ChannelState::Init)), Some((Side::B, ChannelStep::OpenAck)));
    assert_eq!(
        next_channel_step(Some(ChannelState::Open), Some(ChannelState::TryOpen)),
        Some((Side::B, ChannelStep::OpenConfirm))
    );
    assert_eq!(
        next_channel_step(Some(ChannelState::TryOpen), Some(ChannelState::Open)),
        Some((Side::A, ChannelStep::OpenConfirm))
    );
    assert_eq!(
        next_channel_step(Some(ChannelState::Closed), Some(ChannelState::Open)),
        Some((Side::B, ChannelStep::CloseConfirm))
    );
    assert_eq!(
        next_channel_step(Some(ChannelState::Open), Some(ChannelState::Closed)),
        Some((Side::A, ChannelStep::CloseConfirm))
    );
    assert_eq!(next_channel_step(Some(ChannelState::Open), Some(ChannelState::Open)), None);
    assert_eq!(next_channel_step(Some(ChannelState::Closed), Some(ChannelState::Closed)), None);
    assert_eq!(next_channel_step(Some(ChannelState::Closed), Some(ChannelState::Init)), None);
}

fn observation() -> Observation {
    Observation {
        connection_id: CONN,
        connection_a: Some(ConnectionState::Open),
        connection_b: Some(ConnectionState::Open),
        channel_id: CHAN,
        channel_a: Some(ChannelState::Open),
        channel_b: Some(ChannelState::Open),
        height_a: Height::new(0, 100),
        height_b: Height::new(0, 50),
        timestamp_b: 1_000,
        client_a: Height::new(0, 50),
        client_b: Height::new(0, 100),
        pending: Vec::new(),
        acknowledged: Vec::new(),
    }
}

fn pending(sequence: u64, timeout: u64) -> Pending {
    Pending { sequence, timeout_height: Height::new(0, timeout), timeout_timestamp: 0 }
}

#[test]
fn relayer_brings_the_connection_forward_first() {
    let mut r = Relayer::new();
    let mut obs = observation();
    obs.connection_a = Some(ConnectionState::Init);
    obs.connection_b = None;
    obs.channel_a = None;
    obs.channel_b = None;
    obs.pending = vec![pending(1, 0)];
    obs.client_b = Height::new(0, 99);
    let step = Action::Connection { target: Side::B, step: ConnectionStep::OpenTry };
    assert_eq!(
        r.decide(&obs),
        vec![Action::UpdateClient { target: Side::B, height: Height::new(0, 100) }, step]
    );
    assert!(r.is_in_flight(ActionKey::Connection { connection_id: CONN }));
    assert_eq!(r.decide(&obs), vec![]);
    r.settle(ActionKey::Connection { connection_id: CONN }, None);
    obs.connection_b = Some(ConnectionState::TryOpen);
    obs.client_a = Height::new(0, 50);
    assert_eq!(
        r.decide(&obs),
        vec![Action::Connection { target: Side::A, step: ConnectionStep::OpenAck }]
    );
    r.settle(ActionKey::Connection { connection_id: CONN }, Some(Disposition::Halt));
    assert_eq!(r.decide(&obs), vec![]);
    assert!(r.resume(ActionKey::Connection { connection_id: CONN }));
    obs.client_a = Height::new(0, 49);
    assert_eq!(
        r.decide(&obs),
        vec![
            Action::UpdateClient { target: Side::A, height: Height::new(0, 50) },
            Action::Connection { target: Side::A, step: ConnectionStep::OpenAck },
        ]
    );
}

#[test]
fn relayer_opens_the_channel_once_the_connection_is_open() {
    let mut r = Relayer::new();
    let mut obs = observation();
    obs.channel_a = Some(ChannelState::Init);
    obs.channel_b = None;
    assert_eq!(
        r.decide(&obs),
        vec![Action::Channel { target: Side::B, step: ChannelStep::OpenTry }]
    );
    assert!(r.is_in_flight(ActionKey::Channel { channel_id: CHAN }));
    assert!(!r.is_in_flight(ActionKey::Connection { connection_id: CONN }));
    let mut r = Relayer::new();
    obs.connection_b = Some(ConnectionState::Init);
    assert_eq!(r.decide(&obs), vec![]);
    assert_eq!(r.decide_actions(&obs), vec![]);
    assert!(!r.is_in_flight(ActionKey::Channel { channel_id: CHAN }));
    let mut obs = observation();
    obs.channel_b = Some(ChannelState::Closed);
    obs.pending = vec![pending(1, 0)];
    assert_eq!(
        r.decide(&obs),
        vec![Action::Channel { target: Side::A, step: ChannelStep::CloseConfirm }]
    );
    let mut r = Relayer::new();
    obs.channel_a = Some(ChannelState::Closed);
    assert_eq!(r.decide(&obs), vec![]);
}

#[test]
fn relayer_hands_acknowledgements_back() {
    let mut r = Relayer::new();
    let mut obs = observation();
    obs.pending = vec![pending(3, 60)];
    obs.acknowledged = vec![1, 2];
    obs.client_a = Height::new(0, 49);
    let ack_key =
        |sequence| ActionKey::Packet { channel_id: CHAN, sequence, kind: ActionKind::Ack };
    assert!(r.begin(ack_key(2)));
    r.settle(ack_key(2), Some(Disposition::Halt));
    assert_eq!(
        r.decide(&obs),
        vec![
            Action::UpdateClient { target: Side::A, height: Height::new(0, 50) },
            Action::Recv { sequence: 3 },
            Action::Ack { sequence: 1 },
        ]
    );
    assert!(r.is_in_flight(ack_key(1)));
    assert!(r.is_in_flight(recv_key(3)));
    assert!(!r.is_in_flight(ack_key(2)));
    assert!(r.is_halted(ack_key(2)));
    r.settle(ack_key(1), None);
    r.settle(recv_key(3), None);
    assert!(r.resume(ack_key(2)));
    obs.pending = vec![];
    obs.acknowledged = vec![2];
    obs.client_a = Height::new(0, 50);
    assert_eq!(r.decide(&obs), vec![Action::Ack { sequence: 2 }]);
}

#[test]
fn relayer_delivers_or_times_out_pending_packets() {
    let mut r = Relayer::new();
    let mut obs = observation();
    obs.pending = vec![pending(1, 60), pending(2, 50), pending(3, 0), pending(4, 49)];
    obs.pending[2].timeout_timestamp = 1_000;
    obs.client_a = Height::new(0, 40);
    obs.client_b = Height::new(0, 90);
    assert!(r.begin(recv_key(1)));
    let planned = r.decide(&obs);
    assert_eq!(
        planned,
        vec![
            Action::UpdateClient { target: Side::A, height: Height::new(0, 50) },
            Action::Timeout { sequence: 2 },
            Action::Timeout { sequence: 3 },
            Action::Timeout { sequence: 4 },
        ]
    );
    assert!(any_aims_at(&planned, Side::A));
    assert!(!any_aims_at(&planned, Side::B));
    for s in 2..=4 {
        assert!(r.is_in_flight(ActionKey::Packet {
            channel_id: CHAN,
            sequence: s,
            kind: ActionKind::Timeout
        }));
        assert!(!r.is_in_flight(recv_key(s)));
    }
    assert_eq!(r.decide(&obs), vec![]);
    r.settle(recv_key(1), Some(Disposition::Retry));
    assert_eq!(
        r.decide(&obs),
        vec![
            Action::UpdateClient { target: Side::B, height: Height::new(0, 100) },
            Action::Recv { sequence: 1 },
        ]
    );
    let mut r = Relayer::new();
    obs.pending = vec![pending(7, 60), pending(7, 60), pending(8, 60)];
    obs.client_b = Height::new(0, 100);
    assert_eq!(
        r.plan_packets(&obs.pending, CHAN, obs.height_b, obs.timestamp_b),
        vec![Action::Recv { sequence: 7 }, Action::Recv { sequence: 8 }]
    );
    assert_eq!(
        r.plan_acks(&vec![3, 3, 9], CHAN),
        vec![Action::Ack { sequence: 3 }, Action::Ack { sequence: 9 }]
    );
    assert_eq!(r.plan_acks(&vec![9, 4], CHAN), vec![Action::Ack { sequence: 4 }]);
    assert_eq!(Action::Ack { sequence: 1 }.target(), Side::A);
    assert_eq!(
        Action::Ack { sequence: 1 }.key(CONN, CHAN),
        Some(ActionKey::Packet { channel_id: CHAN, sequence: 1, kind: ActionKind::Ack })
    );
    assert_eq!(Action::Recv { sequence: 2 }.key(CONN, CHAN), Some(recv_key(2)));
    assert_eq!(
        Action::Timeout { sequence: 2 }.key(CONN, CHAN),
        Some(ActionKey::Packet { channel_id: CHAN, sequence: 2, kind: ActionKind::Timeout })
    );
    assert_eq!(
        Action::Connection { target: Side::A, step: ConnectionStep::OpenAck }.key(CONN, CHAN),
        Some(ActionKey::Connection { connection_id: CONN })
    );
    assert_eq!(
        Action::Channel { target: Side::B, step: ChannelStep::OpenTry }.key(CONN, CHAN),
        Some(ActionKey::Channel { channel_id: CHAN })
    );
    assert_eq!(
        Action::UpdateClient { target: Side::A, height: Height::new(0, 1) }.key(CONN, CHAN),
        None
    );
    assert!(pending(1, 50).is_timed_out(Height::new(0, 50), 0));
    assert!(!pending(1, 51).is_timed_out(Height::new(0, 50), u64::MAX));
    assert_eq!(Action::Recv { sequence: 1 }.target(), Side::B);
    assert_eq!(Action::Timeout { sequence: 1 }.target(), Side::A);
}
