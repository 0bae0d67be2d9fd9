//! What the relayer does next, from what it observes on the two chains.
//!
//! The two chains are called A and B. The relayer acts on an observation of
//! one connection, one channel over it, and the packets sent from A over
//! that channel which B has not received. It first brings the connection
//! handshake forward, then the channel handshake, then the packets.

use vstd::prelude::*;
use crate::channel::ChannelState;
use crate::connection::ConnectionState;
use crate::height::Height;
use crate::ids::{ChannelId, ConnectionId};
use crate::relayer::{ActionKey, ActionKind, Relayer, RelayerView};

verus! {

/// One of the two chains.
#[derive(Clone, Copy, Debug, PartialEq, Eq, Structural)]
pub enum Side {
    A,
    B,
}

/// A message of the connection handshake that a relayer submits.
#[derive(Clone, Copy, Debug, PartialEq, Eq, Structural)]
pub enum ConnectionStep {
    OpenTry,
    OpenAck,
    OpenConfirm,
}

/// A message of the channel handshake or of closing that a relayer submits.
#[derive(Clone, Copy, Debug, PartialEq, Eq, Structural)]
pub enum ChannelStep {
    OpenTry,
    OpenAck,
    OpenConfirm,
    CloseConfirm,
}

/// A packet sent from A that B has not received.
#[derive(Clone, Copy, Debug, PartialEq, Eq, Structural)]
pub struct Pending {
    pub sequence: u64,
    pub timeout_height: Height,
    pub timeout_timestamp: u64,
}

/// Something to submit, with the chain to submit it to.
#[derive(Clone, Copy, Debug, PartialEq, Eq, Structural)]
#[allow(inconsistent_fields)]
pub enum Action {
    Connection { target: Side, step: ConnectionStep },
    Channel { target: Side, step: ChannelStep },
    /// Deliver the packet to B.
    Recv { sequence: u64 },
    /// Tell A that the packet timed out on B.
    Timeout { sequence: u64 },
    /// Hand B's acknowledgement of the packet to A.
    Ack { sequence: u64 },
    /// Bring the target's light client of the other chain up to `height`.
    UpdateClient { target: Side, height: Height },
}

/// What the relayer saw on the two chains.
#[derive(Debug)]
pub struct Observation {
    /// The connection, by its identifier on A.
    pub connection_id: ConnectionId,
    /// The state of the connection end on A, if there is one.
    pub connection_a: Option<ConnectionState>,
    pub connection_b: Option<ConnectionState>,
    /// The channel, by its identifier on A.
    pub channel_id: ChannelId,
    pub channel_a: Option<ChannelState>,
    pub channel_b: Option<ChannelState>,
    /// The latest height of A.
    pub height_a: Height,
    /// The latest height and time of B.
    pub height_b: Height,
    pub timestamp_b: u64,
    /// The latest height of B that the light client on A has verified.
    pub client_a: Height,
    /// The latest height of A that the light client on B has verified.
    pub client_b: Height,
    /// The packets sent from A that B has not received, in sending order.
    pub pending: Vec<Pending>,
    /// The sequences of the packets sent from A for which B has written an
    /// acknowledgement that A has not taken yet.
    pub acknowledged: Vec<u64>,
}

impl Side {
    pub open spec fn spec_other(self) -> Side {
        match self {
            Side::A => Side::B,
            Side::B => Side::A,
        }
    }

    pub fn other(&self) -> (s: Side)
        ensures
            s == self.spec_other(),
    {
        match self {
            Side::A => Side::B,
            Side::B => Side::A,
        }
    }
}

/// The next message of the connection handshake and the chain it goes to,
/// from the states of the two ends: `OpenTry` to the chain that has no end
/// while the other is in `Init`; `OpenAck` to the chain in `Init` once the
/// other is in `TryOpen`; `OpenConfirm` to the chain in `TryOpen` once the
/// other is `Open`. Nothing otherwise.
pub open spec fn connection_step(a: Option<ConnectionState>, b: Option<ConnectionState>) -> Option<
    (Side, ConnectionStep),
> {
    match (a, b) {
        (Some(ConnectionState::Init), None) => Some((Side::B, ConnectionStep::OpenTry)),
        (None, Some(ConnectionState::Init)) => Some((Side::A, ConnectionStep::OpenTry)),
        (Some(ConnectionState::Init), Some(ConnectionState::TryOpen)) => Some(
            (Side::A, ConnectionStep::OpenAck),
        ),
        (Some(ConnectionState::TryOpen), Some(ConnectionState::Init)) => Some(
            (Side::B, ConnectionStep::OpenAck),
        ),
        (Some(ConnectionState::Open), Some(ConnectionState::TryOpen)) => Some(
            (Side::B, ConnectionStep::OpenConfirm),
        ),
        (Some(ConnectionState::TryOpen), Some(ConnectionState::Open)) => Some(
            (Side::A, ConnectionStep::OpenConfirm),
        ),
        _ => None,
    }
}

/// The next message of the channel handshake and the chain it goes to, as
/// for connections; and `CloseConfirm` to the chain whose end is still
/// `Open` once the other end is `Closed`.
pub open spec fn channel_step(a: Option<ChannelState>, b: Option<ChannelState>) -> Option<
    (Side, ChannelStep),
> {
    match (a, b) {
        (Some(ChannelState::Init), None) => Some((Side::B, ChannelStep::OpenTry)),
        (None, Some(ChannelState::Init)) => Some((Side::A, ChannelStep::OpenTry)),
        (Some(ChannelState::Init), Some(ChannelState::TryOpen)) => Some(
            (Side::A, ChannelStep::OpenAck),
        ),
        (Some(ChannelState::TryOpen), Some(ChannelState::Init)) => Some(
            (Side::B, ChannelStep::OpenAck),
        ),
        (Some(ChannelState::Open), Some(ChannelState::TryOpen)) => Some(
            (Side::B, ChannelStep::OpenConfirm),
        ),
        (Some(ChannelState::TryOpen), Some(ChannelState::Open)) => Some(
            (Side::A, ChannelStep::OpenConfirm),
        ),
        (Some(ChannelState::Closed), Some(ChannelState::Open)) => Some(
            (Side::B, ChannelStep::CloseConfirm),
        ),
        (Some(ChannelState::Open), Some(ChannelState::Closed)) => Some(
            (Side::A, ChannelStep::CloseConfirm),
        ),
        _ => None,
    }
}

pub fn next_connection_step(a: Option<ConnectionState>, b: Option<ConnectionState>) -> (r: Option<
    (Side, ConnectionStep),
>)
    ensures
        r == connection_step(a, b),
{
    match (a, b) {
        (Some(ConnectionState::Init), None) => Some((Side::B, ConnectionStep::OpenTry)),
        (None, Some(ConnectionState::Init)) => Some((Side::A, ConnectionStep::OpenTry)),
        (Some(ConnectionState::Init), Some(ConnectionState::TryOpen)) => Some(
            (Side::A, ConnectionStep::OpenAck),
        ),
        (Some(ConnectionState::TryOpen), Some(ConnectionState::Init)) => Some(
            (Side::B, ConnectionStep::OpenAck),
        ),
        (Some(ConnectionState::Open), Some(ConnectionState::TryOpen)) => Some(
            (Side::B, ConnectionStep::OpenConfirm),
        ),
        (Some(ConnectionState::TryOpen), Some(ConnectionState::Open)) => Some(
            (Side::A, ConnectionStep::OpenConfirm),
        ),
        _ => None,
    }
}

pub fn next_channel_step(a: Option<ChannelState>, b: Option<ChannelState>) -> (r: Option<
    (Side, ChannelStep),
>)
    ensures
        r == channel_step(a, b),
{
    match (a, b) {
        (Some(ChannelState::Init), None) => Some((Side::B, ChannelStep::OpenTry)),
        (None, Some(ChannelState::Init)) => Some((Side::A, ChannelStep::OpenTry)),
        (Some(ChannelState::Init), Some(ChannelState::TryOpen)) => Some(
            (Side::A, ChannelStep::OpenAck),
        ),
        (Some(ChannelState::TryOpen), Some(ChannelState::Init)) => Some(
            (Side::B, ChannelStep::OpenAck),
        ),
        (Some(ChannelState::Open), Some(ChannelState::TryOpen)) => Some(
            (Side::B, ChannelStep::OpenConfirm),
        ),
        (Some(ChannelState::TryOpen), Some(ChannelState::Open)) => Some(
            (Side::A, ChannelStep::OpenConfirm),
        ),
        (Some(ChannelState::Closed), Some(ChannelState::Open)) => Some(
            (Side::B, ChannelStep::CloseConfirm),
        ),
        (Some(ChannelState::Open), Some(ChannelState::Closed)) => Some(
            (Side::A, ChannelStep::CloseConfirm),
        ),
        _ => None,
    }
}

/// The state of the end on one side.
pub open spec fn state_on<S>(side: Side, a: Option<S>, b: Option<S>) -> Option<S> {
    match side {
        Side::A => a,
        Side::B => b,
    }
}

/// A planned connection step goes to a chain whose end is in the state that
/// the step starts from, and only after the other end was seen in the state
/// that the step proves: no `OpenAck` before the other end is in `TryOpen`,
/// no `OpenConfirm` before it is `Open`.
pub proof fn lemma_connection_step_is_due(
    a: Option<ConnectionState>,
    b: Option<ConnectionState>,
)
    ensures
        match connection_step(a, b) {
            Some((target, ConnectionStep::OpenTry)) => state_on(target, a, b).is_none()
                && state_on(target.spec_other(), a, b) == Some(ConnectionState::Init),
            Some((target, ConnectionStep::OpenAck)) => state_on(target, a, b) == Some(
                ConnectionState::Init,
            ) && state_on(target.spec_other(), a, b) == Some(ConnectionState::TryOpen),
            Some((target, ConnectionStep::OpenConfirm)) => state_on(target, a, b) == Some(
                ConnectionState::TryOpen,
            ) && state_on(target.spec_other(), a, b) == Some(ConnectionState::Open),
            None => true,
        },
{
}

/// A planned channel step goes to a chain whose end is in the state that
/// the step starts from, and only after the other end was seen in the state
/// that the step proves.
pub proof fn lemma_channel_step_is_due(a: Option<ChannelState>, b: Option<ChannelState>)
    ensures
        match channel_step(a, b) {
            Some((target, ChannelStep::OpenTry)) => state_on(target, a, b).is_none() && state_on(
                target.spec_other(),
                a,
                b,
            ) == Some(ChannelState::Init),
            Some((target, ChannelStep::OpenAck)) => state_on(target, a, b) == Some(
                ChannelState::Init,
            ) && state_on(target.spec_other(), a, b) == Some(ChannelState::TryOpen),
            Some((target, ChannelStep::OpenConfirm)) => state_on(target, a, b) == Some(
                ChannelState::TryOpen,
            ) && state_on(target.spec_other(), a, b) == Some(ChannelState::Open),
            Some((target, ChannelStep::CloseConfirm)) => state_on(target, a, b) == Some(
                ChannelState::Open,
            ) && state_on(target.spec_other(), a, b) == Some(ChannelState::Closed),
            None => true,
        },
{
}

impl Pending {
    /// Whether the packet can no longer be received by B.
    pub open spec fn timed_out(self, height_b: Height, timestamp_b: u64) -> bool {
        (!self.timeout_height.spec_is_zero() && self.timeout_height.spec_le(height_b)) || (
        self.timeout_timestamp != 0 && self.timeout_timestamp <= timestamp_b)
    }

    /// What to do about the packet: a timeout if B is past its timeout, a
    /// delivery otherwise.
    pub open spec fn action(self, height_b: Height, timestamp_b: u64) -> Action {
        if self.timed_out(height_b, timestamp_b) {
            Action::Timeout { sequence: self.sequence }
        } else {
            Action::Recv { sequence: self.sequence }
        }
    }

    /// The key under which the action about the packet is in flight.
    pub open spec fn key(self, channel_id: ChannelId, height_b: Height, timestamp_b: u64) -> ActionKey {
        ActionKey::Packet {
            channel_id,
            sequence: self.sequence,
            kind: if self.timed_out(height_b, timestamp_b) {
                ActionKind::Timeout
            } else {
                ActionKind::Recv
            },
        }
    }

    pub fn is_timed_out(&self, height_b: Height, timestamp_b: u64) -> (r: bool)
        ensures
            r == self.timed_out(height_b, timestamp_b),
    {
        (!self.timeout_height.is_zero() && self.timeout_height.le(&height_b)) || (
        self.timeout_timestamp != 0 && self.timeout_timestamp <= timestamp_b)
    }
}

/// Whether a key may be submitted: it is neither in flight nor halted.
pub open spec fn free(relayer: RelayerView, key: ActionKey) -> bool {
    !relayer.in_flight.contains(key) && !relayer.halted.contains(key)
}

/// The packet actions for a list of pending packets, taken in order: each
/// packet whose key is free gets its action, and the key is then in flight.
pub open spec fn packets_planned(
    relayer: RelayerView,
    pending: Seq<Pending>,
    channel_id: ChannelId,
    height_b: Height,
    timestamp_b: u64,
) -> (RelayerView, Seq<Action>)
    decreases pending.len(),
{
    if pending.len() == 0 {
        (relayer, Seq::empty())
    } else {
        let (before, actions) = packets_planned(
            relayer,
            pending.drop_last(),
            channel_id,
            height_b,
            timestamp_b,
        );
        let p = pending.last();
        let key = p.key(channel_id, height_b, timestamp_b);
        if free(before, key) {
            (
                RelayerView { in_flight: before.in_flight.insert(key), ..before },
                actions.push(p.action(height_b, timestamp_b)),
            )
        } else {
            (before, actions)
        }
    }
}

/// The acknowledgement actions for a list of sequences, taken in order:
/// each sequence whose key is free gets its action, and the key is then
/// in flight.
pub open spec fn acks_planned(relayer: RelayerView, acknowledged: Seq<u64>, channel_id: ChannelId) -> (
    RelayerView,
    Seq<Action>,
)
    decreases acknowledged.len(),
{
    if acknowledged.len() == 0 {
        (relayer, Seq::empty())
    } else {
        let (before, actions) = acks_planned(relayer, acknowledged.drop_last(), channel_id);
        let sequence = acknowledged.last();
        let key = ActionKey::Packet { channel_id, sequence, kind: ActionKind::Ack };
        if free(before, key) {
            (
                RelayerView { in_flight: before.in_flight.insert(key), ..before },
                actions.push(Action::Ack { sequence }),
            )
        } else {
            (before, actions)
        }
    }
}

/// The single action of a handshake step, if its key is free.
pub open spec fn step_planned(relayer: RelayerView, key: ActionKey, action: Action) -> (
    RelayerView,
    Seq<Action>,
) {
    if free(relayer, key) {
        (RelayerView { in_flight: relayer.in_flight.insert(key), ..relayer }, seq![action])
    } else {
        (relayer, Seq::empty())
    }
}

impl Action {
    /// The chain that an action is submitted to.
    pub open spec fn spec_target(self) -> Side {
        match self {
            Action::Connection { target, .. } => target,
            Action::Channel { target, .. } => target,
            Action::Recv { .. } => Side::B,
            Action::Timeout { .. } => Side::A,
            Action::Ack { .. } => Side::A,
            Action::UpdateClient { target, .. } => target,
        }
    }

    /// The key under which an action is in flight. A client update has
    /// none: it goes with the actions that need it.
    pub open spec fn spec_key(self, connection_id: ConnectionId, channel_id: ChannelId) -> Option<
        ActionKey,
    > {
        match self {
            Action::Connection { .. } => Some(ActionKey::Connection { connection_id }),
            Action::Channel { .. } => Some(ActionKey::Channel { channel_id }),
            Action::Recv { sequence } => Some(
                ActionKey::Packet { channel_id, sequence, kind: ActionKind::Recv },
            ),
            Action::Timeout { sequence } => Some(
                ActionKey::Packet { channel_id, sequence, kind: ActionKind::Timeout },
            ),
            Action::Ack { sequence } => Some(
                ActionKey::Packet { channel_id, sequence, kind: ActionKind::Ack },
            ),
            Action::UpdateClient { .. } => None,
        }
    }

    pub fn key(&self, connection_id: ConnectionId, channel_id: ChannelId) -> (k: Option<ActionKey>)
        ensures
            k == self.spec_key(connection_id, channel_id),
    {
        match self {
            Action::Connection { .. } => Some(ActionKey::Connection { connection_id }),
            Action::Channel { .. } => Some(ActionKey::Channel { channel_id }),
            Action::Recv { sequence } => Some(
                ActionKey::Packet { channel_id, sequence: *sequence, kind: ActionKind::Recv },
            ),
            Action::Timeout { sequence } => Some(
                ActionKey::Packet { channel_id, sequence: *sequence, kind: ActionKind::Timeout },
            ),
            Action::Ack { sequence } => Some(
                ActionKey::Packet { channel_id, sequence: *sequence, kind: ActionKind::Ack },
            ),
            Action::UpdateClient { .. } => None,
        }
    }

    pub fn target(&self) -> (s: Side)
        ensures
            s == self.spec_target(),
    {
        match self {
            Action::Connection { target, .. } => *target,
            Action::Channel { target, .. } => *target,
            Action::Recv { .. } => Side::B,
            Action::Timeout { .. } => Side::A,
            Action::Ack { .. } => Side::A,
            Action::UpdateClient { target, .. } => *target,
        }
    }
}

/// Whether one of the actions goes to the given chain.
pub open spec fn aims_at(actions: Seq<Action>, side: Side) -> bool {
    exists|i: int| 0 <= i < actions.len() && (#[trigger] actions[i]).spec_target() == side
}

/// The client updates that must go before some actions: every action
/// carries a proof from the other chain, so the light client on its target
/// must have verified the other chain's latest height. One update for A if
/// an action goes to A and A's client is behind B, and likewise for B.
pub open spec fn updates_for(obs: Observation, actions: Seq<Action>) -> Seq<Action> {
    (if aims_at(actions, Side::A) && obs.client_a.spec_lt(obs.height_b) {
        seq![Action::UpdateClient { target: Side::A, height: obs.height_b }]
    } else {
        Seq::empty()
    }) + (if aims_at(actions, Side::B) && obs.client_b.spec_lt(obs.height_a) {
        seq![Action::UpdateClient { target: Side::B, height: obs.height_a }]
    } else {
        Seq::empty()
    })
}

/// Whether one of the actions goes to the given chain.
pub fn any_aims_at(actions: &Vec<Action>, side: Side) -> (r: bool)
    ensures
        r == aims_at(actions@, side),
{
    let mut i: usize = 0;
    while i < actions.len()
        invariant
            i <= actions.len(),
            forall|j: int| 0 <= j < i ==> (#[trigger] actions@[j]).spec_target() != side,
        decreases actions.len() - i,
    {
        if actions[i].target() == side {
            return true;
        }
        i += 1;
    }
    false
}

/// What the relayer decides on an observation: the connection's next step
/// if it has one; else, with both connection ends open, the channel's next
/// step if it has one; else, with both channel ends open, the actions for
/// the pending packets and then for the acknowledgements. Actions whose key
/// is in flight or halted are left out.
pub open spec fn decided(relayer: RelayerView, obs: Observation) -> (RelayerView, Seq<Action>) {
    match connection_step(obs.connection_a, obs.connection_b) {
        Some((target, step)) => step_planned(
            relayer,
            ActionKey::Connection { connection_id: obs.connection_id },
            Action::Connection { target, step },
        ),
        None => if obs.connection_a != Some(ConnectionState::Open) || obs.connection_b != Some(
            ConnectionState::Open,
        ) {
            (relayer, Seq::empty())
        } else {
            match channel_step(obs.channel_a, obs.channel_b) {
                Some((target, step)) => step_planned(
                    relayer,
                    ActionKey::Channel { channel_id: obs.channel_id },
                    Action::Channel { target, step },
                ),
                None => if obs.channel_a != Some(ChannelState::Open) || obs.channel_b != Some(
                    ChannelState::Open,
                ) {
                    (relayer, Seq::empty())
                } else {
                    let (busy, deliveries) = packets_planned(
                        relayer,
                        obs.pending@,
                        obs.channel_id,
                        obs.height_b,
                        obs.timestamp_b,
                    );
                    let (after, acks) = acks_planned(busy, obs.acknowledged@, obs.channel_id);
                    (after, deliveries + acks)
                },
            }
        },
    }
}

fn is_open_connection(s: Option<ConnectionState>) -> (r: bool)
    ensures
        r == (s == Some(ConnectionState::Open)),
{
    match s {
        Some(ConnectionState::Open) => true,
        _ => false,
    }
}

fn is_open_channel(s: Option<ChannelState>) -> (r: bool)
    ensures
        r == (s == Some(ChannelState::Open)),
{
    match s {
        Some(ChannelState::Open) => true,
        _ => false,
    }
}

impl Relayer {
    fn plan_step(&mut self, key: ActionKey, action: Action) -> (actions: Vec<Action>)
        ensures
            (final(self)@, actions@) == step_planned(old(self)@, key, action),
    {
        let mut actions: Vec<Action> = Vec::new();
        if self.begin(key) {
            actions.push(action);
            assert(actions@ =~= seq![action]);
        }
        actions
    }

    /// Plans the actions for the packets sent from A that B has not
    /// received, and marks them as in flight.
    pub fn plan_packets(
        &mut self,
        pending: &Vec<Pending>,
        channel_id: ChannelId,
        height_b: Height,
        timestamp_b: u64,
    ) -> (actions: Vec<Action>)
        ensures
            (final(self)@, actions@) == packets_planned(
                old(self)@,
                pending@,
                channel_id,
                height_b,
                timestamp_b,
            ),
    {
        let mut actions: Vec<Action> = Vec::new();
        let mut i: usize = 0;
        assert(pending@.take(0) =~= Seq::<Pending>::empty());
        while i < pending.len()
            invariant
                i <= pending.len(),
                (self@, actions@) == packets_planned(
                    old(self)@,
                    pending@.take(i as int),
                    channel_id,
                    height_b,
                    timestamp_b,
                ),
            decreases pending.len() - i,
        {
            let p = pending[i];
            assert(pending@.take(i + 1).drop_last() =~= pending@.take(i as int));
            assert(pending@.take(i + 1).last() == p);
            let timed_out = p.is_timed_out(height_b, timestamp_b);
            let key = ActionKey::Packet {
                channel_id,
                sequence: p.sequence,
                kind: if timed_out {
                    ActionKind::Timeout
                } else {
                    ActionKind::Recv
                },
            };
            if self.begin(key) {
                if timed_out {
                    actions.push(Action::Timeout { sequence: p.sequence });
                } else {
                    actions.push(Action::Recv { sequence: p.sequence });
                }
            }
            i += 1;
        }
        assert(pending@.take(pending.len() as int) =~= pending@);
        actions
    }

    /// Decides what to submit on an observation of the two chains, and marks
    /// it as in flight: first the client updates that the actions need, then
    /// the actions.
    pub fn decide(&mut self, obs: &Observation) -> (submit: Vec<Action>)
        ensures
            final(self)@ == decided(old(self)@, *obs).0,
            submit@ == updates_for(*obs, decided(old(self)@, *obs).1) + decided(
                old(self)@,
                *obs,
            ).1,
    {
        let actions = self.decide_actions(obs);
        let mut submit: Vec<Action> = Vec::new();
        if any_aims_at(&actions, Side::A) && obs.client_a.lt(&obs.height_b) {
            submit.push(Action::UpdateClient { target: Side::A, height: obs.height_b });
        }
        if any_aims_at(&actions, Side::B) && obs.client_b.lt(&obs.height_a) {
            submit.push(Action::UpdateClient { target: Side::B, height: obs.height_a });
        }
        assert(submit@ =~= updates_for(*obs, actions@));
        let ghost updates = submit@;
        let mut i: usize = 0;
        while i < actions.len()
            invariant
                i <= actions.len(),
                submit@ == updates + actions@.take(i as int),
            decreases actions.len() - i,
        {
            submit.push(actions[i]);
            assert(submit@ =~= updates + actions@.take(i + 1));
            i += 1;
        }
        assert(actions@.take(actions.len() as int) =~= actions@);
        submit
    }

    /// Decides on the actions for an observation, without the client
    /// updates that they need, and marks them as in flight.
    pub fn decide_actions(&mut self, obs: &Observation) -> (actions: Vec<Action>)
        ensures
            (final(self)@, actions@) == decided(old(self)@, *obs),
    {
        if let Some((target, step)) = next_connection_step(obs.connection_a, obs.connection_b) {
            return self.plan_step(
                ActionKey::Connection { connection_id: obs.connection_id },
                Action::Connection { target, step },
            );
        }
        if !is_open_connection(obs.connection_a) || !is_open_connection(obs.connection_b) {
            return Vec::new();
        }
        if let Some((target, step)) = next_channel_step(obs.channel_a, obs.channel_b) {
            return self.plan_step(
                ActionKey::Channel { channel_id: obs.channel_id },
                Action::Channel { target, step },
            );
        }
        if !is_open_channel(obs.channel_a) || !is_open_channel(obs.channel_b) {
            return Vec::new();
        }
        let mut actions = self.plan_packets(
            &obs.pending,
            obs.channel_id,
            obs.height_b,
            obs.timestamp_b,
        );
        let ghost deliveries = actions@;
        let acks = self.plan_acks(&obs.acknowledged, obs.channel_id);
        let mut i: usize = 0;
        while i < acks.len()
            invariant
                i <= acks.len(),
                actions@ == deliveries + acks@.take(i as int),
            decreases acks.len() - i,
        {
            actions.push(acks[i]);
            assert(actions@ =~= deliveries + acks@.take(i + 1));
            i += 1;
        }
        assert(acks@.take(acks.len() as int) =~= acks@);
        actions
    }

    /// Plans the handing over of acknowledgements to A, and marks them as
    /// in flight.
    pub fn plan_acks(&mut self, acknowledged: &Vec<u64>, channel_id: ChannelId) -> (actions: Vec<
        Action,
    >)
        ensures
            (final(self)@, actions@) == acks_planned(old(self)@, acknowledged@, channel_id),
    {
        let mut actions: Vec<Action> = Vec::new();
        let mut i: usize = 0;
        assert(acknowledged@.take(0) =~= Seq::<u64>::empty());
        while i < acknowledged.len()
            invariant
                i <= acknowledged.len(),
                (self@, actions@) == acks_planned(
                    old(self)@,
                    acknowledged@.take(i as int),
                    channel_id,
                ),
            decreases acknowledged.len() - i,
        {
            let sequence = acknowledged[i];
            assert(acknowledged@.take(i + 1).drop_last() =~= acknowledged@.take(i as int));
            assert(acknowledged@.take(i + 1).last() == sequence);
            if self.begin(ActionKey::Packet { channel_id, sequence, kind: ActionKind::Ack }) {
                actions.push(Action::Ack { sequence });
            }
            i += 1;
        }
        assert(acknowledged@.take(acknowledged.len() as int) =~= acknowledged@);
        actions
    }
}

/// Every action that a decision plans is in flight afterwards under its
/// key, and was free before.
pub proof fn lemma_decided_actions_are_in_flight(relayer: RelayerView, obs: Observation, i: int)
    requires
        0 <= i < decided(relayer, obs).1.len(),
    ensures
        ({
            let (after, actions) = decided(relayer, obs);
            let key = actions[i].spec_key(obs.connection_id, obs.channel_id);
            &&& key.is_some()
            &&& after.in_flight.contains(key.unwrap())
            &&& free(relayer, key.unwrap())
        }),
{
    let (after, actions) = decided(relayer, obs);
    if connection_step(obs.connection_a, obs.connection_b).is_none() && channel_step(
        obs.channel_a,
        obs.channel_b,
    ).is_none() && actions.len() > 0 {
        let (busy, deliveries) = packets_planned(
            relayer,
            obs.pending@,
            obs.channel_id,
            obs.height_b,
            obs.timestamp_b,
        );
        let (last, acks) = acks_planned(busy, obs.acknowledged@, obs.channel_id);
        if i < deliveries.len() {
            lemma_planned_packets_are_in_flight(
                relayer,
                obs.pending@,
                obs.connection_id,
                obs.channel_id,
                obs.height_b,
                obs.timestamp_b,
                i,
            );
            lemma_acks_keep_in_flight(
                busy,
                obs.acknowledged@,
                obs.channel_id,
                deliveries[i].spec_key(obs.connection_id, obs.channel_id).unwrap(),
            );
        } else {
            lemma_planned_acks_are_in_flight(
                busy,
                obs.acknowledged@,
                obs.connection_id,
                obs.channel_id,
                i - deliveries.len(),
            );
            let key = acks[i - deliveries.len()].spec_key(obs.connection_id, obs.channel_id).unwrap();
            lemma_packets_planned_only_free(
                relayer,
                obs.pending@,
                obs.channel_id,
                obs.height_b,
                obs.timestamp_b,
                key,
            );
        }
    }
}

proof fn lemma_planned_packets_are_in_flight(
    relayer: RelayerView,
    pending: Seq<Pending>,
    connection_id: ConnectionId,
    channel_id: ChannelId,
    height_b: Height,
    timestamp_b: u64,
    i: int,
)
    requires
        0 <= i < packets_planned(relayer, pending, channel_id, height_b, timestamp_b).1.len(),
    ensures
        ({
            let (after, actions) = packets_planned(
                relayer,
                pending,
                channel_id,
                height_b,
                timestamp_b,
            );
            let key = actions[i].spec_key(connection_id, channel_id);
            &&& key.is_some()
            &&& after.in_flight.contains(key.unwrap())
            &&& free(relayer, key.unwrap())
        }),
    decreases pending.len(),
{
    if pending.len() > 0 {
        let (before, actions) = packets_planned(
            relayer,
            pending.drop_last(),
            channel_id,
            height_b,
            timestamp_b,
        );
        if i < actions.len() {
            lemma_planned_packets_are_in_flight(
                relayer,
                pending.drop_last(),
                connection_id,
                channel_id,
                height_b,
                timestamp_b,
                i,
            );
        } else {
            lemma_packets_planned_only_free(
                relayer,
                pending.drop_last(),
                channel_id,
                height_b,
                timestamp_b,
                pending.last().key(channel_id, height_b, timestamp_b),
            );
        }
    }
}

proof fn lemma_acks_keep_in_flight(
    relayer: RelayerView,
    acknowledged: Seq<u64>,
    channel_id: ChannelId,
    key: ActionKey,
)
    ensures
        ({
            let after = acks_planned(relayer, acknowledged, channel_id).0;
            &&& after.halted == relayer.halted
            &&& relayer.in_flight.contains(key) ==> after.in_flight.contains(key)
            &&& after.in_flight.contains(key) && !relayer.in_flight.contains(key)
                ==> !relayer.halted.contains(key)
        }),
    decreases acknowledged.len(),
{
    if acknowledged.len() > 0 {
        lemma_acks_keep_in_flight(relayer, acknowledged.drop_last(), channel_id, key);
    }
}

proof fn lemma_planned_acks_are_in_flight(
    relayer: RelayerView,
    acknowledged: Seq<u64>,
    connection_id: ConnectionId,
    channel_id: ChannelId,
    i: int,
)
    requires
        0 <= i < acks_planned(relayer, acknowledged, channel_id).1.len(),
    ensures
        ({
            let (after, actions) = acks_planned(relayer, acknowledged, channel_id);
            let key = actions[i].spec_key(connection_id, channel_id);
            &&& key.is_some()
            &&& after.in_flight.contains(key.unwrap())
            &&& free(relayer, key.unwrap())
        }),
    decreases acknowledged.len(),
{
    if acknowledged.len() > 0 {
        let (before, actions) = acks_planned(relayer, acknowledged.drop_last(), channel_id);
        if i < actions.len() {
            lemma_planned_acks_are_in_flight(
                relayer,
                acknowledged.drop_last(),
                connection_id,
                channel_id,
                i,
            );
        } else {
            lemma_acks_keep_in_flight(
                relayer,
                acknowledged.drop_last(),
                channel_id,
                ActionKey::Packet {
                    channel_id,
                    sequence: acknowledged.last(),
                    kind: ActionKind::Ack,
                },
            );
        }
    }
}

/// Nothing is planned for a key that is in flight or halted: every key
/// that is in flight after a decision and was not before was free before.
pub proof fn lemma_packets_planned_only_free(
    relayer: RelayerView,
    pending: Seq<Pending>,
    channel_id: ChannelId,
    height_b: Height,
    timestamp_b: u64,
    key: ActionKey,
)
    ensures
        ({
            let after = packets_planned(relayer, pending, channel_id, height_b, timestamp_b).0;
            &&& after.halted == relayer.halted
            &&& relayer.in_flight.contains(key) ==> after.in_flight.contains(key)
            &&& after.in_flight.contains(key) && !relayer.in_flight.contains(key)
                ==> !relayer.halted.contains(key)
        }),
    decreases pending.len(),
{
    if pending.len() > 0 {
        lemma_packets_planned_only_free(
            relayer,
            pending.drop_last(),
            channel_id,
            height_b,
            timestamp_b,
            key,
        );
    }
}

} // verus!
