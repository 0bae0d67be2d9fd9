//! The relayer's bookkeeping: which actions are in flight, which are halted,
//! and what an error means for the action that met it.
//!
//! The relayer submits an action only after `begin` has said yes, and calls
//! `settle` when the submission has resolved. So no action is in flight
//! twice for the same key, and an action that was halted is not tried again
//! until an operator lets it `resume`.

use vstd::prelude::*;
use crate::chain::AnyError;
use crate::error::{ChannelError, ClientError, ConnectionError, PacketError};
use crate::ids::{ChannelId, ConnectionId};

verus! {

/// The kinds of packet action.
#[derive(Clone, Copy, Debug, PartialEq, Eq, Structural)]
pub enum ActionKind {
    Recv,
    Ack,
    Timeout,
}

/// What an action is about. Two actions with the same key are never in
/// flight at once.
#[derive(Clone, Copy, Debug, PartialEq, Eq, Structural)]
pub enum ActionKey {
    /// A step of the handshake of a connection.
    Connection { connection_id: ConnectionId },
    /// A step of the handshake or of the closing of a channel.
    Channel { channel_id: ChannelId },
    /// A packet action.
    Packet { channel_id: ChannelId, sequence: u64, kind: ActionKind },
}

/// What the relayer does about an action that failed.
#[derive(Clone, Copy, Debug, PartialEq, Eq, Structural)]
pub enum Disposition {
    /// The input was wrong: the failure is reported and the action is not
    /// tried again.
    Fatal,
    /// This attempt is over; the action may be planned again when the next
    /// event arrives.
    Retry,
    /// Nothing more is tried for this key until an operator resolves the
    /// cause.
    Halt,
}

/// A set of action keys.
pub struct KeySet {
    keys: Vec<ActionKey>,
}

impl View for KeySet {
    type V = Set<ActionKey>;

    closed spec fn view(&self) -> Set<ActionKey> {
        Set::new(|k: ActionKey| self.keys@.contains(k))
    }
}

impl KeySet {
    pub fn new() -> (s: KeySet)
        ensures
            s@ == Set::<ActionKey>::empty(),
    {
        let s = KeySet { keys: Vec::new() };
        assert(s@ =~= Set::<ActionKey>::empty());
        s
    }

    pub fn contains(&self, key: ActionKey) -> (r: bool)
        ensures
            r == self@.contains(key),
    {
        let mut i: usize = 0;
        while i < self.keys.len()
            invariant
                i <= self.keys.len(),
                forall|j: int| 0 <= j < i ==> self.keys@[j] != key,
            decreases self.keys.len() - i,
        {
            if self.keys[i] == key {
                return true;
            }
            i += 1;
        }
        false
    }

    /// Adds a key. Returns whether it was new.
    pub fn insert(&mut self, key: ActionKey) -> (added: bool)
        ensures
            added == !old(self)@.contains(key),
            final(self)@ == old(self)@.insert(key),
    {
        if self.contains(key) {
            assert(self@ =~= self@.insert(key));
            false
        } else {
            self.keys.push(key);
            assert forall|k: ActionKey| final(self)@.contains(k) == old(self)@.insert(
                key,
            ).contains(k) by {
                if old(self).keys@.contains(k) {
                    let j = choose|j: int| 0 <= j < old(self).keys@.len() && old(self).keys@[j] == k;
                    assert(final(self).keys@[j] == k);
                }
                if k == key {
                    assert(final(self).keys@[old(self).keys@.len() as int] == k);
                }
            }
            assert(final(self)@ =~= old(self)@.insert(key));
            true
        }
    }

    /// Takes a key out. Returns whether it was there.
    pub fn remove(&mut self, key: ActionKey) -> (removed: bool)
        ensures
            removed == old(self)@.contains(key),
            final(self)@ == old(self)@.remove(key),
    {
        let mut kept: Vec<ActionKey> = Vec::new();
        let mut removed = false;
        let mut i: usize = 0;
        while i < self.keys.len()
            invariant
                i <= self.keys.len(),
                removed == self.keys@.take(i as int).contains(key),
                forall|k: ActionKey| #[trigger]
                    kept@.contains(k) <==> k != key && self.keys@.take(i as int).contains(k),
            decreases self.keys.len() - i,
        {
            let k = self.keys[i];
            let ghost before = kept@;
            let ghost seen = self.keys@.take(i as int);
            let ghost seen_next = self.keys@.take(i + 1);
            assert(seen_next =~= seen.push(k));
            if k == key {
                removed = true;
            } else {
                kept.push(k);
            }
            assert forall|x: ActionKey| #[trigger]
                kept@.contains(x) <==> x != key && seen_next.contains(x) by {
                if seen_next.contains(x) {
                    let j = choose|j: int| 0 <= j < seen_next.len() && seen_next[j] == x;
                    if j < seen.len() {
                        assert(seen[j] == x);
                    }
                }
                if seen.contains(x) {
                    let j = choose|j: int| 0 <= j < seen.len() && seen[j] == x;
                    assert(seen_next[j] == x);
                }
                assert(seen_next[seen.len() as int] == k);
                if before.contains(x) {
                    let j = choose|j: int| 0 <= j < before.len() && before[j] == x;
                    assert(kept@[j] == x);
                }
                if kept@.contains(x) {
                    let j = choose|j: int| 0 <= j < kept@.len() && kept@[j] == x;
                    if j < before.len() {
                        assert(before[j] == x);
                    }
                }
                if k != key {
                    assert(kept@[before.len() as int] == k);
                }
            }
            assert(seen_next.contains(key) <==> seen.contains(key) || k == key);
            i += 1;
        }
        assert(self.keys@.take(self.keys.len() as int) =~= self.keys@);
        self.keys = kept;
        assert(final(self)@ =~= old(self)@.remove(key));
        removed
    }
}

/// The mathematical content of a `Relayer`.
pub struct RelayerView {
    /// The keys of the actions submitted and not yet resolved.
    pub in_flight: Set<ActionKey>,
    /// The keys for which nothing is tried until an operator steps in.
    pub halted: Set<ActionKey>,
}

/// The relayer's memory between events. Everything else it recomputes from
/// the state of the two chains.
pub struct Relayer {
    in_flight: KeySet,
    halted: KeySet,
}

impl View for Relayer {
    type V = RelayerView;

    closed spec fn view(&self) -> RelayerView {
        RelayerView { in_flight: self.in_flight@, halted: self.halted@ }
    }
}

/// What an error of the client module means for the action that met it.
pub open spec fn client_disposition(e: ClientError) -> Disposition {
    match e {
        ClientError::ClientFrozen { .. } => Disposition::Halt,
        _ => Disposition::Retry,
    }
}

/// What an error of the connection handshake means for the action that met
/// it: a message that lacks something is not tried again; a frozen client
/// or versions without anything in common halt the connection; everything
/// else ends this attempt only.
pub open spec fn connection_disposition(e: ConnectionError) -> Disposition {
    match e {
        ConnectionError::MissingProofHeight
        | ConnectionError::MissingConsensusHeight
        | ConnectionError::MissingCounterparty
        | ConnectionError::NullClientProof
        | ConnectionError::EmptyFeatures => Disposition::Fatal,
        ConnectionError::FrozenClient { .. } | ConnectionError::NoCommonVersion => {
            Disposition::Halt
        },
        ConnectionError::Ics02Client(c) => client_disposition(c),
        _ => Disposition::Retry,
    }
}

/// What an error of the channel handshake means for the action that met it.
pub open spec fn channel_disposition(e: ChannelError) -> Disposition {
    match e {
        ChannelError::MissingProofHeight
        | ChannelError::MissingCounterparty
        | ChannelError::OrderingMismatch { .. }
        | ChannelError::OrderingNotSupported { .. } => Disposition::Fatal,
        ChannelError::FrozenClient { .. } => Disposition::Halt,
        ChannelError::Connection(c) => connection_disposition(c),
        ChannelError::Client(c) => client_disposition(c),
        _ => Disposition::Retry,
    }
}

/// What an error of packet relay means for the action that met it.
pub open spec fn packet_disposition(e: PacketError) -> Disposition {
    match e {
        PacketError::InvalidSequence { .. } | PacketError::MissingTimeout => Disposition::Fatal,
        PacketError::Channel(c) => channel_disposition(c),
        _ => Disposition::Retry,
    }
}

pub fn classify_client_error(e: &ClientError) -> (d: Disposition)
    ensures
        d == client_disposition(*e),
{
    match e {
        ClientError::ClientFrozen { .. } => Disposition::Halt,
        _ => Disposition::Retry,
    }
}

pub fn classify_connection_error(e: &ConnectionError) -> (d: Disposition)
    ensures
        d == connection_disposition(*e),
{
    match e {
        ConnectionError::MissingProofHeight => Disposition::Fatal,
        ConnectionError::MissingConsensusHeight => Disposition::Fatal,
        ConnectionError::MissingCounterparty => Disposition::Fatal,
        ConnectionError::NullClientProof => Disposition::Fatal,
        ConnectionError::EmptyFeatures => Disposition::Fatal,
        ConnectionError::FrozenClient { .. } => Disposition::Halt,
        ConnectionError::NoCommonVersion => Disposition::Halt,
        ConnectionError::Ics02Client(c) => classify_client_error(c),
        _ => Disposition::Retry,
    }
}

pub fn classify_channel_error(e: &ChannelError) -> (d: Disposition)
    ensures
        d == channel_disposition(*e),
{
    match e {
        ChannelError::MissingProofHeight => Disposition::Fatal,
        ChannelError::MissingCounterparty => Disposition::Fatal,
        ChannelError::OrderingMismatch { .. } => Disposition::Fatal,
        ChannelError::OrderingNotSupported { .. } => Disposition::Fatal,
        ChannelError::FrozenClient { .. } => Disposition::Halt,
        ChannelError::Connection(c) => classify_connection_error(c),
        ChannelError::Client(c) => classify_client_error(c),
        _ => Disposition::Retry,
    }
}

pub fn classify_packet_error(e: &PacketError) -> (d: Disposition)
    ensures
        d == packet_disposition(*e),
{
    match e {
        PacketError::InvalidSequence { .. } => Disposition::Fatal,
        PacketError::MissingTimeout => Disposition::Fatal,
        PacketError::Channel(c) => classify_channel_error(c),
        _ => Disposition::Retry,
    }
}

/// What a failure of talking to a chain means for the action that met it:
/// the action is not resolved, and is looked at again on the next event.
pub fn classify_transport_error(e: &AnyError) -> (d: Disposition)
    ensures
        d == Disposition::Retry,
{
    match e {
        AnyError::Parachain(_) => Disposition::Retry,
        AnyError::Other(_) => Disposition::Retry,
    }
}

impl Relayer {
    /// A relayer with nothing in flight and nothing halted.
    pub fn new() -> (r: Relayer)
        ensures
            r@.in_flight == Set::<ActionKey>::empty(),
            r@.halted == Set::<ActionKey>::empty(),
    {
        Relayer { in_flight: KeySet::new(), halted: KeySet::new() }
    }

    pub fn is_in_flight(&self, key: ActionKey) -> (r: bool)
        ensures
            r == self@.in_flight.contains(key),
    {
        self.in_flight.contains(key)
    }

    pub fn is_halted(&self, key: ActionKey) -> (r: bool)
        ensures
            r == self@.halted.contains(key),
    {
        self.halted.contains(key)
    }

    /// Asks to submit an action. The answer is yes exactly if no action with
    /// this key is in flight and the key is not halted; the key is then in
    /// flight. On no, nothing changes.
    pub fn begin(&mut self, key: ActionKey) -> (go: bool)
        ensures
            go == (!old(self)@.in_flight.contains(key) && !old(self)@.halted.contains(key)),
            go ==> final(self)@ == (RelayerView {
                in_flight: old(self)@.in_flight.insert(key),
                ..old(self)@
            }),
            !go ==> final(self)@ == old(self)@,
    {
        if self.halted.contains(key) || self.in_flight.contains(key) {
            false
        } else {
            self.in_flight.insert(key);
            true
        }
    }

    /// Records that a submission resolved: with success (`None`) or with a
    /// failure of the given disposition. The key is no longer in flight; on
    /// `Halt` it is halted.
    pub fn settle(&mut self, key: ActionKey, failure: Option<Disposition>)
        ensures
            final(self)@.in_flight == old(self)@.in_flight.remove(key),
            final(self)@.halted == if failure == Some(Disposition::Halt) {
                old(self)@.halted.insert(key)
            } else {
                old(self)@.halted
            },
    {
        self.in_flight.remove(key);
        match failure {
            Some(Disposition::Halt) => {
                self.halted.insert(key);
            },
            _ => {},
        }
    }

    /// Lets a halted key be tried again, after its cause was resolved.
    /// Returns whether the key was halted.
    pub fn resume(&mut self, key: ActionKey) -> (was_halted: bool)
        ensures
            was_halted == old(self)@.halted.contains(key),
            final(self)@ == (RelayerView {
                halted: old(self)@.halted.remove(key),
                ..old(self)@
            }),
    {
        self.halted.remove(key)
    }
}

} // verus!
