//! Packets and what a chain commits to when it sends one.

use vstd::prelude::*;
use vstd::bytes::spec_u64_to_le_bytes;
use crate::client::{append_height, height_bytes};
use crate::commitment::{append_bytes, append_u64, blake2_256, Digest};
use crate::height::Height;
use crate::ids::{ChannelId, PortId};

verus! {

/// A message from one channel end to the other.
#[derive(Debug)]
pub struct Packet {
    /// The place of the packet among those sent from its channel end,
    /// counted from one.
    pub sequence: u64,
    pub source_port: PortId,
    pub source_channel: ChannelId,
    pub destination_port: PortId,
    pub destination_channel: ChannelId,
    pub data: Vec<u8>,
    /// The height of the receiving chain from which on the packet is no
    /// longer received; zero for none.
    pub timeout_height: Height,
    /// The time of the receiving chain from which on the packet is no longer
    /// received, in nanoseconds; zero for none.
    pub timeout_timestamp: u64,
}

/// What is hashed for the commitment of a packet: its timeout timestamp, its
/// timeout height, and the digest of its data.
pub open spec fn commitment_preimage(
    timeout_timestamp: u64,
    timeout_height: Height,
    data: Seq<u8>,
) -> Seq<u8> {
    spec_u64_to_le_bytes(timeout_timestamp) + height_bytes(timeout_height) + blake2_256(data)
}

/// The commitment that the sending chain stores for a packet.
pub open spec fn packet_commitment(packet: Packet) -> Seq<u8> {
    blake2_256(
        commitment_preimage(packet.timeout_timestamp, packet.timeout_height, packet.data@),
    )
}

/// What the receiving chain stores for an acknowledgement.
pub open spec fn acknowledgement_commitment(acknowledgement: Seq<u8>) -> Seq<u8> {
    blake2_256(acknowledgement)
}

impl Packet {
    /// Whether the packet carries a timeout at all.
    pub open spec fn has_timeout(self) -> bool {
        !self.timeout_height.spec_is_zero() || self.timeout_timestamp != 0
    }

    /// Whether the packet's timeout has passed on a chain at `height` and
    /// `timestamp`.
    pub open spec fn timed_out_at(self, height: Height, timestamp: u64) -> bool {
        (!self.timeout_height.spec_is_zero() && self.timeout_height.spec_le(height)) || (
        self.timeout_timestamp != 0 && self.timeout_timestamp <= timestamp)
    }

    /// The commitment that the sending chain stores for the packet.
    pub fn commitment(&self) -> (d: Digest)
        ensures
            d@ == packet_commitment(*self),
    {
        let data_digest = Digest::of(self.data.as_slice());
        let mut pre: Vec<u8> = Vec::new();
        append_u64(&mut pre, self.timeout_timestamp);
        append_height(&mut pre, self.timeout_height);
        append_bytes(&mut pre, data_digest.bytes.as_slice());
        assert(pre@ =~= commitment_preimage(
            self.timeout_timestamp,
            self.timeout_height,
            self.data@,
        ));
        Digest::of(pre.as_slice())
    }

    pub fn is_timed_out_at(&self, height: Height, timestamp: u64) -> (r: bool)
        ensures
            r == self.timed_out_at(height, timestamp),
    {
        (!self.timeout_height.is_zero() && self.timeout_height.le(&height)) || (
        self.timeout_timestamp != 0 && self.timeout_timestamp <= timestamp)
    }
}

/// The digest that the receiving chain stores for an acknowledgement.
pub fn acknowledgement_digest(acknowledgement: &[u8]) -> (d: Digest)
    ensures
        d@ == acknowledgement_commitment(acknowledgement@),
{
    Digest::of(acknowledgement)
}

/// The members of `seqs` that are in `wanted`, in their order.
pub open spec fn select(seqs: Seq<u64>, wanted: Set<u64>) -> Seq<u64>
    decreases seqs.len(),
{
    if seqs.len() == 0 {
        Seq::empty()
    } else {
        let rest = select(seqs.drop_last(), wanted);
        if wanted.contains(seqs.last()) {
            rest.push(seqs.last())
        } else {
            rest
        }
    }
}

/// The numbers from `from` up to, not including, `to`, in ascending order.
pub open spec fn range(from: u64, to: u64) -> Seq<u64> {
    Seq::new(
        if from <= to {
            (to - from) as nat
        } else {
            0
        },
        |i: int| (from + i) as u64,
    )
}

/// A selection holds exactly the members of the list that are wanted.
pub proof fn lemma_select_exact(seqs: Seq<u64>, wanted: Set<u64>, s: u64)
    ensures
        select(seqs, wanted).contains(s) <==> seqs.contains(s) && wanted.contains(s),
    decreases seqs.len(),
{
    if seqs.len() > 0 {
        let init = seqs.drop_last();
        let rest = select(init, wanted);
        lemma_select_exact(init, wanted, s);
        if seqs.contains(s) {
            let i = choose|i: int| 0 <= i < seqs.len() && seqs[i] == s;
            if i < seqs.len() - 1 {
                assert(init[i] == s);
            }
        }
        if init.contains(s) {
            let i = choose|i: int| 0 <= i < init.len() && init[i] == s;
            assert(seqs[i] == s);
        }
        assert(seqs[seqs.len() - 1] == seqs.last());
        if wanted.contains(seqs.last()) {
            let out = rest.push(seqs.last());
            if out.contains(s) {
                let i = choose|i: int| 0 <= i < out.len() && out[i] == s;
                if i < rest.len() {
                    assert(rest[i] == s);
                }
            }
            if rest.contains(s) {
                let i = choose|i: int| 0 <= i < rest.len() && rest[i] == s;
                assert(out[i] == s);
            }
            assert(out[out.len() - 1] == seqs.last());
        }
    }
}

} // verus!
