//! Light-client records: what a host knows about a counterparty chain.

use vstd::prelude::*;
use vstd::bytes::spec_u64_to_le_bytes;
use crate::commitment::{append_bytes, append_u64, Digest};
use crate::height::Height;

verus! {

/// The host's record of how it verifies a counterparty chain.
#[derive(Clone, Copy, Debug, PartialEq, Eq, Structural)]
pub struct ClientState {
    /// The chain that the client follows.
    pub chain_id: u64,
    /// For how long a verified state stays trusted, in nanoseconds.
    pub trusting_period: u64,
    /// The latest height for which a consensus state was verified.
    pub latest_height: Height,
    /// Set when misbehaviour was found; the client is inert from then on.
    pub frozen_height: Option<Height>,
}

/// A snapshot of a chain at one height.
#[derive(Clone, Copy, Debug, PartialEq, Eq)]
pub struct ConsensusState {
    /// Time of the snapshot, in nanoseconds.
    pub timestamp: u64,
    /// The root that commitment proofs are checked against.
    pub root: Digest,
}

/// A consensus state and the height it belongs to.
#[derive(Clone, Copy, Debug, PartialEq, Eq)]
pub struct ConsensusEntry {
    pub height: Height,
    pub state: ConsensusState,
}

/// A new block of the counterparty chain, as handed to a client update.
#[derive(Clone, Copy, Debug, PartialEq, Eq)]
pub struct Header {
    pub height: Height,
    pub timestamp: u64,
    pub root: Digest,
}

/// What the counterparty's consensus algorithm found about a header.
#[derive(Clone, Copy, Debug, PartialEq, Eq, Structural)]
pub enum HeaderVerdict {
    /// The header is a valid successor of what the client trusts.
    Valid,
    /// The header does not follow from what the client trusts.
    Invalid,
    /// The header conflicts with a state that the client already verified.
    Misbehaviour,
}

/// A client state with the consensus states verified for it, in the order
/// in which they were accepted.
pub struct ClientRecord {
    pub state: ClientState,
    pub consensus: Vec<ConsensusEntry>,
}

/// The mathematical content of a `ClientRecord`.
pub struct ClientView {
    pub state: ClientState,
    pub consensus: Seq<ConsensusEntry>,
}

impl View for ClientRecord {
    type V = ClientView;

    open spec fn view(&self) -> ClientView {
        ClientView { state: self.state, consensus: self.consensus@ }
    }
}

/// The consensus state recorded for a height: the entry accepted last, if
/// several carry the height.
pub open spec fn consensus_at(entries: Seq<ConsensusEntry>, height: Height) -> Option<
    ConsensusState,
>
    decreases entries.len(),
{
    if entries.len() == 0 {
        None
    } else if entries.last().height == height {
        Some(entries.last().state)
    } else {
        consensus_at(entries.drop_last(), height)
    }
}

/// Looks up the consensus state recorded for a height.
pub fn find_consensus(entries: &Vec<ConsensusEntry>, height: Height) -> (r: Option<ConsensusState>)
    ensures
        r == consensus_at(entries@, height),
{
    let mut i: usize = entries.len();
    assert(entries@.take(i as int) =~= entries@);
    while i > 0
        invariant
            i <= entries.len(),
            consensus_at(entries@, height) == consensus_at(entries@.take(i as int), height),
        decreases i,
    {
        let e = entries[i - 1];
        assert(entries@.take(i as int).last() == e);
        assert(entries@.take(i as int).drop_last() =~= entries@.take(i - 1));
        if e.height == height {
            return Some(e.state);
        }
        i -= 1;
    }
    assert(entries@.take(0).len() == 0);
    None
}

/// The bytes of a height: revision number, then revision height.
pub open spec fn height_bytes(h: Height) -> Seq<u8> {
    spec_u64_to_le_bytes(h.revision_number) + spec_u64_to_le_bytes(h.revision_height)
}

/// Appends a height: revision number, then revision height.
pub fn append_height(buf: &mut Vec<u8>, h: Height)
    ensures
        final(buf)@ == old(buf)@ + height_bytes(h),
{
    append_u64(buf, h.revision_number);
    append_u64(buf, h.revision_height);
    assert(buf@ =~= old(buf)@ + height_bytes(h));
}

impl ClientState {
    pub open spec fn is_frozen(self) -> bool {
        self.frozen_height.is_some()
    }

    /// The bytes that a chain stores for this client state.
    pub open spec fn spec_bytes(self) -> Seq<u8> {
        spec_u64_to_le_bytes(self.chain_id) + spec_u64_to_le_bytes(self.trusting_period)
            + height_bytes(self.latest_height) + match self.frozen_height {
            Some(h) => seq![1u8] + height_bytes(h),
            None => seq![0u8],
        }
    }

    pub fn to_bytes(&self) -> (v: Vec<u8>)
        ensures
            v@ == self.spec_bytes(),
    {
        let mut v: Vec<u8> = Vec::new();
        append_u64(&mut v, self.chain_id);
        append_u64(&mut v, self.trusting_period);
        append_height(&mut v, self.latest_height);
        match self.frozen_height {
            Some(h) => {
                v.push(1u8);
                append_height(&mut v, h);
            },
            None => {
                v.push(0u8);
            },
        }
        assert(v@ =~= self.spec_bytes());
        v
    }
}

impl ConsensusState {
    /// The bytes that a chain stores for this consensus state.
    pub open spec fn spec_bytes(self) -> Seq<u8> {
        spec_u64_to_le_bytes(self.timestamp) + self.root@
    }

    pub fn to_bytes(&self) -> (v: Vec<u8>)
        ensures
            v@ == self.spec_bytes(),
    {
        let mut v: Vec<u8> = Vec::new();
        append_u64(&mut v, self.timestamp);
        append_bytes(&mut v, self.root.bytes.as_slice());
        assert(v@ =~= self.spec_bytes());
        v
    }
}

} // verus!
