//! Connection ends and the versions they negotiate.

use vstd::prelude::*;
use vstd::bytes::spec_u64_to_le_bytes;
use crate::commitment::append_u64;
use crate::error::ConnectionError;
use crate::ids::{ClientId, CommitmentPrefix, ConnectionId};

verus! {

/// How far the handshake of a connection end has come. The order of the
/// variants is the order in which they are reached.
#[derive(Clone, Copy, Debug, PartialEq, Eq, Structural)]
pub enum ConnectionState {
    Init,
    TryOpen,
    Open,
}

/// The delivery orders that a version offers to channels.
#[derive(Clone, Copy, Debug, PartialEq, Eq, Structural)]
pub struct FeatureSet {
    pub ordered: bool,
    pub unordered: bool,
}

/// A protocol version with the features it offers.
#[derive(Clone, Copy, Debug, PartialEq, Eq, Structural)]
pub struct Version {
    pub identifier: u64,
    pub features: FeatureSet,
}

/// The other end of a connection, as this end knows it.
#[derive(Clone, Copy, Debug, PartialEq, Eq, Structural)]
pub struct Counterparty {
    /// The client on the other chain that follows this chain.
    pub client_id: ClientId,
    /// The connection on the other chain, once it is known.
    pub connection_id: Option<ConnectionId>,
    /// The store under which the other chain commits its state.
    pub prefix: CommitmentPrefix,
}

/// One end of a connection between two chains.
#[derive(Clone, Copy, Debug, PartialEq, Eq, Structural)]
pub struct ConnectionEnd {
    pub state: ConnectionState,
    /// The client on this chain that follows the other chain.
    pub client_id: ClientId,
    pub counterparty: Counterparty,
    /// In `Init` the version proposed; afterwards the version agreed on.
    pub version: Version,
    /// How long a verified state must have been known before it is used.
    pub delay_period: u64,
}

impl ConnectionState {
    /// The place of a state in the handshake.
    pub open spec fn rank(self) -> nat {
        match self {
            ConnectionState::Init => 1,
            ConnectionState::TryOpen => 2,
            ConnectionState::Open => 3,
        }
    }

    pub open spec fn spec_byte(self) -> u8 {
        match self {
            ConnectionState::Init => 1,
            ConnectionState::TryOpen => 2,
            ConnectionState::Open => 3,
        }
    }

    pub fn to_byte(&self) -> (b: u8)
        ensures
            b == self.spec_byte(),
    {
        match self {
            ConnectionState::Init => 1,
            ConnectionState::TryOpen => 2,
            ConnectionState::Open => 3,
        }
    }
}

impl FeatureSet {
    pub open spec fn spec_is_empty(self) -> bool {
        !self.ordered && !self.unordered
    }

    /// The features that both sets offer.
    pub open spec fn spec_intersect(self, other: FeatureSet) -> FeatureSet {
        FeatureSet {
            ordered: self.ordered && other.ordered,
            unordered: self.unordered && other.unordered,
        }
    }

    /// Whether every feature of `self` is also offered by `other`.
    pub open spec fn spec_subset_of(self, other: FeatureSet) -> bool {
        (self.ordered ==> other.ordered) && (self.unordered ==> other.unordered)
    }

    pub open spec fn spec_byte(self) -> u8 {
        if self.ordered && self.unordered {
            3
        } else if self.ordered {
            2
        } else if self.unordered {
            1
        } else {
            0
        }
    }

    /// Both delivery orders.
    pub fn all() -> (f: FeatureSet)
        ensures
            f.ordered,
            f.unordered,
    {
        FeatureSet { ordered: true, unordered: true }
    }

    pub fn is_empty(&self) -> (r: bool)
        ensures
            r == self.spec_is_empty(),
    {
        !self.ordered && !self.unordered
    }

    pub fn intersect(&self, other: &FeatureSet) -> (f: FeatureSet)
        ensures
            f == self.spec_intersect(*other),
    {
        FeatureSet {
            ordered: self.ordered && other.ordered,
            unordered: self.unordered && other.unordered,
        }
    }

    pub fn subset_of(&self, other: &FeatureSet) -> (r: bool)
        ensures
            r == self.spec_subset_of(*other),
    {
        (!self.ordered || other.ordered) && (!self.unordered || other.unordered)
    }

    pub fn to_byte(&self) -> (b: u8)
        ensures
            b == self.spec_byte(),
    {
        if self.ordered && self.unordered {
            3
        } else if self.ordered {
            2
        } else if self.unordered {
            1
        } else {
            0
        }
    }
}

/// The version that two sides agree on: the version of the first side with
/// the features that both offer. There is none if the identifiers differ or
/// no feature is shared; a proposal without features is refused as such.
pub open spec fn negotiated(supported: Version, proposed: Version) -> Result<
    Version,
    ConnectionError,
> {
    if proposed.features.spec_is_empty() {
        Err(ConnectionError::EmptyFeatures)
    } else if supported.identifier != proposed.identifier
        || supported.features.spec_intersect(proposed.features).spec_is_empty() {
        Err(ConnectionError::NoCommonVersion)
    } else {
        Ok(
            Version {
                identifier: supported.identifier,
                features: supported.features.spec_intersect(proposed.features),
            },
        )
    }
}

/// Picks the version for a connection from what this side supports and what
/// the other side proposed.
pub fn pick_version(supported: &Version, proposed: &Version) -> (r: Result<
    Version,
    ConnectionError,
>)
    ensures
        r == negotiated(*supported, *proposed),
{
    if proposed.features.is_empty() {
        return Err(ConnectionError::EmptyFeatures);
    }
    let common = supported.features.intersect(&proposed.features);
    if supported.identifier != proposed.identifier || common.is_empty() {
        Err(ConnectionError::NoCommonVersion)
    } else {
        Ok(Version { identifier: supported.identifier, features: common })
    }
}

/// A version that was chosen by the other side is acceptable if it is what
/// negotiation against the local version could have given: the same
/// identifier, and a non-empty part of the local features.
pub open spec fn acceptable(local: Version, chosen: Version) -> bool {
    &&& local.identifier == chosen.identifier
    &&& !chosen.features.spec_is_empty()
    &&& chosen.features.spec_subset_of(local.features)
}

pub fn is_acceptable(local: &Version, chosen: &Version) -> (r: bool)
    ensures
        r == acceptable(*local, *chosen),
{
    local.identifier == chosen.identifier && !chosen.features.is_empty()
        && chosen.features.subset_of(&local.features)
}

impl Version {
    /// The version that hosts support: identifier 1 with both orders.
    pub open spec fn spec_default() -> Version {
        Version { identifier: 1, features: FeatureSet { ordered: true, unordered: true } }
    }

    pub fn default_version() -> (v: Version)
        ensures
            v == Version::spec_default(),
    {
        Version { identifier: 1, features: FeatureSet { ordered: true, unordered: true } }
    }
}

impl ConnectionEnd {
    /// The bytes that a chain stores for this connection end.
    pub open spec fn spec_bytes(self) -> Seq<u8> {
        seq![self.state.spec_byte()] + spec_u64_to_le_bytes(self.client_id.index)
            + spec_u64_to_le_bytes(self.counterparty.client_id.index)
            + match self.counterparty.connection_id {
            Some(id) => seq![1u8] + spec_u64_to_le_bytes(id.index),
            None => seq![0u8],
        } + spec_u64_to_le_bytes(self.counterparty.prefix.store) + spec_u64_to_le_bytes(
            self.version.identifier,
        ) + seq![self.version.features.spec_byte()] + spec_u64_to_le_bytes(self.delay_period)
    }

    pub fn to_bytes(&self) -> (v: Vec<u8>)
        ensures
            v@ == self.spec_bytes(),
    {
        let mut v: Vec<u8> = Vec::new();
        v.push(self.state.to_byte());
        append_u64(&mut v, self.client_id.index);
        append_u64(&mut v, self.counterparty.client_id.index);
        match self.counterparty.connection_id {
            Some(id) => {
                v.push(1u8);
                append_u64(&mut v, id.index);
            },
            None => {
                v.push(0u8);
            },
        }
        append_u64(&mut v, self.counterparty.prefix.store);
        append_u64(&mut v, self.version.identifier);
        v.push(self.version.features.to_byte());
        append_u64(&mut v, self.delay_period);
        assert(v@ =~= self.spec_bytes());
        v
    }
}

} // verus!
