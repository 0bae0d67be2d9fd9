//! The chains that a relayer connects, by kind of backend.
//!
//! The set of backends is closed: every place that depends on the backend
//! matches on all of them. Talking to a chain is left to the program around
//! this library; here are the values that describe a chain, and the
//! decisions that depend on its kind.

use vstd::prelude::*;
use vstd::std_specs::convert::FromSpecImpl;
use crate::height::Height;
use crate::ids::{ChannelId, ClientId, CommitmentPrefix, ConnectionId, PortId};

verus! {

/// The kinds of chain backend.
#[derive(Clone, Copy, Debug, PartialEq, Eq, Structural)]
pub enum Backend {
    Parachain,
}

/// Names the set of chain parameters that a parachain backend is used
/// with. There is one such set.
#[derive(Clone, Copy, Debug, PartialEq, Eq, Structural)]
pub enum DefaultConfig {
    Default,
}

/// Settings of the relayer itself.
#[derive(Debug)]
pub struct CoreConfig {
    /// Where metrics are served, if they are.
    pub prometheus_endpoint: Option<String>,
}

/// What the relayer is told about a parachain.
#[derive(Debug)]
pub struct ParachainConfig {
    pub name: String,
    pub para_id: u32,
    /// The light client on this chain that follows the other chain, once
    /// there is one.
    pub client_id: Option<ClientId>,
    /// The connection end on this chain, once there is one.
    pub connection_id: Option<ConnectionId>,
    pub commitment_prefix: CommitmentPrefix,
    /// The channels that the relayer serves.
    pub channel_whitelist: Vec<(ChannelId, PortId)>,
}

/// What the relayer is told about a chain, by backend.
#[derive(Debug)]
pub enum AnyConfig {
    Parachain(ParachainConfig),
}

/// The relayer's settings: the two chains and its own.
#[derive(Debug)]
pub struct Config {
    pub chain_a: AnyConfig,
    pub chain_b: AnyConfig,
    pub core: CoreConfig,
}

/// A notice that a parachain has finalized a height.
#[derive(Clone, Copy, Debug, PartialEq, Eq, Structural)]
pub struct FinalityEvent {
    pub finalized: Height,
}

/// A finality notice, by the backend it came from.
#[derive(Clone, Copy, Debug, PartialEq, Eq, Structural)]
pub enum AnyFinalityEvent {
    Parachain(FinalityEvent),
}

/// A failure of talking to a chain.
#[derive(Debug)]
pub enum AnyError {
    /// What a parachain backend reported.
    Parachain(String),
    Other(String),
}

/// A chain as the relayer holds it, by backend: the name of the chain and
/// what was assigned to the relayed path on it.
#[derive(Debug)]
pub enum AnyChain {
    Parachain(ParachainConfig),
}

impl From<String> for AnyError {
    fn from(s: String) -> (e: AnyError) {
        AnyError::Other(s)
    }
}

impl FromSpecImpl<String> for AnyError {
    open spec fn obeys_from_spec() -> bool {
        true
    }

    open spec fn from_spec(s: String) -> AnyError {
        AnyError::Other(s)
    }
}

impl From<FinalityEvent> for AnyFinalityEvent {
    fn from(e: FinalityEvent) -> (r: AnyFinalityEvent) {
        AnyFinalityEvent::Parachain(e)
    }
}

impl FromSpecImpl<FinalityEvent> for AnyFinalityEvent {
    open spec fn obeys_from_spec() -> bool {
        true
    }

    open spec fn from_spec(e: FinalityEvent) -> AnyFinalityEvent {
        AnyFinalityEvent::Parachain(e)
    }
}

impl Backend {
    /// The backend that a configuration names by its type tag. A tag that
    /// names no backend is an error.
    pub fn from_tag(tag: &String) -> (r: Result<Backend, AnyError>)
        ensures
            tag@ == "parachain"@ ==> r == Ok::<Backend, AnyError>(Backend::Parachain),
            tag@ != "parachain"@ ==> (r matches Err(AnyError::Other(message)) && message@
                == "unsupported backend"@),
    {
        let parachain = "parachain".to_owned();
        if *tag == parachain {
            Ok(Backend::Parachain)
        } else {
            Err(AnyError::Other("unsupported backend".to_owned()))
        }
    }
}

impl AnyConfig {
    pub open spec fn spec_backend(self) -> Backend {
        match self {
            AnyConfig::Parachain(_) => Backend::Parachain,
        }
    }

    pub fn backend(&self) -> (b: Backend)
        ensures
            b == self.spec_backend(),
    {
        match self {
            AnyConfig::Parachain(_) => Backend::Parachain,
        }
    }

    /// The chain that the configuration describes, as the relayer holds it.
    /// Connecting to the chain's node is left to the caller.
    pub fn into_client(self) -> (chain: AnyChain)
        ensures
            chain == match self {
                AnyConfig::Parachain(config) => AnyChain::Parachain(config),
            },
    {
        match self {
            AnyConfig::Parachain(config) => AnyChain::Parachain(config),
        }
    }
}

impl AnyFinalityEvent {
    pub open spec fn spec_backend(self) -> Backend {
        match self {
            AnyFinalityEvent::Parachain(_) => Backend::Parachain,
        }
    }

    pub fn backend(&self) -> (b: Backend)
        ensures
            b == self.spec_backend(),
    {
        match self {
            AnyFinalityEvent::Parachain(_) => Backend::Parachain,
        }
    }

    /// The height that the notice reports as final.
    pub fn finalized(&self) -> (h: Height)
        ensures
            h == match *self {
                AnyFinalityEvent::Parachain(e) => e.finalized,
            },
    {
        match self {
            AnyFinalityEvent::Parachain(e) => e.finalized,
        }
    }
}

impl AnyChain {
    pub open spec fn spec_backend(self) -> Backend {
        match self {
            AnyChain::Parachain(_) => Backend::Parachain,
        }
    }

    /// The description of the chain, whatever the backend.
    pub open spec fn settings(self) -> ParachainConfig {
        match self {
            AnyChain::Parachain(c) => c,
        }
    }

    pub fn backend(&self) -> (b: Backend)
        ensures
            b == self.spec_backend(),
    {
        match self {
            AnyChain::Parachain(_) => Backend::Parachain,
        }
    }

    /// Takes a finality notice for this chain: the notice must come from
    /// the chain's own kind of backend.
    pub fn accept_finality_event(&self, event: AnyFinalityEvent) -> (r: Result<
        FinalityEvent,
        AnyError,
    >)
        ensures
            event.spec_backend() == self.spec_backend() ==> r == Ok::<FinalityEvent, AnyError>(
                match event {
                    AnyFinalityEvent::Parachain(e) => e,
                },
            ),
            event.spec_backend() != self.spec_backend() ==> (r matches Err(
                AnyError::Other(message),
            ) && message@ == "Invalid finality event type"@),
    {
        match (self, event) {
            (AnyChain::Parachain(_), AnyFinalityEvent::Parachain(e)) => Ok(e),
        }
    }

    pub fn name(&self) -> (r: &str)
        ensures
            r@ == self.settings().name@,
    {
        match self {
            AnyChain::Parachain(c) => c.name.as_str(),
        }
    }

    /// The light client on this chain, if one was assigned.
    pub fn client_id(&self) -> (r: Option<ClientId>)
        ensures
            r == self.settings().client_id,
    {
        match self {
            AnyChain::Parachain(c) => c.client_id,
        }
    }

    /// The connection end on this chain, if one was assigned.
    pub fn connection_id(&self) -> (r: Option<ConnectionId>)
        ensures
            r == self.settings().connection_id,
    {
        match self {
            AnyChain::Parachain(c) => c.connection_id,
        }
    }

    pub fn connection_prefix(&self) -> (r: CommitmentPrefix)
        ensures
            r == self.settings().commitment_prefix,
    {
        match self {
            AnyChain::Parachain(c) => c.commitment_prefix,
        }
    }

    /// The channels that the relayer serves on this chain.
    pub fn channel_whitelist(&self) -> (r: Vec<(ChannelId, PortId)>)
        ensures
            r@ == self.settings().channel_whitelist@,
    {
        match self {
            AnyChain::Parachain(c) => {
                let mut out: Vec<(ChannelId, PortId)> = Vec::new();
                let mut i: usize = 0;
                while i < c.channel_whitelist.len()
                    invariant
                        i <= c.channel_whitelist.len(),
                        out@ == c.channel_whitelist@.take(i as int),
                    decreases c.channel_whitelist.len() - i,
                {
                    out.push(c.channel_whitelist[i]);
                    assert(out@ =~= c.channel_whitelist@.take(i + 1));
                    i += 1;
                }
                assert(c.channel_whitelist@.take(c.channel_whitelist.len() as int)
                    =~= c.channel_whitelist@);
                out
            },
        }
    }

    /// Replaces the channels that the relayer serves on this chain.
    pub fn set_channel_whitelist(&mut self, channel_whitelist: Vec<(ChannelId, PortId)>)
        ensures
            final(self).spec_backend() == old(self).spec_backend(),
            final(self).settings() == (ParachainConfig {
                channel_whitelist,
                ..old(self).settings()
            }),
    {
        match self {
            AnyChain::Parachain(c) => {
                c.channel_whitelist = channel_whitelist;
            },
        }
    }

    /// Whether the light client that the other chain runs for this chain
    /// must be updated before a proof from this chain's latest height can
    /// be checked: it must, if it has not verified that height.
    pub fn is_update_required(
        &self,
        latest_height: u64,
        latest_client_height_on_counterparty: u64,
    ) -> (r: bool)
        ensures
            r == (latest_client_height_on_counterparty < latest_height),
    {
        match self {
            AnyChain::Parachain(_) => latest_client_height_on_counterparty < latest_height,
        }
    }

    /// Whether the relayer serves the channel.
    pub fn serves(&self, channel_id: ChannelId, port_id: PortId) -> (r: bool)
        ensures
            r == self.settings().channel_whitelist@.contains((channel_id, port_id)),
    {
        match self {
            AnyChain::Parachain(c) => {
                let mut i: usize = 0;
                while i < c.channel_whitelist.len()
                    invariant
                        i <= c.channel_whitelist.len(),
                        self.settings() == *c,
                        forall|j: int|
                            0 <= j < i ==> c.channel_whitelist@[j] != (channel_id, port_id),
                    decreases c.channel_whitelist.len() - i,
                {
                    let (ch, port) = c.channel_whitelist[i];
                    if ch == channel_id && port == port_id {
                        assert(c.channel_whitelist@[i as int] == (channel_id, port_id));
                        return true;
                    }
                    i += 1;
                }
                false
            },
        }
    }
}

} // verus!
