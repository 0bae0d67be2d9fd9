//! Verification core of an inter-blockchain relay.
//!
//! A chain hosts light clients of other chains, connection ends and channel
//! ends (`host`). Two chains that do not trust each other open a connection
//! (`conn_handshake`) and channels over it (`chan_handshake`), and then move
//! packets (`packet_relay`). Whatever one chain claims about its state, the
//! other checks by a commitment proof (`commitment`) against a root that
//! its light client has verified (`light_client`). A relayer watches both
//! chains and decides what to submit next (`plan`, `relayer`).
//!
//! Each operation comes with a function that says what it gives for every
//! state and message. `laws` and `invariants` hold what is proved about
//! these functions.

pub mod chain;
pub mod chan_handshake;
pub mod channel;
pub mod client;
pub mod commitment;
pub mod conn_handshake;
pub mod connection;
pub mod error;
pub mod events;
pub mod height;
pub mod host;
pub mod identifier;
pub mod ids;
pub mod invariants;
pub mod laws;
pub mod light_client;
pub mod packet;
pub mod packet_relay;
pub mod path;
pub mod plan;
pub mod relayer;
