use hyperspace_core::channel::{ChannelCounterparty, ChannelEnd, ChannelState, Order};
use hyperspace_core::client::{ClientState, ConsensusState};
use hyperspace_core::commitment::{
    branch_is_right, leaf_digest, node_digest, path_digest, verify_membership,
    verify_non_membership, Digest,
};
use hyperspace_core::connection::{
    is_acceptable, pick_version, ConnectionEnd, ConnectionState, Counterparty, FeatureSet, Version,
};
use hyperspace_core::error::{ConnectionError, ProofError};
use hyperspace_core::height::Height;
use hyperspace_core::ids::{ChannelId, ClientId, CommitmentPrefix, ConnectionId, PortId};
use hyperspace_core::packet::{acknowledgement_digest, Packet};
use hyperspace_core::path::Path;

fn hex(s: &str) -> Vec<u8> {
    (0..s.len() / 2).map(|i| u8::from_str_radix(&s[2 * i..2 * i + 2], 16).unwrap()).collect()
}

#[test]
fn digest_is_blake2b_256() {
    assert_eq!(
        Digest::of(b"").bytes.to_vec(),
        hex("0e5751c026e543b2e8ab2eb06099daa1d1e5df47778f7787faab45cdf12fe3a8")
    );
    assert_eq!(
        Digest::of(b"abc").bytes.to_vec(),
        hex("bddd813c634239723171ef3fee98579b94964e3bb1cb3e427262c8c068d52319")
    );
    assert_eq!(path_digest(b"abc"), Digest::of(b"abc"));
    assert_eq!(acknowledgement_digest(b"abc"), Digest::of(b"abc"));
    assert!(Digest::of(b"abc").same(&Digest::of(b"abc")));
    assert!(!Digest::of(b"abc").same(&Digest::of(b"abd")));
    assert_eq!(Digest::of(b"abc").to_vec(), Digest::of(b"abc").bytes.to_vec());
}

#[test]
fn leaf_and_node_preimages() {
    let path = [9u8, 8, 7];
    let value = [1u8, 2];
    let mut pre = vec![0u8];
    pre.extend_from_slice(&3u64.to_le_bytes());
    pre.extend_from_slice(&path);
    pre.extend_from_slice(&value);
    assert_eq!(leaf_digest(&path, &value), Digest::of(&pre));
    let l = Digest::of(b"l");
    let r = Digest::of(b"r");
    let mut pre = vec![1u8];
    pre.extend_from_slice(&l.bytes);
    pre.extend_from_slice(&r.bytes);
    assert_eq!(node_digest(&l, &r), Digest::of(&pre));
    assert_ne!(node_digest(&l, &r), node_digest(&r, &l));
}

#[test]
fn branch_follows_the_bits_of_the_path_digest() {
    let mut key = Digest { bytes: [0u8; 32] };
    key.bytes[0] = 0b0000_0101;
    key.bytes[1] = 0b1000_0000;
    key.bytes[31] = 0b1000_0000;
    assert!(branch_is_right(&key, 0));
    assert!(!branch_is_right(&key, 1));
    assert!(branch_is_right(&key, 2));
    assert!(!branch_is_right(&key, 8));
    assert!(branch_is_right(&key, 15));
    assert!(!branch_is_right(&key, 254));
    assert!(branch_is_right(&key, 255));
}

#[test]
fn membership_in_a_small_tree() {
    let path = b"some/path".to_vec();
    let value = b"value".to_vec();
    let leaf = leaf_digest(&path, &value);
    assert_eq!(verify_membership(&leaf, &[], &path, &value), Ok(()));
    assert_eq!(
        verify_membership(&leaf, &[], &path, b"other"),
        Err(ProofError::VerificationFailed)
    );
    let key = path_digest(&path);
    let s0 = Digest::of(b"sibling 0");
    let s1 = Digest::of(b"sibling 1");
    let n0 = if branch_is_right(&key, 0) { node_digest(&s0, &leaf) } else { node_digest(&leaf, &s0) };
    let root = if branch_is_right(&key, 1) { node_digest(&s1, &n0) } else { node_digest(&n0, &s1) };
    let mut proof = s0.bytes.to_vec();
    proof.extend_from_slice(&s1.bytes);
    assert_eq!(verify_membership(&root, &proof, &path, &value), Ok(()));
    assert_eq!(verify_membership(&n0, &proof[..32], &path, &value), Ok(()));
    assert_eq!(
        verify_membership(&root, &proof[..32], &path, &value),
        Err(ProofError::VerificationFailed)
    );
    let mut swapped = s1.bytes.to_vec();
    swapped.extend_from_slice(&s0.bytes);
    assert_eq!(
        verify_membership(&root, &swapped, &path, &value),
        Err(ProofError::VerificationFailed)
    );
    for i in 0..proof.len() {
        for bit in 0..8 {
            let mut bad = proof.clone();
            bad[i] ^= 1 << bit;
            assert_eq!(
                verify_membership(&root, &bad, &path, &value),
                Err(ProofError::VerificationFailed)
            );
        }
    }
    assert_eq!(
        verify_membership(&root, &proof[..63], &path, &value),
        Err(ProofError::Malformed { length: 63 })
    );
    assert_eq!(
        verify_membership(&root, &vec![0u8; 32 * 257], &path, &value),
        Err(ProofError::Malformed { length: 32 * 257 })
    );
    assert_eq!(
        verify_membership(&root, &vec![0u8; 32 * 256], &path, &value),
        Err(ProofError::VerificationFailed)
    );
    let empty_leaf = leaf_digest(&path, &[]);
    assert_eq!(verify_non_membership(&empty_leaf, &[], &path), Ok(()));
    assert_eq!(verify_non_membership(&leaf, &[], &path), Err(ProofError::VerificationFailed));
    assert_eq!(verify_non_membership(&leaf, &[0u8], &path), Err(ProofError::Malformed { length: 1 }));
}

fn le(x: u64) -> Vec<u8> {
    x.to_le_bytes().to_vec()
}

#[test]
fn paths_are_written_with_prefix_kind_and_identifiers() {
    let prefix = CommitmentPrefix::new(7);
    let client_id = ClientId::new(2);
    let port_id = PortId::new(3);
    let channel_id = ChannelId::new(4);
    let cat = |parts: &[Vec<u8>]| parts.concat();
    assert_eq!(
        (Path::ClientState { client_id }).to_bytes(prefix),
        cat(&[le(7), vec![1], le(2)])
    );
    assert_eq!(
        (Path::ConsensusState { client_id, height: Height::new(5, 6) }).to_bytes(prefix),
        cat(&[le(7), vec![2], le(2), le(5), le(6)])
    );
    assert_eq!(
        (Path::Connection { connection_id: ConnectionId::new(9) }).to_bytes(prefix),
        cat(&[le(7), vec![3], le(9)])
    );
    assert_eq!(
        (Path::Channel { port_id, channel_id }).to_bytes(prefix),
        cat(&[le(7), vec![4], le(3), le(4)])
    );
    assert_eq!(
        (Path::Commitment { port_id, channel_id, sequence: 11 }).to_bytes(prefix),
        cat(&[le(7), vec![5], le(3), le(4), le(11)])
    );
    assert_eq!(
        (Path::Acknowledgement { port_id, channel_id, sequence: 11 }).to_bytes(prefix),
        cat(&[le(7), vec![6], le(3), le(4), le(11)])
    );
    assert_eq!(
        (Path::Receipt { port_id, channel_id, sequence: 11 }).to_bytes(prefix),
        cat(&[le(7), vec![7], le(3), le(4), le(11)])
    );
    assert_eq!(
        (Path::NextSequenceRecv { port_id, channel_id }).to_bytes(prefix),
        cat(&[le(7), vec![8], le(3), le(4)])
    );
}

#[test]
fn stored_values_are_written_field_by_field() {
    let end = ConnectionEnd {
        state: ConnectionState::TryOpen,
        client_id: ClientId::new(1),
        counterparty: Counterparty {
            client_id: ClientId::new(2),
            connection_id: Some(ConnectionId::new(3)),
            prefix: CommitmentPrefix::new(4),
        },
        version: Version { identifier: 1, features: FeatureSet { ordered: true, unordered: false } },
        delay_period: 6,
    };
    assert_eq!(
        end.to_bytes(),
        [vec![2], le(1), le(2), vec![1], le(3), le(4), le(1), vec![2], le(6)].concat()
    );
    let init = ConnectionEnd {
        state: ConnectionState::Init,
        counterparty: Counterparty { connection_id: None, ..end.counterparty },
        version: Version::default_version(),
        ..end
    };
    assert_eq!(
        init.to_bytes(),
        [vec![1], le(1), le(2), vec![0], le(4), le(1), vec![3], le(6)].concat()
    );
    assert_eq!(ConnectionState::Open.to_byte(), 3);
    assert_eq!(FeatureSet { ordered: false, unordered: true }.to_byte(), 1);
    assert_eq!(FeatureSet { ordered: false, unordered: false }.to_byte(), 0);
    let chan = ChannelEnd {
        state: ChannelState::Open,
        ordering: Order::Ordered,
        counterparty: ChannelCounterparty { port_id: PortId::new(5), channel_id: None },
        connection_id: ConnectionId::new(6),
        version: 7,
    };
    assert_eq!(chan.to_bytes(), [vec![3, 2], le(5), vec![0], le(6), le(7)].concat());
    let closed = ChannelEnd {
        state: ChannelState::Closed,
        ordering: Order::Unordered,
        counterparty: ChannelCounterparty {
            port_id: PortId::new(5),
            channel_id: Some(ChannelId::new(8)),
        },
        ..chan
    };
    assert_eq!(closed.to_bytes(), [vec![4, 1], le(5), vec![1], le(8), le(6), le(7)].concat());
    assert_eq!(ChannelState::Init.to_byte(), 1);
    assert_eq!(ChannelState::TryOpen.to_byte(), 2);
    let state = ClientState {
        chain_id: 1,
        trusting_period: 2,
        latest_height: Height::new(3, 4),
        frozen_height: None,
    };
    assert_eq!(state.to_bytes(), [le(1), le(2), le(3), le(4), vec![0]].concat());
    let frozen = ClientState { frozen_height: Some(Height::new(5, 6)), ..state };
    assert_eq!(frozen.to_bytes(), [le(1), le(2), le(3), le(4), vec![1], le(5), le(6)].concat());
    let root = Digest::of(b"root");
    let consensus = ConsensusState { timestamp: 9, root };
    assert_eq!(consensus.to_bytes(), [le(9), root.bytes.to_vec()].concat());
}

#[test]
fn packet_commitment_covers_timeout_and_data() {
    let p = Packet {
        sequence: 1,
        source_port: PortId::new(1),
        source_channel: ChannelId::new(2),
        destination_port: PortId::new(3),
        destination_channel: ChannelId::new(4),
        data: vec![1, 2, 3],
        timeout_height: Height::new(5, 6),
        timeout_timestamp: 7,
    };
    let pre = [le(7), le(5), le(6), Digest::of(&[1, 2, 3]).bytes.to_vec()].concat();
    assert_eq!(p.commitment(), Digest::of(&pre));
    assert!(!p.is_timed_out_at(Height::new(5, 5), 6));
    assert!(p.is_timed_out_at(Height::new(5, 6), 0));
    assert!(p.is_timed_out_at(Height::new(6, 0), 0));
    assert!(p.is_timed_out_at(Height::new(0, 0), 7));
    let never = Packet { timeout_height: Height::zero(), timeout_timestamp: 0, ..p };
    assert!(!never.is_timed_out_at(Height::new(9, 9), u64::MAX));
}

#[test]
fn versions_are_negotiated_by_intersection() {
    let all = Version::default_version();
    assert_eq!(all, Version { identifier: 1, features: FeatureSet::all() });
    let ordered = Version { identifier: 1, features: FeatureSet { ordered: true, unordered: false } };
    let unordered = Version { identifier: 1, features: FeatureSet { ordered: false, unordered: true } };
    let none = Version { identifier: 1, features: FeatureSet { ordered: false, unordered: false } };
    let other = Version { identifier: 2, features: FeatureSet::all() };
    assert_eq!(pick_version(&all, &all), Ok(all));
    assert_eq!(pick_version(&all, &ordered), Ok(ordered));
    assert_eq!(pick_version(&unordered, &all), Ok(unordered));
    assert_eq!(pick_version(&ordered, &unordered), Err(ConnectionError::NoCommonVersion));
    assert_eq!(pick_version(&all, &other), Err(ConnectionError::NoCommonVersion));
    assert_eq!(pick_version(&all, &none), Err(ConnectionError::EmptyFeatures));
    assert_eq!(pick_version(&none, &all), Err(ConnectionError::NoCommonVersion));
    assert!(is_acceptable(&all, &ordered));
    assert!(is_acceptable(&ordered, &ordered));
    assert!(!is_acceptable(&ordered, &all));
    assert!(!is_acceptable(&all, &none));
    assert!(!is_acceptable(&all, &other));
    assert!(FeatureSet::all().intersect(&ordered.features) == ordered.features);
    assert!(ordered.features.subset_of(&FeatureSet::all()));
    assert!(!FeatureSet::all().subset_of(&ordered.features));
    assert!(none.features.is_empty());
    assert!(Order::Ordered.is_ordered());
    assert!(!Order::Unordered.is_ordered());
}
