use hyperspace_core::error::ValidationError;
use hyperspace_core::identifier::{parse_identifier, write_identifier};
use hyperspace_core::ids::{ChannelId, ClientId, ConnectionId, PortId};

#[test]
fn identifiers_are_read_from_text() {
    assert_eq!(ConnectionId::from_text(b"connection-0"), Ok(ConnectionId::new(0)));
    assert_eq!(ConnectionId::from_text(b"connection-7"), Ok(ConnectionId::new(7)));
    assert_eq!(ChannelId::from_text(b"channel-42"), Ok(ChannelId::new(42)));
    assert_eq!(ClientId::from_text(b"client-1234567890"), Ok(ClientId::new(1234567890)));
    assert_eq!(PortId::from_text(b"port-9"), Ok(PortId::new(9)));
    assert_eq!(
        ChannelId::from_text(b"channel-18446744073709551615"),
        Ok(ChannelId::new(u64::MAX))
    );
}

#[test]
fn malformed_identifiers_are_refused() {
    assert_eq!(ConnectionId::from_text(b""), Err(ValidationError::Empty));
    assert_eq!(
        ConnectionId::from_text(b"connection-"),
        Err(ValidationError::InvalidLength { length: 11 })
    );
    assert_eq!(ConnectionId::from_text(b"conn"), Err(ValidationError::InvalidLength { length: 4 }));
    let long = [b"channel-".to_vec(), vec![b'1'; 57]].concat();
    assert_eq!(long.len(), 65);
    assert_eq!(ChannelId::from_text(&long), Err(ValidationError::InvalidLength { length: 65 }));
    assert_eq!(ConnectionId::from_text(b"connexion-12"), Err(ValidationError::InvalidPrefix));
    assert_eq!(ChannelId::from_text(b"connection-1"), Err(ValidationError::InvalidPrefix));
    assert_eq!(ClientId::from_text(b"Client-1"), Err(ValidationError::InvalidPrefix));
    assert_eq!(
        ChannelId::from_text(b"channel-1a"),
        Err(ValidationError::InvalidCharacter { position: 9 })
    );
    assert_eq!(
        ChannelId::from_text(b"channel--1"),
        Err(ValidationError::InvalidCharacter { position: 8 })
    );
    assert_eq!(
        PortId::from_text(b"port-1 2"),
        Err(ValidationError::InvalidCharacter { position: 6 })
    );
    assert_eq!(ChannelId::from_text(b"channel-01"), Err(ValidationError::LeadingZero));
    assert_eq!(ChannelId::from_text(b"channel-00"), Err(ValidationError::LeadingZero));
    assert_eq!(
        ChannelId::from_text(b"channel-18446744073709551616"),
        Err(ValidationError::NumberTooLarge)
    );
    assert_eq!(
        ChannelId::from_text(b"channel-99999999999999999999999"),
        Err(ValidationError::NumberTooLarge)
    );
}

#[test]
fn identifiers_are_written_as_they_are_read() {
    assert_eq!(ConnectionId::new(0).to_text(), b"connection-0".to_vec());
    assert_eq!(ConnectionId::new(10).to_text(), b"connection-10".to_vec());
    assert_eq!(ClientId::new(907).to_text(), b"client-907".to_vec());
    assert_eq!(PortId::new(3).to_text(), b"port-3".to_vec());
    assert_eq!(ChannelId::new(u64::MAX).to_text(), b"channel-18446744073709551615".to_vec());
    for n in [0u64, 1, 9, 10, 99, 100, 12345, u64::MAX - 1, u64::MAX] {
        assert_eq!(ChannelId::from_text(&ChannelId::new(n).to_text()), Ok(ChannelId::new(n)));
        assert_eq!(ClientId::from_text(&ClientId::new(n).to_text()), Ok(ClientId::new(n)));
        assert_eq!(parse_identifier(b"x-", &write_identifier(b"x-", n)), Ok(n));
    }
    assert_eq!(write_identifier(b"", 120), b"120".to_vec());
    assert_eq!(parse_identifier(b"", b"120"), Ok(120));
}
