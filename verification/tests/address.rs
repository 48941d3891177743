use solaudit::address::Address;
use solaudit::error::AuditError;
use solaudit::snapshot::AccountSnapshot;

#[test]
fn parse_decodes_the_system_address_to_zero_bytes() {
    // Thirty-two '1' characters are the base58 form of 32 zero bytes.
    let a = Address::parse("11111111111111111111111111111111").unwrap();
    assert!(a == Address::system());
    assert!(a == Address::from_bytes(vec![0u8; 32]).unwrap());
}

#[test]
fn parse_rejects_malformed_address_text() {
    match Address::parse("definitely not base58 0OIl") {
        Err(AuditError::InvalidInput(_)) => {},
        _ => panic!("expected an invalid-input failure"),
    }
}

#[test]
fn parse_rejects_text_of_the_wrong_length() {
    match Address::parse("abc") {
        Err(AuditError::InvalidInput(_)) => {},
        _ => panic!("expected an invalid-input failure"),
    }
}

#[test]
fn from_bytes_rejects_wrong_lengths() {
    assert!(Address::from_bytes(vec![0u8; 31]).is_none());
    assert!(Address::from_bytes(vec![0u8; 33]).is_none());
    assert!(Address::from_bytes(Vec::new()).is_none());
}

#[test]
fn addresses_compare_by_their_bytes() {
    let a = Address::from_bytes(vec![5u8; 32]).unwrap();
    let b = Address::from_bytes(vec![5u8; 32]).unwrap();
    let c = Address::from_bytes(vec![6u8; 32]).unwrap();
    assert!(a == b);
    assert!(a != c);
}

#[test]
fn default_snapshot_is_the_canonical_empty_account() {
    let addr = Address::from_bytes(vec![9u8; 32]).unwrap();
    let s = AccountSnapshot::default_for(addr);
    assert_eq!(s.lamports, 0);
    assert!(s.owner == Address::system());
    assert!(!s.executable);
    assert_eq!(s.data, Some(Vec::new()));
    assert_eq!(s.data_len, 0);
    assert_eq!(s.rent_epoch, 0);
}

#[test]
fn snapshots_compare_structurally() {
    let make = || AccountSnapshot {
        pubkey: Address::from_bytes(vec![2u8; 32]).unwrap(),
        lamports: 7,
        owner: Address::system(),
        executable: false,
        data: Some(vec![1, 2, 3]),
        data_len: 3,
        rent_epoch: 0,
    };
    let a = make();
    let b = make();
    assert!(a == b);
    let mut c = make();
    c.data = Some(vec![1, 2, 4]);
    assert!(a != c);
    let mut d = make();
    d.data = None;
    assert!(a != d);
}

#[test]
fn from_account_records_the_payload_length() {
    let addr = Address::from_bytes(vec![9u8; 32]).unwrap();
    let owner = Address::system();
    let s = AccountSnapshot::from_account(addr, 10, owner, false, vec![1, 2, 3, 4, 5], 3);
    assert_eq!(s.data_len, 5);
    assert_eq!(s.data, Some(vec![1, 2, 3, 4, 5]));
    assert_eq!(s.lamports, 10);
    assert_eq!(s.rent_epoch, 3);
}
