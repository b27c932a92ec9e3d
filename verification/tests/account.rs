use group_treasury::{AccountId, AddressKind};

#[test]
fn contract_address_encoding() {
    let a = AccountId::new(AddressKind::Contract, [7u8; 32]);
    let bytes = a.to_xdr();
    assert_eq!(bytes.len(), 40);
    assert_eq!(&bytes[..8], &[0, 0, 0, 18, 0, 0, 0, 1]);
    assert!(bytes[8..].iter().all(|b| *b == 7));
    let back = AccountId::from_xdr(&bytes).unwrap();
    assert!(back.same_as(&a));
}

#[test]
fn account_address_encoding() {
    let mut key = [0u8; 32];
    key[0] = 1;
    key[31] = 255;
    let a = AccountId::new(AddressKind::Account, key);
    let bytes = a.to_xdr();
    assert_eq!(bytes.len(), 44);
    assert_eq!(&bytes[..12], &[0, 0, 0, 18, 0, 0, 0, 0, 0, 0, 0, 0]);
    assert_eq!(bytes[12], 1);
    assert_eq!(bytes[43], 255);
    let back = AccountId::from_xdr(&bytes).unwrap();
    assert!(back.same_as(&a));
}

#[test]
fn malformed_encodings_are_refused() {
    let good = AccountId::new(AddressKind::Contract, [3u8; 32]).to_xdr();
    assert!(AccountId::from_xdr(&good[..39]).is_none());
    let mut wrong_tag = good.clone();
    wrong_tag[3] = 17;
    assert!(AccountId::from_xdr(&wrong_tag).is_none());
    let mut wrong_kind = good.clone();
    wrong_kind[7] = 2;
    assert!(AccountId::from_xdr(&wrong_kind).is_none());
    let mut long = good.clone();
    long.push(0);
    assert!(AccountId::from_xdr(&long).is_none());
    assert!(AccountId::from_xdr(&[]).is_none());
    let mut bad_key_type = AccountId::new(AddressKind::Account, [3u8; 32]).to_xdr();
    bad_key_type[11] = 1;
    assert!(AccountId::from_xdr(&bad_key_type).is_none());
}
