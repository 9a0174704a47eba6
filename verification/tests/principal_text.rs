use yral_wallet::principal::PrincipalId;

#[test]
fn parses_known_principal_text() {
    let p = PrincipalId::from_text("67bll-riaaa-aaaaq-aaauq-cai").expect("should parse");
    assert_eq!(p.as_bytes().clone(), vec![0u8, 0, 0, 0, 2, 0, 0, 41, 1, 1]);
}

#[test]
fn text_round_trips_through_bytes() {
    let text = "67bll-riaaa-aaaaq-aaauq-cai";
    let p = PrincipalId::from_text(text).expect("should parse");
    assert_eq!(p.to_text(), text);
}

#[test]
fn anonymous_principal_text() {
    let p = PrincipalId::anonymous();
    assert_eq!(p.as_bytes().clone(), vec![4u8]);
    assert_eq!(p.to_text(), "2vxsx-fae");
}

#[test]
fn rejects_malformed_text() {
    assert!(PrincipalId::from_text("btc").is_none());
    assert!(PrincipalId::from_text("").is_none());
    assert!(PrincipalId::from_text("67bll-riaaa-aaaaq-aaauq-caj").is_none());
}

#[test]
fn from_bytes_enforces_length_bound() {
    assert!(PrincipalId::from_bytes(vec![0u8; 29]).is_some());
    assert!(PrincipalId::from_bytes(vec![0u8; 30]).is_none());
}

#[test]
fn byte_equality() {
    let a = PrincipalId::from_text("67bll-riaaa-aaaaq-aaauq-cai").unwrap();
    let b = PrincipalId::from_text("67bll-riaaa-aaaaq-aaauq-cai").unwrap();
    let c = PrincipalId::anonymous();
    assert!(a.same_as(&b));
    assert!(!a.same_as(&c));
    assert!(a.same_as(&a.key()));
}

#[test]
fn management_canister_text_is_of_empty_bytes() {
    let p = PrincipalId::from_bytes(Vec::new()).unwrap();
    assert_eq!(p.to_text(), "aaaaa-aa");
}
