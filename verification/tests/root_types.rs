use yral_wallet::root::RootType;

#[test]
fn parse_btc_names_the_wellknown_canisters() {
    match RootType::parse("btc") {
        Some(RootType::Btc { ledger, index }) => {
            assert_eq!(ledger.to_text(), "mxzaz-hqaaa-aaaar-qaada-cai");
            assert_eq!(index.to_text(), "n5wcd-faaaa-aaaar-qaaea-cai");
        }
        _ => panic!("expected the bitcoin-backed root"),
    }
}

#[test]
fn parse_usdc_names_the_wellknown_canisters() {
    match RootType::parse("usdc") {
        Some(RootType::Usdc { ledger, index }) => {
            assert_eq!(ledger.to_text(), "xevnm-gaaaa-aaaar-qafnq-cai");
            assert_eq!(index.to_text(), "xrs4b-hiaaa-aaaar-qafoa-cai");
        }
        _ => panic!("expected the dollar-backed root"),
    }
}

#[test]
fn parse_principal_text_gives_a_user_token_root() {
    match RootType::parse("67bll-riaaa-aaaaq-aaauq-cai") {
        Some(RootType::Other { root }) => {
            assert_eq!(root.to_text(), "67bll-riaaa-aaaaq-aaauq-cai");
        }
        _ => panic!("expected a user-created token root"),
    }
}

#[test]
fn parse_rejects_other_names() {
    assert!(RootType::parse("eth").is_none());
    assert!(RootType::parse("BTC").is_none());
    assert!(RootType::parse("").is_none());
}

#[test]
fn key_keeps_the_root() {
    let root = RootType::parse("usdc").unwrap();
    match (root.key(), root) {
        (RootType::Usdc { ledger: k, .. }, RootType::Usdc { ledger, .. }) => {
            assert!(k.same_as(&ledger));
        }
        _ => panic!("key changed the root's shape"),
    }
}
