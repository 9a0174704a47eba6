use yral_wallet::decimal::format_u64;
use yral_wallet::principal::PrincipalId;
use yral_wallet::wallet::WalletRoute;
use yral_wallet::wallet::coyns_balance_label;
use yral_wallet::wallet::profile_share_message;
use yral_wallet::wallet::show_login_prompt;
use yral_wallet::wallet::tokens_label;
use yral_wallet::wallet::user_canister_or_error;
use yral_wallet::wallet::wallet_route;
use yral_wallet::wallet::wallet_share_link;

#[test]
fn a_valid_parameter_shows_that_wallet() {
    match wallet_route(Some("67bll-riaaa-aaaaq-aaauq-cai")) {
        WalletRoute::Show { principal } => {
            assert_eq!(principal.to_text(), "67bll-riaaa-aaaaq-aaauq-cai");
        }
        WalletRoute::RedirectToOwn => panic!("expected the named wallet"),
    }
}

#[test]
fn a_bad_or_missing_parameter_redirects_home() {
    assert!(matches!(wallet_route(Some("not-a-principal")), WalletRoute::RedirectToOwn));
    assert!(matches!(wallet_route(None), WalletRoute::RedirectToOwn));
}

#[test]
fn wallet_link_names_the_principal() {
    let p = PrincipalId::anonymous();
    assert_eq!(wallet_share_link(&p), "/wallet/2vxsx-fae");
}

#[test]
fn profile_message_carries_the_link() {
    let message = profile_share_message("/wallet/2vxsx-fae");
    assert_eq!(
        message,
        "Hey! Check out my YRAL profile 👇 /wallet/2vxsx-fae. I just minted my own token—come see and create yours! 🚀 #YRAL #TokenMinter"
    );
}

#[test]
fn labels_follow_ownership() {
    assert_eq!(coyns_balance_label(true), "Your Coyns Balance");
    assert_eq!(coyns_balance_label(false), "Coyns Balance");
    assert_eq!(tokens_label(true), "My Tokens");
    assert_eq!(tokens_label(false), "Tokens");
}

#[test]
fn login_prompt_only_for_disconnected_owner() {
    assert!(show_login_prompt(false, true));
    assert!(!show_login_prompt(true, true));
    assert!(!show_login_prompt(false, false));
    assert!(!show_login_prompt(true, false));
}

#[test]
fn decimal_rendering_round_trips() {
    for n in [0u64, 1, 9, 10, 99, 100, 12345, u64::MAX] {
        assert_eq!(format_u64(n).parse::<u64>().unwrap(), n);
    }
}

#[test]
fn decimal_rendering() {
    assert_eq!(format_u64(0), "0");
    assert_eq!(format_u64(7), "7");
    assert_eq!(format_u64(10), "10");
    assert_eq!(format_u64(120), "120");
    assert_eq!(format_u64(98765), "98765");
    assert_eq!(format_u64(u64::MAX), "18446744073709551615");
}

#[test]
fn a_missing_user_canister_is_a_fixed_error() {
    let found = PrincipalId::anonymous();
    match user_canister_or_error(Some(found)) {
        Ok(c) => assert_eq!(c.to_text(), "2vxsx-fae"),
        Err(_) => panic!("a found canister must be kept"),
    }
    match user_canister_or_error(None) {
        Ok(_) => panic!("a missing canister must be an error"),
        Err(message) => assert_eq!(message, "Failed to get user canister"),
    }
}
