use yral_wallet::amount::TokenAmount;
use yral_wallet::principal::PrincipalId;
use yral_wallet::root::RootType;
use yral_wallet::token_list::RootsReply;
use yral_wallet::token_list::TokenRootList;

fn provider() -> TokenRootList {
    TokenRootList {
        user_canister: PrincipalId::from_text("67bll-riaaa-aaaaq-aaauq-cai").unwrap(),
        user_principal: PrincipalId::anonymous(),
    }
}

fn fetched(n: usize) -> RootsReply {
    let mut roots = Vec::new();
    for _ in 0..n {
        roots.push(PrincipalId::from_text("67bll-riaaa-aaaaq-aaauq-cai").unwrap());
    }
    RootsReply::Roots { roots }
}

fn nonzero() -> TokenAmount {
    TokenAmount::from_le_bytes(vec![5u8])
}

#[test]
fn first_page_splices_held_wellknown_tokens_in_front() {
    let page = provider().assemble_page(0, 10, fetched(2), Some(nonzero()), Some(nonzero()));
    assert_eq!(page.data.len(), 4);
    assert!(matches!(page.data[0], RootType::Btc { .. }));
    assert!(matches!(page.data[1], RootType::Usdc { .. }));
    assert!(matches!(page.data[2], RootType::Other { .. }));
    assert!(matches!(page.data[3], RootType::Other { .. }));
    assert!(page.end);
}

#[test]
fn zero_balances_keep_wellknown_tokens_out() {
    let page = provider().assemble_page(0, 10, fetched(1), Some(TokenAmount::zero()), None);
    assert_eq!(page.data.len(), 1);
    assert!(matches!(page.data[0], RootType::Other { .. }));
}

#[test]
fn only_the_held_wellknown_token_is_spliced() {
    let page = provider().assemble_page(0, 10, fetched(0), Some(TokenAmount::zero()), Some(nonzero()));
    assert_eq!(page.data.len(), 1);
    assert!(matches!(page.data[0], RootType::Usdc { .. }));
    assert!(page.end);
}

#[test]
fn later_pages_carry_no_prefix() {
    let page = provider().assemble_page(10, 20, fetched(10), Some(nonzero()), Some(nonzero()));
    assert_eq!(page.data.len(), 10);
    assert!(page.data.iter().all(|rt| matches!(rt, RootType::Other { .. })));
    assert!(!page.end);
}

#[test]
fn a_full_window_does_not_end_the_list() {
    let page = provider().assemble_page(0, 3, fetched(3), None, None);
    assert_eq!(page.data.len(), 3);
    assert!(!page.end);
}

#[test]
fn a_short_window_ends_the_list() {
    let page = provider().assemble_page(0, 3, fetched(2), None, None);
    assert!(page.end);
}

#[test]
fn a_refused_reply_yields_only_the_prefix_and_ends_the_list() {
    let reply = RootsReply::Failed { message: "unavailable".to_string() };
    let page = provider().assemble_page(0, 10, reply, Some(nonzero()), None);
    assert_eq!(page.data.len(), 1);
    assert!(matches!(page.data[0], RootType::Btc { .. }));
    assert!(page.end);
}

#[test]
fn an_empty_window_of_an_empty_wallet_ends_the_list() {
    let page = provider().assemble_page(0, 10, fetched(0), None, None);
    assert!(page.data.is_empty());
    assert!(page.end);
}
