//! The wallet page's decisions: which wallet a visit shows, the profile share
//! link and message, and the labels that depend on whose wallet is shown.

use crate::principal::PrincipalId;
use crate::principal::principal_of_text;
use crate::principal::principal_text_of;
use vstd::prelude::*;
use vstd::string::StringExecFns;

verus! {

/// Where a wallet visit leads: the wallet of the principal named in the
/// route, or — when the route names none — a redirect to the visitor's own
/// wallet.
pub enum WalletRoute {
    Show { principal: PrincipalId },
    RedirectToOwn,
}

/// Decides the wallet to show from the route's raw principal parameter: a
/// parameter that parses shows that wallet; a missing or unparsable one
/// redirects the visitor to their own.
pub fn wallet_route(id_param: Option<&str>) -> (r: WalletRoute)
    ensures
        (match id_param {
            Some(s) => match principal_of_text(s@) {
                Some(b) => r matches WalletRoute::Show { principal } && principal@ == b
                    && principal.wf(),
                None => r matches WalletRoute::RedirectToOwn,
            },
            None => r matches WalletRoute::RedirectToOwn,
        }),
{
    match id_param {
        Some(s) => match PrincipalId::from_text(s) {
            Some(principal) => WalletRoute::Show { principal },
            None => WalletRoute::RedirectToOwn,
        },
        None => WalletRoute::RedirectToOwn,
    }
}

/// The path of a wallet page.
pub open spec fn wallet_path(principal: Seq<u8>) -> Seq<char> {
    "/wallet/"@ + principal_text_of(principal)
}

/// The wallet page's own link: the share link of a profile, and the redirect
/// target for a visit that named no wallet.
pub fn wallet_share_link(principal: &PrincipalId) -> (r: String)
    requires
        principal.wf(),
    ensures
        r@ == wallet_path(principal@),
{
    let mut link: String = ("/wallet/").to_owned();
    let text = principal.to_text();
    link.append(text.as_str());
    link
}

/// The message shared alongside a profile: it carries the profile's wallet
/// link.
pub open spec fn profile_share_message_text(link: Seq<char>) -> Seq<char> {
    "Hey! Check out my YRAL profile 👇 "@ + link
        + ". I just minted my own token—come see and create yours! 🚀 #YRAL #TokenMinter"@
}

/// Builds the share message of a profile.
pub fn profile_share_message(link: &str) -> (r: String)
    ensures
        r@ == profile_share_message_text(link@),
{
    let mut message: String = ("Hey! Check out my YRAL profile 👇 ").to_owned();
    message.append(link);
    message.append(". I just minted my own token—come see and create yours! 🚀 #YRAL #TokenMinter");
    message
}

/// The wallet's data all hangs off the user's own canister: a lookup that
/// found none fails the page with a fixed message.
pub fn user_canister_or_error(found: Option<PrincipalId>) -> (r: Result<PrincipalId, String>)
    ensures
        (match found {
            Some(c) => r matches Ok(rc) && rc@ == c@,
            None => r matches Err(m) && m@ == "Failed to get user canister"@,
        }),
{
    match found {
        Some(c) => Ok(c),
        None => Err(("Failed to get user canister").to_owned()),
    }
}

/// The heading over the utility-token balance: owned wallets are addressed
/// directly.
pub fn coyns_balance_label(is_own_account: bool) -> (r: String)
    ensures
        is_own_account ==> r@ == "Your Coyns Balance"@,
        !is_own_account ==> r@ == "Coyns Balance"@,
{
    if is_own_account {
        ("Your Coyns Balance").to_owned()
    } else {
        ("Coyns Balance").to_owned()
    }
}

/// The heading over the token list: owned wallets are addressed directly.
pub fn tokens_label(is_own_account: bool) -> (r: String)
    ensures
        is_own_account ==> r@ == "My Tokens"@,
        !is_own_account ==> r@ == "Tokens"@,
{
    if is_own_account {
        ("My Tokens").to_owned()
    } else {
        ("Tokens").to_owned()
    }
}

/// The login prompt is shown only to a visitor looking at their own wallet
/// while not logged in.
pub fn show_login_prompt(is_connected: bool, is_own_account: bool) -> (r: bool)
    ensures
        r == (!is_connected && is_own_account),
{
    !is_connected && is_own_account
}

} // verus!
