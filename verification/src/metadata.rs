//! Token metadata as the wallet shows it: what a token's root resolves to,
//! the fallback shown when resolution fails, and the share link and message
//! built from the metadata.

use crate::amount::TokenAmount;
use crate::principal::PrincipalId;
use crate::principal::anonymous_bytes;
use crate::principal::principal_text_of;
use crate::root::RootType;
use vstd::prelude::*;
use vstd::string::StringExecFns;

verus! {

/// A token balance as the wallet holds it: either still being claimed, or a
/// settled amount.
pub enum BalanceOrClaiming {
    Claiming,
    Ready { amount: TokenAmount },
}

/// What a token's root resolved to: the fields the wallet's tiles render.
pub struct TokenMetadata {
    pub logo_b64: String,
    pub name: String,
    pub description: String,
    pub symbol: String,
    pub balance: Option<BalanceOrClaiming>,
    pub fees: TokenAmount,
    pub root: Option<PrincipalId>,
    pub ledger: PrincipalId,
    pub index: PrincipalId,
    pub decimals: u8,
}

/// The lowercase form of a piece of text.
pub uninterp spec fn lower_of(s: Seq<char>) -> Seq<char>;

/// Relies on str::to_lowercase: the lowercase form of a string depends on its
/// characters alone.
#[verifier::external_body]
fn to_lowercase_via_std(s: &str) -> (r: String)
    ensures
        r@ == lower_of(s@),
{
    s.to_lowercase()
}

/// Where a token's metadata is to be fetched from: the well-known tokens are
/// resolved through their ledger and index canisters, a user-created token
/// through its root canister.
pub enum MetadataSource {
    CkLedger { ledger: PrincipalId, index: PrincipalId },
    Root { root: PrincipalId },
}

/// The fetch plan for a root's metadata.
pub fn metadata_source(root_type: &RootType) -> (r: MetadataSource)
    ensures
        (match *root_type {
            RootType::Btc { ref ledger, ref index } => r matches MetadataSource::CkLedger {
                ledger: l,
                index: ix,
            } && l@ == ledger@ && ix@ == index@,
            RootType::Usdc { ref ledger, ref index } => r matches MetadataSource::CkLedger {
                ledger: l,
                index: ix,
            } && l@ == ledger@ && ix@ == index@,
            RootType::Other { ref root } => r matches MetadataSource::Root { root: rr } && rr@
                == root@,
        }),
{
    match root_type {
        RootType::Btc { ledger, index } => MetadataSource::CkLedger {
            ledger: ledger.key(),
            index: index.key(),
        },
        RootType::Usdc { ledger, index } => MetadataSource::CkLedger {
            ledger: ledger.key(),
            index: index.key(),
        },
        RootType::Other { root } => MetadataSource::Root { root: root.key() },
    }
}

/// The metadata shown for a token root: what resolution yielded, or the fixed
/// placeholder card around the given fallback logo.
pub fn token_metadata_or_fallback(
    fetched: Option<TokenMetadata>,
    fallback_logo: String,
) -> (r: TokenMetadata)
    ensures
        (match fetched {
            Some(m) => r == m,
            None => {
                &&& r.logo_b64@ == fallback_logo@
                &&& r.name@ == "<ERROR>"@
                &&& r.description@ == "Unknown"@
                &&& r.symbol@ == "??"@
                &&& r.balance matches Some(BalanceOrClaiming::Claiming)
                &&& r.fees@ == 0
                &&& (r.root matches Some(p) && p@ == anonymous_bytes())
                &&& r.ledger@ == anonymous_bytes()
                &&& r.index@ == anonymous_bytes()
                &&& r.decimals == 8
            },
        }),
{
    match fetched {
        Some(m) => m,
        None => TokenMetadata {
            logo_b64: fallback_logo,
            name: ("<ERROR>").to_owned(),
            description: ("Unknown").to_owned(),
            symbol: ("??").to_owned(),
            balance: Some(BalanceOrClaiming::Claiming),
            fees: TokenAmount::zero(),
            root: Some(PrincipalId::anonymous()),
            ledger: PrincipalId::anonymous(),
            index: PrincipalId::anonymous(),
            decimals: 8,
        },
    }
}

/// The path a token's share link points at: the token-info page for the
/// token's root — or, for a rootless card, the lowercased token name — and
/// the visited wallet's principal, asking for the fixed airdrop amount.
pub open spec fn token_share_path(
    root: Option<PrincipalId>,
    name: Seq<char>,
    user_principal: Seq<u8>,
) -> Seq<char> {
    "/token/info/"@ + (match root {
        Some(p) => principal_text_of(p@),
        None => lower_of(name),
    }) + "/"@ + principal_text_of(user_principal) + "?airdrop_amt=100"@
}

/// Builds the share link for a token's metadata.
pub fn generate_share_link_from_metadata(
    token_meta_data: &TokenMetadata,
    user_principal: &PrincipalId,
) -> (r: String)
    requires
        user_principal.wf(),
        (token_meta_data.root matches Some(p) ==> p.wf()),
    ensures
        r@ == token_share_path(token_meta_data.root, token_meta_data.name@, user_principal@),
{
    let mut link: String = ("/token/info/").to_owned();
    let root_part: String = match &token_meta_data.root {
        Some(p) => p.to_text(),
        None => to_lowercase_via_std(token_meta_data.name.as_str()),
    };
    link.append(root_part.as_str());
    link.append("/");
    let user_part = user_principal.to_text();
    link.append(user_part.as_str());
    link.append("?airdrop_amt=100");
    link
}

/// The message shared alongside a token: it names the token's symbol and
/// carries the share link.
pub open spec fn token_share_message_text(symbol: Seq<char>, link: Seq<char>) -> Seq<char> {
    "Hey! Check out the token: "@ + symbol + " I created on YRAL 👇 "@ + link
        + ". I just minted my own token—come see and create yours! 🚀 #YRAL #TokenMinter"@
}

/// Builds the share message for a token tile.
pub fn token_share_message(symbol: &str, link: &str) -> (r: String)
    ensures
        r@ == token_share_message_text(symbol@, link@),
{
    let mut message: String = ("Hey! Check out the token: ").to_owned();
    message.append(symbol);
    message.append(" I created on YRAL 👇 ");
    message.append(link);
    message.append(". I just minted my own token—come see and create yours! 🚀 #YRAL #TokenMinter");
    message
}

} // verus!
