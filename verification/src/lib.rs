//! Core logic of a wallet front end for a canister-backed token network:
//! principal identifiers and their text form, token amounts, the cursored
//! token-list pagination with its well-known featured tokens, token metadata
//! fallbacks, and the share links and labels the wallet pages render.

pub mod amount;
pub mod decimal;
pub mod metadata;
pub mod non_yral;
pub mod principal;
pub mod root;
pub mod token_list;
pub mod wallet;
