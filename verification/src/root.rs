//! Token roots: the canonical identity of a token deployment. Besides the
//! user-created tokens, two well-known ledger-backed tokens are singled out so
//! the wallet can feature them.

use crate::principal::PrincipalId;
use crate::principal::principal_of_text;
use vstd::prelude::*;

verus! {

/// Bytes of the well-known bitcoin-backed token's ledger canister.
pub open spec fn ck_btc_ledger_bytes() -> Seq<u8> {
    seq![0u8, 0u8, 0u8, 0u8, 2u8, 48u8, 0u8, 6u8, 1u8, 1u8]
}

/// Bytes of the well-known bitcoin-backed token's index canister.
pub open spec fn ck_btc_index_bytes() -> Seq<u8> {
    seq![0u8, 0u8, 0u8, 0u8, 2u8, 48u8, 0u8, 8u8, 1u8, 1u8]
}

/// Bytes of the well-known dollar-backed token's ledger canister.
pub open spec fn ck_usdc_ledger_bytes() -> Seq<u8> {
    seq![0u8, 0u8, 0u8, 0u8, 2u8, 48u8, 1u8, 91u8, 1u8, 1u8]
}

/// Bytes of the well-known dollar-backed token's index canister.
pub open spec fn ck_usdc_index_bytes() -> Seq<u8> {
    seq![0u8, 0u8, 0u8, 0u8, 2u8, 48u8, 1u8, 92u8, 1u8, 1u8]
}

/// A token root: either one of the two well-known ledger-backed tokens, with
/// their ledger and index canisters, or the root canister of a user-created
/// token.
pub enum RootType {
    Btc { ledger: PrincipalId, index: PrincipalId },
    Usdc { ledger: PrincipalId, index: PrincipalId },
    Other { root: PrincipalId },
}

/// The mathematical value of a [`RootType`]: the same shape over plain byte
/// strings.
pub enum RootTypeValue {
    Btc { ledger: Seq<u8>, index: Seq<u8> },
    Usdc { ledger: Seq<u8>, index: Seq<u8> },
    Other { root: Seq<u8> },
}

impl View for RootType {
    type V = RootTypeValue;

    open spec fn view(&self) -> RootTypeValue {
        match self {
            RootType::Btc { ledger, index } => RootTypeValue::Btc {
                ledger: ledger@,
                index: index@,
            },
            RootType::Usdc { ledger, index } => RootTypeValue::Usdc {
                ledger: ledger@,
                index: index@,
            },
            RootType::Other { root } => RootTypeValue::Other { root: root@ },
        }
    }
}

/// The value of the well-known bitcoin-backed root.
pub open spec fn btc_root_value() -> RootTypeValue {
    RootTypeValue::Btc { ledger: ck_btc_ledger_bytes(), index: ck_btc_index_bytes() }
}

/// The value of the well-known dollar-backed root.
pub open spec fn usdc_root_value() -> RootTypeValue {
    RootTypeValue::Usdc { ledger: ck_usdc_ledger_bytes(), index: ck_usdc_index_bytes() }
}

/// What parsing a root-type name yields: one of the two well-known names, or
/// the text form of a token root's principal.
pub open spec fn root_type_of_text(s: Seq<char>) -> Option<RootTypeValue> {
    if s == "btc"@ {
        Some(btc_root_value())
    } else if s == "usdc"@ {
        Some(usdc_root_value())
    } else {
        match principal_of_text(s) {
            Some(b) => Some(RootTypeValue::Other { root: b }),
            None => None,
        }
    }
}

impl RootType {
    /// All principals of the root are well formed.
    pub open spec fn wf(&self) -> bool {
        match self {
            RootType::Btc { ledger, index } => ledger.wf() && index.wf(),
            RootType::Usdc { ledger, index } => ledger.wf() && index.wf(),
            RootType::Other { root } => root.wf(),
        }
    }

    /// The well-known bitcoin-backed root.
    pub fn btc() -> (r: RootType)
        ensures
            r@ == btc_root_value(),
            r.wf(),
    {
        let ledger_bytes: Vec<u8> = vec![0u8, 0u8, 0u8, 0u8, 2u8, 48u8, 0u8, 6u8, 1u8, 1u8];
        let index_bytes: Vec<u8> = vec![0u8, 0u8, 0u8, 0u8, 2u8, 48u8, 0u8, 8u8, 1u8, 1u8];
        proof {
            assert(ledger_bytes@ =~= ck_btc_ledger_bytes());
            assert(index_bytes@ =~= ck_btc_index_bytes());
        }
        let ledger = PrincipalId::from_short_bytes(ledger_bytes);
        let index = PrincipalId::from_short_bytes(index_bytes);
        RootType::Btc { ledger, index }
    }

    /// The well-known dollar-backed root.
    pub fn usdc() -> (r: RootType)
        ensures
            r@ == usdc_root_value(),
            r.wf(),
    {
        let ledger_bytes: Vec<u8> = vec![0u8, 0u8, 0u8, 0u8, 2u8, 48u8, 1u8, 91u8, 1u8, 1u8];
        let index_bytes: Vec<u8> = vec![0u8, 0u8, 0u8, 0u8, 2u8, 48u8, 1u8, 92u8, 1u8, 1u8];
        proof {
            assert(ledger_bytes@ =~= ck_usdc_ledger_bytes());
            assert(index_bytes@ =~= ck_usdc_index_bytes());
        }
        let ledger = PrincipalId::from_short_bytes(ledger_bytes);
        let index = PrincipalId::from_short_bytes(index_bytes);
        RootType::Usdc { ledger, index }
    }

    /// A root for a user-created token.
    pub fn other(root: PrincipalId) -> (r: RootType)
        ensures
            r@ == (RootTypeValue::Other { root: root@ }),
    {
        RootType::Other { root }
    }

    /// Parses a root-type name: the two well-known names, or a principal in
    /// text form.
    pub fn parse(s: &str) -> (r: Option<RootType>)
        ensures
            (match r {
                Some(rt) => root_type_of_text(s@) == Some(rt@) && rt.wf(),
                None => root_type_of_text(s@) is None,
            }),
    {
        let owned: String = s.to_owned();
        let btc_name: String = ("btc").to_owned();
        if owned == btc_name {
            return Some(RootType::btc());
        }
        let usdc_name: String = ("usdc").to_owned();
        if owned == usdc_name {
            return Some(RootType::usdc());
        }
        match PrincipalId::from_text(s) {
            Some(p) => Some(RootType::Other { root: p }),
            None => None,
        }
    }

    /// The key under which a keyed list tracks this root: the root itself.
    pub fn key(&self) -> (r: RootType)
        ensures
            r@ == self@,
    {
        match self {
            RootType::Btc { ledger, index } => RootType::Btc {
                ledger: ledger.key(),
                index: index.key(),
            },
            RootType::Usdc { ledger, index } => RootType::Usdc {
                ledger: ledger.key(),
                index: index.key(),
            },
            RootType::Other { root } => RootType::Other { root: root.key() },
        }
    }
}

} // verus!
