//! The cursored token-list provider. A page of token roots is fetched for a
//! window `[start, end)` of the user's tokens; the first page is prefixed
//! with the well-known tokens the user holds a balance of, and a short page
//! signals the end of the list.

use crate::amount::TokenAmount;
use crate::principal::PrincipalId;
use crate::root::RootType;
use crate::root::RootTypeValue;
use crate::root::btc_root_value;
use crate::root::usdc_root_value;
use vstd::prelude::*;

verus! {

/// One fetched window of a logically larger, server-held list. `end` says
/// that the list is exhausted: no further window need be fetched.
pub struct PageEntry<T> {
    pub data: Vec<T>,
    pub end: bool,
}

/// What the user's canister replied when asked for a window of token roots:
/// the roots, or a refusal carrying the canister's message.
pub enum RootsReply {
    Roots { roots: Vec<PrincipalId> },
    Failed { message: String },
}

impl RootsReply {
    /// Every root of the reply is a well-formed principal.
    pub open spec fn wf(&self) -> bool {
        match self {
            RootsReply::Roots { roots } => forall|i: int|
                0 <= i < roots@.len() ==> (#[trigger] roots@[i]).wf(),
            RootsReply::Failed { .. } => true,
        }
    }
}

/// The provider of the wallet's token list: which user's tokens are listed,
/// and through which user canister they are fetched.
pub struct TokenRootList {
    pub user_canister: PrincipalId,
    pub user_principal: PrincipalId,
}

/// A featured well-known token is shown when its balance was fetched and is
/// not zero; a failed balance fetch leaves it out.
pub open spec fn featured_eligible(balance: &Option<TokenAmount>) -> bool {
    match balance {
        Some(a) => a@ != 0,
        None => false,
    }
}

/// The well-known tokens spliced in front of the first page, in their fixed
/// order: the bitcoin-backed token, then the dollar-backed one.
pub open spec fn featured_prefix(
    btc_balance: &Option<TokenAmount>,
    usdc_balance: &Option<TokenAmount>,
) -> Seq<RootTypeValue> {
    (if featured_eligible(btc_balance) {
        seq![btc_root_value()]
    } else {
        Seq::empty()
    }) + (if featured_eligible(usdc_balance) {
        seq![usdc_root_value()]
    } else {
        Seq::empty()
    })
}

/// The values of a sequence of listed roots.
pub open spec fn root_views(s: Seq<RootType>) -> Seq<RootTypeValue> {
    s.map_values(|rt: RootType| rt@)
}

/// Fetched roots, each taken as the root of a user-created token.
pub open spec fn other_values(ps: Seq<PrincipalId>) -> Seq<RootTypeValue> {
    ps.map_values(|p: PrincipalId| RootTypeValue::Other { root: p@ })
}

/// The roots a reply contributes to the page: each fetched root as a
/// user-created token, and nothing when the canister refused.
pub open spec fn base_root_values(reply: &RootsReply) -> Seq<RootTypeValue> {
    match reply {
        RootsReply::Roots { roots } => other_values(roots@),
        RootsReply::Failed { .. } => Seq::empty(),
    }
}

/// The whole page for a window starting at `start`: the first window also
/// carries the featured prefix.
pub open spec fn page_root_values(
    start: int,
    reply: &RootsReply,
    btc_balance: &Option<TokenAmount>,
    usdc_balance: &Option<TokenAmount>,
) -> Seq<RootTypeValue> {
    if start == 0 {
        featured_prefix(btc_balance, usdc_balance) + base_root_values(reply)
    } else {
        base_root_values(reply)
    }
}

/// The list is exhausted exactly when the reply holds fewer roots than the
/// window asked for; the featured prefix does not count towards the window.
pub open spec fn page_is_end(start: int, end: int, reply: &RootsReply) -> bool {
    base_root_values(reply).len() < end - start
}

proof fn lemma_root_views_push(s: Seq<RootType>, x: RootType)
    ensures
        root_views(s.push(x)) == root_views(s).push(x@),
{
    assert(root_views(s.push(x)) =~= root_views(s).push(x@));
}

proof fn lemma_other_values_push(ps: Seq<PrincipalId>, p: PrincipalId)
    ensures
        other_values(ps.push(p)) == other_values(ps).push(RootTypeValue::Other { root: p@ }),
{
    assert(other_values(ps.push(p)) =~= other_values(ps).push(
        RootTypeValue::Other { root: p@ },
    ));
}

impl TokenRootList {
    pub open spec fn wf(&self) -> bool {
        self.user_canister.wf() && self.user_principal.wf()
    }

    /// Assembles the page for the window `[start, end)` out of the canister's
    /// reply and the fetched balances of the two well-known tokens.
    pub fn assemble_page(
        &self,
        start: usize,
        end: usize,
        reply: RootsReply,
        btc_balance: Option<TokenAmount>,
        usdc_balance: Option<TokenAmount>,
    ) -> (r: PageEntry<RootType>)
        requires
            start <= end,
            reply.wf(),
        ensures
            root_views(r.data@) == page_root_values(
                start as int,
                &reply,
                &btc_balance,
                &usdc_balance,
            ),
            r.end == page_is_end(start as int, end as int, &reply),
            forall|i: int| 0 <= i < r.data@.len() ==> (#[trigger] r.data@[i]).wf(),
    {
        let mut data: Vec<RootType> = Vec::new();
        if start == 0 {
            let btc_wanted = match &btc_balance {
                Some(a) => !a.is_zero(),
                None => false,
            };
            if btc_wanted {
                data.push(RootType::btc());
            }
            let usdc_wanted = match &usdc_balance {
                Some(a) => !a.is_zero(),
                None => false,
            };
            if usdc_wanted {
                data.push(RootType::usdc());
            }
            proof {
                assert(root_views(data@) =~= featured_prefix(&btc_balance, &usdc_balance));
            }
        }
        let ghost prefix: Seq<RootTypeValue> = root_views(data@);
        let fetched_len: usize;
        match &reply {
            RootsReply::Roots { roots } => {
                fetched_len = roots.len();
                let mut i: usize = 0;
                while i < roots.len()
                    invariant
                        i <= roots@.len(),
                        (reply matches RootsReply::Roots { roots: rs } && rs == roots),
                        reply.wf(),
                        root_views(data@) == prefix + other_values(
                            roots@.subrange(0, i as int),
                        ),
                        forall|j: int| 0 <= j < data@.len() ==> (#[trigger] data@[j]).wf(),
                    decreases roots@.len() - i,
                {
                    let ghost pre = data@;
                    let rt = RootType::other(roots[i].key());
                    let ghost grt = rt;
                    data.push(rt);
                    proof {
                        lemma_root_views_push(pre, grt);
                        assert(roots@.subrange(0, i + 1 as int) =~= roots@.subrange(
                            0,
                            i as int,
                        ).push(roots@[i as int]));
                        lemma_other_values_push(
                            roots@.subrange(0, i as int),
                            roots@[i as int],
                        );
                        assert(root_views(data@) =~= prefix + other_values(
                            roots@.subrange(0, i + 1 as int),
                        ));
                    }
                    i = i + 1;
                }
                proof {
                    assert(roots@.subrange(0, roots@.len() as int) =~= roots@);
                }
            },
            RootsReply::Failed { .. } => {
                fetched_len = 0;
            },
        }
        let is_end = fetched_len < end - start;
        proof {
            if start != 0 {
                assert(prefix =~= Seq::<RootTypeValue>::empty());
            }
            assert(prefix + base_root_values(&reply) =~= page_root_values(
                start as int,
                &reply,
                &btc_balance,
                &usdc_balance,
            ));
        }
        PageEntry { data, end: is_end }
    }
}

} // verus!
