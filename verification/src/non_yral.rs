//! Tokens that are supported but not user-created: a fixed list of roots,
//! each shown only while the user holds a positive balance of it.

use crate::metadata::BalanceOrClaiming;
use crate::metadata::TokenMetadata;
use crate::principal::PrincipalId;
use vstd::prelude::*;

verus! {

/// Bytes of the one supported non-user-created token root.
pub open spec fn supported_non_yral_root_bytes() -> Seq<u8> {
    seq![0u8, 0u8, 0u8, 0u8, 2u8, 0u8, 0u8, 41u8, 1u8, 1u8]
}

/// The supported non-user-created token roots, in the order they are probed.
pub fn supported_non_yral_token_roots() -> (r: Vec<PrincipalId>)
    ensures
        r@.len() == 1,
        r@[0]@ == supported_non_yral_root_bytes(),
        r@[0].wf(),
{
    let bytes: Vec<u8> = vec![0u8, 0u8, 0u8, 0u8, 2u8, 0u8, 0u8, 41u8, 1u8, 1u8];
    proof {
        assert(bytes@ =~= supported_non_yral_root_bytes());
    }
    let root = PrincipalId::from_short_bytes(bytes);
    let mut r: Vec<PrincipalId> = Vec::new();
    r.push(root);
    r
}

/// A probed root is eligible when its metadata resolved and reports a settled,
/// positive balance; a failed lookup, a missing balance and a balance still
/// being claimed all leave it out.
pub open spec fn eligible_root(meta: &Option<TokenMetadata>) -> bool {
    match meta {
        Some(m) => match m.balance {
            Some(BalanceOrClaiming::Ready { amount }) => amount@ > 0,
            _ => false,
        },
        None => false,
    }
}

/// The eligible roots of a sequence of probed roots, in probe order, as byte
/// strings.
pub open spec fn eligible_values(results: Seq<(PrincipalId, Option<TokenMetadata>)>) -> Seq<
    Seq<u8>,
>
    decreases results.len(),
{
    if results.len() == 0 {
        Seq::empty()
    } else {
        let rest = eligible_values(results.drop_last());
        if eligible_root(&results.last().1) {
            rest.push(results.last().0@)
        } else {
            rest
        }
    }
}

/// The values of a sequence of principals.
pub open spec fn principal_views(ps: Seq<PrincipalId>) -> Seq<Seq<u8>> {
    ps.map_values(|p: PrincipalId| p@)
}

proof fn lemma_principal_views_push(ps: Seq<PrincipalId>, p: PrincipalId)
    ensures
        principal_views(ps.push(p)) == principal_views(ps).push(p@),
{
    assert(principal_views(ps.push(p)) =~= principal_views(ps).push(p@));
}

/// Keeps, of the probed supported roots, those the user holds a positive
/// settled balance of, in probe order.
pub fn eligible_non_yral_supported_tokens(
    results: &Vec<(PrincipalId, Option<TokenMetadata>)>,
) -> (r: Vec<PrincipalId>)
    ensures
        principal_views(r@) == eligible_values(results@),
{
    let mut r: Vec<PrincipalId> = Vec::new();
    let mut i: usize = 0;
    while i < results.len()
        invariant
            i <= results@.len(),
            principal_views(r@) == eligible_values(results@.subrange(0, i as int)),
        decreases results@.len() - i,
    {
        let keep = match &results[i].1 {
            Some(m) => match &m.balance {
                Some(BalanceOrClaiming::Ready { amount }) => !amount.is_zero(),
                Some(BalanceOrClaiming::Claiming) => false,
                None => false,
            },
            None => false,
        };
        proof {
            assert(keep == eligible_root(&results@[i as int].1));
        }
        if keep {
            let ghost pre = r@;
            r.push(results[i].0.key());
            proof {
                lemma_principal_views_push(pre, r@.last());
            }
        }
        proof {
            let sub = results@.subrange(0, i + 1 as int);
            assert(sub.drop_last() =~= results@.subrange(0, i as int));
            assert(sub.last() == results@[i as int]);
        }
        i = i + 1;
    }
    proof {
        assert(results@.subrange(0, results@.len() as int) =~= results@);
    }
    r
}

} // verus!
