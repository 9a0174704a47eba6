//! Token amounts: the unbounded natural numbers a ledger reports as balances
//! and fees, carried as little-endian bytes.

use vstd::prelude::*;

verus! {

/// The natural number that a little-endian byte string denotes.
pub open spec fn nat_of_le_bytes(s: Seq<u8>) -> nat
    decreases s.len(),
{
    if s.len() == 0 {
        0
    } else {
        (s[0] + 256 * nat_of_le_bytes(s.drop_first())) as nat
    }
}

/// An unbounded token amount, as a ledger reports balances and fees.
pub struct TokenAmount {
    le_bytes: Vec<u8>,
}

impl View for TokenAmount {
    type V = nat;

    closed spec fn view(&self) -> nat {
        nat_of_le_bytes(self.le_bytes@)
    }
}

proof fn lemma_nat_of_le_bytes_zero(s: Seq<u8>)
    ensures
        (nat_of_le_bytes(s) == 0) <==> (forall|i: int| 0 <= i < s.len() ==> s[i] == 0),
    decreases s.len(),
{
    if s.len() > 0 {
        lemma_nat_of_le_bytes_zero(s.drop_first());
        if nat_of_le_bytes(s) == 0 {
            assert forall|i: int| 0 <= i < s.len() implies s[i] == 0 by {
                if i > 0 {
                    assert(s.drop_first()[i - 1] == 0);
                }
            }
        } else {
            if s[0] == 0 {
                assert(nat_of_le_bytes(s.drop_first()) != 0);
                let j = choose|j: int| 0 <= j < s.drop_first().len() && s.drop_first()[j] != 0;
                assert(s[j + 1] != 0);
            }
        }
    }
}

impl TokenAmount {
    /// Builds an amount from the little-endian bytes of its magnitude.
    pub fn from_le_bytes(le_bytes: Vec<u8>) -> (r: TokenAmount)
        ensures
            r@ == nat_of_le_bytes(le_bytes@),
    {
        TokenAmount { le_bytes }
    }

    /// The amount zero.
    pub fn zero() -> (r: TokenAmount)
        ensures
            r@ == 0,
    {
        TokenAmount { le_bytes: Vec::new() }
    }

    /// Whether the amount is zero.
    pub fn is_zero(&self) -> (r: bool)
        ensures
            r == (self@ == 0),
    {
        let mut i: usize = 0;
        while i < self.le_bytes.len()
            invariant
                i <= self.le_bytes.len(),
                forall|j: int| 0 <= j < i ==> self.le_bytes@[j] == 0,
            decreases self.le_bytes.len() - i,
        {
            if self.le_bytes[i] != 0 {
                proof {
                    lemma_nat_of_le_bytes_zero(self.le_bytes@);
                }
                return false;
            }
            i = i + 1;
        }
        proof {
            lemma_nat_of_le_bytes_zero(self.le_bytes@);
        }
        true
    }

    /// A copy of this amount.
    pub fn duplicate(&self) -> (r: TokenAmount)
        ensures
            r@ == self@,
    {
        let mut le_bytes: Vec<u8> = Vec::new();
        let mut i: usize = 0;
        while i < self.le_bytes.len()
            invariant
                i <= self.le_bytes.len(),
                le_bytes@ == self.le_bytes@.subrange(0, i as int),
            decreases self.le_bytes.len() - i,
        {
            le_bytes.push(self.le_bytes[i]);
            i = i + 1;
        }
        proof {
            assert(le_bytes@ =~= self.le_bytes@);
        }
        TokenAmount { le_bytes }
    }
}

} // verus!
