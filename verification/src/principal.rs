//! Principal identifiers: the opaque account and canister identities of the
//! network, together with their canonical text form.

use vstd::prelude::*;

verus! {

/// Greatest number of significant bytes in a principal identifier.
pub const PRINCIPAL_MAX_BYTES: usize = 29;

/// The bytes of the anonymous principal.
pub open spec fn anonymous_bytes() -> Seq<u8> {
    seq![4u8]
}

/// An identity on the canister network: an opaque sequence of at most
/// [`PRINCIPAL_MAX_BYTES`] bytes. Routes and share links render a principal
/// through its canonical text form; equality is byte equality.
pub struct PrincipalId {
    bytes: Vec<u8>,
}

impl View for PrincipalId {
    type V = Seq<u8>;

    closed spec fn view(&self) -> Seq<u8> {
        self.bytes@
    }
}

/// Canonical text form of a principal's bytes, as the canister SDK prints it.
pub uninterp spec fn principal_text_of(bytes: Seq<u8>) -> Seq<char>;

/// What parsing a piece of text as a principal yields, when it yields one.
pub uninterp spec fn principal_of_text(text: Seq<char>) -> Option<Seq<u8>>;

/// Relies on candid's `Principal::to_text`: the canonical text of a principal
/// is a function of its bytes alone, and `Principal::from_text` parses that
/// canonical text back to the same bytes.
#[verifier::external_body]
fn principal_to_text_via_sdk(p: &PrincipalId) -> (r: String)
    requires
        p.wf(),
    ensures
        r@ == principal_text_of(p@),
        principal_of_text(r@) == Some(p@),
{
    candid::Principal::from_slice(&p.bytes).to_text()
}

/// Relies on candid's `Principal::from_text`: whether a piece of text parses,
/// and to which bytes, depends on the text alone, and a parsed principal has
/// at most [`PRINCIPAL_MAX_BYTES`] bytes.
#[verifier::external_body]
fn principal_from_text_via_sdk(s: &str) -> (r: Option<PrincipalId>)
    ensures
        (match r {
            Some(p) => principal_of_text(s@) == Some(p@) && p.wf(),
            None => principal_of_text(s@) is None,
        }),
{
    match candid::Principal::from_text(s) {
        Ok(p) => Some(PrincipalId { bytes: p.as_slice().to_vec() }),
        Err(_) => None,
    }
}

impl PrincipalId {
    /// A principal is well formed when it fits in the byte bound.
    pub open spec fn wf(&self) -> bool {
        self@.len() <= PRINCIPAL_MAX_BYTES
    }

    /// Builds a principal from its raw bytes; rejects over-long input.
    pub fn from_bytes(bytes: Vec<u8>) -> (r: Option<PrincipalId>)
        ensures
            (match r {
                Some(p) => p@ == bytes@ && p.wf(),
                None => bytes@.len() > PRINCIPAL_MAX_BYTES,
            }),
    {
        if bytes.len() <= PRINCIPAL_MAX_BYTES {
            Some(PrincipalId { bytes })
        } else {
            None
        }
    }

    /// Builds a principal from raw bytes already known to fit the bound.
    pub fn from_short_bytes(bytes: Vec<u8>) -> (r: PrincipalId)
        requires
            bytes@.len() <= PRINCIPAL_MAX_BYTES,
        ensures
            r@ == bytes@,
            r.wf(),
    {
        PrincipalId { bytes }
    }

    /// The anonymous principal.
    pub fn anonymous() -> (r: PrincipalId)
        ensures
            r@ == anonymous_bytes(),
            r.wf(),
    {
        let bytes: Vec<u8> = vec![4u8];
        proof {
            assert(bytes@ =~= anonymous_bytes());
        }
        PrincipalId { bytes }
    }

    /// The principal's raw bytes.
    pub fn as_bytes(&self) -> (r: &Vec<u8>)
        ensures
            r@ == self@,
    {
        &self.bytes
    }

    /// The canonical text form of this principal.
    pub fn to_text(&self) -> (r: String)
        requires
            self.wf(),
        ensures
            r@ == principal_text_of(self@),
            principal_of_text(r@) == Some(self@),
    {
        principal_to_text_via_sdk(self)
    }

    /// Parses the text form of a principal.
    pub fn from_text(s: &str) -> (r: Option<PrincipalId>)
        ensures
            (match r {
                Some(p) => principal_of_text(s@) == Some(p@) && p.wf(),
                None => principal_of_text(s@) is None,
            }),
    {
        principal_from_text_via_sdk(s)
    }

    /// The key under which a keyed list tracks this principal: the principal
    /// itself.
    pub fn key(&self) -> (r: PrincipalId)
        ensures
            r@ == self@,
    {
        let mut bytes: Vec<u8> = Vec::new();
        let mut i: usize = 0;
        while i < self.bytes.len()
            invariant
                i <= self.bytes.len(),
                bytes@ == self.bytes@.subrange(0, i as int),
            decreases self.bytes.len() - i,
        {
            bytes.push(self.bytes[i]);
            i = i + 1;
        }
        proof {
            assert(bytes@ =~= self@);
        }
        PrincipalId { bytes }
    }

    /// Byte equality of two principals.
    pub fn same_as(&self, other: &PrincipalId) -> (r: bool)
        ensures
            r == (self@ == other@),
    {
        if self.bytes.len() != other.bytes.len() {
            proof {
                assert(self@ != other@);
            }
            return false;
        }
        let mut i: usize = 0;
        while i < self.bytes.len()
            invariant
                i <= self.bytes.len(),
                self.bytes@.len() == other.bytes@.len(),
                self.bytes@.subrange(0, i as int) == other.bytes@.subrange(0, i as int),
            decreases self.bytes.len() - i,
        {
            if self.bytes[i] != other.bytes[i] {
                proof {
                    assert(self@[i as int] != other@[i as int]);
                }
                return false;
            }
            proof {
                assert(self.bytes@.subrange(0, i + 1 as int) =~= self.bytes@.subrange(
                    0,
                    i as int,
                ).push(self.bytes@[i as int]));
                assert(other.bytes@.subrange(0, i + 1 as int) =~= other.bytes@.subrange(
                    0,
                    i as int,
                ).push(other.bytes@[i as int]));
            }
            i = i + 1;
        }
        proof {
            assert(self@ =~= self.bytes@.subrange(0, i as int));
            assert(other@ =~= other.bytes@.subrange(0, i as int));
        }
        true
    }
}

} // verus!
