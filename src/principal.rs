//! Account and canister identifiers, held as their raw bytes.
use vstd::prelude::*;

verus! {

/// The largest number of bytes a principal may hold.
pub const MAX_PRINCIPAL_LEN: usize = 29;

/// An opaque account or canister identifier: up to 29 raw bytes.
#[derive(Clone, Debug, PartialEq, Eq, Hash)]
pub struct PrincipalId {
    pub bytes: Vec<u8>,
}

impl PrincipalId {
    pub open spec fn wf(&self) -> bool {
        self.bytes@.len() <= MAX_PRINCIPAL_LEN
    }

    /// Builds an identifier from its raw bytes; `None` when there are too many.
    pub fn from_bytes(bytes: Vec<u8>) -> (r: Option<PrincipalId>)
        ensures
            bytes@.len() <= MAX_PRINCIPAL_LEN ==> r == Some((PrincipalId { bytes })),
            bytes@.len() > MAX_PRINCIPAL_LEN ==> r is None,
    {
        if bytes.len() <= MAX_PRINCIPAL_LEN {
            Some(PrincipalId { bytes })
        } else {
            None
        }
    }

    /// A copy with the same bytes.
    pub fn duplicate(&self) -> (r: PrincipalId)
        ensures
            r.bytes@ == self.bytes@,
    {
        let mut bytes: Vec<u8> = Vec::new();
        let mut i: usize = 0;
        while i < self.bytes.len()
            invariant
                i <= self.bytes@.len(),
                bytes@ == self.bytes@.subrange(0, i as int),
            decreases self.bytes@.len() - i,
        {
            bytes.push(self.bytes[i]);
            assert(self.bytes@.subrange(0, i + 1) =~= self.bytes@.subrange(0, i as int).push(
                self.bytes@[i as int],
            ));
            i = i + 1;
        }
        assert(self.bytes@.subrange(0, i as int) =~= self.bytes@);
        PrincipalId { bytes }
    }

    /// Two identifiers are the same account exactly when their bytes agree.
    pub fn same_as(&self, other: &PrincipalId) -> (r: bool)
        ensures
            r == (self.bytes@ == other.bytes@),
    {
        let n = self.bytes.len();
        if n != other.bytes.len() {
            return false;
        }
        let mut i: usize = 0;
        while i < n
            invariant
                n == self.bytes@.len(),
                n == other.bytes@.len(),
                i <= n,
                self.bytes@.subrange(0, i as int) == other.bytes@.subrange(0, i as int),
            decreases n - i,
        {
            if self.bytes[i] != other.bytes[i] {
                assert(self.bytes@[i as int] != other.bytes@[i as int]);
                return false;
            }
            assert(self.bytes@.subrange(0, i + 1) =~= self.bytes@.subrange(0, i as int).push(self.bytes@[i as int]));
            assert(other.bytes@.subrange(0, i + 1) =~= other.bytes@.subrange(0, i as int).push(other.bytes@[i as int]));
            i = i + 1;
        }
        assert(self.bytes@ =~= self.bytes@.subrange(0, n as int));
        assert(other.bytes@ =~= other.bytes@.subrange(0, n as int));
        true
    }
}

/// Textual form of a principal (checksum, base32, dash-grouped), as candid renders it.
pub uninterp spec fn principal_text_of(bytes: Seq<u8>) -> Seq<char>;

/// Self-authenticating principal bytes derived from a DER-encoded public key.
pub uninterp spec fn self_authenticating_of(der_key: Seq<u8>) -> Seq<u8>;

/// Relies on `candid::Principal::from_slice` and `Principal::to_text`: the text depends on the
/// bytes alone; `from_slice` panics only beyond 29 bytes.
#[verifier::external_body]
pub(crate) fn principal_text(bytes: &Vec<u8>) -> (r: String)
    requires
        bytes@.len() <= MAX_PRINCIPAL_LEN,
    ensures
        r@ == principal_text_of(bytes@),
{
    candid::Principal::from_slice(bytes.as_slice()).to_text()
}

/// Relies on `candid::Principal::self_authenticating`: a SHA-224 digest of the key followed by
/// one tag byte, 29 bytes in all.
#[verifier::external_body]
pub(crate) fn self_authenticating(der_key: &Vec<u8>) -> (r: Vec<u8>)
    ensures
        r@ == self_authenticating_of(der_key@),
        r@.len() == MAX_PRINCIPAL_LEN,
{
    candid::Principal::self_authenticating(der_key.as_slice()).as_slice().to_vec()
}

impl PrincipalId {
    /// The textual form of this principal.
    pub fn text(&self) -> (r: String)
        requires
            self.wf(),
        ensures
            r@ == principal_text_of(self.bytes@),
    {
        principal_text(&self.bytes)
    }
}

} // verus!
