use vstd::prelude::*;

use crate::error::AuditError;

verus! {

/// A fixed-length account address, held as its raw 32 bytes.
///
/// The on-wire textual form (base58) is decoded once, at the edge of the
/// pipeline; everything past that point works on the bytes alone, so that
/// address comparison is a plain byte comparison.
pub struct Address {
    bytes: Vec<u8>,
}

impl View for Address {
    type V = Seq<u8>;

    closed spec fn view(&self) -> Seq<u8> {
        self.bytes@
    }
}

/// The sentinel "system" owner: the all-zero address, which marks the
/// canonical default snapshot of a not-yet-existing account.
pub open spec fn system_owner() -> Seq<u8> {
    Seq::new(32, |i: int| 0u8)
}

/// Compare two byte vectors for byte-for-byte equality.
pub fn bytes_eq(a: &Vec<u8>, b: &Vec<u8>) -> (r: bool)
    ensures
        r == (a@ == b@),
{
    if a.len() != b.len() {
        return false;
    }
    let mut i: usize = 0;
    while i < a.len()
        invariant
            i <= a@.len(),
            a@.len() == b@.len(),
            forall|j: int| 0 <= j < i ==> a@[j] == b@[j],
        decreases a@.len() - i,
    {
        if a[i] != b[i] {
            return false;
        }
        i = i + 1;
    }
    proof {
        assert(a@ =~= b@);
    }
    true
}

/// Copy a byte vector.
pub fn clone_bytes(v: &Vec<u8>) -> (r: Vec<u8>)
    ensures
        r@ == v@,
{
    let mut out: Vec<u8> = Vec::new();
    let mut i: usize = 0;
    while i < v.len()
        invariant
            i <= v@.len(),
            out@.len() == i,
            forall|j: int| 0 <= j < i ==> out@[j] == v@[j],
        decreases v@.len() - i,
    {
        out.push(v[i]);
        i = i + 1;
    }
    proof {
        assert(out@ =~= v@);
    }
    out
}

/// What `solana_sdk::pubkey::Pubkey`'s `FromStr` yields for a given string:
/// base58 decoding is a pure function of the text alone.
pub uninterp spec fn parsed_address(s: Seq<char>) -> Option<Seq<u8>>;

/// Relies on `solana_sdk::pubkey::Pubkey::from_str` (a base58 decode) and
/// `Pubkey::to_bytes`: on success the decoded address is exactly 32 bytes.
#[verifier::external_body]
fn pubkey_from_str(s: &str) -> (r: Option<Vec<u8>>)
    ensures
        r is Some <==> parsed_address(s@) is Some,
        r matches Some(v) ==> parsed_address(s@) == Some(v@) && v@.len() == 32,
{
    match s.parse::<solana_sdk::pubkey::Pubkey>() {
        Ok(pk) => Some(pk.to_bytes().to_vec()),
        Err(_) => None,
    }
}

impl Address {
    /// Every address holds exactly 32 bytes.
    pub open spec fn wf(&self) -> bool {
        self@.len() == 32
    }

    /// Build an address directly from its raw bytes; rejects any length
    /// other than 32.
    pub fn from_bytes(bytes: Vec<u8>) -> (r: Option<Address>)
        ensures
            r is Some <==> bytes@.len() == 32,
            r matches Some(a) ==> a@ == bytes@ && a.wf(),
    {
        if bytes.len() == 32 {
            Some(Address { bytes })
        } else {
            None
        }
    }

    /// The sentinel "system" address (all zero bytes).
    pub fn system() -> (a: Address)
        ensures
            a@ == system_owner(),
            a.wf(),
    {
        let mut bytes: Vec<u8> = Vec::new();
        let mut i: usize = 0;
        while i < 32
            invariant
                i <= 32,
                bytes@.len() == i,
                forall|j: int| 0 <= j < i ==> bytes@[j] == 0u8,
            decreases 32 - i,
        {
            bytes.push(0u8);
            i = i + 1;
        }
        proof {
            assert(bytes@ =~= system_owner());
        }
        Address { bytes }
    }

    /// The raw bytes of the address.
    pub fn as_bytes(&self) -> (b: &Vec<u8>)
        ensures
            b@ == self@,
    {
        &self.bytes
    }

    /// Decode a textual (base58) address. A string that does not decode to
    /// exactly 32 bytes is rejected before any transport call.
    pub fn parse(s: &str) -> (r: Result<Address, AuditError>)
        ensures
            r is Ok <==> parsed_address(s@) is Some,
            r matches Ok(a) ==> parsed_address(s@) == Some(a@) && a.wf(),
            r matches Err(e) ==> e is InvalidInput,
    {
        match pubkey_from_str(s) {
            Some(bytes) => Ok(Address { bytes }),
            None => Err(AuditError::InvalidInput("malformed account address".to_owned())),
        }
    }
}

impl Clone for Address {
    fn clone(&self) -> (r: Self)
        ensures
            r@ == self@,
            r.wf() == self.wf(),
    {
        Address { bytes: clone_bytes(&self.bytes) }
    }
}

impl PartialEq for Address {
    fn eq(&self, other: &Address) -> (r: bool) {
        bytes_eq(&self.bytes, &other.bytes)
    }
}

impl vstd::std_specs::cmp::PartialEqSpecImpl for Address {
    open spec fn obeys_eq_spec() -> bool {
        true
    }

    open spec fn eq_spec(&self, other: &Address) -> bool {
        self@ == other@
    }
}

} // verus!
