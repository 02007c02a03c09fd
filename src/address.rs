//! Ledger account addresses: 32 raw bytes, parsed from base58 text.

use vstd::prelude::*;

verus! {

/// A 32-byte ledger address (a public key or a program-derived address).
#[derive(Clone, Copy, Debug)]
pub struct Address {
    pub bytes: [u8; 32],
}

impl Address {
    /// Builds an address from a slice that holds exactly 32 bytes.
    pub fn from_slice(s: &[u8]) -> (r: Address)
        requires
            s@.len() == 32,
        ensures
            r.bytes@ == s@,
    {
        let mut bytes = [0u8; 32];
        let mut i: usize = 0;
        while i < 32
            invariant
                0 <= i <= 32,
                s@.len() == 32,
                bytes@.len() == 32,
                forall|j: int| 0 <= j < i ==> bytes@[j] == s@[j],
            decreases 32 - i,
        {
            bytes[i] = s[i];
            i = i + 1;
        }
        assert(bytes@ =~= s@);
        Address { bytes }
    }

    /// Whether two addresses hold the same bytes.
    pub fn same(&self, other: &Address) -> (r: bool)
        ensures
            r == (self.bytes@ == other.bytes@),
    {
        let mut i: usize = 0;
        while i < 32
            invariant
                0 <= i <= 32,
                self.bytes@.len() == 32,
                other.bytes@.len() == 32,
                forall|j: int| 0 <= j < i ==> self.bytes@[j] == other.bytes@[j],
            decreases 32 - i,
        {
            if self.bytes[i] != other.bytes[i] {
                return false;
            }
            i = i + 1;
        }
        assert(self.bytes@ =~= other.bytes@);
        true
    }
}

/// The 32 bytes that base58 text decodes to, if it is a well-formed address.
pub uninterp spec fn decoded_address(text: Seq<char>) -> Option<Seq<u8>>;

/// Relies on `solana_pubkey::Pubkey::from_str`: base58 text of at most 44
/// characters that decodes to exactly 32 bytes gives those bytes, anything
/// else is an error.
#[verifier::external_body]
fn decode_base58_address(text: &str) -> (r: Option<Address>)
    ensures
        r.is_some() == decoded_address(text@).is_some(),
        r.is_some() ==> decoded_address(text@).unwrap() == r.unwrap().bytes@,
{
    match text.parse::<solana_program::pubkey::Pubkey>() {
        Ok(key) => Some(Address { bytes: key.to_bytes() }),
        Err(_) => None,
    }
}

/// Parses a textual (base58) address; `None` exactly when the text is not a
/// well-formed address.
pub fn parse_address(text: &str) -> (r: Option<Address>)
    ensures
        r.is_some() == decoded_address(text@).is_some(),
        r.is_some() ==> r.unwrap().bytes@ == decoded_address(text@).unwrap(),
{
    decode_base58_address(text)
}

} // verus!
