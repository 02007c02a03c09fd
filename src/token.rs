//! What the program reads of the asset's own mint account.

use vstd::prelude::*;

verus! {

/// Length of a token mint account.
pub const MINT_LEN: usize = 82;

/// An optional-key tag: four bytes that read 0 (absent) or 1 (present).
pub open spec fn option_tag_ok(t: Seq<u8>) -> bool {
    t.len() == 4 && (t[0] == 0 || t[0] == 1) && t[1] == 0 && t[2] == 0 && t[3] == 0
}

/// Whether mint account data is a well-formed, initialized mint.
pub open spec fn is_initialized_mint(data: Seq<u8>) -> bool {
    &&& data.len() == MINT_LEN
    &&& option_tag_ok(data.subrange(0, 4))
    &&& data[45] == 1
    &&& option_tag_ok(data.subrange(46, 50))
}

/// The decimal precision that a mint account declares, if it is an
/// initialized mint.
pub open spec fn declared_decimals(data: Seq<u8>) -> Option<u8> {
    if is_initialized_mint(data) {
        Some(data[44])
    } else {
        None
    }
}

/// Relies on `spl_token::state::Mint::unpack`: the data must be 82 bytes
/// with valid option tags at 0 and 46 and the initialized flag (byte 45)
/// set; the decimals are byte 44.
#[verifier::external_body]
pub(crate) fn unpack_mint_decimals(data: &[u8]) -> (r: Option<u8>)
    ensures
        r == declared_decimals(data@),
{
    #[allow(deprecated)]
    match <spl_token::state::Mint as spl_token::solana_program::program_pack::Pack>::unpack(data) {
        Ok(mint) => Some(mint.decimals),
        Err(_) => None,
    }
}

} // verus!
