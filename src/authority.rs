//! The derived signing authority: a keyless address that only the program
//! can sign for, derived from a fixed tag, the mint and a bump byte.

use vstd::prelude::*;

use crate::address::Address;

verus! {

/// The fixed domain tag, the first derivation seed: the ASCII text
/// `mint-controller`.
pub open spec fn authority_tag_spec() -> Seq<u8> {
    seq![109u8, 105, 110, 116, 45, 99, 111, 110, 116, 114, 111, 108, 108, 101, 114]
}

/// The domain tag as bytes.
pub fn authority_tag() -> (r: Vec<u8>)
    ensures
        r@ == authority_tag_spec(),
{
    let r = vec![109u8, 105, 110, 116, 45, 99, 111, 110, 116, 114, 111, 108, 108, 101, 114];
    assert(r@ =~= authority_tag_spec());
    r
}

/// The program-derived address for seeds `[tag, mint, [bump]]` under
/// `program_id`, or `None` where the hash of the seeds lies on the curve.
pub uninterp spec fn program_address(
    tag: Seq<u8>,
    mint: Seq<u8>,
    bump: u8,
    program_id: Seq<u8>,
) -> Option<Seq<u8>>;

/// The largest bump in `1..=b` that gives a valid derived address.
pub open spec fn highest_bump_from(mint: Seq<u8>, program_id: Seq<u8>, b: nat) -> Option<u8>
    decreases b,
{
    if b == 0 || b > 255 {
        None
    } else if program_address(authority_tag_spec(), mint, b as u8, program_id).is_some() {
        Some(b as u8)
    } else {
        highest_bump_from(mint, program_id, (b - 1) as nat)
    }
}

/// The canonical bump: the first, counting down from 255, that gives a valid
/// derived address.
pub open spec fn canonical_bump(mint: Seq<u8>, program_id: Seq<u8>) -> Option<u8> {
    highest_bump_from(mint, program_id, 255)
}

/// Relies on `solana_pubkey::Pubkey::create_program_address`: with three
/// seeds of at most 32 bytes each it fails only when the derived point lies
/// on the curve, and is a function of the seeds and the program id.
#[verifier::external_body]
fn create_program_address(tag: &[u8], mint: &Address, bump: u8, program_id: &Address) -> (r:
    Option<Address>)
    requires
        tag@.len() <= 32,
    ensures
        r.is_some() == program_address(tag@, mint.bytes@, bump, program_id.bytes@).is_some(),
        r.is_some() ==> program_address(tag@, mint.bytes@, bump, program_id.bytes@).unwrap()
            == r.unwrap().bytes@,
{
    let pid = solana_program::pubkey::Pubkey::new_from_array(program_id.bytes);
    let bump_seed = [bump];
    let seeds: [&[u8]; 3] = [tag, &mint.bytes, &bump_seed];
    match solana_program::pubkey::Pubkey::create_program_address(&seeds, &pid) {
        Ok(key) => Some(Address { bytes: key.to_bytes() }),
        Err(_) => None,
    }
}

/// Relies on `solana_pubkey::Pubkey::try_find_program_address`: it tries the
/// bumps 255 down to 1 with `create_program_address` and returns the first
/// address that is valid, with its bump.
#[verifier::external_body]
fn find_program_address(tag: &[u8], mint: &Address, program_id: &Address) -> (r: Option<
    (Address, u8),
>)
    requires
        tag@ == authority_tag_spec(),
    ensures
        r.is_some() == canonical_bump(mint.bytes@, program_id.bytes@).is_some(),
        r.is_some() ==> r.unwrap().1 == canonical_bump(mint.bytes@, program_id.bytes@).unwrap(),
        r.is_some() ==> program_address(tag@, mint.bytes@, r.unwrap().1, program_id.bytes@)
            == Some(r.unwrap().0.bytes@),
{
    let pid = solana_program::pubkey::Pubkey::new_from_array(program_id.bytes);
    let seeds: [&[u8]; 2] = [tag, &mint.bytes];
    match solana_program::pubkey::Pubkey::try_find_program_address(&seeds, &pid) {
        Some((key, bump)) => Some((Address { bytes: key.to_bytes() }, bump)),
        None => None,
    }
}

/// The derived signing authority for `mint` and `bump`, if the seeds give a
/// valid address.
pub fn derive_authority(mint: &Address, bump: u8, program_id: &Address) -> (r: Option<Address>)
    ensures
        r.is_some() == program_address(authority_tag_spec(), mint.bytes@, bump, program_id.bytes@).is_some(),
        r.is_some() ==> r.unwrap().bytes@ == program_address(
            authority_tag_spec(),
            mint.bytes@,
            bump,
            program_id.bytes@,
        ).unwrap(),
{
    let tag = authority_tag();
    create_program_address(tag.as_slice(), mint, bump, program_id)
}

/// The derived signing authority at its canonical bump, with that bump.
pub fn find_authority(mint: &Address, program_id: &Address) -> (r: Option<(Address, u8)>)
    ensures
        r.is_some() == canonical_bump(mint.bytes@, program_id.bytes@).is_some(),
        r.is_some() ==> r.unwrap().1 == canonical_bump(mint.bytes@, program_id.bytes@).unwrap(),
        r.is_some() ==> program_address(
            authority_tag_spec(),
            mint.bytes@,
            r.unwrap().1,
            program_id.bytes@,
        ) == Some(r.unwrap().0.bytes@),
{
    let tag = authority_tag();
    find_program_address(tag.as_slice(), mint, program_id)
}

} // verus!
