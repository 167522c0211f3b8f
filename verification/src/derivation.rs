//! Derivation of a campaign's address from the program, the authority and the
//! campaign identifier.
//!
//! The hashing and the curve test are done by `anchor_lang`'s `Pubkey`. The two
//! functions that call it are trusted. Their contracts give each result a name,
//! and say of the two names only that the address which the search finds is the
//! one derived from the nonce it finds.

use crate::address::Address;
use anchor_lang::solana_program::pubkey::Pubkey;
use anchor_lang::solana_program::pubkey::PubkeyError;
use vstd::prelude::*;

verus! {

/// The error type of `Pubkey::create_program_address`, carried through opaquely.
#[verifier::external_type_specification]
#[verifier::external_body]
pub struct ExPubkeyError(PubkeyError);

/// What `Pubkey::try_find_program_address` returns for the given seeds and
/// program: the derived address with its canonical nonce, or `None` where no
/// nonce yields an address off the curve or the seeds are over the size limits.
pub uninterp spec fn found_program_address(seeds: Seq<Seq<u8>>, program_id: Seq<u8>) -> Option<
    (Seq<u8>, u8),
>;

/// What `Pubkey::create_program_address` returns for the given seeds and
/// program, with its error forgotten: the derived address, or `None` where the
/// hash lies on the curve or the seeds are over the size limits.
pub uninterp spec fn created_program_address(seeds: Seq<Seq<u8>>, program_id: Seq<u8>) -> Option<
    Seq<u8>,
>;

/// The namespace tag that opens every campaign's seeds: the bytes of `campaign`.
pub open spec fn campaign_tag() -> Seq<u8> {
    seq![99u8, 97u8, 109u8, 112u8, 97u8, 105u8, 103u8, 110u8]
}

/// The seeds from which a campaign's address is searched for.
pub open spec fn campaign_seeds(authority: Seq<u8>, campaign_id: Seq<u8>) -> Seq<Seq<u8>> {
    seq![campaign_tag(), authority, campaign_id]
}

/// The seeds from which a campaign's address is derived again once its nonce is
/// known.
pub open spec fn campaign_seeds_with_nonce(
    authority: Seq<u8>,
    campaign_id: Seq<u8>,
    bump: u8,
) -> Seq<Seq<u8>> {
    seq![campaign_tag(), authority, campaign_id, seq![bump]]
}

/// Calls `Pubkey::try_find_program_address` on the three seeds, in this order,
/// and the program. The contract names the outcome: the address and nonce
/// returned are `found_program_address` of the same bytes, and `None` is returned
/// exactly where that is `None`. It claims one thing more, which the search
/// shows in its source: the address it returns is the one that
/// `Pubkey::create_program_address` gives for the same seeds followed by the
/// nonce returned.
#[verifier::external_body]
pub(crate) fn try_find_program_address(
    tag: &[u8; 8],
    authority: &[u8; 32],
    campaign_id: &[u8; 32],
    program_id: &Address,
) -> (r: Option<(Address, u8)>)
    ensures
        match r {
            Some((address, bump)) => {
                &&& found_program_address(seq![tag@, authority@, campaign_id@], program_id@)
                    == Some((address@, bump))
                &&& created_program_address(
                    seq![tag@, authority@, campaign_id@, seq![bump]],
                    program_id@,
                ) == Some(address@)
            },
            None => found_program_address(seq![tag@, authority@, campaign_id@], program_id@)
                is None,
        },
{
    let program = Pubkey::new_from_array(program_id.bytes);
    let seeds: [&[u8]; 3] = [tag.as_slice(), authority.as_slice(), campaign_id.as_slice()];
    match Pubkey::try_find_program_address(&seeds, &program) {
        Some((key, bump)) => Some((Address { bytes: key.to_bytes() }, bump)),
        None => None,
    }
}

/// Calls `Pubkey::create_program_address` on the three seeds followed by the
/// one-byte nonce seed, and the program. The contract only names the outcome: an
/// address returned is `created_program_address` of the same bytes, and an error
/// is returned exactly where that is `None`.
#[verifier::external_body]
pub(crate) fn create_program_address(
    tag: &[u8; 8],
    authority: &[u8; 32],
    campaign_id: &[u8; 32],
    bump: u8,
    program_id: &Address,
) -> (r: Result<Address, PubkeyError>)
    ensures
        match r {
            Ok(address) => created_program_address(
                seq![tag@, authority@, campaign_id@, seq![bump]],
                program_id@,
            ) == Some(address@),
            Err(_) => created_program_address(
                seq![tag@, authority@, campaign_id@, seq![bump]],
                program_id@,
            ) is None,
        },
{
    let program = Pubkey::new_from_array(program_id.bytes);
    let nonce: [u8; 1] = [bump];
    let seeds: [&[u8]; 4] =
        [tag.as_slice(), authority.as_slice(), campaign_id.as_slice(), nonce.as_slice()];
    match Pubkey::create_program_address(&seeds, &program) {
        Ok(key) => Ok(Address { bytes: key.to_bytes() }),
        Err(e) => Err(e),
    }
}

/// The bytes of the namespace tag.
pub fn campaign_tag_bytes() -> (tag: [u8; 8])
    ensures
        tag@ == campaign_tag(),
{
    [99u8, 97u8, 109u8, 112u8, 97u8, 105u8, 103u8, 110u8]
}

/// Searches for the address of the campaign that `authority` opens under
/// `campaign_id`, and for its canonical nonce. The address found is the one
/// that `create_campaign_address` gives for that nonce.
pub fn find_campaign_address(
    program_id: &Address,
    authority: &Address,
    campaign_id: &[u8; 32],
) -> (r: Option<(Address, u8)>)
    ensures
        match r {
            Some((address, bump)) => {
                &&& found_program_address(campaign_seeds(authority@, campaign_id@), program_id@)
                    == Some((address@, bump))
                &&& created_program_address(
                    campaign_seeds_with_nonce(authority@, campaign_id@, bump),
                    program_id@,
                ) == Some(address@)
            },
            None => found_program_address(campaign_seeds(authority@, campaign_id@), program_id@)
                is None,
        },
{
    let tag = campaign_tag_bytes();
    try_find_program_address(&tag, &authority.bytes, campaign_id, program_id)
}

/// Derives again the address of a campaign from what its record holds, without
/// a search. `None` where the derivation is refused.
pub fn create_campaign_address(
    program_id: &Address,
    authority: &Address,
    campaign_id: &[u8; 32],
    bump: u8,
) -> (r: Option<Address>)
    ensures
        match r {
            Some(address) => created_program_address(
                campaign_seeds_with_nonce(authority@, campaign_id@, bump),
                program_id@,
            ) == Some(address@),
            None => created_program_address(
                campaign_seeds_with_nonce(authority@, campaign_id@, bump),
                program_id@,
            ) is None,
        },
{
    let tag = campaign_tag_bytes();
    match create_program_address(&tag, &authority.bytes, campaign_id, bump, program_id) {
        Ok(address) => Some(address),
        Err(_) => None,
    }
}

} // verus!
