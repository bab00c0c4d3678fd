//! Program derived addresses: the derivation itself is the outside
//! crate's (`solana-program` and `spl-associated-token-account`); this
//! module states what is known of it and builds the searches on it.

use crate::address::{Address, ASSOCIATED_TOKEN_PROGRAM_ID, TOKEN_PROGRAM_ID};
use anchor_lang::solana_program::pubkey::{Pubkey, PubkeyError};
use vstd::prelude::*;

verus! {

/// The error that address derivation reports.
#[verifier::external_type_specification]
#[verifier::external_body]
pub struct ExPubkeyError(PubkeyError);

/// The address that `Pubkey::create_program_address` derives from `seeds`
/// under `program_id` (a hash of the seeds, the program id and a marker),
/// or `None` where it reports an error.
pub uninterp spec fn program_address(seeds: Seq<Seq<u8>>, program_id: Seq<u8>) -> Option<Seq<u8>>;

/// The byte strings held by a list of seeds.
pub open spec fn seeds_view(seeds: Seq<Vec<u8>>) -> Seq<Seq<u8>> {
    seeds.map_values(|v: Vec<u8>| v@)
}

/// The seeds with a one-byte bump seed appended.
pub open spec fn bumped(seeds: Seq<Seq<u8>>, bump: u8) -> Seq<Seq<u8>> {
    seeds.push(seq![bump])
}

/// `bump` is the canonical bump of `seeds`: the largest non-zero bump that
/// derives an address.
pub open spec fn is_canonical_bump(seeds: Seq<Seq<u8>>, program_id: Seq<u8>, bump: u8) -> bool {
    &&& 1 <= bump
    &&& program_address(bumped(seeds, bump), program_id) is Some
    &&& forall|c: u8| bump < c ==> #[trigger] program_address(bumped(seeds, c), program_id) is None
}

/// Some non-zero bump derives an address from `seeds`.
pub open spec fn has_viable_bump(seeds: Seq<Seq<u8>>, program_id: Seq<u8>) -> bool {
    exists|c: u8| 1 <= c && #[trigger] program_address(bumped(seeds, c), program_id) is Some
}

/// `key` is the address that `seeds` derive with their canonical bump.
pub open spec fn is_canonical_address(seeds: Seq<Seq<u8>>, program_id: Seq<u8>, key: Seq<u8>) -> bool {
    exists|b: u8|
        is_canonical_bump(seeds, program_id, b) && #[trigger] program_address(bumped(seeds, b), program_id)
            == Some(key)
}

/// The canonical address of `seeds` with its bump, where one exists.
pub open spec fn canonical_address(seeds: Seq<Seq<u8>>, program_id: Seq<u8>) -> Option<(Seq<u8>, u8)> {
    if exists|b: u8| is_canonical_bump(seeds, program_id, b) {
        let b = choose|b: u8| is_canonical_bump(seeds, program_id, b);
        Some((program_address(bumped(seeds, b), program_id)->0, b))
    } else {
        None
    }
}

/// The seeds of the associated token account of `wallet` for `mint` under
/// `token_program`.
pub open spec fn ata_seeds(wallet: Seq<u8>, token_program: Seq<u8>, mint: Seq<u8>) -> Seq<Seq<u8>> {
    seq![wallet, token_program, mint]
}

/// The associated token account address of `wallet` for `mint` under
/// `token_program`, where it exists.
pub open spec fn associated_address(wallet: Seq<u8>, mint: Seq<u8>, token_program: Seq<u8>) -> Option<Seq<u8>> {
    match canonical_address(ata_seeds(wallet, token_program, mint), ASSOCIATED_TOKEN_PROGRAM_ID@) {
        Some(p) => Some(p.0),
        None => None,
    }
}

/// A canonical bump is unique.
pub proof fn lemma_canonical_bump_unique(seeds: Seq<Seq<u8>>, program_id: Seq<u8>, b1: u8, b2: u8)
    requires
        is_canonical_bump(seeds, program_id, b1),
        is_canonical_bump(seeds, program_id, b2),
    ensures
        b1 == b2,
{
    if b1 < b2 {
        assert(program_address(bumped(seeds, b2), program_id) is None);
    } else if b2 < b1 {
        assert(program_address(bumped(seeds, b1), program_id) is None);
    }
}

/// Calls `Pubkey::create_program_address`. Its source fails when there are
/// more than 16 seeds or a seed longer than 32 bytes; otherwise the result
/// is the hash-derived address, or an error where that lies on the curve.
/// Both outcomes are given by the name `program_address`.
#[verifier::external_body]
pub(crate) fn create_program_address(seeds: &Vec<Vec<u8>>, program_id: &Address) -> (r: Result<Address, PubkeyError>)
    ensures
        match r {
            Ok(k) => program_address(seeds_view(seeds@), program_id@) == Some(k@),
            Err(_) => program_address(seeds_view(seeds@), program_id@) is None,
        },
        (seeds@.len() > 16 || exists|i: int| 0 <= i < seeds@.len() && seeds@[i]@.len() > 32) ==> r is Err,
{
    let s: Vec<&[u8]> = seeds.iter().map(|v| v.as_slice()).collect();
    Pubkey::create_program_address(&s, &Pubkey::new_from_array(*program_id)).map(|k| k.to_bytes())
}

/// Calls `Pubkey::try_find_program_address`. Its source (off chain) tries
/// the bumps 255 down to 1 with `create_program_address` and returns the
/// first address found with its bump; it returns `None` when none is found.
#[verifier::external_body]
pub(crate) fn try_find_program_address(seeds: &Vec<Vec<u8>>, program_id: &Address) -> (r: Option<(Address, u8)>)
    ensures
        match r {
            Some((k, b)) => is_canonical_bump(seeds_view(seeds@), program_id@, b)
                && program_address(bumped(seeds_view(seeds@), b), program_id@) == Some(k@),
            None => !has_viable_bump(seeds_view(seeds@), program_id@),
        },
{
    let s: Vec<&[u8]> = seeds.iter().map(|v| v.as_slice()).collect();
    Pubkey::try_find_program_address(&s, &Pubkey::new_from_array(*program_id)).map(|(k, b)| (k.to_bytes(), b))
}

/// Calls `get_associated_token_address_with_program_id`, which in its source
/// is `Pubkey::find_program_address` over the seeds wallet, token program,
/// mint under the associated token program: the canonical address. That
/// call panics where no bump is viable, which the `requires` leaves out.
#[verifier::external_body]
pub(crate) fn get_associated_token_address_with_program_id(wallet: &Address, mint: &Address, token_program: &Address) -> (r: Address)
    requires
        has_viable_bump(ata_seeds(wallet@, token_program@, mint@), ASSOCIATED_TOKEN_PROGRAM_ID@),
    ensures
        is_canonical_address(ata_seeds(wallet@, token_program@, mint@), ASSOCIATED_TOKEN_PROGRAM_ID@, r@),
{
    anchor_spl::associated_token::get_associated_token_address_with_program_id(
        &Pubkey::new_from_array(*wallet),
        &Pubkey::new_from_array(*mint),
        &Pubkey::new_from_array(*token_program),
    ).to_bytes()
}

/// Calls `get_associated_token_address`, which in its source is
/// `get_associated_token_address_with_program_id` with the SPL token
/// program: the canonical address. It panics where no bump is viable, which
/// the `requires` leaves out.
#[verifier::external_body]
pub(crate) fn get_associated_token_address(wallet: &Address, mint: &Address) -> (r: Address)
    requires
        has_viable_bump(ata_seeds(wallet@, TOKEN_PROGRAM_ID@, mint@), ASSOCIATED_TOKEN_PROGRAM_ID@),
    ensures
        is_canonical_address(ata_seeds(wallet@, TOKEN_PROGRAM_ID@, mint@), ASSOCIATED_TOKEN_PROGRAM_ID@, r@),
{
    anchor_spl::associated_token::get_associated_token_address(
        &Pubkey::new_from_array(*wallet),
        &Pubkey::new_from_array(*mint),
    ).to_bytes()
}

/// The address that `seeds` followed by the bump seed `bump` derive under
/// `program_id`, or `None` where the derivation fails.
pub fn derive_address(seeds: Vec<Vec<u8>>, bump: u8, program_id: &Address) -> (r: Option<Address>)
    ensures
        match r {
            Some(k) => program_address(bumped(seeds_view(seeds@), bump), program_id@) == Some(k@),
            None => program_address(bumped(seeds_view(seeds@), bump), program_id@) is None,
        },
{
    let ghost given = seeds_view(seeds@);
    let mut with_bump = seeds;
    let b = vec![bump];
    assert(b@ =~= seq![bump]);
    with_bump.push(b);
    assert(seeds_view(with_bump@) =~= bumped(given, bump));
    match create_program_address(&with_bump, program_id) {
        Ok(k) => Some(k),
        Err(_) => None,
    }
}

/// The canonical address of `seeds` under `program_id` with its bump.
pub fn find_canonical_address(seeds: &Vec<Vec<u8>>, program_id: &Address) -> (r: Option<(Address, u8)>)
    ensures
        match r {
            Some((k, b)) => canonical_address(seeds_view(seeds@), program_id@) == Some((k@, b)),
            None => canonical_address(seeds_view(seeds@), program_id@) is None,
        },
{
    let r = try_find_program_address(seeds, program_id);
    proof {
        let s = seeds_view(seeds@);
        match r {
            Some((k, b)) => {
                assert(exists|c: u8| is_canonical_bump(s, program_id@, c));
                let c = choose|c: u8| is_canonical_bump(s, program_id@, c);
                lemma_canonical_bump_unique(s, program_id@, b, c);
            },
            None => {
                if exists|c: u8| is_canonical_bump(s, program_id@, c) {
                    let c = choose|c: u8| is_canonical_bump(s, program_id@, c);
                    assert(program_address(bumped(s, c), program_id@) is Some);
                }
            },
        }
    }
    r
}

} // verus!
