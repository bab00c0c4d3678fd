//! The token escrow program: a maker deposits tokens of mint A in a vault
//! owned by an escrow account and asks for an amount of mint B; a taker
//! pays that amount to the maker and receives the vault's tokens, after
//! which the vault is closed.
//!
//! `Take` holds the accounts of the taker's instruction, checked against
//! what their declared types imply (signers, owners, program ids) and
//! against the constraints declared on them (addresses, seeds and bumps,
//! associated token accounts, mutability, closing); its handlers return the
//! invocations of the token program that move the tokens and close the
//! vault. Reading the accounts' data, closing the escrow account, and
//! running the invocations belong to the framework around this library.

use crate::account::{
    check_owned_account, check_program, close_account_into, closed_view, credited, is_closed,
    lemma_closed_account_not_initialized, check_signer, check_system_account, check_token_interface,
    check_token_owned, invocations_view, is_token_program_key, owned_account_rule, program_rule,
    signer_rule, system_account_rule, then, token_interface_rule, token_owned_rule, AccountView, Context,
    Invocation, InvocationModel, ProgramAccount,
};
use crate::address::{
    address_bytes, escrow_tag, escrow_tag_bytes, same_address, Address, ASSOCIATED_TOKEN_PROGRAM_ID,
    SYSTEM_PROGRAM_ID, TOKEN_PROGRAM_ID,
};
use crate::error::AccountError;
use crate::instruction::{
    close_account_ix, create_associated_token_account, create_ata_ix, is_token_program,
    token_close_account, token_transfer_checked, transfer_checked_ix,
};
use crate::pda::{
    associated_address, ata_seeds, bumped, canonical_address, derive_address, find_canonical_address,
    get_associated_token_address, get_associated_token_address_with_program_id, has_viable_bump,
    is_canonical_address, is_canonical_bump, lemma_canonical_bump_unique, program_address, seeds_view,
};
use crate::vault::opt_view;
use vstd::bytes::{spec_u64_to_le_bytes, u64_to_le_bytes};
use vstd::prelude::*;

verus! {

/// The data of an escrow account: the maker's seed and address, the two
/// mints, the amount of mint B that the maker asks for, and the bump of the
/// escrow's address.
#[derive(Clone, Copy, Debug)]
pub struct Escrow {
    pub seed: u64,
    pub maker: Address,
    pub mint_a: Address,
    pub mint_b: Address,
    pub receive_amount: u64,
    pub bump: u8,
}

/// A token account: the account, and in its data the mint, the authority
/// (the token account's owner) and the amount held; and whether its
/// lamports make it rent-exempt for its data under the cluster's rent.
#[derive(Clone, Copy)]
pub struct TokenAccount {
    pub info: AccountView,
    pub mint: Address,
    pub owner: Address,
    pub amount: u64,
    pub rent_exempt: bool,
}

/// A mint: the account, and in its data the number of decimals.
#[derive(Clone, Copy)]
pub struct Mint {
    pub info: AccountView,
    pub decimals: u8,
}

/// Accounts of `take`.
pub struct Take {
    pub taker: AccountView,
    pub maker: AccountView,
    pub mint_a: Mint,
    pub mint_b: Mint,
    pub taker_mint_a_ata: TokenAccount,
    pub taker_mint_b_ata: TokenAccount,
    pub maker_mint_b_ata: TokenAccount,
    pub escrow: ProgramAccount<Escrow>,
    pub vault: TokenAccount,
    pub system_program: AccountView,
    pub associated_token_program: AccountView,
    pub token_program: AccountView,
}

/// Which of the taker's mint A account and the maker's mint B account do
/// not exist yet and are created before the transfers.
#[derive(Clone, Copy, PartialEq, Eq, Structural, Debug)]
pub struct TakeCreations {
    pub taker_mint_a_ata: bool,
    pub maker_mint_b_ata: bool,
}

/// Seeds `[b"escrow", maker, seed.to_le_bytes()]`.
pub open spec fn escrow_seeds(maker: Seq<u8>, seed: u64) -> Seq<Seq<u8>> {
    seq![escrow_tag(), maker, spec_u64_to_le_bytes(seed)]
}

/// Builds `[b"escrow", maker, seed.to_le_bytes()]`.
pub fn make_escrow_seeds(maker: &Address, seed: u64) -> (r: Vec<Vec<u8>>)
    ensures
        seeds_view(r@) == escrow_seeds(maker@, seed),
{
    let r = vec![escrow_tag_bytes(), address_bytes(maker), u64_to_le_bytes(seed)];
    assert(seeds_view(r@) =~= escrow_seeds(maker@, seed));
    r
}

/// Builds `[b"escrow", maker, seed.to_le_bytes(), [bump]]`.
pub fn make_escrow_signer_seeds(maker: &Address, seed: u64, bump: u8) -> (r: Vec<Vec<u8>>)
    ensures
        seeds_view(r@) == bumped(escrow_seeds(maker@, seed), bump),
{
    let b = vec![bump];
    let r = vec![escrow_tag_bytes(), address_bytes(maker), u64_to_le_bytes(seed), b];
    assert(b@ =~= seq![bump]);
    assert(seeds_view(r@) =~= bumped(escrow_seeds(maker@, seed), bump));
    r
}

/// Builds the seeds of an associated token account.
fn make_ata_seeds(wallet: &Address, token_program: &Address, mint: &Address) -> (r: Vec<Vec<u8>>)
    ensures
        seeds_view(r@) == ata_seeds(wallet@, token_program@, mint@),
{
    let r = vec![address_bytes(wallet), address_bytes(token_program), address_bytes(mint)];
    assert(seeds_view(r@) =~= ata_seeds(wallet@, token_program@, mint@));
    r
}

/// Seeds with a canonical address have a viable bump.
proof fn lemma_found_is_viable(seeds: Seq<Seq<u8>>, program_id: Seq<u8>, k: Seq<u8>, b: u8)
    requires
        canonical_address(seeds, program_id) == Some((k, b)),
    ensures
        has_viable_bump(seeds, program_id),
{
    let c = choose|c: u8| is_canonical_bump(seeds, program_id, c);
    assert(program_address(bumped(seeds, c), program_id) is Some);
}

/// A canonical address found by a search is the one stated of the search.
proof fn lemma_found_is_canonical(seeds: Seq<Seq<u8>>, program_id: Seq<u8>, k: Seq<u8>, b: u8, r: Seq<u8>)
    requires
        canonical_address(seeds, program_id) == Some((k, b)),
        is_canonical_address(seeds, program_id, r),
    ensures
        r == k,
        has_viable_bump(seeds, program_id),
{
    let c = choose|c: u8| is_canonical_bump(seeds, program_id, c);
    let d = choose|d: u8|
        is_canonical_bump(seeds, program_id, d) && #[trigger] program_address(bumped(seeds, d), program_id) == Some(r);
    lemma_canonical_bump_unique(seeds, program_id, c, d);
    assert(program_address(bumped(seeds, c), program_id) is Some);
}

/// The associated token account of `wallet` for `mint` under
/// `token_program`, where a bump is viable.
pub fn find_associated_address(wallet: &Address, mint: &Address, token_program: &Address) -> (r: Option<Address>)
    ensures
        opt_view(r) == associated_address(wallet@, mint@, token_program@),
{
    let seeds = make_ata_seeds(wallet, token_program, mint);
    match find_canonical_address(&seeds, &ASSOCIATED_TOKEN_PROGRAM_ID) {
        None => None,
        Some((k, b)) => {
            proof {
                lemma_found_is_viable(ata_seeds(wallet@, token_program@, mint@), ASSOCIATED_TOKEN_PROGRAM_ID@, k@, b);
            }
            let a = get_associated_token_address_with_program_id(wallet, mint, token_program);
            proof {
                lemma_found_is_canonical(
                    ata_seeds(wallet@, token_program@, mint@), ASSOCIATED_TOKEN_PROGRAM_ID@, k@, b, a@);
            }
            Some(a)
        },
    }
}

/// The associated token account of `wallet` for `mint` under the SPL token
/// program, where a bump is viable.
pub fn find_token_associated_address(wallet: &Address, mint: &Address) -> (r: Option<Address>)
    ensures
        opt_view(r) == associated_address(wallet@, mint@, TOKEN_PROGRAM_ID@),
{
    let seeds = make_ata_seeds(wallet, &TOKEN_PROGRAM_ID, mint);
    match find_canonical_address(&seeds, &ASSOCIATED_TOKEN_PROGRAM_ID) {
        None => None,
        Some((k, b)) => {
            proof {
                lemma_found_is_viable(ata_seeds(wallet@, TOKEN_PROGRAM_ID@, mint@), ASSOCIATED_TOKEN_PROGRAM_ID@, k@, b);
            }
            let a = get_associated_token_address(wallet, mint);
            proof {
                lemma_found_is_canonical(
                    ata_seeds(wallet@, TOKEN_PROGRAM_ID@, mint@), ASSOCIATED_TOKEN_PROGRAM_ID@, k@, b, a@);
            }
            Some(a)
        },
    }
}

/// The creation or matching of an `init_if_needed` associated token
/// account of `authority` for `mint`, where `ata` is its associated
/// address. An account still owned by the system program is to be created
/// (`Ok(true)`); the creation names `ata`, so any other account passed in
/// its place is missing from the invocation. An existing one must be owned
/// by a token program, hold `mint`, have `authority`, be owned by the token
/// program passed, and be `ata` (`Ok(false)`).
pub open spec fn create_or_match_rule(
    acct: TokenAccount,
    mint: Seq<u8>,
    authority: Seq<u8>,
    token_program: Seq<u8>,
    ata: Option<Seq<u8>>,
) -> Result<bool, AccountError> {
    if acct.info.owner@ == SYSTEM_PROGRAM_ID@ {
        match ata {
            None => Err(AccountError::NoViableBump),
            Some(a) => if a != acct.info.key@ {
                Err(AccountError::MissingAccount)
            } else {
                Ok(true)
            },
        }
    } else if !is_token_program(acct.info.owner@) {
        Err(AccountError::AccountOwnedByWrongProgram)
    } else if acct.mint@ != mint {
        Err(AccountError::ConstraintTokenMint)
    } else if acct.owner@ != authority {
        Err(AccountError::ConstraintTokenOwner)
    } else if acct.info.owner@ != token_program {
        Err(AccountError::ConstraintAssociatedTokenTokenProgram)
    } else {
        match ata {
            None => Err(AccountError::NoViableBump),
            Some(a) => if a != acct.info.key@ {
                Err(AccountError::AccountNotAssociatedTokenAccount)
            } else {
                Ok(false)
            },
        }
    }
}

/// The rule of an `init_if_needed` associated token account: its creation
/// or matching, then (as every account initialized by the instruction) it
/// must be writable, and an existing one must be rent-exempt (a created one
/// is funded to the rent-exempt minimum by its creation).
pub open spec fn init_if_needed_rule(
    acct: TokenAccount,
    mint: Seq<u8>,
    authority: Seq<u8>,
    token_program: Seq<u8>,
    ata: Option<Seq<u8>>,
) -> Result<bool, AccountError> {
    match create_or_match_rule(acct, mint, authority, token_program, ata) {
        Err(e) => Err(e),
        Ok(created) => if !acct.info.is_writable {
            Err(AccountError::ConstraintMut)
        } else if !created && !acct.rent_exempt {
            Err(AccountError::ConstraintRentExempt)
        } else {
            Ok(created)
        },
    }
}

/// The rule of a mutable associated token account of `authority`: it has
/// `authority`, it is the associated address `ata`, and it is writable.
pub open spec fn associated_token_rule(acct: TokenAccount, authority: Seq<u8>, ata: Option<Seq<u8>>) -> Result<(), AccountError> {
    if acct.owner@ != authority {
        Err(AccountError::ConstraintTokenOwner)
    } else {
        match ata {
            None => Err(AccountError::NoViableBump),
            Some(a) => if a != acct.info.key@ {
                Err(AccountError::ConstraintAssociated)
            } else if !acct.info.is_writable {
                Err(AccountError::ConstraintMut)
            } else {
                Ok(())
            },
        }
    }
}

/// The rules of the accounts of `take` that follow the two
/// `init_if_needed` accounts, in the order in which they are checked.
pub open spec fn take_later_rules(t: Take, escrow_pda: Option<Seq<u8>>, taker_b_ata: Option<Seq<u8>>, vault_ata: Option<Seq<u8>>) -> Result<(), AccountError> {
    if !t.taker.is_writable {
        Err(AccountError::ConstraintMut)
    } else if !t.maker.is_writable {
        Err(AccountError::ConstraintMut)
    } else if t.maker.key@ != t.escrow.data.maker@ {
        Err(AccountError::ConstraintAddress)
    } else if t.mint_a.info.key@ != t.escrow.data.mint_a@ {
        Err(AccountError::ConstraintAddress)
    } else if t.mint_b.info.key@ != t.escrow.data.mint_b@ {
        Err(AccountError::ConstraintAddress)
    } else if associated_token_rule(t.taker_mint_b_ata, t.taker.key@, taker_b_ata) is Err {
        associated_token_rule(t.taker_mint_b_ata, t.taker.key@, taker_b_ata)
    } else if escrow_pda != Some(t.escrow.info.key@) {
        Err(AccountError::ConstraintSeeds)
    } else if !t.escrow.info.is_writable {
        Err(AccountError::ConstraintMut)
    } else if t.escrow.info.key@ == t.taker.key@ {
        Err(AccountError::ConstraintClose)
    } else {
        associated_token_rule(t.vault, t.escrow.info.key@, vault_ata)
    }
}

/// The checks that the types of the accounts of `take` imply, in the order
/// of the accounts (the two `init_if_needed` accounts are checked later).
pub open spec fn take_account_types(t: Take, program_id: Seq<u8>) -> Result<(), AccountError> {
    then(
        signer_rule(t.taker),
        then(
            system_account_rule(t.maker),
            then(
                token_owned_rule(t.mint_a.info),
                then(
                    token_owned_rule(t.mint_b.info),
                    then(
                        token_owned_rule(t.taker_mint_b_ata.info),
                        then(
                            owned_account_rule(t.escrow.info, program_id),
                            then(
                                token_owned_rule(t.vault.info),
                                then(
                                    program_rule(t.system_program, SYSTEM_PROGRAM_ID@),
                                    then(
                                        program_rule(t.associated_token_program, ASSOCIATED_TOKEN_PROGRAM_ID@),
                                        token_interface_rule(t.token_program),
                                    ),
                                ),
                            ),
                        ),
                    ),
                ),
            ),
        ),
    )
}

/// The rules of the accounts of `take`, in the order in which they are
/// checked, given the escrow's derived address and the associated token
/// addresses: of the taker for mint A and of the maker for mint B under
/// the token program passed, and of the taker for mint B and of the escrow
/// for mint A under the SPL token program.
pub open spec fn take_rules(
    t: Take,
    program_id: Seq<u8>,
    escrow_pda: Option<Seq<u8>>,
    taker_a_ata: Option<Seq<u8>>,
    maker_b_ata: Option<Seq<u8>>,
    taker_b_ata: Option<Seq<u8>>,
    vault_ata: Option<Seq<u8>>,
) -> Result<TakeCreations, AccountError> {
    if take_account_types(t, program_id) is Err {
        Err(take_account_types(t, program_id)->Err_0)
    } else {
        match init_if_needed_rule(t.taker_mint_a_ata, t.mint_a.info.key@, t.taker.key@, t.token_program.key@, taker_a_ata) {
            Err(e) => Err(e),
            Ok(ca) => match init_if_needed_rule(
                t.maker_mint_b_ata,
                t.mint_b.info.key@,
                t.maker.key@,
                t.token_program.key@,
                maker_b_ata,
            ) {
                Err(e) => Err(e),
                Ok(cb) => match take_later_rules(t, escrow_pda, taker_b_ata, vault_ata) {
                    Err(e) => Err(e),
                    Ok(_) => Ok(TakeCreations { taker_mint_a_ata: ca, maker_mint_b_ata: cb }),
                },
            },
        }
    }
}

fn check_init_if_needed(acct: &TokenAccount, mint: &Address, authority: &Address, token_program: &Address, ata: Option<Address>) -> (r: Result<bool, AccountError>)
    ensures
        r == init_if_needed_rule(*acct, mint@, authority@, token_program@, opt_view(ata)),
{
    let created = match check_create_or_match(acct, mint, authority, token_program, ata) {
        Err(e) => {
            return Err(e);
        },
        Ok(c) => c,
    };
    if !acct.info.is_writable {
        Err(AccountError::ConstraintMut)
    } else if !created && !acct.rent_exempt {
        Err(AccountError::ConstraintRentExempt)
    } else {
        Ok(created)
    }
}

fn check_create_or_match(acct: &TokenAccount, mint: &Address, authority: &Address, token_program: &Address, ata: Option<Address>) -> (r: Result<bool, AccountError>)
    ensures
        r == create_or_match_rule(*acct, mint@, authority@, token_program@, opt_view(ata)),
{
    if same_address(&acct.info.owner, &SYSTEM_PROGRAM_ID) {
        return match ata {
            None => Err(AccountError::NoViableBump),
            Some(a) => if !same_address(&a, &acct.info.key) {
                Err(AccountError::MissingAccount)
            } else {
                Ok(true)
            },
        };
    }
    if !is_token_program_key(&acct.info.owner) {
        return Err(AccountError::AccountOwnedByWrongProgram);
    }
    if !same_address(&acct.mint, mint) {
        return Err(AccountError::ConstraintTokenMint);
    }
    if !same_address(&acct.owner, authority) {
        return Err(AccountError::ConstraintTokenOwner);
    }
    if !same_address(&acct.info.owner, token_program) {
        return Err(AccountError::ConstraintAssociatedTokenTokenProgram);
    }
    match ata {
        None => Err(AccountError::NoViableBump),
        Some(a) => if !same_address(&a, &acct.info.key) {
            Err(AccountError::AccountNotAssociatedTokenAccount)
        } else {
            Ok(false)
        },
    }
}

fn check_associated_token(acct: &TokenAccount, authority: &Address, ata: Option<Address>) -> (r: Result<(), AccountError>)
    ensures
        r == associated_token_rule(*acct, authority@, opt_view(ata)),
{
    if !same_address(&acct.owner, authority) {
        return Err(AccountError::ConstraintTokenOwner);
    }
    match ata {
        None => Err(AccountError::NoViableBump),
        Some(a) => if !same_address(&a, &acct.info.key) {
            Err(AccountError::ConstraintAssociated)
        } else if !acct.info.is_writable {
            Err(AccountError::ConstraintMut)
        } else {
            Ok(())
        },
    }
}

/// The creations that `take` asks for before its transfers, given which
/// accounts are to be created and their associated addresses.
pub open spec fn take_creations(t: Take, c: TakeCreations, taker_a_ata: Seq<u8>, maker_b_ata: Seq<u8>) -> Seq<InvocationModel> {
    (if c.taker_mint_a_ata {
        seq![InvocationModel {
            instruction: create_ata_ix(t.taker.key@, taker_a_ata, t.taker.key@, t.mint_a.info.key@, t.token_program.key@),
            signer_seeds: None,
        }]
    } else {
        Seq::empty()
    }) + (if c.maker_mint_b_ata {
        seq![InvocationModel {
            instruction: create_ata_ix(t.taker.key@, maker_b_ata, t.maker.key@, t.mint_b.info.key@, t.token_program.key@),
            signer_seeds: None,
        }]
    } else {
        Seq::empty()
    })
}

impl Take {
    /// Checks `take_account_types`.
    fn check_types(&self, program_id: &Address) -> (r: Result<(), AccountError>)
        ensures
            r == take_account_types(*self, program_id@),
    {
        if let Err(e) = check_signer(&self.taker) {
            return Err(e);
        }
        if let Err(e) = check_system_account(&self.maker) {
            return Err(e);
        }
        if let Err(e) = check_token_owned(&self.mint_a.info) {
            return Err(e);
        }
        if let Err(e) = check_token_owned(&self.mint_b.info) {
            return Err(e);
        }
        if let Err(e) = check_token_owned(&self.taker_mint_b_ata.info) {
            return Err(e);
        }
        if let Err(e) = check_owned_account(&self.escrow.info, program_id) {
            return Err(e);
        }
        if let Err(e) = check_token_owned(&self.vault.info) {
            return Err(e);
        }
        if let Err(e) = check_program(&self.system_program, &SYSTEM_PROGRAM_ID) {
            return Err(e);
        }
        if let Err(e) = check_program(&self.associated_token_program, &ASSOCIATED_TOKEN_PROGRAM_ID) {
            return Err(e);
        }
        check_token_interface(&self.token_program)
    }

    /// Checks the accounts given the escrow's derived address and the four
    /// associated token addresses, and says which accounts are to be created.
    pub fn check(
        &self,
        program_id: &Address,
        escrow_pda: Option<Address>,
        taker_a_ata: Option<Address>,
        maker_b_ata: Option<Address>,
        taker_b_ata: Option<Address>,
        vault_ata: Option<Address>,
    ) -> (r: Result<TakeCreations, AccountError>)
        ensures
            r == take_rules(
                *self,
                program_id@,
                opt_view(escrow_pda),
                opt_view(taker_a_ata),
                opt_view(maker_b_ata),
                opt_view(taker_b_ata),
                opt_view(vault_ata),
            ),
    {
        if let Err(e) = self.check_types(program_id) {
            return Err(e);
        }
        let ca = match check_init_if_needed(
            &self.taker_mint_a_ata, &self.mint_a.info.key, &self.taker.key, &self.token_program.key, taker_a_ata) {
            Ok(c) => c,
            Err(e) => {
                return Err(e);
            },
        };
        let cb = match check_init_if_needed(
            &self.maker_mint_b_ata, &self.mint_b.info.key, &self.maker.key, &self.token_program.key, maker_b_ata) {
            Ok(c) => c,
            Err(e) => {
                return Err(e);
            },
        };
        if !self.taker.is_writable {
            return Err(AccountError::ConstraintMut);
        }
        if !self.maker.is_writable {
            return Err(AccountError::ConstraintMut);
        }
        if !same_address(&self.maker.key, &self.escrow.data.maker) {
            return Err(AccountError::ConstraintAddress);
        }
        if !same_address(&self.mint_a.info.key, &self.escrow.data.mint_a) {
            return Err(AccountError::ConstraintAddress);
        }
        if !same_address(&self.mint_b.info.key, &self.escrow.data.mint_b) {
            return Err(AccountError::ConstraintAddress);
        }
        match check_associated_token(&self.taker_mint_b_ata, &self.taker.key, taker_b_ata) {
            Ok(_) => {},
            Err(e) => {
                return Err(e);
            },
        }
        match escrow_pda {
            Some(k) => {
                if !same_address(&k, &self.escrow.info.key) {
                    return Err(AccountError::ConstraintSeeds);
                }
            },
            None => {
                return Err(AccountError::ConstraintSeeds);
            },
        }
        if !self.escrow.info.is_writable {
            return Err(AccountError::ConstraintMut);
        }
        if same_address(&self.escrow.info.key, &self.taker.key) {
            return Err(AccountError::ConstraintClose);
        }
        match check_associated_token(&self.vault, &self.escrow.info.key, vault_ata) {
            Ok(_) => {},
            Err(e) => {
                return Err(e);
            },
        }
        Ok(TakeCreations { taker_mint_a_ata: ca, maker_mint_b_ata: cb })
    }
}

/// The bumps found while checking the accounts of `take`: every bump of
/// `take` is given by the escrow's data, so none is found.
#[derive(Clone, Copy, PartialEq, Eq, Structural, Debug)]
pub struct TakeBumps {}

/// An associated address that exists has a viable bump, and it is the
/// address that any canonical derivation of its seeds gives.
proof fn lemma_associated_address(wallet: Seq<u8>, mint: Seq<u8>, token_program: Seq<u8>)
    requires
        associated_address(wallet, mint, token_program) is Some,
    ensures
        has_viable_bump(ata_seeds(wallet, token_program, mint), ASSOCIATED_TOKEN_PROGRAM_ID@),
        forall|r: Seq<u8>|
            #[trigger] is_canonical_address(ata_seeds(wallet, token_program, mint), ASSOCIATED_TOKEN_PROGRAM_ID@, r)
                ==> associated_address(wallet, mint, token_program) == Some(r),
{
    let s = ata_seeds(wallet, token_program, mint);
    let k = canonical_address(s, ASSOCIATED_TOKEN_PROGRAM_ID@)->0;
    lemma_found_is_viable(s, ASSOCIATED_TOKEN_PROGRAM_ID@, k.0, k.1);
    assert forall|r: Seq<u8>| #[trigger] is_canonical_address(s, ASSOCIATED_TOKEN_PROGRAM_ID@, r) implies associated_address(
        wallet,
        mint,
        token_program,
    ) == Some(r) by {
        let k = canonical_address(s, ASSOCIATED_TOKEN_PROGRAM_ID@)->0;
        lemma_found_is_canonical(s, ASSOCIATED_TOKEN_PROGRAM_ID@, k.0, k.1, r);
    }
}

/// The address that the escrow's seeds and stored bump derive.
pub open spec fn escrow_pda(t: Take, program_id: Seq<u8>) -> Option<Seq<u8>> {
    program_address(bumped(escrow_seeds(t.escrow.data.maker@, t.escrow.data.seed), t.escrow.data.bump), program_id)
}

/// The rules of the accounts of `take` under the program `program_id`.
pub open spec fn take_accounts_rules(t: Take, program_id: Seq<u8>) -> Result<TakeCreations, AccountError> {
    take_rules(
        t,
        program_id,
        escrow_pda(t, program_id),
        associated_address(t.taker.key@, t.mint_a.info.key@, t.token_program.key@),
        associated_address(t.maker.key@, t.mint_b.info.key@, t.token_program.key@),
        associated_address(t.taker.key@, t.mint_b.info.key@, TOKEN_PROGRAM_ID@),
        associated_address(t.escrow.info.key@, t.mint_a.info.key@, TOKEN_PROGRAM_ID@),
    )
}

/// The creations that `take` asks for under the program `program_id`.
pub open spec fn take_accounts_creations(t: Take, c: TakeCreations) -> Seq<InvocationModel> {
    take_creations(
        t,
        c,
        associated_address(t.taker.key@, t.mint_a.info.key@, t.token_program.key@)->0,
        associated_address(t.maker.key@, t.mint_b.info.key@, t.token_program.key@)->0,
    )
}

/// What the withdrawal of `take` asks for: the taker pays the amount of
/// mint B that the maker asked for into the maker's account, then the
/// vault's whole amount of mint A goes to the taker, the program signing
/// for the escrow with `[b"escrow", maker, seed, [bump]]`.
pub open spec fn take_withdraw_invocations(t: Take) -> Seq<InvocationModel> {
    seq![
        InvocationModel {
            instruction: transfer_checked_ix(
                t.token_program.key@,
                t.taker_mint_b_ata.info.key@,
                t.mint_b.info.key@,
                t.maker_mint_b_ata.info.key@,
                t.taker.key@,
                t.escrow.data.receive_amount,
                t.mint_b.decimals,
            ),
            signer_seeds: None,
        },
        InvocationModel {
            instruction: transfer_checked_ix(
                t.token_program.key@,
                t.vault.info.key@,
                t.mint_a.info.key@,
                t.taker_mint_a_ata.info.key@,
                t.escrow.info.key@,
                t.vault.amount,
                t.mint_a.decimals,
            ),
            signer_seeds: Some(bumped(escrow_seeds(t.maker.key@, t.escrow.data.seed), t.escrow.data.bump)),
        },
    ]
}

/// What the closing of `take` asks for: the SPL token program closes the
/// vault, its lamports going to the taker, the program signing for the
/// escrow.
pub open spec fn take_close_invocation(t: Take) -> InvocationModel {
    InvocationModel {
        instruction: close_account_ix(TOKEN_PROGRAM_ID@, t.vault.info.key@, t.taker.key@, t.escrow.info.key@),
        signer_seeds: Some(bumped(escrow_seeds(t.maker.key@, t.escrow.data.seed), t.escrow.data.bump)),
    }
}

impl Take {
    /// Checks the accounts under the program `program_id` and returns the
    /// creations of the associated token accounts that do not exist yet.
    pub fn validate(&self, program_id: &Address) -> (r: Result<Vec<Invocation>, AccountError>)
        ensures
            match take_accounts_rules(*self, program_id@) {
                Ok(c) => r is Ok && invocations_view(r->Ok_0@) == take_accounts_creations(*self, c),
                Err(e) => r == Err::<Vec<Invocation>, AccountError>(e),
            },
    {
        let e = derive_address(
            make_escrow_seeds(&self.escrow.data.maker, self.escrow.data.seed), self.escrow.data.bump, program_id);
        let a = find_associated_address(&self.taker.key, &self.mint_a.info.key, &self.token_program.key);
        let b = find_associated_address(&self.maker.key, &self.mint_b.info.key, &self.token_program.key);
        let c = find_token_associated_address(&self.taker.key, &self.mint_b.info.key);
        let d = find_token_associated_address(&self.escrow.info.key, &self.mint_a.info.key);
        let creations = match self.check(program_id, e, a, b, c, d) {
            Ok(x) => x,
            Err(err) => {
                return Err(err);
            },
        };
        let ghost t = *self;
        let mut plan: Vec<Invocation> = Vec::new();
        if creations.taker_mint_a_ata {
            proof {
                lemma_associated_address(self.taker.key@, self.mint_a.info.key@, self.token_program.key@);
            }
            let ix = create_associated_token_account(
                &self.taker.key, &self.taker.key, &self.mint_a.info.key, &self.token_program.key);
            plan.push(Invocation { instruction: ix, signer_seeds: None });
        }
        if creations.maker_mint_b_ata {
            proof {
                lemma_associated_address(self.maker.key@, self.mint_b.info.key@, self.token_program.key@);
            }
            let ix = create_associated_token_account(
                &self.taker.key, &self.maker.key, &self.mint_b.info.key, &self.token_program.key);
            plan.push(Invocation { instruction: ix, signer_seeds: None });
        }
        assert(invocations_view(plan@) =~= take_accounts_creations(t, creations));
        Ok(plan)
    }

    /// The taker pays the maker in mint B, then receives the vault's
    /// tokens of mint A.
    pub fn withdraw(&self) -> (r: Result<Vec<Invocation>, AccountError>)
        ensures
            is_token_program(self.token_program.key@) ==> r is Ok && invocations_view(r->Ok_0@)
                == take_withdraw_invocations(*self),
            !is_token_program(self.token_program.key@) ==> r == Err::<Vec<Invocation>, AccountError>(
                AccountError::IncorrectProgramId,
            ),
    {
        let pay = match token_transfer_checked(
            &self.token_program.key,
            &self.taker_mint_b_ata.info.key,
            &self.mint_b.info.key,
            &self.maker_mint_b_ata.info.key,
            &self.taker.key,
            self.escrow.data.receive_amount,
            self.mint_b.decimals,
        ) {
            Ok(ix) => ix,
            Err(_) => {
                return Err(AccountError::IncorrectProgramId);
            },
        };
        let release = match token_transfer_checked(
            &self.token_program.key,
            &self.vault.info.key,
            &self.mint_a.info.key,
            &self.taker_mint_a_ata.info.key,
            &self.escrow.info.key,
            self.vault.amount,
            self.mint_a.decimals,
        ) {
            Ok(ix) => ix,
            Err(_) => {
                return Err(AccountError::IncorrectProgramId);
            },
        };
        let seeds = make_escrow_signer_seeds(&self.maker.key, self.escrow.data.seed, self.escrow.data.bump);
        let mut plan: Vec<Invocation> = Vec::new();
        plan.push(Invocation { instruction: pay, signer_seeds: None });
        plan.push(Invocation { instruction: release, signer_seeds: Some(seeds) });
        assert(invocations_view(plan@) =~= take_withdraw_invocations(*self));
        Ok(plan)
    }

    /// Closes the vault, its lamports going to the taker.
    pub fn close(&self) -> (r: Result<Invocation, AccountError>)
        ensures
            r is Ok,
            r->Ok_0@ == take_close_invocation(*self),
    {
        let ix = match token_close_account(&TOKEN_PROGRAM_ID, &self.vault.info.key, &self.taker.key, &self.escrow.info.key) {
            Ok(ix) => ix,
            Err(_) => {
                return Err(AccountError::IncorrectProgramId);
            },
        };
        let seeds = make_escrow_signer_seeds(&self.maker.key, self.escrow.data.seed, self.escrow.data.bump);
        Ok(Invocation { instruction: ix, signer_seeds: Some(seeds) })
    }
}

/// The `take` instruction, on accounts that its rules accept: the
/// withdrawal, then the closing of the vault.
pub fn take(ctx: &Context<Take, TakeBumps>) -> (r: Result<Vec<Invocation>, AccountError>)
    requires
        take_accounts_rules(ctx.accounts, ctx.program_id@) is Ok,
    ensures
        r is Ok,
        invocations_view(r->Ok_0@) == take_withdraw_invocations(ctx.accounts).push(take_close_invocation(ctx.accounts)),
{
    proof {
        lemma_take_signs_for_escrow(ctx.accounts, ctx.program_id@);
    }
    let mut plan = match ctx.accounts.withdraw() {
        Ok(p) => p,
        Err(e) => {
            return Err(e);
        },
    };
    let ghost before = invocations_view(plan@);
    let closing = match ctx.accounts.close() {
        Ok(i) => i,
        Err(e) => {
            return Err(e);
        },
    };
    plan.push(closing);
    assert(invocations_view(plan@) =~= before.push(take_close_invocation(ctx.accounts)));
    Ok(plan)
}

/// Law: once the accounts of `take` are accepted, the seeds with which the
/// program signs, for the release of the vault and for its closing, derive
/// the escrow, the escrow is the vault's authority, and the token program
/// passed is one that the transfers accept (so `take` builds them).
pub proof fn lemma_take_signs_for_escrow(t: Take, program_id: Seq<u8>)
    requires
        take_accounts_rules(t, program_id) is Ok,
    ensures
        is_token_program(t.token_program.key@),
        take_withdraw_invocations(t)[1].signer_seeds is Some,
        program_address(take_withdraw_invocations(t)[1].signer_seeds->0, program_id) == Some(t.escrow.info.key@),
        take_close_invocation(t).signer_seeds is Some,
        program_address(take_close_invocation(t).signer_seeds->0, program_id) == Some(t.escrow.info.key@),
        t.vault.owner@ == t.escrow.info.key@,
{
}

/// Law: once the accounts of `take` are accepted, the payment is the
/// amount that the escrow records, in the escrow's mint B, from the
/// taker's associated account to the associated account of the escrow's
/// maker for that mint; the release is the vault's whole amount, in the
/// escrow's mint A, out of the escrow's associated account (the vault) into
/// the taker's associated account for that mint; and the vault is then
/// closed into the taker.
pub proof fn lemma_take_follows_escrow_terms(t: Take, program_id: Seq<u8>)
    requires
        take_accounts_rules(t, program_id) is Ok,
    ensures
        t.maker.key@ == t.escrow.data.maker@,
        t.taker_mint_b_ata.owner@ == t.taker.key@,
        associated_address(t.escrow.data.maker@, t.escrow.data.mint_b@, t.token_program.key@) == Some(
            t.maker_mint_b_ata.info.key@,
        ),
        associated_address(t.taker.key@, t.escrow.data.mint_a@, t.token_program.key@) == Some(
            t.taker_mint_a_ata.info.key@,
        ),
        associated_address(t.taker.key@, t.escrow.data.mint_b@, TOKEN_PROGRAM_ID@) == Some(t.taker_mint_b_ata.info.key@),
        associated_address(t.escrow.info.key@, t.escrow.data.mint_a@, TOKEN_PROGRAM_ID@) == Some(t.vault.info.key@),
        take_withdraw_invocations(t)[0].instruction == transfer_checked_ix(
            t.token_program.key@,
            t.taker_mint_b_ata.info.key@,
            t.escrow.data.mint_b@,
            t.maker_mint_b_ata.info.key@,
            t.taker.key@,
            t.escrow.data.receive_amount,
            t.mint_b.decimals,
        ),
        take_withdraw_invocations(t)[1].instruction == transfer_checked_ix(
            t.token_program.key@,
            t.vault.info.key@,
            t.escrow.data.mint_a@,
            t.taker_mint_a_ata.info.key@,
            t.vault.owner@,
            t.vault.amount,
            t.mint_a.decimals,
        ),
        take_close_invocation(t).instruction == close_account_ix(
            TOKEN_PROGRAM_ID@,
            t.vault.info.key@,
            t.taker.key@,
            t.vault.owner@,
        ),
{
}

/// The `take` instruction: the accounts are checked under the program
/// `program_id`; only accepted accounts lead to the invocations, which are
/// the creations of the missing associated token accounts, the payment and
/// the release, and the closing of the vault, in that order. Once they have
/// run, `Take::exit` closes the escrow into the taker, on the accounts as
/// they then stand.
pub fn process_take(accounts: &Take, program_id: &Address) -> (r: Result<Vec<Invocation>, AccountError>)
    ensures
        match take_accounts_rules(*accounts, program_id@) {
            Err(e) => r is Err && r->Err_0 == e,
            Ok(c) => r is Ok && invocations_view(r->Ok_0@) == take_accounts_creations(*accounts, c) + take_withdraw_invocations(
                *accounts,
            ).push(take_close_invocation(*accounts)),
        },
{
    let mut plan = match accounts.validate(program_id) {
        Err(e) => {
            return Err(e);
        },
        Ok(p) => p,
    };
    proof {
        lemma_take_signs_for_escrow(*accounts, program_id@);
    }
    let ghost creations = plan@;
    let mut moves = match accounts.withdraw() {
        Err(e) => {
            return Err(e);
        },
        Ok(m) => m,
    };
    let ghost transfers = moves@;
    let closing = match accounts.close() {
        Err(e) => {
            return Err(e);
        },
        Ok(c) => c,
    };
    plan.append(&mut moves);
    plan.push(closing);
    assert(plan@ =~= creations + transfers.push(closing));
    assert(invocations_view(plan@) =~= invocations_view(creations) + invocations_view(transfers).push(closing@));
    Ok(plan)
}

/// Law: once the escrow is closed (owned by the system program, without
/// lamports), `take` refuses it, whatever the other accounts, so no
/// invocation follows.
pub proof fn lemma_closed_escrow_refused(t: Take, program_id: Seq<u8>)
    requires
        is_closed(t.escrow.info),
    ensures
        take_accounts_rules(t, program_id) is Err,
{
    lemma_closed_account_not_initialized(t.escrow.info, program_id);
}

impl Take {
    /// The end of `take`: the escrow is closed into the taker.
    pub fn exit(&mut self)
        requires
            old(self).escrow.info.lamports + old(self).taker.lamports <= u64::MAX,
        ensures
            final(self).escrow.info == closed_view(old(self).escrow.info),
            final(self).taker == credited(old(self).taker, old(self).escrow.info.lamports),
            final(self).escrow.data == old(self).escrow.data,
            final(self).maker == old(self).maker,
            final(self).mint_a == old(self).mint_a,
            final(self).mint_b == old(self).mint_b,
            final(self).taker_mint_a_ata == old(self).taker_mint_a_ata,
            final(self).taker_mint_b_ata == old(self).taker_mint_b_ata,
            final(self).maker_mint_b_ata == old(self).maker_mint_b_ata,
            final(self).vault == old(self).vault,
            final(self).system_program == old(self).system_program,
            final(self).associated_token_program == old(self).associated_token_program,
            final(self).token_program == old(self).token_program,
    {
        close_account_into(&mut self.escrow.info, &mut self.taker);
    }
}

/// Law: the escrow that the end of a `take` leaves behind is refused by
/// every later `take` naming it, whatever the other accounts, so no
/// invocation follows.
pub proof fn lemma_taken_escrow_stays_closed(at_exit: Take, later: Take, program_id: Seq<u8>)
    requires
        later.escrow.info == closed_view(at_exit.escrow.info),
    ensures
        later.escrow.info.key == at_exit.escrow.info.key,
        take_accounts_rules(later, program_id) is Err,
{
    lemma_closed_escrow_refused(later, program_id);
}

} // verus!
