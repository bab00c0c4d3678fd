//! The lamport vault program: a user initializes a state account and a
//! vault, deposits lamports into the vault, withdraws them, and closes it.
//!
//! Each instruction has its accounts, checked against what their declared
//! types imply (signers, owners, program ids) and against the constraints
//! declared on them (seeds and bumps, mutability, closing), and a handler
//! that returns the invocation of the system program that moves the
//! lamports. Reading the accounts' data, creating and closing the state
//! account, and running the invocations belong to the framework around
//! this library.

use crate::account::{
    check_mut, check_owned_account, check_program, close_account_into, closed_view, credited, invocations_view,
    is_closed, lemma_closed_account_not_initialized, check_signer, check_system_account, mut_rule,
    owned_account_rule, program_rule, signer_rule, system_account_rule, then, AccountView, Context,
    Invocation, InvocationModel, ProgramAccount,
};
use crate::address::{
    address_bytes, same_address, state_tag, state_tag_bytes, vault_tag, vault_tag_bytes, Address,
    SYSTEM_PROGRAM_ID,
};
use crate::error::AccountError;
use crate::instruction::{
    system_allocate, system_allocate_ix, system_assign, system_assign_ix, system_create_account,
    system_create_account_ix, system_transfer, system_transfer_ix,
};
use crate::pda::{bumped, canonical_address, derive_address, find_canonical_address, program_address, seeds_view};
use vstd::prelude::*;

verus! {

/// The data of the vault's state account: the bumps of the state account
/// and of the vault.
#[derive(Clone, Copy, PartialEq, Eq, Structural, Debug)]
pub struct VaultState {
    pub state_bump: u8,
    pub vault_bump: u8,
}

/// The bumps found while checking the accounts of `Initialize`.
#[derive(Clone, Copy, PartialEq, Eq, Structural, Debug)]
pub struct InitializeBumps {
    pub vault_state: u8,
    pub vault: u8,
}

/// Accounts of `initialize`.
pub struct Initialize {
    pub signer: AccountView,
    pub vault_state: ProgramAccount<VaultState>,
    pub vault: AccountView,
    pub system_program: AccountView,
}

/// Accounts of `deposit`.
pub struct Deposit {
    pub payer: AccountView,
    pub vault_state: ProgramAccount<VaultState>,
    pub vault: AccountView,
    pub system_program: AccountView,
}

/// Accounts of `withdraw`.
pub struct WithDraw {
    pub payer: AccountView,
    pub vault_state: ProgramAccount<VaultState>,
    pub vault: AccountView,
    pub system_program: AccountView,
}

/// Accounts of `close`.
pub struct Close {
    pub signer: AccountView,
    pub vault_state: ProgramAccount<VaultState>,
    pub vault: AccountView,
    pub system_program: AccountView,
}

/// Seeds `[b"state", user]`.
pub open spec fn state_seeds(user: Seq<u8>) -> Seq<Seq<u8>> {
    seq![state_tag(), user]
}

/// Seeds `[b"vault", key]`.
pub open spec fn vault_seeds(key: Seq<u8>) -> Seq<Seq<u8>> {
    seq![vault_tag(), key]
}

/// Builds the seeds `[b"state", user]`.
pub fn make_state_seeds(user: &Address) -> (r: Vec<Vec<u8>>)
    ensures
        seeds_view(r@) == state_seeds(user@),
{
    let r = vec![state_tag_bytes(), address_bytes(user)];
    assert(seeds_view(r@) =~= state_seeds(user@));
    r
}

/// Builds the seeds `[b"vault", key]`.
pub fn make_vault_seeds(key: &Address) -> (r: Vec<Vec<u8>>)
    ensures
        seeds_view(r@) == vault_seeds(key@),
{
    let r = vec![vault_tag_bytes(), address_bytes(key)];
    assert(seeds_view(r@) =~= vault_seeds(key@));
    r
}

/// The value of an optional address.
pub open spec fn opt_view(a: Option<Address>) -> Option<Seq<u8>> {
    match a {
        Some(k) => Some(k@),
        None => None,
    }
}

/// An account that must be the address `pda` derived from its seeds.
pub open spec fn seeds_rule(pda: Option<Seq<u8>>, key: Seq<u8>) -> Result<(), AccountError> {
    if pda != Some(key) {
        Err(AccountError::ConstraintSeeds)
    } else {
        Ok(())
    }
}

/// The checks that the types of the accounts of `deposit`, `withdraw` and
/// `close` imply: the user signs, the program owns the state account, the
/// system program owns the vault, and the system program is passed.
pub open spec fn vault_account_types(
    user: AccountView,
    vault_state: ProgramAccount<VaultState>,
    vault: AccountView,
    system_program: AccountView,
    program_id: Seq<u8>,
) -> Result<(), AccountError> {
    then(
        signer_rule(user),
        then(
            owned_account_rule(vault_state.info, program_id),
            then(system_account_rule(vault), program_rule(system_program, SYSTEM_PROGRAM_ID@)),
        ),
    )
}

/// The rules of the accounts of `deposit` and `withdraw`, in the order in
/// which they are checked, given the addresses that the state seeds (with
/// the stored state bump) and the vault seeds (with the stored vault bump)
/// derive.
pub open spec fn transfer_accounts_rules(
    payer: AccountView,
    vault_state: ProgramAccount<VaultState>,
    vault: AccountView,
    system_program: AccountView,
    program_id: Seq<u8>,
    state_pda: Option<Seq<u8>>,
    vault_pda: Option<Seq<u8>>,
) -> Result<(), AccountError> {
    then(
        vault_account_types(payer, vault_state, vault, system_program, program_id),
        then(
            mut_rule(payer),
            then(
                seeds_rule(state_pda, vault_state.info.key@),
                then(mut_rule(vault_state.info), then(seeds_rule(vault_pda, vault.key@), mut_rule(vault))),
            ),
        ),
    )
}

/// The address that `[b"state", user, [bump]]` derives under the program.
pub open spec fn state_pda(user: Seq<u8>, bump: u8, program_id: Seq<u8>) -> Option<Seq<u8>> {
    program_address(bumped(state_seeds(user), bump), program_id)
}

/// The address that `[b"vault", key, [bump]]` derives under the program.
pub open spec fn vault_pda(key: Seq<u8>, bump: u8, program_id: Seq<u8>) -> Option<Seq<u8>> {
    program_address(bumped(vault_seeds(key), bump), program_id)
}

/// Checks `seeds_rule`.
fn check_seeds(pda: Option<Address>, key: &Address) -> (r: Result<(), AccountError>)
    ensures
        r == seeds_rule(opt_view(pda), key@),
{
    match pda {
        Some(k) => if same_address(&k, key) {
            Ok(())
        } else {
            Err(AccountError::ConstraintSeeds)
        },
        None => Err(AccountError::ConstraintSeeds),
    }
}

/// Checks `vault_account_types`.
fn check_vault_account_types(
    user: &AccountView,
    vault_state: &ProgramAccount<VaultState>,
    vault: &AccountView,
    system_program: &AccountView,
    program_id: &Address,
) -> (r: Result<(), AccountError>)
    ensures
        r == vault_account_types(*user, *vault_state, *vault, *system_program, program_id@),
{
    if let Err(e) = check_signer(user) {
        return Err(e);
    }
    if let Err(e) = check_owned_account(&vault_state.info, program_id) {
        return Err(e);
    }
    if let Err(e) = check_system_account(vault) {
        return Err(e);
    }
    check_program(system_program, &SYSTEM_PROGRAM_ID)
}

/// Checks the rules of `deposit` and `withdraw` given the derived addresses.
fn check_transfer_accounts(
    payer: &AccountView,
    vault_state: &ProgramAccount<VaultState>,
    vault: &AccountView,
    system_program: &AccountView,
    program_id: &Address,
    state_pda: Option<Address>,
    vault_pda: Option<Address>,
) -> (r: Result<(), AccountError>)
    ensures
        r == transfer_accounts_rules(
            *payer,
            *vault_state,
            *vault,
            *system_program,
            program_id@,
            opt_view(state_pda),
            opt_view(vault_pda),
        ),
{
    if let Err(e) = check_vault_account_types(payer, vault_state, vault, system_program, program_id) {
        return Err(e);
    }
    if let Err(e) = check_mut(payer) {
        return Err(e);
    }
    if let Err(e) = check_seeds(state_pda, &vault_state.info.key) {
        return Err(e);
    }
    if let Err(e) = check_mut(&vault_state.info) {
        return Err(e);
    }
    if let Err(e) = check_seeds(vault_pda, &vault.key) {
        return Err(e);
    }
    check_mut(vault)
}

/// What `deposit` asks for: the system program moves `amount` lamports
/// from the payer to the vault, signed by the payer.
pub open spec fn deposit_invocation(d: Deposit, amount: u64) -> InvocationModel {
    InvocationModel {
        instruction: system_transfer_ix(d.payer.key@, d.vault.key@, amount),
        signer_seeds: None,
    }
}

/// What `withdraw` asks for: the system program moves `amount` lamports
/// from the vault to the payer, the program signing for the vault with
/// `[b"vault", vault_state, [vault_bump]]`.
pub open spec fn withdraw_invocation(w: WithDraw, amount: u64) -> InvocationModel {
    InvocationModel {
        instruction: system_transfer_ix(w.vault.key@, w.payer.key@, amount),
        signer_seeds: Some(bumped(vault_seeds(w.vault_state.info.key@), w.vault_state.data.vault_bump)),
    }
}

/// What `close` asks for: the system program moves all the vault's
/// lamports to the signer, the program signing for the vault.
pub open spec fn close_invocation(c: Close) -> InvocationModel {
    InvocationModel {
        instruction: system_transfer_ix(c.vault.key@, c.signer.key@, c.vault.lamports),
        signer_seeds: Some(bumped(vault_seeds(c.vault_state.info.key@), c.vault_state.data.vault_bump)),
    }
}

/// Builds `[b"vault", key, [bump]]`.
fn make_vault_signer_seeds(key: &Address, bump: u8) -> (r: Vec<Vec<u8>>)
    ensures
        seeds_view(r@) == bumped(vault_seeds(key@), bump),
{
    let b = vec![bump];
    let r = vec![vault_tag_bytes(), address_bytes(key), b];
    assert(b@ =~= seq![bump]);
    assert(seeds_view(r@) =~= bumped(vault_seeds(key@), bump));
    r
}

impl Deposit {
    /// Checks the accounts under the program `program_id`, given the
    /// addresses that the state seeds and the vault seeds derive with the
    /// stored bumps.
    pub fn check(&self, program_id: &Address, state_pda: Option<Address>, vault_pda: Option<Address>) -> (r: Result<(), AccountError>)
        ensures
            r == transfer_accounts_rules(
                self.payer,
                self.vault_state,
                self.vault,
                self.system_program,
                program_id@,
                opt_view(state_pda),
                opt_view(vault_pda),
            ),
    {
        check_transfer_accounts(&self.payer, &self.vault_state, &self.vault, &self.system_program, program_id, state_pda, vault_pda)
    }

    /// Checks the accounts under the program `program_id`.
    pub fn validate(&self, program_id: &Address) -> (r: Result<(), AccountError>)
        ensures
            r == transfer_accounts_rules(
                self.payer,
                self.vault_state,
                self.vault,
                self.system_program,
                program_id@,
                state_pda(self.payer.key@, self.vault_state.data.state_bump, program_id@),
                vault_pda(self.vault_state.info.key@, self.vault_state.data.vault_bump, program_id@),
            ),
    {
        let s = derive_address(make_state_seeds(&self.payer.key), self.vault_state.data.state_bump, program_id);
        let v = derive_address(make_vault_seeds(&self.vault_state.info.key), self.vault_state.data.vault_bump, program_id);
        self.check(program_id, s, v)
    }

    /// Moves `amount` lamports from the payer into the vault.
    pub fn deposit(&self, amount: u64) -> (r: Invocation)
        ensures
            r@ == deposit_invocation(*self, amount),
    {
        Invocation { instruction: system_transfer(&self.payer.key, &self.vault.key, amount), signer_seeds: None }
    }
}

impl WithDraw {
    /// Checks the accounts under the program `program_id`, given the
    /// addresses that the state seeds and the vault seeds derive with the
    /// stored bumps.
    pub fn check(&self, program_id: &Address, state_pda: Option<Address>, vault_pda: Option<Address>) -> (r: Result<(), AccountError>)
        ensures
            r == transfer_accounts_rules(
                self.payer,
                self.vault_state,
                self.vault,
                self.system_program,
                program_id@,
                opt_view(state_pda),
                opt_view(vault_pda),
            ),
    {
        check_transfer_accounts(&self.payer, &self.vault_state, &self.vault, &self.system_program, program_id, state_pda, vault_pda)
    }

    /// Checks the accounts under the program `program_id`.
    pub fn validate(&self, program_id: &Address) -> (r: Result<(), AccountError>)
        ensures
            r == transfer_accounts_rules(
                self.payer,
                self.vault_state,
                self.vault,
                self.system_program,
                program_id@,
                state_pda(self.payer.key@, self.vault_state.data.state_bump, program_id@),
                vault_pda(self.vault_state.info.key@, self.vault_state.data.vault_bump, program_id@),
            ),
    {
        let s = derive_address(make_state_seeds(&self.payer.key), self.vault_state.data.state_bump, program_id);
        let v = derive_address(make_vault_seeds(&self.vault_state.info.key), self.vault_state.data.vault_bump, program_id);
        self.check(program_id, s, v)
    }

    /// Moves `amount` lamports from the vault back to the payer.
    pub fn withdraw(&self, amount: u64) -> (r: Invocation)
        ensures
            r@ == withdraw_invocation(*self, amount),
    {
        let seeds = make_vault_signer_seeds(&self.vault_state.info.key, self.vault_state.data.vault_bump);
        Invocation { instruction: system_transfer(&self.vault.key, &self.payer.key, amount), signer_seeds: Some(seeds) }
    }
}

/// An account to be closed into `destination` must not be `destination`.
pub open spec fn close_rule(key: Seq<u8>, destination: Seq<u8>) -> Result<(), AccountError> {
    if key == destination {
        Err(AccountError::ConstraintClose)
    } else {
        Ok(())
    }
}

/// The rules of the accounts of `close`, in the order in which they are
/// checked, given the addresses that the state seeds and the vault seeds
/// derive with the stored bumps.
pub open spec fn close_accounts_rules(
    signer: AccountView,
    vault_state: ProgramAccount<VaultState>,
    vault: AccountView,
    system_program: AccountView,
    program_id: Seq<u8>,
    state_pda: Option<Seq<u8>>,
    vault_pda: Option<Seq<u8>>,
) -> Result<(), AccountError> {
    then(
        vault_account_types(signer, vault_state, vault, system_program, program_id),
        then(
            mut_rule(signer),
            then(
                seeds_rule(state_pda, vault_state.info.key@),
                then(
                    mut_rule(vault_state.info),
                    then(
                        close_rule(vault_state.info.key@, signer.key@),
                        then(seeds_rule(vault_pda, vault.key@), mut_rule(vault)),
                    ),
                ),
            ),
        ),
    )
}

impl Close {
    /// Checks the accounts under the program `program_id`, given the
    /// addresses that the state seeds and the vault seeds derive with the
    /// stored bumps.
    pub fn check(&self, program_id: &Address, state_pda: Option<Address>, vault_pda: Option<Address>) -> (r: Result<(), AccountError>)
        ensures
            r == close_accounts_rules(
                self.signer,
                self.vault_state,
                self.vault,
                self.system_program,
                program_id@,
                opt_view(state_pda),
                opt_view(vault_pda),
            ),
    {
        if let Err(e) = check_vault_account_types(&self.signer, &self.vault_state, &self.vault, &self.system_program, program_id) {
            return Err(e);
        }
        if let Err(e) = check_mut(&self.signer) {
            return Err(e);
        }
        if let Err(e) = check_seeds(state_pda, &self.vault_state.info.key) {
            return Err(e);
        }
        if let Err(e) = check_mut(&self.vault_state.info) {
            return Err(e);
        }
        if same_address(&self.vault_state.info.key, &self.signer.key) {
            return Err(AccountError::ConstraintClose);
        }
        if let Err(e) = check_seeds(vault_pda, &self.vault.key) {
            return Err(e);
        }
        check_mut(&self.vault)
    }

    /// Checks the accounts under the program `program_id`.
    pub fn validate(&self, program_id: &Address) -> (r: Result<(), AccountError>)
        ensures
            r == close_accounts_rules(
                self.signer,
                self.vault_state,
                self.vault,
                self.system_program,
                program_id@,
                state_pda(self.signer.key@, self.vault_state.data.state_bump, program_id@),
                vault_pda(self.vault_state.info.key@, self.vault_state.data.vault_bump, program_id@),
            ),
    {
        let s = derive_address(make_state_seeds(&self.signer.key), self.vault_state.data.state_bump, program_id);
        let v = derive_address(make_vault_seeds(&self.vault_state.info.key), self.vault_state.data.vault_bump, program_id);
        self.check(program_id, s, v)
    }

    /// Moves every lamport of the vault to the signer.
    pub fn close(&self) -> (r: Invocation)
        ensures
            r@ == close_invocation(*self),
    {
        let seeds = make_vault_signer_seeds(&self.vault_state.info.key, self.vault_state.data.vault_bump);
        Invocation { instruction: system_transfer(&self.vault.key, &self.signer.key, self.vault.lamports), signer_seeds: Some(seeds) }
    }
}

/// The rule of an account created at the canonical address of its seeds:
/// a bump must be viable and the account must be the address found.
pub open spec fn found_rule(found: Option<(Seq<u8>, u8)>, key: Seq<u8>) -> Result<(), AccountError> {
    match found {
        None => Err(AccountError::NoViableBump),
        Some((k, _)) => if k != key {
            Err(AccountError::ConstraintSeeds)
        } else {
            Ok(())
        },
    }
}

/// The bump of a canonical address that was found.
pub open spec fn found_bump(found: Option<(Seq<u8>, u8)>) -> u8 {
    match found {
        Some((_, b)) => b,
        None => 0,
    }
}

/// The rules of the accounts of `initialize`, in the order in which they
/// are checked, given the canonical addresses (with their bumps) of the
/// state seeds `[b"vault", signer]` and of the vault seeds
/// `[b"vault", vault_state]`; the bumps found are returned. The state
/// account is created right after its address is checked, and must then be
/// writable; once created it holds the rent-exempt minimum.
pub open spec fn initialize_rules(
    signer: AccountView,
    vault_state: ProgramAccount<VaultState>,
    vault: AccountView,
    system_program: AccountView,
    state_found: Option<(Seq<u8>, u8)>,
    vault_found: Option<(Seq<u8>, u8)>,
) -> Result<InitializeBumps, AccountError> {
    then(
        signer_rule(signer),
        then(
            system_account_rule(vault),
            then(
                program_rule(system_program, SYSTEM_PROGRAM_ID@),
                then(
                    found_rule(state_found, vault_state.info.key@),
                    then(
                        payer_rule(signer, vault_state.info),
                        then(
                            mut_rule(vault_state.info),
                            then(
                                mut_rule(signer),
                                then(
                                    found_rule(vault_found, vault.key@),
                                    Ok(InitializeBumps { vault_state: found_bump(state_found), vault: found_bump(vault_found) }),
                                ),
                            ),
                        ),
                    ),
                ),
            ),
        ),
    )
}

/// The payer of the state account's creation must not be the state
/// account itself, where that account already holds lamports.
pub open spec fn payer_rule(payer: AccountView, created: AccountView) -> Result<(), AccountError> {
    if created.lamports != 0 && payer.key@ == created.key@ {
        Err(AccountError::TryingToInitPayerAsProgramAccount)
    } else {
        Ok(())
    }
}

/// The value of an optional address with its bump.
pub open spec fn opt_found_view(a: Option<(Address, u8)>) -> Option<(Seq<u8>, u8)> {
    match a {
        Some((k, b)) => Some((k@, b)),
        None => None,
    }
}

/// Checks `found_rule`.
fn check_found(found: Option<(Address, u8)>, key: &Address) -> (r: Result<(), AccountError>)
    ensures
        r == found_rule(opt_found_view(found), key@),
{
    match found {
        None => Err(AccountError::NoViableBump),
        Some((k, _)) => if same_address(&k, key) {
            Ok(())
        } else {
            Err(AccountError::ConstraintSeeds)
        },
    }
}

impl Initialize {
    /// Checks the accounts, given the canonical addresses with their bumps
    /// of the state seeds and of the vault seeds, and returns the bumps.
    pub fn check(&self, state_found: Option<(Address, u8)>, vault_found: Option<(Address, u8)>) -> (r: Result<InitializeBumps, AccountError>)
        ensures
            r == initialize_rules(
                self.signer,
                self.vault_state,
                self.vault,
                self.system_program,
                opt_found_view(state_found),
                opt_found_view(vault_found),
            ),
    {
        if let Err(e) = check_signer(&self.signer) {
            return Err(e);
        }
        if let Err(e) = check_system_account(&self.vault) {
            return Err(e);
        }
        if let Err(e) = check_program(&self.system_program, &SYSTEM_PROGRAM_ID) {
            return Err(e);
        }
        if let Err(e) = check_found(state_found, &self.vault_state.info.key) {
            return Err(e);
        }
        if self.vault_state.info.lamports != 0 && same_address(&self.signer.key, &self.vault_state.info.key) {
            return Err(AccountError::TryingToInitPayerAsProgramAccount);
        }
        if let Err(e) = check_mut(&self.vault_state.info) {
            return Err(e);
        }
        if let Err(e) = check_mut(&self.signer) {
            return Err(e);
        }
        if let Err(e) = check_found(vault_found, &self.vault.key) {
            return Err(e);
        }
        match (state_found, vault_found) {
            (Some((_, state_bump)), Some((_, vault_bump))) => Ok(InitializeBumps { vault_state: state_bump, vault: vault_bump }),
            _ => Err(AccountError::NoViableBump),
        }
    }

    /// Checks the accounts under the program `program_id` and finds the
    /// canonical bumps of the state account and of the vault.
    pub fn validate(&self, program_id: &Address) -> (r: Result<InitializeBumps, AccountError>)
        ensures
            r == initialize_rules(
                self.signer,
                self.vault_state,
                self.vault,
                self.system_program,
                canonical_address(vault_seeds(self.signer.key@), program_id@),
                canonical_address(vault_seeds(self.vault_state.info.key@), program_id@),
            ),
    {
        let s = find_canonical_address(&make_vault_seeds(&self.signer.key), program_id);
        let v = find_canonical_address(&make_vault_seeds(&self.vault_state.info.key), program_id);
        self.check(s, v)
    }

    /// Records the bumps of the state account and of the vault in the
    /// state account.
    pub fn initialize(&mut self, bumps: &InitializeBumps) -> (r: Result<(), AccountError>)
        ensures
            r is Ok,
            final(self).vault_state.data == (VaultState { state_bump: bumps.vault_state, vault_bump: bumps.vault }),
            final(self).vault_state.info == old(self).vault_state.info,
            final(self).signer == old(self).signer,
            final(self).vault == old(self).vault,
            final(self).system_program == old(self).system_program,
    {
        self.vault_state.data.state_bump = bumps.vault_state;
        self.vault_state.data.vault_bump = bumps.vault;
        Ok(())
    }
}

/// The `initialize` instruction: records the bumps found while checking
/// the accounts.
pub fn initialize(ctx: &mut Context<Initialize, InitializeBumps>) -> (r: Result<(), AccountError>)
    ensures
        r is Ok,
        final(ctx).accounts.vault_state.data == (VaultState {
            state_bump: old(ctx).bumps.vault_state,
            vault_bump: old(ctx).bumps.vault,
        }),
        final(ctx).accounts.vault_state.info == old(ctx).accounts.vault_state.info,
        final(ctx).accounts.signer == old(ctx).accounts.signer,
        final(ctx).accounts.vault == old(ctx).accounts.vault,
        final(ctx).accounts.system_program == old(ctx).accounts.system_program,
        final(ctx).bumps == old(ctx).bumps,
        final(ctx).program_id == old(ctx).program_id,
{
    let bumps = ctx.bumps;
    ctx.accounts.initialize(&bumps)
}

/// Law: once the accounts of `withdraw` are accepted, the seeds with which
/// the program signs derive the vault, so the system program accepts the
/// vault as the signing source of the transfer.
pub proof fn lemma_withdraw_signs_for_vault(w: WithDraw, program_id: Seq<u8>, amount: u64)
    requires
        transfer_accounts_rules(
            w.payer,
            w.vault_state,
            w.vault,
            w.system_program,
            program_id,
            state_pda(w.payer.key@, w.vault_state.data.state_bump, program_id),
            vault_pda(w.vault_state.info.key@, w.vault_state.data.vault_bump, program_id),
        ) is Ok,
    ensures
        withdraw_invocation(w, amount).signer_seeds is Some,
        program_address(withdraw_invocation(w, amount).signer_seeds->0, program_id) == Some(w.vault.key@),
{
}

/// Law: once the accounts of `close` are accepted, the seeds with which the
/// program signs derive the vault.
pub proof fn lemma_close_signs_for_vault(c: Close, program_id: Seq<u8>)
    requires
        close_accounts_rules(
            c.signer,
            c.vault_state,
            c.vault,
            c.system_program,
            program_id,
            state_pda(c.signer.key@, c.vault_state.data.state_bump, program_id),
            vault_pda(c.vault_state.info.key@, c.vault_state.data.vault_bump, program_id),
        ) is Ok,
    ensures
        close_invocation(c).signer_seeds is Some,
        program_address(close_invocation(c).signer_seeds->0, program_id) == Some(c.vault.key@),
{
}

/// Law: between the same payer and vault, `withdraw` of an amount asks for
/// the transfer that `deposit` of that amount asks for, with source and
/// destination exchanged.
pub proof fn lemma_withdraw_mirrors_deposit(d: Deposit, w: WithDraw, amount: u64)
    requires
        d.payer.key@ == w.payer.key@,
        d.vault.key@ == w.vault.key@,
    ensures
        withdraw_invocation(w, amount).instruction == system_transfer_ix(
            deposit_invocation(d, amount).instruction.accounts[1].0,
            deposit_invocation(d, amount).instruction.accounts[0].0,
            amount,
        ),
        deposit_invocation(d, amount).instruction == system_transfer_ix(
            withdraw_invocation(w, amount).instruction.accounts[1].0,
            withdraw_invocation(w, amount).instruction.accounts[0].0,
            amount,
        ),
{
}

/// Law: the bumps that `initialize` finds and records derive, from
/// `[b"vault", signer]` the state account and from `[b"vault", vault_state]`
/// the vault; the latter is the derivation that `deposit`, `withdraw` and
/// `close` check.
pub proof fn lemma_initialize_bumps_derive_accounts(i: Initialize, program_id: Seq<u8>)
    requires
        initialize_rules(
            i.signer,
            i.vault_state,
            i.vault,
            i.system_program,
            canonical_address(vault_seeds(i.signer.key@), program_id),
            canonical_address(vault_seeds(i.vault_state.info.key@), program_id),
        ) is Ok,
    ensures
        ({
            let b = initialize_rules(
                i.signer,
                i.vault_state,
                i.vault,
                i.system_program,
                canonical_address(vault_seeds(i.signer.key@), program_id),
                canonical_address(vault_seeds(i.vault_state.info.key@), program_id),
            )->Ok_0;
            &&& program_address(bumped(vault_seeds(i.signer.key@), b.vault_state), program_id) == Some(i.vault_state.info.key@)
            &&& vault_pda(i.vault_state.info.key@, b.vault, program_id) == Some(i.vault.key@)
        }),
{
}

/// The `deposit` instruction: the accounts are checked under the program
/// `program_id`, and only accepted accounts lead to the transfer.
pub fn process_deposit(accounts: &Deposit, program_id: &Address, amount: u64) -> (r: Result<Invocation, AccountError>)
    ensures
        match transfer_accounts_rules(
            accounts.payer,
            accounts.vault_state,
            accounts.vault,
            accounts.system_program,
            program_id@,
            state_pda(accounts.payer.key@, accounts.vault_state.data.state_bump, program_id@),
            vault_pda(accounts.vault_state.info.key@, accounts.vault_state.data.vault_bump, program_id@),
        ) {
            Err(e) => r is Err && r->Err_0 == e,
            Ok(_) => r is Ok && r->Ok_0@ == deposit_invocation(*accounts, amount),
        },
{
    match accounts.validate(program_id) {
        Err(e) => Err(e),
        Ok(_) => Ok(accounts.deposit(amount)),
    }
}

/// The `withdraw` instruction: the accounts are checked under the program
/// `program_id`, and only accepted accounts lead to the transfer.
pub fn process_withdraw(accounts: &WithDraw, program_id: &Address, amount: u64) -> (r: Result<Invocation, AccountError>)
    ensures
        match transfer_accounts_rules(
            accounts.payer,
            accounts.vault_state,
            accounts.vault,
            accounts.system_program,
            program_id@,
            state_pda(accounts.payer.key@, accounts.vault_state.data.state_bump, program_id@),
            vault_pda(accounts.vault_state.info.key@, accounts.vault_state.data.vault_bump, program_id@),
        ) {
            Err(e) => r is Err && r->Err_0 == e,
            Ok(_) => r is Ok && r->Ok_0@ == withdraw_invocation(*accounts, amount),
        },
{
    match accounts.validate(program_id) {
        Err(e) => Err(e),
        Ok(_) => Ok(accounts.withdraw(amount)),
    }
}

/// The `close` instruction: the accounts are checked under the program
/// `program_id`, and only accepted accounts lead to the transfer. Once it
/// has run, `Close::exit` closes the state account into the signer, on the
/// accounts as they then stand.
pub fn process_close(accounts: &Close, program_id: &Address) -> (r: Result<Invocation, AccountError>)
    ensures
        match close_accounts_rules(
            accounts.signer,
            accounts.vault_state,
            accounts.vault,
            accounts.system_program,
            program_id@,
            state_pda(accounts.signer.key@, accounts.vault_state.data.state_bump, program_id@),
            vault_pda(accounts.vault_state.info.key@, accounts.vault_state.data.vault_bump, program_id@),
        ) {
            Err(e) => r is Err && r->Err_0 == e,
            Ok(_) => r is Ok && r->Ok_0@ == close_invocation(*accounts),
        },
{
    match accounts.validate(program_id) {
        Err(e) => Err(e),
        Ok(_) => Ok(accounts.close()),
    }
}

/// The lamports that a pre-funded account still needs to hold at least
/// `rent_minimum` lamports (and at least one).
pub open spec fn top_up(rent_minimum: u64, lamports: u64) -> u64 {
    let target = if rent_minimum > 1 { rent_minimum } else { 1 };
    if target > lamports {
        (target - lamports) as u64
    } else {
        0
    }
}

/// What creating the state account asks for, given its bump, the program
/// that will own it, its size `space` and the rent-exempt minimum
/// `rent_minimum` for that size. An account without lamports is created by
/// the system program, funded by the signer; an account that already holds
/// lamports is topped up to the minimum (if it needs to be), given `space`
/// bytes and assigned to the program. The program signs for the state
/// account with `[b"vault", signer, [bump]]`.
pub open spec fn create_state_invocations(
    i: Initialize,
    bump: u8,
    program_id: Seq<u8>,
    rent_minimum: u64,
    space: u64,
) -> Seq<InvocationModel> {
    let seeds = Some(bumped(vault_seeds(i.signer.key@), bump));
    let state = i.vault_state.info;
    if state.lamports == 0 {
        seq![InvocationModel {
            instruction: system_create_account_ix(i.signer.key@, state.key@, rent_minimum, space, program_id),
            signer_seeds: seeds,
        }]
    } else {
        (if top_up(rent_minimum, state.lamports) > 0 {
            seq![InvocationModel {
                instruction: system_transfer_ix(i.signer.key@, state.key@, top_up(rent_minimum, state.lamports)),
                signer_seeds: None,
            }]
        } else {
            Seq::empty()
        }) + seq![
            InvocationModel { instruction: system_allocate_ix(state.key@, space), signer_seeds: seeds },
            InvocationModel { instruction: system_assign_ix(state.key@, program_id), signer_seeds: seeds },
        ]
    }
}

impl Initialize {
    /// Asks for the creation of the state account (see
    /// `create_state_invocations`).
    pub fn create_state(&self, bump: u8, program_id: &Address, rent_minimum: u64, space: u64) -> (r: Vec<Invocation>)
        ensures
            invocations_view(r@) == create_state_invocations(*self, bump, program_id@, rent_minimum, space),
    {
        let state = &self.vault_state.info;
        let mut plan: Vec<Invocation> = Vec::new();
        if state.lamports == 0 {
            let ix = system_create_account(&self.signer.key, &state.key, rent_minimum, space, program_id);
            plan.push(Invocation { instruction: ix, signer_seeds: Some(make_vault_signer_seeds(&self.signer.key, bump)) });
        } else {
            let target = if rent_minimum > 1 { rent_minimum } else { 1 };
            let required = if target > state.lamports { target - state.lamports } else { 0 };
            if required > 0 {
                plan.push(Invocation { instruction: system_transfer(&self.signer.key, &state.key, required), signer_seeds: None });
            }
            let allocate = system_allocate(&state.key, space);
            plan.push(Invocation { instruction: allocate, signer_seeds: Some(make_vault_signer_seeds(&self.signer.key, bump)) });
            let assign = system_assign(&state.key, program_id);
            plan.push(Invocation { instruction: assign, signer_seeds: Some(make_vault_signer_seeds(&self.signer.key, bump)) });
        }
        assert(invocations_view(plan@) =~= create_state_invocations(*self, bump, program_id@, rent_minimum, space));
        plan
    }
}

/// The `initialize` instruction: the accounts are checked under the
/// program `program_id`; for accepted accounts the state account's
/// creation is asked for (with its size `space` and the rent-exempt minimum
/// `rent_minimum` for that size) and the bumps found are recorded in the
/// state, while refused accounts are left as they were.
pub fn process_initialize(accounts: &mut Initialize, program_id: &Address, rent_minimum: u64, space: u64) -> (r: Result<Vec<Invocation>, AccountError>)
    ensures
        match initialize_rules(
            old(accounts).signer,
            old(accounts).vault_state,
            old(accounts).vault,
            old(accounts).system_program,
            canonical_address(vault_seeds(old(accounts).signer.key@), program_id@),
            canonical_address(vault_seeds(old(accounts).vault_state.info.key@), program_id@),
        ) {
            Err(e) => r is Err && r->Err_0 == e && final(accounts).vault_state.data == old(accounts).vault_state.data,
            Ok(b) => r is Ok && invocations_view(r->Ok_0@) == create_state_invocations(
                *old(accounts),
                b.vault_state,
                program_id@,
                rent_minimum,
                space,
            ) && final(accounts).vault_state.data == (VaultState { state_bump: b.vault_state, vault_bump: b.vault }),
        },
        final(accounts).vault_state.info == old(accounts).vault_state.info,
        final(accounts).signer == old(accounts).signer,
        final(accounts).vault == old(accounts).vault,
        final(accounts).system_program == old(accounts).system_program,
{
    match accounts.validate(program_id) {
        Err(e) => Err(e),
        Ok(bumps) => {
            let plan = accounts.create_state(bumps.vault_state, program_id, rent_minimum, space);
            let _ = accounts.initialize(&bumps);
            Ok(plan)
        },
    }
}

impl Close {
    /// The end of `close`: the state account is closed into the signer.
    pub fn exit(&mut self)
        requires
            old(self).vault_state.info.lamports + old(self).signer.lamports <= u64::MAX,
        ensures
            final(self).vault_state.info == closed_view(old(self).vault_state.info),
            final(self).signer == credited(old(self).signer, old(self).vault_state.info.lamports),
            final(self).vault_state.data == old(self).vault_state.data,
            final(self).vault == old(self).vault,
            final(self).system_program == old(self).system_program,
    {
        close_account_into(&mut self.vault_state.info, &mut self.signer);
    }
}

/// Law: the state account that the end of `close` leaves behind is refused
/// by every later `deposit`, `withdraw` and `close`, whatever the other
/// accounts and the derived addresses.
pub proof fn lemma_closed_state_stays_closed(
    at_exit: AccountView,
    user: AccountView,
    data: VaultState,
    vault: AccountView,
    system_program: AccountView,
    program_id: Seq<u8>,
    state_pda: Option<Seq<u8>>,
    vault_pda: Option<Seq<u8>>,
)
    ensures
        transfer_accounts_rules(
            user,
            ProgramAccount { info: closed_view(at_exit), data },
            vault,
            system_program,
            program_id,
            state_pda,
            vault_pda,
        ) is Err,
        close_accounts_rules(
            user,
            ProgramAccount { info: closed_view(at_exit), data },
            vault,
            system_program,
            program_id,
            state_pda,
            vault_pda,
        ) is Err,
{
    lemma_closed_state_refused(
        user,
        ProgramAccount { info: closed_view(at_exit), data },
        vault,
        system_program,
        program_id,
        state_pda,
        vault_pda,
    );
}

/// Law: once the state account is closed (owned by the system program,
/// without lamports), `deposit`, `withdraw` and `close` refuse it, whatever
/// the other accounts and the derived addresses.
pub proof fn lemma_closed_state_refused(
    user: AccountView,
    vault_state: ProgramAccount<VaultState>,
    vault: AccountView,
    system_program: AccountView,
    program_id: Seq<u8>,
    state_pda: Option<Seq<u8>>,
    vault_pda: Option<Seq<u8>>,
)
    requires
        is_closed(vault_state.info),
    ensures
        transfer_accounts_rules(user, vault_state, vault, system_program, program_id, state_pda, vault_pda) is Err,
        close_accounts_rules(user, vault_state, vault, system_program, program_id, state_pda, vault_pda) is Err,
{
    lemma_closed_account_not_initialized(vault_state.info, program_id);
}

} // verus!
