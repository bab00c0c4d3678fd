//! Accounts as the programs read them, and the invocations they ask for.

use crate::address::{same_address, Address, SYSTEM_PROGRAM_ID, TOKEN_2022_PROGRAM_ID, TOKEN_PROGRAM_ID};
use crate::error::AccountError;
use crate::instruction::{is_token_program, Instruction, InstructionModel};
use crate::pda::seeds_view;
use vstd::prelude::*;

verus! {

/// What the programs read of an account passed to an instruction.
#[derive(Clone, Copy)]
pub struct AccountView {
    pub key: Address,
    /// The program that owns the account.
    pub owner: Address,
    pub lamports: u64,
    pub is_signer: bool,
    pub is_writable: bool,
    pub executable: bool,
}

/// An account of a program together with its deserialized data.
pub struct ProgramAccount<T> {
    pub info: AccountView,
    pub data: T,
}

/// The accounts of an instruction, the bumps found while checking them,
/// and the program that runs it.
pub struct Context<A, B> {
    pub program_id: Address,
    pub accounts: A,
    pub bumps: B,
}

/// A cross-program invocation: an instruction, and the seeds (bump
/// included) with which the calling program signs for one of its derived
/// addresses, if it signs.
pub struct Invocation {
    pub instruction: Instruction,
    pub signer_seeds: Option<Vec<Vec<u8>>>,
}

/// The mathematical value of an invocation.
pub ghost struct InvocationModel {
    pub instruction: InstructionModel,
    pub signer_seeds: Option<Seq<Seq<u8>>>,
}

impl View for Invocation {
    type V = InvocationModel;

    open spec fn view(&self) -> InvocationModel {
        InvocationModel {
            instruction: self.instruction@,
            signer_seeds: match self.signer_seeds {
                Some(s) => Some(seeds_view(s@)),
                None => None,
            },
        }
    }
}

/// The values of a list of invocations.
pub open spec fn invocations_view(v: Seq<Invocation>) -> Seq<InvocationModel> {
    v.map_values(|i: Invocation| i@)
}

/// The first refusal, if any, and otherwise the rest.
pub open spec fn then<T>(first: Result<(), AccountError>, rest: Result<T, AccountError>) -> Result<T, AccountError> {
    match first {
        Err(e) => Err(e),
        Ok(_) => rest,
    }
}

/// An account that must sign.
pub open spec fn signer_rule(a: AccountView) -> Result<(), AccountError> {
    if !a.is_signer {
        Err(AccountError::AccountNotSigner)
    } else {
        Ok(())
    }
}

/// An account that the system program must own.
pub open spec fn system_account_rule(a: AccountView) -> Result<(), AccountError> {
    if a.owner@ != SYSTEM_PROGRAM_ID@ {
        Err(AccountError::AccountNotSystemOwned)
    } else {
        Ok(())
    }
}

/// An initialized account that `owner` must own.
pub open spec fn owned_account_rule(a: AccountView, owner: Seq<u8>) -> Result<(), AccountError> {
    if a.owner@ == SYSTEM_PROGRAM_ID@ && a.lamports == 0 {
        Err(AccountError::AccountNotInitialized)
    } else if a.owner@ != owner {
        Err(AccountError::AccountOwnedByWrongProgram)
    } else {
        Ok(())
    }
}

/// An initialized account (a mint or a token account) that one of the two
/// token programs must own.
pub open spec fn token_owned_rule(a: AccountView) -> Result<(), AccountError> {
    if a.owner@ == SYSTEM_PROGRAM_ID@ && a.lamports == 0 {
        Err(AccountError::AccountNotInitialized)
    } else if !is_token_program(a.owner@) {
        Err(AccountError::AccountOwnedByWrongProgram)
    } else {
        Ok(())
    }
}

/// The executable program `id`.
pub open spec fn program_rule(a: AccountView, id: Seq<u8>) -> Result<(), AccountError> {
    if a.key@ != id {
        Err(AccountError::InvalidProgramId)
    } else if !a.executable {
        Err(AccountError::InvalidProgramExecutable)
    } else {
        Ok(())
    }
}

/// An executable token program, either of the two.
pub open spec fn token_interface_rule(a: AccountView) -> Result<(), AccountError> {
    if !is_token_program(a.key@) {
        Err(AccountError::InvalidProgramId)
    } else if !a.executable {
        Err(AccountError::InvalidProgramExecutable)
    } else {
        Ok(())
    }
}

/// An account declared mutable.
pub open spec fn mut_rule(a: AccountView) -> Result<(), AccountError> {
    if !a.is_writable {
        Err(AccountError::ConstraintMut)
    } else {
        Ok(())
    }
}

/// Checks `signer_rule`.
pub fn check_signer(a: &AccountView) -> (r: Result<(), AccountError>)
    ensures
        r == signer_rule(*a),
{
    if !a.is_signer {
        Err(AccountError::AccountNotSigner)
    } else {
        Ok(())
    }
}

/// Checks `system_account_rule`.
pub fn check_system_account(a: &AccountView) -> (r: Result<(), AccountError>)
    ensures
        r == system_account_rule(*a),
{
    if !same_address(&a.owner, &SYSTEM_PROGRAM_ID) {
        Err(AccountError::AccountNotSystemOwned)
    } else {
        Ok(())
    }
}

/// Checks `owned_account_rule`.
pub fn check_owned_account(a: &AccountView, owner: &Address) -> (r: Result<(), AccountError>)
    ensures
        r == owned_account_rule(*a, owner@),
{
    if same_address(&a.owner, &SYSTEM_PROGRAM_ID) && a.lamports == 0 {
        Err(AccountError::AccountNotInitialized)
    } else if !same_address(&a.owner, owner) {
        Err(AccountError::AccountOwnedByWrongProgram)
    } else {
        Ok(())
    }
}

/// Whether `key` is one of the two token programs.
pub fn is_token_program_key(key: &Address) -> (r: bool)
    ensures
        r == is_token_program(key@),
{
    same_address(key, &TOKEN_PROGRAM_ID) || same_address(key, &TOKEN_2022_PROGRAM_ID)
}

/// Checks `token_owned_rule`.
pub fn check_token_owned(a: &AccountView) -> (r: Result<(), AccountError>)
    ensures
        r == token_owned_rule(*a),
{
    if same_address(&a.owner, &SYSTEM_PROGRAM_ID) && a.lamports == 0 {
        Err(AccountError::AccountNotInitialized)
    } else if !is_token_program_key(&a.owner) {
        Err(AccountError::AccountOwnedByWrongProgram)
    } else {
        Ok(())
    }
}

/// Checks `program_rule`.
pub fn check_program(a: &AccountView, id: &Address) -> (r: Result<(), AccountError>)
    ensures
        r == program_rule(*a, id@),
{
    if !same_address(&a.key, id) {
        Err(AccountError::InvalidProgramId)
    } else if !a.executable {
        Err(AccountError::InvalidProgramExecutable)
    } else {
        Ok(())
    }
}

/// Checks `token_interface_rule`.
pub fn check_token_interface(a: &AccountView) -> (r: Result<(), AccountError>)
    ensures
        r == token_interface_rule(*a),
{
    if !is_token_program_key(&a.key) {
        Err(AccountError::InvalidProgramId)
    } else if !a.executable {
        Err(AccountError::InvalidProgramExecutable)
    } else {
        Ok(())
    }
}

/// Checks `mut_rule`.
pub fn check_mut(a: &AccountView) -> (r: Result<(), AccountError>)
    ensures
        r == mut_rule(*a),
{
    if !a.is_writable {
        Err(AccountError::ConstraintMut)
    } else {
        Ok(())
    }
}

/// An account that has been closed: the system program owns it and it
/// holds no lamports.
pub open spec fn is_closed(a: AccountView) -> bool {
    a.owner@ == SYSTEM_PROGRAM_ID@ && a.lamports == 0
}

/// A closed account is refused wherever an initialized account of a
/// program is required.
pub proof fn lemma_closed_account_not_initialized(a: AccountView, owner: Seq<u8>)
    requires
        is_closed(a),
    ensures
        owned_account_rule(a, owner) == Err::<(), AccountError>(AccountError::AccountNotInitialized),
{
}

/// An account once closed: no lamports, owned by the system program, the
/// rest as it was.
pub open spec fn closed_view(a: AccountView) -> AccountView {
    AccountView { lamports: 0, owner: SYSTEM_PROGRAM_ID, ..a }
}

/// An account credited with `amount` lamports, the rest as it was.
pub open spec fn credited(a: AccountView, amount: u64) -> AccountView {
    AccountView { lamports: (a.lamports + amount) as u64, ..a }
}

/// Closes a program account into `destination` (the `close` constraint):
/// all its lamports go to `destination` and the system program owns it
/// again. The lamports of the two accounts together are unchanged.
pub fn close_account_into(closed: &mut AccountView, destination: &mut AccountView)
    requires
        old(closed).lamports + old(destination).lamports <= u64::MAX,
    ensures
        *final(closed) == closed_view(*old(closed)),
        *final(destination) == credited(*old(destination), old(closed).lamports),
        final(closed).lamports == 0,
        is_closed(*final(closed)),
        final(destination).lamports == old(destination).lamports + old(closed).lamports,
        final(closed).lamports + final(destination).lamports == old(closed).lamports + old(destination).lamports,
        final(closed).owner@ == SYSTEM_PROGRAM_ID@,
        final(closed).key == old(closed).key,
        final(closed).is_signer == old(closed).is_signer,
        final(closed).is_writable == old(closed).is_writable,
        final(closed).executable == old(closed).executable,
        final(destination).key == old(destination).key,
        final(destination).owner == old(destination).owner,
        final(destination).is_signer == old(destination).is_signer,
        final(destination).is_writable == old(destination).is_writable,
        final(destination).executable == old(destination).executable,
{
    destination.lamports = destination.lamports + closed.lamports;
    closed.lamports = 0;
    closed.owner = SYSTEM_PROGRAM_ID;
}

} // verus!
