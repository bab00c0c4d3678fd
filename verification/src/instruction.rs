//! Instructions for cross-program invocations, as plain values, and the
//! builders of the outside crates that produce them.

use crate::address::{
    Address, ASSOCIATED_TOKEN_PROGRAM_ID, SYSTEM_PROGRAM_ID, TOKEN_2022_PROGRAM_ID, TOKEN_PROGRAM_ID,
};
use crate::pda::{ata_seeds, has_viable_bump, is_canonical_address};
use anchor_lang::solana_program::program_error::ProgramError;
use anchor_lang::solana_program::pubkey::Pubkey;
use vstd::bytes::spec_u64_to_le_bytes;
use vstd::prelude::*;

verus! {

/// The error that the token instruction builders report.
#[verifier::external_type_specification]
#[verifier::external_body]
pub struct ExProgramError(ProgramError);

/// One account of an instruction, with the permissions it is passed with.
pub struct AccountMeta {
    pub key: Address,
    pub is_signer: bool,
    pub is_writable: bool,
}

/// An instruction for another program: its id, its accounts and its data.
pub struct Instruction {
    pub program_id: Address,
    pub accounts: Vec<AccountMeta>,
    pub data: Vec<u8>,
}

/// The mathematical value of an instruction.
pub ghost struct InstructionModel {
    pub program_id: Seq<u8>,
    pub accounts: Seq<(Seq<u8>, bool, bool)>,
    pub data: Seq<u8>,
}

impl View for AccountMeta {
    type V = (Seq<u8>, bool, bool);

    open spec fn view(&self) -> (Seq<u8>, bool, bool) {
        (self.key@, self.is_signer, self.is_writable)
    }
}

impl View for Instruction {
    type V = InstructionModel;

    open spec fn view(&self) -> InstructionModel {
        InstructionModel {
            program_id: self.program_id@,
            accounts: self.accounts@.map_values(|m: AccountMeta| m@),
            data: self.data@,
        }
    }
}

/// The system program's transfer of `lamports` from `from` (which signs)
/// to `to`: the variant index 2 as a little-endian `u32`, then the amount.
pub open spec fn system_transfer_ix(from: Seq<u8>, to: Seq<u8>, lamports: u64) -> InstructionModel {
    InstructionModel {
        program_id: SYSTEM_PROGRAM_ID@,
        accounts: seq![(from, true, true), (to, false, true)],
        data: seq![2u8, 0u8, 0u8, 0u8] + spec_u64_to_le_bytes(lamports),
    }
}

/// The system program's creation of `to` (which signs), funded with
/// `lamports` by `from` (which signs), with `space` bytes, owned by `owner`:
/// the variant index 0 as a little-endian `u32`, the lamports, the space and
/// the owner.
pub open spec fn system_create_account_ix(from: Seq<u8>, to: Seq<u8>, lamports: u64, space: u64, owner: Seq<u8>) -> InstructionModel {
    InstructionModel {
        program_id: SYSTEM_PROGRAM_ID@,
        accounts: seq![(from, true, true), (to, true, true)],
        data: seq![0u8, 0u8, 0u8, 0u8] + spec_u64_to_le_bytes(lamports) + spec_u64_to_le_bytes(space) + owner,
    }
}

/// The system program's allocation of `space` bytes to `account` (which
/// signs): the variant index 8, then the space.
pub open spec fn system_allocate_ix(account: Seq<u8>, space: u64) -> InstructionModel {
    InstructionModel {
        program_id: SYSTEM_PROGRAM_ID@,
        accounts: seq![(account, true, true)],
        data: seq![8u8, 0u8, 0u8, 0u8] + spec_u64_to_le_bytes(space),
    }
}

/// The system program's assignment of `account` (which signs) to `owner`:
/// the variant index 1, then the owner.
pub open spec fn system_assign_ix(account: Seq<u8>, owner: Seq<u8>) -> InstructionModel {
    InstructionModel {
        program_id: SYSTEM_PROGRAM_ID@,
        accounts: seq![(account, true, true)],
        data: seq![1u8, 0u8, 0u8, 0u8] + owner,
    }
}

/// A token program's `TransferChecked` of `amount` (with `decimals`) from
/// `source` to `destination`, authorized by the signature of `authority`.
pub open spec fn transfer_checked_ix(
    program: Seq<u8>,
    source: Seq<u8>,
    mint: Seq<u8>,
    destination: Seq<u8>,
    authority: Seq<u8>,
    amount: u64,
    decimals: u8,
) -> InstructionModel {
    InstructionModel {
        program_id: program,
        accounts: seq![
            (source, false, true),
            (mint, false, false),
            (destination, false, true),
            (authority, true, false),
        ],
        data: seq![12u8] + spec_u64_to_le_bytes(amount) + seq![decimals],
    }
}

/// A token program's `CloseAccount` of `account`, its lamports going to
/// `destination`, authorized by the signature of `owner`.
pub open spec fn close_account_ix(program: Seq<u8>, account: Seq<u8>, destination: Seq<u8>, owner: Seq<u8>) -> InstructionModel {
    InstructionModel {
        program_id: program,
        accounts: seq![(account, false, true), (destination, false, true), (owner, true, false)],
        data: seq![9u8],
    }
}

/// The associated token program's `Create` of the account `ata` of `wallet`
/// for `mint`, paid by `funding`.
pub open spec fn create_ata_ix(
    funding: Seq<u8>,
    ata: Seq<u8>,
    wallet: Seq<u8>,
    mint: Seq<u8>,
    token_program: Seq<u8>,
) -> InstructionModel {
    InstructionModel {
        program_id: ASSOCIATED_TOKEN_PROGRAM_ID@,
        accounts: seq![
            (funding, true, true),
            (ata, false, true),
            (wallet, false, false),
            (mint, false, false),
            (SYSTEM_PROGRAM_ID@, false, false),
            (token_program, false, false),
        ],
        data: seq![0u8],
    }
}

/// One of the two token programs that `transfer_checked` accepts.
pub open spec fn is_token_program(program: Seq<u8>) -> bool {
    program == TOKEN_PROGRAM_ID@ || program == TOKEN_2022_PROGRAM_ID@
}

/// Calls `system_instruction::transfer`, which builds the system program's
/// `Transfer` (encoded with bincode) with the source as a writable signer
/// and the destination writable.
#[verifier::external_body]
pub(crate) fn system_transfer(from: &Address, to: &Address, lamports: u64) -> (ix: Instruction)
    ensures
        ix@ == system_transfer_ix(from@, to@, lamports),
{
    let ix = anchor_lang::solana_program::system_instruction::transfer(
        &Pubkey::new_from_array(*from), &Pubkey::new_from_array(*to), lamports);
    Instruction {
        program_id: ix.program_id.to_bytes(),
        accounts: ix.accounts.iter().map(|m| AccountMeta { key: m.pubkey.to_bytes(), is_signer: m.is_signer, is_writable: m.is_writable }).collect(),
        data: ix.data,
    }
}

/// Calls `system_instruction::create_account`, which builds the system
/// program's `CreateAccount` (encoded with bincode) with both accounts as
/// writable signers.
#[verifier::external_body]
pub(crate) fn system_create_account(from: &Address, to: &Address, lamports: u64, space: u64, owner: &Address) -> (ix: Instruction)
    ensures
        ix@ == system_create_account_ix(from@, to@, lamports, space, owner@),
{
    let k = |a: &Address| Pubkey::new_from_array(*a);
    let ix = anchor_lang::solana_program::system_instruction::create_account(&k(from), &k(to), lamports, space, &k(owner));
    Instruction {
        program_id: ix.program_id.to_bytes(),
        accounts: ix.accounts.iter().map(|m| AccountMeta { key: m.pubkey.to_bytes(), is_signer: m.is_signer, is_writable: m.is_writable }).collect(),
        data: ix.data,
    }
}

/// Calls `system_instruction::allocate`, which builds the system program's
/// `Allocate` (encoded with bincode) with the account as a writable signer.
#[verifier::external_body]
pub(crate) fn system_allocate(account: &Address, space: u64) -> (ix: Instruction)
    ensures
        ix@ == system_allocate_ix(account@, space),
{
    let ix = anchor_lang::solana_program::system_instruction::allocate(&Pubkey::new_from_array(*account), space);
    Instruction {
        program_id: ix.program_id.to_bytes(),
        accounts: ix.accounts.iter().map(|m| AccountMeta { key: m.pubkey.to_bytes(), is_signer: m.is_signer, is_writable: m.is_writable }).collect(),
        data: ix.data,
    }
}

/// Calls `system_instruction::assign`, which builds the system program's
/// `Assign` (encoded with bincode) with the account as a writable signer.
#[verifier::external_body]
pub(crate) fn system_assign(account: &Address, owner: &Address) -> (ix: Instruction)
    ensures
        ix@ == system_assign_ix(account@, owner@),
{
    let ix = anchor_lang::solana_program::system_instruction::assign(
        &Pubkey::new_from_array(*account), &Pubkey::new_from_array(*owner));
    Instruction {
        program_id: ix.program_id.to_bytes(),
        accounts: ix.accounts.iter().map(|m| AccountMeta { key: m.pubkey.to_bytes(), is_signer: m.is_signer, is_writable: m.is_writable }).collect(),
        data: ix.data,
    }
}

/// Calls `spl_token_2022::instruction::transfer_checked` with no multisig
/// signers. Its source refuses a program id that is neither token program,
/// and otherwise packs tag 12, the amount and the decimals.
#[verifier::external_body]
pub(crate) fn token_transfer_checked(
    program: &Address,
    source: &Address,
    mint: &Address,
    destination: &Address,
    authority: &Address,
    amount: u64,
    decimals: u8,
) -> (r: Result<Instruction, ProgramError>)
    ensures
        r is Ok <==> is_token_program(program@),
        r matches Ok(ix) ==> ix@ == transfer_checked_ix(program@, source@, mint@, destination@, authority@, amount, decimals),
{
    let k = |a: &Address| Pubkey::new_from_array(*a);
    anchor_spl::token_2022::spl_token_2022::instruction::transfer_checked(
        &k(program), &k(source), &k(mint), &k(destination), &k(authority), &[], amount, decimals,
    ).map(|ix| Instruction {
        program_id: ix.program_id.to_bytes(),
        accounts: ix.accounts.iter().map(|m| AccountMeta { key: m.pubkey.to_bytes(), is_signer: m.is_signer, is_writable: m.is_writable }).collect(),
        data: ix.data,
    })
}

/// Calls `spl_token::instruction::close_account` with no multisig signers.
/// Its source refuses any program id but the SPL token program's, and
/// otherwise packs tag 9.
#[verifier::external_body]
pub(crate) fn token_close_account(program: &Address, account: &Address, destination: &Address, owner: &Address) -> (r: Result<Instruction, ProgramError>)
    ensures
        r is Ok <==> program@ == TOKEN_PROGRAM_ID@,
        r matches Ok(ix) ==> ix@ == close_account_ix(program@, account@, destination@, owner@),
{
    let k = |a: &Address| Pubkey::new_from_array(*a);
    anchor_spl::token::spl_token::instruction::close_account(&k(program), &k(account), &k(destination), &k(owner), &[])
        .map(|ix| Instruction {
            program_id: ix.program_id.to_bytes(),
            accounts: ix.accounts.iter().map(|m| AccountMeta { key: m.pubkey.to_bytes(), is_signer: m.is_signer, is_writable: m.is_writable }).collect(),
            data: ix.data,
        })
}

/// Calls `create_associated_token_account`, which derives the associated
/// address with `get_associated_token_address_with_program_id` (panicking
/// where no bump is viable, which the `requires` leaves out) and builds the
/// borsh-encoded `Create` (variant 0).
#[verifier::external_body]
pub(crate) fn create_associated_token_account(funding: &Address, wallet: &Address, mint: &Address, token_program: &Address) -> (ix: Instruction)
    requires
        has_viable_bump(ata_seeds(wallet@, token_program@, mint@), ASSOCIATED_TOKEN_PROGRAM_ID@),
    ensures
        ix@.accounts.len() == 6,
        is_canonical_address(ata_seeds(wallet@, token_program@, mint@), ASSOCIATED_TOKEN_PROGRAM_ID@, ix@.accounts[1].0),
        ix@ == create_ata_ix(funding@, ix@.accounts[1].0, wallet@, mint@, token_program@),
{
    let k = |a: &Address| Pubkey::new_from_array(*a);
    let ix = anchor_spl::associated_token::spl_associated_token_account::instruction::create_associated_token_account(
        &k(funding), &k(wallet), &k(mint), &k(token_program));
    Instruction {
        program_id: ix.program_id.to_bytes(),
        accounts: ix.accounts.iter().map(|m| AccountMeta { key: m.pubkey.to_bytes(), is_signer: m.is_signer, is_writable: m.is_writable }).collect(),
        data: ix.data,
    }
}

} // verus!
