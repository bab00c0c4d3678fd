//! What the vault's instructions ask for and accept, stated over their
//! inputs: who pays, how many lamports move, and which accounts are
//! accepted whatever their balances.

use crate::account::AccountView;
use crate::address::SYSTEM_PROGRAM_ID;
use crate::error::AccountError;
use crate::pda::{bumped, canonical_address, program_address};
use crate::vault::{
    close_accounts_rules, close_invocation, create_state_invocations, deposit_invocation, state_pda,
    found_bump, initialize_rules, transfer_accounts_rules, vault_pda, vault_seeds, InitializeBumps, withdraw_invocation, Close, Deposit, Initialize,
    VaultState, WithDraw,
};
use crate::account::ProgramAccount;
use vstd::bytes::{lemma_auto_spec_u64_to_from_le_bytes, spec_u64_from_le_bytes};
use vstd::prelude::*;

verus! {

/// The number read back from eight little-endian bytes of `data` at `at`.
pub open spec fn u64_at(data: Seq<u8>, at: int) -> u64 {
    spec_u64_from_le_bytes(data.subrange(at, at + 8))
}

/// Law: `deposit` asks the system program for a transfer (tag 2) of
/// exactly `amount` lamports, from the payer, who signs, to the vault.
pub proof fn lemma_deposit_moves_amount_into_vault(d: Deposit, amount: u64)
    ensures
        ({
            let ix = deposit_invocation(d, amount).instruction;
            &&& ix.program_id == SYSTEM_PROGRAM_ID@
            &&& ix.accounts.len() == 2
            &&& ix.accounts[0] == (d.payer.key@, true, true)
            &&& ix.accounts[1] == (d.vault.key@, false, true)
            &&& ix.data.len() == 12
            &&& ix.data.subrange(0, 4) == seq![2u8, 0u8, 0u8, 0u8]
            &&& u64_at(ix.data, 4) == amount
        }),
        deposit_invocation(d, amount).signer_seeds is None,
{
    lemma_auto_spec_u64_to_from_le_bytes();
    let ix = deposit_invocation(d, amount).instruction;
    assert(ix.data.subrange(0, 4) =~= seq![2u8, 0u8, 0u8, 0u8]);
    assert(ix.data.subrange(4, 12) =~= vstd::bytes::spec_u64_to_le_bytes(amount));
}

/// Law: `withdraw` asks the system program for a transfer (tag 2) of
/// exactly `amount` lamports from the vault to the payer.
pub proof fn lemma_withdraw_moves_amount_out_of_vault(w: WithDraw, amount: u64)
    ensures
        ({
            let ix = withdraw_invocation(w, amount).instruction;
            &&& ix.program_id == SYSTEM_PROGRAM_ID@
            &&& ix.accounts.len() == 2
            &&& ix.accounts[0] == (w.vault.key@, true, true)
            &&& ix.accounts[1] == (w.payer.key@, false, true)
            &&& ix.data.len() == 12
            &&& ix.data.subrange(0, 4) == seq![2u8, 0u8, 0u8, 0u8]
            &&& u64_at(ix.data, 4) == amount
        }),
{
    lemma_auto_spec_u64_to_from_le_bytes();
    let ix = withdraw_invocation(w, amount).instruction;
    assert(ix.data.subrange(0, 4) =~= seq![2u8, 0u8, 0u8, 0u8]);
    assert(ix.data.subrange(4, 12) =~= vstd::bytes::spec_u64_to_le_bytes(amount));
}

/// Law: `close` asks the system program for a transfer (tag 2) of every
/// lamport the vault holds, whatever that number, from the vault to the
/// signer.
pub proof fn lemma_close_moves_all_vault_lamports(c: Close)
    ensures
        ({
            let ix = close_invocation(c).instruction;
            &&& ix.program_id == SYSTEM_PROGRAM_ID@
            &&& ix.accounts.len() == 2
            &&& ix.accounts[0] == (c.vault.key@, true, true)
            &&& ix.accounts[1] == (c.signer.key@, false, true)
            &&& ix.data.len() == 12
            &&& ix.data.subrange(0, 4) == seq![2u8, 0u8, 0u8, 0u8]
            &&& u64_at(ix.data, 4) == c.vault.lamports
        }),
{
    lemma_auto_spec_u64_to_from_le_bytes();
    let ix = close_invocation(c).instruction;
    assert(ix.data.subrange(0, 4) =~= seq![2u8, 0u8, 0u8, 0u8]);
    assert(ix.data.subrange(4, 12) =~= vstd::bytes::spec_u64_to_le_bytes(c.vault.lamports));
}

/// Law: creating an empty state account is one invocation of the system
/// program's `CreateAccount` (tag 0) funded by the signer, who signs, giving
/// the state account exactly `rent_minimum` lamports and `space` bytes and
/// the program as owner; when the bump is the state's, the seeds the
/// program signs with derive the state account.
pub proof fn lemma_empty_state_created_at_signers_cost(i: Initialize, bump: u8, program_id: Seq<u8>, rent_minimum: u64, space: u64)
    requires
        i.vault_state.info.lamports == 0,
        program_id.len() == 32,
    ensures
        ({
            let invs = create_state_invocations(i, bump, program_id, rent_minimum, space);
            let ix = invs[0].instruction;
            &&& invs.len() == 1
            &&& ix.program_id == SYSTEM_PROGRAM_ID@
            &&& ix.accounts.len() == 2
            &&& ix.accounts[0] == (i.signer.key@, true, true)
            &&& ix.accounts[1] == (i.vault_state.info.key@, true, true)
            &&& ix.data.len() == 52
            &&& ix.data.subrange(0, 4) == seq![0u8, 0u8, 0u8, 0u8]
            &&& u64_at(ix.data, 4) == rent_minimum
            &&& u64_at(ix.data, 12) == space
            &&& ix.data.subrange(20, 52) == program_id
            &&& invs[0].signer_seeds is Some
            &&& (program_address(bumped(vault_seeds(i.signer.key@), bump), program_id) == Some(i.vault_state.info.key@)
                ==> program_address(invs[0].signer_seeds->0, program_id) == Some(i.vault_state.info.key@))
        }),
{
    lemma_auto_spec_u64_to_from_le_bytes();
    let ix = create_state_invocations(i, bump, program_id, rent_minimum, space)[0].instruction;
    assert(ix.data.subrange(0, 4) =~= seq![0u8, 0u8, 0u8, 0u8]);
    assert(ix.data.subrange(4, 12) =~= vstd::bytes::spec_u64_to_le_bytes(rent_minimum));
    assert(ix.data.subrange(12, 20) =~= vstd::bytes::spec_u64_to_le_bytes(space));
    assert(ix.data.subrange(20, 52) =~= program_id);
}

/// Law: a state account that already holds lamports but fewer than
/// `rent_minimum` is first topped up by a transfer from the signer, after
/// which it holds exactly `rent_minimum`; one that holds at least that much
/// is not paid anything. Either way it is then allocated and assigned.
pub proof fn lemma_prefunded_state_topped_up_by_signer(i: Initialize, bump: u8, program_id: Seq<u8>, rent_minimum: u64, space: u64)
    requires
        i.vault_state.info.lamports > 0,
    ensures
        ({
            let invs = create_state_invocations(i, bump, program_id, rent_minimum, space);
            let have = i.vault_state.info.lamports;
            &&& have < rent_minimum ==> {
                &&& invs.len() == 3
                &&& invs[0].instruction.program_id == SYSTEM_PROGRAM_ID@
                &&& invs[0].instruction.accounts[0] == (i.signer.key@, true, true)
                &&& invs[0].instruction.accounts[1] == (i.vault_state.info.key@, false, true)
                &&& invs[0].instruction.data.subrange(0, 4) == seq![2u8, 0u8, 0u8, 0u8]
                &&& have + u64_at(invs[0].instruction.data, 4) == rent_minimum
            }
            &&& have >= rent_minimum ==> invs.len() == 2
            &&& invs[invs.len() - 2].instruction.data.subrange(0, 4) == seq![8u8, 0u8, 0u8, 0u8]
            &&& invs[invs.len() - 1].instruction.data.subrange(0, 4) == seq![1u8, 0u8, 0u8, 0u8]
            &&& invs[invs.len() - 2].instruction.accounts[0] == (i.vault_state.info.key@, true, true)
            &&& invs[invs.len() - 1].instruction.accounts[0] == (i.vault_state.info.key@, true, true)
        }),
{
    lemma_auto_spec_u64_to_from_le_bytes();
    let invs = create_state_invocations(i, bump, program_id, rent_minimum, space);
    let have = i.vault_state.info.lamports;
    if have < rent_minimum {
        let ix = invs[0].instruction;
        assert(ix.data.subrange(0, 4) =~= seq![2u8, 0u8, 0u8, 0u8]);
        assert(ix.data.subrange(4, 12) =~= vstd::bytes::spec_u64_to_le_bytes((rent_minimum - have) as u64));
    }
    assert(invs[invs.len() - 2].instruction.data.subrange(0, 4) =~= seq![8u8, 0u8, 0u8, 0u8]);
    assert(invs[invs.len() - 1].instruction.data.subrange(0, 4) =~= seq![1u8, 0u8, 0u8, 0u8]);
}

/// Law: `deposit` and `withdraw` accept every set of accounts that meets
/// the declared constraints (the payer signs and is writable; the state is
/// the program's, writable, at `[b"state", payer]` with its bump; the
/// vault is the system program's, writable, at `[b"vault", state]` with
/// its bump; the system program is passed), whatever the lamports of the
/// payer and of the vault; and the balances of the payer and of the vault
/// never change the answer.
pub proof fn lemma_transfer_accounts_accepted_whatever_balances(
    payer: AccountView,
    vault_state: ProgramAccount<VaultState>,
    vault: AccountView,
    system_program: AccountView,
    program_id: Seq<u8>,
    payer_lamports: u64,
    vault_lamports: u64,
)
    ensures
        ({
            let sp = state_pda(payer.key@, vault_state.data.state_bump, program_id);
            let vp = vault_pda(vault_state.info.key@, vault_state.data.vault_bump, program_id);
            let p2 = AccountView { lamports: payer_lamports, ..payer };
            let v2 = AccountView { lamports: vault_lamports, ..vault };
            &&& transfer_accounts_rules(payer, vault_state, vault, system_program, program_id, sp, vp)
                == transfer_accounts_rules(p2, vault_state, v2, system_program, program_id, sp, vp)
            &&& (payer.is_signer && payer.is_writable && vault_state.info.owner@ == program_id
                && program_id != SYSTEM_PROGRAM_ID@ && vault_state.info.is_writable
                && sp == Some(vault_state.info.key@) && vault.owner@ == SYSTEM_PROGRAM_ID@ && vault.is_writable
                && vp == Some(vault.key@) && system_program.key@ == SYSTEM_PROGRAM_ID@ && system_program.executable)
                ==> transfer_accounts_rules(payer, vault_state, vault, system_program, program_id, sp, vp) is Ok
        }),
{
}

/// Law: `close` accepts every set of accounts that meets the declared
/// constraints (as for `withdraw`, and the state is not the signer),
/// whatever the lamports of the signer and of the vault, an empty vault
/// included; and those balances never change the answer.
pub proof fn lemma_close_accounts_accepted_whatever_balances(
    signer: AccountView,
    vault_state: ProgramAccount<VaultState>,
    vault: AccountView,
    system_program: AccountView,
    program_id: Seq<u8>,
    signer_lamports: u64,
    vault_lamports: u64,
)
    ensures
        ({
            let sp = state_pda(signer.key@, vault_state.data.state_bump, program_id);
            let vp = vault_pda(vault_state.info.key@, vault_state.data.vault_bump, program_id);
            let s2 = AccountView { lamports: signer_lamports, ..signer };
            let v2 = AccountView { lamports: vault_lamports, ..vault };
            &&& close_accounts_rules(signer, vault_state, vault, system_program, program_id, sp, vp)
                == close_accounts_rules(s2, vault_state, v2, system_program, program_id, sp, vp)
            &&& (signer.is_signer && signer.is_writable && vault_state.info.owner@ == program_id
                && program_id != SYSTEM_PROGRAM_ID@ && vault_state.info.is_writable
                && vault_state.info.key@ != signer.key@
                && sp == Some(vault_state.info.key@) && vault.owner@ == SYSTEM_PROGRAM_ID@ && vault.is_writable
                && vp == Some(vault.key@) && system_program.key@ == SYSTEM_PROGRAM_ID@ && system_program.executable)
                ==> close_accounts_rules(signer, vault_state, vault, system_program, program_id, sp, vp) is Ok
        }),
{
}

/// Law: `initialize` accepts every set of accounts that meets the declared
/// constraints (the signer signs and is writable; the state is writable at
/// the canonical address of `[b"vault", signer]`; the vault is the system
/// program's at the canonical address of `[b"vault", state]`; the system
/// program is passed, and the signer is not the state account), returning
/// the two canonical bumps, whatever the lamports of the signer and of the
/// vault; and those balances never change the answer.
pub proof fn lemma_initialize_accepted_whatever_balances(
    i: Initialize,
    program_id: Seq<u8>,
    signer_lamports: u64,
    vault_lamports: u64,
)
    ensures
        ({
            let sf = canonical_address(vault_seeds(i.signer.key@), program_id);
            let vf = canonical_address(vault_seeds(i.vault_state.info.key@), program_id);
            let s2 = AccountView { lamports: signer_lamports, ..i.signer };
            let v2 = AccountView { lamports: vault_lamports, ..i.vault };
            &&& initialize_rules(i.signer, i.vault_state, i.vault, i.system_program, sf, vf)
                == initialize_rules(s2, i.vault_state, v2, i.system_program, sf, vf)
            &&& (i.signer.is_signer && i.signer.is_writable && i.vault_state.info.is_writable
                && i.signer.key@ != i.vault_state.info.key@ && i.vault.owner@ == SYSTEM_PROGRAM_ID@
                && i.system_program.key@ == SYSTEM_PROGRAM_ID@ && i.system_program.executable
                && sf == Some((i.vault_state.info.key@, found_bump(sf)))
                && vf == Some((i.vault.key@, found_bump(vf))))
                ==> initialize_rules(i.signer, i.vault_state, i.vault, i.system_program, sf, vf)
                    == Ok::<InitializeBumps, AccountError>(
                    InitializeBumps { vault_state: found_bump(sf), vault: found_bump(vf) },
                )
        }),
{
}

} // verus!
