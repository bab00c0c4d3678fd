use anchor_lang::prelude::Pubkey;
use escrow_vault::account::{AccountView, Context, ProgramAccount};
use escrow_vault::address::SYSTEM_PROGRAM_ID;
use escrow_vault::error::AccountError;
use escrow_vault::vault::{
    initialize, process_close, process_deposit, process_initialize, process_withdraw, Close, Deposit, Initialize, InitializeBumps, VaultState, WithDraw,
};

fn key(n: u8) -> [u8; 32] {
    let mut k = [0u8; 32];
    for (i, b) in k.iter_mut().enumerate() {
        *b = n.wrapping_mul(37).wrapping_add(i as u8).wrapping_add(1);
    }
    k
}

fn view(key: [u8; 32], owner: [u8; 32], lamports: u64, signer: bool, writable: bool) -> AccountView {
    AccountView { key, owner, lamports, is_signer: signer, is_writable: writable, executable: false }
}

fn pda(seeds: &[&[u8]], program: &[u8; 32]) -> ([u8; 32], u8) {
    let (k, b) = Pubkey::find_program_address(seeds, &Pubkey::new_from_array(*program));
    (k.to_bytes(), b)
}

struct Setup {
    program: [u8; 32],
    payer: AccountView,
    state: ProgramAccount<VaultState>,
    vault: AccountView,
    system: AccountView,
}

/// Accounts that the rules of deposit, withdraw and close accept.
fn setup() -> Setup {
    let program = key(10);
    let user = key(11);
    let (state_key, state_bump) = pda(&[b"state", &user], &program);
    let (vault_key, vault_bump) = pda(&[b"vault", &state_key], &program);
    Setup {
        program,
        payer: view(user, SYSTEM_PROGRAM_ID, 5_000_000_000, true, true),
        state: ProgramAccount {
            info: view(state_key, program, 1_000_000, false, true),
            data: VaultState { state_bump, vault_bump },
        },
        vault: view(vault_key, SYSTEM_PROGRAM_ID, 2_000_000, false, true),
        system: AccountView { executable: true, ..view(SYSTEM_PROGRAM_ID, SYSTEM_PROGRAM_ID, 1, false, false) },
    }
}

fn deposit_accounts(s: &Setup) -> Deposit {
    Deposit { payer: s.payer, vault_state: ProgramAccount { info: s.state.info, data: s.state.data }, vault: s.vault, system_program: s.system }
}

fn withdraw_accounts(s: &Setup) -> WithDraw {
    WithDraw { payer: s.payer, vault_state: ProgramAccount { info: s.state.info, data: s.state.data }, vault: s.vault, system_program: s.system }
}

fn close_accounts(s: &Setup) -> Close {
    Close { signer: s.payer, vault_state: ProgramAccount { info: s.state.info, data: s.state.data }, vault: s.vault, system_program: s.system }
}

fn transfer_data(amount: u64) -> Vec<u8> {
    let mut d = vec![2, 0, 0, 0];
    d.extend_from_slice(&amount.to_le_bytes());
    d
}

#[test]
fn deposit_accepts_derived_accounts_and_moves_lamports_into_the_vault() {
    let s = setup();
    let d = deposit_accounts(&s);
    assert_eq!(d.validate(&s.program), Ok(()));
    let inv = d.deposit(1_500);
    assert_eq!(inv.instruction.program_id, SYSTEM_PROGRAM_ID);
    assert_eq!(inv.instruction.accounts.len(), 2);
    assert_eq!(inv.instruction.accounts[0].key, s.payer.key);
    assert!(inv.instruction.accounts[0].is_signer && inv.instruction.accounts[0].is_writable);
    assert_eq!(inv.instruction.accounts[1].key, s.vault.key);
    assert!(!inv.instruction.accounts[1].is_signer && inv.instruction.accounts[1].is_writable);
    assert_eq!(inv.instruction.data, transfer_data(1_500));
    assert!(inv.signer_seeds.is_none());
}

#[test]
fn system_transfer_data_is_what_solana_encodes() {
    let s = setup();
    let inv = deposit_accounts(&s).deposit(u64::MAX - 7);
    let ix = anchor_lang::solana_program::system_instruction::transfer(
        &Pubkey::new_from_array(s.payer.key),
        &Pubkey::new_from_array(s.vault.key),
        u64::MAX - 7,
    );
    assert_eq!(inv.instruction.data, ix.data);
    assert_eq!(inv.instruction.data, transfer_data(u64::MAX - 7));
}

#[test]
fn deposit_refuses_each_broken_rule() {
    let s = setup();
    let mut d = deposit_accounts(&s);
    d.payer.is_signer = false;
    d.payer.is_writable = false;
    assert_eq!(d.validate(&s.program), Err(AccountError::AccountNotSigner));
    let mut d = deposit_accounts(&s);
    d.payer.is_writable = false;
    assert_eq!(d.validate(&s.program), Err(AccountError::ConstraintMut));
    let mut d = deposit_accounts(&s);
    d.vault_state.data.state_bump = d.vault_state.data.state_bump.wrapping_sub(1);
    assert_eq!(d.validate(&s.program), Err(AccountError::ConstraintSeeds));
    let mut d = deposit_accounts(&s);
    d.vault_state.info.is_writable = false;
    assert_eq!(d.validate(&s.program), Err(AccountError::ConstraintMut));
    let mut d = deposit_accounts(&s);
    d.vault.key = key(99);
    assert_eq!(d.validate(&s.program), Err(AccountError::ConstraintSeeds));
    let mut d = deposit_accounts(&s);
    d.vault.is_writable = false;
    assert_eq!(d.validate(&s.program), Err(AccountError::ConstraintMut));
    // Under another program the state account has the wrong owner, and even
    // when it is owned by that program the seeds derive other addresses.
    assert_eq!(deposit_accounts(&s).validate(&key(12)), Err(AccountError::AccountOwnedByWrongProgram));
    let mut d = deposit_accounts(&s);
    d.vault_state.info.owner = key(12);
    assert_eq!(d.validate(&key(12)), Err(AccountError::ConstraintSeeds));
}

#[test]
fn check_takes_the_derived_addresses_as_given() {
    let s = setup();
    let d = deposit_accounts(&s);
    assert_eq!(d.check(&s.program, Some(s.state.info.key), Some(s.vault.key)), Ok(()));
    assert_eq!(d.check(&s.program, None, Some(s.vault.key)), Err(AccountError::ConstraintSeeds));
    assert_eq!(d.check(&s.program, Some(s.state.info.key), None), Err(AccountError::ConstraintSeeds));
    assert_eq!(d.check(&s.program, Some(s.vault.key), Some(s.vault.key)), Err(AccountError::ConstraintSeeds));
}

#[test]
fn withdraw_mirrors_deposit_and_signs_for_the_vault() {
    let s = setup();
    let w = withdraw_accounts(&s);
    assert_eq!(w.validate(&s.program), Ok(()));
    let inv = w.withdraw(1_500);
    let dep = deposit_accounts(&s).deposit(1_500);
    assert_eq!(inv.instruction.accounts[0].key, dep.instruction.accounts[1].key);
    assert_eq!(inv.instruction.accounts[1].key, dep.instruction.accounts[0].key);
    assert_eq!(inv.instruction.data, dep.instruction.data);
    let seeds = inv.signer_seeds.expect("the vault signs");
    assert_eq!(seeds, vec![b"vault".to_vec(), s.state.info.key.to_vec(), vec![s.state.data.vault_bump]]);
    let slices: Vec<&[u8]> = seeds.iter().map(|v| v.as_slice()).collect();
    let signer = Pubkey::create_program_address(&slices, &Pubkey::new_from_array(s.program)).unwrap();
    assert_eq!(signer.to_bytes(), s.vault.key);
}

#[test]
fn close_moves_every_lamport_of_the_vault_to_the_signer() {
    let s = setup();
    let c = close_accounts(&s);
    assert_eq!(c.validate(&s.program), Ok(()));
    let inv = c.close();
    assert_eq!(inv.instruction.accounts[0].key, s.vault.key);
    assert_eq!(inv.instruction.accounts[1].key, s.payer.key);
    assert_eq!(inv.instruction.data, transfer_data(2_000_000));
    let seeds = inv.signer_seeds.expect("the vault signs");
    let slices: Vec<&[u8]> = seeds.iter().map(|v| v.as_slice()).collect();
    let signer = Pubkey::create_program_address(&slices, &Pubkey::new_from_array(s.program)).unwrap();
    assert_eq!(signer.to_bytes(), s.vault.key);
}

#[test]
fn close_refuses_to_close_the_state_into_itself() {
    let s = setup();
    let mut c = close_accounts(&s);
    c.signer.key = c.vault_state.info.key;
    assert_eq!(
        c.check(&s.program, Some(c.vault_state.info.key), Some(c.vault.key)),
        Err(AccountError::ConstraintClose)
    );
    let mut c = close_accounts(&s);
    c.signer.is_signer = false;
    assert_eq!(c.validate(&s.program), Err(AccountError::AccountNotSigner));
}

fn initialize_accounts(program: [u8; 32], user: [u8; 32]) -> Initialize {
    let (state_key, _) = pda(&[b"vault", &user], &program);
    let (vault_key, _) = pda(&[b"vault", &state_key], &program);
    Initialize {
        signer: view(user, SYSTEM_PROGRAM_ID, 10_000_000, true, true),
        vault_state: ProgramAccount {
            info: view(state_key, program, 0, false, true),
            data: VaultState { state_bump: 0, vault_bump: 0 },
        },
        vault: view(vault_key, SYSTEM_PROGRAM_ID, 0, false, false),
        system_program: AccountView { executable: true, ..view(SYSTEM_PROGRAM_ID, SYSTEM_PROGRAM_ID, 1, false, false) },
    }
}

#[test]
fn initialize_finds_and_records_the_canonical_bumps() {
    let program = key(20);
    let user = key(21);
    let accounts = initialize_accounts(program, user);
    let (_, state_bump) = pda(&[b"vault", &user], &program);
    let (_, vault_bump) = pda(&[b"vault", &accounts.vault_state.info.key], &program);
    let bumps = accounts.validate(&program).unwrap();
    assert_eq!(bumps, InitializeBumps { vault_state: state_bump, vault: vault_bump });
    let mut ctx = Context { program_id: program, accounts, bumps };
    assert_eq!(initialize(&mut ctx), Ok(()));
    assert_eq!(ctx.accounts.vault_state.data, VaultState { state_bump, vault_bump });
}

#[test]
fn initialize_refuses_each_broken_rule() {
    let program = key(20);
    let user = key(21);
    let mut a = initialize_accounts(program, user);
    a.signer.is_signer = false;
    assert_eq!(a.validate(&program), Err(AccountError::AccountNotSigner));
    let mut a = initialize_accounts(program, user);
    a.vault_state.info.key = key(1);
    assert_eq!(a.validate(&program), Err(AccountError::ConstraintSeeds));
    let mut a = initialize_accounts(program, user);
    a.signer.is_writable = false;
    assert_eq!(a.validate(&program), Err(AccountError::ConstraintMut));
    let mut a = initialize_accounts(program, user);
    a.vault.key = key(2);
    assert_eq!(a.validate(&program), Err(AccountError::ConstraintSeeds));
    let a = initialize_accounts(program, user);
    assert_eq!(a.check(None, None), Err(AccountError::NoViableBump));
    assert_eq!(
        a.check(Some((a.vault_state.info.key, 7)), None),
        Err(AccountError::NoViableBump)
    );
}

#[test]
fn an_initialized_state_is_not_the_state_that_deposit_accepts() {
    // The state account is created at `[b"vault", signer]` but deposit
    // re-derives it from `[b"state", payer]`.
    let program = key(30);
    let user = key(31);
    let accounts = initialize_accounts(program, user);
    let bumps = accounts.validate(&program).unwrap();
    let mut ctx = Context { program_id: program, accounts, bumps };
    initialize(&mut ctx).unwrap();
    let a = ctx.accounts;
    let d = Deposit {
        payer: a.signer,
        vault_state: ProgramAccount { info: a.vault_state.info, data: a.vault_state.data },
        vault: AccountView { is_writable: true, ..a.vault },
        system_program: a.system_program,
    };
    assert_eq!(d.validate(&program), Err(AccountError::ConstraintSeeds));
    // The vault itself is re-derived with the recorded bump.
    assert_eq!(
        d.check(&program, Some(d.vault_state.info.key), escrow_vault::pda::derive_address(
            escrow_vault::vault::make_vault_seeds(&d.vault_state.info.key),
            d.vault_state.data.vault_bump,
            &program,
        )),
        Ok(())
    );
}

#[test]
fn account_types_are_checked_before_the_constraints() {
    let s = setup();
    let mut d = deposit_accounts(&s);
    d.vault_state.info.owner = key(77);
    d.vault.is_writable = false;
    assert_eq!(d.validate(&s.program), Err(AccountError::AccountOwnedByWrongProgram));
    let mut d = deposit_accounts(&s);
    d.vault_state.info.owner = SYSTEM_PROGRAM_ID;
    d.vault_state.info.lamports = 0;
    assert_eq!(d.validate(&s.program), Err(AccountError::AccountNotInitialized));
    let mut d = deposit_accounts(&s);
    d.vault.owner = s.program;
    assert_eq!(d.validate(&s.program), Err(AccountError::AccountNotSystemOwned));
    let mut d = deposit_accounts(&s);
    d.system_program.key = key(78);
    assert_eq!(d.validate(&s.program), Err(AccountError::InvalidProgramId));
    let mut d = deposit_accounts(&s);
    d.system_program.executable = false;
    d.payer.is_writable = false;
    assert_eq!(d.validate(&s.program), Err(AccountError::InvalidProgramExecutable));
}

#[test]
fn closing_an_account_hands_all_its_lamports_to_the_destination() {
    let mut closed = view(key(40), key(41), 1_234, false, true);
    let mut receiver = view(key(42), SYSTEM_PROGRAM_ID, 10, true, true);
    escrow_vault::account::close_account_into(&mut closed, &mut receiver);
    assert_eq!(closed.lamports, 0);
    assert_eq!(closed.owner, SYSTEM_PROGRAM_ID);
    assert_eq!(receiver.lamports, 1_244);
    assert_eq!(closed.key, key(40));
    assert_eq!(receiver.owner, SYSTEM_PROGRAM_ID);
}

#[test]
fn the_instructions_invoke_only_for_accepted_accounts() {
    let s = setup();
    let inv = process_deposit(&deposit_accounts(&s), &s.program, 7).unwrap();
    assert_eq!(inv.instruction.data, transfer_data(7));
    let inv = process_withdraw(&withdraw_accounts(&s), &s.program, 7).unwrap();
    assert_eq!(inv.instruction.accounts[0].key, s.vault.key);
    let inv = process_close(&close_accounts(&s), &s.program).unwrap();
    assert_eq!(inv.instruction.data, transfer_data(2_000_000));
    let mut d = deposit_accounts(&s);
    d.payer.is_signer = false;
    assert_eq!(process_deposit(&d, &s.program, 7).err(), Some(AccountError::AccountNotSigner));
    let mut w = withdraw_accounts(&s);
    w.vault.is_writable = false;
    assert_eq!(process_withdraw(&w, &s.program, 7).err(), Some(AccountError::ConstraintMut));
    let mut c = close_accounts(&s);
    c.vault_state.data.vault_bump = c.vault_state.data.vault_bump.wrapping_sub(1);
    assert_eq!(process_close(&c, &s.program).err(), Some(AccountError::ConstraintSeeds));
}

#[test]
fn process_initialize_creates_the_state_and_records_bumps_only_when_accepted() {
    let program = key(20);
    let user = key(21);
    let mut a = initialize_accounts(program, user);
    let (state_key, state_bump) = pda(&[b"vault", &user], &program);
    let plan = process_initialize(&mut a, &program, 946_560, 10).unwrap();
    assert_eq!(a.vault_state.data.state_bump, state_bump);
    assert_eq!(plan.len(), 1);
    let create = &plan[0];
    let expected = anchor_lang::solana_program::system_instruction::create_account(
        &Pubkey::new_from_array(user),
        &Pubkey::new_from_array(state_key),
        946_560,
        10,
        &Pubkey::new_from_array(program),
    );
    assert_eq!(create.instruction.data, expected.data);
    assert_eq!(create.instruction.accounts[1].key, state_key);
    assert!(create.instruction.accounts[1].is_signer);
    assert_eq!(create.signer_seeds, Some(vec![b"vault".to_vec(), user.to_vec(), vec![state_bump]]));
    let mut a = initialize_accounts(program, user);
    a.signer.is_writable = false;
    assert_eq!(process_initialize(&mut a, &program, 946_560, 10).err(), Some(AccountError::ConstraintMut));
    assert_eq!(a.vault_state.data, VaultState { state_bump: 0, vault_bump: 0 });
    let mut a = initialize_accounts(program, user);
    a.vault_state.info.is_writable = false;
    assert_eq!(process_initialize(&mut a, &program, 946_560, 10).err(), Some(AccountError::ConstraintMut));
}

#[test]
fn a_prefunded_state_is_topped_up_allocated_and_assigned() {
    let program = key(20);
    let user = key(21);
    let mut a = initialize_accounts(program, user);
    a.vault_state.info.lamports = 1_000;
    let plan = process_initialize(&mut a, &program, 946_560, 10).unwrap();
    assert_eq!(plan.len(), 3);
    assert_eq!(plan[0].instruction.data, transfer_data(946_560 - 1_000));
    assert!(plan[0].signer_seeds.is_none());
    let state = Pubkey::new_from_array(a.vault_state.info.key);
    let allocate = anchor_lang::solana_program::system_instruction::allocate(&state, 10);
    assert_eq!(plan[1].instruction.data, allocate.data);
    let assign = anchor_lang::solana_program::system_instruction::assign(&state, &Pubkey::new_from_array(program));
    assert_eq!(plan[2].instruction.data, assign.data);
    assert!(plan[2].signer_seeds.is_some());
    // Already holding the minimum: no transfer.
    let mut a = initialize_accounts(program, user);
    a.vault_state.info.lamports = 2_000_000;
    assert_eq!(process_initialize(&mut a, &program, 946_560, 10).unwrap().len(), 2);
    // With a minimum of zero, one lamport is still the target.
    let mut a = initialize_accounts(program, user);
    let b = a.validate(&program).unwrap();
    a.vault_state.info.lamports = 1;
    assert_eq!(a.create_state(b.vault_state, &program, 0, 10).len(), 2);
}

#[test]
fn the_payer_cannot_be_the_prefunded_state() {
    let a = initialize_accounts(key(20), key(21));
    let mut b = initialize_accounts(key(20), key(21));
    b.signer.key = b.vault_state.info.key;
    b.vault_state.info.lamports = 5;
    assert_eq!(
        b.check(Some((a.vault_state.info.key, 1)), Some((a.vault.key, 1))),
        Err(AccountError::TryingToInitPayerAsProgramAccount)
    );
}

#[test]
fn the_end_of_close_closes_the_state_into_the_signer() {
    let s = setup();
    let mut c = close_accounts(&s);
    let state_lamports = c.vault_state.info.lamports;
    let signer_lamports = c.signer.lamports;
    c.exit();
    assert_eq!(c.vault_state.info.lamports, 0);
    assert_eq!(c.signer.lamports, signer_lamports + state_lamports);
    assert_eq!(process_close(&c, &s.program).err(), Some(AccountError::AccountNotInitialized));
}

#[test]
fn a_closed_state_is_refused_afterwards() {
    let s = setup();
    let mut c = close_accounts(&s);
    assert!(process_close(&c, &s.program).is_ok());
    let mut signer = c.signer;
    escrow_vault::account::close_account_into(&mut c.vault_state.info, &mut signer);
    c.signer = signer;
    assert_eq!(process_close(&c, &s.program).err(), Some(AccountError::AccountNotInitialized));
    let d = Deposit { payer: c.signer, vault_state: ProgramAccount { info: c.vault_state.info, data: c.vault_state.data }, vault: c.vault, system_program: c.system_program };
    assert_eq!(process_deposit(&d, &s.program, 1).err(), Some(AccountError::AccountNotInitialized));
}
