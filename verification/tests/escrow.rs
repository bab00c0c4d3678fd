use anchor_lang::prelude::Pubkey;
use escrow_vault::account::{AccountView, Context, ProgramAccount};
use escrow_vault::address::{ASSOCIATED_TOKEN_PROGRAM_ID, SYSTEM_PROGRAM_ID, TOKEN_2022_PROGRAM_ID, TOKEN_PROGRAM_ID};
use escrow_vault::error::AccountError;
use escrow_vault::account::close_account_into;
use escrow_vault::escrow::{process_take, take, Escrow, Mint, Take, TakeBumps, TakeCreations, TokenAccount};

fn key(n: u8) -> [u8; 32] {
    let mut k = [0u8; 32];
    for (i, b) in k.iter_mut().enumerate() {
        *b = n.wrapping_mul(41).wrapping_add((i as u8).wrapping_mul(3)).wrapping_add(7);
    }
    k
}

fn view(key: [u8; 32], owner: [u8; 32], signer: bool, writable: bool) -> AccountView {
    AccountView { key, owner, lamports: 2_039_280, is_signer: signer, is_writable: writable, executable: false }
}

fn executable(key: [u8; 32]) -> AccountView {
    AccountView { executable: true, ..view(key, [2; 32], false, false) }
}

fn ata(wallet: &[u8; 32], mint: &[u8; 32], token_program: &[u8; 32]) -> [u8; 32] {
    anchor_spl::associated_token::get_associated_token_address_with_program_id(
        &Pubkey::new_from_array(*wallet),
        &Pubkey::new_from_array(*mint),
        &Pubkey::new_from_array(*token_program),
    )
    .to_bytes()
}

fn token_account(wallet: &[u8; 32], mint: &[u8; 32], amount: u64, writable: bool) -> TokenAccount {
    TokenAccount {
        info: view(ata(wallet, mint, &TOKEN_PROGRAM_ID), TOKEN_PROGRAM_ID, false, writable),
        mint: *mint,
        owner: *wallet,
        amount,
        rent_exempt: true,
    }
}

const PROGRAM: u8 = 50;

/// Accounts that the rules of take accept, under the SPL token program.
fn accounts() -> Take {
    let program = key(PROGRAM);
    let taker = key(51);
    let maker = key(52);
    let mint_a = key(53);
    let mint_b = key(54);
    let seed: u64 = 0x1122_3344_5566_7788;
    let (escrow_key, bump) = Pubkey::find_program_address(
        &[b"escrow", &maker, &seed.to_le_bytes()],
        &Pubkey::new_from_array(program),
    );
    let escrow_key = escrow_key.to_bytes();
    Take {
        taker: view(taker, SYSTEM_PROGRAM_ID, true, true),
        maker: view(maker, SYSTEM_PROGRAM_ID, false, true),
        mint_a: Mint { info: view(mint_a, TOKEN_PROGRAM_ID, false, false), decimals: 6 },
        mint_b: Mint { info: view(mint_b, TOKEN_PROGRAM_ID, false, false), decimals: 9 },
        taker_mint_a_ata: token_account(&taker, &mint_a, 0, true),
        taker_mint_b_ata: token_account(&taker, &mint_b, 1_000, true),
        maker_mint_b_ata: token_account(&maker, &mint_b, 0, true),
        escrow: ProgramAccount {
            info: view(escrow_key, program, false, true),
            data: Escrow { seed, maker, mint_a, mint_b, receive_amount: 250, bump },
        },
        vault: token_account(&escrow_key, &mint_a, 400, true),
        system_program: executable(SYSTEM_PROGRAM_ID),
        associated_token_program: executable(ASSOCIATED_TOKEN_PROGRAM_ID),
        token_program: executable(TOKEN_PROGRAM_ID),
    }
}

#[test]
fn take_accepts_existing_derived_accounts() {
    let t = accounts();
    let plan = t.validate(&key(PROGRAM)).unwrap();
    assert!(plan.is_empty());
}

#[test]
fn take_creates_missing_associated_accounts_first() {
    let mut t = accounts();
    t.taker_mint_a_ata.info.owner = SYSTEM_PROGRAM_ID;
    t.maker_mint_b_ata.info.owner = SYSTEM_PROGRAM_ID;
    let creations = t
        .check(
            &key(PROGRAM),
            Some(t.escrow.info.key),
            Some(t.taker_mint_a_ata.info.key),
            Some(t.maker_mint_b_ata.info.key),
            Some(t.taker_mint_b_ata.info.key),
            Some(t.vault.info.key),
        )
        .unwrap();
    assert_eq!(creations, TakeCreations { taker_mint_a_ata: true, maker_mint_b_ata: true });
    let plan = t.validate(&key(PROGRAM)).unwrap();
    assert_eq!(plan.len(), 2);
    let expected = anchor_spl::associated_token::spl_associated_token_account::instruction::create_associated_token_account(
        &Pubkey::new_from_array(t.taker.key),
        &Pubkey::new_from_array(t.maker.key),
        &Pubkey::new_from_array(t.mint_b.info.key),
        &Pubkey::new_from_array(TOKEN_PROGRAM_ID),
    );
    let second = &plan[1].instruction;
    assert_eq!(second.program_id, ASSOCIATED_TOKEN_PROGRAM_ID);
    assert_eq!(second.data, vec![0u8]);
    assert_eq!(second.data, expected.data);
    assert_eq!(second.accounts.len(), 6);
    assert_eq!(second.accounts[0].key, t.taker.key);
    assert!(second.accounts[0].is_signer);
    assert_eq!(second.accounts[1].key, t.maker_mint_b_ata.info.key);
    assert_eq!(second.accounts[2].key, t.maker.key);
    assert_eq!(second.accounts[3].key, t.mint_b.info.key);
    assert_eq!(second.accounts[4].key, SYSTEM_PROGRAM_ID);
    assert_eq!(second.accounts[5].key, TOKEN_PROGRAM_ID);
    assert_eq!(plan[0].instruction.accounts[1].key, t.taker_mint_a_ata.info.key);
    assert!(plan[0].signer_seeds.is_none());
}

#[test]
fn take_refuses_each_broken_rule() {
    let program = key(PROGRAM);
    let mut t = accounts();
    t.taker.is_signer = false;
    assert_eq!(t.validate(&program).err(), Some(AccountError::AccountNotSigner));
    let mut t = accounts();
    t.taker_mint_a_ata.mint = key(1);
    assert_eq!(t.validate(&program).err(), Some(AccountError::ConstraintTokenMint));
    let mut t = accounts();
    t.maker_mint_b_ata.owner = key(1);
    assert_eq!(t.validate(&program).err(), Some(AccountError::ConstraintTokenOwner));
    let mut t = accounts();
    t.taker_mint_a_ata.info.owner = TOKEN_2022_PROGRAM_ID;
    assert_eq!(t.validate(&program).err(), Some(AccountError::ConstraintAssociatedTokenTokenProgram));
    let mut t = accounts();
    t.taker_mint_a_ata.info.owner = key(9);
    assert_eq!(t.validate(&program).err(), Some(AccountError::AccountOwnedByWrongProgram));
    let mut t = accounts();
    t.maker_mint_b_ata.info.key = key(2);
    assert_eq!(t.validate(&program).err(), Some(AccountError::AccountNotAssociatedTokenAccount));
    let mut t = accounts();
    t.taker.is_writable = false;
    assert_eq!(t.validate(&program).err(), Some(AccountError::ConstraintMut));
    let mut t = accounts();
    t.maker.key = key(3);
    t.maker_mint_b_ata = token_account(&key(3), &t.mint_b.info.key, 0, true);
    assert_eq!(t.validate(&program).err(), Some(AccountError::ConstraintAddress));
    let mut t = accounts();
    t.escrow.data.mint_b = key(4);
    assert_eq!(t.validate(&program).err(), Some(AccountError::ConstraintAddress));
    let mut t = accounts();
    t.taker_mint_b_ata.info.key = key(5);
    assert_eq!(t.validate(&program).err(), Some(AccountError::ConstraintAssociated));
    let mut t = accounts();
    t.taker_mint_b_ata.info.is_writable = false;
    assert_eq!(t.validate(&program).err(), Some(AccountError::ConstraintMut));
    let mut t = accounts();
    t.escrow.data.seed += 1;
    assert_eq!(t.validate(&program).err(), Some(AccountError::ConstraintSeeds));
    let mut t = accounts();
    t.escrow.info.is_writable = false;
    assert_eq!(t.validate(&program).err(), Some(AccountError::ConstraintMut));
    let mut t = accounts();
    t.vault.owner = key(6);
    assert_eq!(t.validate(&program).err(), Some(AccountError::ConstraintTokenOwner));
    let mut t = accounts();
    t.vault.info.is_writable = false;
    assert_eq!(t.validate(&program).err(), Some(AccountError::ConstraintMut));
}

#[test]
fn take_check_reports_closing_into_the_taker_and_missing_bumps() {
    let t = accounts();
    let mut u = accounts();
    u.taker.key = t.escrow.info.key;
    u.taker_mint_a_ata.owner = t.escrow.info.key;
    u.taker_mint_b_ata.owner = t.escrow.info.key;
    assert_eq!(
        u.check(
            &key(PROGRAM),
            Some(t.escrow.info.key),
            Some(t.taker_mint_a_ata.info.key),
            Some(t.maker_mint_b_ata.info.key),
            Some(t.taker_mint_b_ata.info.key),
            Some(t.vault.info.key),
        ),
        Err(AccountError::ConstraintClose)
    );
    assert_eq!(
        t.check(&key(PROGRAM), Some(t.escrow.info.key), None, None, None, None),
        Err(AccountError::NoViableBump)
    );
}

#[test]
fn take_withdraw_pays_the_maker_then_releases_the_vault() {
    let t = accounts();
    let plan = t.withdraw().unwrap();
    assert_eq!(plan.len(), 2);
    let pay = &plan[0];
    assert_eq!(pay.instruction.program_id, TOKEN_PROGRAM_ID);
    let mut data = vec![12u8];
    data.extend_from_slice(&250u64.to_le_bytes());
    data.push(9);
    assert_eq!(pay.instruction.data, data);
    let keys: Vec<[u8; 32]> = pay.instruction.accounts.iter().map(|m| m.key).collect();
    assert_eq!(keys, vec![t.taker_mint_b_ata.info.key, t.mint_b.info.key, t.maker_mint_b_ata.info.key, t.taker.key]);
    assert!(pay.instruction.accounts[3].is_signer);
    assert!(pay.signer_seeds.is_none());
    let release = &plan[1];
    let mut data = vec![12u8];
    data.extend_from_slice(&400u64.to_le_bytes());
    data.push(6);
    assert_eq!(release.instruction.data, data);
    let keys: Vec<[u8; 32]> = release.instruction.accounts.iter().map(|m| m.key).collect();
    assert_eq!(keys, vec![t.vault.info.key, t.mint_a.info.key, t.taker_mint_a_ata.info.key, t.escrow.info.key]);
    let seeds = release.signer_seeds.clone().expect("the escrow signs");
    let slices: Vec<&[u8]> = seeds.iter().map(|v| v.as_slice()).collect();
    let signer = Pubkey::create_program_address(&slices, &Pubkey::new_from_array(key(PROGRAM))).unwrap();
    assert_eq!(signer.to_bytes(), t.escrow.info.key);
}

#[test]
fn take_checks_account_types_first() {
    let program = key(PROGRAM);
    let mut t = accounts();
    t.maker.owner = TOKEN_PROGRAM_ID;
    t.escrow.info.is_writable = false;
    assert_eq!(t.validate(&program).err(), Some(AccountError::AccountNotSystemOwned));
    let mut t = accounts();
    t.mint_b.info.owner = key(8);
    assert_eq!(t.validate(&program).err(), Some(AccountError::AccountOwnedByWrongProgram));
    let mut t = accounts();
    t.escrow.info.owner = key(8);
    assert_eq!(t.validate(&program).err(), Some(AccountError::AccountOwnedByWrongProgram));
    let mut t = accounts();
    t.vault.info.owner = SYSTEM_PROGRAM_ID;
    t.vault.info.lamports = 0;
    assert_eq!(t.validate(&program).err(), Some(AccountError::AccountNotInitialized));
    let mut t = accounts();
    t.associated_token_program.key = TOKEN_PROGRAM_ID;
    assert_eq!(t.validate(&program).err(), Some(AccountError::InvalidProgramId));
    let mut t = accounts();
    t.token_program.key = key(60);
    assert_eq!(t.validate(&program).err(), Some(AccountError::InvalidProgramId));
    let mut t = accounts();
    t.token_program.executable = false;
    assert_eq!(t.validate(&program).err(), Some(AccountError::InvalidProgramExecutable));
}

#[test]
fn take_withdraw_refuses_a_program_that_is_no_token_program() {
    let mut t = accounts();
    t.token_program.key = key(60);
    assert_eq!(t.withdraw().err(), Some(AccountError::IncorrectProgramId));
    assert_eq!(process_take(&t, &key(PROGRAM)).err(), Some(AccountError::InvalidProgramId));
}

#[test]
fn take_2022_transfers_use_the_program_passed() {
    let mut t = accounts();
    t.token_program.key = TOKEN_2022_PROGRAM_ID;
    let plan = t.withdraw().unwrap();
    assert_eq!(plan[0].instruction.program_id, TOKEN_2022_PROGRAM_ID);
    assert_eq!(plan[1].instruction.program_id, TOKEN_2022_PROGRAM_ID);
    // The vault is closed through the SPL token program whatever was passed.
    assert_eq!(t.close().unwrap().instruction.program_id, TOKEN_PROGRAM_ID);
}

#[test]
fn take_closes_the_vault_into_the_taker_last() {
    let t = accounts();
    let ctx = Context { program_id: key(PROGRAM), accounts: t, bumps: TakeBumps {} };
    let plan = take(&ctx).unwrap();
    assert_eq!(plan.len(), 3);
    let close = &plan[2];
    assert_eq!(close.instruction.program_id, TOKEN_PROGRAM_ID);
    assert_eq!(close.instruction.data, vec![9u8]);
    let keys: Vec<[u8; 32]> = close.instruction.accounts.iter().map(|m| m.key).collect();
    let t = &ctx.accounts;
    assert_eq!(keys, vec![t.vault.info.key, t.taker.key, t.escrow.info.key]);
    assert!(close.instruction.accounts[2].is_signer);
    assert_eq!(close.signer_seeds, plan[1].signer_seeds);
}

#[test]
fn take_refuses_to_create_an_account_away_from_its_associated_address() {
    let mut t = accounts();
    t.maker_mint_b_ata.info.owner = SYSTEM_PROGRAM_ID;
    t.maker_mint_b_ata.info.key = key(70);
    assert_eq!(t.validate(&key(PROGRAM)).err(), Some(AccountError::MissingAccount));
    let mut t = accounts();
    t.taker_mint_a_ata.info.owner = SYSTEM_PROGRAM_ID;
    t.taker_mint_a_ata.info.key = key(71);
    assert_eq!(process_take(&t, &key(PROGRAM)).err(), Some(AccountError::MissingAccount));
}

#[test]
fn initialized_token_accounts_must_be_writable_and_existing_ones_rent_exempt() {
    let program = key(PROGRAM);
    let mut t = accounts();
    t.taker_mint_a_ata.info.is_writable = false;
    assert_eq!(process_take(&t, &program).err(), Some(AccountError::ConstraintMut));
    let mut t = accounts();
    t.maker_mint_b_ata.info.owner = SYSTEM_PROGRAM_ID;
    t.maker_mint_b_ata.info.is_writable = false;
    assert_eq!(process_take(&t, &program).err(), Some(AccountError::ConstraintMut));
    let mut t = accounts();
    t.maker_mint_b_ata.rent_exempt = false;
    assert_eq!(process_take(&t, &program).err(), Some(AccountError::ConstraintRentExempt));
    // An account still to be created is funded by its creation.
    let mut t = accounts();
    t.maker_mint_b_ata.info.owner = SYSTEM_PROGRAM_ID;
    t.maker_mint_b_ata.rent_exempt = false;
    assert_eq!(process_take(&t, &program).map(|p| p.len()).ok(), Some(4));
}

#[test]
fn process_take_runs_creations_transfers_then_closing() {
    let mut t = accounts();
    t.taker_mint_a_ata.info.owner = SYSTEM_PROGRAM_ID;
    let plan = process_take(&t, &key(PROGRAM)).unwrap();
    assert_eq!(plan.len(), 4);
    assert_eq!(plan[0].instruction.program_id, ASSOCIATED_TOKEN_PROGRAM_ID);
    assert_eq!(plan[1].instruction.data[0], 12);
    assert_eq!(plan[2].instruction.data[0], 12);
    assert_eq!(plan[3].instruction.data, vec![9u8]);
    let mut t = accounts();
    t.escrow.data.receive_amount = 1;
    t.escrow.data.bump = t.escrow.data.bump.wrapping_add(1);
    assert_eq!(process_take(&t, &key(PROGRAM)).err(), Some(AccountError::ConstraintSeeds));
}

#[test]
fn a_closed_escrow_is_refused_by_a_later_take() {
    let mut t = accounts();
    assert!(process_take(&t, &key(PROGRAM)).is_ok());
    let mut taker = t.taker;
    close_account_into(&mut t.escrow.info, &mut taker);
    t.taker = taker;
    assert_eq!(process_take(&t, &key(PROGRAM)).err(), Some(AccountError::AccountNotInitialized));
}

#[test]
fn the_end_of_take_closes_the_escrow_into_the_taker() {
    let mut t = accounts();
    t.escrow.info.lamports = 1_500_000;
    t.taker.lamports = 10;
    t.exit();
    assert_eq!(t.escrow.info.lamports, 0);
    assert_eq!(t.escrow.info.owner, SYSTEM_PROGRAM_ID);
    assert_eq!(t.taker.lamports, 1_500_010);
    assert_eq!(process_take(&t, &key(PROGRAM)).err(), Some(AccountError::AccountNotInitialized));
}
