//! What `take` asks for when it creates token accounts, stated over its
//! inputs.

use crate::address::{ASSOCIATED_TOKEN_PROGRAM_ID, SYSTEM_PROGRAM_ID};
use crate::account::{AccountView, ProgramAccount};
use crate::escrow::{take_accounts_creations, take_accounts_rules, Escrow, Take, TokenAccount};
use vstd::prelude::*;

verus! {

/// Law: once the accounts of `take` are accepted, every associated token
/// account that it asks to create is created by the associated token
/// program, funded by the taker (a writable signer, who signed), without
/// the program signing; the account created is one of the two passed for
/// creation and still owned by the system program; and nothing is created
/// when both already exist.
pub proof fn lemma_take_creations_funded_by_taker(t: Take, program_id: Seq<u8>)
    requires
        take_accounts_rules(t, program_id) is Ok,
    ensures
        t.taker.is_signer,
        ({
            let creations = take_accounts_creations(t, take_accounts_rules(t, program_id)->Ok_0);
            &&& creations.len() <= 2
            &&& forall|j: int|
                0 <= j < creations.len() ==> {
                    &&& #[trigger] creations[j].instruction.program_id == ASSOCIATED_TOKEN_PROGRAM_ID@
                    &&& creations[j].instruction.accounts[0] == (t.taker.key@, true, true)
                    &&& creations[j].signer_seeds is None
                    &&& ((creations[j].instruction.accounts[1].0 == t.taker_mint_a_ata.info.key@
                        && t.taker_mint_a_ata.info.owner@ == SYSTEM_PROGRAM_ID@)
                        || (creations[j].instruction.accounts[1].0 == t.maker_mint_b_ata.info.key@
                        && t.maker_mint_b_ata.info.owner@ == SYSTEM_PROGRAM_ID@))
                }
            &&& (t.taker_mint_a_ata.info.owner@ != SYSTEM_PROGRAM_ID@ && t.maker_mint_b_ata.info.owner@
                != SYSTEM_PROGRAM_ID@) ==> creations.len() == 0
        }),
{
}

/// Law: whether `take` accepts its accounts does not depend on the
/// lamports of the taker or of the maker, nor on the token amounts held by
/// the vault or by the taker's and maker's accounts, nor on the amount the
/// escrow asks for.
pub proof fn lemma_take_accepts_whatever_balances(
    t: Take,
    program_id: Seq<u8>,
    taker_lamports: u64,
    maker_lamports: u64,
    vault_amount: u64,
    taker_b_amount: u64,
    maker_b_amount: u64,
    receive_amount: u64,
)
    ensures
        take_accounts_rules(t, program_id) == take_accounts_rules(
            Take {
                taker: AccountView { lamports: taker_lamports, ..t.taker },
                maker: AccountView { lamports: maker_lamports, ..t.maker },
                vault: TokenAccount { amount: vault_amount, ..t.vault },
                taker_mint_b_ata: TokenAccount { amount: taker_b_amount, ..t.taker_mint_b_ata },
                maker_mint_b_ata: TokenAccount { amount: maker_b_amount, ..t.maker_mint_b_ata },
                escrow: ProgramAccount { info: t.escrow.info, data: Escrow { receive_amount, ..t.escrow.data } },
                ..t
            },
            program_id,
        ),
{
}

} // verus!
