//! Why a set of accounts or an instruction is refused.

use vstd::prelude::*;

verus! {

/// The reasons for which the programs refuse an instruction, named after
/// the account constraint that fails.
#[derive(Debug, Clone, Copy, PartialEq, Eq, Structural)]
pub enum AccountError {
    /// A program account is still an empty system account.
    AccountNotInitialized,
    /// An account is owned by another program than its type requires.
    AccountOwnedByWrongProgram,
    /// An account declared as a system account is owned by another program.
    AccountNotSystemOwned,
    /// A program account passed is not the program required.
    InvalidProgramId,
    /// A program account passed is not executable.
    InvalidProgramExecutable,
    /// An account declared as a signer did not sign.
    AccountNotSigner,
    /// An account declared mutable was passed read-only.
    ConstraintMut,
    /// An account is not the address that its seeds and bump derive.
    ConstraintSeeds,
    /// An account is not the address that its constraint names.
    ConstraintAddress,
    /// An account to be closed is the account that receives its lamports.
    ConstraintClose,
    /// A token account holds another mint than the one required.
    ConstraintTokenMint,
    /// A token account has another authority than the one required.
    ConstraintTokenOwner,
    /// A token account is not the associated token account required.
    ConstraintAssociated,
    /// A token account is owned by another program than the token program passed.
    ConstraintAssociatedTokenTokenProgram,
    /// An existing token account is not the associated token account required.
    AccountNotAssociatedTokenAccount,
    /// No bump seed derives an address from the seeds.
    NoViableBump,
    /// The token program passed is not one that the instruction accepts.
    IncorrectProgramId,
    /// An account created at the start of an instruction is not rent-exempt.
    ConstraintRentExempt,
    /// The account paying for a creation is the account to be created.
    TryingToInitPayerAsProgramAccount,
    /// The creation of an associated token account names its associated
    /// address, and the account passed in its place is another one.
    MissingAccount,
}

} // verus!
