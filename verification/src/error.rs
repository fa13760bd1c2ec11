//! The program's own errors, and the failures a claim can end in.
use vstd::prelude::*;

verus! {

/// Errors that may be returned by the bonus prize program.
#[derive(Clone, Copy, Debug, PartialEq, Eq, Structural)]
pub enum BonusPrizeError {
    /// The instruction could not be understood.
    InvalidInstruction,
    /// The account claiming the prize is not the draw's winner.
    ClaimerNotWinner,
    /// The draw result account describes another draw.
    DrawNumberMismatch,
    /// The draw result account is not the one derived for the draw.
    DrawResultAccountDerivationError,
    /// The draw result account is not owned by the no-loss lottery program.
    DrawResultAccountOwnerMismatch,
    /// The vault authority account is not the one derived for the draw.
    InvalidBonusPrizeSigner,
}

impl BonusPrizeError {
    /// The number a failing transaction reports for this error: its
    /// position in the declaration, from zero.
    pub open spec fn spec_code(self) -> u32 {
        match self {
            BonusPrizeError::InvalidInstruction => 0,
            BonusPrizeError::ClaimerNotWinner => 1,
            BonusPrizeError::DrawNumberMismatch => 2,
            BonusPrizeError::DrawResultAccountDerivationError => 3,
            BonusPrizeError::DrawResultAccountOwnerMismatch => 4,
            BonusPrizeError::InvalidBonusPrizeSigner => 5,
        }
    }

    /// The custom error code of this error.
    pub fn code(&self) -> (r: u32)
        ensures
            r == self.spec_code(),
    {
        match self {
            BonusPrizeError::InvalidInstruction => 0,
            BonusPrizeError::ClaimerNotWinner => 1,
            BonusPrizeError::DrawNumberMismatch => 2,
            BonusPrizeError::DrawResultAccountDerivationError => 3,
            BonusPrizeError::DrawResultAccountOwnerMismatch => 4,
            BonusPrizeError::InvalidBonusPrizeSigner => 5,
        }
    }

    /// The name under which these errors are decoded.
    pub fn type_of() -> (r: &'static str)
        ensures
            r@ == "BonusPrizeError"@,
    {
        "BonusPrizeError"
    }

    /// The error as it is displayed: the name of its variant.
    pub fn to_string(&self) -> (r: String)
        ensures
            r@ == match self {
                BonusPrizeError::InvalidInstruction => "InvalidInstruction"@,
                BonusPrizeError::ClaimerNotWinner => "ClaimerNotWinner"@,
                BonusPrizeError::DrawNumberMismatch => "DrawNumberMismatch"@,
                BonusPrizeError::DrawResultAccountDerivationError => "DrawResultAccountDerivationError"@,
                BonusPrizeError::DrawResultAccountOwnerMismatch => "DrawResultAccountOwnerMismatch"@,
                BonusPrizeError::InvalidBonusPrizeSigner => "InvalidBonusPrizeSigner"@,
            },
    {
        let name: &str = match self {
            BonusPrizeError::InvalidInstruction => "InvalidInstruction",
            BonusPrizeError::ClaimerNotWinner => "ClaimerNotWinner",
            BonusPrizeError::DrawNumberMismatch => "DrawNumberMismatch",
            BonusPrizeError::DrawResultAccountDerivationError => "DrawResultAccountDerivationError",
            BonusPrizeError::DrawResultAccountOwnerMismatch => "DrawResultAccountOwnerMismatch",
            BonusPrizeError::InvalidBonusPrizeSigner => "InvalidBonusPrizeSigner",
        };
        name.to_owned()
    }

    /// The line the program logs when it fails with this error.
    pub fn message(&self) -> (r: &'static str)
        ensures
            r@ == match self {
                BonusPrizeError::InvalidInstruction => "Error: Invalid instruction"@,
                BonusPrizeError::ClaimerNotWinner => "Error: Claimer is not the winner"@,
                BonusPrizeError::DrawNumberMismatch => "Error: Draw number mismatch"@,
                BonusPrizeError::DrawResultAccountDerivationError => "Error: Draw result account derivation error"@,
                BonusPrizeError::DrawResultAccountOwnerMismatch => "Error: Draw result account owner mismatch"@,
                BonusPrizeError::InvalidBonusPrizeSigner => "Error: Invalid bonus prize signer"@,
            },
    {
        match self {
            BonusPrizeError::InvalidInstruction => "Error: Invalid instruction",
            BonusPrizeError::ClaimerNotWinner => "Error: Claimer is not the winner",
            BonusPrizeError::DrawNumberMismatch => "Error: Draw number mismatch",
            BonusPrizeError::DrawResultAccountDerivationError => "Error: Draw result account derivation error",
            BonusPrizeError::DrawResultAccountOwnerMismatch => "Error: Draw result account owner mismatch",
            BonusPrizeError::InvalidBonusPrizeSigner => "Error: Invalid bonus prize signer",
        }
    }
}

/// Why processing a claim fails: a runtime error of the program, or one of
/// the program's own errors carried as a custom code.
#[derive(Clone, Copy, Debug, PartialEq, Eq, Structural)]
pub enum ClaimError {
    /// The instruction data is not exactly one draw number.
    InvalidInstructionData,
    /// Fewer accounts were passed than the claim names.
    NotEnoughAccountKeys,
    /// The vault account does not hold a token account.
    InvalidAccountData,
    /// The vault token account was never initialized.
    UninitializedAccount,
    /// The account passed as the token program is not the token program.
    IncorrectProgramId,
    /// One of the program's own errors.
    Custom(BonusPrizeError),
}

impl From<BonusPrizeError> for ClaimError {
    fn from(e: BonusPrizeError) -> (r: ClaimError) {
        ClaimError::Custom(e)
    }
}

impl vstd::std_specs::convert::FromSpecImpl<BonusPrizeError> for ClaimError {
    open spec fn obeys_from_spec() -> bool {
        true
    }

    open spec fn from_spec(e: BonusPrizeError) -> ClaimError {
        ClaimError::Custom(e)
    }
}

} // verus!
