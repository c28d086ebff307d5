use vstd::prelude::*;

verus! {

/// The errors that the pool's own rules raise.
#[derive(Clone, Copy, Debug, PartialEq, Eq)]
pub enum AmmError {
    InvalidFee,
    InvalidMint,
    InsufficientFunds,
    InvalidRatio,
    InsufficientTotalMintSupply,
    SlippageExceeded,
    AmountTooSmall,
    TooMuchRequired,
    Unauthorized,
    InvalidReserve,
    SameReserve,
    SameAccount,
}

/// The number under which an error of the pool's own is reported: custom
/// program errors are numbered from 6000, in the order of declaration.
pub open spec fn amm_error_code(e: AmmError) -> u32 {
    match e {
        AmmError::InvalidFee => 6000,
        AmmError::InvalidMint => 6001,
        AmmError::InsufficientFunds => 6002,
        AmmError::InvalidRatio => 6003,
        AmmError::InsufficientTotalMintSupply => 6004,
        AmmError::SlippageExceeded => 6005,
        AmmError::AmountTooSmall => 6006,
        AmmError::TooMuchRequired => 6007,
        AmmError::Unauthorized => 6008,
        AmmError::InvalidReserve => 6009,
        AmmError::SameReserve => 6010,
        AmmError::SameAccount => 6011,
    }
}

impl AmmError {
    /// The error's number.
    pub fn code(&self) -> (c: u32)
        ensures
            c == amm_error_code(*self),
    {
        match self {
            AmmError::InvalidFee => 6000,
            AmmError::InvalidMint => 6001,
            AmmError::InsufficientFunds => 6002,
            AmmError::InvalidRatio => 6003,
            AmmError::InsufficientTotalMintSupply => 6004,
            AmmError::SlippageExceeded => 6005,
            AmmError::AmountTooSmall => 6006,
            AmmError::TooMuchRequired => 6007,
            AmmError::Unauthorized => 6008,
            AmmError::InvalidReserve => 6009,
            AmmError::SameReserve => 6010,
            AmmError::SameAccount => 6011,
        }
    }

    /// The message reported with the error.
    pub fn message(&self) -> (m: &'static str)
        ensures
            match *self {
                AmmError::InvalidFee => m@ == "Extremely excessive fee amount"@,
                AmmError::InvalidMint => m@ == "Invalid mint for this account"@,
                AmmError::InsufficientFunds => m@ == "Insufficient Funds"@,
                AmmError::InvalidRatio => m@ == "Invalid Funds Ratio"@,
                AmmError::InsufficientTotalMintSupply => m@ == "Insuffiecient Total Mints Available"@,
                AmmError::SlippageExceeded => m@ == "Slippage Limit Exceeded"@,
                AmmError::AmountTooSmall => m@ == "Amount to small to mint any LP tokens"@,
                AmmError::TooMuchRequired => m@ == "Required amount exceeds maximum allowed"@,
                AmmError::Unauthorized => m@ == "Unauthorized Access"@,
                AmmError::InvalidReserve => m@ == "Invalid Reserve Account"@,
                AmmError::SameReserve => m@ == "Source and Destination reserve accounts cannot be the same"@,
                AmmError::SameAccount => m@ == "Source and Destination user accounts cannot be the same"@,
            },
    {
        match self {
            AmmError::InvalidFee => "Extremely excessive fee amount",
            AmmError::InvalidMint => "Invalid mint for this account",
            AmmError::InsufficientFunds => "Insufficient Funds",
            AmmError::InvalidRatio => "Invalid Funds Ratio",
            AmmError::InsufficientTotalMintSupply => "Insuffiecient Total Mints Available",
            AmmError::SlippageExceeded => "Slippage Limit Exceeded",
            AmmError::AmountTooSmall => "Amount to small to mint any LP tokens",
            AmmError::TooMuchRequired => "Required amount exceeds maximum allowed",
            AmmError::Unauthorized => "Unauthorized Access",
            AmmError::InvalidReserve => "Invalid Reserve Account",
            AmmError::SameReserve => "Source and Destination reserve accounts cannot be the same",
            AmmError::SameAccount => "Source and Destination user accounts cannot be the same",
        }
    }
}

/// Why an instruction is refused: one of the pool's own errors, or a failed
/// check of an account's address against the pool's records, its seeds or
/// its wallet.
#[derive(Clone, Copy, Debug, PartialEq, Eq)]
pub enum ProgramError {
    /// An error of the pool's own rules.
    Amm(AmmError),
    /// An account is not at the program address that its seeds derive.
    ConstraintSeeds,
    /// An account is not at the address that the pool records for it.
    ConstraintAddress,
    /// A token account that must belong to a wallet belongs to another.
    ConstraintTokenOwner,
    /// A token account is not the associated token account of its wallet
    /// for its mint.
    ConstraintAssociated,
    /// No bump seed makes the seeds a program address. The program aborts
    /// here ("Unable to find a viable program address bump seed") rather than
    /// return an error code.
    NoViableBumpSeed,
    /// The instruction's arithmetic has no value (a fee above the whole
    /// input, a reserve that would overflow, a division by zero). The program
    /// aborts here rather than return an error code.
    ArithmeticFailure,
}

impl ProgramError {
    /// The number under which the error is reported; `None` for the abort.
    pub fn code(&self) -> (c: Option<u32>)
        ensures
            match *self {
                ProgramError::Amm(e) => c == Some(amm_error_code(e)),
                ProgramError::ConstraintSeeds => c == Some(2006u32),
                ProgramError::ConstraintAddress => c == Some(2012u32),
                ProgramError::ConstraintTokenOwner => c == Some(2015u32),
                ProgramError::ConstraintAssociated => c == Some(2009u32),
                ProgramError::NoViableBumpSeed => c is None,
                ProgramError::ArithmeticFailure => c is None,
            },
    {
        match self {
            ProgramError::Amm(e) => Some(e.code()),
            ProgramError::ConstraintSeeds => Some(2006),
            ProgramError::ConstraintAddress => Some(2012),
            ProgramError::ConstraintTokenOwner => Some(2015),
            ProgramError::ConstraintAssociated => Some(2009),
            ProgramError::NoViableBumpSeed => None,
            ProgramError::ArithmeticFailure => None,
        }
    }
}

} // verus!
