use vstd::prelude::*;

verus! {

/// Raised when the maker's target amount is invalid.
pub const ERR_INVALID_AMOUNT: u32 = 0;
/// Raised when the maker collects before the vault holds the target.
pub const ERR_TARGET_NOT_MET: u32 = 1;
/// Raised when a refund is asked for although the target was reached.
pub const ERR_TARGET_MET: u32 = 2;
/// Raised when a single contribution is above the per-contributor cap.
pub const ERR_CONTRIBUTION_TOO_BIG: u32 = 3;
/// Raised when a contribution is not above the minimum.
pub const ERR_CONTRIBUTION_TOO_SMALL: u32 = 4;
/// Raised when a contributor's running total would pass the cap.
pub const ERR_MAXIMUM_CONTRIBUTIONS_REACHED: u32 = 5;
/// Raised when a refund is asked for before the fundraiser has ended.
pub const ERR_FUNDRAISER_NOT_ENDED: u32 = 6;
/// Raised when a contribution arrives after the fundraiser has ended.
pub const ERR_FUNDRAISER_ENDED: u32 = 7;
/// Raised when an amount or balance computation overflows.
pub const ERR_ARITHMETIC_OVERFLOW: u32 = 8;

/// Why an instruction was refused.
///
/// The variants mirror the runtime's program errors that this program raises;
/// `Custom` carries one of the codes above, and `Runtime` carries the code of
/// an error that the runtime itself reported (for instance when a sysvar
/// could not be read).
#[derive(Clone, Copy, Debug, PartialEq, Eq, Structural)]
pub enum FundraiserError {
    NotEnoughAccountKeys,
    MissingRequiredSignature,
    InvalidInstructionData,
    InvalidAccountData,
    InvalidSeeds,
    InvalidAccountOwner,
    IncorrectProgramId,
    Custom(u32),
    Runtime(u64),
    /// No bump seed gives an off-curve program address for the seeds; deriving
    /// such an address aborts the program.
    ProgramAddressNotFound,
    /// The rent's price per byte is beyond what a rent-exempt balance is
    /// computed for; computing one at that price aborts the program.
    RentPriceTooHigh,
}

} // verus!
