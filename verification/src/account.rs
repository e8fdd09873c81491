use vstd::prelude::*;
use vstd::arithmetic::power::{pow, lemma_pow_increases};
use vstd::bytes::*;

use crate::address::TOKEN_PROGRAM_ID;
use crate::bytes::same32;
use crate::error::{FundraiserError, ERR_ARITHMETIC_OVERFLOW};
use crate::state::contributor::Contributor;
use crate::state::fundraiser::Fundraiser;

verus! {

broadcast use vstd::array::group_array_axioms;

/// What an instruction sees of one account it is handed.
#[derive(Clone, Debug)]
pub struct AccountSnapshot {
    pub address: [u8; 32],
    pub owner: [u8; 32],
    pub is_signer: bool,
    pub data: Vec<u8>,
}

/// The sysvars an instruction may read, each as the runtime answered.
#[derive(Clone, Copy, Debug)]
pub struct Sysvars {
    /// The clock's Unix timestamp, in seconds.
    pub unix_timestamp: Result<i64, FundraiserError>,
    /// The rent's price of one byte of account storage, in lamports.
    pub lamports_per_byte: Result<u64, FundraiserError>,
}

/// The fundraiser signs with the seeds of its program address: the fundraiser
/// seed, its maker and its bump.
#[derive(Clone, Copy, Debug, PartialEq, Eq)]
pub struct FundraiserSigner {
    pub maker: [u8; 32],
    pub bump: u8,
}

/// One effect of an instruction; accounts are named by their position in the
/// instruction's account list.
#[derive(Clone, Copy, Debug, PartialEq, Eq)]
pub enum Action {
    /// Ask the system program to create `to`, funded by `from`.
    CreateAccount { from: usize, to: usize, lamports: u64, space: u64, owner: [u8; 32] },
    /// Write a fresh fundraiser record into `account`.
    InitFundraiser { account: usize, fundraiser: Fundraiser },
    /// Write a fresh contributor record into `account`.
    InitContributor { account: usize, contributor: Contributor },
    /// Ask the associated token account program to create `account`, the
    /// token account of `wallet` for `mint`; `idempotent` tolerates one that exists.
    CreateAssociatedTokenAccount {
        funding: usize,
        account: usize,
        wallet: usize,
        mint: usize,
        system_program: usize,
        token_program: usize,
        idempotent: bool,
    },
    /// Ask the token program to move `amount` tokens, signed by `authority`
    /// and, where given, by the fundraiser's program address.
    Transfer { from: usize, to: usize, authority: usize, amount: u64, signer: Option<FundraiserSigner> },
    /// Add `amount` to the total of the fundraiser record in `account`.
    AddToFundraiser { account: usize, amount: u64 },
    /// Take `amount` off the total of the fundraiser record in `account`.
    SubtractFromFundraiser { account: usize, amount: u64 },
    /// Set the amount of the contributor record in `account`.
    SetContributorAmount { account: usize, amount: u64 },
    /// Move all lamports of `account` to `destination` and close `account`.
    CloseInto { account: usize, destination: usize },
}

/// What an instruction does: its effects in order, then its outcome. An effect
/// that fails ends the instruction with its own error.
pub struct Plan {
    pub actions: Vec<Action>,
    pub outcome: Result<(), FundraiserError>,
}

/// A plan taken by its mathematical value.
pub struct PlanSpec {
    pub actions: Seq<Action>,
    pub outcome: Result<(), FundraiserError>,
}

impl View for Plan {
    type V = PlanSpec;

    open spec fn view(&self) -> PlanSpec {
        PlanSpec { actions: self.actions@, outcome: self.outcome }
    }
}

/// Refused before any effect.
pub open spec fn refused(e: FundraiserError) -> PlanSpec {
    PlanSpec { actions: Seq::empty(), outcome: Err(e) }
}

/// The effects `first`, then what `rest` does.
pub open spec fn after(first: Seq<Action>, rest: PlanSpec) -> PlanSpec {
    PlanSpec { actions: first + rest.actions, outcome: rest.outcome }
}

/// The effects `actions`, then success.
pub open spec fn completed(actions: Seq<Action>) -> PlanSpec {
    PlanSpec { actions, outcome: Ok(()) }
}

/// A plan refused before any effect.
pub fn refuse(e: FundraiserError) -> (p: Plan)
    ensures
        p@ == refused(e),
{
    Plan { actions: Vec::new(), outcome: Err(e) }
}

/// A plan that performs `first` and is then refused.
pub fn refuse_after(first: Vec<Action>, e: FundraiserError) -> (p: Plan)
    ensures
        p@ == after(first@, refused(e)),
{
    let p = Plan { actions: first, outcome: Err(e) };
    assert(p@.actions =~= after(first@, refused(e)).actions);
    p
}

/// Bytes of a mint account of the token program.
pub const MINT_LEN: usize = 82;
/// Where a mint's decimals stand: after the authority flag, the authority and the supply.
pub const MINT_DECIMALS_OFFSET: usize = 44;
/// Bytes of a token account of the token program.
pub const TOKEN_ACCOUNT_LEN: usize = 165;
/// Where a token account's amount stands: after the mint and the owner.
pub const TOKEN_ACCOUNT_AMOUNT_OFFSET: usize = 64;

/// What reading `account` as a mint gives: its decimals, or why it is no mint.
pub open spec fn mint_decimals_of(account: AccountSnapshot) -> Result<u8, FundraiserError> {
    if account.data@.len() != MINT_LEN {
        Err(FundraiserError::InvalidAccountData)
    } else if account.owner != TOKEN_PROGRAM_ID {
        Err(FundraiserError::IncorrectProgramId)
    } else {
        Ok(account.data@[MINT_DECIMALS_OFFSET as int])
    }
}

/// What reading `account` as a token account gives: its amount, or why it is
/// no token account.
pub open spec fn token_amount_of(account: AccountSnapshot) -> Result<u64, FundraiserError> {
    if account.data@.len() != TOKEN_ACCOUNT_LEN {
        Err(FundraiserError::InvalidAccountData)
    } else if account.owner != TOKEN_PROGRAM_ID {
        Err(FundraiserError::IncorrectProgramId)
    } else {
        Ok(spec_u64_from_le_bytes(account.data@.subrange(64, 72)))
    }
}

/// Whether two addresses are the same.
pub fn same_address(a: &[u8; 32], b: &[u8; 32]) -> (r: bool)
    ensures
        r == (*a == *b),
        r == (a@ == b@),
{
    let r = same32(a, b);
    proof {
        if r {
            assert(*a =~= *b);
        }
    }
    r
}

/// Whether `account` belongs to the program at `program`.
pub fn owned_by(account: &AccountSnapshot, program: &[u8; 32]) -> (r: bool)
    ensures
        r == (account.owner == *program),
{
    same_address(&account.owner, program)
}

/// Reads the decimals of the mint in `account`: refused unless the account
/// has a mint's size and belongs to the token program.
pub fn mint_decimals(account: &AccountSnapshot) -> (r: Result<u8, FundraiserError>)
    ensures
        r == mint_decimals_of(*account),
{
    if account.data.len() != MINT_LEN {
        return Err(FundraiserError::InvalidAccountData);
    }
    if !owned_by(account, &TOKEN_PROGRAM_ID) {
        return Err(FundraiserError::IncorrectProgramId);
    }
    Ok(account.data[MINT_DECIMALS_OFFSET])
}

/// Reads the amount held by the token account in `account`: refused unless the
/// account has a token account's size and belongs to the token program.
pub fn token_amount(account: &AccountSnapshot) -> (r: Result<u64, FundraiserError>)
    ensures
        r == token_amount_of(*account),
{
    if account.data.len() != TOKEN_ACCOUNT_LEN {
        return Err(FundraiserError::InvalidAccountData);
    }
    if !owned_by(account, &TOKEN_PROGRAM_ID) {
        return Err(FundraiserError::IncorrectProgramId);
    }
    let s = vstd::slice::slice_subrange(account.data.as_slice(), 64, 72);
    Ok(u64_from_le_bytes(s))
}

/// Bytes of storage that every account is charged for besides its data.
pub const ACCOUNT_STORAGE_OVERHEAD: u64 = 128;
/// The largest data an account may hold.
pub const MAX_PERMITTED_DATA_LENGTH: u64 = 10485760;
/// The largest price per byte for which a minimum balance is computed.
pub const MAX_LAMPORTS_PER_BYTE: u64 = 1759197129867;

/// The lamports that make an account of `data_len` bytes exempt from rent.
pub open spec fn minimum_balance_of(lamports_per_byte: u64, data_len: usize) -> int {
    (ACCOUNT_STORAGE_OVERHEAD + data_len) * lamports_per_byte
}

/// The lamports that make an account of `data_len` bytes exempt from rent, at
/// `lamports_per_byte` for each byte of data and of overhead.
pub fn minimum_balance(lamports_per_byte: u64, data_len: usize) -> (r: u64)
    requires
        lamports_per_byte <= MAX_LAMPORTS_PER_BYTE,
        data_len <= MAX_PERMITTED_DATA_LENGTH,
    ensures
        r == minimum_balance_of(lamports_per_byte, data_len),
{
    let bytes = ACCOUNT_STORAGE_OVERHEAD + data_len as u64;
    assert(bytes * lamports_per_byte <= (ACCOUNT_STORAGE_OVERHEAD + MAX_PERMITTED_DATA_LENGTH) * MAX_LAMPORTS_PER_BYTE) by (nonlinear_arith)
        requires
            bytes <= ACCOUNT_STORAGE_OVERHEAD + MAX_PERMITTED_DATA_LENGTH,
            lamports_per_byte <= MAX_LAMPORTS_PER_BYTE,
    ;
    bytes * lamports_per_byte
}

/// The rent-exempt balance of an account of `data_len` bytes at `price`
/// lamports per byte, or the failure that computing it ends in.
pub open spec fn rent_exempt_balance_of(price: u64, data_len: usize) -> Result<u64, FundraiserError> {
    if price > MAX_LAMPORTS_PER_BYTE {
        Err(FundraiserError::RentPriceTooHigh)
    } else {
        Ok(minimum_balance_of(price, data_len) as u64)
    }
}

/// Computes `rent_exempt_balance_of` for an account of at most the largest
/// permitted size.
pub fn rent_exempt_balance(price: u64, data_len: usize) -> (r: Result<u64, FundraiserError>)
    requires
        data_len <= MAX_PERMITTED_DATA_LENGTH,
    ensures
        r == rent_exempt_balance_of(price, data_len),
{
    if price > MAX_LAMPORTS_PER_BYTE {
        Err(FundraiserError::RentPriceTooHigh)
    } else {
        Ok(minimum_balance(price, data_len))
    }
}

/// `base` to the power `exp`, or nothing where that does not fit in 64 bits.
pub fn checked_pow(base: u64, exp: u32) -> (r: Option<u64>)
    ensures
        r is Some <==> pow(base as int, exp as nat) <= u64::MAX,
        r matches Some(v) ==> v == pow(base as int, exp as nat),
{
    let mut acc: u64 = 1;
    let mut i: u32 = 0;
    assert(pow(base as int, 0) == 1) by {
        vstd::arithmetic::power::lemma_pow0(base as int);
    }
    while i < exp
        invariant
            i <= exp,
            acc == pow(base as int, i as nat),
        decreases exp - i,
    {
        proof {
            vstd::arithmetic::power::lemma_pow_adds(base as int, i as nat, 1);
            vstd::arithmetic::power::lemma_pow1(base as int);
        }
        match acc.checked_mul(base) {
            Some(v) => {
                acc = v;
                i = i + 1;
            },
            None => {
                proof {
                    assert(base > 0) by (nonlinear_arith)
                        requires
                            acc * base > u64::MAX,
                    ;
                    lemma_pow_increases(base as nat, (i + 1) as nat, exp as nat);
                }
                return None;
            },
        }
    }
    Some(acc)
}

/// The balance of an account that receives all `source` lamports of a closed
/// account on top of its own `destination`: refused where the sum does not fit.
pub fn close_into_balance(destination: u64, source: u64) -> (r: Result<u64, FundraiserError>)
    ensures
        r is Ok <==> destination + source <= u64::MAX,
        r matches Ok(v) ==> v == destination + source,
        r matches Err(e) ==> e == FundraiserError::Custom(ERR_ARITHMETIC_OVERFLOW),
{
    match destination.checked_add(source) {
        Some(v) => Ok(v),
        None => Err(FundraiserError::Custom(ERR_ARITHMETIC_OVERFLOW)),
    }
}

} // verus!
