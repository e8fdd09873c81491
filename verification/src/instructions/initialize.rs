use vstd::prelude::*;
use vstd::arithmetic::power::pow;
use vstd::bytes::*;

use crate::account::{
    checked_pow, completed, mint_decimals, mint_decimals_of, refuse, refused, rent_exempt_balance, rent_exempt_balance_of,
    same_address, AccountSnapshot, Action, Plan, PlanSpec, Sysvars,
};
use crate::address::{associated_token_address, associated_token_seeds, derived_address, ASSOCIATED_TOKEN_PROGRAM_ID, ID};
use crate::error::{FundraiserError, ERR_INVALID_AMOUNT};
use crate::state::fundraiser::{fundraiser_seeds, Fundraiser, FUNDRAISER_LEN};

verus! {

broadcast use vstd::array::group_array_axioms;

/// The target must be above this base raised to the mint's decimals.
pub const MIN_AMOUNT_TO_RAISE: u64 = 3;

/// The target amount that an initialize instruction carries.
pub open spec fn instruction_amount(data: Seq<u8>) -> u64 {
    spec_u64_from_le_bytes(data.subrange(0, 8))
}

/// What initializing a fundraiser does, with `data` the instruction's bytes
/// after its discriminator: the amount to raise (eight bytes, little-endian)
/// and the duration in days (one byte); the accounts are the maker, the mint,
/// the fundraiser, its vault, the token program, the associated token
/// account program and the system program.
pub open spec fn initialize_spec(data: Seq<u8>, accounts: Seq<AccountSnapshot>, sysvars: Sysvars) -> PlanSpec {
    if accounts.len() < 7 {
        refused(FundraiserError::NotEnoughAccountKeys)
    } else if !accounts[0].is_signer {
        refused(FundraiserError::MissingRequiredSignature)
    } else if data.len() < 9 {
        refused(FundraiserError::InvalidInstructionData)
    } else {
        let maker = accounts[0];
        let mint = accounts[1];
        let fundraiser = accounts[2];
        let vault = accounts[3];
        let amount = instruction_amount(data);
        match mint_decimals_of(mint) {
            Err(e) => refused(e),
            Ok(decimals) => {
                let min_amount = pow(MIN_AMOUNT_TO_RAISE as int, decimals as nat);
                if min_amount > u64::MAX || amount <= min_amount {
                    refused(FundraiserError::Custom(ERR_INVALID_AMOUNT))
                } else {
                    match derived_address(fundraiser_seeds(maker.address@), ID@) {
                        Err(e) => refused(e),
                        Ok(pda) => if fundraiser.address@ != pda.0 {
                            refused(FundraiserError::InvalidSeeds)
                        } else {
                            match derived_address(associated_token_seeds(fundraiser.address@, accounts[4].address@, mint.address@), ASSOCIATED_TOKEN_PROGRAM_ID@) {
                                Err(e) => refused(e),
                                Ok(v) => if vault.address@ != v.0 {
                                    refused(FundraiserError::InvalidSeeds)
                                } else {
                                    match sysvars.unix_timestamp {
                                        Err(e) => refused(e),
                                        Ok(now) => match sysvars.lamports_per_byte {
                                            Err(e) => refused(e),
                                            Ok(price) => match rent_exempt_balance_of(price, FUNDRAISER_LEN) {
                                                Err(e) => refused(e),
                                                Ok(lamports) => completed(seq![
                                                    Action::CreateAccount {
                                                        from: 0,
                                                        to: 2,
                                                        lamports,
                                                        space: FUNDRAISER_LEN as u64,
                                                        owner: ID,
                                                    },
                                                    Action::InitFundraiser {
                                                        account: 2,
                                                        fundraiser: Fundraiser {
                                                            time_started: now,
                                                            amount_to_raise: amount,
                                                            current_amount: 0,
                                                            maker: maker.address,
                                                            mint_to_raise: mint.address,
                                                            bump: pda.1,
                                                            duration: data[8],
                                                        },
                                                    },
                                                    Action::CreateAssociatedTokenAccount {
                                                        funding: 0,
                                                        account: 3,
                                                        wallet: 2,
                                                        mint: 1,
                                                        system_program: 6,
                                                        token_program: 4,
                                                        idempotent: false,
                                                    },
                                                ]),
                                            },
                                        },
                                    }
                                },
                            }
                        },
                    }
                }
            },
        }
    }
}

/// Opens a fundraiser: checks the maker's signature, the target against the
/// mint's decimals and the fundraiser's and vault's addresses, then creates
/// the fundraiser account, writes its record and creates its vault.
pub fn initialize(data: &[u8], accounts: &[AccountSnapshot], sysvars: &Sysvars) -> (plan: Plan)
    ensures
        plan@ == initialize_spec(data@, accounts@, *sysvars),
{
    if accounts.len() < 7 {
        return refuse(FundraiserError::NotEnoughAccountKeys);
    }
    let maker = &accounts[0];
    let mint = &accounts[1];
    let fundraiser = &accounts[2];
    let vault = &accounts[3];
    let token_program = &accounts[4];
    if !maker.is_signer {
        return refuse(FundraiserError::MissingRequiredSignature);
    }
    if data.len() < 9 {
        return refuse(FundraiserError::InvalidInstructionData);
    }
    let amount = u64_from_le_bytes(vstd::slice::slice_subrange(data, 0, 8));
    let duration = data[8];
    let decimals = match mint_decimals(mint) {
        Ok(d) => d,
        Err(e) => return refuse(e),
    };
    let min_amount = match checked_pow(MIN_AMOUNT_TO_RAISE, decimals as u32) {
        Some(m) => m,
        None => return refuse(FundraiserError::Custom(ERR_INVALID_AMOUNT)),
    };
    if amount <= min_amount {
        return refuse(FundraiserError::Custom(ERR_INVALID_AMOUNT));
    }
    let (expected_fundraiser, canonical_bump) = match Fundraiser::try_derive_pda(&maker.address, &ID) {
        Ok(p) => p,
        Err(e) => return refuse(e),
    };
    if !same_address(&fundraiser.address, &expected_fundraiser) {
        return refuse(FundraiserError::InvalidSeeds);
    }
    let vault_expected = match associated_token_address(&fundraiser.address, &token_program.address, &mint.address) {
        Ok(a) => a,
        Err(e) => return refuse(e),
    };
    if !same_address(&vault.address, &vault_expected) {
        return refuse(FundraiserError::InvalidSeeds);
    }
    let time_started = match sysvars.unix_timestamp {
        Ok(t) => t,
        Err(e) => return refuse(e),
    };
    let price = match sysvars.lamports_per_byte {
        Ok(p) => p,
        Err(e) => return refuse(e),
    };
    let fund_state = Fundraiser {
        time_started,
        amount_to_raise: amount,
        current_amount: 0,
        maker: maker.address,
        mint_to_raise: mint.address,
        bump: canonical_bump,
        duration,
    };
    let lamports = match rent_exempt_balance(price, FUNDRAISER_LEN) {
        Ok(l) => l,
        Err(e) => return refuse(e),
    };
    let mut actions: Vec<Action> = Vec::new();
    actions.push(Action::CreateAccount { from: 0, to: 2, lamports, space: FUNDRAISER_LEN as u64, owner: ID });
    actions.push(Action::InitFundraiser { account: 2, fundraiser: fund_state });
    actions.push(Action::CreateAssociatedTokenAccount {
        funding: 0,
        account: 3,
        wallet: 2,
        mint: 1,
        system_program: 6,
        token_program: 4,
        idempotent: false,
    });
    let plan = Plan { actions, outcome: Ok(()) };
    assert(plan@.actions =~= initialize_spec(data@, accounts@, *sysvars).actions);
    plan
}

} // verus!
