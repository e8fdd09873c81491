use vstd::prelude::*;
use vstd::arithmetic::power::pow;
use vstd::bytes::*;

use crate::account::{
    after, checked_pow, completed, mint_decimals, mint_decimals_of, owned_by, refuse, refuse_after, refused,
    rent_exempt_balance, rent_exempt_balance_of, same_address, AccountSnapshot, Action, Plan, PlanSpec, Sysvars,
};
use crate::address::{
    associated_token_address, associated_token_seeds, derived_address, system_program_id, ASSOCIATED_TOKEN_PROGRAM_ID, ID,
    SYSTEM_PROGRAM_ID,
};
use crate::error::{
    FundraiserError, ERR_ARITHMETIC_OVERFLOW, ERR_CONTRIBUTION_TOO_BIG, ERR_CONTRIBUTION_TOO_SMALL, ERR_FUNDRAISER_ENDED,
    ERR_MAXIMUM_CONTRIBUTIONS_REACHED,
};
use crate::state::contributor::{
    contributor_at, contributor_seeds, is_contributor_data, Contributor, CONTRIBUTOR_LEN,
};
use crate::state::fundraiser::{fundraiser_from, fundraiser_seeds, Fundraiser};

verus! {

broadcast use vstd::array::group_array_axioms;

/// Seconds in a day.
pub const SECONDS_TO_DAYS: i64 = 86400;
/// A contributor may give at most this percentage of the target in all.
pub const MAX_CONTRIBUTION_PERCENTAGE: u64 = 10;
/// The denominator of a percentage.
pub const PERCENTAGE_SCALER: u64 = 100;

/// Whole days from `started` to `now`, truncated toward zero; nothing where
/// the difference of the two timestamps does not fit in 64 bits.
pub open spec fn days_elapsed(now: i64, started: i64) -> Option<i64> {
    let d = now - started;
    if d < i64::MIN || d > i64::MAX {
        None
    } else if d >= 0 {
        Some((d / SECONDS_TO_DAYS as int) as i64)
    } else {
        Some((-((-d) / SECONDS_TO_DAYS as int)) as i64)
    }
}

/// Whole days from `started` to `now`, as the fundraiser's clock counts them.
pub fn elapsed_days(now: i64, started: i64) -> (r: Option<i64>)
    ensures
        r == days_elapsed(now, started),
{
    match now.checked_sub(started) {
        Some(d) => d.checked_div(SECONDS_TO_DAYS),
        None => None,
    }
}

/// The most that one contributor may give in all to a fundraiser aiming for
/// `amount_to_raise`, or nothing where the computation overflows.
pub open spec fn contribution_cap(amount_to_raise: u64) -> Option<u64> {
    if amount_to_raise * MAX_CONTRIBUTION_PERCENTAGE > u64::MAX {
        None
    } else {
        Some(((amount_to_raise * MAX_CONTRIBUTION_PERCENTAGE) / PERCENTAGE_SCALER as int) as u64)
    }
}

/// Computes `contribution_cap`.
pub fn max_contribution(amount_to_raise: u64) -> (r: Option<u64>)
    ensures
        r == contribution_cap(amount_to_raise),
{
    match amount_to_raise.checked_mul(MAX_CONTRIBUTION_PERCENTAGE) {
        Some(m) => m.checked_div(PERCENTAGE_SCALER),
        None => None,
    }
}

/// The amount that a contribute instruction carries.
pub open spec fn contribution_amount(data: Seq<u8>) -> u64 {
    spec_u64_from_le_bytes(data.subrange(0, 8))
}

/// What contributing does, with `data` the instruction's bytes after its
/// discriminator (the amount, eight bytes little-endian); the accounts are
/// the contributor, the mint, the fundraiser, the contributor's record, the
/// contributor's token account, the vault, the token program and the system
/// program.
pub open spec fn contribute_spec(data: Seq<u8>, accounts: Seq<AccountSnapshot>, sysvars: Sysvars) -> PlanSpec {
    if accounts.len() < 8 {
        refused(FundraiserError::NotEnoughAccountKeys)
    } else if !accounts[0].is_signer {
        refused(FundraiserError::MissingRequiredSignature)
    } else if data.len() < 8 {
        refused(FundraiserError::InvalidInstructionData)
    } else {
        let amount = contribution_amount(data);
        match fundraiser_from(accounts[2].data@) {
            Err(e) => refused(e),
            Ok(fund) => if fund.mint_to_raise != accounts[1].address {
                refused(FundraiserError::InvalidAccountData)
            } else {
                match derived_address(fundraiser_seeds(fund.maker@), ID@) {
                    Err(e) => refused(e),
                    Ok(pda) => if accounts[2].address@ != pda.0 {
                        refused(FundraiserError::InvalidSeeds)
                    } else {
                        match mint_decimals_of(accounts[1]) {
                            Err(e) => refused(e),
                            Ok(decimals) => if amount <= pow(1, decimals as nat) {
                                refused(FundraiserError::Custom(ERR_CONTRIBUTION_TOO_SMALL))
                            } else {
                                match contribution_cap(fund.amount_to_raise) {
                                    None => refused(FundraiserError::Custom(ERR_ARITHMETIC_OVERFLOW)),
                                    Some(cap) => if amount > cap {
                                        refused(FundraiserError::Custom(ERR_CONTRIBUTION_TOO_BIG))
                                    } else {
                                        match sysvars.unix_timestamp {
                                            Err(e) => refused(e),
                                            Ok(now) => match days_elapsed(now, fund.time_started) {
                                                None => refused(FundraiserError::Custom(ERR_FUNDRAISER_ENDED)),
                                                Some(days) => if fund.duration <= days as u8 {
                                                    refused(FundraiserError::Custom(ERR_FUNDRAISER_ENDED))
                                                } else {
                                                    contribute_record_spec(amount, cap, accounts, sysvars)
                                                },
                                            },
                                        }
                                    },
                                }
                            },
                        }
                    },
                }
            },
        }
    }
}

/// The part of contributing that finds or creates the contributor's record.
pub open spec fn contribute_record_spec(amount: u64, cap: u64, accounts: Seq<AccountSnapshot>, sysvars: Sysvars) -> PlanSpec {
    match derived_address(contributor_seeds(accounts[2].address@, accounts[0].address@), ID@) {
        Err(e) => refused(e),
        Ok(expected) => if accounts[3].address@ != expected.0 {
            refused(FundraiserError::InvalidSeeds)
        } else if is_contributor_data(accounts[3].data@) {
            contribute_transfer_spec(Seq::empty(), contributor_at(accounts[3].data@).amount, amount, cap, accounts)
        } else if accounts[3].owner != SYSTEM_PROGRAM_ID {
            refused(FundraiserError::InvalidAccountOwner)
        } else {
            match sysvars.lamports_per_byte {
                Err(e) => refused(e),
                Ok(price) => match rent_exempt_balance_of(price, CONTRIBUTOR_LEN) {
                    Err(e) => refused(e),
                    Ok(lamports) => contribute_transfer_spec(
                        seq![
                            Action::CreateAccount {
                                from: 0,
                                to: 3,
                                lamports,
                                space: CONTRIBUTOR_LEN as u64,
                                owner: ID,
                            },
                            Action::InitContributor { account: 3, contributor: Contributor { amount: 0 } },
                        ],
                        0,
                        amount,
                        cap,
                        accounts,
                    ),
                },
            }
        },
    }
}

/// The part of contributing after the record is in place: `first` are the
/// effects already planned and `current` is the record's amount.
pub open spec fn contribute_transfer_spec(first: Seq<Action>, current: u64, amount: u64, cap: u64, accounts: Seq<AccountSnapshot>) -> PlanSpec {
    if current > cap {
        after(first, refused(FundraiserError::Custom(ERR_MAXIMUM_CONTRIBUTIONS_REACHED)))
    } else if current + amount > u64::MAX {
        after(first, refused(FundraiserError::Custom(ERR_ARITHMETIC_OVERFLOW)))
    } else if current + amount > cap {
        after(first, refused(FundraiserError::Custom(ERR_MAXIMUM_CONTRIBUTIONS_REACHED)))
    } else {
        match derived_address(associated_token_seeds(accounts[0].address@, accounts[6].address@, accounts[1].address@), ASSOCIATED_TOKEN_PROGRAM_ID@) {
            Err(e) => after(first, refused(e)),
            Ok(source) => if accounts[4].address@ != source.0 {
                after(first, refused(FundraiserError::InvalidSeeds))
            } else {
                match derived_address(associated_token_seeds(accounts[2].address@, accounts[6].address@, accounts[1].address@), ASSOCIATED_TOKEN_PROGRAM_ID@) {
                    Err(e) => after(first, refused(e)),
                    Ok(vault) => if accounts[5].address@ != vault.0 {
                        after(first, refused(FundraiserError::InvalidSeeds))
                    } else {
                        completed(first + seq![
                            Action::Transfer { from: 4, to: 5, authority: 0, amount, signer: None },
                            Action::AddToFundraiser { account: 2, amount },
                            Action::SetContributorAmount { account: 3, amount: (current + amount) as u64 },
                        ])
                    },
                }
            },
        }
    }
}

/// The checks and effects after the contributor's record is in place.
fn contribute_transfer(first: Vec<Action>, current: u64, amount: u64, cap: u64, accounts: &[AccountSnapshot]) -> (plan: Plan)
    requires
        accounts@.len() >= 8,
    ensures
        plan@ == contribute_transfer_spec(first@, current, amount, cap, accounts@),
{
    if current > cap {
        return refuse_after(first, FundraiserError::Custom(ERR_MAXIMUM_CONTRIBUTIONS_REACHED));
    }
    let new_total = match current.checked_add(amount) {
        Some(t) => t,
        None => return refuse_after(first, FundraiserError::Custom(ERR_ARITHMETIC_OVERFLOW)),
    };
    if new_total > cap {
        return refuse_after(first, FundraiserError::Custom(ERR_MAXIMUM_CONTRIBUTIONS_REACHED));
    }
    let contributor = &accounts[0];
    let mint = &accounts[1];
    let fundraiser = &accounts[2];
    let contributor_ata = &accounts[4];
    let vault = &accounts[5];
    let token_program = &accounts[6];
    let ata_expected = match associated_token_address(&contributor.address, &token_program.address, &mint.address) {
        Ok(a) => a,
        Err(e) => return refuse_after(first, e),
    };
    if !same_address(&contributor_ata.address, &ata_expected) {
        return refuse_after(first, FundraiserError::InvalidSeeds);
    }
    let vault_expected = match associated_token_address(&fundraiser.address, &token_program.address, &mint.address) {
        Ok(a) => a,
        Err(e) => return refuse_after(first, e),
    };
    if !same_address(&vault.address, &vault_expected) {
        return refuse_after(first, FundraiserError::InvalidSeeds);
    }
    let mut actions = first;
    actions.push(Action::Transfer { from: 4, to: 5, authority: 0, amount, signer: None });
    actions.push(Action::AddToFundraiser { account: 2, amount });
    actions.push(Action::SetContributorAmount { account: 3, amount: new_total });
    let plan = Plan { actions, outcome: Ok(()) };
    assert(plan@.actions =~= contribute_transfer_spec(first@, current, amount, cap, accounts@).actions);
    plan
}

/// Finds the contributor's record, or creates it with a zero amount.
fn contribute_record(amount: u64, cap: u64, accounts: &[AccountSnapshot], sysvars: &Sysvars) -> (plan: Plan)
    requires
        accounts@.len() >= 8,
    ensures
        plan@ == contribute_record_spec(amount, cap, accounts@, *sysvars),
{
    let contributor = &accounts[0];
    let fundraiser = &accounts[2];
    let record = &accounts[3];
    let (expected, _) = match Contributor::try_derive_pda(&fundraiser.address, &contributor.address, &ID) {
        Ok(p) => p,
        Err(e) => return refuse(e),
    };
    if !same_address(&record.address, &expected) {
        return refuse(FundraiserError::InvalidSeeds);
    }
    let existing = match Contributor::from_bytes(record.data.as_slice()) {
        Ok(c) => Some(c),
        Err(_) => None,
    };
    match existing {
        Some(c) => {
            let first: Vec<Action> = Vec::new();
            assert(first@ =~= Seq::<Action>::empty());
            contribute_transfer(first, c.amount, amount, cap, accounts)
        },
        None => {
            let system = system_program_id();
            if !owned_by(record, &system) {
                return refuse(FundraiserError::InvalidAccountOwner);
            }
            let price = match sysvars.lamports_per_byte {
                Ok(p) => p,
                Err(e) => return refuse(e),
            };
            let lamports = match rent_exempt_balance(price, CONTRIBUTOR_LEN) {
                Ok(l) => l,
                Err(e) => return refuse(e),
            };
            let mut first: Vec<Action> = Vec::new();
            first.push(Action::CreateAccount { from: 0, to: 3, lamports, space: CONTRIBUTOR_LEN as u64, owner: ID });
            first.push(Action::InitContributor { account: 3, contributor: Contributor { amount: 0 } });
            let ghost planned = first@;
            let plan = contribute_transfer(first, 0, amount, cap, accounts);
            assert(planned =~= seq![
                Action::CreateAccount { from: 0, to: 3, lamports, space: CONTRIBUTOR_LEN as u64, owner: ID },
                Action::InitContributor { account: 3, contributor: Contributor { amount: 0 } },
            ]);
            plan
        },
    }
}

/// Records a contribution: checks the contributor's signature, the
/// fundraiser, the amount against the minimum and the per-contributor cap and
/// the fundraiser's end, creates the contributor's record where needed, then
/// moves the tokens into the vault and adds the amount to both totals.
pub fn contribute(data: &[u8], accounts: &[AccountSnapshot], sysvars: &Sysvars) -> (plan: Plan)
    ensures
        plan@ == contribute_spec(data@, accounts@, *sysvars),
{
    if accounts.len() < 8 {
        return refuse(FundraiserError::NotEnoughAccountKeys);
    }
    let contributor = &accounts[0];
    let mint = &accounts[1];
    let fundraiser = &accounts[2];
    if !contributor.is_signer {
        return refuse(FundraiserError::MissingRequiredSignature);
    }
    if data.len() < 8 {
        return refuse(FundraiserError::InvalidInstructionData);
    }
    let amount = u64_from_le_bytes(vstd::slice::slice_subrange(data, 0, 8));
    let fund = match Fundraiser::from_bytes(fundraiser.data.as_slice()) {
        Ok(f) => f,
        Err(e) => return refuse(e),
    };
    if !same_address(&fund.mint_to_raise, &mint.address) {
        return refuse(FundraiserError::InvalidAccountData);
    }
    let (expected_fundraiser, _) = match Fundraiser::try_derive_pda(&fund.maker, &ID) {
        Ok(p) => p,
        Err(e) => return refuse(e),
    };
    if !same_address(&fundraiser.address, &expected_fundraiser) {
        return refuse(FundraiserError::InvalidSeeds);
    }
    let decimals = match mint_decimals(mint) {
        Ok(d) => d,
        Err(e) => return refuse(e),
    };
    let min_contribution = match checked_pow(1, decimals as u32) {
        Some(m) => m,
        None => return refuse(FundraiserError::Custom(ERR_CONTRIBUTION_TOO_SMALL)),
    };
    if amount <= min_contribution {
        return refuse(FundraiserError::Custom(ERR_CONTRIBUTION_TOO_SMALL));
    }
    let max_allowed = match max_contribution(fund.amount_to_raise) {
        Some(m) => m,
        None => return refuse(FundraiserError::Custom(ERR_ARITHMETIC_OVERFLOW)),
    };
    if amount > max_allowed {
        return refuse(FundraiserError::Custom(ERR_CONTRIBUTION_TOO_BIG));
    }
    let current_time = match sysvars.unix_timestamp {
        Ok(t) => t,
        Err(e) => return refuse(e),
    };
    let days = match elapsed_days(current_time, fund.time_started) {
        Some(d) => d,
        None => return refuse(FundraiserError::Custom(ERR_FUNDRAISER_ENDED)),
    };
    if fund.duration <= days as u8 {
        return refuse(FundraiserError::Custom(ERR_FUNDRAISER_ENDED));
    }
    contribute_record(amount, max_allowed, accounts, sysvars)
}

} // verus!
