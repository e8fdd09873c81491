use vstd::prelude::*;

use crate::account::{
    completed, refuse, refused, same_address, token_amount, token_amount_of, AccountSnapshot, Action, FundraiserSigner, Plan,
    PlanSpec, Sysvars,
};
use crate::address::{associated_token_address, associated_token_seeds, derived_address, ASSOCIATED_TOKEN_PROGRAM_ID, ID};
use crate::error::{FundraiserError, ERR_FUNDRAISER_NOT_ENDED, ERR_TARGET_MET};
use crate::instructions::contribute::{days_elapsed, elapsed_days};
use crate::state::contributor::{contributor_at, contributor_seeds, is_contributor_data, Contributor};
use crate::state::fundraiser::{fundraiser_from, fundraiser_seeds, Fundraiser};

verus! {

broadcast use vstd::array::group_array_axioms;

/// What a refund does; `_data` is not read. The accounts are the contributor,
/// the maker, the mint, the fundraiser, the contributor's record, the
/// contributor's token account, the vault, the token program and the system
/// program.
pub open spec fn refund_spec(accounts: Seq<AccountSnapshot>, sysvars: Sysvars) -> PlanSpec {
    if accounts.len() < 9 {
        refused(FundraiserError::NotEnoughAccountKeys)
    } else if !accounts[0].is_signer {
        refused(FundraiserError::MissingRequiredSignature)
    } else {
        match fundraiser_from(accounts[3].data@) {
            Err(e) => refused(e),
            Ok(fund) => if fund.mint_to_raise != accounts[2].address {
                refused(FundraiserError::InvalidAccountData)
            } else {
                match derived_address(fundraiser_seeds(fund.maker@), ID@) {
                    Err(e) => refused(e),
                    Ok(pda) => if accounts[3].address@ != pda.0 {
                        refused(FundraiserError::InvalidSeeds)
                    } else {
                        match sysvars.unix_timestamp {
                            Err(e) => refused(e),
                            Ok(now) => match days_elapsed(now, fund.time_started) {
                                None => refused(FundraiserError::Custom(ERR_FUNDRAISER_NOT_ENDED)),
                                Some(days) => if fund.duration > days as u8 {
                                    refused(FundraiserError::Custom(ERR_FUNDRAISER_NOT_ENDED))
                                } else {
                                    match token_amount_of(accounts[6]) {
                                        Err(e) => refused(e),
                                        Ok(vault_amount) => if vault_amount >= fund.amount_to_raise {
                                            refused(FundraiserError::Custom(ERR_TARGET_MET))
                                        } else {
                                            refund_record_spec(fund, accounts)
                                        },
                                    }
                                },
                            },
                        }
                    },
                }
            },
        }
    }
}

/// The part of a refund that reads the contributor's record and pays it back.
pub open spec fn refund_record_spec(fund: Fundraiser, accounts: Seq<AccountSnapshot>) -> PlanSpec {
    match derived_address(contributor_seeds(accounts[3].address@, accounts[0].address@), ID@) {
        Err(e) => refused(e),
        Ok(expected) => if accounts[4].address@ != expected.0 {
            refused(FundraiserError::InvalidSeeds)
        } else if !is_contributor_data(accounts[4].data@) {
            refused(FundraiserError::InvalidAccountData)
        } else {
            let refund_amount = contributor_at(accounts[4].data@).amount;
            if refund_amount == 0 {
                refused(FundraiserError::InvalidAccountData)
            } else {
                match derived_address(associated_token_seeds(accounts[0].address@, accounts[7].address@, accounts[2].address@), ASSOCIATED_TOKEN_PROGRAM_ID@) {
                    Err(e) => refused(e),
                    Ok(ata) => if accounts[5].address@ != ata.0 {
                        refused(FundraiserError::InvalidSeeds)
                    } else {
                        match derived_address(associated_token_seeds(accounts[3].address@, accounts[7].address@, accounts[2].address@), ASSOCIATED_TOKEN_PROGRAM_ID@) {
                            Err(e) => refused(e),
                            Ok(vault) => if accounts[6].address@ != vault.0 {
                                refused(FundraiserError::InvalidSeeds)
                            } else {
                                completed(seq![
                                    Action::Transfer {
                                        from: 6,
                                        to: 5,
                                        authority: 3,
                                        amount: refund_amount,
                                        signer: Some(FundraiserSigner { maker: fund.maker, bump: fund.bump }),
                                    },
                                    Action::SubtractFromFundraiser { account: 3, amount: refund_amount },
                                    Action::CloseInto { account: 4, destination: 0 },
                                ])
                            },
                        }
                    },
                }
            }
        },
    }
}

fn refund_record(fund: &Fundraiser, accounts: &[AccountSnapshot]) -> (plan: Plan)
    requires
        accounts@.len() >= 9,
    ensures
        plan@ == refund_record_spec(*fund, accounts@),
{
    let contributor = &accounts[0];
    let mint = &accounts[2];
    let fundraiser = &accounts[3];
    let contributor_account = &accounts[4];
    let contributor_ata = &accounts[5];
    let vault = &accounts[6];
    let token_program = &accounts[7];
    let (expected, _) = match Contributor::try_derive_pda(&fundraiser.address, &contributor.address, &ID) {
        Ok(p) => p,
        Err(e) => return refuse(e),
    };
    if !same_address(&contributor_account.address, &expected) {
        return refuse(FundraiserError::InvalidSeeds);
    }
    let cont = match Contributor::from_bytes(contributor_account.data.as_slice()) {
        Ok(c) => c,
        Err(e) => return refuse(e),
    };
    let refund_amount = cont.amount;
    if refund_amount == 0 {
        return refuse(FundraiserError::InvalidAccountData);
    }
    let ata_expected = match associated_token_address(&contributor.address, &token_program.address, &mint.address) {
        Ok(a) => a,
        Err(e) => return refuse(e),
    };
    if !same_address(&contributor_ata.address, &ata_expected) {
        return refuse(FundraiserError::InvalidSeeds);
    }
    let vault_expected = match associated_token_address(&fundraiser.address, &token_program.address, &mint.address) {
        Ok(a) => a,
        Err(e) => return refuse(e),
    };
    if !same_address(&vault.address, &vault_expected) {
        return refuse(FundraiserError::InvalidSeeds);
    }
    let mut actions: Vec<Action> = Vec::new();
    actions.push(Action::Transfer {
        from: 6,
        to: 5,
        authority: 3,
        amount: refund_amount,
        signer: Some(FundraiserSigner { maker: fund.maker, bump: fund.bump }),
    });
    actions.push(Action::SubtractFromFundraiser { account: 3, amount: refund_amount });
    actions.push(Action::CloseInto { account: 4, destination: 0 });
    let plan = Plan { actions, outcome: Ok(()) };
    assert(plan@.actions =~= refund_record_spec(*fund, accounts@).actions);
    plan
}

/// Pays a contributor back: checks the contributor's signature, the
/// fundraiser, that it has ended without the vault reaching its target, the
/// contributor's record and token account, then moves the recorded amount
/// back, takes it off the fundraiser's total and closes the record into the
/// contributor's account.
pub fn refund(_data: &[u8], accounts: &[AccountSnapshot], sysvars: &Sysvars) -> (plan: Plan)
    ensures
        plan@ == refund_spec(accounts@, *sysvars),
{
    if accounts.len() < 9 {
        return refuse(FundraiserError::NotEnoughAccountKeys);
    }
    let contributor = &accounts[0];
    let mint = &accounts[2];
    let fundraiser = &accounts[3];
    let vault = &accounts[6];
    if !contributor.is_signer {
        return refuse(FundraiserError::MissingRequiredSignature);
    }
    let fund = match Fundraiser::from_bytes(fundraiser.data.as_slice()) {
        Ok(f) => f,
        Err(e) => return refuse(e),
    };
    if !same_address(&fund.mint_to_raise, &mint.address) {
        return refuse(FundraiserError::InvalidAccountData);
    }
    let (expected_fundraiser, _) = match Fundraiser::try_derive_pda(&fund.maker, &ID) {
        Ok(p) => p,
        Err(e) => return refuse(e),
    };
    if !same_address(&fundraiser.address, &expected_fundraiser) {
        return refuse(FundraiserError::InvalidSeeds);
    }
    let current_time = match sysvars.unix_timestamp {
        Ok(t) => t,
        Err(e) => return refuse(e),
    };
    let days = match elapsed_days(current_time, fund.time_started) {
        Some(d) => d,
        None => return refuse(FundraiserError::Custom(ERR_FUNDRAISER_NOT_ENDED)),
    };
    if fund.duration > days as u8 {
        return refuse(FundraiserError::Custom(ERR_FUNDRAISER_NOT_ENDED));
    }
    let vault_amount = match token_amount(vault) {
        Ok(a) => a,
        Err(e) => return refuse(e),
    };
    if vault_amount >= fund.amount_to_raise {
        return refuse(FundraiserError::Custom(ERR_TARGET_MET));
    }
    refund_record(&fund, accounts)
}

} // verus!
