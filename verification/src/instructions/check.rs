use vstd::prelude::*;

use crate::account::{
    after, completed, owned_by, refuse, refuse_after, refused, same_address, token_amount, token_amount_of,
    AccountSnapshot, Action, FundraiserSigner, Plan, PlanSpec,
};
use crate::address::{
    associated_token_address, associated_token_seeds, derived_address, token_program_id, ASSOCIATED_TOKEN_PROGRAM_ID, ID,
    TOKEN_PROGRAM_ID,
};
use crate::error::{FundraiserError, ERR_TARGET_NOT_MET};
use crate::state::fundraiser::{fundraiser_from, fundraiser_seeds, Fundraiser};

verus! {

broadcast use vstd::array::group_array_axioms;

/// What the maker's collection does; `_data` is not read. The accounts are the
/// maker, the mint, the fundraiser, the vault, the maker's token account, the
/// token program, the system program and the associated token account program.
pub open spec fn check_contributions_spec(accounts: Seq<AccountSnapshot>) -> PlanSpec {
    if accounts.len() < 8 {
        refused(FundraiserError::NotEnoughAccountKeys)
    } else if !accounts[0].is_signer {
        refused(FundraiserError::MissingRequiredSignature)
    } else {
        match fundraiser_from(accounts[2].data@) {
            Err(e) => refused(e),
            Ok(fund) => if fund.maker != accounts[0].address {
                refused(FundraiserError::InvalidAccountData)
            } else {
                match derived_address(fundraiser_seeds(fund.maker@), ID@) {
                    Err(e) => refused(e),
                    Ok(pda) => if accounts[2].address@ != pda.0 {
                        refused(FundraiserError::InvalidSeeds)
                    } else {
                        match derived_address(associated_token_seeds(accounts[2].address@, accounts[5].address@, accounts[1].address@), ASSOCIATED_TOKEN_PROGRAM_ID@) {
                            Err(e) => refused(e),
                            Ok(vault) => if accounts[3].address@ != vault.0 {
                                refused(FundraiserError::InvalidSeeds)
                            } else {
                                match derived_address(associated_token_seeds(accounts[0].address@, accounts[5].address@, accounts[1].address@), ASSOCIATED_TOKEN_PROGRAM_ID@) {
                                    Err(e) => refused(e),
                                    Ok(maker_ata) => if accounts[4].address@ != maker_ata.0 {
                                        refused(FundraiserError::InvalidSeeds)
                                    } else {
                                        collect_spec(
                                            if accounts[4].owner != TOKEN_PROGRAM_ID {
                                                seq![Action::CreateAssociatedTokenAccount {
                                                    funding: 0,
                                                    account: 4,
                                                    wallet: 0,
                                                    mint: 1,
                                                    system_program: 6,
                                                    token_program: 5,
                                                    idempotent: true,
                                                }]
                                            } else {
                                                Seq::empty()
                                            },
                                            fund,
                                            accounts,
                                        )
                                    },
                                }
                            },
                        }
                    },
                }
            },
        }
    }
}

/// The part of the collection after the maker's token account is in place.
pub open spec fn collect_spec(first: Seq<Action>, fund: Fundraiser, accounts: Seq<AccountSnapshot>) -> PlanSpec {
    match token_amount_of(accounts[3]) {
        Err(e) => after(first, refused(e)),
        Ok(vault_amount) => if vault_amount < fund.amount_to_raise {
            after(first, refused(FundraiserError::Custom(ERR_TARGET_NOT_MET)))
        } else {
            completed(first + seq![
                Action::Transfer {
                    from: 3,
                    to: 4,
                    authority: 2,
                    amount: vault_amount,
                    signer: Some(FundraiserSigner { maker: fund.maker, bump: fund.bump }),
                },
                Action::CloseInto { account: 2, destination: 0 },
            ])
        },
    }
}

fn collect(first: Vec<Action>, fund: &Fundraiser, accounts: &[AccountSnapshot]) -> (plan: Plan)
    requires
        accounts@.len() >= 8,
    ensures
        plan@ == collect_spec(first@, *fund, accounts@),
{
    let vault_amount = match token_amount(&accounts[3]) {
        Ok(a) => a,
        Err(e) => return refuse_after(first, e),
    };
    if vault_amount < fund.amount_to_raise {
        return refuse_after(first, FundraiserError::Custom(ERR_TARGET_NOT_MET));
    }
    let mut actions = first;
    actions.push(Action::Transfer {
        from: 3,
        to: 4,
        authority: 2,
        amount: vault_amount,
        signer: Some(FundraiserSigner { maker: fund.maker, bump: fund.bump }),
    });
    actions.push(Action::CloseInto { account: 2, destination: 0 });
    let plan = Plan { actions, outcome: Ok(()) };
    assert(plan@.actions =~= collect_spec(first@, *fund, accounts@).actions);
    plan
}

/// Lets the maker collect: checks the maker's signature, that the fundraiser
/// is the maker's, the fundraiser's, vault's and maker's token account's
/// addresses, creates the maker's token account where it is not one yet, and,
/// once the vault holds at least the target, moves everything in the vault to
/// the maker and closes the fundraiser into the maker's account.
pub fn check_contributions(_data: &[u8], accounts: &[AccountSnapshot]) -> (plan: Plan)
    ensures
        plan@ == check_contributions_spec(accounts@),
{
    if accounts.len() < 8 {
        return refuse(FundraiserError::NotEnoughAccountKeys);
    }
    let maker = &accounts[0];
    let mint = &accounts[1];
    let fundraiser = &accounts[2];
    let vault = &accounts[3];
    let maker_ata = &accounts[4];
    let token_program = &accounts[5];
    if !maker.is_signer {
        return refuse(FundraiserError::MissingRequiredSignature);
    }
    let fund = match Fundraiser::from_bytes(fundraiser.data.as_slice()) {
        Ok(f) => f,
        Err(e) => return refuse(e),
    };
    if !same_address(&fund.maker, &maker.address) {
        return refuse(FundraiserError::InvalidAccountData);
    }
    let (expected_fundraiser, _) = match Fundraiser::try_derive_pda(&fund.maker, &ID) {
        Ok(p) => p,
        Err(e) => return refuse(e),
    };
    if !same_address(&fundraiser.address, &expected_fundraiser) {
        return refuse(FundraiserError::InvalidSeeds);
    }
    let vault_expected = match associated_token_address(&fundraiser.address, &token_program.address, &mint.address) {
        Ok(a) => a,
        Err(e) => return refuse(e),
    };
    if !same_address(&vault.address, &vault_expected) {
        return refuse(FundraiserError::InvalidSeeds);
    }
    let maker_ata_expected = match associated_token_address(&maker.address, &token_program.address, &mint.address) {
        Ok(a) => a,
        Err(e) => return refuse(e),
    };
    if !same_address(&maker_ata.address, &maker_ata_expected) {
        return refuse(FundraiserError::InvalidSeeds);
    }
    let mut first: Vec<Action> = Vec::new();
    let token = token_program_id();
    if !owned_by(maker_ata, &token) {
        first.push(Action::CreateAssociatedTokenAccount {
            funding: 0,
            account: 4,
            wallet: 0,
            mint: 1,
            system_program: 6,
            token_program: 5,
            idempotent: true,
        });
    }
    proof {
        if accounts@[4].owner != TOKEN_PROGRAM_ID {
            assert(first@ =~= seq![Action::CreateAssociatedTokenAccount {
                funding: 0,
                account: 4,
                wallet: 0,
                mint: 1,
                system_program: 6,
                token_program: 5,
                idempotent: true,
            }]);
        } else {
            assert(first@ =~= Seq::<Action>::empty());
        }
    }
    collect(first, &fund, accounts)
}

} // verus!
