use vstd::prelude::*;
use vstd::arithmetic::power::{lemma1_pow, pow};

use crate::account::{token_amount_of, AccountSnapshot, Action, FundraiserSigner, Sysvars};
use crate::entrypoint::process_instruction_spec;
use crate::instructions::check::check_contributions_spec;
use crate::instructions::contribute::{contribute_spec, contribution_amount, contribution_cap, days_elapsed};
use crate::instructions::initialize::{initialize_spec, instruction_amount, MIN_AMOUNT_TO_RAISE};
use crate::instructions::refund::refund_spec;
use crate::state::contributor::{contributor_at, is_contributor_data};
use crate::state::fundraiser::fundraiser_from;

verus! {

/// No instruction takes any effect, nor succeeds, unless its first account
/// (the maker or the contributor acting) signed it.
pub proof fn lemma_effects_need_signature(instruction_data: Seq<u8>, accounts: Seq<AccountSnapshot>, sysvars: Sysvars)
    requires
        process_instruction_spec(instruction_data, accounts, sysvars).actions.len() > 0
            || process_instruction_spec(instruction_data, accounts, sysvars).outcome is Ok,
    ensures
        accounts.len() > 0,
        accounts[0].is_signer,
{
}

/// What the contributor's record holds before a contribution: its amount, or
/// zero where there is no record yet.
pub open spec fn prior_contribution(record: AccountSnapshot) -> u64 {
    if is_contributor_data(record.data@) {
        contributor_at(record.data@).amount
    } else {
        0
    }
}

/// An accepted contribution is above the minimum of one token unit and keeps
/// the contributor's running total within a tenth of the target; it ends by
/// moving the amount into the vault and adding that same amount to the
/// fundraiser's total and to the contributor's record.
pub proof fn lemma_contribution_respects_cap(data: Seq<u8>, accounts: Seq<AccountSnapshot>, sysvars: Sysvars)
    requires
        contribute_spec(data, accounts, sysvars).outcome is Ok,
    ensures
        fundraiser_from(accounts[2].data@) matches Ok(fund) && contribution_cap(fund.amount_to_raise) matches Some(cap) && ({
            let amount = contribution_amount(data);
            let prior = prior_contribution(accounts[3]);
            let acts = contribute_spec(data, accounts, sysvars).actions;
            let n = acts.len();
            &&& 1 < amount <= cap
            &&& prior + amount <= cap
            &&& n >= 3
            &&& acts[n - 3] == Action::Transfer { from: 4, to: 5, authority: 0, amount, signer: None }
            &&& acts[n - 2] == Action::AddToFundraiser { account: 2, amount }
            &&& acts[n - 1] == Action::SetContributorAmount { account: 3, amount: (prior + amount) as u64 }
        }),
{
    match fundraiser_from(accounts[2].data@) {
        Ok(fund) => match crate::account::mint_decimals_of(accounts[1]) {
            Ok(d) => lemma1_pow(d as nat),
            Err(_) => {},
        },
        Err(_) => {},
    }
}

/// A contribution is accepted only while the fundraiser runs: fewer whole
/// days have passed since it started than its duration (both as the clock's
/// day count truncated to a byte).
pub proof fn lemma_contribute_only_while_open(data: Seq<u8>, accounts: Seq<AccountSnapshot>, sysvars: Sysvars)
    requires
        contribute_spec(data, accounts, sysvars).outcome is Ok,
    ensures
        fundraiser_from(accounts[2].data@) matches Ok(fund) && sysvars.unix_timestamp matches Ok(now)
            && days_elapsed(now, fund.time_started) matches Some(days) && fund.duration > days as u8,
{
}

/// A refund is accepted only once the fundraiser has ended with its vault
/// below the target; it pays back exactly the contributor's recorded amount,
/// which is not zero, and takes that amount off the fundraiser's total.
pub proof fn lemma_refund_conditions(accounts: Seq<AccountSnapshot>, sysvars: Sysvars)
    requires
        refund_spec(accounts, sysvars).outcome is Ok,
    ensures
        fundraiser_from(accounts[3].data@) matches Ok(fund) && (sysvars.unix_timestamp matches Ok(now)
            && (days_elapsed(now, fund.time_started) matches Some(days) && fund.duration <= days as u8
            && (token_amount_of(accounts[6]) matches Ok(vault_amount) && vault_amount < fund.amount_to_raise
            && is_contributor_data(accounts[4].data@) && ({
                let refund_amount = contributor_at(accounts[4].data@).amount;
                &&& refund_amount > 0
                &&& refund_spec(accounts, sysvars).actions == seq![
                    Action::Transfer {
                        from: 6,
                        to: 5,
                        authority: 3,
                        amount: refund_amount,
                        signer: Some(FundraiserSigner { maker: fund.maker, bump: fund.bump }),
                    },
                    Action::SubtractFromFundraiser { account: 3, amount: refund_amount },
                    Action::CloseInto { account: 4, destination: 0 },
                ]
            })))),
{
}

/// The maker collects only a fundraiser of their own whose vault holds at
/// least the target, and then collects the vault's whole amount and closes
/// the fundraiser into their account.
pub proof fn lemma_collect_conditions(accounts: Seq<AccountSnapshot>)
    requires
        check_contributions_spec(accounts).outcome is Ok,
    ensures
        fundraiser_from(accounts[2].data@) matches Ok(fund) && (fund.maker == accounts[0].address
            && (token_amount_of(accounts[3]) matches Ok(vault_amount) && (vault_amount >= fund.amount_to_raise && ({
                let acts = check_contributions_spec(accounts).actions;
                let n = acts.len();
                &&& n >= 2
                &&& acts[n - 2] == Action::Transfer {
                    from: 3,
                    to: 4,
                    authority: 2,
                    amount: vault_amount,
                    signer: Some(FundraiserSigner { maker: fund.maker, bump: fund.bump }),
                }
                &&& acts[n - 1] == Action::CloseInto { account: 2, destination: 0 }
            })))),
{
}

/// At one moment a fundraiser accepts either contributions or refunds, never both.
pub proof fn lemma_contribute_and_refund_exclusive(
    data: Seq<u8>,
    contribute_accounts: Seq<AccountSnapshot>,
    refund_accounts: Seq<AccountSnapshot>,
    sysvars: Sysvars,
)
    requires
        contribute_accounts.len() >= 3,
        refund_accounts.len() >= 4,
        contribute_accounts[2].data@ == refund_accounts[3].data@,
    ensures
        !(contribute_spec(data, contribute_accounts, sysvars).outcome is Ok && refund_spec(refund_accounts, sysvars).outcome is Ok),
{
    if contribute_spec(data, contribute_accounts, sysvars).outcome is Ok && refund_spec(refund_accounts, sysvars).outcome is Ok {
        lemma_contribute_only_while_open(data, contribute_accounts, sysvars);
        lemma_refund_conditions(refund_accounts, sysvars);
    }
}

/// For one vault balance, the maker's collection and a contributor's refund
/// are never both accepted.
pub proof fn lemma_collect_and_refund_exclusive(collect_accounts: Seq<AccountSnapshot>, refund_accounts: Seq<AccountSnapshot>, sysvars: Sysvars)
    requires
        collect_accounts.len() >= 4,
        refund_accounts.len() >= 7,
        collect_accounts[2].data@ == refund_accounts[3].data@,
        collect_accounts[3] == refund_accounts[6],
    ensures
        !(check_contributions_spec(collect_accounts).outcome is Ok && refund_spec(refund_accounts, sysvars).outcome is Ok),
{
    if check_contributions_spec(collect_accounts).outcome is Ok && refund_spec(refund_accounts, sysvars).outcome is Ok {
        lemma_collect_conditions(collect_accounts);
        lemma_refund_conditions(refund_accounts, sysvars);
    }
}

/// An opened fundraiser aims above three to the power of the mint's decimals,
/// starts at the clock's time with nothing gathered, and records the signing
/// maker, the mint, the duration asked for and its canonical bump.
pub proof fn lemma_initialize_opens_empty_fundraiser(data: Seq<u8>, accounts: Seq<AccountSnapshot>, sysvars: Sysvars)
    requires
        initialize_spec(data, accounts, sysvars).outcome is Ok,
    ensures
        crate::account::mint_decimals_of(accounts[1]) matches Ok(decimals)
            && (instruction_amount(data) > pow(MIN_AMOUNT_TO_RAISE as int, decimals as nat)
            && (sysvars.unix_timestamp matches Ok(now)
            && (initialize_spec(data, accounts, sysvars).actions[1] matches Action::InitFundraiser { account, fundraiser }
            && account == 2
            && fundraiser.current_amount == 0
            && fundraiser.amount_to_raise == instruction_amount(data)
            && fundraiser.time_started == now
            && fundraiser.maker == accounts[0].address
            && fundraiser.mint_to_raise == accounts[1].address
            && fundraiser.duration == data[8]
            && crate::address::derived_address(
                crate::state::fundraiser::fundraiser_seeds(accounts[0].address@),
                crate::address::ID@,
            ) == Ok::<(Seq<u8>, u8), crate::error::FundraiserError>((accounts[2].address@, fundraiser.bump))))),
{
}

} // verus!
