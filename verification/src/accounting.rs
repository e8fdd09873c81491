use vstd::prelude::*;

use crate::account::{AccountSnapshot, Action, Sysvars};
use crate::effects::{added_to_fundraiser, subtracted_from_fundraiser};
use crate::error::{FundraiserError, ERR_ARITHMETIC_OVERFLOW};
use crate::guarantees::{lemma_contribution_respects_cap, lemma_refund_conditions, prior_contribution};
use crate::instructions::contribute::{contribute_spec, contribution_amount};
use crate::instructions::refund::refund_spec;
use crate::laws::{lemma_add_then_subtract_restores, lemma_added_reads_back, lemma_subtracted_reads_back};
use crate::state::contributor::{contributor_at, contributor_from, is_contributor_data, Contributor};
use crate::state::fundraiser::{fundraiser_at, fundraiser_from};

verus! {

/// The sum of the amounts held by a fundraiser's contributor records.
pub open spec fn total_of(amounts: Seq<u64>) -> int
    decreases amounts.len(),
{
    if amounts.len() == 0 {
        0
    } else {
        total_of(amounts.drop_last()) + amounts.last()
    }
}

/// A sum of amounts is never negative.
pub proof fn lemma_total_of_nonnegative(s: Seq<u64>)
    ensures
        total_of(s) >= 0,
    decreases s.len(),
{
    if s.len() > 0 {
        lemma_total_of_nonnegative(s.drop_last());
    }
}

/// Replacing one amount changes the sum by the difference.
pub proof fn lemma_total_of_update(s: Seq<u64>, i: int, v: u64)
    requires
        0 <= i < s.len(),
    ensures
        total_of(s.update(i, v)) == total_of(s) - s[i] + v,
    decreases s.len(),
{
    if i == s.len() - 1 {
        assert(s.update(i, v).drop_last() =~= s.drop_last());
    } else {
        assert(s.update(i, v).drop_last() =~= s.drop_last().update(i, v));
        lemma_total_of_update(s.drop_last(), i, v);
    }
}

/// Appending an amount adds it to the sum.
pub proof fn lemma_total_of_push(s: Seq<u64>, v: u64)
    ensures
        total_of(s.push(v)) == total_of(s) + v,
{
    assert(s.push(v).drop_last() =~= s);
}

/// Removing an amount takes it off the sum.
pub proof fn lemma_total_of_remove(s: Seq<u64>, i: int)
    requires
        0 <= i < s.len(),
    ensures
        total_of(s.remove(i)) == total_of(s) - s[i],
    decreases s.len(),
{
    if i == s.len() - 1 {
        assert(s.remove(i) =~= s.drop_last());
    } else {
        assert(s.remove(i).drop_last() =~= s.drop_last().remove(i));
        lemma_total_of_remove(s.drop_last(), i);
    }
}

/// The amounts of a fundraiser's records after a contribution that leaves
/// `new_amount` in the record at `i`: that record updated where it existed
/// (`i` names one of them), a new record appended where it did not.
pub open spec fn records_after_contribution(records: Seq<u64>, i: int, new_amount: u64) -> Seq<u64> {
    if i < records.len() {
        records.update(i, new_amount)
    } else {
        records.push(new_amount)
    }
}

/// A fundraiser's total is the sum of its contributor records' amounts, and
/// an accepted contribution keeps it so: it raises the one contributor's
/// record and the total by the same amount. Where adding to the total
/// overflows, the contribution fails at that step.
pub proof fn lemma_contribution_keeps_total_equal_to_records(
    data: Seq<u8>,
    accounts: Seq<AccountSnapshot>,
    sysvars: Sysvars,
    records: Seq<u64>,
    i: int,
)
    requires
        contribute_spec(data, accounts, sysvars).outcome is Ok,
        fundraiser_from(accounts[2].data@) matches Ok(fund) && fund.current_amount == total_of(records),
        0 <= i <= records.len(),
        (i < records.len()) == is_contributor_data(accounts[3].data@),
        i < records.len() ==> records[i] == contributor_at(accounts[3].data@).amount,
    ensures
        ({
            let amount = contribution_amount(data);
            let new_amount = (prior_contribution(accounts[3]) + amount) as u64;
            let acts = contribute_spec(data, accounts, sysvars).actions;
            &&& acts[acts.len() - 1] == Action::SetContributorAmount { account: 3, amount: new_amount }
            &&& acts[acts.len() - 2] == Action::AddToFundraiser { account: 2, amount }
            &&& match added_to_fundraiser(accounts[2].data@, amount) {
                Ok(after) => fundraiser_from(after) matches Ok(g)
                    && g.current_amount == total_of(records_after_contribution(records, i, new_amount)),
                Err(e) => e == FundraiserError::Custom(ERR_ARITHMETIC_OVERFLOW)
                    && fundraiser_at(accounts[2].data@).current_amount + amount > u64::MAX,
            }
        }),
{
    lemma_contribution_respects_cap(data, accounts, sysvars);
    let amount = contribution_amount(data);
    let new_amount = (prior_contribution(accounts[3]) + amount) as u64;
    if added_to_fundraiser(accounts[2].data@, amount) is Ok {
        lemma_added_reads_back(accounts[2].data@, amount);
        if i < records.len() {
            lemma_total_of_update(records, i, new_amount);
        } else {
            lemma_total_of_push(records, new_amount);
        }
    }
}

/// An accepted refund keeps the total equal to the sum of the records: it
/// takes the refunded record's whole amount off the total, and that record
/// is closed. The subtraction never fails where the invariant held.
pub proof fn lemma_refund_keeps_total_equal_to_records(
    accounts: Seq<AccountSnapshot>,
    sysvars: Sysvars,
    records: Seq<u64>,
    i: int,
)
    requires
        refund_spec(accounts, sysvars).outcome is Ok,
        fundraiser_from(accounts[3].data@) matches Ok(fund) && fund.current_amount == total_of(records),
        0 <= i < records.len(),
        records[i] == contributor_at(accounts[4].data@).amount,
    ensures
        ({
            let refunded = contributor_at(accounts[4].data@).amount;
            let acts = refund_spec(accounts, sysvars).actions;
            &&& acts[1] == Action::SubtractFromFundraiser { account: 3, amount: refunded }
            &&& acts[2] == Action::CloseInto { account: 4, destination: 0 }
            &&& subtracted_from_fundraiser(accounts[3].data@, refunded) matches Ok(after)
            &&& fundraiser_from(after) matches Ok(g)
            &&& g.current_amount == total_of(records.remove(i))
        }),
{
    lemma_refund_conditions(accounts, sysvars);
    lemma_total_of_remove(records, i);
    lemma_total_of_nonnegative(records.remove(i));
    let refunded = contributor_at(accounts[4].data@).amount;
    assert(subtracted_from_fundraiser(accounts[3].data@, refunded) is Ok);
    lemma_subtracted_reads_back(accounts[3].data@, refunded);
}

/// A first contribution followed by its refund puts the fundraiser back as it
/// was: the refund moves back out of the vault exactly the tokens that the
/// contribution moved in, and takes exactly that amount off the total that
/// the contribution raised, leaving the fundraiser account's bytes as before.
pub proof fn lemma_refund_undoes_first_contribution(
    data: Seq<u8>,
    contribute_accounts: Seq<AccountSnapshot>,
    contribute_sysvars: Sysvars,
    refund_accounts: Seq<AccountSnapshot>,
    refund_sysvars: Sysvars,
)
    requires
        contribute_spec(data, contribute_accounts, contribute_sysvars).outcome is Ok,
        !is_contributor_data(contribute_accounts[3].data@),
        added_to_fundraiser(contribute_accounts[2].data@, contribution_amount(data)) is Ok,
        refund_spec(refund_accounts, refund_sysvars).outcome is Ok,
        refund_accounts[3].data@ == added_to_fundraiser(contribute_accounts[2].data@, contribution_amount(data)).unwrap(),
        contributor_from(refund_accounts[4].data@) == Ok::<Contributor, FundraiserError>(Contributor { amount: contribution_amount(data) }),
    ensures
        ({
            let amount = contribution_amount(data);
            let c = contribute_spec(data, contribute_accounts, contribute_sysvars).actions;
            let r = refund_spec(refund_accounts, refund_sysvars).actions;
            &&& c[c.len() - 3] matches Action::Transfer { amount: moved_in, .. } && moved_in == amount
            &&& c[c.len() - 1] == Action::SetContributorAmount { account: 3, amount }
            &&& r[0] matches Action::Transfer { amount: moved_out, .. } && moved_out == amount
            &&& r[1] == Action::SubtractFromFundraiser { account: 3, amount }
            &&& subtracted_from_fundraiser(refund_accounts[3].data@, amount)
                == Ok::<Seq<u8>, FundraiserError>(contribute_accounts[2].data@)
        }),
{
    lemma_contribution_respects_cap(data, contribute_accounts, contribute_sysvars);
    lemma_refund_conditions(refund_accounts, refund_sysvars);
    lemma_add_then_subtract_restores(contribute_accounts[2].data@, contribution_amount(data));
}

/// No contributor is refunded twice: an accepted refund ends by closing the
/// contributor's record, and a refund whose record holds no data (as closing
/// leaves it) is refused before any effect.
pub proof fn lemma_refund_only_once(
    accounts: Seq<AccountSnapshot>,
    sysvars: Sysvars,
    later: Seq<AccountSnapshot>,
    later_sysvars: Sysvars,
)
    requires
        refund_spec(accounts, sysvars).outcome is Ok,
        later.len() > 4,
        later[4].data@.len() == 0,
    ensures
        refund_spec(accounts, sysvars).actions.last() == (Action::CloseInto { account: 4, destination: 0 }),
        refund_spec(later, later_sysvars).outcome is Err,
        refund_spec(later, later_sysvars).actions.len() == 0,
{
    lemma_refund_conditions(accounts, sysvars);
}

} // verus!
