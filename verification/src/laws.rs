use vstd::prelude::*;
use vstd::bytes::*;

use crate::bytes::spliced;
use crate::effects::{added_to_fundraiser, subtracted_from_fundraiser};
use crate::error::FundraiserError;
use crate::state::contributor::{
    contributor_at, contributor_from, contributor_record_bytes, is_contributor_data, Contributor, DISCRIMINATOR_CONTRIBUTOR,
};
use crate::state::fundraiser::{
    credited, debited, fundraiser_at, fundraiser_from, fundraiser_record_bytes, is_fundraiser_data, lemma_fundraiser_at,
    lemma_fundraiser_at_bytes, lemma_fundraiser_record_fields, Fundraiser, DISCRIMINATOR_FUNDRAISER, VERSION,
};

verus! {

/// A fundraiser account written with a header and a record reads back as
/// that record.
pub proof fn lemma_fundraiser_write_then_read(f: Fundraiser, rest: Seq<u8>)
    requires
        rest.len() >= 6,
    ensures
        fundraiser_from(seq![DISCRIMINATOR_FUNDRAISER, VERSION] + fundraiser_record_bytes(f) + rest)
            == Ok::<Fundraiser, FundraiserError>(f),
{
    let data = seq![DISCRIMINATOR_FUNDRAISER, VERSION] + fundraiser_record_bytes(f) + rest;
    lemma_fundraiser_record_fields(f);
    assert(data.subrange(2, 92) =~= fundraiser_record_bytes(f));
    lemma_fundraiser_at(data, f);
}

/// Writing back the record that a fundraiser account reads as leaves the
/// account's bytes as they were.
pub proof fn lemma_fundraiser_read_then_write(data: Seq<u8>)
    requires
        is_fundraiser_data(data),
    ensures
        spliced(data, 2, fundraiser_record_bytes(fundraiser_at(data))) == data,
{
    lemma_fundraiser_at_bytes(data);
    lemma_fundraiser_record_fields(fundraiser_at(data));
    assert(spliced(data, 2, fundraiser_record_bytes(fundraiser_at(data))) =~= data);
}

/// A contributor account written with a header and a record reads back as
/// that record.
pub proof fn lemma_contributor_write_then_read(c: Contributor, version: u8, rest: Seq<u8>)
    ensures
        contributor_from(seq![DISCRIMINATOR_CONTRIBUTOR, version] + contributor_record_bytes(c) + rest)
            == Ok::<Contributor, FundraiserError>(c),
{
    lemma_auto_spec_u64_to_from_le_bytes();
    let data = seq![DISCRIMINATOR_CONTRIBUTOR, version] + contributor_record_bytes(c) + rest;
    assert(data.subrange(2, 10) =~= contributor_record_bytes(c));
}

/// Writing back the record that a contributor account reads as leaves the
/// account's bytes as they were.
pub proof fn lemma_contributor_read_then_write(data: Seq<u8>)
    requires
        is_contributor_data(data),
    ensures
        spliced(data, 2, contributor_record_bytes(contributor_at(data))) == data,
{
    lemma_auto_spec_u64_to_from_le_bytes();
    assert(spec_u64_to_le_bytes(spec_u64_from_le_bytes(data.subrange(2, 10))) == data.subrange(2, 10));
    assert(spliced(data, 2, contributor_record_bytes(contributor_at(data))) =~= data);
}

/// Taking off a fundraiser's total what was just added to it gives back the
/// fundraiser as it was.
pub proof fn lemma_credit_then_debit(f: Fundraiser, amount: u64)
    requires
        credited(f, amount) is Some,
    ensures
        debited(credited(f, amount).unwrap(), amount) == Some(f),
{
}

/// Adding to a fundraiser's total never changes anything else in it.
pub proof fn lemma_credit_keeps_other_fields(f: Fundraiser, amount: u64)
    requires
        credited(f, amount) is Some,
    ensures
        ({
            let g = credited(f, amount).unwrap();
            &&& g.current_amount == f.current_amount + amount
            &&& g.time_started == f.time_started
            &&& g.amount_to_raise == f.amount_to_raise
            &&& g.maker == f.maker
            &&& g.mint_to_raise == f.mint_to_raise
            &&& g.bump == f.bump
            &&& g.duration == f.duration
        }),
{
}

/// After an accepted addition, the fundraiser account reads as the record
/// with the amount added to its total.
pub proof fn lemma_added_reads_back(data: Seq<u8>, amount: u64)
    requires
        added_to_fundraiser(data, amount) is Ok,
    ensures
        credited(fundraiser_at(data), amount) is Some,
        fundraiser_from(added_to_fundraiser(data, amount).unwrap())
            == Ok::<Fundraiser, FundraiserError>(credited(fundraiser_at(data), amount).unwrap()),
{
    let g = credited(fundraiser_at(data), amount).unwrap();
    let d = added_to_fundraiser(data, amount).unwrap();
    lemma_fundraiser_record_fields(g);
    assert(d.subrange(2, 92) =~= fundraiser_record_bytes(g));
    assert(d[0] == data[0]);
    lemma_fundraiser_at(d, g);
}

/// After an accepted subtraction, the fundraiser account reads as the record
/// with the amount taken off its total.
pub proof fn lemma_subtracted_reads_back(data: Seq<u8>, amount: u64)
    requires
        subtracted_from_fundraiser(data, amount) is Ok,
    ensures
        debited(fundraiser_at(data), amount) is Some,
        fundraiser_from(subtracted_from_fundraiser(data, amount).unwrap())
            == Ok::<Fundraiser, FundraiserError>(debited(fundraiser_at(data), amount).unwrap()),
{
    let g = debited(fundraiser_at(data), amount).unwrap();
    let d = subtracted_from_fundraiser(data, amount).unwrap();
    lemma_fundraiser_record_fields(g);
    assert(d.subrange(2, 92) =~= fundraiser_record_bytes(g));
    assert(d[0] == data[0]);
    lemma_fundraiser_at(d, g);
}

/// In a fundraiser account, adding an amount to the total and then taking the
/// same amount off leaves the account's bytes as they were.
pub proof fn lemma_add_then_subtract_restores(data: Seq<u8>, amount: u64)
    requires
        added_to_fundraiser(data, amount) is Ok,
    ensures
        subtracted_from_fundraiser(added_to_fundraiser(data, amount).unwrap(), amount) == Ok::<Seq<u8>, FundraiserError>(data),
{
    let f = fundraiser_at(data);
    let g = credited(f, amount).unwrap();
    let d = added_to_fundraiser(data, amount).unwrap();
    lemma_fundraiser_record_fields(g);
    assert(d == spliced(data, 2, fundraiser_record_bytes(g)));
    assert(d.len() == data.len());
    assert(d[0] == data[0]);
    assert(d.subrange(2, 92) =~= fundraiser_record_bytes(g));
    lemma_fundraiser_at(d, g);
    assert(debited(g, amount) == Some(f));
    lemma_fundraiser_read_then_write(data);
    lemma_fundraiser_record_fields(f);
    assert(spliced(d, 2, fundraiser_record_bytes(f)) =~= spliced(data, 2, fundraiser_record_bytes(f)));
}

} // verus!
