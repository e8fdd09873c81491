use vstd::prelude::*;

use crate::bytes::spliced;
use crate::error::FundraiserError;
use crate::state::contributor::{contributor_from, contributor_record_bytes, Contributor};
use crate::state::fundraiser::{credited, debited, fundraiser_from, fundraiser_record_bytes, Fundraiser};

verus! {

/// What adding `amount` to the fundraiser record in `data` leaves there, or
/// why it is refused.
pub open spec fn added_to_fundraiser(data: Seq<u8>, amount: u64) -> Result<Seq<u8>, FundraiserError> {
    match fundraiser_from(data) {
        Err(e) => Err(e),
        Ok(f) => match credited(f, amount) {
            None => Err(FundraiserError::Custom(crate::error::ERR_ARITHMETIC_OVERFLOW)),
            Some(g) => Ok(spliced(data, 2, fundraiser_record_bytes(g))),
        },
    }
}

/// What taking `amount` off the fundraiser record in `data` leaves there, or
/// why it is refused.
pub open spec fn subtracted_from_fundraiser(data: Seq<u8>, amount: u64) -> Result<Seq<u8>, FundraiserError> {
    match fundraiser_from(data) {
        Err(e) => Err(e),
        Ok(f) => match debited(f, amount) {
            None => Err(FundraiserError::Custom(crate::error::ERR_ARITHMETIC_OVERFLOW)),
            Some(g) => Ok(spliced(data, 2, fundraiser_record_bytes(g))),
        },
    }
}

/// What setting the amount of the contributor record in `data` leaves there,
/// or why it is refused.
pub open spec fn contributor_amount_set(data: Seq<u8>, amount: u64) -> Result<Seq<u8>, FundraiserError> {
    match contributor_from(data) {
        Err(e) => Err(e),
        Ok(_) => Ok(spliced(data, 2, contributor_record_bytes(Contributor { amount }))),
    }
}

/// An account's data after an update: the new data, or the old data where the
/// update was refused.
pub open spec fn updated(data: Seq<u8>, r: Result<Seq<u8>, FundraiserError>) -> Seq<u8> {
    match r {
        Ok(d) => d,
        Err(_) => data,
    }
}

/// The outcome of an update.
pub open spec fn update_outcome(r: Result<Seq<u8>, FundraiserError>) -> Result<(), FundraiserError> {
    match r {
        Ok(_) => Ok(()),
        Err(e) => Err(e),
    }
}

/// Adds `amount` to the total of the fundraiser record in `data`, in place.
pub fn add_to_fundraiser(data: &mut [u8], amount: u64) -> (r: Result<(), FundraiserError>)
    ensures
        r == update_outcome(added_to_fundraiser(old(data)@, amount)),
        final(data)@ == updated(old(data)@, added_to_fundraiser(old(data)@, amount)),
{
    let mut fund = match Fundraiser::from_bytes_mut(data) {
        Ok(f) => f,
        Err(e) => return Err(e),
    };
    match fund.update_current_amount(amount) {
        Ok(()) => {},
        Err(e) => return Err(e),
    }
    fund.store(data);
    Ok(())
}

/// Takes `amount` off the total of the fundraiser record in `data`, in place.
pub fn subtract_from_fundraiser(data: &mut [u8], amount: u64) -> (r: Result<(), FundraiserError>)
    ensures
        r == update_outcome(subtracted_from_fundraiser(old(data)@, amount)),
        final(data)@ == updated(old(data)@, subtracted_from_fundraiser(old(data)@, amount)),
{
    let mut fund = match Fundraiser::from_bytes_mut(data) {
        Ok(f) => f,
        Err(e) => return Err(e),
    };
    match fund.sub_current_amount(amount) {
        Ok(()) => {},
        Err(e) => return Err(e),
    }
    fund.store(data);
    Ok(())
}

/// Sets the amount of the contributor record in `data`, in place.
pub fn set_contributor_amount(data: &mut [u8], amount: u64) -> (r: Result<(), FundraiserError>)
    ensures
        r == update_outcome(contributor_amount_set(old(data)@, amount)),
        final(data)@ == updated(old(data)@, contributor_amount_set(old(data)@, amount)),
{
    let mut cont = match Contributor::from_bytes_mut(data) {
        Ok(c) => c,
        Err(e) => return Err(e),
    };
    cont.amount = amount;
    cont.store(data);
    Ok(())
}

} // verus!
