use vstd::prelude::*;
use vstd::bytes::*;

use crate::address::{derived_address, find_program_address, push_seed, program_address_search, address_result_view};
use crate::bytes::{spliced, write_bytes};
use crate::error::FundraiserError;

verus! {

/// First byte of a contributor record.
pub const DISCRIMINATOR_CONTRIBUTOR: u8 = 1;
/// First seed of a contributor record's program address: the ASCII bytes of "contributor".
pub const SEED_CONTRIBUTOR: [u8; 11] = [99, 111, 110, 116, 114, 105, 98, 117, 116, 111, 114];

/// How much one contributor has put into one fundraiser.
#[derive(Clone, Copy, Debug, PartialEq, Eq, Structural)]
pub struct Contributor {
    pub amount: u64,
}

/// Bytes of the record after its two header bytes.
pub const CONTRIBUTOR_DATA_LEN: usize = 8;
/// Bytes of a whole contributor account: discriminator, version, record.
pub const CONTRIBUTOR_LEN: usize = 10;

/// The record's bytes: the amount, little-endian.
pub open spec fn contributor_record_bytes(c: Contributor) -> Seq<u8> {
    spec_u64_to_le_bytes(c.amount)
}

/// Whether `data` holds a contributor record: long enough, with its discriminator.
pub open spec fn is_contributor_data(data: Seq<u8>) -> bool {
    data.len() >= CONTRIBUTOR_LEN && data[0] == DISCRIMINATOR_CONTRIBUTOR
}

/// The record that `data` holds, read from the bytes after the header.
pub open spec fn contributor_at(data: Seq<u8>) -> Contributor {
    Contributor { amount: spec_u64_from_le_bytes(data.subrange(2, 10)) }
}

/// What reading a contributor account gives.
pub open spec fn contributor_from(data: Seq<u8>) -> Result<Contributor, FundraiserError> {
    if is_contributor_data(data) {
        Ok(contributor_at(data))
    } else {
        Err(FundraiserError::InvalidAccountData)
    }
}

/// The seeds of the record of `contributor` in `fundraiser`.
pub open spec fn contributor_seeds(fundraiser: Seq<u8>, contributor: Seq<u8>) -> Seq<Seq<u8>> {
    seq![SEED_CONTRIBUTOR@, fundraiser, contributor]
}

impl Contributor {
    /// Reads the contributor record in `data`.
    pub fn from_bytes(data: &[u8]) -> (r: Result<Contributor, FundraiserError>)
        ensures
            r == contributor_from(data@),
    {
        if data.len() < CONTRIBUTOR_LEN || data[0] != DISCRIMINATOR_CONTRIBUTOR {
            return Err(FundraiserError::InvalidAccountData);
        }
        let amount = u64_from_le_bytes(vstd::slice::slice_subrange(data, 2, 10));
        Ok(Contributor { amount })
    }

    /// Reads the contributor record in `data` for an update: the same checks
    /// and the same result as `from_bytes`, with `data` left as it was; the
    /// updated record goes back with `store`.
    pub fn from_bytes_mut(data: &mut [u8]) -> (r: Result<Contributor, FundraiserError>)
        ensures
            r == contributor_from(old(data)@),
            final(data)@ == old(data)@,
    {
        Contributor::from_bytes(data)
    }

    /// Writes this record after the header, leaving every other byte as it was.
    pub fn store(&self, data: &mut [u8])
        requires
            old(data)@.len() >= CONTRIBUTOR_LEN,
        ensures
            final(data)@ == spliced(old(data)@, 2, contributor_record_bytes(*self)),
            contributor_at(final(data)@) == *self,
    {
        let a = u64_to_le_bytes(self.amount);
        write_bytes(data, 2, a.as_slice());
        proof {
            lemma_auto_spec_u64_to_from_le_bytes();
            assert(final(data)@.subrange(2, 10) =~= contributor_record_bytes(*self));
        }
    }

    /// Writes a fresh contributor account: the discriminator, a zero version
    /// byte and the record.
    pub fn init(data: &mut [u8], val: &Contributor)
        requires
            old(data)@.len() >= CONTRIBUTOR_LEN,
        ensures
            final(data)@ == seq![DISCRIMINATOR_CONTRIBUTOR, 0u8] + contributor_record_bytes(*val) + old(data)@.skip(10),
            contributor_from(final(data)@) == Ok::<Contributor, FundraiserError>(*val),
    {
        let ghost start = data@;
        data[0] = DISCRIMINATOR_CONTRIBUTOR;
        data[1] = 0;
        val.store(data);
        proof {
            lemma_auto_spec_u64_to_from_le_bytes();
            assert(data@ =~= seq![DISCRIMINATOR_CONTRIBUTOR, 0u8] + contributor_record_bytes(*val) + start.skip(10));
        }
    }

    /// Looks for the program address of the record of `contributor` in `fundraiser`.
    pub fn try_derive_pda(fundraiser: &[u8; 32], contributor: &[u8; 32], program_id: &[u8; 32]) -> (r: Result<([u8; 32], u8), FundraiserError>)
        ensures
            address_result_view(r) == derived_address(contributor_seeds(fundraiser@, contributor@), program_id@),
    {
        let mut seeds: Vec<Vec<u8>> = Vec::new();
        push_seed(&mut seeds, SEED_CONTRIBUTOR.as_slice());
        push_seed(&mut seeds, fundraiser.as_slice());
        push_seed(&mut seeds, contributor.as_slice());
        assert(seeds.deep_view() =~= contributor_seeds(fundraiser@, contributor@));
        find_program_address(&seeds, program_id)
    }

    /// The program address and bump from `derive_pda`, or nothing where no
    /// bump gives one (where `derive_pda` may not be called).
    pub fn derive_pda_checked(fundraiser: &[u8; 32], contributor: &[u8; 32], program_id: &[u8; 32]) -> (r: Option<([u8; 32], u8)>)
        ensures
            r matches Some(p) ==> program_address_search(contributor_seeds(fundraiser@, contributor@), program_id@) == Some((p.0@, p.1)),
            r is None ==> program_address_search(contributor_seeds(fundraiser@, contributor@), program_id@) is None,
    {
        match Contributor::try_derive_pda(fundraiser, contributor, program_id) {
            Ok(_) => Some(Contributor::derive_pda(fundraiser, contributor, program_id)),
            Err(_) => None,
        }
    }

    /// The program address and bump of the record of `contributor` in
    /// `fundraiser`, where one exists.
    pub fn derive_pda(fundraiser: &[u8; 32], contributor: &[u8; 32], program_id: &[u8; 32]) -> (r: ([u8; 32], u8))
        requires
            program_address_search(contributor_seeds(fundraiser@, contributor@), program_id@) is Some,
        ensures
            program_address_search(contributor_seeds(fundraiser@, contributor@), program_id@) == Some((r.0@, r.1)),
    {
        match Contributor::try_derive_pda(fundraiser, contributor, program_id) {
            Ok(p) => p,
            Err(_) => {
                assert(false);
                ([0u8; 32], 0)
            },
        }
    }
}

} // verus!
