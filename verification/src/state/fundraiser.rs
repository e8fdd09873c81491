use vstd::prelude::*;
use vstd::bytes::*;

use crate::address::{derived_address, find_program_address, push_seed, program_address_search, address_result_view};
use crate::bytes::{array32, lemma_array32, lemma_array32_of_view, read_array32, spliced, write_bytes};
use crate::error::{FundraiserError, ERR_ARITHMETIC_OVERFLOW};

verus! {

broadcast use vstd::array::group_array_axioms;

/// First byte of a fundraiser record.
pub const DISCRIMINATOR_FUNDRAISER: u8 = 0;
/// Second byte of a fundraiser record: the layout's version.
pub const VERSION: u8 = 0;
/// First seed of a fundraiser's program address: the ASCII bytes of "fundraiser".
pub const SEED_FUNDRAISER: [u8; 10] = [102, 117, 110, 100, 114, 97, 105, 115, 101, 114];

/// Bytes of the record after its two header bytes: the fields in `repr(C)`
/// order, then padding up to a multiple of eight.
pub const FUNDRAISER_DATA_LEN: usize = 96;
/// Bytes of a whole fundraiser account: discriminator, version, record.
pub const FUNDRAISER_LEN: usize = 98;

/// A fundraiser: who opened it, for which mint, how much it aims for and
/// has gathered, when it started and for how many days it runs.
#[derive(Clone, Copy, Debug, PartialEq, Eq)]
pub struct Fundraiser {
    pub time_started: i64,
    pub amount_to_raise: u64,
    pub current_amount: u64,
    pub maker: [u8; 32],
    pub mint_to_raise: [u8; 32],
    pub bump: u8,
    pub duration: u8,
}

/// The field bytes of a record, as they stand after the header: three
/// little-endian eight-byte integers, the maker, the mint, the bump and the
/// duration (90 bytes; the padding after them is not part of this).
pub open spec fn fundraiser_record_bytes(f: Fundraiser) -> Seq<u8> {
    spec_u64_to_le_bytes(f.time_started as u64)
        + spec_u64_to_le_bytes(f.amount_to_raise)
        + spec_u64_to_le_bytes(f.current_amount)
        + f.maker@
        + f.mint_to_raise@
        + seq![f.bump, f.duration]
}

/// Whether `data` holds a fundraiser record: long enough, with its discriminator.
pub open spec fn is_fundraiser_data(data: Seq<u8>) -> bool {
    data.len() >= FUNDRAISER_LEN && data[0] == DISCRIMINATOR_FUNDRAISER
}

/// The fundraiser whose field bytes stand in `data` after the header.
pub open spec fn fundraiser_at(data: Seq<u8>) -> Fundraiser {
    Fundraiser {
        time_started: spec_u64_from_le_bytes(data.subrange(2, 10)) as i64,
        amount_to_raise: spec_u64_from_le_bytes(data.subrange(10, 18)),
        current_amount: spec_u64_from_le_bytes(data.subrange(18, 26)),
        maker: array32(data.subrange(26, 58)),
        mint_to_raise: array32(data.subrange(58, 90)),
        bump: data[90],
        duration: data[91],
    }
}

/// What reading a fundraiser account gives.
pub open spec fn fundraiser_from(data: Seq<u8>) -> Result<Fundraiser, FundraiserError> {
    if is_fundraiser_data(data) {
        Ok(fundraiser_at(data))
    } else {
        Err(FundraiserError::InvalidAccountData)
    }
}

/// The seeds of the fundraiser opened by `maker`.
pub open spec fn fundraiser_seeds(maker: Seq<u8>) -> Seq<Seq<u8>> {
    seq![SEED_FUNDRAISER@, maker]
}

/// Each field can be read back from the record's bytes.
pub proof fn lemma_fundraiser_record_fields(f: Fundraiser)
    ensures
        fundraiser_record_bytes(f).len() == 90,
        spec_u64_from_le_bytes(fundraiser_record_bytes(f).subrange(0, 8)) as i64 == f.time_started,
        spec_u64_from_le_bytes(fundraiser_record_bytes(f).subrange(8, 16)) == f.amount_to_raise,
        spec_u64_from_le_bytes(fundraiser_record_bytes(f).subrange(16, 24)) == f.current_amount,
        fundraiser_record_bytes(f).subrange(24, 56) == f.maker@,
        fundraiser_record_bytes(f).subrange(56, 88) == f.mint_to_raise@,
        fundraiser_record_bytes(f)[88] == f.bump,
        fundraiser_record_bytes(f)[89] == f.duration,
{
    lemma_auto_spec_u64_to_from_le_bytes();
    let b = fundraiser_record_bytes(f);
    let t = f.time_started;
    assert((t as u64) as i64 == t) by (bit_vector);
    assert(b.subrange(0, 8) =~= spec_u64_to_le_bytes(f.time_started as u64));
    assert(b.subrange(8, 16) =~= spec_u64_to_le_bytes(f.amount_to_raise));
    assert(b.subrange(16, 24) =~= spec_u64_to_le_bytes(f.current_amount));
    assert(b.subrange(24, 56) =~= f.maker@);
    assert(b.subrange(56, 88) =~= f.mint_to_raise@);
}

/// Two fundraisers with the same record bytes are the same fundraiser.
pub proof fn lemma_fundraiser_record_bytes_injective(f: Fundraiser, g: Fundraiser)
    requires
        fundraiser_record_bytes(f) == fundraiser_record_bytes(g),
    ensures
        f == g,
{
    lemma_fundraiser_record_fields(f);
    lemma_fundraiser_record_fields(g);
    assert(f.maker@ == g.maker@);
    assert(f.mint_to_raise@ == g.mint_to_raise@);
    assert(f.maker == g.maker);
    assert(f.mint_to_raise == g.mint_to_raise);
}

/// Where the field bytes of `f` stand after the header, `fundraiser_at` reads `f`.
pub proof fn lemma_fundraiser_at(data: Seq<u8>, f: Fundraiser)
    requires
        data.len() >= 92,
        data.subrange(2, 92) == fundraiser_record_bytes(f),
    ensures
        fundraiser_at(data) == f,
{
    lemma_fundraiser_record_fields(f);
    let b = fundraiser_record_bytes(f);
    assert(data.subrange(2, 10) =~= b.subrange(0, 8));
    assert(data.subrange(10, 18) =~= b.subrange(8, 16));
    assert(data.subrange(18, 26) =~= b.subrange(16, 24));
    assert(data.subrange(26, 58) =~= b.subrange(24, 56));
    assert(data.subrange(58, 90) =~= b.subrange(56, 88));
    lemma_array32_of_view(f.maker);
    lemma_array32_of_view(f.mint_to_raise);
}

/// The record that `data` reads as has, as its bytes, exactly those in `data`.
pub proof fn lemma_fundraiser_at_bytes(data: Seq<u8>)
    requires
        data.len() >= 92,
    ensures
        fundraiser_record_bytes(fundraiser_at(data)) == data.subrange(2, 92),
{
    lemma_auto_spec_u64_to_from_le_bytes();
    let t = spec_u64_from_le_bytes(data.subrange(2, 10));
    assert((t as i64) as u64 == t) by (bit_vector);
    lemma_array32(data.subrange(26, 58));
    lemma_array32(data.subrange(58, 90));
    assert(spec_u64_to_le_bytes(spec_u64_from_le_bytes(data.subrange(2, 10))) == data.subrange(2, 10));
    assert(spec_u64_to_le_bytes(spec_u64_from_le_bytes(data.subrange(10, 18))) == data.subrange(10, 18));
    assert(spec_u64_to_le_bytes(spec_u64_from_le_bytes(data.subrange(18, 26))) == data.subrange(18, 26));
    assert(fundraiser_record_bytes(fundraiser_at(data)) =~= data.subrange(2, 92));
}

/// Reads the eight bytes from `offset` on as a little-endian integer.
fn read_u64_le(data: &[u8], offset: usize) -> (r: u64)
    requires
        offset + 8 <= data@.len(),
    ensures
        r == spec_u64_from_le_bytes(data@.subrange(offset as int, offset + 8)),
{
    let len = data.len();
    let s = vstd::slice::slice_subrange(data, offset, offset + 8);
    u64_from_le_bytes(s)
}

/// `f` with `amount` added to its total, or nothing where the sum does not fit.
pub open spec fn credited(f: Fundraiser, amount: u64) -> Option<Fundraiser> {
    if f.current_amount + amount > u64::MAX {
        None
    } else {
        Some(Fundraiser { current_amount: (f.current_amount + amount) as u64, ..f })
    }
}

/// `f` with `amount` taken off its total, or nothing where it is more than the total.
pub open spec fn debited(f: Fundraiser, amount: u64) -> Option<Fundraiser> {
    if amount > f.current_amount {
        None
    } else {
        Some(Fundraiser { current_amount: (f.current_amount - amount) as u64, ..f })
    }
}

impl Fundraiser {
    /// Reads the fundraiser record in `data`: refused unless `data` is long
    /// enough and starts with the fundraiser discriminator.
    pub fn from_bytes(data: &[u8]) -> (r: Result<Fundraiser, FundraiserError>)
        ensures
            r == fundraiser_from(data@),
    {
        if data.len() < FUNDRAISER_LEN || data[0] != DISCRIMINATOR_FUNDRAISER {
            return Err(FundraiserError::InvalidAccountData);
        }
        let time_started = read_u64_le(data, 2) as i64;
        let amount_to_raise = read_u64_le(data, 10);
        let current_amount = read_u64_le(data, 18);
        let maker = read_array32(data, 26);
        let mint_to_raise = read_array32(data, 58);
        let bump = data[90];
        let duration = data[91];
        let f = Fundraiser { time_started, amount_to_raise, current_amount, maker, mint_to_raise, bump, duration };
        proof {
            lemma_auto_spec_u64_to_from_le_bytes();
            let d = data@;
            let t = spec_u64_from_le_bytes(d.subrange(2, 10));
            assert((t as i64) as u64 == t) by (bit_vector);
            assert(spec_u64_to_le_bytes(spec_u64_from_le_bytes(d.subrange(2, 10))) == d.subrange(2, 10));
            assert(spec_u64_to_le_bytes(spec_u64_from_le_bytes(d.subrange(10, 18))) == d.subrange(10, 18));
            assert(spec_u64_to_le_bytes(spec_u64_from_le_bytes(d.subrange(18, 26))) == d.subrange(18, 26));
            assert(fundraiser_record_bytes(f) =~= d.subrange(2, 92));
            lemma_fundraiser_at(d, f);
        }
        Ok(f)
    }

    /// Reads the fundraiser record in `data` for an update: the same checks
    /// and the same result as `from_bytes`, with `data` left as it was; the
    /// updated record goes back with `store`.
    pub fn from_bytes_mut(data: &mut [u8]) -> (r: Result<Fundraiser, FundraiserError>)
        ensures
            r == fundraiser_from(old(data)@),
            final(data)@ == old(data)@,
    {
        Fundraiser::from_bytes(data)
    }

    /// Writes this record's fields into `data` after the header, leaving the
    /// header, the padding and everything after them as they were.
    pub fn store(&self, data: &mut [u8])
        requires
            old(data)@.len() >= FUNDRAISER_LEN,
        ensures
            final(data)@ == spliced(old(data)@, 2, fundraiser_record_bytes(*self)),
            final(data)@.len() == old(data)@.len(),
            fundraiser_at(final(data)@) == *self,
    {
        let ghost start = data@;
        let t = u64_to_le_bytes(self.time_started as u64);
        write_bytes(data, 2, t.as_slice());
        let a = u64_to_le_bytes(self.amount_to_raise);
        write_bytes(data, 10, a.as_slice());
        let c = u64_to_le_bytes(self.current_amount);
        write_bytes(data, 18, c.as_slice());
        write_bytes(data, 26, self.maker.as_slice());
        write_bytes(data, 58, self.mint_to_raise.as_slice());
        data[90] = self.bump;
        data[91] = self.duration;
        proof {
            lemma_fundraiser_record_fields(*self);
            assert(data@ =~= spliced(start, 2, fundraiser_record_bytes(*self)));
            assert(data@.subrange(2, 92) =~= fundraiser_record_bytes(*self));
            lemma_fundraiser_at(data@, *self);
        }
    }

    /// Writes a fresh fundraiser account: the discriminator, the version and
    /// the record's fields.
    pub fn init(data: &mut [u8], val: &Fundraiser)
        requires
            old(data)@.len() >= FUNDRAISER_LEN,
        ensures
            final(data)@ == seq![DISCRIMINATOR_FUNDRAISER, VERSION] + fundraiser_record_bytes(*val) + old(data)@.skip(92),
            fundraiser_from(final(data)@) == Ok::<Fundraiser, FundraiserError>(*val),
    {
        let ghost start = data@;
        data[0] = DISCRIMINATOR_FUNDRAISER;
        data[1] = VERSION;
        val.store(data);
        proof {
            lemma_fundraiser_record_fields(*val);
            assert(data@ =~= seq![DISCRIMINATOR_FUNDRAISER, VERSION] + fundraiser_record_bytes(*val) + start.skip(92));
        }
    }

    /// Looks for the program address of the fundraiser opened by `maker`.
    pub fn try_derive_pda(maker: &[u8; 32], program_id: &[u8; 32]) -> (r: Result<([u8; 32], u8), FundraiserError>)
        ensures
            address_result_view(r) == derived_address(fundraiser_seeds(maker@), program_id@),
    {
        let mut seeds: Vec<Vec<u8>> = Vec::new();
        push_seed(&mut seeds, SEED_FUNDRAISER.as_slice());
        push_seed(&mut seeds, maker.as_slice());
        assert(seeds.deep_view() =~= fundraiser_seeds(maker@));
        find_program_address(&seeds, program_id)
    }

    /// The program address and bump from `derive_pda`, or nothing where no
    /// bump gives one (where `derive_pda` may not be called).
    pub fn derive_pda_checked(maker: &[u8; 32], program_id: &[u8; 32]) -> (r: Option<([u8; 32], u8)>)
        ensures
            r matches Some(p) ==> program_address_search(fundraiser_seeds(maker@), program_id@) == Some((p.0@, p.1)),
            r is None ==> program_address_search(fundraiser_seeds(maker@), program_id@) is None,
    {
        match Fundraiser::try_derive_pda(maker, program_id) {
            Ok(_) => Some(Fundraiser::derive_pda(maker, program_id)),
            Err(_) => None,
        }
    }

    /// The program address and bump of the fundraiser opened by `maker`,
    /// where one exists.
    pub fn derive_pda(maker: &[u8; 32], program_id: &[u8; 32]) -> (r: ([u8; 32], u8))
        requires
            program_address_search(fundraiser_seeds(maker@), program_id@) is Some,
        ensures
            program_address_search(fundraiser_seeds(maker@), program_id@) == Some((r.0@, r.1)),
    {
        match Fundraiser::try_derive_pda(maker, program_id) {
            Ok(p) => p,
            Err(_) => {
                assert(false);
                ([0u8; 32], 0)
            },
        }
    }

    /// Adds `amount` to the gathered total; refused, with nothing changed,
    /// where the sum does not fit.
    pub fn update_current_amount(&mut self, amount: u64) -> (r: Result<(), FundraiserError>)
        ensures
            r is Ok <==> credited(*old(self), amount) is Some,
            r is Ok ==> Some(*final(self)) == credited(*old(self), amount),
            r matches Err(e) ==> e == FundraiserError::Custom(ERR_ARITHMETIC_OVERFLOW) && *final(self) == *old(self),
    {
        match self.current_amount.checked_add(amount) {
            Some(v) => {
                self.current_amount = v;
                Ok(())
            },
            None => Err(FundraiserError::Custom(ERR_ARITHMETIC_OVERFLOW)),
        }
    }

    /// Takes `amount` off the gathered total; refused, with nothing changed,
    /// where it is more than the total.
    pub fn sub_current_amount(&mut self, amount: u64) -> (r: Result<(), FundraiserError>)
        ensures
            r is Ok <==> debited(*old(self), amount) is Some,
            r is Ok ==> Some(*final(self)) == debited(*old(self), amount),
            r matches Err(e) ==> e == FundraiserError::Custom(ERR_ARITHMETIC_OVERFLOW) && *final(self) == *old(self),
    {
        match self.current_amount.checked_sub(amount) {
            Some(v) => {
                self.current_amount = v;
                Ok(())
            },
            None => Err(FundraiserError::Custom(ERR_ARITHMETIC_OVERFLOW)),
        }
    }
}

} // verus!
