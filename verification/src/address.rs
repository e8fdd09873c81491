use vstd::prelude::*;

use crate::error::FundraiserError;

verus! {

/// This program's own address.
pub const ID: [u8; 32] = [
    0x12, 0x8c, 0xfa, 0x23, 0x1a, 0x34, 0x56, 0x78,
    0x9a, 0xbc, 0xde, 0xf0, 0x12, 0x34, 0x56, 0x78,
    0x9a, 0xbc, 0xde, 0xf0, 0x12, 0x34, 0x56, 0x78,
    0x9a, 0xbc, 0xde, 0xf0, 0x12, 0x34, 0x56, 0x78,
];

/// The token program's address (`TokenkegQfeZyiNwAJbNbGKPFXCWuBvf9Ss623VQ5DA`).
pub const TOKEN_PROGRAM_ID: [u8; 32] = [
    6, 221, 246, 225, 215, 101, 161, 147, 217, 203, 225, 70, 206, 235, 121, 172,
    28, 180, 133, 237, 95, 91, 55, 145, 58, 140, 245, 133, 126, 255, 0, 169,
];

/// The associated token account program's address
/// (`ATokenGPvbdGVxr1b2hvZbsiqW5xWH25efTNsLJA8knL`).
pub const ASSOCIATED_TOKEN_PROGRAM_ID: [u8; 32] = [
    140, 151, 37, 143, 78, 36, 137, 241, 187, 61, 16, 41, 20, 142, 13, 131,
    11, 90, 19, 153, 218, 255, 16, 132, 4, 142, 123, 216, 219, 233, 248, 89,
];

/// The system program's address (all zero bytes).
pub const SYSTEM_PROGRAM_ID: [u8; 32] = [
    0, 0, 0, 0, 0, 0, 0, 0, 0, 0, 0, 0, 0, 0, 0, 0,
    0, 0, 0, 0, 0, 0, 0, 0, 0, 0, 0, 0, 0, 0, 0, 0,
];

/// The outcome of searching for the program address of `seeds` under
/// `program_id`: the first bump seed, from 255 down, for which the hash of the
/// seeds, the bump, the program id and the PDA marker is off the curve, with
/// that address; none where no bump qualifies.
pub uninterp spec fn program_address_search(seeds: Seq<Seq<u8>>, program_id: Seq<u8>) -> Option<(Seq<u8>, u8)>;

/// `solana_address::Address::try_find_program_address`, called with the seeds
/// and the program id given. The contract claims only that the answer is the
/// search's outcome on exactly these seeds and this program id: the hashing and
/// the curve test are not restated here.
#[verifier::external_body]
fn try_find_program_address(seeds: &Vec<Vec<u8>>, program_id: &[u8; 32]) -> (r: Option<([u8; 32], u8)>)
    ensures
        r matches Some(p) ==> program_address_search(seeds.deep_view(), program_id@) == Some((p.0@, p.1)),
        r is None ==> program_address_search(seeds.deep_view(), program_id@) is None,
{
    let slices: Vec<&[u8]> = seeds.iter().map(|s| s.as_slice()).collect();
    let id = solana_address::Address::new_from_array(*program_id);
    solana_address::Address::try_find_program_address(&slices, &id).map(|(a, b)| (a.to_bytes(), b))
}

/// `pinocchio_token::ID`, the token program's address; claimed to be the bytes
/// of `TOKEN_PROGRAM_ID`.
#[verifier::external_body]
pub(crate) fn token_program_id() -> (r: [u8; 32])
    ensures
        r == TOKEN_PROGRAM_ID,
{
    pinocchio_token::ID.to_bytes()
}

/// `pinocchio_associated_token_account::ID`; claimed to be the bytes of
/// `ASSOCIATED_TOKEN_PROGRAM_ID`.
#[verifier::external_body]
pub(crate) fn associated_token_program_id() -> (r: [u8; 32])
    ensures
        r == ASSOCIATED_TOKEN_PROGRAM_ID,
{
    pinocchio_associated_token_account::ID.to_bytes()
}

/// `pinocchio_system::ID`; claimed to be the bytes of `SYSTEM_PROGRAM_ID`.
#[verifier::external_body]
pub(crate) fn system_program_id() -> (r: [u8; 32])
    ensures
        r == SYSTEM_PROGRAM_ID,
{
    pinocchio_system::ID.to_bytes()
}

/// The program address of `seeds` under `program_id`, or the failure that
/// deriving it ends in.
pub open spec fn derived_address(seeds: Seq<Seq<u8>>, program_id: Seq<u8>) -> Result<(Seq<u8>, u8), FundraiserError> {
    match program_address_search(seeds, program_id) {
        Some(p) => Ok(p),
        None => Err(FundraiserError::ProgramAddressNotFound),
    }
}

/// A derivation result with the address taken by its bytes.
pub open spec fn address_result_view(r: Result<([u8; 32], u8), FundraiserError>) -> Result<(Seq<u8>, u8), FundraiserError> {
    match r {
        Ok(p) => Ok((p.0@, p.1)),
        Err(e) => Err(e),
    }
}

/// Derives the program address and bump of `seeds` under `program_id`.
pub fn find_program_address(seeds: &Vec<Vec<u8>>, program_id: &[u8; 32]) -> (r: Result<([u8; 32], u8), FundraiserError>)
    ensures
        address_result_view(r) == derived_address(seeds.deep_view(), program_id@),
{
    match try_find_program_address(seeds, program_id) {
        Some(p) => Ok(p),
        None => Err(FundraiserError::ProgramAddressNotFound),
    }
}

/// An address result taken by its bytes.
pub open spec fn address_only(r: Result<[u8; 32], FundraiserError>) -> Result<Seq<u8>, FundraiserError> {
    match r {
        Ok(a) => Ok(a@),
        Err(e) => Err(e),
    }
}

/// A derivation result without its bump.
pub open spec fn address_only_of(r: Result<(Seq<u8>, u8), FundraiserError>) -> Result<Seq<u8>, FundraiserError> {
    match r {
        Ok(p) => Ok(p.0),
        Err(e) => Err(e),
    }
}

/// The seeds of the associated token account of `wallet` for `mint` under
/// `token_program`.
pub open spec fn associated_token_seeds(wallet: Seq<u8>, token_program: Seq<u8>, mint: Seq<u8>) -> Seq<Seq<u8>> {
    seq![wallet, token_program, mint]
}

/// Appends a copy of `seed` to a list of seeds.
pub fn push_seed(seeds: &mut Vec<Vec<u8>>, seed: &[u8])
    ensures
        final(seeds).deep_view() == old(seeds).deep_view().push(seed@),
{
    let ghost before = seeds.deep_view();
    let v = vstd::slice::slice_to_vec(seed);
    seeds.push(v);
    let ghost after = seeds.deep_view();
    assert(after[after.len() - 1] =~= seed@);
    assert forall|i: int| 0 <= i < before.len() implies #[trigger] after[i] == before[i] by {
        assert(after[i] =~= before[i]);
    }
    assert(after =~= before.push(seed@));
}

/// Derives the associated token account address of `wallet` for `mint`
/// under `token_program`.
pub fn associated_token_address(wallet: &[u8; 32], token_program: &[u8; 32], mint: &[u8; 32]) -> (r: Result<[u8; 32], FundraiserError>)
    ensures
        address_only(r) == address_only_of(derived_address(associated_token_seeds(wallet@, token_program@, mint@), ASSOCIATED_TOKEN_PROGRAM_ID@)),
{
    let mut seeds: Vec<Vec<u8>> = Vec::new();
    push_seed(&mut seeds, wallet.as_slice());
    push_seed(&mut seeds, token_program.as_slice());
    push_seed(&mut seeds, mint.as_slice());
    assert(seeds.deep_view() =~= associated_token_seeds(wallet@, token_program@, mint@));
    let program = associated_token_program_id();
    match find_program_address(&seeds, &program) {
        Ok(p) => Ok(p.0),
        Err(e) => Err(e),
    }
}

} // verus!
