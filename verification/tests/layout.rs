use fundraiser::account::{
    checked_pow, close_into_balance, minimum_balance, mint_decimals, token_amount, AccountSnapshot,
};
use fundraiser::address::{ASSOCIATED_TOKEN_PROGRAM_ID, SYSTEM_PROGRAM_ID, TOKEN_PROGRAM_ID};
use fundraiser::effects::{add_to_fundraiser, set_contributor_amount, subtract_from_fundraiser};
use fundraiser::error::{FundraiserError, ERR_ARITHMETIC_OVERFLOW};
use fundraiser::instructions::contribute::{elapsed_days, max_contribution};
use fundraiser::state::contributor::{Contributor, CONTRIBUTOR_LEN};
use fundraiser::state::fundraiser::{Fundraiser, FUNDRAISER_LEN};

fn sample() -> Fundraiser {
    Fundraiser {
        time_started: -2,
        amount_to_raise: 0x0102_0304_0506_0708,
        current_amount: 5,
        maker: [7u8; 32],
        mint_to_raise: [9u8; 32],
        bump: 254,
        duration: 30,
    }
}

#[test]
fn fundraiser_init_writes_header_and_little_endian_fields() {
    let mut data = vec![0xAAu8; FUNDRAISER_LEN];
    Fundraiser::init(&mut data, &sample());
    assert_eq!(data[0], 0);
    assert_eq!(data[1], 0);
    assert_eq!(&data[2..10], &[0xFE, 0xFF, 0xFF, 0xFF, 0xFF, 0xFF, 0xFF, 0xFF]);
    assert_eq!(&data[10..18], &[8, 7, 6, 5, 4, 3, 2, 1]);
    assert_eq!(&data[18..26], &[5, 0, 0, 0, 0, 0, 0, 0]);
    assert_eq!(&data[26..58], &[7u8; 32]);
    assert_eq!(&data[58..90], &[9u8; 32]);
    assert_eq!(data[90], 254);
    assert_eq!(data[91], 30);
    // the padding after the fields is left as it was
    assert_eq!(&data[92..98], &[0xAA; 6]);
}

#[test]
fn fundraiser_write_then_read() {
    let mut data = vec![0u8; FUNDRAISER_LEN + 3];
    Fundraiser::init(&mut data, &sample());
    assert_eq!(Fundraiser::from_bytes(&data), Ok(sample()));
    assert_eq!(Fundraiser::from_bytes_mut(&mut data), Ok(sample()));
}

#[test]
fn fundraiser_read_refuses_short_or_foreign_data() {
    let mut data = vec![0u8; FUNDRAISER_LEN];
    Fundraiser::init(&mut data, &sample());
    assert_eq!(Fundraiser::from_bytes(&data[..FUNDRAISER_LEN - 1]), Err(FundraiserError::InvalidAccountData));
    data[0] = 1;
    assert_eq!(Fundraiser::from_bytes(&data), Err(FundraiserError::InvalidAccountData));
}

#[test]
fn fundraiser_store_changes_only_the_fields() {
    let mut data = vec![0x55u8; FUNDRAISER_LEN];
    data[0] = 0;
    let mut f = sample();
    f.current_amount = 77;
    f.store(&mut data);
    assert_eq!(data[0], 0);
    assert_eq!(data[1], 0x55);
    assert_eq!(Fundraiser::from_bytes(&data).unwrap().current_amount, 77);
    assert_eq!(&data[92..], &[0x55; 6]);
}

#[test]
fn update_and_sub_current_amount() {
    let mut f = sample();
    assert_eq!(f.update_current_amount(10), Ok(()));
    assert_eq!(f.current_amount, 15);
    assert_eq!(f.sub_current_amount(10), Ok(()));
    assert_eq!(f, sample());
    assert_eq!(f.sub_current_amount(6), Err(FundraiserError::Custom(ERR_ARITHMETIC_OVERFLOW)));
    assert_eq!(f, sample());
    assert_eq!(f.update_current_amount(u64::MAX), Err(FundraiserError::Custom(ERR_ARITHMETIC_OVERFLOW)));
    assert_eq!(f, sample());
}

#[test]
fn contributor_roundtrip() {
    let mut data = vec![0xEEu8; CONTRIBUTOR_LEN];
    Contributor::init(&mut data, &Contributor { amount: 0x1234 });
    assert_eq!(data, vec![1, 0, 0x34, 0x12, 0, 0, 0, 0, 0, 0]);
    assert_eq!(Contributor::from_bytes(&data), Ok(Contributor { amount: 0x1234 }));
    assert_eq!(Contributor::from_bytes(&data[..9]), Err(FundraiserError::InvalidAccountData));
    let mut other = data.clone();
    other[0] = 0;
    assert_eq!(Contributor::from_bytes_mut(&mut other), Err(FundraiserError::InvalidAccountData));
    Contributor { amount: 3 }.store(&mut data);
    assert_eq!(Contributor::from_bytes(&data), Ok(Contributor { amount: 3 }));
}

#[test]
fn add_then_subtract_restores_the_bytes() {
    let mut data = vec![0x31u8; FUNDRAISER_LEN];
    Fundraiser::init(&mut data, &sample());
    let before = data.clone();
    assert_eq!(add_to_fundraiser(&mut data, 1000), Ok(()));
    assert_eq!(Fundraiser::from_bytes(&data).unwrap().current_amount, 1005);
    assert_eq!(subtract_from_fundraiser(&mut data, 1000), Ok(()));
    assert_eq!(data, before);
    assert_eq!(subtract_from_fundraiser(&mut data, 6), Err(FundraiserError::Custom(ERR_ARITHMETIC_OVERFLOW)));
    assert_eq!(data, before);
    let mut foreign = vec![3u8; FUNDRAISER_LEN];
    assert_eq!(add_to_fundraiser(&mut foreign, 1), Err(FundraiserError::InvalidAccountData));
}

#[test]
fn set_contributor_amount_needs_a_record() {
    let mut data = vec![0u8; CONTRIBUTOR_LEN];
    assert_eq!(set_contributor_amount(&mut data, 4), Err(FundraiserError::InvalidAccountData));
    Contributor::init(&mut data, &Contributor { amount: 0 });
    assert_eq!(set_contributor_amount(&mut data, 4), Ok(()));
    assert_eq!(Contributor::from_bytes(&data), Ok(Contributor { amount: 4 }));
}

#[test]
fn checked_pow_values() {
    assert_eq!(checked_pow(3, 0), Some(1));
    assert_eq!(checked_pow(3, 4), Some(81));
    assert_eq!(checked_pow(3, 40), Some(12157665459056928801));
    assert_eq!(checked_pow(3, 41), None);
    assert_eq!(checked_pow(1, 255), Some(1));
    assert_eq!(checked_pow(0, 0), Some(1));
    assert_eq!(checked_pow(0, 9), Some(0));
}

#[test]
fn minimum_balance_formula() {
    assert_eq!(minimum_balance(6960, 98), (128 + 98) * 6960);
    assert_eq!(minimum_balance(6960, 10), 138 * 6960);
    assert_eq!(minimum_balance(0, 10), 0);
}

#[test]
fn close_into_balance_sums_or_refuses() {
    assert_eq!(close_into_balance(5, 7), Ok(12));
    assert_eq!(close_into_balance(u64::MAX, 1), Err(FundraiserError::Custom(ERR_ARITHMETIC_OVERFLOW)));
}

#[test]
fn elapsed_days_truncate_toward_zero() {
    assert_eq!(elapsed_days(86400 * 3 + 5, 5), Some(3));
    assert_eq!(elapsed_days(86399, 0), Some(0));
    assert_eq!(elapsed_days(0, 86400 * 2 - 1), Some(-1));
    assert_eq!(elapsed_days(0, 86399), Some(0));
    assert_eq!(elapsed_days(i64::MIN, 1), None);
}

#[test]
fn contribution_cap_is_a_tenth() {
    assert_eq!(max_contribution(1000), Some(100));
    assert_eq!(max_contribution(1009), Some(100));
    assert_eq!(max_contribution(u64::MAX / 10 + 1), None);
}

fn account(owner: [u8; 32], data: Vec<u8>) -> AccountSnapshot {
    AccountSnapshot { address: [1u8; 32], owner, is_signer: false, data }
}

#[test]
fn token_state_readers() {
    let mut mint = vec![0u8; 82];
    mint[44] = 6;
    assert_eq!(mint_decimals(&account(TOKEN_PROGRAM_ID, mint.clone())), Ok(6));
    assert_eq!(mint_decimals(&account(SYSTEM_PROGRAM_ID, mint.clone())), Err(FundraiserError::IncorrectProgramId));
    assert_eq!(mint_decimals(&account(TOKEN_PROGRAM_ID, vec![0u8; 81])), Err(FundraiserError::InvalidAccountData));
    let mut tok = vec![0u8; 165];
    tok[64..72].copy_from_slice(&500u64.to_le_bytes());
    assert_eq!(token_amount(&account(TOKEN_PROGRAM_ID, tok.clone())), Ok(500));
    assert_eq!(token_amount(&account(ASSOCIATED_TOKEN_PROGRAM_ID, tok)), Err(FundraiserError::IncorrectProgramId));
    assert_eq!(token_amount(&account(TOKEN_PROGRAM_ID, vec![0u8; 166])), Err(FundraiserError::InvalidAccountData));
}

#[test]
fn read_then_store_leaves_the_bytes() {
    let mut data: Vec<u8> = (0..FUNDRAISER_LEN as u32).map(|i| (i * 7 % 251) as u8).collect();
    data[0] = 0;
    let before = data.clone();
    let f = Fundraiser::from_bytes(&data).unwrap();
    f.store(&mut data);
    assert_eq!(data, before);
    let mut c: Vec<u8> = vec![1, 9, 1, 2, 3, 4, 5, 6, 7, 8, 42];
    let before = c.clone();
    Contributor::from_bytes(&c).unwrap().store(&mut c);
    assert_eq!(c, before);
}
