use fundraiser::account::{AccountSnapshot, Action, FundraiserSigner, Sysvars};
use fundraiser::address::{associated_token_address, ASSOCIATED_TOKEN_PROGRAM_ID, ID, SYSTEM_PROGRAM_ID, TOKEN_PROGRAM_ID};
use fundraiser::entrypoint::process_instruction;
use fundraiser::error::{
    FundraiserError, ERR_CONTRIBUTION_TOO_BIG, ERR_CONTRIBUTION_TOO_SMALL, ERR_FUNDRAISER_ENDED, ERR_FUNDRAISER_NOT_ENDED,
    ERR_INVALID_AMOUNT, ERR_MAXIMUM_CONTRIBUTIONS_REACHED, ERR_TARGET_MET, ERR_TARGET_NOT_MET,
};
use fundraiser::instructions::check::check_contributions;
use fundraiser::instructions::contribute::contribute;
use fundraiser::instructions::initialize::initialize;
use fundraiser::instructions::refund::refund;
use fundraiser::state::contributor::{Contributor, CONTRIBUTOR_LEN};
use fundraiser::state::fundraiser::{Fundraiser, FUNDRAISER_LEN};

const MAKER: [u8; 32] = [11u8; 32];
const CONTRIBUTOR: [u8; 32] = [33u8; 32];
const MINT: [u8; 32] = [22u8; 32];
const NOW: i64 = 1_700_000_000;
const DAY: i64 = 86400;
const PRICE: u64 = 6960;

fn acct(address: [u8; 32], owner: [u8; 32], is_signer: bool, data: Vec<u8>) -> AccountSnapshot {
    AccountSnapshot { address, owner, is_signer, data }
}

fn mint_account(decimals: u8) -> AccountSnapshot {
    let mut data = vec![0u8; 82];
    data[44] = decimals;
    acct(MINT, TOKEN_PROGRAM_ID, false, data)
}

fn token_account(address: [u8; 32], amount: u64) -> AccountSnapshot {
    let mut data = vec![0u8; 165];
    data[64..72].copy_from_slice(&amount.to_le_bytes());
    acct(address, TOKEN_PROGRAM_ID, false, data)
}

fn fundraiser_address() -> ([u8; 32], u8) {
    Fundraiser::derive_pda(&MAKER, &ID)
}

fn vault_address() -> [u8; 32] {
    associated_token_address(&fundraiser_address().0, &TOKEN_PROGRAM_ID, &MINT).unwrap()
}

fn sysvars(now: i64) -> Sysvars {
    Sysvars { unix_timestamp: Ok(now), lamports_per_byte: Ok(PRICE) }
}

fn record(started: i64, target: u64, current: u64) -> Fundraiser {
    Fundraiser {
        time_started: started,
        amount_to_raise: target,
        current_amount: current,
        maker: MAKER,
        mint_to_raise: MINT,
        bump: fundraiser_address().1,
        duration: 10,
    }
}

fn fundraiser_account(f: &Fundraiser) -> AccountSnapshot {
    let mut data = vec![0u8; FUNDRAISER_LEN];
    Fundraiser::init(&mut data, f);
    acct(fundraiser_address().0, ID, false, data)
}

fn program(address: [u8; 32]) -> AccountSnapshot {
    acct(address, [0u8; 32], false, Vec::new())
}

fn init_accounts() -> Vec<AccountSnapshot> {
    vec![
        acct(MAKER, SYSTEM_PROGRAM_ID, true, Vec::new()),
        mint_account(2),
        acct(fundraiser_address().0, SYSTEM_PROGRAM_ID, false, Vec::new()),
        acct(vault_address(), SYSTEM_PROGRAM_ID, false, Vec::new()),
        program(TOKEN_PROGRAM_ID),
        program(ASSOCIATED_TOKEN_PROGRAM_ID),
        program(SYSTEM_PROGRAM_ID),
    ]
}

fn init_data(amount: u64, duration: u8) -> Vec<u8> {
    let mut d = amount.to_le_bytes().to_vec();
    d.push(duration);
    d
}

#[test]
fn derived_addresses_match_the_address_crate() {
    let (pda, bump) = fundraiser_address();
    let expected = solana_address::Address::find_program_address(
        &[b"fundraiser", &MAKER],
        &solana_address::Address::new_from_array(ID),
    );
    assert_eq!(pda, expected.0.to_bytes());
    assert_eq!(bump, expected.1);
    assert_ne!(pda, MAKER);
    let (record_address, _) = Contributor::derive_pda(&pda, &CONTRIBUTOR, &ID);
    let expected = solana_address::Address::find_program_address(
        &[b"contributor", &pda, &CONTRIBUTOR],
        &solana_address::Address::new_from_array(ID),
    );
    assert_eq!(record_address, expected.0.to_bytes());
    let vault = solana_address::Address::find_program_address(
        &[&pda, &TOKEN_PROGRAM_ID, &MINT],
        &solana_address::Address::new_from_array(ASSOCIATED_TOKEN_PROGRAM_ID),
    );
    assert_eq!(vault_address(), vault.0.to_bytes());
}

#[test]
fn program_ids_match_the_outside_crates() {
    assert_eq!(TOKEN_PROGRAM_ID, pinocchio_token::ID.to_bytes());
    assert_eq!(ASSOCIATED_TOKEN_PROGRAM_ID, pinocchio_associated_token_account::ID.to_bytes());
    assert_eq!(SYSTEM_PROGRAM_ID, pinocchio_system::ID.to_bytes());
}

#[test]
fn initialize_opens_a_fundraiser() {
    let plan = initialize(&init_data(1000, 10), &init_accounts(), &sysvars(NOW));
    assert_eq!(plan.outcome, Ok(()));
    assert_eq!(
        plan.actions,
        vec![
            Action::CreateAccount { from: 0, to: 2, lamports: (128 + 98) * PRICE, space: 98, owner: ID },
            Action::InitFundraiser { account: 2, fundraiser: record(NOW, 1000, 0) },
            Action::CreateAssociatedTokenAccount {
                funding: 0,
                account: 3,
                wallet: 2,
                mint: 1,
                system_program: 6,
                token_program: 4,
                idempotent: false,
            },
        ]
    );
}

#[test]
fn initialize_refusals() {
    let accounts = init_accounts();
    let r = |data: &[u8], accounts: &[AccountSnapshot], s: &Sysvars| {
        let p = initialize(data, accounts, s);
        if p.outcome.is_err() {
            assert!(p.actions.is_empty());
        }
        p.outcome
    };
    assert_eq!(r(&init_data(1000, 10), &accounts[..6], &sysvars(NOW)), Err(FundraiserError::NotEnoughAccountKeys));
    let mut unsigned = accounts.clone();
    unsigned[0].is_signer = false;
    assert_eq!(r(&init_data(1000, 10), &unsigned, &sysvars(NOW)), Err(FundraiserError::MissingRequiredSignature));
    assert_eq!(r(&init_data(1000, 10)[..8], &accounts, &sysvars(NOW)), Err(FundraiserError::InvalidInstructionData));
    // 3^2 = 9 is the bar to clear
    assert_eq!(r(&init_data(9, 10), &accounts, &sysvars(NOW)), Err(FundraiserError::Custom(ERR_INVALID_AMOUNT)));
    assert_eq!(r(&init_data(10, 10), &accounts, &sysvars(NOW)), Ok(()));
    let mut huge = accounts.clone();
    huge[1] = mint_account(41);
    assert_eq!(r(&init_data(u64::MAX, 10), &huge, &sysvars(NOW)), Err(FundraiserError::Custom(ERR_INVALID_AMOUNT)));
    let mut no_mint = accounts.clone();
    no_mint[1].owner = SYSTEM_PROGRAM_ID;
    assert_eq!(r(&init_data(1000, 10), &no_mint, &sysvars(NOW)), Err(FundraiserError::IncorrectProgramId));
    let mut wrong_pda = accounts.clone();
    wrong_pda[2].address = [5u8; 32];
    assert_eq!(r(&init_data(1000, 10), &wrong_pda, &sysvars(NOW)), Err(FundraiserError::InvalidSeeds));
    let mut wrong_vault = accounts.clone();
    wrong_vault[3].address = [5u8; 32];
    assert_eq!(r(&init_data(1000, 10), &wrong_vault, &sysvars(NOW)), Err(FundraiserError::InvalidSeeds));
    let no_clock = Sysvars { unix_timestamp: Err(FundraiserError::Runtime(17)), lamports_per_byte: Ok(PRICE) };
    assert_eq!(r(&init_data(1000, 10), &accounts, &no_clock), Err(FundraiserError::Runtime(17)));
}

fn record_address() -> [u8; 32] {
    Contributor::derive_pda(&fundraiser_address().0, &CONTRIBUTOR, &ID).0
}

fn contributor_ata() -> [u8; 32] {
    associated_token_address(&CONTRIBUTOR, &TOKEN_PROGRAM_ID, &MINT).unwrap()
}

fn contribute_accounts(f: &Fundraiser, existing: Option<u64>) -> Vec<AccountSnapshot> {
    let record_account = match existing {
        Some(amount) => {
            let mut data = vec![0u8; CONTRIBUTOR_LEN];
            Contributor::init(&mut data, &Contributor { amount });
            acct(record_address(), ID, false, data)
        },
        None => acct(record_address(), SYSTEM_PROGRAM_ID, false, Vec::new()),
    };
    vec![
        acct(CONTRIBUTOR, SYSTEM_PROGRAM_ID, true, Vec::new()),
        mint_account(6),
        fundraiser_account(f),
        record_account,
        token_account(contributor_ata(), 10_000),
        token_account(vault_address(), 0),
        program(TOKEN_PROGRAM_ID),
        program(SYSTEM_PROGRAM_ID),
    ]
}

fn tail(amount: u64, total: u64) -> Vec<Action> {
    vec![
        Action::Transfer { from: 4, to: 5, authority: 0, amount, signer: None },
        Action::AddToFundraiser { account: 2, amount },
        Action::SetContributorAmount { account: 3, amount: total },
    ]
}

#[test]
fn first_contribution_creates_the_record() {
    let f = record(NOW - DAY, 1000, 0);
    let plan = contribute(&40u64.to_le_bytes(), &contribute_accounts(&f, None), &sysvars(NOW));
    assert_eq!(plan.outcome, Ok(()));
    let mut expected = vec![
        Action::CreateAccount { from: 0, to: 3, lamports: 138 * PRICE, space: 10, owner: ID },
        Action::InitContributor { account: 3, contributor: Contributor { amount: 0 } },
    ];
    expected.extend(tail(40, 40));
    assert_eq!(plan.actions, expected);
}

#[test]
fn later_contribution_adds_to_the_record() {
    let f = record(NOW - DAY, 1000, 50);
    let plan = contribute(&40u64.to_le_bytes(), &contribute_accounts(&f, Some(50)), &sysvars(NOW));
    assert_eq!(plan.outcome, Ok(()));
    assert_eq!(plan.actions, tail(40, 90));
}

#[test]
fn contribution_refusals() {
    let f = record(NOW - DAY, 1000, 50);
    let accounts = contribute_accounts(&f, Some(50));
    let outcome = |amount: u64, accounts: &[AccountSnapshot], now: i64| contribute(&amount.to_le_bytes(), accounts, &sysvars(now)).outcome;
    assert_eq!(outcome(1, &accounts, NOW), Err(FundraiserError::Custom(ERR_CONTRIBUTION_TOO_SMALL)));
    assert_eq!(outcome(2, &accounts, NOW), Ok(()));
    assert_eq!(outcome(101, &accounts, NOW), Err(FundraiserError::Custom(ERR_CONTRIBUTION_TOO_BIG)));
    assert_eq!(outcome(51, &accounts, NOW), Err(FundraiserError::Custom(ERR_MAXIMUM_CONTRIBUTIONS_REACHED)));
    assert_eq!(outcome(50, &accounts, NOW), Ok(()));
    assert_eq!(outcome(40, &accounts, NOW - DAY + 10 * DAY), Err(FundraiserError::Custom(ERR_FUNDRAISER_ENDED)));
    assert_eq!(outcome(40, &accounts, NOW - DAY + 10 * DAY - 1), Ok(()));
    let mut other_mint = accounts.clone();
    other_mint[1].address = [4u8; 32];
    assert_eq!(outcome(40, &other_mint, NOW), Err(FundraiserError::InvalidAccountData));
    let mut wrong_record = contribute_accounts(&f, None);
    wrong_record[3].address = [4u8; 32];
    assert_eq!(outcome(40, &wrong_record, NOW), Err(FundraiserError::InvalidSeeds));
    let mut taken = contribute_accounts(&f, None);
    taken[3].owner = TOKEN_PROGRAM_ID;
    assert_eq!(outcome(40, &taken, NOW), Err(FundraiserError::InvalidAccountOwner));
    let mut wrong_ata = accounts.clone();
    wrong_ata[4].address = [4u8; 32];
    assert_eq!(outcome(40, &wrong_ata, NOW), Err(FundraiserError::InvalidSeeds));
    assert_eq!(contribute(&[1, 2, 3], &accounts, &sysvars(NOW)).outcome, Err(FundraiserError::InvalidInstructionData));
}

fn check_accounts(f: &Fundraiser, vault_amount: u64, maker_ata_owner: [u8; 32]) -> Vec<AccountSnapshot> {
    let maker_ata = associated_token_address(&MAKER, &TOKEN_PROGRAM_ID, &MINT).unwrap();
    vec![
        acct(MAKER, SYSTEM_PROGRAM_ID, true, Vec::new()),
        mint_account(6),
        fundraiser_account(f),
        token_account(vault_address(), vault_amount),
        acct(maker_ata, maker_ata_owner, false, Vec::new()),
        program(TOKEN_PROGRAM_ID),
        program(SYSTEM_PROGRAM_ID),
        program(ASSOCIATED_TOKEN_PROGRAM_ID),
    ]
}

#[test]
fn maker_collects_a_funded_vault() {
    let f = record(NOW - DAY, 1000, 1000);
    let signer = Some(FundraiserSigner { maker: MAKER, bump: fundraiser_address().1 });
    let plan = check_contributions(&[], &check_accounts(&f, 1200, TOKEN_PROGRAM_ID));
    assert_eq!(plan.outcome, Ok(()));
    assert_eq!(
        plan.actions,
        vec![
            Action::Transfer { from: 3, to: 4, authority: 2, amount: 1200, signer },
            Action::CloseInto { account: 2, destination: 0 },
        ]
    );
    let plan = check_contributions(&[], &check_accounts(&f, 1000, SYSTEM_PROGRAM_ID));
    assert_eq!(plan.outcome, Ok(()));
    assert_eq!(plan.actions.len(), 3);
    assert!(matches!(plan.actions[0], Action::CreateAssociatedTokenAccount { idempotent: true, account: 4, .. }));
}

#[test]
fn maker_cannot_collect_below_target() {
    let f = record(NOW - DAY, 1000, 999);
    let plan = check_contributions(&[], &check_accounts(&f, 999, SYSTEM_PROGRAM_ID));
    assert_eq!(plan.outcome, Err(FundraiserError::Custom(ERR_TARGET_NOT_MET)));
    assert_eq!(plan.actions.len(), 1);
    let mut not_maker = check_accounts(&f, 2000, TOKEN_PROGRAM_ID);
    not_maker[0].address = CONTRIBUTOR;
    assert_eq!(check_contributions(&[], &not_maker).outcome, Err(FundraiserError::InvalidAccountData));
    let mut unsigned = check_accounts(&f, 2000, TOKEN_PROGRAM_ID);
    unsigned[0].is_signer = false;
    assert_eq!(check_contributions(&[], &unsigned).outcome, Err(FundraiserError::MissingRequiredSignature));
}

fn refund_accounts(f: &Fundraiser, vault_amount: u64, recorded: u64) -> Vec<AccountSnapshot> {
    let mut data = vec![0u8; CONTRIBUTOR_LEN];
    Contributor::init(&mut data, &Contributor { amount: recorded });
    vec![
        acct(CONTRIBUTOR, SYSTEM_PROGRAM_ID, true, Vec::new()),
        acct(MAKER, SYSTEM_PROGRAM_ID, false, Vec::new()),
        mint_account(6),
        fundraiser_account(f),
        acct(record_address(), ID, false, data),
        token_account(contributor_ata(), 0),
        token_account(vault_address(), vault_amount),
        program(TOKEN_PROGRAM_ID),
        program(SYSTEM_PROGRAM_ID),
    ]
}

#[test]
fn refund_after_a_failed_fundraiser() {
    let f = record(NOW - 10 * DAY, 1000, 300);
    let plan = refund(&[], &refund_accounts(&f, 300, 70), &sysvars(NOW));
    assert_eq!(plan.outcome, Ok(()));
    assert_eq!(
        plan.actions,
        vec![
            Action::Transfer {
                from: 6,
                to: 5,
                authority: 3,
                amount: 70,
                signer: Some(FundraiserSigner { maker: MAKER, bump: fundraiser_address().1 }),
            },
            Action::SubtractFromFundraiser { account: 3, amount: 70 },
            Action::CloseInto { account: 4, destination: 0 },
        ]
    );
}

#[test]
fn refund_refusals() {
    let f = record(NOW - 10 * DAY, 1000, 300);
    let early = record(NOW - 9 * DAY, 1000, 300);
    assert_eq!(refund(&[], &refund_accounts(&early, 300, 70), &sysvars(NOW)).outcome, Err(FundraiserError::Custom(ERR_FUNDRAISER_NOT_ENDED)));
    assert_eq!(refund(&[], &refund_accounts(&f, 1000, 70), &sysvars(NOW)).outcome, Err(FundraiserError::Custom(ERR_TARGET_MET)));
    assert_eq!(refund(&[], &refund_accounts(&f, 300, 0), &sysvars(NOW)).outcome, Err(FundraiserError::InvalidAccountData));
    let mut no_record = refund_accounts(&f, 300, 70);
    no_record[4].data = vec![0u8; 9];
    assert_eq!(refund(&[], &no_record, &sysvars(NOW)).outcome, Err(FundraiserError::InvalidAccountData));
    let mut wrong_vault = refund_accounts(&f, 300, 70);
    wrong_vault[6].address = [4u8; 32];
    assert_eq!(refund(&[], &wrong_vault, &sysvars(NOW)).outcome, Err(FundraiserError::InvalidSeeds));
    assert_eq!(refund(&[], &refund_accounts(&f, 300, 70)[..8], &sysvars(NOW)).outcome, Err(FundraiserError::NotEnoughAccountKeys));
}

#[test]
fn instructions_are_dispatched_on_their_first_byte() {
    let mut data = vec![0u8];
    data.extend(init_data(1000, 10));
    let plan = process_instruction(&ID, &init_accounts(), &data, &sysvars(NOW));
    assert_eq!(plan.outcome, Ok(()));
    assert_eq!(plan.actions.len(), 3);
    assert_eq!(process_instruction(&ID, &init_accounts(), &[], &sysvars(NOW)).outcome, Err(FundraiserError::InvalidInstructionData));
    assert_eq!(process_instruction(&ID, &init_accounts(), &[4], &sysvars(NOW)).outcome, Err(FundraiserError::InvalidInstructionData));
    let f = record(NOW - 10 * DAY, 1000, 300);
    assert_eq!(process_instruction(&ID, &refund_accounts(&f, 300, 70), &[3], &sysvars(NOW)).actions.len(), 3);
}

#[test]
fn contributions_and_refunds_never_overlap() {
    // the fundraiser runs for ten days; on every day either one or the other is accepted
    for days in [0i64, 5, 9, 10, 11, 40] {
        let f = record(NOW - days * DAY, 1000, 300);
        let contributing = contribute(&40u64.to_le_bytes(), &contribute_accounts(&f, Some(50)), &sysvars(NOW)).outcome.is_ok();
        let refunding = refund(&[], &refund_accounts(&f, 300, 70), &sysvars(NOW)).outcome.is_ok();
        assert!(contributing != refunding, "day {}", days);
    }
}

#[test]
fn collection_and_refunds_never_overlap() {
    let f = record(NOW - 20 * DAY, 1000, 300);
    for vault_amount in [0u64, 999, 1000, 5000] {
        let collecting = check_contributions(&[], &check_accounts(&f, vault_amount, TOKEN_PROGRAM_ID)).outcome.is_ok();
        let refunding = refund(&[], &refund_accounts(&f, vault_amount, 70), &sysvars(NOW)).outcome.is_ok();
        assert!(collecting != refunding, "vault {}", vault_amount);
    }
}

#[test]
fn unsigned_instructions_take_no_effect() {
    let f = record(NOW - 10 * DAY, 1000, 300);
    let mut accounts = refund_accounts(&f, 300, 70);
    accounts[0].is_signer = false;
    let plan = process_instruction(&ID, &accounts, &[3], &sysvars(NOW));
    assert!(plan.actions.is_empty());
    assert_eq!(plan.outcome, Err(FundraiserError::MissingRequiredSignature));
}

#[test]
fn excessive_rent_price_matters_only_when_creating_an_account() {
    let too_high = Sysvars { unix_timestamp: Ok(NOW), lamports_per_byte: Ok(fundraiser::account::MAX_LAMPORTS_PER_BYTE + 1) };
    let plan = initialize(&init_data(1000, 10), &init_accounts(), &too_high);
    assert!(plan.actions.is_empty());
    assert_eq!(plan.outcome, Err(FundraiserError::RentPriceTooHigh));
    let f = record(NOW - DAY, 1000, 50);
    let first = contribute(&40u64.to_le_bytes(), &contribute_accounts(&f, None), &too_high);
    assert_eq!(first.outcome, Err(FundraiserError::RentPriceTooHigh));
    let later = contribute(&40u64.to_le_bytes(), &contribute_accounts(&f, Some(50)), &too_high);
    assert_eq!(later.outcome, Ok(()));
    let ended = record(NOW - 10 * DAY, 1000, 300);
    assert_eq!(refund(&[], &refund_accounts(&ended, 300, 70), &too_high).outcome, Ok(()));
}

/// Carries out the record updates of a plan on the fundraiser's and the
/// record's data, as the entrypoint does.
fn apply_updates(plan: &fundraiser::account::Plan, fundraiser_data: &mut Vec<u8>, record_data: &mut Vec<u8>) {
    for action in &plan.actions {
        match *action {
            Action::InitContributor { contributor, .. } => {
                *record_data = vec![0u8; CONTRIBUTOR_LEN];
                Contributor::init(record_data, &contributor);
            },
            Action::AddToFundraiser { amount, .. } => {
                fundraiser::effects::add_to_fundraiser(fundraiser_data, amount).unwrap();
            },
            Action::SubtractFromFundraiser { amount, .. } => {
                fundraiser::effects::subtract_from_fundraiser(fundraiser_data, amount).unwrap();
            },
            Action::SetContributorAmount { amount, .. } => {
                fundraiser::effects::set_contributor_amount(record_data, amount).unwrap();
            },
            Action::CloseInto { .. } => record_data.clear(),
            _ => {},
        }
    }
}

#[test]
fn total_tracks_the_records_and_a_refund_undoes_a_first_contribution() {
    // another contributor already gave 50; ours gives 40 and later takes it back
    let f = record(NOW - DAY, 1000, 50);
    let mut accounts = contribute_accounts(&f, None);
    let before = accounts[2].data.clone();
    let plan = contribute(&40u64.to_le_bytes(), &accounts, &sysvars(NOW));
    assert_eq!(plan.outcome, Ok(()));
    let mut record_data = accounts[3].data.clone();
    apply_updates(&plan, &mut accounts[2].data, &mut record_data);
    assert_eq!(Fundraiser::from_bytes(&accounts[2].data).unwrap().current_amount, 50 + 40);
    assert_eq!(Contributor::from_bytes(&record_data), Ok(Contributor { amount: 40 }));

    let after = Fundraiser::from_bytes(&accounts[2].data).unwrap();
    let mut r = refund_accounts(&after, 300, 40);
    r[3].data = accounts[2].data.clone();
    r[4].data = record_data.clone();
    let later = NOW + 10 * DAY;
    let plan = refund(&[], &r, &sysvars(later));
    assert_eq!(plan.outcome, Ok(()));
    assert!(matches!(plan.actions[0], Action::Transfer { amount: 40, .. }));
    let mut fund_data = r[3].data.clone();
    let mut closed = r[4].data.clone();
    apply_updates(&plan, &mut fund_data, &mut closed);
    assert_eq!(fund_data, before);
    r[3].data = fund_data;
    r[4].data = closed;

    // the closed record cannot be refunded again
    let again = refund(&[], &r, &sysvars(later));
    assert!(again.actions.is_empty());
    assert_eq!(again.outcome, Err(FundraiserError::InvalidAccountData));
}
