use vstd::prelude::*;
use vstd::arithmetic::power::{lemma1_pow, pow};
use vstd::bytes::spec_u64_from_le_bytes;

use crate::account::{refused, AccountSnapshot, Action, FundraiserSigner, Sysvars, MAX_LAMPORTS_PER_BYTE};
use crate::address::{program_address_search, ASSOCIATED_TOKEN_PROGRAM_ID, ID, SYSTEM_PROGRAM_ID, TOKEN_PROGRAM_ID};
use crate::entrypoint::process_instruction_spec;
use crate::effects::contributor_amount_set;
use crate::error::{
    FundraiserError, ERR_ARITHMETIC_OVERFLOW, ERR_CONTRIBUTION_TOO_BIG, ERR_CONTRIBUTION_TOO_SMALL, ERR_FUNDRAISER_ENDED,
    ERR_FUNDRAISER_NOT_ENDED, ERR_INVALID_AMOUNT, ERR_MAXIMUM_CONTRIBUTIONS_REACHED, ERR_TARGET_MET, ERR_TARGET_NOT_MET,
};
use crate::instructions::check::check_contributions_spec;
use crate::instructions::contribute::{contribute_spec, contribution_cap};
use crate::instructions::initialize::initialize_spec;
use crate::instructions::refund::refund_spec;
use crate::state::contributor::{contributor_from, is_contributor_data, Contributor, SEED_CONTRIBUTOR};
use crate::state::fundraiser::{credited, debited, fundraiser_at, fundraiser_from, is_fundraiser_data, Fundraiser, SEED_FUNDRAISER};

verus! {

/// The little-endian eight-byte integer of `data` from `from` on.
pub open spec fn le_u64(data: Seq<u8>, from: int) -> u64 {
    spec_u64_from_le_bytes(data.subrange(from, from + 8))
}

/// Whether an address search found `address`.
pub open spec fn found_at(search: Option<(Seq<u8>, u8)>, address: [u8; 32]) -> bool {
    search matches Some(p) && p.0 == address@
}

/// The associated token account search for `wallet`, `token_program` and `mint`.
pub open spec fn token_account_search(wallet: [u8; 32], token_program: [u8; 32], mint: [u8; 32]) -> Option<(Seq<u8>, u8)> {
    program_address_search(seq![wallet@, token_program@, mint@], ASSOCIATED_TOKEN_PROGRAM_ID@)
}

/// Whether `account` is a mint of the token program: 82 bytes, owned by it.
pub open spec fn is_mint(account: AccountSnapshot) -> bool {
    account.data@.len() == 82 && account.owner == TOKEN_PROGRAM_ID
}

/// Whether `account` is a token account of the token program: 165 bytes, owned by it.
pub open spec fn is_token_account(account: AccountSnapshot) -> bool {
    account.data@.len() == 165 && account.owner == TOKEN_PROGRAM_ID
}

/// Whole days in `seconds`, truncated toward zero.
pub open spec fn whole_days(seconds: int) -> int {
    if seconds >= 0 {
        seconds / 86400
    } else {
        -((-seconds) / 86400)
    }
}

/// Whether a fundraiser that started at `started` and runs `duration` days
/// still runs at `now`: the day count, cut to a byte, is below the duration.
pub open spec fn still_running(now: i64, started: i64, duration: u8) -> bool {
    let diff = now - started;
    i64::MIN <= diff <= i64::MAX && duration > (whole_days(diff) as i64) as u8
}

/// Whether it has ended at `now`.
pub open spec fn has_ended(now: i64, started: i64, duration: u8) -> bool {
    let diff = now - started;
    i64::MIN <= diff <= i64::MAX && duration <= (whole_days(diff) as i64) as u8
}

/// The first byte of an instruction names it: 0 opens a fundraiser, 1
/// contributes, 2 lets the maker collect, 3 refunds; the bytes after it are
/// the instruction's own. An empty instruction or any other first byte is
/// refused as invalid instruction data.
pub proof fn lemma_dispatch_table(rest: Seq<u8>, accounts: Seq<AccountSnapshot>, sysvars: Sysvars, other: u8)
    requires
        other >= 4,
    ensures
        process_instruction_spec(seq![0u8] + rest, accounts, sysvars) == initialize_spec(rest, accounts, sysvars),
        process_instruction_spec(seq![1u8] + rest, accounts, sysvars) == contribute_spec(rest, accounts, sysvars),
        process_instruction_spec(seq![2u8] + rest, accounts, sysvars) == check_contributions_spec(accounts),
        process_instruction_spec(seq![3u8] + rest, accounts, sysvars) == refund_spec(accounts, sysvars),
        process_instruction_spec(seq![other] + rest, accounts, sysvars) == refused(FundraiserError::InvalidInstructionData),
        process_instruction_spec(Seq::empty(), accounts, sysvars) == refused(FundraiserError::InvalidInstructionData),
{
    assert((seq![0u8] + rest).skip(1) =~= rest);
    assert((seq![1u8] + rest).skip(1) =~= rest);
    assert((seq![2u8] + rest).skip(1) =~= rest);
    assert((seq![3u8] + rest).skip(1) =~= rest);
    assert((seq![0u8] + rest)[0] == 0u8);
    assert((seq![1u8] + rest)[0] == 1u8);
    assert((seq![2u8] + rest)[0] == 2u8);
    assert((seq![3u8] + rest)[0] == 3u8);
    assert((seq![other] + rest)[0] == other);
}

/// A contributor may give in all a tenth of the target (rounded down); the cap
/// is unknown only where ten times the target does not fit in 64 bits.
pub proof fn lemma_contribution_cap_is_a_tenth(target: u64)
    ensures
        target * 10 <= u64::MAX ==> contribution_cap(target) == Some((target / 10) as u64),
        target * 10 > u64::MAX ==> contribution_cap(target) is None,
{
    assert((target * 10) / 100 == target / 10) by (nonlinear_arith);
}

/// When opening a fundraiser is accepted: seven accounts with the maker
/// signing, an amount and a duration, a mint, a target above three to the
/// power of the mint's decimals (any such 64-bit target), the fundraiser and
/// vault at their derived addresses, a clock, and a rent price for which a
/// balance is computed.
pub open spec fn initialize_accepted(data: Seq<u8>, accounts: Seq<AccountSnapshot>, sysvars: Sysvars) -> bool {
    &&& accounts.len() >= 7
    &&& accounts[0].is_signer
    &&& data.len() >= 9
    &&& is_mint(accounts[1])
    &&& pow(3, accounts[1].data@[44] as nat) < le_u64(data, 0)
    &&& found_at(program_address_search(seq![SEED_FUNDRAISER@, accounts[0].address@], ID@), accounts[2].address)
    &&& found_at(token_account_search(accounts[2].address, accounts[4].address, accounts[1].address), accounts[3].address)
    &&& sysvars.unix_timestamp is Ok
    &&& sysvars.lamports_per_byte matches Ok(price) && price <= MAX_LAMPORTS_PER_BYTE
}

/// Opening a fundraiser is accepted exactly under `initialize_accepted`; it
/// then creates the fundraiser account with the rent-exempt balance for its
/// 98 bytes, writes a record holding the target, nothing gathered, the
/// clock's time, the maker, the mint, the bump and the duration, and creates
/// the vault as the fundraiser's token account for the mint.
pub proof fn lemma_initialize_accepts_exactly(data: Seq<u8>, accounts: Seq<AccountSnapshot>, sysvars: Sysvars)
    ensures
        initialize_spec(data, accounts, sysvars).outcome is Ok <==> initialize_accepted(data, accounts, sysvars),
        initialize_accepted(data, accounts, sysvars) ==> initialize_spec(data, accounts, sysvars).actions == seq![
            Action::CreateAccount {
                from: 0,
                to: 2,
                lamports: (226 * sysvars.lamports_per_byte.unwrap()) as u64,
                space: 98,
                owner: ID,
            },
            Action::InitFundraiser {
                account: 2,
                fundraiser: Fundraiser {
                    time_started: sysvars.unix_timestamp.unwrap(),
                    amount_to_raise: le_u64(data, 0),
                    current_amount: 0,
                    maker: accounts[0].address,
                    mint_to_raise: accounts[1].address,
                    bump: program_address_search(seq![SEED_FUNDRAISER@, accounts[0].address@], ID@).unwrap().1,
                    duration: data[8],
                },
            },
            Action::CreateAssociatedTokenAccount {
                funding: 0,
                account: 3,
                wallet: 2,
                mint: 1,
                system_program: 6,
                token_program: 4,
                idempotent: false,
            },
        ],
{
    assert(seq![SEED_FUNDRAISER@, accounts[0].address@] == crate::state::fundraiser::fundraiser_seeds(accounts[0].address@));
}

/// What a contributor's record holds before a contribution: its amount, or
/// nothing where there is no record yet.
pub open spec fn recorded_before(record: AccountSnapshot) -> int {
    if is_contributor_data(record.data@) {
        le_u64(record.data@, 2) as int
    } else {
        0
    }
}

/// When a contribution of `amount` to `fund` is accepted, given the accounts.
pub open spec fn contribution_conditions(amount: u64, fund: Fundraiser, accounts: Seq<AccountSnapshot>, sysvars: Sysvars) -> bool {
    &&& fund.mint_to_raise == accounts[1].address
    &&& found_at(program_address_search(seq![SEED_FUNDRAISER@, fund.maker@], ID@), accounts[2].address)
    &&& is_mint(accounts[1])
    &&& 1 < amount
    &&& fund.amount_to_raise * 10 <= u64::MAX
    &&& recorded_before(accounts[3]) + amount <= fund.amount_to_raise / 10
    &&& sysvars.unix_timestamp matches Ok(now) && still_running(now, fund.time_started, fund.duration)
    &&& found_at(program_address_search(seq![SEED_CONTRIBUTOR@, accounts[2].address@, accounts[0].address@], ID@), accounts[3].address)
    &&& is_contributor_data(accounts[3].data@)
        || (accounts[3].owner == SYSTEM_PROGRAM_ID && (sysvars.lamports_per_byte matches Ok(price) && price <= MAX_LAMPORTS_PER_BYTE))
    &&& found_at(token_account_search(accounts[0].address, accounts[6].address, accounts[1].address), accounts[4].address)
    &&& found_at(token_account_search(accounts[2].address, accounts[6].address, accounts[1].address), accounts[5].address)
}

/// When a contribution is accepted: eight accounts with the contributor
/// signing, an amount, a fundraiser record, and the conditions above.
pub open spec fn contribute_accepted(data: Seq<u8>, accounts: Seq<AccountSnapshot>, sysvars: Sysvars) -> bool {
    &&& accounts.len() >= 8
    &&& accounts[0].is_signer
    &&& data.len() >= 8
    &&& is_fundraiser_data(accounts[2].data@)
    &&& contribution_conditions(le_u64(data, 0), fundraiser_at(accounts[2].data@), accounts, sysvars)
}

/// A contribution is accepted exactly under `contribute_accepted`: any amount
/// above one unit that keeps the contributor's total within a tenth of the
/// target, while the fundraiser runs. It then creates the contributor's
/// record where there is none, moves the amount from the contributor's token
/// account into the vault, and adds it to the fundraiser's total and to the
/// record.
pub proof fn lemma_contribute_accepts_exactly(data: Seq<u8>, accounts: Seq<AccountSnapshot>, sysvars: Sysvars)
    ensures
        contribute_spec(data, accounts, sysvars).outcome is Ok <==> contribute_accepted(data, accounts, sysvars),
        contribute_accepted(data, accounts, sysvars) ==> contribute_spec(data, accounts, sysvars).actions == (if is_contributor_data(
            accounts[3].data@,
        ) {
            Seq::<Action>::empty()
        } else {
            seq![
                Action::CreateAccount {
                    from: 0,
                    to: 3,
                    lamports: (138 * sysvars.lamports_per_byte.unwrap()) as u64,
                    space: 10,
                    owner: ID,
                },
                Action::InitContributor { account: 3, contributor: Contributor { amount: 0 } },
            ]
        }) + seq![
            Action::Transfer { from: 4, to: 5, authority: 0, amount: le_u64(data, 0), signer: None },
            Action::AddToFundraiser { account: 2, amount: le_u64(data, 0) },
            Action::SetContributorAmount { account: 3, amount: (recorded_before(accounts[3]) + le_u64(data, 0)) as u64 },
        ],
{
    if accounts.len() >= 8 && data.len() >= 8 && is_fundraiser_data(accounts[2].data@) {
        if crate::account::mint_decimals_of(accounts[1]) is Ok {
            lemma1_pow(accounts[1].data@[44] as nat);
        }
        lemma_contribution_cap_is_a_tenth(fundraiser_at(accounts[2].data@).amount_to_raise);
        assert(seq![SEED_FUNDRAISER@, fundraiser_at(accounts[2].data@).maker@]
            == crate::state::fundraiser::fundraiser_seeds(fundraiser_at(accounts[2].data@).maker@));
        assert(seq![SEED_CONTRIBUTOR@, accounts[2].address@, accounts[0].address@]
            == crate::state::contributor::contributor_seeds(accounts[2].address@, accounts[0].address@));
        assert(Seq::<Action>::empty() + seq![
            Action::Transfer { from: 4, to: 5, authority: 0, amount: le_u64(data, 0), signer: None },
            Action::AddToFundraiser { account: 2, amount: le_u64(data, 0) },
            Action::SetContributorAmount { account: 3, amount: (recorded_before(accounts[3]) + le_u64(data, 0)) as u64 },
        ] =~= seq![
            Action::Transfer { from: 4, to: 5, authority: 0, amount: le_u64(data, 0), signer: None },
            Action::AddToFundraiser { account: 2, amount: le_u64(data, 0) },
            Action::SetContributorAmount { account: 3, amount: (recorded_before(accounts[3]) + le_u64(data, 0)) as u64 },
        ]);
    }
}

/// When the maker's collection is accepted: eight accounts with the maker
/// signing, a fundraiser record made by that maker at its derived address,
/// the vault and the maker's token account at their derived addresses, and
/// a vault holding at least the target.
pub open spec fn collect_accepted(accounts: Seq<AccountSnapshot>) -> bool {
    &&& accounts.len() >= 8
    &&& accounts[0].is_signer
    &&& is_fundraiser_data(accounts[2].data@)
    &&& ({
        let fund = fundraiser_at(accounts[2].data@);
        &&& fund.maker == accounts[0].address
        &&& found_at(program_address_search(seq![SEED_FUNDRAISER@, fund.maker@], ID@), accounts[2].address)
        &&& found_at(token_account_search(accounts[2].address, accounts[5].address, accounts[1].address), accounts[3].address)
        &&& found_at(token_account_search(accounts[0].address, accounts[5].address, accounts[1].address), accounts[4].address)
        &&& is_token_account(accounts[3])
        &&& le_u64(accounts[3].data@, 64) >= fund.amount_to_raise
    })
}

/// The collection is accepted exactly under `collect_accepted`. It first
/// creates, where the token program does not own it yet, the maker's token
/// account for the mint (funded by the maker and for the maker as wallet),
/// then moves the vault's whole balance there under the fundraiser's
/// signature and closes the fundraiser into the maker's account.
pub proof fn lemma_collect_accepts_exactly(accounts: Seq<AccountSnapshot>)
    ensures
        check_contributions_spec(accounts).outcome is Ok <==> collect_accepted(accounts),
        collect_accepted(accounts) ==> check_contributions_spec(accounts).actions == (if accounts[4].owner != TOKEN_PROGRAM_ID {
            seq![Action::CreateAssociatedTokenAccount {
                funding: 0,
                account: 4,
                wallet: 0,
                mint: 1,
                system_program: 6,
                token_program: 5,
                idempotent: true,
            }]
        } else {
            Seq::<Action>::empty()
        }) + seq![
            Action::Transfer {
                from: 3,
                to: 4,
                authority: 2,
                amount: le_u64(accounts[3].data@, 64),
                signer: Some(FundraiserSigner {
                    maker: fundraiser_at(accounts[2].data@).maker,
                    bump: fundraiser_at(accounts[2].data@).bump,
                }),
            },
            Action::CloseInto { account: 2, destination: 0 },
        ],
{
    if accounts.len() >= 8 && is_fundraiser_data(accounts[2].data@) {
        assert(seq![SEED_FUNDRAISER@, fundraiser_at(accounts[2].data@).maker@]
            == crate::state::fundraiser::fundraiser_seeds(fundraiser_at(accounts[2].data@).maker@));
    }
}

/// When a refund is accepted: nine accounts with the contributor signing, a
/// fundraiser record at its derived address for the mint given, ended at the
/// clock's time, a vault below the target, and the contributor's record with
/// a non-zero amount, token account and vault at their derived addresses.
pub open spec fn refund_accepted(accounts: Seq<AccountSnapshot>, sysvars: Sysvars) -> bool {
    &&& accounts.len() >= 9
    &&& accounts[0].is_signer
    &&& is_fundraiser_data(accounts[3].data@)
    &&& ({
        let fund = fundraiser_at(accounts[3].data@);
        &&& fund.mint_to_raise == accounts[2].address
        &&& found_at(program_address_search(seq![SEED_FUNDRAISER@, fund.maker@], ID@), accounts[3].address)
        &&& sysvars.unix_timestamp matches Ok(now) && has_ended(now, fund.time_started, fund.duration)
        &&& is_token_account(accounts[6])
        &&& le_u64(accounts[6].data@, 64) < fund.amount_to_raise
        &&& found_at(program_address_search(seq![SEED_CONTRIBUTOR@, accounts[3].address@, accounts[0].address@], ID@), accounts[4].address)
        &&& is_contributor_data(accounts[4].data@)
        &&& le_u64(accounts[4].data@, 2) != 0
        &&& found_at(token_account_search(accounts[0].address, accounts[7].address, accounts[2].address), accounts[5].address)
        &&& found_at(token_account_search(accounts[3].address, accounts[7].address, accounts[2].address), accounts[6].address)
    })
}

/// A refund is accepted exactly under `refund_accepted`, whatever the
/// recorded amount; it then moves exactly the recorded amount from the vault
/// back to the contributor's token account under the fundraiser's signature,
/// takes it off the fundraiser's total and closes the record into the
/// contributor's account.
pub proof fn lemma_refund_accepts_exactly(accounts: Seq<AccountSnapshot>, sysvars: Sysvars)
    ensures
        refund_spec(accounts, sysvars).outcome is Ok <==> refund_accepted(accounts, sysvars),
        refund_accepted(accounts, sysvars) ==> refund_spec(accounts, sysvars).actions == seq![
            Action::Transfer {
                from: 6,
                to: 5,
                authority: 3,
                amount: le_u64(accounts[4].data@, 2),
                signer: Some(FundraiserSigner {
                    maker: fundraiser_at(accounts[3].data@).maker,
                    bump: fundraiser_at(accounts[3].data@).bump,
                }),
            },
            Action::SubtractFromFundraiser { account: 3, amount: le_u64(accounts[4].data@, 2) },
            Action::CloseInto { account: 4, destination: 0 },
        ],
{
    if accounts.len() >= 9 && is_fundraiser_data(accounts[3].data@) {
        assert(seq![SEED_FUNDRAISER@, fundraiser_at(accounts[3].data@).maker@]
            == crate::state::fundraiser::fundraiser_seeds(fundraiser_at(accounts[3].data@).maker@));
        assert(seq![SEED_CONTRIBUTOR@, accounts[3].address@, accounts[0].address@]
            == crate::state::contributor::contributor_seeds(accounts[3].address@, accounts[0].address@));
    }
}

/// Where the fields of a fundraiser account stand: the discriminator 0 at
/// byte 0, then after the two header bytes the start time, the target and the
/// total (eight bytes each, little-endian, the first signed), the maker, the
/// mint, the bump and the duration; the account has at least 98 bytes.
pub proof fn lemma_fundraiser_layout(data: Seq<u8>)
    ensures
        fundraiser_from(data) is Ok <==> (data.len() >= 98 && data[0] == 0),
        fundraiser_from(data) matches Ok(f) ==> {
            &&& f.time_started == le_u64(data, 2) as i64
            &&& f.amount_to_raise == le_u64(data, 10)
            &&& f.current_amount == le_u64(data, 18)
            &&& f.maker@ == data.subrange(26, 58)
            &&& f.mint_to_raise@ == data.subrange(58, 90)
            &&& f.bump == data[90]
            &&& f.duration == data[91]
        },
{
    if data.len() >= 98 {
        crate::bytes::lemma_array32(data.subrange(26, 58));
        crate::bytes::lemma_array32(data.subrange(58, 90));
    }
}

/// Where a contributor account's amount stands: the discriminator 1 at byte
/// 0, the amount little-endian in bytes 2 to 10; the account has at least 10
/// bytes. Setting the amount leaves a record that reads as the new amount.
pub proof fn lemma_contributor_layout(data: Seq<u8>, amount: u64)
    ensures
        contributor_from(data) is Ok <==> (data.len() >= 10 && data[0] == 1),
        contributor_from(data) matches Ok(c) ==> c.amount == le_u64(data, 2),
        contributor_amount_set(data, amount) is Ok <==> contributor_from(data) is Ok,
        contributor_amount_set(data, amount) matches Ok(d) ==> d.len() == data.len() && contributor_from(d)
            == Ok::<Contributor, FundraiserError>(Contributor { amount }),
{
    if contributor_amount_set(data, amount) is Ok {
        let d = contributor_amount_set(data, amount).unwrap();
        vstd::bytes::lemma_auto_spec_u64_to_from_le_bytes();
        assert(d.subrange(2, 10) =~= vstd::bytes::spec_u64_to_le_bytes(amount));
    }
}

/// Adding to a fundraiser's total succeeds exactly when the sum fits, and
/// then raises the total by the amount; taking off succeeds exactly when the
/// amount is at most the total, and then lowers it by the amount.
pub proof fn lemma_credit_and_debit_arithmetic(f: Fundraiser, amount: u64)
    ensures
        credited(f, amount) is Some <==> f.current_amount + amount <= u64::MAX,
        credited(f, amount) matches Some(g) ==> g.current_amount == f.current_amount + amount,
        debited(f, amount) is Some <==> amount <= f.current_amount,
        debited(f, amount) matches Some(g) ==> g.current_amount == f.current_amount - amount,
{
}

/// The runtime reports a sysvar it could not read with an error of its own.
pub open spec fn runtime_reports(sysvars: Sysvars) -> bool {
    &&& sysvars.unix_timestamp matches Err(e) ==> e is Runtime
    &&& sysvars.lamports_per_byte matches Err(e) ==> e is Runtime
}

/// What each refusal of an opening means: too few accounts, an unsigned
/// maker, or a target not above three to the power of the mint's decimals.
pub proof fn lemma_initialize_refusals(data: Seq<u8>, accounts: Seq<AccountSnapshot>, sysvars: Sysvars)
    requires
        runtime_reports(sysvars),
    ensures
        accounts.len() < 7 ==> initialize_spec(data, accounts, sysvars) == refused(FundraiserError::NotEnoughAccountKeys),
        accounts.len() >= 7 && !accounts[0].is_signer
            ==> initialize_spec(data, accounts, sysvars) == refused(FundraiserError::MissingRequiredSignature),
        initialize_spec(data, accounts, sysvars).outcome == Err::<(), FundraiserError>(FundraiserError::Custom(ERR_INVALID_AMOUNT))
            ==> is_mint(accounts[1]) && le_u64(data, 0) <= pow(3, accounts[1].data@[44] as nat),
{
}

/// What each refusal of a contribution means: too few accounts; an unsigned
/// contributor; an amount of at most one unit; an amount above a tenth of
/// the target; a running total that would pass that tenth; an overflow of
/// the cap or of the running total; a fundraiser that no longer runs.
pub proof fn lemma_contribute_refusals(data: Seq<u8>, accounts: Seq<AccountSnapshot>, sysvars: Sysvars)
    requires
        runtime_reports(sysvars),
    ensures
        accounts.len() < 8 ==> contribute_spec(data, accounts, sysvars) == refused(FundraiserError::NotEnoughAccountKeys),
        accounts.len() >= 8 && !accounts[0].is_signer
            ==> contribute_spec(data, accounts, sysvars) == refused(FundraiserError::MissingRequiredSignature),
        contribute_spec(data, accounts, sysvars).outcome == Err::<(), FundraiserError>(FundraiserError::Custom(ERR_CONTRIBUTION_TOO_SMALL))
            ==> le_u64(data, 0) <= 1,
        contribute_spec(data, accounts, sysvars).outcome == Err::<(), FundraiserError>(FundraiserError::Custom(ERR_CONTRIBUTION_TOO_BIG))
            ==> le_u64(data, 0) > fundraiser_at(accounts[2].data@).amount_to_raise / 10,
        contribute_spec(data, accounts, sysvars).outcome == Err::<(), FundraiserError>(FundraiserError::Custom(ERR_MAXIMUM_CONTRIBUTIONS_REACHED))
            ==> recorded_before(accounts[3]) + le_u64(data, 0) > fundraiser_at(accounts[2].data@).amount_to_raise / 10,
        contribute_spec(data, accounts, sysvars).outcome == Err::<(), FundraiserError>(FundraiserError::Custom(ERR_ARITHMETIC_OVERFLOW))
            ==> fundraiser_at(accounts[2].data@).amount_to_raise * 10 > u64::MAX
                || recorded_before(accounts[3]) + le_u64(data, 0) > u64::MAX,
        contribute_spec(data, accounts, sysvars).outcome == Err::<(), FundraiserError>(FundraiserError::Custom(ERR_FUNDRAISER_ENDED))
            ==> (sysvars.unix_timestamp matches Ok(now) && !still_running(
                now,
                fundraiser_at(accounts[2].data@).time_started,
                fundraiser_at(accounts[2].data@).duration,
            )),
{
    if accounts.len() >= 8 && data.len() >= 8 && is_fundraiser_data(accounts[2].data@) {
        if crate::account::mint_decimals_of(accounts[1]) is Ok {
            lemma1_pow(accounts[1].data@[44] as nat);
        }
        lemma_contribution_cap_is_a_tenth(fundraiser_at(accounts[2].data@).amount_to_raise);
    }
}

/// What each refusal of a collection means: too few accounts, an unsigned
/// maker, or a vault below the target.
pub proof fn lemma_collect_refusals(accounts: Seq<AccountSnapshot>)
    ensures
        accounts.len() < 8 ==> check_contributions_spec(accounts) == refused(FundraiserError::NotEnoughAccountKeys),
        accounts.len() >= 8 && !accounts[0].is_signer
            ==> check_contributions_spec(accounts) == refused(FundraiserError::MissingRequiredSignature),
        check_contributions_spec(accounts).outcome == Err::<(), FundraiserError>(FundraiserError::Custom(ERR_TARGET_NOT_MET))
            ==> is_token_account(accounts[3]) && le_u64(accounts[3].data@, 64) < fundraiser_at(accounts[2].data@).amount_to_raise,
{
}

/// What each refusal of a refund means: too few accounts, an unsigned
/// contributor, a fundraiser that has not ended, or a vault at or above the
/// target.
pub proof fn lemma_refund_refusals(accounts: Seq<AccountSnapshot>, sysvars: Sysvars)
    requires
        runtime_reports(sysvars),
    ensures
        accounts.len() < 9 ==> refund_spec(accounts, sysvars) == refused(FundraiserError::NotEnoughAccountKeys),
        accounts.len() >= 9 && !accounts[0].is_signer
            ==> refund_spec(accounts, sysvars) == refused(FundraiserError::MissingRequiredSignature),
        refund_spec(accounts, sysvars).outcome == Err::<(), FundraiserError>(FundraiserError::Custom(ERR_FUNDRAISER_NOT_ENDED))
            ==> (sysvars.unix_timestamp matches Ok(now) && !has_ended(
                now,
                fundraiser_at(accounts[3].data@).time_started,
                fundraiser_at(accounts[3].data@).duration,
            )),
        refund_spec(accounts, sysvars).outcome == Err::<(), FundraiserError>(FundraiserError::Custom(ERR_TARGET_MET))
            ==> is_token_account(accounts[6]) && le_u64(accounts[6].data@, 64) >= fundraiser_at(accounts[3].data@).amount_to_raise,
{
}

} // verus!
