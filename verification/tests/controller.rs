use terraswap_moon::contract::{
    automatic_burn, dynamic_mint, emission2marketing, emission2minigames, emission2nft_minter,
    emission2pair_contract, emission2team, instantiate, native_denom_bytes, receive, release,
    sendLunc,
};
use terraswap_moon::error::ContractError;
use terraswap_moon::instructions::NativeCoin;
use terraswap_moon::state::{Category, EmissionConfig, VestingSchedule};

fn addr(tag: u8) -> Vec<u8> {
    vec![tag, tag, tag]
}

fn schedule(tag: u8, monthly_amount: u128, month_count: u128) -> VestingSchedule {
    VestingSchedule {
        beneficiary: addr(tag),
        monthly_amount,
        month_count,
        month_index: 0,
    }
}

fn config() -> EmissionConfig {
    EmissionConfig {
        token_addr: addr(9),
        minter_addr: addr(8),
        trigger_addr: addr(1),
        pair_vest: schedule(10, 100, 12),
        nft_vest: schedule(11, 200, 6),
        marketing_vest: schedule(12, 300, 24),
        game_vest: schedule(13, 400, 3),
        team_vest: schedule(14, 500, 48),
    }
}

fn trigger() -> Vec<u8> {
    addr(1)
}

#[test]
fn instantiate_zeroes_every_cursor() {
    let mut pair = schedule(10, 100, 12);
    pair.month_index = 7;
    let mut team = schedule(14, 500, 48);
    team.month_index = 3;
    let c = instantiate(
        addr(9),
        addr(8),
        addr(1),
        pair,
        schedule(11, 200, 6),
        schedule(12, 300, 24),
        schedule(13, 400, 3),
        team,
    );
    assert_eq!(c.token_addr, addr(9));
    assert_eq!(c.minter_addr, addr(8));
    assert_eq!(c.trigger_addr, addr(1));
    assert_eq!(c.pair_vest.month_index, 0);
    assert_eq!(c.pair_vest.monthly_amount, 100);
    assert_eq!(c.pair_vest.month_count, 12);
    assert_eq!(c.pair_vest.beneficiary, addr(10));
    assert_eq!(c.team_vest.month_index, 0);
    assert_eq!(c.team_vest.monthly_amount, 500);
}

#[test]
fn release_success_emits_one_transfer_and_advances_once() {
    let mut c = config();
    let t = release(&mut c, Category::Marketing, &trigger(), 1_000).unwrap();
    assert_eq!(t.token, addr(9));
    assert_eq!(t.recipient, addr(12));
    assert_eq!(t.amount, 300);
    assert_eq!(c.marketing_vest.month_index, 1);
    // every other schedule is untouched
    assert_eq!(c.pair_vest.month_index, 0);
    assert_eq!(c.nft_vest.month_index, 0);
    assert_eq!(c.game_vest.month_index, 0);
    assert_eq!(c.team_vest.month_index, 0);
}

#[test]
fn release_from_stranger_is_unauthorized_and_changes_nothing() {
    let mut c = config();
    let r = release(&mut c, Category::Pair, &addr(2), 1_000_000);
    assert_eq!(r.unwrap_err(), ContractError::Unauthorized);
    assert_eq!(c.pair_vest.month_index, 0);
    // even an exhausted schedule reports Unauthorized first
    let mut c2 = config();
    c2.game_vest.month_index = 3;
    let r2 = release(&mut c2, Category::MiniGames, &addr(2), 1_000_000);
    assert_eq!(r2.unwrap_err(), ContractError::Unauthorized);
    assert_eq!(c2.game_vest.month_index, 3);
}

#[test]
fn release_on_exhausted_schedule_fails_even_for_trigger() {
    let mut c = config();
    c.nft_vest.month_index = 6;
    let r = release(&mut c, Category::NftMinter, &trigger(), 1_000_000);
    assert_eq!(r.unwrap_err(), ContractError::ScheduleExhausted);
    assert_eq!(c.nft_vest.month_index, 6);
}

#[test]
fn release_with_short_treasury_fails_and_changes_nothing() {
    let mut c = config();
    let r = release(&mut c, Category::Team, &trigger(), 499);
    assert_eq!(r.unwrap_err(), ContractError::InsufficientTreasuryBalance);
    assert_eq!(c.team_vest.month_index, 0);
}

#[test]
fn pair_release_sequence_runs_twelve_times_then_exhausts() {
    let mut c = config();
    assert_eq!(c.pair_vest.month_index, 0);
    let t1 = release(&mut c, Category::Pair, &trigger(), 100).unwrap();
    assert_eq!(t1.amount, 100);
    assert_eq!(c.pair_vest.month_index, 1);
    let t2 = release(&mut c, Category::Pair, &trigger(), 100).unwrap();
    assert_eq!(t2.amount, 100);
    assert_eq!(c.pair_vest.month_index, 2);
    for i in 2..12 {
        let t = release(&mut c, Category::Pair, &trigger(), 100).unwrap();
        assert_eq!(t.amount, 100);
        assert_eq!(c.pair_vest.month_index, i + 1);
    }
    let thirteenth = release(&mut c, Category::Pair, &trigger(), 100);
    assert_eq!(thirteenth.unwrap_err(), ContractError::ScheduleExhausted);
    assert_eq!(c.pair_vest.month_index, 12);
}

#[test]
fn named_category_operations_touch_their_own_schedule() {
    let mut c = config();
    emission2pair_contract(&mut c, &trigger(), 1_000_000).unwrap();
    emission2nft_minter(&mut c, &trigger(), 1_000_000).unwrap();
    emission2marketing(&mut c, &trigger(), 1_000_000).unwrap();
    emission2minigames(&mut c, &trigger(), 1_000_000).unwrap();
    emission2team(&mut c, &trigger(), 1_000_000).unwrap();
    assert_eq!(c.pair_vest.month_index, 1);
    assert_eq!(c.nft_vest.month_index, 1);
    assert_eq!(c.marketing_vest.month_index, 1);
    assert_eq!(c.game_vest.month_index, 1);
    assert_eq!(c.team_vest.month_index, 1);
}

#[test]
fn dynamic_mint_ignores_amount_and_skips_balance_check() {
    let mut c = config();
    let t = dynamic_mint(&mut c, &trigger(), 777_777).unwrap();
    // the fixed monthly amount is used, not the caller's amount
    assert_eq!(t.amount, 100);
    assert_eq!(t.recipient, addr(10));
    assert_eq!(t.token, addr(9));
    assert_eq!(c.pair_vest.month_index, 1);
}

#[test]
fn dynamic_mint_shares_the_pair_cursor_with_the_scheduled_release() {
    let mut c = config();
    release(&mut c, Category::Pair, &trigger(), 100).unwrap();
    dynamic_mint(&mut c, &trigger(), 1).unwrap();
    // mixed usage advances the one shared cursor twice
    assert_eq!(c.pair_vest.month_index, 2);
}

#[test]
fn dynamic_mint_respects_auth_and_bounds() {
    let mut c = config();
    let r = dynamic_mint(&mut c, &addr(2), 1);
    assert_eq!(r.unwrap_err(), ContractError::Unauthorized);
    c.pair_vest.month_index = 12;
    let r2 = dynamic_mint(&mut c, &trigger(), 1);
    assert_eq!(r2.unwrap_err(), ContractError::ScheduleExhausted);
    assert_eq!(c.pair_vest.month_index, 12);
}

#[test]
fn burn_uses_the_quarter_tier_at_four_billion() {
    let c = config();
    let b = automatic_burn(&c, &trigger(), 4_000_000_000).unwrap();
    assert_eq!(b.amount, 1_000_000_000);
    assert_eq!(b.token, addr(9));
    assert_eq!(b.owner, addr(10));
}

#[test]
fn burn_uses_the_hundredth_tier_below_the_threshold() {
    let c = config();
    let b = automatic_burn(&c, &trigger(), 500).unwrap();
    assert_eq!(b.amount, 5);
    // truncating division
    let b2 = automatic_burn(&c, &trigger(), 599).unwrap();
    assert_eq!(b2.amount, 5);
}

#[test]
fn burn_at_the_threshold_boundary() {
    let c = config();
    let high = automatic_burn(&c, &trigger(), 1_000_000_000).unwrap();
    assert_eq!(high.amount, 250_000_000);
    let low = automatic_burn(&c, &trigger(), 999_999_999).unwrap();
    assert_eq!(low.amount, 9_999_999);
}

#[test]
fn burn_rejects_strangers_and_touches_no_schedule() {
    let c = config();
    let r = automatic_burn(&c, &addr(3), 4_000_000_000);
    assert_eq!(r.unwrap_err(), ContractError::Unauthorized);
    assert_eq!(c.pair_vest.month_index, 0);
    assert_eq!(c.team_vest.month_index, 0);
}

#[test]
fn send_lunc_moves_native_currency_for_the_trigger_only() {
    let c = config();
    let n = sendLunc(&c, &trigger(), addr(5), 42).unwrap();
    assert_eq!(n.denom, b"uluna".to_vec());
    assert_eq!(n.recipient, addr(5));
    assert_eq!(n.amount, 42);
    let r = sendLunc(&c, &addr(4), addr(5), 42);
    assert_eq!(r.unwrap_err(), ContractError::Unauthorized);
}

#[test]
fn receive_burns_a_single_native_coin() {
    let funds = vec![NativeCoin { denom: b"uluna".to_vec(), amount: 55 }];
    let b = receive(&addr(6), &funds).unwrap();
    assert_eq!(b.denom, b"uluna".to_vec());
    assert_eq!(b.from, addr(6));
    assert_eq!(b.amount, 55);
}

#[test]
fn receive_ignores_other_funds() {
    assert!(receive(&addr(6), &vec![]).is_none());
    let wrong = vec![NativeCoin { denom: b"uusd".to_vec(), amount: 55 }];
    assert!(receive(&addr(6), &wrong).is_none());
    let two = vec![
        NativeCoin { denom: b"uluna".to_vec(), amount: 55 },
        NativeCoin { denom: b"uluna".to_vec(), amount: 56 },
    ];
    assert!(receive(&addr(6), &two).is_none());
}

#[test]
fn native_denom_is_uluna() {
    assert_eq!(native_denom_bytes(), b"uluna".to_vec());
}
