//! The emission controller's operations: per-category scheduled release,
//! the dynamic-mint variant, the tiered automatic burn, the native-currency
//! sweep, and the received-funds burn decision.
//!
//! Every operation takes the persisted configuration and the values the
//! host has already gathered (caller identity in canonical form, treasury
//! balance, total supply) and either returns one outbound instruction with
//! the configuration advanced exactly once, or an error with the
//! configuration untouched.

use vstd::prelude::*;

use crate::error::ContractError;
use crate::instructions::{
    BurnInstruction, BurnView, NativeBurnInstruction, NativeBurnView, NativeCoin,
    NativeTransferInstruction, NativeTransferView, TransferInstruction, TransferView,
};
use crate::state::{Category, ConfigView, EmissionConfig, VestingSchedule};

verus! {

/// Total supply at or above this threshold is burned at the high tier.
pub const BURN_TIER_THRESHOLD: u128 = 1_000_000_000;

/// The caller passes the authorization gate exactly when its canonical
/// address equals the configured trigger address.
pub open spec fn authorized(c: ConfigView, caller: Seq<u8>) -> bool {
    caller == c.trigger_addr
}

/// A release of the given category succeeds exactly when the caller is the
/// trigger, the schedule still has releases remaining, and the treasury
/// covers one monthly amount.
pub open spec fn release_accepts(
    c: ConfigView,
    category: Category,
    caller: Seq<u8>,
    treasury_balance: u128,
) -> bool {
    &&& authorized(c, caller)
    &&& !c.schedule(category).exhausted()
    &&& treasury_balance >= c.schedule(category).monthly_amount
}

/// The error a failing release reports: authorization is checked first,
/// then schedule bounds, then the treasury balance.
pub open spec fn release_error(
    c: ConfigView,
    category: Category,
    caller: Seq<u8>,
    treasury_balance: u128,
) -> ContractError {
    if !authorized(c, caller) {
        ContractError::Unauthorized
    } else if c.schedule(category).exhausted() {
        ContractError::ScheduleExhausted
    } else {
        ContractError::InsufficientTreasuryBalance
    }
}

/// The one transfer instruction a successful release of the given category
/// emits: the monthly amount of the emission token to the beneficiary.
pub open spec fn release_transfer(c: ConfigView, category: Category) -> TransferView {
    TransferView {
        token: c.token_addr,
        recipient: c.schedule(category).beneficiary,
        amount: c.schedule(category).monthly_amount,
    }
}

/// The configuration after a successful release of the given category: the
/// same configuration with that schedule's cursor advanced by exactly one.
pub open spec fn release_advanced(c: ConfigView, category: Category) -> ConfigView {
    c.with_schedule(category, c.schedule(category).advanced())
}

/// Advancing one schedule's cursor within bounds keeps every schedule's
/// cursor within bounds: the configuration invariant survives any sequence
/// of successful releases.
pub proof fn lemma_release_advanced_preserves_wf(c: ConfigView, category: Category)
    requires
        c.wf(),
        !c.schedule(category).exhausted(),
    ensures
        release_advanced(c, category).wf(),
{
}

/// A successful release is never a partial outcome beyond its own schedule:
/// the addresses are untouched, every other category's schedule is
/// untouched, and the selected schedule only has its cursor advanced.
pub proof fn lemma_release_advanced_touches_one_schedule(
    c: ConfigView,
    selected: Category,
    other: Category,
)
    ensures
        release_advanced(c, selected).token_addr == c.token_addr,
        release_advanced(c, selected).minter_addr == c.minter_addr,
        release_advanced(c, selected).trigger_addr == c.trigger_addr,
        release_advanced(c, selected).schedule(selected) == c.schedule(selected).advanced(),
        other != selected ==> release_advanced(c, selected).schedule(other) == c.schedule(other),
{
}

/// Byte-for-byte equality of two canonical addresses.
fn bytes_eq(a: &Vec<u8>, b: &Vec<u8>) -> (r: bool)
    ensures
        r == (a@ == b@),
{
    if a.len() != b.len() {
        return false;
    }
    let mut i: usize = 0;
    while i < a.len()
        invariant
            a@.len() == b@.len(),
            i <= a@.len(),
            forall|j: int| 0 <= j < i ==> a@[j] == b@[j],
        decreases a@.len() - i,
    {
        if a[i] != b[i] {
            return false;
        }
        i = i + 1;
    }
    proof {
        assert(a@ =~= b@);
    }
    true
}

/// Builds the controller's initial configuration from caller-supplied
/// addresses and schedule parameters. Every schedule's cursor starts at
/// zero, whatever the caller supplied.
pub fn instantiate(
    token_addr: Vec<u8>,
    minter_addr: Vec<u8>,
    trigger_addr: Vec<u8>,
    pair_vest: VestingSchedule,
    nft_vest: VestingSchedule,
    marketing_vest: VestingSchedule,
    game_vest: VestingSchedule,
    team_vest: VestingSchedule,
) -> (c: EmissionConfig)
    ensures
        c@.token_addr == token_addr@,
        c@.minter_addr == minter_addr@,
        c@.trigger_addr == trigger_addr@,
        c@.pair_vest == pair_vest@.reset(),
        c@.nft_vest == nft_vest@.reset(),
        c@.marketing_vest == marketing_vest@.reset(),
        c@.game_vest == game_vest@.reset(),
        c@.team_vest == team_vest@.reset(),
        c@.wf(),
{
    EmissionConfig {
        token_addr,
        minter_addr,
        trigger_addr,
        pair_vest: VestingSchedule::new(
            pair_vest.beneficiary,
            pair_vest.monthly_amount,
            pair_vest.month_count,
        ),
        nft_vest: VestingSchedule::new(
            nft_vest.beneficiary,
            nft_vest.monthly_amount,
            nft_vest.month_count,
        ),
        marketing_vest: VestingSchedule::new(
            marketing_vest.beneficiary,
            marketing_vest.monthly_amount,
            marketing_vest.month_count,
        ),
        game_vest: VestingSchedule::new(
            game_vest.beneficiary,
            game_vest.monthly_amount,
            game_vest.month_count,
        ),
        team_vest: VestingSchedule::new(
            team_vest.beneficiary,
            team_vest.monthly_amount,
            team_vest.month_count,
        ),
    }
}

/// The whole release contract: how the configuration after a release call
/// and its result relate to the configuration before it. On acceptance the
/// selected cursor advances by exactly one and exactly one transfer
/// instruction comes back; on refusal nothing changes and the error names
/// the first gate that refused.
pub open spec fn release_post(
    pre: ConfigView,
    post: ConfigView,
    r: Result<TransferInstruction, ContractError>,
    category: Category,
    caller: Seq<u8>,
    treasury_balance: u128,
) -> bool {
    &&& release_accepts(pre, category, caller, treasury_balance) ==> {
        &&& post == release_advanced(pre, category)
        &&& r matches Ok(t) && t@ == release_transfer(pre, category)
    }
    &&& !release_accepts(pre, category, caller, treasury_balance) ==> {
        &&& post == pre
        &&& r matches Err(e) && e == release_error(pre, category, caller, treasury_balance)
    }
}

/// The scheduled release, parametrized by beneficiary category.
///
/// On success the given category's cursor advances by exactly one and
/// exactly one transfer instruction comes back; on any failure the
/// configuration is returned untouched and the error says which gate
/// refused: authorization first, then schedule bounds, then the treasury
/// balance.
pub fn release(
    config: &mut EmissionConfig,
    category: Category,
    caller: &Vec<u8>,
    treasury_balance: u128,
) -> (r: Result<TransferInstruction, ContractError>)
    requires
        old(config)@.wf(),
    ensures
        final(config)@.wf(),
        release_post(old(config)@, final(config)@, r, category, caller@, treasury_balance),
{
    if !bytes_eq(caller, &config.trigger_addr) {
        return Err(ContractError::Unauthorized);
    }
    let schedule = config.schedule(category);
    if schedule.month_index >= schedule.month_count {
        return Err(ContractError::ScheduleExhausted);
    }
    if treasury_balance < schedule.monthly_amount {
        return Err(ContractError::InsufficientTreasuryBalance);
    }
    let instruction = TransferInstruction {
        token: config.token_addr.clone(),
        recipient: config.schedule(category).beneficiary.clone(),
        amount: config.schedule(category).monthly_amount,
    };
    config.advance(category);
    proof {
        lemma_release_advanced_preserves_wf(old(config)@, category);
    }
    Ok(instruction)
}

/// The scheduled release for the pair-liquidity contract.
pub fn emission2pair_contract(
    config: &mut EmissionConfig,
    caller: &Vec<u8>,
    treasury_balance: u128,
) -> (r: Result<TransferInstruction, ContractError>)
    requires
        old(config)@.wf(),
    ensures
        final(config)@.wf(),
        release_post(old(config)@, final(config)@, r, Category::Pair, caller@, treasury_balance),
{
    release(config, Category::Pair, caller, treasury_balance)
}

/// The scheduled release for the NFT-minter pool.
pub fn emission2nft_minter(
    config: &mut EmissionConfig,
    caller: &Vec<u8>,
    treasury_balance: u128,
) -> (r: Result<TransferInstruction, ContractError>)
    requires
        old(config)@.wf(),
    ensures
        final(config)@.wf(),
        release_post(old(config)@, final(config)@, r, Category::NftMinter, caller@, treasury_balance),
{
    release(config, Category::NftMinter, caller, treasury_balance)
}

/// The scheduled release for the marketing fund.
pub fn emission2marketing(
    config: &mut EmissionConfig,
    caller: &Vec<u8>,
    treasury_balance: u128,
) -> (r: Result<TransferInstruction, ContractError>)
    requires
        old(config)@.wf(),
    ensures
        final(config)@.wf(),
        release_post(old(config)@, final(config)@, r, Category::Marketing, caller@, treasury_balance),
{
    release(config, Category::Marketing, caller, treasury_balance)
}

/// The scheduled release for the mini-games fund.
pub fn emission2minigames(
    config: &mut EmissionConfig,
    caller: &Vec<u8>,
    treasury_balance: u128,
) -> (r: Result<TransferInstruction, ContractError>)
    requires
        old(config)@.wf(),
    ensures
        final(config)@.wf(),
        release_post(old(config)@, final(config)@, r, Category::MiniGames, caller@, treasury_balance),
{
    release(config, Category::MiniGames, caller, treasury_balance)
}

/// The scheduled release for the team fund.
pub fn emission2team(
    config: &mut EmissionConfig,
    caller: &Vec<u8>,
    treasury_balance: u128,
) -> (r: Result<TransferInstruction, ContractError>)
    requires
        old(config)@.wf(),
    ensures
        final(config)@.wf(),
        release_post(old(config)@, final(config)@, r, Category::Team, caller@, treasury_balance),
{
    release(config, Category::Team, caller, treasury_balance)
}

/// The dynamic mint succeeds exactly when the caller is the trigger and the
/// pair-liquidity schedule still has releases remaining; it performs no
/// treasury-balance check.
pub open spec fn dynamic_mint_accepts(c: ConfigView, caller: Seq<u8>) -> bool {
    &&& authorized(c, caller)
    &&& !c.schedule(Category::Pair).exhausted()
}

/// The dynamic-mint variant of the pair-liquidity release.
///
/// The caller-supplied `amount` is deliberately ignored: the emitted
/// transfer carries the pair schedule's fixed monthly amount, and the pair
/// schedule's cursor — the same cursor the scheduled pair release uses —
/// advances by one. Unlike the scheduled release, no treasury-balance check
/// is made: the instruction targets a mint rather than a transfer from
/// existing balance.
pub fn dynamic_mint(
    config: &mut EmissionConfig,
    caller: &Vec<u8>,
    _amount: u128,
) -> (r: Result<TransferInstruction, ContractError>)
    requires
        old(config)@.wf(),
    ensures
        final(config)@.wf(),
        dynamic_mint_accepts(old(config)@, caller@) ==> {
            &&& final(config)@ == release_advanced(old(config)@, Category::Pair)
            &&& r matches Ok(t) && t@ == release_transfer(old(config)@, Category::Pair)
        },
        !dynamic_mint_accepts(old(config)@, caller@) ==> {
            &&& final(config)@ == old(config)@
            &&& r matches Err(e) && e == (if !authorized(old(config)@, caller@) {
                ContractError::Unauthorized
            } else {
                ContractError::ScheduleExhausted
            })
        },
{
    if !bytes_eq(caller, &config.trigger_addr) {
        return Err(ContractError::Unauthorized);
    }
    let schedule = config.schedule(Category::Pair);
    if schedule.month_index >= schedule.month_count {
        return Err(ContractError::ScheduleExhausted);
    }
    let instruction = TransferInstruction {
        token: config.token_addr.clone(),
        recipient: config.pair_vest.beneficiary.clone(),
        amount: config.pair_vest.monthly_amount,
    };
    config.advance(Category::Pair);
    proof {
        lemma_release_advanced_preserves_wf(old(config)@, Category::Pair);
    }
    Ok(instruction)
}

/// The tiered burn amount: a quarter of the total supply at or above the
/// threshold, a hundredth below it; integer division, truncating.
pub open spec fn burn_amount(total_supply: u128) -> u128 {
    if total_supply >= BURN_TIER_THRESHOLD {
        total_supply / 4
    } else {
        total_supply / 100
    }
}

/// The automatic burn: for an authorized caller, one burn-from instruction
/// destroying the tiered fraction of the total supply, taken from the
/// pair-liquidity beneficiary's balance. The configuration is read, never
/// written: no schedule is touched.
pub fn automatic_burn(config: &EmissionConfig, caller: &Vec<u8>, total_supply: u128) -> (r: Result<
    BurnInstruction,
    ContractError,
>)
    ensures
        authorized(config@, caller@) ==> (r matches Ok(b) && b@ == (BurnView {
            token: config@.token_addr,
            owner: config@.schedule(Category::Pair).beneficiary,
            amount: burn_amount(total_supply),
        })),
        !authorized(config@, caller@) ==> (r matches Err(e) && e == ContractError::Unauthorized),
{
    if !bytes_eq(caller, &config.trigger_addr) {
        return Err(ContractError::Unauthorized);
    }
    let amount: u128 = if total_supply >= BURN_TIER_THRESHOLD {
        total_supply / 4
    } else {
        total_supply / 100
    };
    Ok(
        BurnInstruction {
            token: config.token_addr.clone(),
            owner: config.pair_vest.beneficiary.clone(),
            amount,
        },
    )
}

/// The byte name of the chain's native currency.
pub open spec fn native_denom() -> Seq<u8> {
    seq![117u8, 108u8, 117u8, 110u8, 97u8]
}

/// The native currency's denomination, `uluna`, as bytes.
pub fn native_denom_bytes() -> (r: Vec<u8>)
    ensures
        r@ == native_denom(),
{
    let mut v: Vec<u8> = Vec::new();
    v.push(117u8);
    v.push(108u8);
    v.push(117u8);
    v.push(110u8);
    v.push(97u8);
    proof {
        assert(v@ =~= native_denom());
    }
    v
}

/// The native-currency sweep: for an authorized caller, one instruction
/// moving the caller-specified amount of the native currency out of the
/// controller to the destination the caller supplied (canonical form). No
/// persisted state is touched.
#[allow(non_snake_case)]
pub fn sendLunc(
    config: &EmissionConfig,
    caller: &Vec<u8>,
    recipient: Vec<u8>,
    amount: u128,
) -> (r: Result<NativeTransferInstruction, ContractError>)
    ensures
        authorized(config@, caller@) ==> (r matches Ok(n) && n@ == (NativeTransferView {
            denom: native_denom(),
            recipient: recipient@,
            amount,
        })),
        !authorized(config@, caller@) ==> (r matches Err(e) && e == ContractError::Unauthorized),
{
    if !bytes_eq(caller, &config.trigger_addr) {
        return Err(ContractError::Unauthorized);
    }
    Ok(NativeTransferInstruction { denom: native_denom_bytes(), recipient, amount })
}

/// The received-funds decision: incoming funds are burned exactly when they
/// consist of a single coin of the native currency. The burn is taken from
/// the sender's balance, for the full attached amount; any other funds are
/// left alone.
pub fn receive(sender: &Vec<u8>, funds: &Vec<NativeCoin>) -> (r: Option<NativeBurnInstruction>)
    ensures
        r is Some <==> funds@.len() == 1 && funds@[0].denom@ == native_denom(),
        r matches Some(b) ==> b@ == (NativeBurnView {
            denom: native_denom(),
            from: sender@,
            amount: funds@[0].amount,
        }),
{
    if funds.len() == 1 {
        let denom = native_denom_bytes();
        if bytes_eq(&funds[0].denom, &denom) {
            return Some(
                NativeBurnInstruction {
                    denom,
                    from: sender.clone(),
                    amount: funds[0].amount,
                },
            );
        }
    }
    None
}

} // verus!
