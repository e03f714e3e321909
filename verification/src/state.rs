//! The controller's persisted state: one vesting schedule per beneficiary
//! category, plus the token, minter and trigger addresses.

use vstd::prelude::*;

verus! {

/// One beneficiary category, selecting which vesting schedule an operation
/// touches.
#[derive(Clone, Copy, PartialEq, Eq, Structural, Debug)]
pub enum Category {
    /// The pair-liquidity contract.
    Pair,
    /// The NFT-minter pool.
    NftMinter,
    /// The marketing fund.
    Marketing,
    /// The mini-games fund.
    MiniGames,
    /// The team fund.
    Team,
}

/// One beneficiary's vesting entitlement: a fixed amount released per
/// successful tick, the total number of releases the schedule is entitled
/// to, and a cursor counting the releases already performed.
pub struct VestingSchedule {
    /// Beneficiary address, in canonical form.
    pub beneficiary: Vec<u8>,
    /// Amount released per successful tick.
    pub monthly_amount: u128,
    /// Total number of releases the schedule is entitled to.
    pub month_count: u128,
    /// Releases already performed; starts at 0 and never exceeds
    /// `month_count`.
    pub month_index: u128,
}

/// The mathematical value of a [`VestingSchedule`].
pub ghost struct ScheduleView {
    pub beneficiary: Seq<u8>,
    pub monthly_amount: u128,
    pub month_count: u128,
    pub month_index: u128,
}

impl View for VestingSchedule {
    type V = ScheduleView;

    open spec fn view(&self) -> ScheduleView {
        ScheduleView {
            beneficiary: self.beneficiary@,
            monthly_amount: self.monthly_amount,
            month_count: self.month_count,
            month_index: self.month_index,
        }
    }
}

impl ScheduleView {
    /// The schedule invariant: the cursor never exceeds the release count.
    pub open spec fn wf(self) -> bool {
        self.month_index <= self.month_count
    }

    /// No releases remain: the cursor has reached the release count.
    pub open spec fn exhausted(self) -> bool {
        self.month_index >= self.month_count
    }

    /// The same schedule with the cursor advanced by exactly one.
    pub open spec fn advanced(self) -> ScheduleView {
        ScheduleView { month_index: (self.month_index + 1) as u128, ..self }
    }

    /// The same schedule with the cursor back at zero.
    pub open spec fn reset(self) -> ScheduleView {
        ScheduleView { month_index: 0, ..self }
    }
}

impl VestingSchedule {
    /// Builds a fresh schedule with the cursor at zero, whatever the caller
    /// supplied for the other fields.
    pub fn new(beneficiary: Vec<u8>, monthly_amount: u128, month_count: u128) -> (s: VestingSchedule)
        ensures
            s@ == (ScheduleView {
                beneficiary: beneficiary@,
                monthly_amount,
                month_count,
                month_index: 0,
            }),
            s@.wf(),
    {
        VestingSchedule { beneficiary, monthly_amount, month_count, month_index: 0 }
    }
}

/// The controller's whole persistent state: the emission-token address, the
/// minter address, the single authorized trigger address, and one vesting
/// schedule per beneficiary category. All addresses are canonical.
pub struct EmissionConfig {
    /// Address of the emission token's contract, in canonical form.
    pub token_addr: Vec<u8>,
    /// Address of the minter, in canonical form.
    pub minter_addr: Vec<u8>,
    /// The single address authorized to invoke mutating operations.
    pub trigger_addr: Vec<u8>,
    pub pair_vest: VestingSchedule,
    pub nft_vest: VestingSchedule,
    pub marketing_vest: VestingSchedule,
    pub game_vest: VestingSchedule,
    pub team_vest: VestingSchedule,
}

/// The mathematical value of an [`EmissionConfig`].
pub ghost struct ConfigView {
    pub token_addr: Seq<u8>,
    pub minter_addr: Seq<u8>,
    pub trigger_addr: Seq<u8>,
    pub pair_vest: ScheduleView,
    pub nft_vest: ScheduleView,
    pub marketing_vest: ScheduleView,
    pub game_vest: ScheduleView,
    pub team_vest: ScheduleView,
}

impl View for EmissionConfig {
    type V = ConfigView;

    open spec fn view(&self) -> ConfigView {
        ConfigView {
            token_addr: self.token_addr@,
            minter_addr: self.minter_addr@,
            trigger_addr: self.trigger_addr@,
            pair_vest: self.pair_vest@,
            nft_vest: self.nft_vest@,
            marketing_vest: self.marketing_vest@,
            game_vest: self.game_vest@,
            team_vest: self.team_vest@,
        }
    }
}

impl ConfigView {
    /// The schedule of the given category.
    pub open spec fn schedule(self, category: Category) -> ScheduleView {
        match category {
            Category::Pair => self.pair_vest,
            Category::NftMinter => self.nft_vest,
            Category::Marketing => self.marketing_vest,
            Category::MiniGames => self.game_vest,
            Category::Team => self.team_vest,
        }
    }

    /// The same configuration with the given category's schedule replaced.
    pub open spec fn with_schedule(self, category: Category, s: ScheduleView) -> ConfigView {
        match category {
            Category::Pair => ConfigView { pair_vest: s, ..self },
            Category::NftMinter => ConfigView { nft_vest: s, ..self },
            Category::Marketing => ConfigView { marketing_vest: s, ..self },
            Category::MiniGames => ConfigView { game_vest: s, ..self },
            Category::Team => ConfigView { team_vest: s, ..self },
        }
    }

    /// The configuration invariant: every schedule's cursor is within bounds.
    pub open spec fn wf(self) -> bool {
        &&& self.pair_vest.wf()
        &&& self.nft_vest.wf()
        &&& self.marketing_vest.wf()
        &&& self.game_vest.wf()
        &&& self.team_vest.wf()
    }
}

impl EmissionConfig {
    /// A shared borrow of the given category's schedule.
    pub fn schedule(&self, category: Category) -> (s: &VestingSchedule)
        ensures
            s@ == self@.schedule(category),
    {
        match category {
            Category::Pair => &self.pair_vest,
            Category::NftMinter => &self.nft_vest,
            Category::Marketing => &self.marketing_vest,
            Category::MiniGames => &self.game_vest,
            Category::Team => &self.team_vest,
        }
    }

    /// Advances the given category's cursor by exactly one, leaving every
    /// other field untouched.
    pub fn advance(&mut self, category: Category)
        requires
            !old(self)@.schedule(category).exhausted(),
        ensures
            final(self)@ == old(self)@.with_schedule(
                category,
                old(self)@.schedule(category).advanced(),
            ),
    {
        match category {
            Category::Pair => {
                self.pair_vest.month_index = self.pair_vest.month_index + 1;
            },
            Category::NftMinter => {
                self.nft_vest.month_index = self.nft_vest.month_index + 1;
            },
            Category::Marketing => {
                self.marketing_vest.month_index = self.marketing_vest.month_index + 1;
            },
            Category::MiniGames => {
                self.game_vest.month_index = self.game_vest.month_index + 1;
            },
            Category::Team => {
                self.team_vest.month_index = self.team_vest.month_index + 1;
            },
        }
    }
}

/// The team-address record kept by the pair contract.
pub struct Config {
    /// The team's address, in human-readable form.
    pub team_addr: String,
}

} // verus!
