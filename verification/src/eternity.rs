//! Eternity: the second prestige layer. An Eternity resets the whole Infinity
//! layer; the Eternity Milestones (by Eternities performed) soften that reset.
use vstd::prelude::*;
use crate::state::{GameState, DimensionTier, TickspeedState, ReplicantiState, RequirementChecks,
    Autobuyers, AutobuyerUnlock};
use crate::challenges::NormalChallengeState;
use crate::infinity_challenges::InfinityChallengeState;
use crate::dilation::DilationState;
use crate::infinity_dimensions::InfinityDimension;

verus! {

/// The bits of all 16 Infinity Upgrades.
pub const ALL_INFINITY_UPGRADE_BITS: u32 = 0xFFFF;

/// The bits of the nine one-time Break Infinity Upgrades.
pub const ALL_BREAK_INFINITY_UPGRADE_BITS: u32 = 0x1FF;

/// The completed-bitmask with every normal challenge (bits 1–12) set.
pub const ALL_NORMAL_CHALLENGES_COMPLETED: u16 = 0x1FFE;

/// Eight dimension tiers with nothing bought.
pub open spec fn cleared_dimensions() -> [DimensionTier; 8] {
    [
        DimensionTier { bought: 0, cost_bumps: 0 },
        DimensionTier { bought: 0, cost_bumps: 0 },
        DimensionTier { bought: 0, cost_bumps: 0 },
        DimensionTier { bought: 0, cost_bumps: 0 },
        DimensionTier { bought: 0, cost_bumps: 0 },
        DimensionTier { bought: 0, cost_bumps: 0 },
        DimensionTier { bought: 0, cost_bumps: 0 },
        DimensionTier { bought: 0, cost_bumps: 0 },
    ]
}

/// Eight Infinity Dimensions, locked and unbought.
pub open spec fn cleared_infinity_dimensions() -> [InfinityDimension; 8] {
    [
        InfinityDimension { base_amount: 0, is_unlocked: false },
        InfinityDimension { base_amount: 0, is_unlocked: false },
        InfinityDimension { base_amount: 0, is_unlocked: false },
        InfinityDimension { base_amount: 0, is_unlocked: false },
        InfinityDimension { base_amount: 0, is_unlocked: false },
        InfinityDimension { base_amount: 0, is_unlocked: false },
        InfinityDimension { base_amount: 0, is_unlocked: false },
        InfinityDimension { base_amount: 0, is_unlocked: false },
    ]
}

/// Eight Infinity Dimensions, locked and unbought.
pub fn new_infinity_dimensions() -> (r: [InfinityDimension; 8])
    ensures
        r == cleared_infinity_dimensions(),
{
    [
        InfinityDimension { base_amount: 0, is_unlocked: false },
        InfinityDimension { base_amount: 0, is_unlocked: false },
        InfinityDimension { base_amount: 0, is_unlocked: false },
        InfinityDimension { base_amount: 0, is_unlocked: false },
        InfinityDimension { base_amount: 0, is_unlocked: false },
        InfinityDimension { base_amount: 0, is_unlocked: false },
        InfinityDimension { base_amount: 0, is_unlocked: false },
        InfinityDimension { base_amount: 0, is_unlocked: false },
    ]
}

/// The autobuyer state with every challenge-reward autobuyer bought (`b`) or
/// none bought (`!b`).
pub open spec fn uniform_autobuyers(b: bool) -> Autobuyers {
    Autobuyers {
        dimensions: [
            AutobuyerUnlock { is_bought: b },
            AutobuyerUnlock { is_bought: b },
            AutobuyerUnlock { is_bought: b },
            AutobuyerUnlock { is_bought: b },
            AutobuyerUnlock { is_bought: b },
            AutobuyerUnlock { is_bought: b },
            AutobuyerUnlock { is_bought: b },
            AutobuyerUnlock { is_bought: b },
        ],
        tickspeed: AutobuyerUnlock { is_bought: b },
    }
}

/// Eight dimension tiers with nothing bought.
pub fn new_dimensions() -> (r: [DimensionTier; 8])
    ensures
        r == cleared_dimensions(),
{
    [
        DimensionTier { bought: 0, cost_bumps: 0 },
        DimensionTier { bought: 0, cost_bumps: 0 },
        DimensionTier { bought: 0, cost_bumps: 0 },
        DimensionTier { bought: 0, cost_bumps: 0 },
        DimensionTier { bought: 0, cost_bumps: 0 },
        DimensionTier { bought: 0, cost_bumps: 0 },
        DimensionTier { bought: 0, cost_bumps: 0 },
        DimensionTier { bought: 0, cost_bumps: 0 },
    ]
}

/// Autobuyers all bought (`b`) or none bought (`!b`).
pub fn new_autobuyers(b: bool) -> (r: Autobuyers)
    ensures
        r == uniform_autobuyers(b),
{
    Autobuyers {
        dimensions: [
            AutobuyerUnlock { is_bought: b },
            AutobuyerUnlock { is_bought: b },
            AutobuyerUnlock { is_bought: b },
            AutobuyerUnlock { is_bought: b },
            AutobuyerUnlock { is_bought: b },
            AutobuyerUnlock { is_bought: b },
            AutobuyerUnlock { is_bought: b },
            AutobuyerUnlock { is_bought: b },
        ],
        tickspeed: AutobuyerUnlock { is_bought: b },
    }
}

impl GameState {
    /// Whether the Eternity Milestone needing `n` Eternities is reached.
    pub open spec fn milestone(&self, n: u64) -> bool {
        self.eternities >= n
    }

    /// The state after the layer reset shared by an Eternity and the start of
    /// an Eternity Challenge.
    pub open spec fn eternity_reset_core_spec(&self) -> GameState {
        let keep_autobuyers = self.milestone(2);
        let keep_infinity_upgrades = self.milestone(4);
        let keep_break_upgrades = self.milestone(8);
        GameState {
            challenge: NormalChallengeState {
                current: 0,
                completed: if keep_autobuyers { ALL_NORMAL_CHALLENGES_COMPLETED } else { 0 },
            },
            infinity_challenge: InfinityChallengeState { current: 0, completed: 0 },
            autobuyers: if keep_autobuyers { uniform_autobuyers(true) } else { self.autobuyers },
            infinities: 0,
            dim_boosts: if keep_infinity_upgrades { 4 } else { 0 },
            galaxies: if keep_infinity_upgrades { 1 } else { 0 },
            total_tick_gained: 0,
            eterc8_ids: 50,
            eterc8_repl: 40,
            replicanti: ReplicantiState { unlocked: self.milestone(10), galaxies: 0 },
            post_c4_tier: 1,
            dimensions: cleared_dimensions(),
            infinity_dimensions: cleared_infinity_dimensions(),
            tickspeed: TickspeedState { bought: 0, cost_bumps: 0 },
            infinity_upgrades: if keep_infinity_upgrades { ALL_INFINITY_UPGRADE_BITS } else { 0 },
            break_infinity_upgrades: if keep_break_upgrades { ALL_BREAK_INFINITY_UPGRADE_BITS } else { 0 },
            infinity_rebuyables: if keep_break_upgrades { [8u32, 7u32, 10u32] } else { [0u32, 0u32, 0u32] },
            requirement_checks: RequirementChecks { eternity_no_rg: true, ..self.requirement_checks },
            ..*self
        }
    }

    /// The state after a full (reward-free) Eternity reset; `studies` stands
    /// for the Time Study list after the respec, which is empty when the
    /// respec happens.
    pub open spec fn eternity_full_reset_spec(&self, entering_ec: bool, studies: Vec<u16>) -> GameState {
        let keep_autobuyers = self.milestone(2);
        let a = GameState {
            dilation: if self.dilation.active && !entering_ec {
                DilationState { active: false, ..self.dilation }
            } else {
                self.dilation
            },
            eternity_challenge_current: 0,
            broke_infinity: if keep_autobuyers { self.broke_infinity } else { false },
            autobuyers: if keep_autobuyers { self.autobuyers } else { uniform_autobuyers(false) },
            ..*self
        };
        let b = a.eternity_reset_core_spec();
        if !entering_ec && self.respec {
            GameState { time_studies: studies, respec: false, eternity_challenge_unlocked: 0, ..b }
        } else {
            b
        }
    }

    /// Whether the milestone requiring `eternities` Eternities is reached.
    pub fn eternity_milestone_reached(&self, eternities: u64) -> (r: bool)
        ensures
            r == self.milestone(eternities),
    {
        self.eternities >= eternities
    }

    /// The Infinity-Upgrade state an Eternity leaves: with 8 Eternities every
    /// Infinity and Break Infinity Upgrade and maxed rebuyables; with 4 all 16
    /// Infinity Upgrades only; below that nothing.
    fn reset_infinity_upgrades_on_eternity(&mut self)
        ensures
            *final(self) == (GameState {
                infinity_upgrades: old(self).eternity_reset_core_spec().infinity_upgrades,
                break_infinity_upgrades: old(self).eternity_reset_core_spec().break_infinity_upgrades,
                infinity_rebuyables: old(self).eternity_reset_core_spec().infinity_rebuyables,
                ..*old(self)
            }),
    {
        if self.eternity_milestone_reached(8) {
            self.infinity_upgrades = ALL_INFINITY_UPGRADE_BITS;
            self.break_infinity_upgrades = ALL_BREAK_INFINITY_UPGRADE_BITS;
            self.infinity_rebuyables = [8, 7, 10];
        } else if self.eternity_milestone_reached(4) {
            self.infinity_upgrades = ALL_INFINITY_UPGRADE_BITS;
            self.break_infinity_upgrades = 0;
            self.infinity_rebuyables = [0, 0, 0];
        } else {
            self.infinity_upgrades = 0;
            self.break_infinity_upgrades = 0;
            self.infinity_rebuyables = [0, 0, 0];
        }
    }

    /// Unless the keepAutobuyers milestone (2 Eternities) is reached, the
    /// challenge-reward autobuyers are lost on an Eternity.
    fn reset_autobuyers_on_eternity(&mut self)
        ensures
            *final(self) == (GameState {
                autobuyers: if old(self).milestone(2) { old(self).autobuyers } else { uniform_autobuyers(false) },
                ..*old(self)
            }),
    {
        if self.eternity_milestone_reached(2) {
            return;
        }
        self.autobuyers = new_autobuyers(false);
    }

    /// The layer reset shared by an Eternity and the start of an Eternity
    /// Challenge: challenge completions (all normal challenges come back
    /// completed with 2 Eternities), Infinities, boosts and galaxies (4 and 1
    /// with 4 Eternities), dimensions, Replicanti (kept unlocked with 10) and
    /// the Infinity Upgrades.
    pub(crate) fn eternity_reset_core(&mut self)
        ensures
            *final(self) == old(self).eternity_reset_core_spec(),
    {
        self.challenge = NormalChallengeState { current: 0, completed: 0 };
        self.infinity_challenge = InfinityChallengeState { current: 0, completed: 0 };
        if self.eternity_milestone_reached(2) {
            self.challenge.completed = ALL_NORMAL_CHALLENGES_COMPLETED;
            self.autobuyers = new_autobuyers(true);
        }
        self.infinities = 0;
        let keep_infinity_upgrades = self.eternity_milestone_reached(4);
        self.dim_boosts = if keep_infinity_upgrades { 4 } else { 0 };
        self.galaxies = if keep_infinity_upgrades { 1 } else { 0 };
        self.total_tick_gained = 0;
        self.eterc8_ids = 50;
        self.eterc8_repl = 40;
        let keep_replicanti = self.eternity_milestone_reached(10);
        self.replicanti = ReplicantiState { unlocked: keep_replicanti, galaxies: 0 };
        self.post_c4_tier = 1;
        self.dimensions = new_dimensions();
        self.infinity_dimensions = new_infinity_dimensions();
        self.tickspeed = TickspeedState { bought: 0, cost_bumps: 0 };
        self.reset_infinity_upgrades_on_eternity();
        self.requirement_checks.eternity_no_rg = true;
    }

    /// Respec the Time Study tree: every study is given back, the held
    /// Eternity Challenge unlock study among them.
    pub fn respec_time_studies_now(&mut self)
        ensures
            final(self).time_studies@ == Seq::<u16>::empty(),
            old(self).time_studies@.len() == 0 ==> final(self).time_studies == old(self).time_studies,
            *final(self) == (GameState {
                time_studies: final(self).time_studies,
                eternity_challenge_unlocked: 0,
                ..*old(self)
            }),
    {
        if self.time_studies.len() > 0 {
            self.time_studies = Vec::new();
        }
        self.eternity_challenge_unlocked = 0;
    }

    /// The full reward-free Eternity reset: a dilated run ends (unless
    /// entering an Eternity Challenge), the running Eternity Challenge is left,
    /// Infinity un-breaks and the autobuyers are lost below 2 Eternities, the
    /// shared layer reset runs, and a pending respec is carried out.
    fn eternity_full_reset(&mut self, entering_ec: bool)
        ensures
            *final(self) == old(self).eternity_full_reset_spec(entering_ec, final(self).time_studies),
            final(self).time_studies@ == (if !entering_ec && old(self).respec {
                Seq::<u16>::empty()
            } else {
                old(self).time_studies@
            }),
            (entering_ec || !old(self).respec || old(self).time_studies@.len() == 0)
                ==> final(self).time_studies == old(self).time_studies,
    {
        if self.dilation.active {
            if !entering_ec {
                self.dilation.active = false;
            }
        }
        self.eternity_challenge_current = 0;
        if !self.eternity_milestone_reached(2) {
            self.broke_infinity = false;
        }
        self.reset_autobuyers_on_eternity();
        self.eternity_reset_core();
        if !entering_ec && self.respec {
            self.respec_time_studies_now();
            self.respec = false;
        }
    }

    /// Whether an Eternity can be performed: inside an Eternity Challenge,
    /// the peak IP meets the goal of its current tier (`ec_goals_met` is how
    /// many of its tiers' goals the peak IP meets); otherwise the peak IP has
    /// reached 1.8e308 (`ip_at_limit`).
    pub open spec fn can_eternity_spec(&self, ip_at_limit: bool, ec_goals_met: u16) -> bool {
        if self.eternity_challenge_current != 0 {
            let ec = self.eternity_challenge_current;
            let c = self.ec_completions_spec(ec);
            let m = self.ec_max_completions_spec(ec);
            (if c < m - 1 { c as int } else { m - 1 }) < ec_goals_met
        } else {
            ip_at_limit
        }
    }

    /// The rewards of an Eternity before its reset: the gained Eternities,
    /// Eternity unlocked, and Reality Upgrades' "no Eternities" spoiled.
    pub open spec fn eternity_rewards_spec(&self, gained_eternities: u64) -> GameState {
        GameState {
            eternities: self.eternities.saturating_add(gained_eternities),
            eternity_unlocked: true,
            requirement_checks: RequirementChecks { reality_no_eternities: false, ..self.requirement_checks },
            ..*self
        }
    }

    /// Time Study 191 banks 5% of the Infinities on an Eternity.
    pub open spec fn infinities_banked_spec(&self) -> GameState {
        if self.has_time_study(191) {
            GameState { infinities_banked: self.infinities_banked.saturating_add(self.infinities / 20), ..*self }
        } else {
            *self
        }
    }

    /// The state after a rewarded Eternity; `studies` stands for the Time
    /// Study list it leaves.
    pub open spec fn eternity_spec(&self, entering_ec: bool, ec_goals_met: u16, gained_eternities: u64,
        studies: Vec<u16>) -> GameState
    {
        let a = self.eternity_rewards_spec(gained_eternities);
        let b = if self.eternity_challenge_current != 0 { a.ec_banked_spec(ec_goals_met, studies) } else { a };
        b.infinities_banked_spec().eternity_full_reset_spec(entering_ec, studies).effarig_eternity_spec()
    }

    /// Whether an Eternity can be performed (see `can_eternity_spec`).
    pub fn can_eternity(&self, ip_at_limit: bool, ec_goals_met: u16) -> (r: bool)
        ensures
            r == self.can_eternity_spec(ip_at_limit, ec_goals_met),
    {
        if self.eternity_challenge_current != 0 {
            let ec = self.eternity_challenge_current;
            let c = self.eternity_challenge_completions(ec);
            let m = self.ec_max_completions(ec);
            let tier = if c < m - 1 { c } else { m - 1 };
            tier < ec_goals_met
        } else {
            ip_at_limit
        }
    }

    fn grant_eternity_rewards(&mut self, gained_eternities: u64)
        ensures
            *final(self) == old(self).eternity_rewards_spec(gained_eternities),
    {
        self.eternities = self.eternities.saturating_add(gained_eternities);
        self.eternity_unlocked = true;
        self.requirement_checks.reality_no_eternities = false;
    }

    fn bank_infinities(&mut self)
        ensures
            *final(self) == old(self).infinities_banked_spec(),
    {
        if self.time_study_bought(191) {
            self.infinities_banked = self.infinities_banked.saturating_add(self.infinities / 20);
        }
    }

    /// A rewarded Eternity when allowed: the gained Eternities
    /// (`gained_eternities`), a completion of the running Eternity Challenge
    /// banked, Time Study 191's Infinity banking, the full Eternity reset
    /// (without respec when `entering_ec`), and Effarig's Eternity stage.
    /// Returns whether it happened.
    pub(crate) fn eternity_with_options(&mut self, entering_ec: bool, ip_at_limit: bool, ec_goals_met: u16,
        gained_eternities: u64) -> (r: bool)
        requires
            old(self).eternity_challenge_current <= 12,
        ensures
            r == old(self).can_eternity_spec(ip_at_limit, ec_goals_met),
            !r ==> *final(self) == *old(self),
            r ==> *final(self) == old(self).eternity_spec(entering_ec, ec_goals_met, gained_eternities,
                final(self).time_studies),
            r ==> final(self).time_studies@ == (if old(self).eternity_challenge_current != 0
                || (!entering_ec && old(self).respec) {
                Seq::<u16>::empty()
            } else {
                old(self).time_studies@
            }),
    {
        if !self.can_eternity(ip_at_limit, ec_goals_met) {
            return false;
        }
        let ghost s0 = *self;
        self.grant_eternity_rewards(gained_eternities);
        let ghost s1 = *self;
        let running = self.any_ec_running();
        if running {
            self.complete_running_ec(ec_goals_met);
        }
        let ghost s2 = *self;
        self.bank_infinities();
        let ghost s3 = *self;
        self.eternity_full_reset(entering_ec);
        let ghost s4 = *self;
        self.effarig_on_eternity();
        proof {
            assert(s4.time_studies == self.time_studies);
            if running {
                assert(s3.time_studies == s2.time_studies);
                assert(s4.time_studies == s3.time_studies);
                assert(s2 == s1.ec_banked_spec(ec_goals_met, self.time_studies));
            } else {
                assert(s2 == s1);
            }
            assert(s3 == s2.infinities_banked_spec());
            assert(s4 == s3.eternity_full_reset_spec(entering_ec, self.time_studies));
        }
        true
    }

    /// Perform an Eternity when allowed (see `eternity_with_options`).
    /// Returns whether it happened.
    pub fn eternity(&mut self, ip_at_limit: bool, ec_goals_met: u16, gained_eternities: u64) -> (r: bool)
        requires
            old(self).eternity_challenge_current <= 12,
        ensures
            r == old(self).can_eternity_spec(ip_at_limit, ec_goals_met),
            !r ==> *final(self) == *old(self),
            r ==> *final(self) == old(self).eternity_spec(false, ec_goals_met, gained_eternities,
                final(self).time_studies),
            r ==> final(self).time_studies@ == (if old(self).eternity_challenge_current != 0 || old(self).respec {
                Seq::<u16>::empty()
            } else {
                old(self).time_studies@
            }),
    {
        self.eternity_with_options(false, ip_at_limit, ec_goals_met, gained_eternities)
    }

    /// The reward-free Eternity reset (what leaving an Eternity Challenge does).
    pub(crate) fn eternity_reset(&mut self)
        ensures
            *final(self) == old(self).eternity_full_reset_spec(false, final(self).time_studies),
            final(self).time_studies@ == (if old(self).respec {
                Seq::<u16>::empty()
            } else {
                old(self).time_studies@
            }),
    {
        self.eternity_full_reset(false);
    }
}

} // verus!
