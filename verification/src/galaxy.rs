//! Antimatter Galaxies and Dimension Boosts: their requirements, purchases
//! and the soft reset they trigger.
use vstd::prelude::*;
use crate::state::{GameState, TickspeedState, RequirementChecks};
use crate::eternity::cleared_dimensions;
use crate::infinity_upgrades::InfinityUpgrade;

verus! {

/// 8th Dimensions required for the first Galaxy.
pub const FIRST_GALAXY_REQUIREMENT: u64 = 80;
/// Additional 8th Dimensions per Galaxy.
pub const GALAXY_REQUIREMENT_INCREMENT: u64 = 60;
/// 6th Dimensions required for the first Galaxy in Normal Challenge 10.
pub const NC10_FIRST_GALAXY_REQUIREMENT: u64 = 99;
/// Additional 6th Dimensions per Galaxy in Normal Challenge 10.
pub const NC10_GALAXY_REQUIREMENT_INCREMENT: u64 = 90;
/// Dimensions required for a Dimension Boost before scaling.
pub const DIM_BOOST_INITIAL_REQUIREMENT: u64 = 20;
/// Additional 8th Dimensions per Dimension Boost once all 8 are unlocked.
pub const DIM_BOOST_SCALING_REQUIREMENT: u64 = 15;
/// Additional 6th Dimensions per Dimension Boost in Normal Challenge 10.
pub const NC10_DIM_BOOST_SCALING_REQUIREMENT: u64 = 20;
/// The bit of the "buy max Dimension Boosts" Break Infinity Upgrade.
pub const AUTOBUY_MAX_DIMBOOSTS_BIT: u32 = 0x80;

/// The boosts right after adding `bulk` to `pre`'s (capped by Normal
/// Challenge 8's limit of 5), before the skip-reset step.
pub open spec fn boosts_after(pre: GameState, bulk: u32) -> u32 {
    let allowed = if pre.challenge_running_spec(8) {
        if bulk as int <= sat_sub(5, pre.dim_boosts as int) { bulk as int } else { sat_sub(5, pre.dim_boosts as int) }
    } else {
        bulk as int
    };
    if pre.dim_boosts + allowed <= u32::MAX { (pre.dim_boosts + allowed) as u32 } else { u32::MAX }
}

/// `a − b`, or 0 below that.
pub open spec fn sat_sub(a: int, b: int) -> int {
    if a >= b { a - b } else { 0 }
}

/// `a` clamped to `u64`.
pub open spec fn clamp_u64(a: int) -> u64 {
    if a <= 0 { 0 } else if a > u64::MAX { u64::MAX } else { a as u64 }
}

impl GameState {
    pub open spec fn galaxy_required_tier_spec(&self) -> usize {
        if self.challenge_running_spec(10) { 5 } else { 7 }
    }

    pub open spec fn galaxy_scaling_start_spec(&self, glyph_sac_power: u32) -> int {
        100 + (if self.has_time_study(223) { 7int } else { 0int })
            + (if self.has_time_study(224) { (self.dim_boosts / 2000) as int } else { 0int })
            + 5 * self.ec_completions_spec(5) + glyph_sac_power
    }

    pub open spec fn galaxy_cost_mult_spec(&self) -> int {
        if self.challenge_running_spec(10) { 90 } else if self.has_time_study(42) { 52 } else { 60 }
    }

    pub open spec fn remote_galaxy_start(&self) -> int {
        if self.has_reality_upgrade(21) { 100000 } else { 800 }
    }

    pub open spec fn requirement_reduction(&self) -> int {
        (if self.has_infinity_upgrade(InfinityUpgrade::ResetBoost) { 9int } else { 0int })
            + (if self.infinity_challenge_completed_spec(5) { 1int } else { 0int })
    }

    /// The next Galaxy's requirement before remote scaling and reductions.
    pub open spec fn galaxy_base_amount(&self, glyph_sac_power: u32) -> int {
        let g = self.galaxies as int;
        let base = if self.challenge_running_spec(10) { 99int } else { 80int };
        let start = self.galaxy_scaling_start_spec(glyph_sac_power);
        base + g * self.galaxy_cost_mult_spec() + if self.eternity_challenge_current == 5 {
            g * g + g
        } else if g >= start {
            (g - start + 1) * (g - start + 1) + (g - start + 1)
        } else {
            0
        }
    }

    /// The next Galaxy's requirement, below the remote-scaling start.
    pub open spec fn galaxy_requirement_spec(&self, glyph_sac_power: u32) -> Option<u64> {
        if self.galaxies >= self.remote_galaxy_start() {
            None
        } else {
            Some(sat_sub(self.galaxy_base_amount(glyph_sac_power), self.requirement_reduction()) as u64)
        }
    }

    pub open spec fn galaxy_blocked(&self) -> bool {
        self.challenge_running_spec(8) || self.infinity_challenge.current == 7 || self.eternity_challenge_current == 6
    }

    /// The tier (1-indexed) whose Dimensions a boost to `target` boosts needs.
    pub open spec fn boost_tier(&self, target: int) -> int {
        let maxd: int = if self.challenge_running_spec(10) { 6 } else { 8 };
        if target + 3 <= maxd { target + 3 } else { maxd }
    }

    /// The Dimension-Boost requirement for `bulk` more boosts, before
    /// reductions.
    pub open spec fn boost_raw_amount(&self, bulk: int) -> int {
        let target = self.dim_boosts + bulk;
        let tier = self.boost_tier(target);
        let discount = (if self.has_time_study(211) { 5int } else { 0int })
            + (if self.has_time_study(222) { 2int } else { 0int });
        20 + (if tier == 6 && self.challenge_running_spec(10) {
            sat_sub(target, 3) * (20 - discount)
        } else if tier == 8 {
            sat_sub(target, 5) * (15 - discount)
        } else {
            0
        }) + (if self.eternity_challenge_current == 5 {
            (target - 1) * (target - 1) * (target - 1) + (target - 1)
        } else {
            0
        })
    }

    pub open spec fn boost_requirement_spec(&self, bulk: int) -> (usize, u64) {
        let tier = self.boost_tier(self.dim_boosts + bulk);
        ((tier - 1) as usize, clamp_u64(sat_sub(self.boost_raw_amount(bulk), self.requirement_reduction())))
    }

    /// Whether `bulk` more boosts are affordable with `unlocked_dims` tiers
    /// unlocked and `amounts` Dimensions (floored) per tier.
    pub open spec fn boost_satisfied(&self, bulk: int, unlocked_dims: usize, amounts: [u64; 8]) -> bool {
        let (tier, required) = self.boost_requirement_spec(bulk);
        tier < unlocked_dims && tier < 8 && amounts[tier as int] >= required
    }

    /// The state after the soft reset of a boost or a Galaxy: dimensions and
    /// tickspeed cleared unless `forced` is false and perk 30 is bought, then
    /// the skip-reset upgrades re-applied.
    pub open spec fn soft_reset_spec(&self, forced: bool) -> GameState {
        let keep = !forced && self.has_perk(30);
        let a = if keep {
            *self
        } else {
            GameState {
                dimensions: cleared_dimensions(),
                tickspeed: TickspeedState { bought: 0, cost_bumps: 0 },
                ..*self
            }
        };
        GameState { dim_boosts: a.skip_reset_target().0, galaxies: a.skip_reset_target().1, ..a }
    }

    /// The Dimension tier (0-indexed) a Galaxy needs: the 6th in Normal
    /// Challenge 10, else the 8th.
    pub fn galaxy_required_tier(&self) -> (r: usize)
        ensures
            r == self.galaxy_required_tier_spec(),
    {
        if self.challenge_running(10) { 5 } else { 7 }
    }

    /// The Galaxy count at which distant scaling starts: 100, +7 with Time
    /// Study 223, +1 per 2000 boosts with Time Study 224, +5 per EC5
    /// completion, plus the power-glyph sacrifice bonus `glyph_sac_power`.
    pub fn galaxy_cost_scaling_start(&self, glyph_sac_power: u32) -> (r: u64)
        ensures
            r == self.galaxy_scaling_start_spec(glyph_sac_power),
    {
        let mut start: u64 = 100;
        if self.time_study_bought(223) {
            start = start + 7;
        }
        if self.time_study_bought(224) {
            start = start + self.dim_boosts as u64 / 2000;
        }
        start = start + 5 * self.eternity_challenge_completions(5) as u64;
        start + glyph_sac_power as u64
    }

    /// The per-Galaxy increase of the requirement: 90 in NC10, 52 with Time
    /// Study 42, else 60.
    pub fn galaxy_cost_mult(&self) -> (r: u64)
        ensures
            r == self.galaxy_cost_mult_spec(),
    {
        if self.challenge_running(10) {
            NC10_GALAXY_REQUIREMENT_INCREMENT
        } else if self.time_study_bought(42) {
            52
        } else {
            GALAXY_REQUIREMENT_INCREMENT
        }
    }

    /// The Dimensions the next Galaxy needs: base 80 (99 in NC10) plus 60
    /// per Galaxy (90 in NC10, 52 with Time Study 42), plus the distant
    /// scaling `n² + n` over the Galaxies past the scaling start (over all of
    /// them in EC5), less 9 with the reset-boost upgrade and 1 with IC5
    /// completed, never below 0. From the remote-scaling start (800 Galaxies,
    /// 100000 with Reality Upgrade 21) the requirement grows by a floating
    /// factor and is `None` here.
    pub fn galaxy_requirement(&self, glyph_sac_power: u32) -> (r: Option<u64>)
        ensures
            r == self.galaxy_requirement_spec(glyph_sac_power),
    {
        let remote_start: u32 = if self.reality_upgrade_bought(21) { 100000 } else { 800 };
        if self.galaxies >= remote_start {
            return None;
        }
        let g = self.galaxies as u64;
        let base: u64 = if self.challenge_running(10) { NC10_FIRST_GALAXY_REQUIREMENT } else { FIRST_GALAXY_REQUIREMENT };
        let mult: u64 = self.galaxy_cost_mult();
        assert(g * mult <= 100000 * 90) by (nonlinear_arith)
            requires
                g < 100000,
                mult <= 90,
        ;
        assert(g * g <= 100000 * 100000) by (nonlinear_arith)
            requires
                g < 100000,
        ;
        let mut amount: u64 = base + g * mult;
        if self.ec_running(5) {
            amount = amount + g * g + g;
        } else {
            let start = self.galaxy_cost_scaling_start(glyph_sac_power);
            if g >= start {
                let d = g - start + 1;
                assert(d * d <= 100000 * 100000) by (nonlinear_arith)
                    requires
                        d <= 100000,
                ;
                amount = amount + d * d + d;
            }
        }
        let reduction = self.reset_boost_reduction() + self.ic5_requirement_reduction();
        Some(amount.saturating_sub(reduction))
    }

    /// Whether a Galaxy can be bought: not in Normal Challenge 8, Infinity
    /// Challenge 7 or EC6, and the required tier's Dimensions (floored,
    /// `tier_amount`) reach the `requirement`.
    pub fn can_buy_galaxy(&self, tier_amount: u64, requirement: u64) -> (r: bool)
        ensures
            r == (!self.galaxy_blocked() && tier_amount >= requirement),
    {
        if self.challenge_running(8) || self.infinity_challenge_running(7) {
            return false;
        }
        if self.ec_running(6) {
            return false;
        }
        tier_amount >= requirement
    }

    /// Buy a Galaxy when allowed: Strike 2 when Doomed, one more Galaxy, the
    /// boosts lost (kept with achievement 143), the soft reset, and the "no
    /// sacrifice" requirement restored. Returns whether it was bought.
    pub fn buy_galaxy(&mut self, tier_amount: u64, requirement: u64) -> (r: bool)
        requires
            old(self).galaxies < u32::MAX,
        ensures
            r == (!old(self).galaxy_blocked() && tier_amount >= requirement),
            !r ==> *final(self) == *old(self),
            r ==> *final(self) == old(self).galaxy_bought_spec(),
    {
        if !self.can_buy_galaxy(tier_amount, requirement) {
            return false;
        }
        self.pelle_trigger_strike(2);
        let ghost s1 = *self;
        assert(s1 == old(self).strike2_applied());
        self.galaxies = self.galaxies + 1;
        let ghost s2 = *self;
        self.galaxy_reset();
        assert(s2 == GameState { galaxies: (s1.galaxies + 1) as u32, ..s1 });
        true
    }

    /// The state after buying a Galaxy.
    pub open spec fn galaxy_bought_spec(&self) -> GameState {
        let a = self.strike2_applied();
        GameState { galaxies: (a.galaxies + 1) as u32, ..a }.galaxy_reset_spec()
    }

    /// The state with Strike 2 triggered when Doomed.
    pub open spec fn strike2_applied(&self) -> GameState {
        if self.celestials.pelle.doomed && !self.has_strike(2) {
            self.with_pelle(crate::celestials::pelle::PelleState {
                progress_bits: self.celestials.pelle.progress_bits | (1u32 << 2u32),
                ..self.celestials.pelle
            })
        } else {
            *self
        }
    }

    /// The state after a Galaxy's reset.
    pub open spec fn galaxy_reset_spec(&self) -> GameState {
        let c = if self.has_achievement(143) { *self } else { GameState { dim_boosts: 0, ..*self } };
        let d = c.soft_reset_spec(false);
        GameState {
            requirement_checks: RequirementChecks { infinity_no_sacrifice: true, ..d.requirement_checks },
            ..d
        }
    }

    fn galaxy_reset(&mut self)
        ensures
            *final(self) == old(self).galaxy_reset_spec(),
    {
        let ghost s0 = *self;
        if !self.achievement_unlocked(143) {
            self.dim_boosts = 0;
        }
        let ghost s1 = *self;
        assert(s1 == (if s0.has_achievement(143) { s0 } else { GameState { dim_boosts: 0, ..s0 } }));
        self.soft_reset(false);
        self.restore_no_sacrifice();
    }

    fn restore_no_sacrifice(&mut self)
        ensures
            *final(self) == (GameState {
                requirement_checks: RequirementChecks { infinity_no_sacrifice: true, ..old(self).requirement_checks },
                ..*old(self)
            }),
    {
        self.requirement_checks.infinity_no_sacrifice = true;
    }

    /// The reset a Dimension Boost performs: the Dimensions and Tickspeed
    /// purchases are cleared, both kept with perk 30 (see `soft_reset_spec`).
    pub fn dim_boost_reset(&mut self)
        ensures
            *final(self) == old(self).soft_reset_spec(false),
    {
        self.soft_reset(false);
    }

    /// The reset a forced Dimension Boost performs (perk 30 does not apply).
    pub fn dim_boost_reset_forced(&mut self)
        ensures
            *final(self) == old(self).soft_reset_spec(true),
    {
        self.soft_reset(true);
    }

    /// The soft reset of a boost or a Galaxy (see `soft_reset_spec`).
    pub(crate) fn soft_reset(&mut self, forced: bool)
        ensures
            *final(self) == old(self).soft_reset_spec(forced),
    {
        let keep = !forced && self.perk_bought(30);
        if !keep {
            self.dimensions = crate::eternity::new_dimensions();
            self.tickspeed = TickspeedState { bought: 0, cost_bumps: 0 };
        }
        self.skip_resets_if_possible();
    }

    /// The tier (0-indexed) and the Dimensions (floored) a Dimension Boost
    /// needs.
    pub fn dim_boost_requirement(&self) -> (r: (usize, u64))
        ensures
            r == self.boost_requirement_spec(1),
    {
        self.dim_boost_bulk_requirement(1)
    }

    /// The tier (0-indexed) and the Dimensions that `bulk` boosts at once
    /// need: 20 Dimensions of tier `min(boosts + bulk + 3, max)`, plus 15 per
    /// boost past the fifth once that is the 8th (20 per boost past the third
    /// on the 6th in NC10), each step 5 less with Time Study 211 and 2 less
    /// with 222, plus `t³ + t` (`t = boosts + bulk − 1`) in EC5, less 9 with
    /// the reset-boost upgrade and 1 with IC5 completed; never below 0, and
    /// saturating at `u64::MAX`. In EC5 the boost count after the bulk must
    /// be at least 1 (`t` is not defined below it).
    pub fn dim_boost_bulk_requirement(&self, bulk: u32) -> (r: (usize, u64))
        requires
            self.eternity_challenge_current == 5 ==> self.dim_boosts + bulk >= 1,
        ensures
            r == self.boost_requirement_spec(bulk as int),
    {
        let maxd: u64 = self.max_dimensions_unlockable() as u64;
        let target: u64 = self.dim_boosts as u64 + bulk as u64;
        let tier: u64 = if target + 3 <= maxd { target + 3 } else { maxd };
        let mut discount: u128 = 0;
        if self.time_study_bought(211) {
            discount = discount + 5;
        }
        if self.time_study_bought(222) {
            discount = discount + 2;
        }
        let t128 = target as u128;
        let mut amount: u128 = DIM_BOOST_INITIAL_REQUIREMENT as u128;
        if tier == 6 && self.challenge_running(10) {
            let steps: u128 = if t128 >= 3 { t128 - 3 } else { 0 };
            let per: u128 = NC10_DIM_BOOST_SCALING_REQUIREMENT as u128 - discount;
            assert(steps * per <= 0x2_0000_0000u128 * 20) by (nonlinear_arith)
                requires
                    steps < 0x2_0000_0000u128,
                    per <= 20,
            ;
            amount = amount + steps * per;
        } else if tier == 8 {
            let steps: u128 = if t128 >= 5 { t128 - 5 } else { 0 };
            let per: u128 = DIM_BOOST_SCALING_REQUIREMENT as u128 - discount;
            assert(steps * per <= 0x2_0000_0000u128 * 20) by (nonlinear_arith)
                requires
                    steps < 0x2_0000_0000u128,
                    per <= 20,
            ;
            amount = amount + steps * per;
        }
        if self.ec_running(5) {
            let t = t128 - 1;
            assert(t * t <= 0x4_0000_0000_0000_0000u128) by (nonlinear_arith)
                requires
                    t < 0x2_0000_0000u128,
            ;
            assert(t * t * t <= 0x8_0000_0000_0000_0000_0000_0000u128) by (nonlinear_arith)
                requires
                    t < 0x2_0000_0000u128,
                    t * t <= 0x4_0000_0000_0000_0000u128,
            ;
            amount = amount + t * t * t + t;
        }
        let reduction = (self.reset_boost_reduction() + self.ic5_requirement_reduction()) as u128;
        let reduced: u128 = if amount >= reduction { amount - reduction } else { 0 };
        let clamped: u64 = if reduced > u64::MAX as u128 { u64::MAX } else { reduced as u64 };
        ((tier - 1) as usize, clamped)
    }

    /// Whether `bulk` boosts are affordable.
    fn dim_boost_bulk_requirement_satisfied(&self, bulk: u32, unlocked_dims: usize, amounts: &[u64; 8]) -> (r: bool)
        requires
            bulk >= 1,
        ensures
            r == self.boost_satisfied(bulk as int, unlocked_dims, *amounts),
    {
        let (tier, required) = self.dim_boost_bulk_requirement(bulk);
        tier < unlocked_dims && tier < 8 && amounts[tier] >= required
    }

    /// Whether a Dimension Boost can be bought: below Normal Challenge 8's
    /// cap, `within_limits` (antimatter within the Infinity limit, and the
    /// goal not passed without Break Infinity or inside a challenge), and the
    /// required tier unlocked (`unlocked_dims` tiers are) with its floored
    /// Dimensions `amounts` reaching the requirement.
    pub fn can_dim_boost(&self, within_limits: bool, unlocked_dims: usize, amounts: &[u64; 8]) -> (r: bool)
        ensures
            r == (!(self.challenge_running_spec(8) && self.dim_boosts >= 5) && within_limits
                && self.boost_satisfied(1, unlocked_dims, *amounts)),
    {
        match self.max_boosts() {
            Some(max) => {
                if self.dim_boosts >= max {
                    return false;
                }
            },
            None => {},
        }
        if !within_limits {
            return false;
        }
        self.dim_boost_bulk_requirement_satisfied(1, unlocked_dims, amounts)
    }

    /// The state after `bulk` boosts (capped by Normal Challenge 8's limit):
    /// the boosts added, the soft reset, achievement 25 at 10 boosts.
    pub open spec fn boosts_bought_spec(&self, bulk: u32, achievements: Vec<u16>) -> GameState {
        let a = GameState { dim_boosts: boosts_after(*self, bulk), ..*self }.soft_reset_spec(false);
        GameState { achievements, ..a }
    }

    /// The achievement list after boosting to `boosts`.
    pub open spec fn boost_achievements(&self, boosts: u32) -> Seq<u16> {
        if boosts >= 10 { self.achievements_with(25) } else { self.achievements@ }
    }

    /// Buy a Dimension Boost when allowed (see `can_dim_boost`). Returns
    /// whether it was bought.
    pub fn buy_dim_boost(&mut self, within_limits: bool, unlocked_dims: usize, amounts: &[u64; 8]) -> (r: bool)
        ensures
            r == (!(old(self).challenge_running_spec(8) && old(self).dim_boosts >= 5) && within_limits
                && old(self).boost_satisfied(1, unlocked_dims, *amounts)),
            !r ==> *final(self) == *old(self),
            r ==> *final(self) == old(self).boosts_bought_spec(1, final(self).achievements),
            r ==> final(self).achievements@ == old(self).boost_achievements(boosts_after(*old(self), 1)),
    {
        if !self.can_dim_boost(within_limits, unlocked_dims, amounts) {
            return false;
        }
        self.soft_reset_bulk(1, true)
    }

    /// Boost `bulk` times at once (capped by Normal Challenge 8's limit) when
    /// `within_limits`. Returns whether it happened.
    fn soft_reset_bulk(&mut self, bulk: u32, within_limits: bool) -> (r: bool)
        ensures
            r == within_limits,
            !r ==> *final(self) == *old(self),
            r ==> *final(self) == old(self).boosts_bought_spec(bulk, final(self).achievements),
            r ==> final(self).achievements@ == old(self).boost_achievements(boosts_after(*old(self), bulk)),
    {
        if !within_limits {
            return false;
        }
        let allowed: u32 = match self.max_boosts() {
            Some(max) => {
                let room = max.saturating_sub(self.dim_boosts);
                if bulk <= room { bulk } else { room }
            },
            None => bulk,
        };
        let boosted = self.dim_boosts.saturating_add(allowed);
        self.dim_boosts = boosted;
        self.soft_reset(false);
        if boosted >= 10 {
            self.unlock_achievement(25);
        }
        true
    }

    /// The bulk estimate of "max boosts": `1 + (have − a₁) / (a₂ − a₁)` from
    /// the one- and two-boost requirements `a₁`, `a₂` and the tier's
    /// Dimensions `have`, saturating at `u32::MAX` (and there when
    /// `a₂ ≤ a₁`).
    pub open spec fn max_boost_estimate(&self, amounts: [u64; 8]) -> u32 {
        let (tier, a1) = self.boost_requirement_spec(1);
        let a2 = self.boost_requirement_spec(2).1;
        let have = amounts[tier as int];
        if a2 <= a1 {
            u32::MAX
        } else {
            let q = (have - a1) / ((a2 - a1) as int);
            if q >= u32::MAX { u32::MAX } else { (q + 1) as u32 }
        }
    }

    /// Whether `b` is the bulk "max boosts" buys: affordable, and either the
    /// estimate or the most affordable (one more is not).
    pub open spec fn max_boost_choice(&self, b: u32, unlocked_dims: usize, amounts: [u64; 8]) -> bool {
        &&& b >= 1
        &&& self.boost_satisfied(b as int, unlocked_dims, amounts)
        &&& if self.dim_boosts + 4 < (if self.challenge_running_spec(10) { 6int } else { 8int }) {
            b == 1
        } else {
            b == self.max_boost_estimate(amounts) || !self.boost_satisfied(b + 1, unlocked_dims, amounts)
        }
    }

    /// Buy as many Dimension Boosts at once as the Dimensions afford: one
    /// while boosts still unlock Dimensions; otherwise the estimated bulk when
    /// affordable, else the largest affordable bulk below it, found by
    /// bisection. Returns whether any were bought.
    pub fn max_buy_dim_boosts(&mut self, within_limits: bool, unlocked_dims: usize, amounts: &[u64; 8]) -> (r: bool)
        ensures
            r == (within_limits && old(self).boost_satisfied(1, unlocked_dims, *amounts)),
            !r ==> *final(self) == *old(self),
            r ==> exists|b: u32| #[trigger] old(self).max_boost_choice(b, unlocked_dims, *amounts)
                && *final(self) == old(self).boosts_bought_spec(b, final(self).achievements)
                && final(self).achievements@ == old(self).boost_achievements(boosts_after(*old(self), b)),
    {
        if self.can_unlock_new_dimension() {
            if self.dim_boost_bulk_requirement_satisfied(1, unlocked_dims, amounts) {
                let ghost pre = *self;
                let r = self.soft_reset_bulk(1, within_limits);
                assert(pre.max_boost_choice(1, unlocked_dims, *amounts));
                return r;
            }
            return false;
        }
        if !self.dim_boost_bulk_requirement_satisfied(1, unlocked_dims, amounts) {
            return false;
        }
        if !self.dim_boost_bulk_requirement_satisfied(2, unlocked_dims, amounts) {
            let ghost pre = *self;
            let r = self.soft_reset_bulk(1, within_limits);
            assert(pre.max_boost_choice(1, unlocked_dims, *amounts));
            return r;
        }
        let (tier1, amount1) = self.dim_boost_bulk_requirement(1);
        let (_, amount2) = self.dim_boost_bulk_requirement(2);
        let have = amounts[tier1];
        let est: u32 = if amount2 <= amount1 {
            u32::MAX
        } else {
            let inc = amount2 - amount1;
            let diff = have - amount1;
            let q = diff / inc;
            assert(q >= 1) by (nonlinear_arith)
                requires
                    q == diff / inc,
                    diff >= inc,
                    inc > 0,
            ;
            if q >= u32::MAX as u64 { u32::MAX } else { (q + 1) as u32 }
        };
        assert(est == self.max_boost_estimate(*amounts));
        assert(est >= 2);
        if self.dim_boost_bulk_requirement_satisfied(est, unlocked_dims, amounts) {
            let ghost pre = *self;
            let r = self.soft_reset_bulk(est, within_limits);
            assert(pre.max_boost_choice(est, unlocked_dims, *amounts));
            return r;
        }
        let mut lo: u32 = 2;
        let mut hi: u32 = est;
        while hi != lo + 1
            invariant
                2 <= lo < hi,
                hi <= est,
                self.boost_satisfied(lo as int, unlocked_dims, *amounts),
                !self.boost_satisfied(hi as int, unlocked_dims, *amounts),
            decreases hi - lo,
        {
            let mid = lo + (hi - lo) / 2;
            if self.dim_boost_bulk_requirement_satisfied(mid, unlocked_dims, amounts) {
                lo = mid;
            } else {
                hi = mid;
            }
        }
        let ghost pre = *self;
        let r = self.soft_reset_bulk(lo, within_limits);
        assert(pre.max_boost_choice(lo, unlocked_dims, *amounts));
        r
    }

    /// Whether "buy max Dimension Boosts" is unlocked (its Break Infinity
    /// Upgrade).
    pub fn is_buy_max_dimboosts_unlocked(&self) -> (r: bool)
        ensures
            r == (self.break_infinity_upgrades & AUTOBUY_MAX_DIMBOOSTS_BIT != 0),
    {
        self.break_infinity_upgrades & AUTOBUY_MAX_DIMBOOSTS_BIT != 0
    }

    /// Whether a boost still unlocks a new Dimension.
    pub fn can_unlock_new_dimension(&self) -> (r: bool)
        ensures
            r == (self.dim_boosts + 4 < (if self.challenge_running_spec(10) { 6int } else { 8int })),
    {
        (self.dim_boosts as u64) + 4 < self.max_dimensions_unlockable() as u64
    }
}

} // verus!
