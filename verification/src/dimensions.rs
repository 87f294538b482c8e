//! Antimatter Dimension purchases: the counters and run records a purchase
//! updates.
use vstd::prelude::*;
use crate::state::{GameState, DimensionTier, RequirementChecks, TickspeedState};

verus! {

/// How another Dimension's current cost compares with the cost of the
/// Dimension whose group of ten is being completed.
#[derive(Clone, Copy, Debug, PartialEq, Eq, Structural)]
pub struct CostComparison {
    /// Same order of magnitude (decimal exponent).
    pub same_exponent: bool,
    /// Strictly cheaper.
    pub cheaper: bool,
    /// Strictly pricier.
    pub pricier: bool,
}

/// Whether completing a group of ten of `tier` bumps tier `t`'s cost, `c`
/// being how `t`'s cost compares with `tier`'s. In Infinity Challenge 5
/// (`ic5`, which takes precedence) buying one of the 1st–4th Dimensions bumps
/// every strictly cheaper Dimension and buying one of the 5th–8th every
/// strictly pricier one; in Normal Challenge 9 (`nc9`) every Dimension of the
/// same order of magnitude is bumped; never the source itself.
pub open spec fn group_bumps_tier(tier: int, t: int, c: CostComparison, ic5: bool, nc9: bool) -> bool {
    t != tier && if ic5 {
        if tier <= 3 { c.cheaper } else { c.pricier }
    } else {
        nc9 && c.same_exponent
    }
}

/// `dims` with one cost bump added to each of the first `n` tiers that
/// `bump` selects.
pub open spec fn bumped_dims(dims: [DimensionTier; 8], bump: spec_fn(int) -> bool, n: int) -> [DimensionTier; 8]
    decreases n,
{
    if n <= 0 {
        dims
    } else {
        let d = bumped_dims(dims, bump, n - 1);
        if bump(n - 1) {
            vstd::array::spec_array_update(d, n - 1, DimensionTier {
                cost_bumps: (d[n - 1].cost_bumps + 1) as u64,
                ..d[n - 1]
            })
        } else {
            d
        }
    }
}

/// Tier `j` of `bumped_dims(dims, bump, n)`: bumped once when `j < n` and
/// `bump` selects it, else unchanged.
pub proof fn lemma_bumped_dims_at(dims: [DimensionTier; 8], bump: spec_fn(int) -> bool, n: int, j: int)
    requires
        0 <= j < 8,
        n <= 8,
    ensures
        bumped_dims(dims, bump, n)[j] == (if j < n && bump(j) {
            DimensionTier { cost_bumps: (dims[j].cost_bumps + 1) as u64, ..dims[j] }
        } else {
            dims[j]
        }),
    decreases n,
{
    broadcast use vstd::array::group_array_axioms;
    if n > 0 {
        lemma_bumped_dims_at(dims, bump, n - 1, j);
    }
}

/// The tiers whose costs a completed group of `tier` bumps (see
/// `group_bumps_tier`).
pub open spec fn group_bump_selection(tier: int, costs: [CostComparison; 8], ic5: bool, nc9: bool)
    -> spec_fn(int) -> bool
{
    |t: int| group_bumps_tier(tier, t, costs[t], ic5, nc9)
}

/// The tiers `same_exponent` selects.
pub open spec fn exponent_selection(same_exponent: [bool; 8]) -> spec_fn(int) -> bool {
    |t: int| same_exponent[t]
}

impl GameState {
    /// Whether every cost-bump counter can take one more bump.
    pub open spec fn cost_bumps_below_max(&self) -> bool {
        &&& forall|t: int| 0 <= t < 8 ==> #[trigger] self.dimensions[t].cost_bumps < u64::MAX
        &&& self.tickspeed.cost_bumps < u64::MAX
    }

    /// The state after the cost bumps of a completed group of ten of `tier`:
    /// the Dimensions per `group_bumps_tier`, and in Normal Challenge 9
    /// (outside Infinity Challenge 5) Tickspeed too when its cost has the
    /// source's order of magnitude (`tickspeed_same_exponent`).
    pub open spec fn group_bumped(&self, tier: usize, costs: [CostComparison; 8], tickspeed_same_exponent: bool)
        -> GameState
    {
        let ic5 = self.infinity_challenge.current == 5;
        let nc9 = self.challenge_running_spec(9);
        GameState {
            dimensions: bumped_dims(self.dimensions, group_bump_selection(tier as int, costs, ic5, nc9), 8),
            tickspeed: if !ic5 && nc9 && tickspeed_same_exponent {
                TickspeedState { cost_bumps: (self.tickspeed.cost_bumps + 1) as u64, ..self.tickspeed }
            } else {
                self.tickspeed
            },
            ..*self
        }
    }

    /// The state after `n` Dimensions of `tier` are bought from `self`:
    /// the group's cost bumps first when the purchases complete a group of
    /// ten, then the purchase itself.
    pub open spec fn purchase_spec(&self, tier: usize, n: nat, costs: [CostComparison; 8],
        tickspeed_same_exponent: bool, achievements: Vec<u16>) -> GameState
    {
        let start = if self.dimensions[tier as int].bought % 10 + n >= 10 {
            self.group_bumped(tier, costs, tickspeed_same_exponent)
        } else {
            *self
        };
        start.dimensions_bought_spec(tier, n, achievements)
    }

    /// The requirement flags after buying a Dimension of `tier` (0-indexed).
    pub open spec fn checks_after_buy(&self, tier: usize) -> RequirementChecks {
        RequirementChecks {
            eternity_only_ad8: if tier != 7 { false } else { self.requirement_checks.eternity_only_ad8 },
            eternity_only_ad1: if tier != 0 { false } else { self.requirement_checks.eternity_only_ad1 },
            eternity_no_ad1: if tier == 0 { false } else { self.requirement_checks.eternity_no_ad1 },
            infinity_no_ad8: if tier == 7 { false } else { self.requirement_checks.infinity_no_ad8 },
            ..self.requirement_checks
        }
    }

    /// The state after one Dimension of `tier` is bought; `achievements`
    /// stands for the list it leaves (achievement `11 + tier` added).
    pub open spec fn dimension_bought_spec(&self, tier: usize, achievements: Vec<u16>) -> GameState {
        GameState {
            dimensions: vstd::array::spec_array_update(self.dimensions, tier as int, DimensionTier {
                bought: (self.dimensions[tier as int].bought + 1) as u64,
                ..self.dimensions[tier as int]
            }),
            post_c4_tier: (tier + 1) as u8,
            requirement_checks: self.checks_after_buy(tier),
            achievements,
            ..*self
        }
    }

    /// The state after `n` (at least one) Dimensions of `tier` are bought;
    /// `achievements` stands for the list it leaves.
    pub open spec fn dimensions_bought_spec(&self, tier: usize, n: nat, achievements: Vec<u16>) -> GameState {
        GameState {
            dimensions: vstd::array::spec_array_update(self.dimensions, tier as int, DimensionTier {
                bought: (self.dimensions[tier as int].bought + n) as u64,
                ..self.dimensions[tier as int]
            }),
            post_c4_tier: (tier + 1) as u8,
            requirement_checks: self.checks_after_buy(tier),
            achievements,
            ..*self
        }
    }

    /// The bookkeeping of a purchase: the last-bought tier (Infinity
    /// Challenge 4), the "only/no 1st or 8th Dimension" requirement flags,
    /// and achievement `11 + tier`.
    pub(crate) fn on_buy_dimension(&mut self, tier: usize)
        requires
            tier < 8,
        ensures
            *final(self) == (GameState {
                post_c4_tier: (tier + 1) as u8,
                requirement_checks: old(self).checks_after_buy(tier),
                achievements: final(self).achievements,
                ..*old(self)
            }),
            final(self).achievements@ == old(self).achievements_with((11 + tier) as u16),
    {
        self.post_c4_tier = (tier + 1) as u8;
        if tier != 7 {
            self.requirement_checks.eternity_only_ad8 = false;
        }
        if tier != 0 {
            self.requirement_checks.eternity_only_ad1 = false;
        }
        if tier == 0 {
            self.requirement_checks.eternity_no_ad1 = false;
        }
        if tier == 7 {
            self.requirement_checks.infinity_no_ad8 = false;
        }
        self.unlock_achievement(11 + tier as u16);
    }

    /// Apply the cost bumps of a completed group of ten of `tier` (see
    /// `group_bumped`; nothing outside Normal Challenge 9 and Infinity
    /// Challenge 5). The caller multiplies the bumped Tickspeed cost.
    pub fn apply_group_cost_bumps(&mut self, tier: usize, costs: &[CostComparison; 8],
        tickspeed_same_exponent: bool)
        requires
            tier < 8,
            old(self).cost_bumps_below_max(),
        ensures
            *final(self) == old(self).group_bumped(tier, *costs, tickspeed_same_exponent),
    {
        broadcast use vstd::array::group_array_axioms;
        let ic5 = self.infinity_challenge_running(5);
        let nc9 = self.challenge_running(9);
        let ghost bump = group_bump_selection(tier as int, *costs, ic5, nc9);
        let mut t: usize = 0;
        while t < 8
            invariant
                tier < 8,
                t <= 8,
                old(self).cost_bumps_below_max(),
                ic5 == (old(self).infinity_challenge.current == 5),
                nc9 == old(self).challenge_running_spec(9),
                bump == group_bump_selection(tier as int, *costs, ic5, nc9),
                self.dimensions == bumped_dims(old(self).dimensions, bump, t as int),
                *self == (GameState { dimensions: self.dimensions, ..*old(self) }),
            decreases 8 - t,
        {
            proof {
                lemma_bumped_dims_at(old(self).dimensions, bump, t as int, t as int);
            }
            let c = costs[t];
            let hit = t != tier && if ic5 {
                if tier <= 3 { c.cheaper } else { c.pricier }
            } else {
                nc9 && c.same_exponent
            };
            if hit {
                let d = &self.dimensions[t];
                let bumped = DimensionTier { bought: d.bought, cost_bumps: d.cost_bumps + 1 };
                self.dimensions[t] = bumped;
            }
            t = t + 1;
        }
        if !ic5 && nc9 && tickspeed_same_exponent {
            self.tickspeed.cost_bumps = self.tickspeed.cost_bumps + 1;
        }
    }

    /// Normal Challenge 9's Tickspeed rule: buying a Tickspeed upgrade bumps
    /// every Dimension whose cost has Tickspeed's order of magnitude
    /// (`same_exponent`).
    pub fn nc9_bump_same_cost_from_tickspeed(&mut self, same_exponent: &[bool; 8])
        requires
            old(self).cost_bumps_below_max(),
        ensures
            *final(self) == (GameState {
                dimensions: bumped_dims(old(self).dimensions, exponent_selection(*same_exponent), 8),
                ..*old(self)
            }),
    {
        broadcast use vstd::array::group_array_axioms;
        let ghost bump = exponent_selection(*same_exponent);
        let mut t: usize = 0;
        while t < 8
            invariant
                t <= 8,
                old(self).cost_bumps_below_max(),
                bump == exponent_selection(*same_exponent),
                self.dimensions == bumped_dims(old(self).dimensions, bump, t as int),
                *self == (GameState { dimensions: self.dimensions, ..*old(self) }),
            decreases 8 - t,
        {
            proof {
                lemma_bumped_dims_at(old(self).dimensions, bump, t as int, t as int);
            }
            if same_exponent[t] {
                let d = &self.dimensions[t];
                let bumped = DimensionTier { bought: d.bought, cost_bumps: d.cost_bumps + 1 };
                self.dimensions[t] = bumped;
            }
            t = t + 1;
        }
    }

    /// Buy one Dimension of `tier` (the purchase bookkeeping only).
    fn buy_one_dimension(&mut self, tier: usize)
        requires
            tier < 8,
            old(self).dimensions[tier as int].bought < u64::MAX,
        ensures
            *final(self) == old(self).dimension_bought_spec(tier, final(self).achievements),
            final(self).achievements@ == old(self).achievements_with((11 + tier) as u16),
    {
        broadcast use vstd::array::group_array_axioms;
        let d = &self.dimensions[tier];
        let bumped = DimensionTier { bought: d.bought + 1, cost_bumps: d.cost_bumps };
        self.dimensions[tier] = bumped;
        let ghost mid = *self;
        self.on_buy_dimension(tier);
        assert(mid.dimensions =~= vstd::array::spec_array_update(old(self).dimensions, tier as int, bumped));
    }

    /// Buy one Dimension of `tier` when `available` (unlocked for purchase)
    /// and `affordable` (the caller spends the cost). When it completes a
    /// group of ten, the group's cost bumps come first, `costs` and
    /// `tickspeed_same_exponent` telling how the other costs compare with
    /// this one (see `group_bumped`). Returns whether it was bought.
    pub fn buy_dimension(&mut self, tier: usize, available: bool, affordable: bool,
        costs: &[CostComparison; 8], tickspeed_same_exponent: bool) -> (r: bool)
        requires
            tier < 8,
            old(self).dimensions[tier as int].bought < u64::MAX,
            old(self).cost_bumps_below_max(),
        ensures
            r == (available && affordable),
            !r ==> *final(self) == *old(self),
            r ==> *final(self) == old(self).purchase_spec(tier, 1, *costs, tickspeed_same_exponent,
                final(self).achievements),
            r ==> final(self).achievements@ == old(self).achievements_with((11 + tier) as u16),
    {
        if !available || !affordable {
            return false;
        }
        if self.dimensions[tier].bought % 10 == 9 {
            self.apply_group_cost_bumps(tier, costs, tickspeed_same_exponent);
            proof { lemma_bumped_dims_at(old(self).dimensions,
                group_bump_selection(tier as int, *costs, old(self).infinity_challenge.current == 5,
                    old(self).challenge_running_spec(9)), 8, tier as int); }
        }
        self.buy_one_dimension(tier);
        true
    }

    /// Buy Dimensions of `tier` up to the next multiple of 10, as many as
    /// `affordable` (the number of successive purchases the currency covers)
    /// allows, when `available`; completing the group applies its cost bumps
    /// (see `buy_dimension`). Returns the number bought.
    pub fn buy_until_10_dimension(&mut self, tier: usize, available: bool, affordable: u64,
        costs: &[CostComparison; 8], tickspeed_same_exponent: bool) -> (r: u64)
        requires
            tier < 8,
            old(self).dimensions[tier as int].bought <= u64::MAX - 10,
            old(self).cost_bumps_below_max(),
        ensures
            r == (if !available {
                0
            } else {
                let remaining = 10 - old(self).dimensions[tier as int].bought % 10;
                if affordable <= remaining { affordable as int } else { remaining }
            }),
            final(self).dimensions[tier as int].bought == old(self).dimensions[tier as int].bought + r,
            r > 0 ==> final(self).achievements@ == old(self).achievements_with((11 + tier) as u16),
            r > 0 ==> *final(self) == old(self).purchase_spec(tier, r as nat, *costs, tickspeed_same_exponent,
                final(self).achievements),
            r == 0 ==> *final(self) == *old(self),
    {
        broadcast use vstd::array::group_array_axioms;
        if !available {
            return 0;
        }
        let remaining = 10 - self.dimensions[tier].bought % 10;
        let target: u64 = if affordable <= remaining { affordable } else { remaining };
        if target > 0 && target == remaining {
            self.apply_group_cost_bumps(tier, costs, tickspeed_same_exponent);
            proof { lemma_bumped_dims_at(old(self).dimensions,
                group_bump_selection(tier as int, *costs, old(self).infinity_challenge.current == 5,
                    old(self).challenge_running_spec(9)), 8, tier as int); }
        }
        let ghost start = *self;
        assert(start.dimensions[tier as int].bought == old(self).dimensions[tier as int].bought);
        let mut count: u64 = 0;
        while count < target
            invariant
                tier < 8,
                target <= 10,
                count <= target,
                self.dimensions[tier as int].bought == start.dimensions[tier as int].bought + count,
                start.dimensions[tier as int].bought <= u64::MAX - 10,
                count > 0 ==> self.achievements@ == start.achievements_with((11 + tier) as u16),
                count > 0 ==> *self == start.dimensions_bought_spec(tier, count as nat, self.achievements),
                count == 0 ==> *self == start,
            decreases target - count,
        {
            let ghost before = *self;
            self.buy_one_dimension(tier);
            proof {
                assert(self.dimensions[tier as int].bought == before.dimensions[tier as int].bought + 1);
                assert(self.dimensions =~= start.dimensions_bought_spec(tier, (count + 1) as nat,
                    self.achievements).dimensions);
                if count > 0 {
                    let a = start.achievements@;
                    assert(before.achievements_with((11 + tier) as u16) =~= before.achievements@) by {
                        assert(before.achievements@.contains((11 + tier) as u16)) by {
                            if !a.contains((11 + tier) as u16) {
                                assert(before.achievements@.last() == (11 + tier) as u16);
                            }
                        }
                    }
                }
            }
            count = count + 1;
        }
        count
    }

    /// "Buy max" of `tier` with at most `bulk` groups of ten: when
    /// `available` and `group_affordable` (the currency covers the rest of
    /// the current group and, inside an antimatter challenge, its cost is
    /// within the goal), the group is completed with its cost bumps (see
    /// `buy_dimension`), then up to `bulk - 1` more whole groups of the
    /// `extra_groups` the currency affords are bought. Inside Normal
    /// Challenge 9 or Infinity Challenge 5 every further group bumps costs
    /// anew against fresh cost comparisons, so only the current group is
    /// completed here, and each further group is bought with
    /// `buy_max_dimension_group` against fresh comparisons. Returns the
    /// number bought.
    pub fn buy_max_dimension_bulk(&mut self, tier: usize, bulk: u64, available: bool, group_affordable: bool,
        extra_groups: u64, costs: &[CostComparison; 8], tickspeed_same_exponent: bool) -> (r: u64)
        requires
            tier < 8,
            old(self).dimensions[tier as int].bought + 10 + 10 * extra_groups <= u64::MAX,
            old(self).cost_bumps_below_max(),
        ensures
            r == (if !available || !group_affordable {
                0
            } else {
                let groups = if bulk <= 1 || old(self).challenge_running_spec(9)
                    || old(self).infinity_challenge.current == 5 {
                    0
                } else if bulk - 1 < extra_groups {
                    bulk - 1
                } else {
                    extra_groups as int
                };
                (10 - old(self).dimensions[tier as int].bought % 10) + 10 * groups
            }),
            r == 0 ==> *final(self) == *old(self),
            r > 0 ==> *final(self) == old(self).purchase_spec(tier, r as nat, *costs, tickspeed_same_exponent,
                final(self).achievements),
            r > 0 ==> final(self).achievements@ == old(self).achievements_with((11 + tier) as u16),
    {
        broadcast use vstd::array::group_array_axioms;
        if !available || !group_affordable {
            return 0;
        }
        let first = self.buy_until_10_dimension(tier, true, 10, costs, tickspeed_same_exponent);
        let ghost mid = *self;
        let groups: u64 = if bulk <= 1 || self.challenge_running(9) || self.infinity_challenge_running(5) {
            0
        } else if bulk - 1 < extra_groups {
            bulk - 1
        } else {
            extra_groups
        };
        self.dimensions[tier].bought = self.dimensions[tier].bought + 10 * groups;
        proof {
            assert(first > 0);
            let start = old(self).group_bumped(tier, *costs, tickspeed_same_exponent);
            assert(first == 10 - old(self).dimensions[tier as int].bought % 10);
            assert(mid == start.dimensions_bought_spec(tier, first as nat, mid.achievements));
            assert(start.dimensions[tier as int] == old(self).dimensions[tier as int]) by {
                lemma_bumped_dims_at(old(self).dimensions,
                    group_bump_selection(tier as int, *costs, old(self).infinity_challenge.current == 5,
                        old(self).challenge_running_spec(9)), 8, tier as int);
            }
            assert(self.dimensions =~= start.dimensions_bought_spec(tier, (first + 10 * groups) as nat,
                self.achievements).dimensions);
        }
        first + 10 * groups
    }

    /// One further group of "buy max" of `tier` inside Normal Challenge 9 or
    /// Infinity Challenge 5, where each group is bought on its own because it
    /// bumps costs anew: with `bulk_left` groups still allowed and
    /// `group_affordable` (the currency covers the group and, inside an
    /// antimatter challenge, its cost is below the goal), the group is
    /// bought to the next multiple of ten with its cost bumps (see
    /// `buy_dimension`). Returns the number bought.
    pub fn buy_max_dimension_group(&mut self, tier: usize, bulk_left: u64, group_affordable: bool,
        costs: &[CostComparison; 8], tickspeed_same_exponent: bool) -> (r: u64)
        requires
            tier < 8,
            old(self).dimensions[tier as int].bought <= u64::MAX - 10,
            old(self).cost_bumps_below_max(),
        ensures
            r == (if bulk_left > 0 && group_affordable {
                10 - old(self).dimensions[tier as int].bought % 10
            } else {
                0
            }),
            r == 0 ==> *final(self) == *old(self),
            r > 0 ==> *final(self) == old(self).purchase_spec(tier, r as nat, *costs, tickspeed_same_exponent,
                final(self).achievements),
            r > 0 ==> final(self).achievements@ == old(self).achievements_with((11 + tier) as u16),
    {
        self.buy_until_10_dimension(tier, bulk_left > 0 && group_affordable, 10, costs, tickspeed_same_exponent)
    }

    /// "Buy max" of `tier` without a group limit (see
    /// `buy_max_dimension_bulk`).
    pub fn buy_max_dimension(&mut self, tier: usize, available: bool, group_affordable: bool,
        extra_groups: u64, costs: &[CostComparison; 8], tickspeed_same_exponent: bool) -> (r: u64)
        requires
            tier < 8,
            old(self).dimensions[tier as int].bought + 10 + 10 * extra_groups <= u64::MAX,
            old(self).cost_bumps_below_max(),
        ensures
            r == (if !available || !group_affordable {
                0
            } else {
                let groups = if old(self).challenge_running_spec(9) || old(self).infinity_challenge.current == 5 {
                    0
                } else {
                    extra_groups as int
                };
                (10 - old(self).dimensions[tier as int].bought % 10) + 10 * groups
            }),
            r == 0 ==> *final(self) == *old(self),
            r > 0 ==> *final(self) == old(self).purchase_spec(tier, r as nat, *costs, tickspeed_same_exponent,
                final(self).achievements),
            r > 0 ==> final(self).achievements@ == old(self).achievements_with((11 + tier) as u16),
    {
        self.buy_max_dimension_bulk(tier, u64::MAX, available, group_affordable, extra_groups, costs,
            tickspeed_same_exponent)
    }
}

} // verus!
