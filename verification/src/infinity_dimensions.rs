//! Infinity Dimensions: eight dimensions bought with Infinity Points, each
//! unlocked by a peak-antimatter threshold.
use vstd::prelude::*;
use crate::state::GameState;

verus! {

/// The number of Infinity Dimensions.
pub const INFINITY_DIMENSION_COUNT: usize = 8;

/// Purchases allowed of each Infinity Dimension but the 8th.
pub const ID_PURCHASE_CAP: u64 = 2_000_000;

/// The purchase and unlock state of one Infinity Dimension.
pub struct InfinityDimension {
    /// Dimensions bought (10 per purchase).
    pub base_amount: u64,
    /// Whether the dimension is unlocked.
    pub is_unlocked: bool,
}

/// The power of ten of this Eternity's peak antimatter that unlocks
/// Infinity Dimension `tier` (0-indexed): 1e1100, 1e1900, 1e2400, 1e10500,
/// 1e30000, 1e45000, 1e54000, 1e60000.
pub open spec fn id_unlock_exponent(tier: usize) -> u64 {
    if tier == 0 { 1100 }
    else if tier == 1 { 1900 }
    else if tier == 2 { 2400 }
    else if tier == 3 { 10500 }
    else if tier == 4 { 30000 }
    else if tier == 5 { 45000 }
    else if tier == 6 { 54000 }
    else { 60000 }
}

/// The power of ten of the peak antimatter that unlocks `tier`.
pub fn infinity_dimension_unlock_exponent(tier: usize) -> (r: u64)
    ensures
        r == id_unlock_exponent(tier),
{
    if tier == 0 { 1100 }
    else if tier == 1 { 1900 }
    else if tier == 2 { 2400 }
    else if tier == 3 { 10500 }
    else if tier == 4 { 30000 }
    else if tier == 5 { 45000 }
    else if tier == 6 { 54000 }
    else { 60000 }
}

impl GameState {
    /// The purchase cap of `tier`: one purchase in Enslaved's Reality, none
    /// for the 8th, else 2,000,000 plus `cap_increase` (the Tesseracts').
    pub open spec fn id_cap_spec(&self, tier: usize, cap_increase: u64) -> int {
        if self.celestials.enslaved.run { 1 } else if tier == 7 { u64::MAX as int } else { ID_PURCHASE_CAP + cap_increase }
    }

    pub open spec fn id_capped_spec(&self, tier: usize, cap_increase: u64) -> bool {
        self.infinity_dimensions[tier as int].base_amount / 10 >= self.id_cap_spec(tier, cap_increase)
    }

    /// Whether `tier` can be unlocked: not yet unlocked; this Eternity's peak
    /// antimatter (at least `10^max_am_exponent`) at its threshold, or perk
    /// 51; and for the 1st, `ip_reached` (1e8 Infinity Points).
    pub open spec fn can_unlock_id_spec(&self, tier: usize, max_am_exponent: u64, ip_reached: bool) -> bool {
        &&& !self.infinity_dimensions[tier as int].is_unlocked
        &&& (self.has_perk(51) || max_am_exponent >= id_unlock_exponent(tier))
        &&& (tier != 0 || ip_reached)
    }

    pub open spec fn id_available_spec(&self, tier: usize, affordable: bool, cap_increase: u64) -> bool {
        &&& self.eternity_challenge_current != 2 && self.eternity_challenge_current != 10
        &&& !(self.eternity_challenge_current == 8 && self.eterc8_ids == 0)
        &&& self.infinity_dimensions[tier as int].is_unlocked
        &&& affordable
        &&& !self.id_capped_spec(tier, cap_increase)
    }

    /// How many successive purchases of `tier` its cap, EC2/EC10 and EC8's
    /// allowance admit (0 while it is locked).
    pub open spec fn id_purchase_room(&self, tier: usize, cap_increase: u64) -> int {
        if self.eternity_challenge_current == 2 || self.eternity_challenge_current == 10
            || !self.infinity_dimensions[tier as int].is_unlocked {
            0
        } else {
            let left = self.id_cap_spec(tier, cap_increase) - self.infinity_dimensions[tier as int].base_amount / 10;
            let cap_left = if left > 0 { left } else { 0 };
            if self.eternity_challenge_current == 8 && self.eterc8_ids < cap_left {
                self.eterc8_ids as int
            } else {
                cap_left
            }
        }
    }

    /// The state after `n` purchases of `tier`.
    pub open spec fn id_bought_n_state(&self, tier: usize, n: nat) -> GameState {
        GameState {
            infinity_dimensions: vstd::array::spec_array_update(self.infinity_dimensions, tier as int,
                InfinityDimension {
                    base_amount: (self.infinity_dimensions[tier as int].base_amount + 10 * n) as u64,
                    ..self.infinity_dimensions[tier as int]
                }),
            eterc8_ids: if self.eternity_challenge_current == 8 { (self.eterc8_ids - n) as u32 } else { self.eterc8_ids },
            ..*self
        }
    }

    /// The state with `tier` unlocked.
    pub open spec fn id_unlocked_state(&self, tier: usize) -> GameState {
        GameState {
            infinity_dimensions: vstd::array::spec_array_update(self.infinity_dimensions, tier as int,
                InfinityDimension { is_unlocked: true, ..self.infinity_dimensions[tier as int] }),
            ..*self
        }
    }

    /// The state after one purchase of `tier`.
    pub open spec fn id_bought_state(&self, tier: usize) -> GameState {
        GameState {
            infinity_dimensions: vstd::array::spec_array_update(self.infinity_dimensions, tier as int,
                InfinityDimension {
                    base_amount: (self.infinity_dimensions[tier as int].base_amount + 10) as u64,
                    ..self.infinity_dimensions[tier as int]
                }),
            eterc8_ids: if self.eternity_challenge_current == 8 { (self.eterc8_ids - 1) as u32 } else { self.eterc8_ids },
            ..*self
        }
    }

    /// Whether Infinity Dimension `tier` is at its purchase cap: one purchase
    /// in Enslaved's Reality, none for the 8th, else 2,000,000 plus
    /// `cap_increase` (the extra purchases the Tesseracts allow).
    pub fn id_is_capped(&self, tier: usize, cap_increase: u64) -> (r: bool)
        requires
            tier < 8,
        ensures
            r == self.id_capped_spec(tier, cap_increase),
    {
        let purchases = self.infinity_dimensions[tier].base_amount / 10;
        if self.celestials.enslaved.run {
            purchases >= 1
        } else if tier == 7 {
            purchases >= u64::MAX
        } else {
            purchases >= ID_PURCHASE_CAP && purchases - ID_PURCHASE_CAP >= cap_increase
        }
    }

    /// Whether Infinity Dimension `tier` can be unlocked (see
    /// `can_unlock_id_spec`).
    pub fn can_unlock_infinity_dimension(&self, tier: usize, max_am_exponent: u64, ip_reached: bool) -> (r: bool)
        requires
            tier < 8,
        ensures
            r == self.can_unlock_id_spec(tier, max_am_exponent, ip_reached),
    {
        if self.infinity_dimensions[tier].is_unlocked {
            return false;
        }
        let am_ok = self.perk_bought(51) || max_am_exponent >= infinity_dimension_unlock_exponent(tier);
        let ip_ok = tier != 0 || ip_reached;
        am_ok && ip_ok
    }

    /// Unlock Infinity Dimension `tier` when it can be. Returns whether it is
    /// unlocked afterwards.
    pub fn unlock_infinity_dimension(&mut self, tier: usize, max_am_exponent: u64, ip_reached: bool) -> (r: bool)
        requires
            tier < 8,
        ensures
            r == (old(self).infinity_dimensions[tier as int].is_unlocked
                || old(self).can_unlock_id_spec(tier, max_am_exponent, ip_reached)),
            *final(self) == (if old(self).can_unlock_id_spec(tier, max_am_exponent, ip_reached) {
                old(self).id_unlocked_state(tier)
            } else {
                *old(self)
            }),
    {
        broadcast use vstd::array::group_array_axioms;
        if self.infinity_dimensions[tier].is_unlocked {
            return true;
        }
        if !self.can_unlock_infinity_dimension(tier, max_am_exponent, ip_reached) {
            return false;
        }
        let base = self.infinity_dimensions[tier].base_amount;
        self.infinity_dimensions[tier] = InfinityDimension { base_amount: base, is_unlocked: true };
        assert(self.infinity_dimensions =~= old(self).id_unlocked_state(tier).infinity_dimensions);
        true
    }

    /// Whether Infinity Dimension `tier` can be bought: not in EC2 or EC10,
    /// EC8's purchases not used up, unlocked, `affordable` (the IP covers its
    /// cost) and below its cap.
    pub fn id_available_for_purchase(&self, tier: usize, affordable: bool, cap_increase: u64) -> (r: bool)
        requires
            tier < 8,
        ensures
            r == self.id_available_spec(tier, affordable, cap_increase),
    {
        if self.ec_running(2) || self.ec_running(10) {
            return false;
        }
        if self.ec_running(8) && self.eterc8_ids == 0 {
            return false;
        }
        self.infinity_dimensions[tier].is_unlocked && affordable && !self.id_is_capped(tier, cap_increase)
    }

    /// Buy Infinity Dimension `tier` (the caller spends the IP and raises the
    /// cost): an unlock when it is locked, else one purchase of 10 when
    /// available, using up one of EC8's purchases. Returns whether either
    /// happened.
    pub fn buy_infinity_dimension(&mut self, tier: usize, max_am_exponent: u64, ip_reached: bool,
        affordable: bool, cap_increase: u64) -> (r: bool)
        requires
            tier < 8,
            old(self).infinity_dimensions[tier as int].base_amount <= u64::MAX - 10,
        ensures
            !old(self).infinity_dimensions[tier as int].is_unlocked ==> {
                &&& r == old(self).can_unlock_id_spec(tier, max_am_exponent, ip_reached)
                &&& *final(self) == (if r { old(self).id_unlocked_state(tier) } else { *old(self) })
            },
            old(self).infinity_dimensions[tier as int].is_unlocked ==> {
                &&& r == old(self).id_available_spec(tier, affordable, cap_increase)
                &&& *final(self) == (if r { old(self).id_bought_state(tier) } else { *old(self) })
            },
    {
        broadcast use vstd::array::group_array_axioms;
        if !self.infinity_dimensions[tier].is_unlocked {
            return self.unlock_infinity_dimension(tier, max_am_exponent, ip_reached);
        }
        if !self.id_available_for_purchase(tier, affordable, cap_increase) {
            return false;
        }
        if self.ec_running(8) {
            self.eterc8_ids = self.eterc8_ids - 1;
        }
        let d = &self.infinity_dimensions[tier];
        let bought = InfinityDimension { base_amount: d.base_amount + 10, is_unlocked: d.is_unlocked };
        self.infinity_dimensions[tier] = bought;
        assert(self.infinity_dimensions =~= old(self).id_bought_state(tier).infinity_dimensions);
        true
    }

    /// Buy Infinity Dimension `tier` up to `affordable` times (the number of
    /// successive purchases the IP covers), unlocking it first when it can
    /// be; stops at the cap or when EC8's purchases run out. Returns the
    /// purchases made.
    pub fn buy_max_infinity_dimension(&mut self, tier: usize, max_am_exponent: u64, ip_reached: bool,
        affordable: u32, cap_increase: u64) -> (r: u64)
        requires
            tier < 8,
            old(self).infinity_dimensions[tier as int].base_amount <= u64::MAX - 10 * (affordable as int) - 10,
        ensures
            ({
                let u = if old(self).can_unlock_id_spec(tier, max_am_exponent, ip_reached) {
                    old(self).id_unlocked_state(tier)
                } else {
                    *old(self)
                };
                &&& r == (if (affordable as int) < u.id_purchase_room(tier, cap_increase) {
                        affordable as int
                    } else {
                        u.id_purchase_room(tier, cap_increase)
                    })
                &&& *final(self) == u.id_bought_n_state(tier, r as nat)
            }),
    {
        broadcast use vstd::array::group_array_axioms;
        if !self.infinity_dimensions[tier].is_unlocked {
            self.unlock_infinity_dimension(tier, max_am_exponent, ip_reached);
        }
        let ghost u = *self;
        assert(u.id_bought_n_state(tier, 0) == u) by {
            assert(u.id_bought_n_state(tier, 0).infinity_dimensions =~= u.infinity_dimensions);
        }
        let mut count: u32 = 0;
        while count < affordable
            invariant
                tier < 8,
                count <= affordable,
                count <= u.id_purchase_room(tier, cap_increase),
                *self == u.id_bought_n_state(tier, count as nat),
                u == (if old(self).can_unlock_id_spec(tier, max_am_exponent, ip_reached) {
                    old(self).id_unlocked_state(tier)
                } else {
                    *old(self)
                }),
                u.infinity_dimensions[tier as int].base_amount <= u64::MAX - 10 * (affordable as int) - 10,
            decreases affordable - count,
        {
            let ghost before = *self;
            let ghost base = u.infinity_dimensions[tier as int].base_amount;
            assert((base + 10 * count) / 10 == base / 10 + count) by (nonlinear_arith);
            proof {
                assert(before.infinity_dimensions[tier as int].base_amount == base + 10 * count);
                assert(before.infinity_dimensions[tier as int].is_unlocked
                    == u.infinity_dimensions[tier as int].is_unlocked);
                assert(before.id_cap_spec(tier, cap_increase) == u.id_cap_spec(tier, cap_increase));
                if u.eternity_challenge_current == 8 {
                    assert(count <= u.eterc8_ids);
                }
                assert(before.id_available_spec(tier, true, cap_increase)
                    <==> (count as int) < u.id_purchase_room(tier, cap_increase));
            }
            let ok = self.buy_infinity_dimension(tier, max_am_exponent, ip_reached, true, cap_increase);
            if !ok {
                assert(count >= u.id_purchase_room(tier, cap_increase));
                return count as u64;
            }
            assert(count < u.id_purchase_room(tier, cap_increase));
            assert(self.infinity_dimensions =~= u.id_bought_n_state(tier, (count + 1) as nat).infinity_dimensions);
            count = count + 1;
        }
        count as u64
    }

    /// Whether `tier` is unlocked or could be unlocked right now.
    pub open spec fn id_unlocked_or_unlockable(&self, tier: int, max_am_exponent: u64, ip_reached: bool) -> bool {
        self.infinity_dimensions[tier].is_unlocked
            || ((self.has_perk(51) || max_am_exponent >= id_unlock_exponent(tier as usize))
                && (tier != 0 || ip_reached))
    }

    /// With the Eternity Milestone of 25 Eternities, unlock the Infinity
    /// Dimensions in order while they can be, until the 8th is unlocked: a
    /// tier ends up unlocked exactly when it and every tier before it were
    /// unlocked or unlockable.
    pub fn try_auto_unlock_infinity_dimensions(&mut self, max_am_exponent: u64, ip_reached: bool)
        ensures
            !old(self).milestone(25) || old(self).infinity_dimensions[7].is_unlocked ==> *final(self) == *old(self),
            old(self).milestone(25) && !old(self).infinity_dimensions[7].is_unlocked ==> forall|t: int| 0 <= t < 8
                ==> #[trigger] final(self).infinity_dimensions[t].is_unlocked
                    == (old(self).infinity_dimensions[t].is_unlocked
                        || forall|u: int| 0 <= u <= t
                            ==> #[trigger] old(self).id_unlocked_or_unlockable(u, max_am_exponent, ip_reached)),
            forall|t: int| 0 <= t < 8 ==> #[trigger] final(self).infinity_dimensions[t].base_amount
                == old(self).infinity_dimensions[t].base_amount,
            *final(self) == (GameState { infinity_dimensions: final(self).infinity_dimensions, ..*old(self) }),
    {
        broadcast use vstd::array::group_array_axioms;
        if !self.eternity_milestone_reached(25) || self.infinity_dimensions[7].is_unlocked {
            return;
        }
        let ghost g = *old(self);
        let mut going = true;
        let mut tier: usize = 0;
        while tier < INFINITY_DIMENSION_COUNT
            invariant
                tier <= 8,
                g == *old(self),
                going == forall|u: int| 0 <= u < tier ==> #[trigger] g.id_unlocked_or_unlockable(u, max_am_exponent, ip_reached),
                forall|t: int| 0 <= t < tier ==> #[trigger] self.infinity_dimensions[t].is_unlocked
                    == (g.infinity_dimensions[t].is_unlocked
                        || forall|u: int| 0 <= u <= t
                            ==> #[trigger] g.id_unlocked_or_unlockable(u, max_am_exponent, ip_reached)),
                forall|t: int| tier <= t < 8 ==> #[trigger] self.infinity_dimensions[t] == g.infinity_dimensions[t],
                forall|t: int| 0 <= t < 8 ==> #[trigger] self.infinity_dimensions[t].base_amount
                    == g.infinity_dimensions[t].base_amount,
                *self == (GameState { infinity_dimensions: self.infinity_dimensions, ..g }),
            decreases 8 - tier,
        {
            let ghost before = *self;
            if going {
                if !self.infinity_dimensions[tier].is_unlocked {
                    if !self.unlock_infinity_dimension(tier, max_am_exponent, ip_reached) {
                        going = false;
                    }
                }
            }
            proof {
                assert(g.id_unlocked_or_unlockable(tier as int, max_am_exponent, ip_reached)
                    == (before.infinity_dimensions[tier as int].is_unlocked
                        || before.can_unlock_id_spec(tier, max_am_exponent, ip_reached)));
                if !going {
                    assert(!(forall|u: int| 0 <= u <= tier as int
                        ==> #[trigger] g.id_unlocked_or_unlockable(u, max_am_exponent, ip_reached)));
                }
            }
            tier = tier + 1;
        }
    }
}

} // verus!
