//! V: the Celestial of Achievements, its Reality and Space Theorems.
use vstd::prelude::*;
use crate::state::GameState;
use crate::celestials::CelestialsState;

verus! {

/// The saved state of this celestial.
pub struct VState {
    /// Unlock bits: bit 0 = V unlocked, 1–6 = the Space-Theorem rewards.
    pub unlock_bits: u32,
    /// Whether V's Reality is running.
    pub run: bool,
    /// Per-achievement tier completions.
    pub run_unlocks: [u32; 9],
    /// Per-achievement goal-reduction steps.
    pub goal_reduction_steps: [u32; 9],
    /// Space Theorems spent on goal reduction.
    pub st_spent: u32,
}

/// V's Reality.
pub const V_UNLOCK_CELESTIAL: u8 = 0;
/// Goal reduction with Perk Points.
pub const V_UNLOCK_SHARD_REDUCTION: u8 = 1;
/// Antimatter Dimension power.
pub const V_UNLOCK_AD_POW: u8 = 2;
/// Faster auto-ECs.
pub const V_UNLOCK_FAST_AUTO_EC: u8 = 3;
/// Auto-auto-clean of glyphs.
pub const V_UNLOCK_AUTO_AUTO_CLEAN: u8 = 4;
/// Achievement-powered Black Hole.
pub const V_UNLOCK_ACHIEVEMENT_BH: u8 = 5;
/// Ra.
pub const V_UNLOCK_RA: u8 = 6;

/// The Space Theorems at which unlock `bit` (1–6) is granted.
pub open spec fn v_st_threshold(bit: u8) -> u32 {
    if bit == 1 { 2 }
    else if bit == 2 { 5 }
    else if bit == 3 { 10 }
    else if bit == 4 { 16 }
    else if bit == 5 { 30 }
    else { 36 }
}

/// The Space Theorems at which unlock `bit` (1–6) is granted.
pub fn v_st_threshold_of(bit: u8) -> (r: u32)
    ensures
        r == v_st_threshold(bit),
{
    if bit == 1 { 2 }
    else if bit == 2 { 5 }
    else if bit == 3 { 10 }
    else if bit == 4 { 16 }
    else if bit == 5 { 30 }
    else { 36 }
}

/// `bits` with every Space-Theorem unlock among bits 1..`n` that `st` reaches.
pub open spec fn v_bits_after(bits: u32, st: u32, n: u8) -> u32
    decreases n,
{
    if n <= 1 {
        bits
    } else {
        let prev = v_bits_after(bits, st, (n - 1) as u8);
        if st >= v_st_threshold((n - 1) as u8) {
            prev | (1u32 << ((n - 1) as u8))
        } else {
            prev
        }
    }
}

/// Space Theorems from V-achievement tiers `0..n`: one per tier, two for the
/// hard achievements 6–8.
pub open spec fn v_st_sum(run_unlocks: Seq<u32>, n: int) -> int
    decreases n,
{
    if n <= 0 {
        0
    } else {
        v_st_sum(run_unlocks, n - 1) + (if n - 1 < 6 { run_unlocks[n - 1] as int } else { 2 * run_unlocks[n - 1] })
    }
}

/// The number of tiers of V-achievement `id` (6, or 5 for the hard ones).
pub open spec fn v_tier_count(id: int) -> u32 {
    if id < 6 { 6 } else { 5 }
}

/// The goal of V-achievement `id` at tier `c` for the achievements whose
/// reduction is bounded by their goal (1–4 and 7).
pub open spec fn v_goal(id: int, c: u32) -> u64 {
    if id == 1 { (4000 + 300 * c) as u64 }
    else if id == 2 { (600000 + 120000 * c) as u64 }
    else if id == 3 { v_goal3(c) }
    else if id == 4 { (7000 + 600 * c) as u64 }
    else if id == 7 { (100 + 50 * c) as u64 }
    else { 0 }
}

/// The goals of V-achievement 3 (antimatter exponent in EC12).
pub open spec fn v_goal3(c: u32) -> u64 {
    if c == 0 { 400000000 }
    else if c == 1 { 450000000 }
    else if c == 2 { 500000000 }
    else if c == 3 { 600000000 }
    else if c == 4 { 700000000 }
    else { 800000000 }
}

/// Whether `steps` goal-reduction steps of V-achievement `id` at tier `c`
/// already reach the largest reduction allowed.
pub open spec fn v_reduction_maxed(id: int, steps: u32, c: u32) -> bool {
    if id == 1 { 3 * steps >= v_goal(1, c) - 4000 }
    else if id == 2 { 1200 * steps >= v_goal(2, c) - 600000 }
    else if id == 3 { 500000 * steps >= v_goal(3, c) - 400000000 }
    else if id == 4 { 6 * steps >= v_goal(4, c) - 7000 }
    else if id == 5 { steps / 100 >= 5 }
    else if id == 7 { steps >= 2 * (v_goal(7, c) - 50) }
    else if id == 8 { 5 * steps >= 500 }
    else { true }
}

impl VState {
    /// Whether unlock `id` is held.
    pub open spec fn has_unlock(&self, id: u8) -> bool {
        id < 32 && self.unlock_bits & (1u32 << id) != 0
    }

    /// Whether unlock `id` is held.
    pub fn unlock_bought(&self, id: u8) -> (r: bool)
        ensures
            r == self.has_unlock(id),
    {
        id < 32 && self.unlock_bits & (1u32 << id) != 0
    }
}

impl GameState {
    pub open spec fn v_st_spec(&self) -> int {
        v_st_sum(self.celestials.v.run_unlocks@, 9)
    }

    /// Whether V is unlocked.
    pub fn v_celestial_unlocked(&self) -> (r: bool)
        ensures
            r == self.celestials.v.has_unlock(V_UNLOCK_CELESTIAL),
    {
        self.celestials.v.unlock_bought(V_UNLOCK_CELESTIAL)
    }

    /// Whether V's tab is available: V unlocked, or `progress_full` (all six
    /// main unlock requirements at 100%, so the "unlock V" prompt shows).
    pub fn v_tab_available(&self, progress_full: bool) -> (r: bool)
        ensures
            r == (self.celestials.v.has_unlock(V_UNLOCK_CELESTIAL) || progress_full),
    {
        self.v_celestial_unlocked() || progress_full
    }

    /// Whether V can be unlocked: not yet, and `progress_full` (all six main
    /// unlock requirements at 100%).
    pub fn v_can_unlock_celestial(&self, progress_full: bool) -> (r: bool)
        ensures
            r == (!self.celestials.v.has_unlock(V_UNLOCK_CELESTIAL) && progress_full),
    {
        !self.v_celestial_unlocked() && progress_full
    }

    /// Unlock V when allowed. Returns whether it happened.
    pub fn v_unlock_celestial(&mut self, progress_full: bool) -> (r: bool)
        ensures
            r == (!old(self).celestials.v.has_unlock(V_UNLOCK_CELESTIAL) && progress_full),
            !r ==> *final(self) == *old(self),
            r ==> *final(self) == (GameState {
                celestials: CelestialsState {
                    v: VState { unlock_bits: old(self).celestials.v.unlock_bits | 1u32, ..old(self).celestials.v },
                    ..old(self).celestials
                },
                ..*old(self)
            }),
    {
        if !self.v_can_unlock_celestial(progress_full) {
            return false;
        }
        self.celestials.v.unlock_bits = self.celestials.v.unlock_bits | (1u32 << V_UNLOCK_CELESTIAL);
        assert((1u32 << 0u8) == 1u32) by (bit_vector);
        true
    }

    /// Space Theorems: one per V-achievement tier, two per tier of the hard
    /// achievements (6–8).
    pub fn v_space_theorems(&self) -> (r: u32)
        requires
            self.v_st_spec() <= u32::MAX,
        ensures
            r == self.v_st_spec(),
    {
        let mut total: u32 = 0;
        let mut i: usize = 0;
        proof { lemma_v_st_sum_monotone(self.celestials.v.run_unlocks@); }
        while i < 9
            invariant
                i <= 9,
                total == v_st_sum(self.celestials.v.run_unlocks@, i as int),
                v_st_sum(self.celestials.v.run_unlocks@, 9) <= u32::MAX,
                forall|j: int| 0 <= j <= 9 ==> #[trigger] v_st_sum(self.celestials.v.run_unlocks@, j)
                    <= v_st_sum(self.celestials.v.run_unlocks@, 9),
            decreases 9 - i,
        {
            let c = self.celestials.v.run_unlocks[i];
            assert(v_st_sum(self.celestials.v.run_unlocks@, (i + 1) as int) <= u32::MAX);
            if i < 6 {
                total = total + c;
            } else {
                total = total + 2 * c;
            }
            i = i + 1;
        }
        total
    }

    /// Space Theorems, computed without overflow.
    pub(crate) fn v_space_theorems_total(&self) -> (r: u64)
        ensures
            r == self.v_st_spec(),
    {
        let mut total: u64 = 0;
        let mut i: usize = 0;
        while i < 9
            invariant
                i <= 9,
                total == v_st_sum(self.celestials.v.run_unlocks@, i as int),
                total <= 2 * (u32::MAX as int) * (i as int),
            decreases 9 - i,
        {
            let c = self.celestials.v.run_unlocks[i] as u64;
            if i < 6 {
                total = total + c;
            } else {
                total = total + 2 * c;
            }
            i = i + 1;
        }
        total
    }

    /// Whether auto-auto-clean is unlocked.
    pub fn v_auto_auto_clean_unlocked(&self) -> (r: bool)
        ensures
            r == self.celestials.v.has_unlock(V_UNLOCK_AUTO_AUTO_CLEAN),
    {
        self.celestials.v.unlock_bought(V_UNLOCK_AUTO_AUTO_CLEAN)
    }

    /// The goal-reduction steps one reduction of V achievement `id` buys:
    /// 100 for the sixth, 2 for the eighth, else 1.
    pub fn v_reduction_step_size(id: usize) -> (r: u32)
        ensures
            r == (if id == 5 { 100u32 } else if id == 7 { 2u32 } else { 1u32 }),
    {
        if id == 5 { 100 } else if id == 7 { 2 } else { 1 }
    }

    /// Whether the auto-auto-clean unlock takes effect: held, and not Doomed.
    pub fn v_auto_auto_clean_applies(&self) -> (r: bool)
        ensures
            r == (!self.celestials.pelle.doomed && self.celestials.v.has_unlock(V_UNLOCK_AUTO_AUTO_CLEAN)),
    {
        !self.is_doomed() && self.v_auto_auto_clean_unlocked()
    }

    /// Whether V is flipped: Ra's hard-V unlock is held.
    pub fn v_is_flipped(&self) -> (r: bool)
        ensures
            r == self.ra_has(crate::celestials::ra::RA_UNLOCK_HARD_V),
    {
        self.ra_hard_v_unlocked()
    }

    /// Space Theorems not yet spent (never below 0).
    pub fn v_available_space_theorems(&self) -> (r: u32)
        requires
            self.v_st_spec() <= u32::MAX,
        ensures
            r == (if self.v_st_spec() >= self.celestials.v.st_spent {
                self.v_st_spec() - self.celestials.v.st_spent
            } else {
                0
            }),
    {
        self.v_space_theorems().saturating_sub(self.celestials.v.st_spent)
    }

    /// Grant the Space-Theorem unlocks (bits 1–6) that V's Space Theorems
    /// reach, once V is unlocked.
    pub(crate) fn v_check_for_unlocks(&mut self)
        requires
            old(self).v_st_spec() <= u32::MAX,
        ensures
            *final(self) == (if old(self).celestials.v.has_unlock(V_UNLOCK_CELESTIAL) {
                GameState {
                    celestials: CelestialsState {
                        v: VState {
                            unlock_bits: v_bits_after(old(self).celestials.v.unlock_bits,
                                old(self).v_st_spec() as u32, 7),
                            ..old(self).celestials.v
                        },
                        ..old(self).celestials
                    },
                    ..*old(self)
                }
            } else {
                *old(self)
            }),
    {
        if !self.v_celestial_unlocked() {
            return;
        }
        let st = self.v_space_theorems();
        let mut bit: u8 = 1;
        while bit < 7
            invariant
                1 <= bit <= 7,
                st == old(self).v_st_spec(),
                *self == (GameState {
                    celestials: CelestialsState {
                        v: VState {
                            unlock_bits: v_bits_after(old(self).celestials.v.unlock_bits, st, bit),
                            ..old(self).celestials.v
                        },
                        ..old(self).celestials
                    },
                    ..*old(self)
                }),
            decreases 7 - bit,
        {
            if st >= v_st_threshold_of(bit) {
                self.celestials.v.unlock_bits = self.celestials.v.unlock_bits | (1u32 << bit);
            }
            bit = bit + 1;
        }
    }

    /// Whether V-achievement `id`'s goal can still be reduced: it has a tier
    /// done and one left, and its reduction is not yet at the largest allowed.
    pub fn v_can_be_reduced(&self, id: usize) -> (r: bool)
        requires
            id < 9,
        ensures
            r == (self.celestials.v.run_unlocks[id as int] < v_tier_count(id as int)
                && self.celestials.v.run_unlocks[id as int] != 0
                && !v_reduction_maxed(id as int, self.celestials.v.goal_reduction_steps[id as int],
                    self.celestials.v.run_unlocks[id as int])),
    {
        let c = self.celestials.v.run_unlocks[id];
        let tiers: u32 = if id < 6 { 6 } else { 5 };
        if !(c < tiers && c != 0) {
            return false;
        }
        let steps = self.celestials.v.goal_reduction_steps[id] as u64;
        let c64 = c as u64;
        let maxed = if id == 1 {
            3 * steps >= 300 * c64
        } else if id == 2 {
            1200 * steps >= 120000 * c64
        } else if id == 3 {
            let goal: u64 = if c == 1 { 450000000 }
                else if c == 2 { 500000000 }
                else if c == 3 { 600000000 }
                else if c == 4 { 700000000 }
                else { 800000000 };
            500000 * steps >= goal - 400000000
        } else if id == 4 {
            6 * steps >= 600 * c64
        } else if id == 5 {
            steps / 100 >= 5
        } else if id == 7 {
            steps >= 2 * (50 + 50 * c64)
        } else if id == 8 {
            5 * steps >= 500
        } else {
            true
        };
        !maxed
    }
}

/// `v_st_sum` grows with its prefix length.
proof fn lemma_v_st_sum_monotone(s: Seq<u32>)
    ensures
        forall|j: int| 0 <= j <= 9 ==> #[trigger] v_st_sum(s, j) <= v_st_sum(s, 9),
{
    assert forall|j: int| 0 <= j <= 9 implies #[trigger] v_st_sum(s, j) <= v_st_sum(s, 9) by {
        lemma_v_st_sum_le(s, j, 9);
    }
}

proof fn lemma_v_st_sum_le(s: Seq<u32>, a: int, b: int)
    requires
        0 <= a <= b,
    ensures
        v_st_sum(s, a) <= v_st_sum(s, b),
    decreases b - a,
{
    if a < b {
        lemma_v_st_sum_le(s, a, b - 1);
    }
}

} // verus!
