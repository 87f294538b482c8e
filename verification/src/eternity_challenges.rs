//! Eternity Challenges: 12 challenges with up to 5 completions each, entered
//! through an unlock study in the Time Study tree.
use vstd::prelude::*;
use crate::state::GameState;

verus! {

/// Number of Eternity Challenges.
pub const ETERNITY_CHALLENGE_COUNT: usize = 12;

/// Base max completions per challenge.
pub const EC_MAX_COMPLETIONS: u16 = 5;

/// EC1's raised completion cap inside Enslaved's Reality.
pub const EC1_ENSLAVED_MAX_COMPLETIONS: u16 = 1000;

/// The sum of the first `n` entries of `s`.
pub open spec fn sum_prefix(s: Seq<u16>, n: int) -> int
    decreases n,
{
    if n <= 0 { 0 } else { sum_prefix(s, n - 1) + s[n - 1] }
}

/// The Infinities EC4 allows this run at `completions` completions.
pub open spec fn ec4_infinity_limit(completions: u16) -> u64 {
    if 4 * completions >= 16 { 0 } else { (16 - 4 * completions) as u64 }
}

/// The completions after banking one of `c` (capped at `maxc`); with the ECB
/// perk the banking goes on while the next tier's goal is met — the peak IP
/// meets the goals of the first `goals_met` tiers.
pub open spec fn ec_banked_completions(c: u16, maxc: u16, goals_met: u16, perk: bool) -> u16 {
    let c1 = if c < maxc { (c + 1) as u16 } else { maxc };
    if perk && c1 < maxc && c1 < goals_met {
        if maxc <= goals_met { maxc } else { goals_met }
    } else {
        c1
    }
}

/// The completions an Eternity now would reach from `c`: one more when the
/// next tier's goal is met, and with the ECB perk every further tier whose
/// goal is met, up to `maxc`.
pub open spec fn ec_pending_completions(c: u16, maxc: u16, goals_met: u16, perk: bool) -> u16 {
    if c < maxc && c < goals_met {
        if perk {
            if maxc <= goals_met { maxc } else { goals_met }
        } else {
            (c + 1) as u16
        }
    } else {
        c
    }
}

/// Whether a Time Study that admits EC `id`'s unlock study is owned.
/// The Time-Theorem cost of EC `id`'s unlock study (0 for an invalid id).
pub open spec fn ec_study_cost_spec(id: u8) -> u32 {
    if id == 1 { 30 } else if id == 2 { 35 } else if id == 3 { 40 } else if id == 4 { 70 }
    else if id == 5 { 130 } else if id == 6 { 85 } else if id == 7 { 115 } else if id == 8 { 115 }
    else if id == 9 { 415 } else if id == 10 { 550 } else if id == 11 { 1 } else if id == 12 { 1 }
    else { 0 }
}

/// The Time-Theorem cost of EC `id`'s unlock study (0 for an invalid id).
pub fn ec_study_cost(id: u8) -> (r: u32)
    ensures
        r == ec_study_cost_spec(id),
{
    if id == 1 { 30 } else if id == 2 { 35 } else if id == 3 { 40 } else if id == 4 { 70 }
    else if id == 5 { 130 } else if id == 6 { 85 } else if id == 7 { 115 } else if id == 8 { 115 }
    else if id == 9 { 415 } else if id == 10 { 550 } else if id == 11 { 1 } else if id == 12 { 1 }
    else { 0 }
}

/// The tree studies of which one admits EC `id`'s unlock study (none for an
/// invalid id).
pub open spec fn ec_study_prerequisites_spec(id: u8) -> Seq<u16> {
    if 1 <= id <= 3 { seq![171u16] }
    else if id == 4 { seq![143u16] }
    else if id == 5 { seq![42u16] }
    else if id == 6 { seq![121u16] }
    else if id == 7 { seq![111u16] }
    else if id == 8 { seq![123u16] }
    else if id == 9 { seq![151u16] }
    else if id == 10 { seq![181u16] }
    else if id == 11 { seq![231u16, 232] }
    else if id == 12 { seq![233u16, 234] }
    else { Seq::empty() }
}

/// The tree studies of which one admits EC `id`'s unlock study.
pub fn ec_study_prerequisites(id: u8) -> (r: Vec<u16>)
    ensures
        r@ == ec_study_prerequisites_spec(id),
{
    if 1 <= id && id <= 3 { vec![171] }
    else if id == 4 { vec![143] }
    else if id == 5 { vec![42] }
    else if id == 6 { vec![121] }
    else if id == 7 { vec![111] }
    else if id == 8 { vec![123] }
    else if id == 9 { vec![151] }
    else if id == 10 { vec![181] }
    else if id == 11 { vec![231, 232] }
    else if id == 12 { vec![233, 234] }
    else { Vec::new() }
}

/// Whether `s` holds one of EC `id`'s prerequisite studies.
pub open spec fn ec_prerequisite_spec(s: GameState, id: u8) -> bool {
    if 1 <= id <= 3 { s.has_time_study(171) }
    else if id == 4 { s.has_time_study(143) }
    else if id == 5 { s.has_time_study(42) }
    else if id == 6 { s.has_time_study(121) }
    else if id == 7 { s.has_time_study(111) }
    else if id == 8 { s.has_time_study(123) }
    else if id == 9 { s.has_time_study(151) }
    else if id == 10 { s.has_time_study(181) }
    else if id == 11 { s.has_time_study(231) || s.has_time_study(232) }
    else if id == 12 { s.has_time_study(233) || s.has_time_study(234) }
    else { false }
}

impl GameState {
    pub open spec fn ec_completions_spec(&self, id: u8) -> u16 {
        if 1 <= id <= 12 { self.eternity_challenges[id - 1] } else { 0 }
    }

    pub open spec fn ec_max_completions_spec(&self, id: u8) -> u16 {
        if id == 1 && self.celestials.enslaved.run { 1000 } else { 5 }
    }

    /// Whether Perk `id` is bought and in effect (Perks are inert while Doomed).
    pub open spec fn perk_applies_spec(&self, id: u16) -> bool {
        self.has_perk(id) && !self.celestials.pelle.doomed
    }

    /// Whether Perk `id` is bought and in effect (Perks are inert while Doomed).
    pub fn perk_applies(&self, id: u16) -> (r: bool)
        ensures
            r == self.perk_applies_spec(id),
    {
        self.perk_bought(id) && !self.celestials.pelle.doomed
    }

    /// Completions of EC `id` (0 for an invalid id).
    pub fn eternity_challenge_completions(&self, id: u8) -> (r: u16)
        ensures
            r == self.ec_completions_spec(id),
    {
        if 1 <= id && id <= 12 {
            self.eternity_challenges[(id - 1) as usize]
        } else {
            0
        }
    }

    /// Max completions of EC `id`: 5, except EC1 inside Enslaved's Reality,
    /// which allows 1000.
    pub fn ec_max_completions(&self, id: u8) -> (r: u16)
        ensures
            r == self.ec_max_completions_spec(id),
    {
        if id == 1 && self.celestials.enslaved.run {
            EC1_ENSLAVED_MAX_COMPLETIONS
        } else {
            EC_MAX_COMPLETIONS
        }
    }

    /// Whether EC `id` is the one running.
    pub fn ec_running(&self, id: u8) -> (r: bool)
        ensures
            r == (self.eternity_challenge_current == id && id != 0),
    {
        self.eternity_challenge_current == id && id != 0
    }

    /// Whether any EC is running.
    pub fn any_ec_running(&self) -> (r: bool)
        ensures
            r == (self.eternity_challenge_current != 0),
    {
        self.eternity_challenge_current != 0
    }

    /// Whether EC `id`'s reward is active (any completion).
    pub fn ec_completed(&self, id: u8) -> (r: bool)
        ensures
            r == (self.ec_completions_spec(id) > 0),
    {
        self.eternity_challenge_completions(id) > 0
    }

    /// Total completions across EC1–12.
    pub fn total_ec_completions(&self) -> (r: u32)
        ensures
            r == sum_prefix(self.eternity_challenges@, 12),
    {
        let mut total: u32 = 0;
        let mut i: usize = 0;
        while i < ETERNITY_CHALLENGE_COUNT
            invariant
                0 <= i <= 12,
                total == sum_prefix(self.eternity_challenges@, i as int),
                total <= i * 65535,
            decreases 12 - i,
        {
            total = total + self.eternity_challenges[i] as u32;
            i = i + 1;
        }
        total
    }

    /// Whether EC `id` can be started: its study is held and it isn't running.
    pub fn can_start_eternity_challenge(&self, id: u8) -> (r: bool)
        ensures
            r == (self.eternity_challenge_unlocked == id && self.eternity_challenge_current != id && id != 0),
    {
        self.eternity_challenge_unlocked == id && !self.ec_running(id) && id != 0
    }

    /// Whether the running-EC restriction of EC `id` holds: EC4 caps this
    /// run's Infinities at `16 − 4·completions`; EC12's game-time cap is
    /// `ec12_time_within_limit`; the other ECs have none.
    pub fn ec_within_restriction(&self, id: u8, ec12_time_within_limit: bool) -> (r: bool)
        ensures
            r == (if id == 4 {
                self.infinities <= ec4_infinity_limit(self.ec_completions_spec(4))
            } else if id == 12 {
                ec12_time_within_limit
            } else {
                true
            }),
    {
        if id == 4 {
            let c = self.eternity_challenge_completions(4);
            let limit: u64 = if c >= 4 { 0 } else { (16 - 4 * c) as u64 };
            self.infinities <= limit
        } else if id == 12 {
            ec12_time_within_limit
        } else {
            true
        }
    }

    /// The state after starting EC `id` from `self`; `studies` stands for
    /// the Time Study list left.
    pub open spec fn ec_started_spec(&self, id: u8, ip_at_limit: bool, ec_goals_met: u16,
        gained_eternities: u64, studies: Vec<u16>) -> GameState
    {
        let e = if self.can_eternity_spec(ip_at_limit, ec_goals_met) {
            self.eternity_spec(true, ec_goals_met, gained_eternities, studies)
        } else {
            *self
        };
        GameState { eternity_challenge_current: id, ..e }.eternity_reset_core_spec()
    }

    /// Start EC `id` when allowed: at the Eternity goal a rewarded Eternity
    /// comes first (without respec), then the challenge is entered with the
    /// Eternity layer reset. Returns whether it started.
    pub fn start_eternity_challenge(&mut self, id: u8, ip_at_limit: bool, ec_goals_met: u16,
        gained_eternities: u64) -> (r: bool)
        requires
            old(self).eternity_challenge_current <= 12,
        ensures
            r == (old(self).eternity_challenge_unlocked == id && old(self).eternity_challenge_current != id && id != 0),
            !r ==> *final(self) == *old(self),
            r ==> *final(self) == old(self).ec_started_spec(id, ip_at_limit, ec_goals_met, gained_eternities,
                final(self).time_studies),
            r ==> final(self).time_studies@ == (if old(self).can_eternity_spec(ip_at_limit, ec_goals_met)
                && old(self).eternity_challenge_current != 0 {
                Seq::<u16>::empty()
            } else {
                old(self).time_studies@
            }),
    {
        if !self.can_start_eternity_challenge(id) {
            return false;
        }
        let ghost s0 = *self;
        if self.can_eternity(ip_at_limit, ec_goals_met) {
            self.eternity_with_options(true, ip_at_limit, ec_goals_met, gained_eternities);
        }
        let ghost s1 = *self;
        self.eternity_challenge_current = id;
        let ghost s2 = *self;
        self.eternity_reset_core();
        proof {
            assert(s2 == GameState { eternity_challenge_current: id, ..s1 });
        }
        true
    }

    /// Leave the running EC: flag a respec and force a reward-free Eternity
    /// reset. Returns whether an EC was running.
    pub fn exit_eternity_challenge(&mut self) -> (r: bool)
        ensures
            r == (old(self).eternity_challenge_current != 0),
            !r ==> *final(self) == *old(self),
            r ==> *final(self) == (GameState { eternity_challenge_current: 0, respec: true, ..*old(self) })
                .eternity_full_reset_spec(false, final(self).time_studies),
            r ==> final(self).time_studies@ == Seq::<u16>::empty(),
    {
        if !self.any_ec_running() {
            return false;
        }
        self.eternity_challenge_current = 0;
        self.respec = true;
        self.eternity_reset();
        true
    }

    /// Exit EC `id` when it runs and its restriction is broken, unlocking the
    /// "challenge failed" achievement (114). Returns whether it failed.
    pub(crate) fn ec_try_fail(&mut self, id: u8, ec12_time_within_limit: bool) -> (r: bool)
        ensures
            r == (old(self).eternity_challenge_current == id && id != 0
                && !(if id == 4 {
                    old(self).infinities <= ec4_infinity_limit(old(self).ec_completions_spec(4))
                } else if id == 12 {
                    ec12_time_within_limit
                } else {
                    true
                })),
            !r ==> *final(self) == *old(self),
            r ==> *final(self) == (GameState {
                achievements: final(self).achievements,
                ..(GameState { eternity_challenge_current: 0, respec: true, ..*old(self) })
                    .eternity_full_reset_spec(false, final(self).time_studies)
            }),
            r ==> final(self).achievements@ == old(self).achievements_with(114),
            r ==> final(self).time_studies@ == Seq::<u16>::empty(),
    {
        if self.ec_running(id) && !self.ec_within_restriction(id, ec12_time_within_limit) {
            self.exit_eternity_challenge();
            self.unlock_achievement(114);
            return true;
        }
        false
    }

    /// The completions of EC `id` an Eternity now would reach, when the peak
    /// IP this Eternity meets the goals of its first `goals_met` tiers (0 for
    /// an invalid id).
    pub fn ec_pending_total_completions(&self, id: u8, goals_met: u16) -> (r: u16)
        ensures
            r == (if 1 <= id <= 12 {
                ec_pending_completions(self.ec_completions_spec(id), self.ec_max_completions_spec(id),
                    goals_met, self.perk_applies_spec(73))
            } else {
                0
            }),
    {
        if id == 0 || id > 12 {
            return 0;
        }
        let c = self.eternity_challenges[(id - 1) as usize];
        let maxc = self.ec_max_completions(id);
        let perk = self.perk_applies(73);
        let mut total = c;
        if perk {
            while total < maxc && total < goals_met
                invariant
                    c <= total,
                    total > c ==> total <= goals_met && total <= maxc,
                decreases maxc - total,
            {
                total = total + 1;
            }
        } else if total < maxc && total < goals_met {
            total = total + 1;
        }
        total
    }

    /// The state after banking a completion of the running EC `ec` (1–12):
    /// completions per `ec_banked_completions`, its requirement bit cleared,
    /// and the study tree respecced (`studies` is the emptied list).
    pub open spec fn ec_banked_spec(&self, goals_met: u16, studies: Vec<u16>) -> GameState {
        let ec = self.eternity_challenge_current;
        GameState {
            eternity_challenges: vstd::array::spec_array_update(self.eternity_challenges, ec - 1,
                ec_banked_completions(self.ec_completions_spec(ec), self.ec_max_completions_spec(ec),
                    goals_met, self.perk_applies_spec(73))),
            ec_requirement_bits: self.ec_requirement_bits & !(1u32 << ec),
            time_studies: studies,
            eternity_challenge_unlocked: 0,
            ..*self
        }
    }

    /// Bank a completion of the running EC on an Eternity (+1, capped; more
    /// with the ECB perk while further goals are met), clear its requirement
    /// bit and respec the study tree.
    pub(crate) fn complete_running_ec(&mut self, goals_met: u16)
        requires
            1 <= old(self).eternity_challenge_current <= 12,
        ensures
            *final(self) == old(self).ec_banked_spec(goals_met, final(self).time_studies),
            final(self).time_studies@ == Seq::<u16>::empty(),
    {
        broadcast use vstd::array::group_array_axioms;
        let id = self.eternity_challenge_current;
        let i = (id - 1) as usize;
        let maxc = self.ec_max_completions(id);
        let c = self.eternity_challenges[i];
        let mut n: u16 = if c < maxc { c + 1 } else { maxc };
        if self.perk_applies(73) {
            while n < maxc && n < goals_met
                invariant
                    n <= maxc,
                    n >= (if c < maxc { c + 1 } else { maxc as int }),
                    n > (if c < maxc { c + 1 } else { maxc as int }) ==> n <= goals_met,
                decreases maxc - n,
            {
                n = n + 1;
            }
        }
        let ghost expected = ec_banked_completions(c, maxc, goals_met, self.perk_applies_spec(73));
        assert(n == expected);
        self.eternity_challenges[i] = n;
        self.ec_requirement_bits = self.ec_requirement_bits & !(1u32 << id);
        self.respec_time_studies_now();
        assert(self.eternity_challenges =~= vstd::array::spec_array_update(
            old(self).eternity_challenges, id - 1, expected));
    }

    /// Whether a Time Study that admits EC `id`'s unlock study is owned.
    pub fn ec_study_prerequisite_met(&self, id: u8) -> (r: bool)
        ensures
            r == ec_prerequisite_spec(*self, id),
    {
        if 1 <= id && id <= 3 { self.time_study_bought(171) }
        else if id == 4 { self.time_study_bought(143) }
        else if id == 5 { self.time_study_bought(42) }
        else if id == 6 { self.time_study_bought(121) }
        else if id == 7 { self.time_study_bought(111) }
        else if id == 8 { self.time_study_bought(123) }
        else if id == 9 { self.time_study_bought(151) }
        else if id == 10 { self.time_study_bought(181) }
        else if id == 11 { self.time_study_bought(231) || self.time_study_bought(232) }
        else if id == 12 { self.time_study_bought(233) || self.time_study_bought(234) }
        else { false }
    }

    /// Completions that scale EC `id`'s secondary requirement: at most 4, and
    /// for EC1 at most one below its cap (so past 4 inside Enslaved's Reality).
    pub open spec fn ec_requirement_steps(&self, id: u8) -> int {
        let c = self.ec_completions_spec(id);
        if id == 1 {
            if c <= self.ec_max_completions_spec(1) - 1 { c as int } else { self.ec_max_completions_spec(1) - 1 }
        } else if c <= 4 {
            c as int
        } else {
            4
        }
    }

    /// Whether EC `id`'s secondary requirement is met now. EC1: Eternities
    /// at least 20000 per step plus 20000; EC2: free tickspeed upgrades at
    /// least 1300 + 150 per step; EC4: Infinities (banked included) at least
    /// 1e8 + 2.5e7 per step; EC5: Galaxies at least 160 + 14 per step; EC6:
    /// Replicanti Galaxies at least 40 + 5 per step. EC3 and EC7–10 compare
    /// floating-point amounts (8th Dimensions, antimatter, Infinity Points,
    /// Infinity Power, Eternity Points): `amount_met` is that comparison.
    /// EC11/12 have none.
    pub open spec fn ec_secondary_met_spec(&self, id: u8, amount_met: bool) -> bool {
        let k = self.ec_requirement_steps(id);
        if id == 1 {
            self.eternities >= 20000 + 20000 * k
        } else if id == 2 {
            self.total_tick_gained >= 1300 + 150 * k
        } else if id == 4 {
            self.infinities + self.infinities_banked >= 100_000_000 + 25_000_000 * k
        } else if id == 5 {
            self.galaxies >= 160 + 14 * k
        } else if id == 6 {
            self.replicanti.galaxies >= 40 + 5 * k
        } else if id == 3 || (7 <= id <= 10) {
            amount_met
        } else {
            true
        }
    }

    /// Whether EC `id`'s secondary requirement is met now (see
    /// `ec_secondary_met_spec`; `amount_met` is read for EC3 and EC7–10).
    pub fn ec_secondary_met(&self, id: u8, amount_met: bool) -> (r: bool)
        ensures
            r == self.ec_secondary_met_spec(id, amount_met),
    {
        let c = self.eternity_challenge_completions(id);
        let k: u64 = if id == 1 {
            let cap = self.ec_max_completions(1) - 1;
            if c <= cap { c as u64 } else { cap as u64 }
        } else if c <= 4 {
            c as u64
        } else {
            4
        };
        if id == 1 {
            self.eternities >= 20000 + 20000 * k
        } else if id == 2 {
            self.total_tick_gained >= 1300 + 150 * k
        } else if id == 4 {
            let required: u64 = 100_000_000 + 25_000_000 * k;
            self.infinities >= required || self.infinities_banked >= required - self.infinities
        } else if id == 5 {
            self.galaxies as u64 >= 160 + 14 * k
        } else if id == 6 {
            self.replicanti.galaxies as u64 >= 40 + 5 * k
        } else if id == 3 || (7 <= id && id <= 10) {
            amount_met
        } else {
            true
        }
    }

    pub open spec fn can_buy_ec_study_spec(&self, id: u8, tt_affordable: bool, amount_met: bool) -> bool {
        &&& 1 <= id <= 12
        &&& self.eternity_challenge_unlocked == 0
        &&& tt_affordable
        &&& ec_prerequisite_spec(*self, id)
        &&& if id == 11 {
            !self.has_time_study(72) && !self.has_time_study(73)
        } else if id == 12 {
            !self.has_time_study(71) && !self.has_time_study(72)
        } else {
            self.perk_applies_spec(72)
                || self.ec_requirement_bits & (1u32 << id) != 0
                || self.ec_secondary_met_spec(id, amount_met)
        }
    }

    /// Whether EC `id`'s unlock study can be bought: no EC study held,
    /// `tt_affordable` (the Time Theorems cover its cost), a tree prerequisite
    /// owned, and the secondary requirement — for EC1–10 the one of
    /// `ec_secondary_met_spec` (`amount_met` is its floating-point comparison
    /// for EC3 and EC7–10), waived by the ECR perk or once met before; EC11/12
    /// instead forbid the conflicting dimension-path studies.
    pub fn can_buy_ec_study(&self, id: u8, tt_affordable: bool, amount_met: bool) -> (r: bool)
        ensures
            r == self.can_buy_ec_study_spec(id, tt_affordable, amount_met),
    {
        if !(1 <= id && id <= 12) {
            return false;
        }
        if self.eternity_challenge_unlocked != 0 {
            return false;
        }
        if !tt_affordable {
            return false;
        }
        if !self.ec_study_prerequisite_met(id) {
            return false;
        }
        if id == 11 {
            !self.time_study_bought(72) && !self.time_study_bought(73)
        } else if id == 12 {
            !self.time_study_bought(71) && !self.time_study_bought(72)
        } else {
            if self.perk_applies(72) {
                return true;
            }
            if self.ec_requirement_bits & (1u32 << id) != 0 {
                return true;
            }
            self.ec_secondary_met(id, amount_met)
        }
    }

    /// Buy EC `id`'s unlock study when allowed (the caller spends its Time
    /// Theorems): hold it and remember that its requirement was met.
    pub fn buy_ec_study(&mut self, id: u8, tt_affordable: bool, amount_met: bool) -> (r: bool)
        ensures
            r == old(self).can_buy_ec_study_spec(id, tt_affordable, amount_met),
            !r ==> *final(self) == *old(self),
            r ==> *final(self) == (GameState {
                eternity_challenge_unlocked: id,
                ec_requirement_bits: old(self).ec_requirement_bits | (1u32 << id),
                ..*old(self)
            }),
    {
        if !self.can_buy_ec_study(id, tt_affordable, amount_met) {
            return false;
        }
        self.eternity_challenge_unlocked = id;
        self.ec_requirement_bits = self.ec_requirement_bits | (1u32 << id);
        true
    }
}


/// Completions still missing from a challenge at `c` completions, below the
/// cap of 5 that auto-completion fills to.
pub open spec fn ec_room(c: u16) -> int {
    if c < 5 { 5 - c } else { 0 }
}

/// The completions missing from the first `n` challenges of `s`.
pub open spec fn ec_room_before(s: Seq<u16>, n: int) -> int
    decreases n,
{
    if n <= 0 { 0 } else { ec_room_before(s, n - 1) + ec_room(s[n - 1]) }
}

/// Completions of challenge `i` after `k` auto-completions are handed out one
/// at a time, each to the first challenge below 5 completions: the earlier
/// challenges absorb up to their missing completions first.
pub open spec fn ec_auto_filled(s: Seq<u16>, k: int, i: int) -> u16 {
    let before = ec_room_before(s, i);
    let add = if k <= before {
        0
    } else if k - before >= ec_room(s[i]) {
        ec_room(s[i])
    } else {
        k - before
    };
    (s[i] + add) as u16
}

/// What one step of Eternity Challenge auto-completion did; the caller keeps
/// the real-time accumulator and updates it by this outcome.
#[derive(Clone, Copy, Debug, PartialEq, Eq, Structural)]
pub enum EcAutoComplete {
    /// The first auto-completion Perk is missing: the accumulator stays.
    Inactive,
    /// Auto-completion is toggled off (or Doomed): the accumulator is held at
    /// one interval.
    Held,
    /// Ra's instant-completion unlock set every challenge to 5 completions.
    Instant,
    /// This many completions were made, one per elapsed interval.
    Completed(u64),
}

impl GameState {
    /// One tick of Eternity Challenge auto-completion, with `intervals` the
    /// whole completion intervals that the accumulated real time covers and
    /// `auto_ec` the player's toggle. Without Perk 60 nothing happens; toggled
    /// off or Doomed, the accumulator is held; with Ra's instant unlock every
    /// challenge jumps to 5; otherwise each interval completes one tier of the
    /// first challenge still below 5, until none is.
    pub fn ec_auto_complete_tick(&mut self, auto_ec: bool, intervals: u64) -> (r: EcAutoComplete)
        ensures
            !old(self).perk_applies_spec(60) ==> r == EcAutoComplete::Inactive
                && *final(self) == *old(self),
            old(self).perk_applies_spec(60) && (!auto_ec || old(self).celestials.pelle.doomed)
                ==> r == EcAutoComplete::Held && *final(self) == *old(self),
            old(self).perk_applies_spec(60) && auto_ec && !old(self).celestials.pelle.doomed
                && old(self).ra_has(21) ==> r == EcAutoComplete::Instant
                && final(self).eternity_challenges@ == Seq::new(12, |i: int| 5u16)
                && *final(self) == (GameState { eternity_challenges: final(self).eternity_challenges, ..*old(self) }),
            old(self).perk_applies_spec(60) && auto_ec && !old(self).celestials.pelle.doomed
                && !old(self).ra_has(21) ==> r == EcAutoComplete::Completed(
                    if intervals <= ec_room_before(old(self).eternity_challenges@, 12) {
                        intervals
                    } else {
                        ec_room_before(old(self).eternity_challenges@, 12) as u64
                    })
                && final(self).eternity_challenges@ == Seq::new(12,
                    |i: int| ec_auto_filled(old(self).eternity_challenges@, intervals as int, i))
                && *final(self) == (GameState { eternity_challenges: final(self).eternity_challenges, ..*old(self) }),
    {
        broadcast use vstd::array::group_array_axioms;
        if !self.perk_applies(60) {
            return EcAutoComplete::Inactive;
        }
        if !auto_ec || self.pelle_is_disabled("autoec", false) {
            proof {
                reveal_strlit("autoec");
                reveal_strlit("glyphs");
                reveal_strlit("antimatterDimAutobuyer1");
            }
            return EcAutoComplete::Held;
        }
        if self.ra_unlock_active(21) {
            let mut i: usize = 0;
            while i < 12
                invariant
                    i <= 12,
                    forall|j: int| 0 <= j < i ==> self.eternity_challenges@[j] == 5u16,
                    *self == (GameState { eternity_challenges: self.eternity_challenges, ..*old(self) }),
                decreases 12 - i,
            {
                self.eternity_challenges[i] = 5;
                i = i + 1;
            }
            assert(self.eternity_challenges@ =~= Seq::new(12, |i: int| 5u16));
            return EcAutoComplete::Instant;
        }
        let ghost orig = self.eternity_challenges@;
        let mut remaining: u64 = intervals;
        let mut i: usize = 0;
        while i < 12
            invariant
                i <= 12,
                orig == old(self).eternity_challenges@,
                0 <= ec_room_before(orig, i as int) <= 5 * i,
                remaining as int == (if intervals <= ec_room_before(orig, i as int) {
                    0
                } else {
                    intervals - ec_room_before(orig, i as int)
                }),
                forall|j: int| 0 <= j < i ==> self.eternity_challenges@[j]
                    == ec_auto_filled(orig, intervals as int, j),
                forall|j: int| i <= j < 12 ==> self.eternity_challenges@[j] == orig[j],
                *self == (GameState { eternity_challenges: self.eternity_challenges, ..*old(self) }),
            decreases 12 - i,
        {
            let c = self.eternity_challenges[i];
            assert(ec_room_before(orig, i as int + 1) == ec_room_before(orig, i as int) + ec_room(orig[i as int]));
            if c < 5 {
                let room: u64 = (5 - c) as u64;
                let add: u64 = if remaining < room { remaining } else { room };
                self.eternity_challenges[i] = c + add as u16;
                remaining = remaining - add;
            }
            i = i + 1;
        }
        assert(self.eternity_challenges@ =~= Seq::new(12,
            |i: int| ec_auto_filled(orig, intervals as int, i)));
        EcAutoComplete::Completed(intervals - remaining)
    }
}

} // verus!
