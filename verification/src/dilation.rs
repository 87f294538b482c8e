//! Time Dilation: the dilated Eternity run, its studies and its upgrades.
use vstd::prelude::*;
use crate::state::{GameState, seq_with};
use crate::celestials::pelle::PelleState;
use crate::util::vec_contains_u8;

verus! {

/// The saved Time Dilation state.
pub struct DilationState {
    /// Bought dilation studies (ids 1–6).
    pub studies: Vec<u8>,
    /// Whether a dilated Eternity is running.
    pub active: bool,
    /// Tachyon Galaxies earned from Dilated Time thresholds.
    pub base_tachyon_galaxies: u32,
    /// One-time upgrades (ids 4–10), bit `1 << id`.
    pub upgrades: u32,
    /// Rebuyable purchase counts (ids 1–3).
    pub rebuyables: [u32; 3],
}

/// The Tachyon-Galaxy threshold rebuyable stops at 38 purchases.
pub const GALAXY_THRESHOLD_CAP: u32 = 38;

/// The upgrade bits 4–6, granted by perk 42 with Dilation.
pub const PERK42_UPGRADE_BITS: u32 = 0x70;
/// The upgrade bits 7–9, granted by perk 43 with Dilation.
pub const PERK43_UPGRADE_BITS: u32 = 0x380;

impl GameState {
    pub open spec fn has_dilation_study(&self, id: u8) -> bool {
        self.dilation.studies@.contains(id)
    }

    pub open spec fn has_dilation_upgrade(&self, id: u8) -> bool {
        id < 32 && self.dilation.upgrades & (1u32 << id) != 0
    }

    pub open spec fn dilation_rebuyable_capped_spec(&self, id: u8) -> bool {
        id == 2 && self.dilation.rebuyables[1] >= GALAXY_THRESHOLD_CAP
    }

    /// Whether Dilation study `id` can be bought, given `tt_affordable`
    /// (the Time Theorems cover its cost), `tt_requirement` (the most Time
    /// Theorems held reached 12900) and `study6_requirement` (this Reality's
    /// peak Eternity Points reached 1e4000 with the achievement requirement).
    pub open spec fn can_buy_dilation_study_spec(&self, id: u8, tt_affordable: bool,
        tt_requirement: bool, study6_requirement: bool) -> bool
    {
        &&& 1 <= id <= 6
        &&& !self.has_dilation_study(id)
        &&& tt_affordable
        &&& if id == 1 {
            let ts = self.has_time_study(231) || self.has_time_study(232)
                || self.has_time_study(233) || self.has_time_study(234);
            if self.has_perk(53) {
                ts
            } else {
                ts && self.ec_completions_spec(11) >= 5 && self.ec_completions_spec(12) >= 5
                    && tt_requirement
            }
        } else if id == 2 {
            self.has_dilation_study(1)
        } else if id == 6 {
            self.has_dilation_study(5) && study6_requirement
        } else {
            self.has_dilation_study((id - 1) as u8)
        }
    }

    pub open spec fn can_buy_dilation_upgrade_spec(&self, id: u8, affordable: bool) -> bool {
        &&& self.has_dilation_study(1)
        &&& 1 <= id <= 10
        &&& !(4 <= id <= 10 && self.has_dilation_upgrade(id))
        &&& !self.dilation_rebuyable_capped_spec(id)
        &&& affordable
    }

    /// Whether Dilation is unlocked (study 1 bought).
    pub fn dilation_unlocked(&self) -> (r: bool)
        ensures
            r == self.has_dilation_study(1),
    {
        vec_contains_u8(&self.dilation.studies, 1)
    }

    /// Whether Dilation study `id` is bought.
    pub fn dilation_study_bought(&self, id: u8) -> (r: bool)
        ensures
            r == self.has_dilation_study(id),
    {
        vec_contains_u8(&self.dilation.studies, id)
    }

    /// Whether Dilation study `id` (1–6) can be bought: not yet bought, its
    /// Time Theorems affordable, and its requirement met — study 1 a study of
    /// the last tree row (231–234) plus, without perk 53, EC11 and EC12
    /// completed five times and 12900 Time Theorems reached; study 2 Dilation;
    /// study 6 study 5 and its Reality requirement; the others the previous
    /// study.
    pub fn can_buy_dilation_study(&self, id: u8, tt_affordable: bool, tt_requirement: bool,
        study6_requirement: bool) -> (r: bool)
        ensures
            r == self.can_buy_dilation_study_spec(id, tt_affordable, tt_requirement, study6_requirement),
    {
        if !(1 <= id && id <= 6) || self.dilation_study_bought(id) {
            return false;
        }
        if !tt_affordable {
            return false;
        }
        if id == 1 {
            let ts = self.time_study_bought(231) || self.time_study_bought(232)
                || self.time_study_bought(233) || self.time_study_bought(234);
            if self.perk_bought(53) {
                return ts;
            }
            let ecs = self.eternity_challenge_completions(11) >= 5
                && self.eternity_challenge_completions(12) >= 5;
            ts && ecs && tt_requirement
        } else if id == 2 {
            self.dilation_unlocked()
        } else if id == 6 {
            self.dilation_study_bought(5) && study6_requirement
        } else {
            self.dilation_study_bought(id - 1)
        }
    }

    /// Buy Dilation study `id` when allowed (the caller spends the Time
    /// Theorems). Study 1 also grants upgrades 4–6 with perk 42 and 7–9 with
    /// perk 43. Returns whether it was bought.
    pub fn buy_dilation_study(&mut self, id: u8, tt_affordable: bool, tt_requirement: bool,
        study6_requirement: bool) -> (r: bool)
        ensures
            r == old(self).can_buy_dilation_study_spec(id, tt_affordable, tt_requirement, study6_requirement),
            !r ==> *final(self) == *old(self),
            r ==> final(self).dilation.studies@ == old(self).dilation.studies@.push(id),
            r ==> final(self).dilation.upgrades == (if id == 1 {
                old(self).dilation.upgrades
                    | (if old(self).has_perk(42) { PERK42_UPGRADE_BITS } else { 0u32 })
                    | (if old(self).has_perk(43) { PERK43_UPGRADE_BITS } else { 0u32 })
            } else {
                old(self).dilation.upgrades
            }),
            r ==> *final(self) == (GameState {
                dilation: DilationState {
                    studies: final(self).dilation.studies,
                    upgrades: final(self).dilation.upgrades,
                    ..old(self).dilation
                },
                ..*old(self)
            }),
    {
        if !self.can_buy_dilation_study(id, tt_affordable, tt_requirement, study6_requirement) {
            return false;
        }
        self.dilation.studies.push(id);
        if id == 1 {
            let u = self.dilation.upgrades;
            let a: u32 = if self.perk_bought(42) { PERK42_UPGRADE_BITS } else { 0 };
            let b: u32 = if self.perk_bought(43) { PERK43_UPGRADE_BITS } else { 0 };
            assert(u | a | b == (u | a) | b);
            self.dilation.upgrades = u | a | b;
        }
        true
    }

    /// The state with Strike 5 triggered when Doomed (achievements aside).
    pub open spec fn strike5_applied(&self) -> GameState {
        if self.celestials.pelle.doomed && !self.has_strike(5) {
            self.with_pelle(PelleState {
                progress_bits: self.celestials.pelle.progress_bits | (1u32 << 5u32),
                ..self.celestials.pelle
            })
        } else {
            *self
        }
    }

    /// The Eternity that entering or leaving Dilation performs: rewarded when
    /// allowed, else the reward-free reset.
    #[verifier::opaque]
    pub open spec fn dilation_eternity_spec(&self, ip_at_limit: bool, ec_goals_met: u16,
        gained_eternities: u64, studies: Vec<u16>) -> GameState
    {
        if self.can_eternity_spec(ip_at_limit, ec_goals_met) {
            self.eternity_spec(false, ec_goals_met, gained_eternities, studies)
        } else {
            self.eternity_full_reset_spec(false, studies)
        }
    }

    /// Whether the dilation Eternity leaves the study tree empty.
    pub open spec fn dilation_eternity_respecs(&self, ip_at_limit: bool, ec_goals_met: u16) -> bool {
        self.respec || (self.can_eternity_spec(ip_at_limit, ec_goals_met) && self.eternity_challenge_current != 0)
    }

    /// Start a dilated Eternity once Dilation is unlocked and none is
    /// running: achievement 136, Strike 5 when Doomed (achievement 187), an
    /// Eternity (rewarded when allowed, else reward-free), then the run is
    /// dilated. Returns whether it started.
    pub fn start_dilated_eternity(&mut self, ip_at_limit: bool, ec_goals_met: u16,
        gained_eternities: u64) -> (r: bool)
        requires
            old(self).eternity_challenge_current <= 12,
        ensures
            r == (old(self).has_dilation_study(1) && !old(self).dilation.active),
            !r ==> *final(self) == *old(self),
            r ==> final(self).achievements@ == (if old(self).celestials.pelle.doomed && !old(self).has_strike(5) {
                seq_with(old(self).achievements_with(136), 187)
            } else {
                old(self).achievements_with(136)
            }),
            r ==> *final(self) == (GameState { achievements: final(self).achievements, ..old(self).strike5_applied() })
                .dilation_eternity_spec(ip_at_limit, ec_goals_met, gained_eternities, final(self).time_studies)
                .dilation_activated(),
            r ==> final(self).time_studies@ == (if old(self).dilation_eternity_respecs(ip_at_limit, ec_goals_met) {
                Seq::<u16>::empty()
            } else {
                old(self).time_studies@
            }),
    {
        if !self.dilation_unlocked() || self.dilation.active {
            return false;
        }
        self.dilation_entry_unlocks();
        let ghost s1 = *self;
        self.dilation_eternity(ip_at_limit, ec_goals_met, gained_eternities);
        let ghost s2 = *self;
        self.start_dilation_flag();
        assert(s2 == s1.dilation_eternity_spec(ip_at_limit, ec_goals_met, gained_eternities, self.time_studies));
        true
    }

    /// Achievement 136 and, when Doomed, Strike 5.
    fn dilation_entry_unlocks(&mut self)
        ensures
            *final(self) == (GameState { achievements: final(self).achievements, ..old(self).strike5_applied() }),
            final(self).achievements@ == (if old(self).celestials.pelle.doomed && !old(self).has_strike(5) {
                seq_with(old(self).achievements_with(136), 187)
            } else {
                old(self).achievements_with(136)
            }),
    {
        self.unlock_achievement(136);
        self.pelle_trigger_strike(5);
    }

    /// The state with a dilated run active.
    pub open spec fn dilation_activated(&self) -> GameState {
        GameState { dilation: DilationState { active: true, ..self.dilation }, ..*self }
    }

    /// The Eternity of entering or leaving Dilation.
    fn dilation_eternity(&mut self, ip_at_limit: bool, ec_goals_met: u16, gained_eternities: u64)
        requires
            old(self).eternity_challenge_current <= 12,
        ensures
            *final(self) == old(self).dilation_eternity_spec(ip_at_limit, ec_goals_met, gained_eternities,
                final(self).time_studies),
            final(self).achievements == old(self).achievements,
            final(self).time_studies@ == (if old(self).dilation_eternity_respecs(ip_at_limit, ec_goals_met) {
                Seq::<u16>::empty()
            } else {
                old(self).time_studies@
            }),
    {
        proof {
            reveal(GameState::dilation_eternity_spec);
        }
        if self.can_eternity(ip_at_limit, ec_goals_met) {
            self.eternity(ip_at_limit, ec_goals_met, gained_eternities);
        } else {
            self.eternity_reset();
        }
    }

    /// Leave a dilated Eternity: an Eternity, rewarded when allowed, else
    /// reward-free (which ends the dilated run). Returns whether one was
    /// running.
    pub fn exit_dilation(&mut self, ip_at_limit: bool, ec_goals_met: u16, gained_eternities: u64) -> (r: bool)
        requires
            old(self).eternity_challenge_current <= 12,
        ensures
            r == old(self).dilation.active,
            !r ==> *final(self) == *old(self),
            r ==> *final(self) == old(self).dilation_eternity_spec(ip_at_limit, ec_goals_met, gained_eternities,
                final(self).time_studies),
            r ==> final(self).time_studies@ == (if old(self).dilation_eternity_respecs(ip_at_limit, ec_goals_met) {
                Seq::<u16>::empty()
            } else {
                old(self).time_studies@
            }),
    {
        if !self.dilation.active {
            return false;
        }
        self.dilation_eternity(ip_at_limit, ec_goals_met, gained_eternities);
        true
    }

    /// Whether Dilation upgrade `id` is bought.
    pub fn dilation_upgrade_bought(&self, id: u8) -> (r: bool)
        requires
            id < 32,
        ensures
            r == self.has_dilation_upgrade(id),
    {
        self.dilation.upgrades & (1u32 << id) != 0
    }

    /// Purchases of Dilation rebuyable `id` (1–3; 0 otherwise).
    pub fn dilation_rebuyable_count(&self, id: u8) -> (r: u32)
        ensures
            r == (if 1 <= id <= 3 { self.dilation.rebuyables[id - 1] } else { 0 }),
    {
        if 1 <= id && id <= 3 {
            self.dilation.rebuyables[(id - 1) as usize]
        } else {
            0
        }
    }

    /// Whether Dilation rebuyable `id` is at its cap (only the galaxy
    /// threshold one, at 38).
    pub fn dilation_rebuyable_capped(&self, id: u8) -> (r: bool)
        ensures
            r == self.dilation_rebuyable_capped_spec(id),
    {
        id == 2 && self.dilation.rebuyables[1] >= GALAXY_THRESHOLD_CAP
    }

    /// Whether Dilation upgrade `id` (1–10) can be bought: Dilation
    /// unlocked, a one-time upgrade (4–10) not yet bought, a rebuyable not at
    /// its cap, and `affordable` (the Dilated Time covers its cost).
    pub fn can_buy_dilation_upgrade(&self, id: u8, affordable: bool) -> (r: bool)
        ensures
            r == self.can_buy_dilation_upgrade_spec(id, affordable),
    {
        if !self.dilation_unlocked() || !(1 <= id && id <= 10) {
            return false;
        }
        if 4 <= id && id <= 10 && self.dilation_upgrade_bought(id) {
            return false;
        }
        if self.dilation_rebuyable_capped(id) {
            return false;
        }
        affordable
    }

    /// Buy Dilation upgrade `id` when allowed (the caller spends the Dilated
    /// Time and applies the Dilated-Time and Tachyon side effects): a
    /// rebuyable gains a purchase — the galaxy-threshold one also takes the
    /// Tachyon Galaxies back to 0 — and a one-time upgrade is marked bought.
    /// Returns whether it was bought.
    pub fn buy_dilation_upgrade(&mut self, id: u8, affordable: bool) -> (r: bool)
        requires
            1 <= id <= 3 ==> old(self).dilation.rebuyables[id - 1] < u32::MAX,
        ensures
            r == old(self).can_buy_dilation_upgrade_spec(id, affordable),
            !r ==> *final(self) == *old(self),
            r ==> final(self).dilation.rebuyables@ == (if id <= 3 {
                old(self).dilation.rebuyables@.update(id - 1, (old(self).dilation.rebuyables[id - 1] + 1) as u32)
            } else {
                old(self).dilation.rebuyables@
            }),
            r ==> *final(self) == (GameState {
                dilation: DilationState {
                    rebuyables: final(self).dilation.rebuyables,
                    base_tachyon_galaxies: if id == 2 { 0 } else { old(self).dilation.base_tachyon_galaxies },
                    upgrades: if id >= 4 {
                        old(self).dilation.upgrades | (1u32 << id)
                    } else {
                        old(self).dilation.upgrades
                    },
                    ..old(self).dilation
                },
                ..*old(self)
            }),
    {
        if !self.can_buy_dilation_upgrade(id, affordable) {
            return false;
        }
        if id <= 3 {
            let i = (id - 1) as usize;
            self.dilation.rebuyables[i] = self.dilation.rebuyables[i] + 1;
            if id == 2 {
                self.dilation.base_tachyon_galaxies = 0;
            }
        } else {
            self.dilation.upgrades = self.dilation.upgrades | (1u32 << id);
        }
        true
    }
}

} // verus!
