//! The Big Crunch: the first prestige layer. A crunch at the antimatter goal
//! pays out Infinities and credits the running challenge; every crunch, forced
//! or not, resets the antimatter layer.
use vstd::prelude::*;
use crate::state::{GameState, TickspeedState, ReplicantiState, seq_with};
use crate::eternity::cleared_dimensions;
use crate::eternity_challenges::ec4_infinity_limit;

verus! {

/// The achievement list a crunch leaves of `a`: 21 added at the goal, and
/// the "challenge failed" achievement 114 added when the crunch fails EC4.
pub open spec fn crunch_achievements(a: Seq<u16>, at_goal: bool, fails_ec4: bool) -> Seq<u16> {
    let rewarded = if at_goal { seq_with(a, 21) } else { a };
    if fails_ec4 { seq_with(rewarded, 114) } else { rewarded }
}

/// The smaller of two counts.
pub open spec fn min_u32(a: u32, b: u32) -> u32 {
    if a <= b { a } else { b }
}

/// The Replicanti Galaxies a crunch leaves of `rgs`: one with achievement 95,
/// plus half with Time Study 33, never more than there were.
pub open spec fn kept_replicanti_galaxies(rgs: u32, ach95: bool, ts33: bool) -> u32 {
    let kept = (if ach95 { min_u32(rgs, 1) } else { 0 }) + (if ts33 { rgs / 2 } else { 0 });
    if kept <= rgs { kept as u32 } else { rgs }
}

impl GameState {
    /// Infinities a crunch grants: 1 in EC4, else 1 times Time Study 32's
    /// Dimension-Boost multiplier (`max(boosts, 1)`).
    pub open spec fn gained_infinities_spec(&self) -> u64 {
        if self.eternity_challenge_current == 4 {
            1
        } else if self.has_time_study(32) && self.dim_boosts > 1 {
            self.dim_boosts as u64
        } else {
            1
        }
    }

    /// Whether a crunch that `rewarded` (at the goal) fails a running EC4.
    pub open spec fn crunch_fails_ec4(&self, at_goal: bool) -> bool {
        let infinities = if at_goal {
            self.infinities.saturating_add(self.gained_infinities_spec())
        } else {
            self.infinities
        };
        self.eternity_challenge_current == 4
            && infinities > ec4_infinity_limit(self.ec_completions_spec(4))
    }

    /// The rewards of a crunch at the goal: achievement 21 (its list is
    /// `achievements`), the gained Infinities, the running challenge credited,
    /// and Infinity unlocked.
    pub open spec fn crunch_rewarded(&self, achievements: Vec<u16>) -> GameState {
        GameState {
            achievements,
            infinities: self.infinities.saturating_add(self.gained_infinities_spec()),
            infinity_unlocked: true,
            ..self.completion_handled()
        }
    }

    /// The antimatter-layer reset of a crunch, with the start-of-run skips
    /// unless a challenge is being entered.
    pub open spec fn crunch_layer_reset(&self, entering_challenge: bool) -> GameState {
        let rgs = self.replicanti.galaxies;
        let reset = GameState {
            dimensions: cleared_dimensions(),
            tickspeed: TickspeedState { bought: 0, cost_bumps: 0 },
            dim_boosts: 0,
            galaxies: 0,
            replicanti: ReplicantiState {
                galaxies: kept_replicanti_galaxies(
                    rgs,
                    self.has_achievement(95),
                    self.has_time_study(33),
                ),
                ..self.replicanti
            },
            ..*self
        };
        if entering_challenge {
            reset
        } else {
            GameState {
                dim_boosts: reset.skip_reset_target().0,
                galaxies: reset.skip_reset_target().1,
                ..reset
            }
        }
    }

    /// The state after `big_crunch_reset` performs a reset; `achievements`
    /// and `studies` stand for the lists it leaves (see its contract).
    #[verifier::opaque]
    pub open spec fn crunch_reset_spec(
        &self,
        at_goal: bool,
        entering_challenge: bool,
        achievements: Vec<u16>,
        studies: Vec<u16>,
    ) -> GameState {
        let rewarded = if at_goal {
            self.crunch_rewarded(achievements)
        } else {
            GameState { achievements, ..*self }
        };
        let reset = rewarded.crunch_layer_reset(entering_challenge);
        if self.crunch_fails_ec4(at_goal) {
            GameState { eternity_challenge_current: 0, respec: true, ..reset }
                .eternity_full_reset_spec(false, studies)
        } else {
            reset
        }
    }

    /// The crunch reset reads the achievement list only for achievement 95.
    pub proof fn lemma_crunch_reset_reads_ach95(
        a: GameState,
        b: GameState,
        at_goal: bool,
        entering_challenge: bool,
        achievements: Vec<u16>,
        studies: Vec<u16>,
    )
        requires
            a == (GameState { achievements: a.achievements, ..b }),
            a.has_achievement(95) == b.has_achievement(95),
        ensures
            a.crunch_reset_spec(at_goal, entering_challenge, achievements, studies)
                == b.crunch_reset_spec(at_goal, entering_challenge, achievements, studies),
    {
        reveal(GameState::crunch_reset_spec);
        assert(a.completion_handled() == GameState { achievements: a.achievements, ..b.completion_handled() });
    }

    /// Infinities a Big Crunch would grant now: 1 inside EC4; otherwise 1,
    /// multiplied by the Dimension Boosts (at least 1) with Time Study 32.
    pub fn gained_infinities(&self) -> (r: u64)
        ensures
            r == self.gained_infinities_spec(),
    {
        if self.ec_running(4) {
            return 1;
        }
        if self.time_study_bought(32) && self.dim_boosts > 1 {
            self.dim_boosts as u64
        } else {
            1
        }
    }

    /// The Big-Crunch reset shared by the manual crunch and the challenge
    /// enter/exit paths. `at_goal` says whether this run's peak antimatter has
    /// reached the goal; only then are the rewards granted (achievement 21,
    /// Infinities, the running challenge's completion, Infinity unlocked). A
    /// reset below the goal happens only when `forced`. Every reset clears
    /// dimensions, tickspeed, boosts and galaxies, keeps Replicanti Galaxies
    /// per achievement 95 and Time Study 33, re-applies the skip-reset
    /// upgrades unless `entering_challenge`, and fails EC4 when its Infinity
    /// limit is now exceeded.
    pub fn big_crunch_reset(&mut self, forced: bool, entering_challenge: bool, at_goal: bool)
        ensures
            !forced && !at_goal ==> *final(self) == *old(self),
            forced || at_goal ==> *final(self) == old(self).crunch_reset_spec(
                at_goal,
                entering_challenge,
                final(self).achievements,
                final(self).time_studies,
            ),
            final(self).achievements@ == crunch_achievements(old(self).achievements@, at_goal,
                (forced || at_goal) && old(self).crunch_fails_ec4(at_goal)),
            final(self).time_studies@ == (if (forced || at_goal) && old(self).crunch_fails_ec4(at_goal) {
                Seq::<u16>::empty()
            } else {
                old(self).time_studies@
            }),
    {
        if !forced && !at_goal {
            return;
        }
        proof {
            reveal(GameState::crunch_reset_spec);
        }
        if at_goal {
            self.grant_crunch_rewards();
        }
        self.reset_antimatter_layer(entering_challenge);
        self.ec_try_fail(4, true);
    }

    /// Grant the rewards of a crunch at the goal.
    fn grant_crunch_rewards(&mut self)
        ensures
            *final(self) == old(self).crunch_rewarded(final(self).achievements),
            final(self).achievements@ == old(self).achievements_with(21),
    {
        self.unlock_achievement(21);
        let gained = self.gained_infinities();
        self.infinities = self.infinities.saturating_add(gained);
        self.handle_challenge_completion();
        self.infinity_unlocked = true;
    }

    /// Reset the antimatter layer as a crunch does.
    fn reset_antimatter_layer(&mut self, entering_challenge: bool)
        ensures
            *final(self) == old(self).crunch_layer_reset(entering_challenge),
    {
        self.dimensions = crate::eternity::new_dimensions();
        self.tickspeed = TickspeedState { bought: 0, cost_bumps: 0 };
        self.dim_boosts = 0;
        self.galaxies = 0;
        let current_rgs = self.replicanti.galaxies;
        let mut remaining_rgs: u32 = 0;
        if self.achievement_unlocked(95) {
            remaining_rgs = if current_rgs < 1 { current_rgs } else { 1 };
        }
        if self.time_study_bought(33) {
            remaining_rgs = remaining_rgs + current_rgs / 2;
        }
        self.replicanti.galaxies = if remaining_rgs <= current_rgs { remaining_rgs } else { current_rgs };
        if !entering_challenge {
            self.skip_resets_if_possible();
        }
    }

    /// Perform a Big Crunch when `at_goal` (the run's peak antimatter has
    /// reached the goal). Returns whether it happened.
    pub fn big_crunch(&mut self, at_goal: bool) -> (r: bool)
        ensures
            r == at_goal,
            !r ==> *final(self) == *old(self),
            r ==> *final(self) == old(self).crunch_reset_spec(
                true,
                false,
                final(self).achievements,
                final(self).time_studies,
            ),
            final(self).achievements@ == crunch_achievements(old(self).achievements@, r,
                r && old(self).crunch_fails_ec4(true)),
            final(self).time_studies@ == (if r && old(self).crunch_fails_ec4(true) {
                Seq::<u16>::empty()
            } else {
                old(self).time_studies@
            }),
    {
        if !at_goal {
            return false;
        }
        self.big_crunch_reset(false, false, true);
        true
    }

    /// Whether Infinity can be broken: not yet broken, and the Big Crunch
    /// autobuyer's interval is at its floor (`crunch_interval_maxed`).
    pub fn can_break_infinity(&self, crunch_interval_maxed: bool) -> (r: bool)
        ensures
            r == (!self.broke_infinity && crunch_interval_maxed),
    {
        !self.broke_infinity && crunch_interval_maxed
    }

    /// Break Infinity (lifting the antimatter cap) when allowed. One-way.
    /// Returns whether it happened.
    pub fn break_infinity(&mut self, crunch_interval_maxed: bool) -> (r: bool)
        ensures
            r == (!old(self).broke_infinity && crunch_interval_maxed),
            !r ==> *final(self) == *old(self),
            r ==> *final(self) == (GameState { broke_infinity: true, ..*old(self) }),
    {
        if !self.can_break_infinity(crunch_interval_maxed) {
            return false;
        }
        self.broke_infinity = true;
        true
    }
}

} // verus!
