//! Infinity Challenges: eight constrained runs gated by peak antimatter,
//! structurally like the Normal Challenges but each with its own goal.
use vstd::prelude::*;
use crate::state::{GameState, seq_with, lemma_seq_with_contains};
use crate::crunch::crunch_achievements;
use crate::challenges::NormalChallengeState;

verus! {

/// Number of infinity challenges.
pub const INFINITY_CHALLENGE_COUNT: u8 = 8;

/// Infinity-challenge run state.
pub struct InfinityChallengeState {
    /// Active challenge id (`0` = none, `1..=8` = running that challenge).
    pub current: u8,
    /// Completed-challenge bitmask (bit `1 << id`).
    pub completed: u16,
}

/// The power of ten of the peak antimatter this Eternity that unlocks
/// infinity challenge `id` (`unlockAM` = 1e2000, 1e11000, …, 1e28000; 0 for an
/// invalid id).
pub open spec fn ic_unlock_exponent(id: u8) -> u64 {
    if id == 1 { 2000 }
    else if id == 2 { 11000 }
    else if id == 3 { 12000 }
    else if id == 4 { 14000 }
    else if id == 5 { 18000 }
    else if id == 6 { 22500 }
    else if id == 7 { 23000 }
    else if id == 8 { 28000 }
    else { 0 }
}

/// The power of ten of the peak antimatter this Eternity that unlocks
/// infinity challenge `id` (0 for an invalid id).
pub fn infinity_challenge_unlock_exponent(id: u8) -> (r: u64)
    ensures
        r == ic_unlock_exponent(id),
{
    if id == 1 { 2000 }
    else if id == 2 { 11000 }
    else if id == 3 { 12000 }
    else if id == 4 { 14000 }
    else if id == 5 { 18000 }
    else if id == 6 { 22500 }
    else if id == 7 { 23000 }
    else if id == 8 { 28000 }
    else { 0 }
}

impl GameState {
    /// Whether infinity challenge `id` is unlocked when the peak antimatter
    /// this Eternity is at least `10^max_am_exponent`.
    pub open spec fn ic_unlocked_spec(id: u8, max_am_exponent: u64) -> bool {
        1 <= id <= 8 && max_am_exponent >= ic_unlock_exponent(id)
    }

    pub open spec fn can_start_ic_spec(&self, id: u8, max_am_exponent: u64) -> bool {
        Self::ic_unlocked_spec(id, max_am_exponent) && self.infinity_challenge.current != id
    }

    pub open spec fn infinity_challenge_completed_spec(&self, id: u8) -> bool {
        1 <= id <= 8 && self.infinity_challenge.completed & (1u16 << id) != 0
    }

    /// Whether infinity challenge `id` is the one running.
    pub fn infinity_challenge_running(&self, id: u8) -> (r: bool)
        ensures
            r == (self.infinity_challenge.current == id),
    {
        self.infinity_challenge.current == id
    }

    /// Whether any infinity challenge is running.
    pub fn any_infinity_challenge_running(&self) -> (r: bool)
        ensures
            r == (self.infinity_challenge.current != 0),
    {
        self.infinity_challenge.current != 0
    }

    /// Whether the player is in any antimatter challenge (normal or infinity).
    pub fn in_any_antimatter_challenge(&self) -> (r: bool)
        ensures
            r == self.in_antimatter_challenge_spec(),
    {
        self.any_challenge_running() || self.any_infinity_challenge_running()
    }

    /// Whether infinity challenge `id` has been completed.
    pub fn infinity_challenge_completed(&self, id: u8) -> (r: bool)
        ensures
            r == self.infinity_challenge_completed_spec(id),
    {
        1 <= id && id <= INFINITY_CHALLENGE_COUNT && self.infinity_challenge.completed & (1u16 << id) != 0
    }

    /// Whether infinity challenge `id` is unlocked: the peak antimatter this
    /// Eternity (at least `10^max_am_exponent`) has reached its unlock amount.
    pub fn infinity_challenge_unlocked(&self, id: u8, max_am_exponent: u64) -> (r: bool)
        ensures
            r == Self::ic_unlocked_spec(id, max_am_exponent),
    {
        1 <= id && id <= INFINITY_CHALLENGE_COUNT
            && max_am_exponent >= infinity_challenge_unlock_exponent(id)
    }

    /// Whether any infinity challenge is unlocked (the subtab gate).
    pub fn infinity_challenges_unlocked(&self, max_am_exponent: u64) -> (r: bool)
        ensures
            r == (exists|id: u8| Self::ic_unlocked_spec(id, max_am_exponent)),
    {
        let mut id: u8 = 1;
        while id <= INFINITY_CHALLENGE_COUNT
            invariant
                1 <= id <= 9,
                forall|j: u8| 1 <= j < id ==> !Self::ic_unlocked_spec(j, max_am_exponent),
            decreases 9 - id,
        {
            if self.infinity_challenge_unlocked(id, max_am_exponent) {
                return true;
            }
            id = id + 1;
        }
        assert forall|j: u8| !Self::ic_unlocked_spec(j, max_am_exponent) by {
            if 1 <= j <= 8 {
                assert(j < id);
            }
        }
        false
    }

    /// Whether infinity challenge `id` can be started: unlocked and not the
    /// one already running.
    pub fn can_start_infinity_challenge(&self, id: u8, max_am_exponent: u64) -> (r: bool)
        ensures
            r == self.can_start_ic_spec(id, max_am_exponent),
    {
        self.infinity_challenge_unlocked(id, max_am_exponent) && self.infinity_challenge.current != id
    }

    /// Start infinity challenge `id` when allowed: achievement 115 when an
    /// Eternity Challenge runs, a forced Big Crunch reset (rewarded when
    /// `at_goal`) that starts the run fresh, no normal challenge, the
    /// infinity challenge entered, and Infinity broken. Returns whether it
    /// started.
    pub fn start_infinity_challenge(&mut self, id: u8, max_am_exponent: u64, at_goal: bool) -> (r: bool)
        ensures
            r == old(self).can_start_ic_spec(id, max_am_exponent),
            !r ==> *final(self) == *old(self),
            r ==> *final(self) == old(self).ic_start_reset(at_goal, final(self)).ic_entered(id),
            r ==> final(self).achievements@ == crunch_achievements(old(self).ic_start_achievements(),
                at_goal, old(self).crunch_fails_ec4(at_goal)),
            r ==> final(self).time_studies@ == (if old(self).crunch_fails_ec4(at_goal) {
                Seq::<u16>::empty()
            } else {
                old(self).time_studies@
            }),
    {
        if !self.can_start_infinity_challenge(id, max_am_exponent) {
            return false;
        }
        let ghost s0 = *self;
        if self.any_ec_running() {
            self.unlock_achievement(115);
        }
        let ghost s1 = *self;
        assert(s1 == GameState { achievements: s1.achievements, ..s0 });
        assert(s1.achievements@ == s0.ic_start_achievements());
        self.big_crunch_reset(true, true, at_goal);
        let ghost s2 = *self;
        assert(s1.crunch_fails_ec4(at_goal) == s0.crunch_fails_ec4(at_goal));
        proof {
            lemma_seq_with_contains(s0.achievements@, 115, 95);
            lemma_seq_with_contains(s1.achievements@, 21, 95);
            lemma_seq_with_contains(if at_goal { seq_with(s1.achievements@, 21) } else { s1.achievements@ }, 114, 95);
        }
        assert(s2.achievements@.contains(95) == s1.achievements@.contains(95));
        assert(s1.achievements@.contains(95) == s0.achievements@.contains(95));
        proof {
            GameState::lemma_crunch_reset_reads_ach95(
                s1, GameState { achievements: s2.achievements, ..s0 },
                at_goal, true, s2.achievements, s2.time_studies);
        }
        assert(s2 == s0.ic_start_reset(at_goal, &s2));
        self.enter_infinity_challenge(id);
        true
    }

    /// Enter infinity challenge `id` (see `ic_entered`).
    fn enter_infinity_challenge(&mut self, id: u8)
        ensures
            *final(self) == old(self).ic_entered(id),
    {
        self.challenge.current = 0;
        self.infinity_challenge.current = id;
        self.broke_infinity = true;
    }

    /// The state with infinity challenge `id` entered: no normal challenge,
    /// `id` running, Infinity broken.
    pub open spec fn ic_entered(&self, id: u8) -> GameState {
        GameState {
            challenge: NormalChallengeState { current: 0, ..self.challenge },
            infinity_challenge: InfinityChallengeState { current: id, ..self.infinity_challenge },
            broke_infinity: true,
            ..*self
        }
    }

    /// The achievement list as starting an infinity challenge first leaves it
    /// (115 added inside an Eternity Challenge).
    pub open spec fn ic_start_achievements(&self) -> Seq<u16> {
        if self.eternity_challenge_current != 0 {
            self.achievements_with(115)
        } else {
            self.achievements@
        }
    }

    /// The forced crunch reset of starting an infinity challenge; `after`
    /// supplies the lists it leaves.
    pub open spec fn ic_start_reset(&self, at_goal: bool, after: &GameState) -> GameState {
        GameState { achievements: after.achievements, ..*self }.crunch_reset_spec(
            at_goal, true, after.achievements, after.time_studies)
    }

    /// Mark infinity challenge `id` completed. Idempotent.
    pub(crate) fn complete_infinity_challenge(&mut self, id: u8)
        ensures
            final(self).infinity_challenge.completed == (if 1 <= id <= 8 {
                old(self).infinity_challenge.completed | (1u16 << id)
            } else {
                old(self).infinity_challenge.completed
            }),
            *final(self) == (GameState {
                infinity_challenge: InfinityChallengeState {
                    completed: final(self).infinity_challenge.completed,
                    ..old(self).infinity_challenge
                },
                ..*old(self)
            }),
    {
        if 1 <= id && id <= INFINITY_CHALLENGE_COUNT {
            self.infinity_challenge.completed = self.infinity_challenge.completed | (1u16 << id);
        }
    }

    /// The Dimension-Boost / Galaxy requirement reduction from a completed
    /// Infinity Challenge 5.
    pub(crate) fn ic5_requirement_reduction(&self) -> (r: u64)
        ensures
            r == (if self.infinity_challenge_completed_spec(5) { 1u64 } else { 0u64 }),
    {
        if self.infinity_challenge_completed(5) {
            1
        } else {
            0
        }
    }
}

} // verus!
