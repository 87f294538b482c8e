//! Normal Challenges: constrained pre-Infinity runs. Completing one (by
//! crunching while it runs) sets its completed bit and grants an autobuyer.
use vstd::prelude::*;
use vstd::array::*;
use crate::state::{GameState, Autobuyers, AutobuyerUnlock};
use crate::crunch::crunch_achievements;
use crate::infinity_challenges::InfinityChallengeState;

verus! {

/// Number of normal challenges.
pub const NORMAL_CHALLENGE_COUNT: u8 = 12;

/// Normal-challenge run state.
pub struct NormalChallengeState {
    /// Active challenge id (`0` = none, `1..=12` = running that challenge).
    pub current: u8,
    /// Completed-challenge bitmask (bit `1 << id`).
    pub completed: u16,
}

/// Infinities required to unlock normal challenge `id` (`lockedAt`).
pub open spec fn challenge_locked_at(id: u8) -> u64 {
    if 10 <= id && id <= 12 { 16 } else { 0 }
}

/// `a` with the autobuyer that completing normal challenge `id` grants:
/// NC1–8 the 1st–8th dimension autobuyers, NC9 the Tickspeed one.
pub open spec fn reward_autobuyers(a: Autobuyers, id: u8) -> Autobuyers {
    if 1 <= id <= 8 {
        Autobuyers {
            dimensions: spec_array_update(a.dimensions, id - 1, AutobuyerUnlock { is_bought: true }),
            ..a
        }
    } else if id == 9 {
        Autobuyers { tickspeed: AutobuyerUnlock { is_bought: true }, ..a }
    } else {
        a
    }
}

impl GameState {
    pub open spec fn challenge_running_spec(&self, id: u8) -> bool {
        self.challenge.current == id || (id != 9 && id != 12 && self.infinity_challenge.current == 1)
    }

    pub open spec fn challenge_completed_spec(&self, id: u8) -> bool {
        1 <= id <= 12 && self.challenge.completed & (1u16 << id) != 0
    }

    pub open spec fn challenge_unlocked_spec(&self, id: u8) -> bool {
        1 <= id <= 12 && self.infinity_unlocked && self.infinities >= challenge_locked_at(id)
    }

    pub open spec fn can_start_challenge_spec(&self, id: u8) -> bool {
        2 <= id <= 12 && self.challenge_unlocked_spec(id) && self.challenge.current != id
    }

    pub open spec fn in_antimatter_challenge_spec(&self) -> bool {
        self.challenge.current != 0 || self.infinity_challenge.current != 0
    }

    /// Whether normal challenge `id` is running — directly, or as part of
    /// Infinity Challenge 1 (which runs every normal challenge but 9 and 12).
    pub fn challenge_running(&self, id: u8) -> (r: bool)
        ensures
            r == self.challenge_running_spec(id),
    {
        if self.challenge.current == id {
            return true;
        }
        id != 9 && id != 12 && self.infinity_challenge_running(1)
    }

    /// Whether any normal challenge is running.
    pub fn any_challenge_running(&self) -> (r: bool)
        ensures
            r == (self.challenge.current != 0),
    {
        self.challenge.current != 0
    }

    /// Whether normal challenge `id` has been completed.
    pub fn challenge_completed(&self, id: u8) -> (r: bool)
        ensures
            r == self.challenge_completed_spec(id),
    {
        1 <= id && id <= NORMAL_CHALLENGE_COUNT && self.challenge.completed & (1u16 << id) != 0
    }

    /// The number of Antimatter Dimensions unlockable this run: 6 under
    /// Normal Challenge 10, otherwise 8.
    pub fn max_dimensions_unlockable(&self) -> (r: usize)
        ensures
            r == (if self.challenge_running_spec(10) { 6usize } else { 8usize }),
    {
        if self.challenge_running(10) {
            6
        } else {
            8
        }
    }

    /// The most Dimension Boosts purchasable this run: 5 under Normal
    /// Challenge 8, otherwise unbounded (`None`).
    pub fn max_boosts(&self) -> (r: Option<u32>)
        ensures
            r == (if self.challenge_running_spec(8) { Some(5u32) } else { None::<u32> }),
    {
        if self.challenge_running(8) {
            Some(5)
        } else {
            None
        }
    }

    /// Whether the Challenges tab is available (after the first Big Crunch).
    pub fn challenges_unlocked(&self) -> (r: bool)
        ensures
            r == self.infinity_unlocked,
    {
        self.infinity_unlocked
    }

    /// Whether normal challenge `id` is unlocked: the tab is open and enough
    /// Infinities have been performed (16 for challenges 10–12).
    pub fn challenge_unlocked(&self, id: u8) -> (r: bool)
        ensures
            r == self.challenge_unlocked_spec(id),
    {
        if !(1 <= id && id <= NORMAL_CHALLENGE_COUNT) || !self.infinity_unlocked {
            return false;
        }
        let required: u64 = if id >= 10 { 16 } else { 0 };
        self.infinities >= required
    }

    /// Whether normal challenge `id` can be started: challenges 2–12 only (1
    /// is the base game), unlocked, and not the one already running.
    pub fn can_start_challenge(&self, id: u8) -> (r: bool)
        ensures
            r == self.can_start_challenge_spec(id),
    {
        2 <= id && id <= NORMAL_CHALLENGE_COUNT && self.challenge_unlocked(id)
            && self.challenge.current != id
    }

    /// Start normal challenge `id` when allowed: a forced Big Crunch reset
    /// (rewarded when `at_goal`, the run's peak antimatter having reached the
    /// goal) that starts the challenge fresh, then enter it. Returns whether it
    /// started.
    pub fn start_challenge(&mut self, id: u8, at_goal: bool) -> (r: bool)
        ensures
            r == old(self).can_start_challenge_spec(id),
            !r ==> *final(self) == *old(self),
            r ==> *final(self) == (GameState {
                challenge: NormalChallengeState {
                    current: id,
                    ..old(self).crunch_reset_spec(at_goal, true, final(self).achievements,
                        final(self).time_studies).challenge
                },
                ..old(self).crunch_reset_spec(at_goal, true, final(self).achievements,
                    final(self).time_studies)
            }),
            r ==> final(self).achievements@ == crunch_achievements(old(self).achievements@, at_goal,
                old(self).crunch_fails_ec4(at_goal)),
            r ==> final(self).time_studies@ == (if old(self).crunch_fails_ec4(at_goal) {
                Seq::<u16>::empty()
            } else {
                old(self).time_studies@
            }),
    {
        if !self.can_start_challenge(id) {
            return false;
        }
        self.big_crunch_reset(true, true, at_goal);
        self.challenge.current = id;
        true
    }

    /// Leave the running challenge (an Infinity Challenge first, else a normal
    /// one) with a forced Big Crunch reset, rewarded when `at_goal`. Returns
    /// whether a challenge was running.
    pub fn exit_challenge(&mut self, at_goal: bool) -> (r: bool)
        ensures
            r == old(self).in_antimatter_challenge_spec(),
            !r ==> *final(self) == *old(self),
            r ==> *final(self) == old(self).challenge_exited().crunch_reset_spec(
                at_goal, false, final(self).achievements, final(self).time_studies),
            r ==> final(self).achievements@ == crunch_achievements(old(self).achievements@, at_goal,
                old(self).crunch_fails_ec4(at_goal)),
            r ==> final(self).time_studies@ == (if old(self).crunch_fails_ec4(at_goal) {
                Seq::<u16>::empty()
            } else {
                old(self).time_studies@
            }),
    {
        if self.infinity_challenge.current != 0 {
            self.infinity_challenge.current = 0;
            self.big_crunch_reset(true, false, at_goal);
            return true;
        }
        if self.challenge.current == 0 {
            return false;
        }
        self.challenge.current = 0;
        self.big_crunch_reset(true, false, at_goal);
        true
    }

    /// The state with the running challenge cleared (an Infinity Challenge
    /// when one runs, else the normal one).
    pub open spec fn challenge_exited(&self) -> GameState {
        if self.infinity_challenge.current != 0 {
            GameState {
                infinity_challenge: InfinityChallengeState { current: 0, ..self.infinity_challenge },
                ..*self
            }
        } else {
            GameState { challenge: NormalChallengeState { current: 0, ..self.challenge }, ..*self }
        }
    }

    /// Whether a Normal or Infinity Challenge is running.
    pub fn in_antimatter_challenge(&self) -> (r: bool)
        ensures
            r == self.in_antimatter_challenge_spec(),
    {
        self.challenge.current != 0 || self.infinity_challenge.current != 0
    }

    /// Grant normal challenge `id`'s reward: its autobuyer.
    pub(crate) fn on_challenge_reward(&mut self, id: u8)
        ensures
            *final(self) == (GameState {
                autobuyers: reward_autobuyers(old(self).autobuyers, id),
                ..*old(self)
            }),
    {
        broadcast use vstd::array::group_array_axioms;
        if 1 <= id && id <= 8 {
            let i: usize = (id - 1) as usize;
            self.autobuyers.dimensions[i] = AutobuyerUnlock { is_bought: true };
            assert(self.autobuyers.dimensions =~= spec_array_update(
                old(self).autobuyers.dimensions, id - 1, AutobuyerUnlock { is_bought: true }));
        } else if id == 9 {
            self.autobuyers.tickspeed = AutobuyerUnlock { is_bought: true };
        }
    }

    /// Mark normal challenge `id` completed, granting its reward the first
    /// time. Idempotent.
    pub(crate) fn complete_challenge(&mut self, id: u8)
        ensures
            1 <= id <= 12 ==> final(self).challenge.completed == (old(self).challenge.completed | (1u16 << id)),
            !(1 <= id <= 12) ==> final(self).challenge == old(self).challenge,
            final(self).challenge.current == old(self).challenge.current,
            final(self).autobuyers == (if 1 <= id <= 12 && !old(self).challenge_completed_spec(id) {
                reward_autobuyers(old(self).autobuyers, id)
            } else {
                old(self).autobuyers
            }),
            *final(self) == (GameState {
                challenge: final(self).challenge,
                autobuyers: final(self).autobuyers,
                ..*old(self)
            }),
    {
        if !(1 <= id && id <= NORMAL_CHALLENGE_COUNT) {
            return;
        }
        let already = self.challenge_completed(id);
        self.challenge.completed = self.challenge.completed | (1u16 << id);
        if !already {
            self.on_challenge_reward(id);
        }
    }

    /// Credit a rewarded Big Crunch to the running challenge: complete the
    /// running Infinity Challenge, else the running normal challenge, else
    /// (the first Infinity outside any challenge) normal challenge 1; then
    /// exit it unless "retry challenges" is on.
    pub(crate) fn handle_challenge_completion(&mut self)
        ensures
            *final(self) == old(self).completion_handled(),
    {
        let retry = self.options.retry_challenge;
        if self.infinity_challenge.current != 0 {
            let ic = self.infinity_challenge.current;
            self.complete_infinity_challenge(ic);
            if !retry {
                self.infinity_challenge.current = 0;
            }
            return;
        }
        let current = self.challenge.current;
        if current == 0 {
            if !self.challenge_completed(1) {
                self.complete_challenge(1);
            } else {
                let c = self.challenge.completed;
                assert(c | (1u16 << 1u8) == c) by (bit_vector)
                    requires
                        c & (1u16 << 1u8) != 0,
                ;
            }
            return;
        }
        self.complete_challenge(current);
        if !retry {
            self.challenge.current = 0;
        }
    }

    /// The state after `handle_challenge_completion`.
    pub open spec fn completion_handled(&self) -> GameState {
        let retry = self.options.retry_challenge;
        if self.infinity_challenge.current != 0 {
            let ic = self.infinity_challenge.current;
            GameState {
                infinity_challenge: InfinityChallengeState {
                    current: if retry { ic } else { 0 },
                    completed: if ic <= 8 {
                        self.infinity_challenge.completed | (1u16 << ic)
                    } else {
                        self.infinity_challenge.completed
                    },
                },
                ..*self
            }
        } else {
            let id: u8 = if self.challenge.current == 0 { 1 } else { self.challenge.current };
            GameState {
                challenge: NormalChallengeState {
                    current: if self.challenge.current != 0 && !retry { 0 } else { self.challenge.current },
                    completed: if 1 <= id <= 12 {
                        self.challenge.completed | (1u16 << id)
                    } else {
                        self.challenge.completed
                    },
                },
                autobuyers: if 1 <= id <= 12 && !self.challenge_completed_spec(id) {
                    reward_autobuyers(self.autobuyers, id)
                } else {
                    self.autobuyers
                },
                ..*self
            }
        }
    }
}

} // verus!
