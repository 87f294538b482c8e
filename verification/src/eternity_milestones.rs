//! Eternity Milestones: permanent perks granted by the number of Eternities.
use vstd::prelude::*;
use crate::state::GameState;

verus! {

/// One Eternity Milestone: its save id and the Eternities it needs.
pub struct EternityMilestone {
    pub id: &'static str,
    pub eternities: u64,
}

/// The number of Eternity Milestones.
pub const ETERNITY_MILESTONE_COUNT: usize = 27;

/// The Eternities milestone `i` needs (in table order; 0 past the end).
pub open spec fn milestone_eternities(i: usize) -> u64 {
    if i == 0 { 1 }
    else if i == 1 { 2 }
    else if i == 2 { 3 }
    else if i == 3 { 4 }
    else if i == 4 { 5 }
    else if i == 5 { 6 }
    else if i == 6 { 7 }
    else if i == 7 { 8 }
    else if i == 8 { 9 }
    else if i == 9 { 10 }
    else if i == 10 { 11 }
    else if i == 11 { 12 }
    else if i == 12 { 13 }
    else if i == 13 { 14 }
    else if i == 14 { 15 }
    else if i == 15 { 16 }
    else if i == 16 { 17 }
    else if i == 17 { 18 }
    else if i == 18 { 25 }
    else if i == 19 { 30 }
    else if i == 20 { 40 }
    else if i == 21 { 50 }
    else if i == 22 { 60 }
    else if i == 23 { 80 }
    else if i == 24 { 100 }
    else if i == 25 { 200 }
    else if i == 26 { 1000 }
    else { 0 }
}

/// The save id of milestone `i` (in table order; empty past the end).
pub open spec fn milestone_id(i: usize) -> Seq<char> {
    if i == 0 { "autobuyerIPMult"@ }
    else if i == 1 { "keepAutobuyers"@ }
    else if i == 2 { "autobuyerReplicantiGalaxy"@ }
    else if i == 3 { "keepInfinityUpgrades"@ }
    else if i == 4 { "bigCrunchModes"@ }
    else if i == 5 { "autoEP"@ }
    else if i == 6 { "autoIC"@ }
    else if i == 7 { "keepBreakUpgrades"@ }
    else if i == 8 { "autobuyMaxGalaxies"@ }
    else if i == 9 { "unlockReplicanti"@ }
    else if i == 10 { "autobuyerID1"@ }
    else if i == 11 { "autobuyerID2"@ }
    else if i == 12 { "autobuyerID3"@ }
    else if i == 13 { "autobuyerID4"@ }
    else if i == 14 { "autobuyerID5"@ }
    else if i == 15 { "autobuyerID6"@ }
    else if i == 16 { "autobuyerID7"@ }
    else if i == 17 { "autobuyerID8"@ }
    else if i == 18 { "autoUnlockID"@ }
    else if i == 19 { "unlockAllND"@ }
    else if i == 20 { "replicantiNoReset"@ }
    else if i == 21 { "autobuyerReplicantiChance"@ }
    else if i == 22 { "autobuyerReplicantiInterval"@ }
    else if i == 23 { "autobuyerReplicantiMaxGalaxies"@ }
    else if i == 24 { "autobuyerEternity"@ }
    else if i == 25 { "autoEternities"@ }
    else if i == 26 { "autoInfinities"@ }
    else { Seq::empty() }
}

/// Eternity Milestone `i` in table order (`i` below 27).
pub fn eternity_milestone(i: usize) -> (r: EternityMilestone)
    requires
        i < ETERNITY_MILESTONE_COUNT,
    ensures
        r.eternities == milestone_eternities(i),
        r.id@ == milestone_id(i),
{
    if i == 0 { EternityMilestone { id: "autobuyerIPMult", eternities: 1 } }
    else if i == 1 { EternityMilestone { id: "keepAutobuyers", eternities: 2 } }
    else if i == 2 { EternityMilestone { id: "autobuyerReplicantiGalaxy", eternities: 3 } }
    else if i == 3 { EternityMilestone { id: "keepInfinityUpgrades", eternities: 4 } }
    else if i == 4 { EternityMilestone { id: "bigCrunchModes", eternities: 5 } }
    else if i == 5 { EternityMilestone { id: "autoEP", eternities: 6 } }
    else if i == 6 { EternityMilestone { id: "autoIC", eternities: 7 } }
    else if i == 7 { EternityMilestone { id: "keepBreakUpgrades", eternities: 8 } }
    else if i == 8 { EternityMilestone { id: "autobuyMaxGalaxies", eternities: 9 } }
    else if i == 9 { EternityMilestone { id: "unlockReplicanti", eternities: 10 } }
    else if i == 10 { EternityMilestone { id: "autobuyerID1", eternities: 11 } }
    else if i == 11 { EternityMilestone { id: "autobuyerID2", eternities: 12 } }
    else if i == 12 { EternityMilestone { id: "autobuyerID3", eternities: 13 } }
    else if i == 13 { EternityMilestone { id: "autobuyerID4", eternities: 14 } }
    else if i == 14 { EternityMilestone { id: "autobuyerID5", eternities: 15 } }
    else if i == 15 { EternityMilestone { id: "autobuyerID6", eternities: 16 } }
    else if i == 16 { EternityMilestone { id: "autobuyerID7", eternities: 17 } }
    else if i == 17 { EternityMilestone { id: "autobuyerID8", eternities: 18 } }
    else if i == 18 { EternityMilestone { id: "autoUnlockID", eternities: 25 } }
    else if i == 19 { EternityMilestone { id: "unlockAllND", eternities: 30 } }
    else if i == 20 { EternityMilestone { id: "replicantiNoReset", eternities: 40 } }
    else if i == 21 { EternityMilestone { id: "autobuyerReplicantiChance", eternities: 50 } }
    else if i == 22 { EternityMilestone { id: "autobuyerReplicantiInterval", eternities: 60 } }
    else if i == 23 { EternityMilestone { id: "autobuyerReplicantiMaxGalaxies", eternities: 80 } }
    else if i == 24 { EternityMilestone { id: "autobuyerEternity", eternities: 100 } }
    else if i == 25 { EternityMilestone { id: "autoEternities", eternities: 200 } }
    else { EternityMilestone { id: "autoInfinities", eternities: 1000 } }
}

impl GameState {
    /// Whether milestone `m` is reached.
    pub fn eternity_milestone_is_reached(&self, m: &EternityMilestone) -> (r: bool)
        ensures
            r == (self.eternities >= m.eternities),
    {
        self.eternities >= m.eternities
    }

    /// With the milestone of 7 Eternities, complete every unlocked Infinity
    /// Challenge (unlocked when this Eternity's peak antimatter is at least
    /// `10^max_am_exponent`).
    pub fn try_complete_infinity_challenges(&mut self, max_am_exponent: u64)
        ensures
            !old(self).milestone(7) ==> *final(self) == *old(self),
            old(self).milestone(7) ==> final(self).infinity_challenge.completed
                == old(self).infinity_challenge.completed | ic_unlocked_bits(max_am_exponent, 9),
            *final(self) == (GameState {
                infinity_challenge: crate::infinity_challenges::InfinityChallengeState {
                    completed: final(self).infinity_challenge.completed,
                    ..old(self).infinity_challenge
                },
                ..*old(self)
            }),
    {
        if !self.eternity_milestone_reached(7) {
            return;
        }
        let c0 = self.infinity_challenge.completed;
        assert(c0 | 0u16 == c0) by (bit_vector);
        let mut id: u8 = 1;
        while id <= 8
            invariant
                1 <= id <= 9,
                self.infinity_challenge.completed
                    == old(self).infinity_challenge.completed | ic_unlocked_bits(max_am_exponent, id),
                *self == (GameState {
                    infinity_challenge: crate::infinity_challenges::InfinityChallengeState {
                        completed: self.infinity_challenge.completed,
                        ..old(self).infinity_challenge
                    },
                    ..*old(self)
                }),
            decreases 9 - id,
        {
            let c = self.infinity_challenge.completed;
            let ghost u = old(self).infinity_challenge.completed;
            let ghost prev = ic_unlocked_bits(max_am_exponent, id);
            if self.infinity_challenge_unlocked(id, max_am_exponent) && !self.infinity_challenge_completed(id) {
                self.complete_infinity_challenge(id);
                assert(u | (prev | (1u16 << id)) == (u | prev) | (1u16 << id)) by (bit_vector);
            } else if self.infinity_challenge_unlocked(id, max_am_exponent) {
                assert(c | (1u16 << id) == c) by (bit_vector)
                    requires
                        c & (1u16 << id) != 0,
                        id < 16,
                ;
                assert(u | (prev | (1u16 << id)) == (u | prev) | (1u16 << id)) by (bit_vector);
            }
            id = id + 1;
        }
    }
}

/// The completed-bits of the Infinity Challenges `1..n` unlocked at peak
/// antimatter `10^max_am_exponent`.
pub open spec fn ic_unlocked_bits(max_am_exponent: u64, n: u8) -> u16
    decreases n,
{
    if n <= 1 {
        0
    } else {
        let prev = ic_unlocked_bits(max_am_exponent, (n - 1) as u8);
        if GameState::ic_unlocked_spec((n - 1) as u8, max_am_exponent) {
            prev | (1u16 << ((n - 1) as u8))
        } else {
            prev
        }
    }
}

} // verus!
