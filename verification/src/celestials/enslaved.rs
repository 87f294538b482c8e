//! Enslaved (The Nameless Ones): game-time storage, a restrictive Reality and
//! Tesseracts.
use vstd::prelude::*;
use crate::state::GameState;
use crate::celestials::CelestialsState;

verus! {

/// The saved state of this celestial.
pub struct EnslavedState {
    /// Whether game-time storage is active.
    pub is_storing: bool,
    /// Whether real-time storage is active.
    pub is_storing_real: bool,
    /// Whether real time is stored automatically.
    pub auto_store_real: bool,
    /// Unlock bits (ids 0/1).
    pub unlock_bits: u32,
    /// Whether Enslaved's Reality is running.
    pub run: bool,
    /// Whether Enslaved's Reality has been completed.
    pub completed: bool,
    /// Tesseracts bought.
    pub tesseracts: u32,
}

/// The Tachyon/Dilation softcap unlock.
pub const ENSLAVED_UNLOCK_SOFTCAP: u8 = 0;
/// Enslaved's Reality.
pub const ENSLAVED_UNLOCK_RUN: u8 = 1;
/// The best glyph level that Enslaved's Reality unlock asks for.
pub const GLYPH_LEVEL_MIN: u32 = 5000;

impl EnslavedState {
    /// Whether unlock `id` is held.
    pub open spec fn has_unlock(&self, id: u8) -> bool {
        id < 32 && self.unlock_bits & (1u32 << id) != 0
    }

    /// Whether unlock `id` is held.
    pub fn unlock_bought(&self, id: u8) -> (r: bool)
        ensures
            r == self.has_unlock(id),
    {
        id < 32 && self.unlock_bits & (1u32 << id) != 0
    }
}

impl GameState {
    pub open spec fn can_modify_storage_spec(&self) -> bool {
        &&& self.celestials.effarig.has_unlock(5)
        &&& !self.black_holes.paused
        &&& self.eternity_challenge_current != 12
        &&& !self.celestials.enslaved.run
    }

    pub open spec fn can_buy_enslaved_unlock_spec(&self, id: u8, affordable: bool, run_requirement_met: bool) -> bool {
        !self.celestials.enslaved.has_unlock(id) && affordable
            && (id != ENSLAVED_UNLOCK_RUN || run_requirement_met)
    }

    /// Whether Enslaved is unlocked (Effarig's Eternity stage completed).
    pub fn enslaved_unlocked(&self) -> (r: bool)
        ensures
            r == self.celestials.effarig.has_unlock(5),
    {
        self.effarig_eternity_unlocked()
    }

    /// Whether Enslaved's Reality is unlocked.
    pub fn enslaved_run_unlocked(&self) -> (r: bool)
        ensures
            r == self.celestials.enslaved.has_unlock(ENSLAVED_UNLOCK_RUN),
    {
        self.celestials.enslaved.unlock_bought(ENSLAVED_UNLOCK_RUN)
    }

    /// Whether the softcap unlock is held.
    pub fn enslaved_softcap_unlocked(&self) -> (r: bool)
        ensures
            r == self.celestials.enslaved.has_unlock(ENSLAVED_UNLOCK_SOFTCAP),
    {
        self.celestials.enslaved.unlock_bought(ENSLAVED_UNLOCK_SOFTCAP)
    }

    /// The secondary requirement of Enslaved's Reality unlock: a best glyph
    /// of level at least 5000 (`best_glyph_level`) and full rarity
    /// (`best_rarity_full`, its strength at rarity 100% or more).
    pub fn enslaved_run_requirement_met(&self, best_glyph_level: u32, best_rarity_full: bool) -> (r: bool)
        ensures
            r == (best_glyph_level >= GLYPH_LEVEL_MIN && best_rarity_full),
    {
        best_glyph_level >= GLYPH_LEVEL_MIN && best_rarity_full
    }

    /// Whether unlock `id` can be bought: not held, `affordable` (the stored
    /// time covers its price), and for the Reality unlock its secondary
    /// requirement `run_requirement_met`.
    pub fn can_buy_enslaved_unlock(&self, id: u8, affordable: bool, run_requirement_met: bool) -> (r: bool)
        ensures
            r == self.can_buy_enslaved_unlock_spec(id, affordable, run_requirement_met),
    {
        if self.celestials.enslaved.unlock_bought(id) {
            return false;
        }
        let secondary = id != ENSLAVED_UNLOCK_RUN || run_requirement_met;
        affordable && secondary
    }

    /// Buy unlock `id` when allowed (the caller spends the stored time).
    /// Returns whether it was bought.
    pub fn buy_enslaved_unlock(&mut self, id: u8, affordable: bool, run_requirement_met: bool) -> (r: bool)
        requires
            id < 32,
        ensures
            r == old(self).can_buy_enslaved_unlock_spec(id, affordable, run_requirement_met),
            !r ==> *final(self) == *old(self),
            r ==> *final(self) == (GameState {
                celestials: CelestialsState {
                    enslaved: EnslavedState {
                        unlock_bits: old(self).celestials.enslaved.unlock_bits | (1u32 << id),
                        ..old(self).celestials.enslaved
                    },
                    ..old(self).celestials
                },
                ..*old(self)
            }),
    {
        if !self.can_buy_enslaved_unlock(id, affordable, run_requirement_met) {
            return false;
        }
        self.celestials.enslaved.unlock_bits = self.celestials.enslaved.unlock_bits | (1u32 << id);
        true
    }

    /// Whether game time can be stored or released: Enslaved unlocked, the
    /// Black Hole not paused, not in EC12 nor Enslaved's Reality.
    pub fn can_modify_game_time_storage(&self) -> (r: bool)
        ensures
            r == self.can_modify_storage_spec(),
    {
        self.enslaved_unlocked() && !self.black_holes.paused && !self.ec_running(12)
            && !self.celestials.enslaved.run
    }

    /// Whether game time is being stored.
    pub fn is_storing_game_time(&self) -> (r: bool)
        ensures
            r == (self.can_modify_storage_spec() && self.celestials.enslaved.is_storing),
    {
        self.can_modify_game_time_storage() && self.celestials.enslaved.is_storing
    }

    /// Toggle game-time storage (which stops real-time storage) when allowed.
    pub fn toggle_store_game_time(&mut self)
        ensures
            *final(self) == (if old(self).can_modify_storage_spec() {
                GameState {
                    celestials: CelestialsState {
                        enslaved: EnslavedState {
                            is_storing: !old(self).celestials.enslaved.is_storing,
                            is_storing_real: false,
                            ..old(self).celestials.enslaved
                        },
                        ..old(self).celestials
                    },
                    ..*old(self)
                }
            } else {
                *old(self)
            }),
    {
        if !self.can_modify_game_time_storage() {
            return;
        }
        self.celestials.enslaved.is_storing = !self.celestials.enslaved.is_storing;
        self.celestials.enslaved.is_storing_real = false;
    }

    /// Completing Enslaved's Reality.
    pub(crate) fn enslaved_complete_run(&mut self)
        ensures
            *final(self) == (GameState {
                celestials: CelestialsState {
                    enslaved: EnslavedState { completed: true, ..old(self).celestials.enslaved },
                    ..old(self).celestials
                },
                ..*old(self)
            }),
    {
        self.celestials.enslaved.completed = true;
    }

    /// Whether a Tesseract can be bought: Enslaved's Reality completed and
    /// `affordable` (the Infinity Points cover the next Tesseract's cost).
    pub fn can_buy_tesseract(&self, affordable: bool) -> (r: bool)
        ensures
            r == (self.celestials.enslaved.completed && affordable),
    {
        self.celestials.enslaved.completed && affordable
    }

    /// Buy a Tesseract when allowed. Returns whether it was bought.
    pub fn buy_tesseract(&mut self, affordable: bool) -> (r: bool)
        requires
            old(self).celestials.enslaved.tesseracts < u32::MAX,
        ensures
            r == (old(self).celestials.enslaved.completed && affordable),
            !r ==> *final(self) == *old(self),
            r ==> *final(self) == (GameState {
                celestials: CelestialsState {
                    enslaved: EnslavedState {
                        tesseracts: (old(self).celestials.enslaved.tesseracts + 1) as u32,
                        ..old(self).celestials.enslaved
                    },
                    ..old(self).celestials
                },
                ..*old(self)
            }),
    {
        if !self.can_buy_tesseract(affordable) {
            return false;
        }
        self.celestials.enslaved.tesseracts = self.celestials.enslaved.tesseracts + 1;
        true
    }
}

} // verus!
