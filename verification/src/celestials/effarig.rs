//! Effarig: a three-stage Reality and its Relic-Shard unlocks.
use vstd::prelude::*;
use crate::state::GameState;
use crate::celestials::CelestialsState;

verus! {

/// The saved state of this celestial.
pub struct EffarigState {
    /// Unlock bits (`unlockBits`).
    pub unlock_bits: u32,
    /// Whether Effarig's Reality is running.
    pub run: bool,
}

/// The glyph-level adjuster.
pub const EFFARIG_UNLOCK_ADJUSTER: u8 = 0;
/// The glyph filter.
pub const EFFARIG_UNLOCK_GLYPH_FILTER: u8 = 1;
/// Glyph set saves.
pub const EFFARIG_UNLOCK_SET_SAVES: u8 = 2;
/// Effarig's Reality.
pub const EFFARIG_UNLOCK_RUN: u8 = 3;
/// The Infinity stage of Effarig's Reality completed.
pub const EFFARIG_UNLOCK_INFINITY: u8 = 4;
/// The Eternity stage completed.
pub const EFFARIG_UNLOCK_ETERNITY: u8 = 5;
/// The Reality stage completed (Effarig glyphs).
pub const EFFARIG_UNLOCK_REALITY: u8 = 6;

/// The stage of Effarig's Reality: the next layer to complete.
#[derive(Clone, Copy, Debug, PartialEq, Eq, Structural)]
pub enum EffarigStage {
    Infinity,
    Eternity,
    Reality,
    Completed,
}

impl EffarigStage {
    /// The stage's number, 1 (Infinity) to 4 (Completed).
    pub fn number(self) -> (r: u8)
        ensures
            r == (match self {
                EffarigStage::Infinity => 1u8,
                EffarigStage::Eternity => 2u8,
                EffarigStage::Reality => 3u8,
                EffarigStage::Completed => 4u8,
            }),
    {
        match self {
            EffarigStage::Infinity => 1,
            EffarigStage::Eternity => 2,
            EffarigStage::Reality => 3,
            EffarigStage::Completed => 4,
        }
    }
}

impl EffarigState {
    /// Whether unlock `id` is held.
    pub open spec fn has_unlock(&self, id: u8) -> bool {
        id < 32 && self.unlock_bits & (1u32 << id) != 0
    }

    /// Whether unlock `id` is held.
    pub fn unlock_bought(&self, id: u8) -> (r: bool)
        ensures
            r == self.has_unlock(id),
    {
        id < 32 && self.unlock_bits & (1u32 << id) != 0
    }
}

impl GameState {
    pub open spec fn effarig_stage_spec(&self) -> EffarigStage {
        let e = self.celestials.effarig;
        if !e.has_unlock(EFFARIG_UNLOCK_INFINITY) {
            EffarigStage::Infinity
        } else if !e.has_unlock(EFFARIG_UNLOCK_ETERNITY) {
            EffarigStage::Eternity
        } else if !e.has_unlock(EFFARIG_UNLOCK_REALITY) {
            EffarigStage::Reality
        } else {
            EffarigStage::Completed
        }
    }

    /// The state with Effarig unlock `id` set.
    pub open spec fn effarig_unlock_set(&self, id: u8) -> GameState {
        GameState {
            celestials: CelestialsState {
                effarig: EffarigState {
                    unlock_bits: self.celestials.effarig.unlock_bits | (1u32 << id),
                    ..self.celestials.effarig
                },
                ..self.celestials
            },
            ..*self
        }
    }

    /// Whether Effarig's Reality is unlocked.
    pub fn effarig_run_unlocked(&self) -> (r: bool)
        ensures
            r == self.celestials.effarig.has_unlock(EFFARIG_UNLOCK_RUN),
    {
        self.celestials.effarig.unlock_bought(EFFARIG_UNLOCK_RUN)
    }

    /// Whether Effarig is unlocked (through Teresa).
    pub fn effarig_unlocked(&self) -> (r: bool)
        ensures
            r == self.celestials.teresa.has_unlock(3),
    {
        self.teresa_effarig_unlocked()
    }

    /// Whether Effarig glyphs are unlocked (the Reality stage completed).
    pub fn effarig_glyphs_unlocked(&self) -> (r: bool)
        ensures
            r == self.celestials.effarig.has_unlock(EFFARIG_UNLOCK_REALITY),
    {
        self.celestials.effarig.unlock_bought(EFFARIG_UNLOCK_REALITY)
    }

    /// Whether the Infinity-stage reward applies (held and not Doomed).
    pub fn effarig_infinity_unlock_applies(&self) -> (r: bool)
        ensures
            r == (self.celestials.effarig.has_unlock(EFFARIG_UNLOCK_INFINITY)
                && !self.celestials.pelle.doomed),
    {
        self.celestials.effarig.unlock_bought(EFFARIG_UNLOCK_INFINITY) && !self.is_doomed()
    }

    /// Whether the Eternity stage is completed.
    pub fn effarig_eternity_unlocked(&self) -> (r: bool)
        ensures
            r == self.celestials.effarig.has_unlock(EFFARIG_UNLOCK_ETERNITY),
    {
        self.celestials.effarig.unlock_bought(EFFARIG_UNLOCK_ETERNITY)
    }

    /// The current stage of Effarig's Reality: the first of the Infinity,
    /// Eternity and Reality stages not yet completed.
    pub fn effarig_current_stage(&self) -> (r: EffarigStage)
        ensures
            r == self.effarig_stage_spec(),
    {
        if !self.celestials.effarig.unlock_bought(EFFARIG_UNLOCK_INFINITY) {
            EffarigStage::Infinity
        } else if !self.celestials.effarig.unlock_bought(EFFARIG_UNLOCK_ETERNITY) {
            EffarigStage::Eternity
        } else if !self.celestials.effarig.unlock_bought(EFFARIG_UNLOCK_REALITY) {
            EffarigStage::Reality
        } else {
            EffarigStage::Completed
        }
    }

    /// Buy Relic-Shard unlock `id` (0–3) when not yet held and `affordable`
    /// (the shards cover its price; the caller spends them). Returns whether
    /// it was bought.
    pub fn effarig_buy_unlock(&mut self, id: u8, affordable: bool) -> (r: bool)
        ensures
            r == (id <= 3 && !old(self).celestials.effarig.has_unlock(id) && affordable),
            !r ==> *final(self) == *old(self),
            r ==> *final(self) == old(self).effarig_unlock_set(id),
    {
        if id > EFFARIG_UNLOCK_RUN {
            return false;
        }
        if self.celestials.effarig.unlock_bought(id) || !affordable {
            return false;
        }
        self.celestials.effarig.unlock_bits = self.celestials.effarig.unlock_bits | (1u32 << id);
        true
    }

    /// The glyph level cap inside Effarig's Reality by stage: 100, 1500,
    /// then 2000.
    pub fn effarig_glyph_level_cap(&self) -> (r: u32)
        ensures
            r == (match self.effarig_stage_spec() {
                EffarigStage::Infinity => 100u32,
                EffarigStage::Eternity => 1500u32,
                _ => 2000u32,
            }),
    {
        match self.effarig_current_stage() {
            EffarigStage::Infinity => 100,
            EffarigStage::Eternity => 1500,
            _ => 2000,
        }
    }

    /// A Big Crunch inside Effarig's Reality completes its Infinity stage the
    /// first time, ending the run.
    pub fn effarig_on_big_crunch(&mut self)
        ensures
            *final(self) == (if old(self).celestials.effarig.run
                && !old(self).celestials.effarig.has_unlock(EFFARIG_UNLOCK_INFINITY) {
                old(self).effarig_unlock_set(EFFARIG_UNLOCK_INFINITY).runs_cleared()
            } else {
                *old(self)
            }),
    {
        if self.celestials.effarig.run && !self.celestials.effarig.unlock_bought(EFFARIG_UNLOCK_INFINITY) {
            self.set_effarig_unlock(EFFARIG_UNLOCK_INFINITY);
            self.clear_celestial_runs();
        }
    }

    /// The state after `effarig_on_eternity`.
    pub open spec fn effarig_eternity_spec(&self) -> GameState {
        if self.celestials.effarig.run && !self.celestials.effarig.has_unlock(EFFARIG_UNLOCK_ETERNITY) {
            self.effarig_unlock_set(EFFARIG_UNLOCK_ETERNITY).runs_cleared()
        } else {
            *self
        }
    }

    /// An Eternity inside Effarig's Reality completes its Eternity stage the
    /// first time, ending the run.
    pub(crate) fn effarig_on_eternity(&mut self)
        ensures
            *final(self) == old(self).effarig_eternity_spec(),
    {
        if self.celestials.effarig.run && !self.celestials.effarig.unlock_bought(EFFARIG_UNLOCK_ETERNITY) {
            self.set_effarig_unlock(EFFARIG_UNLOCK_ETERNITY);
            self.clear_celestial_runs();
        }
    }

    /// Completing Effarig's Reality completes its Reality stage.
    pub(crate) fn effarig_complete_stage(&mut self)
        ensures
            *final(self) == (if old(self).celestials.effarig.has_unlock(EFFARIG_UNLOCK_REALITY) {
                *old(self)
            } else {
                old(self).effarig_unlock_set(EFFARIG_UNLOCK_REALITY)
            }),
    {
        if !self.celestials.effarig.unlock_bought(EFFARIG_UNLOCK_REALITY) {
            self.set_effarig_unlock(EFFARIG_UNLOCK_REALITY);
        }
    }

    fn set_effarig_unlock(&mut self, id: u8)
        requires
            id < 32,
        ensures
            *final(self) == old(self).effarig_unlock_set(id),
    {
        self.celestials.effarig.unlock_bits = self.celestials.effarig.unlock_bits | (1u32 << id);
    }
}

} // verus!
