//! Celestials: the endgame encounters, each with a persistent state block,
//! a special Reality run and progressive unlocks.
use vstd::prelude::*;
use crate::state::GameState;

pub mod teresa;
pub mod effarig;
pub mod enslaved;
pub mod v;
pub mod ra;
pub mod alchemy;
pub mod laitela;
pub mod singularity;
pub mod imaginary_upgrades;
pub mod pelle;

use self::teresa::TeresaState;
use self::effarig::EffarigState;
use self::enslaved::EnslavedState;
use self::v::VState;
use self::ra::RaState;
use self::laitela::LaitelaState;
use self::pelle::PelleState;

verus! {

/// Which celestial a reality run belongs to.
#[derive(Clone, Copy, Debug, PartialEq, Eq, Structural)]
pub enum Celestial {
    Teresa,
    Effarig,
    Enslaved,
    V,
}

/// The saved state of every celestial.
pub struct CelestialsState {
    pub teresa: TeresaState,
    pub effarig: EffarigState,
    pub enslaved: EnslavedState,
    pub v: VState,
    pub ra: RaState,
    pub laitela: LaitelaState,
    pub pelle: PelleState,
}

impl GameState {
    pub open spec fn in_celestial_reality_spec(&self) -> bool {
        self.celestials.teresa.run || self.celestials.effarig.run
            || self.celestials.enslaved.run || self.celestials.v.run
    }

    /// The state with every celestial run flag cleared.
    pub open spec fn runs_cleared(&self) -> GameState {
        GameState {
            celestials: CelestialsState {
                teresa: TeresaState { run: false, ..self.celestials.teresa },
                effarig: EffarigState { run: false, ..self.celestials.effarig },
                enslaved: EnslavedState { run: false, ..self.celestials.enslaved },
                v: VState { run: false, ..self.celestials.v },
                ..self.celestials
            },
            ..*self
        }
    }

    pub open spec fn can_start_celestial_reality_spec(&self, cel: Celestial) -> bool {
        self.reality.realities > 0 && match cel {
            Celestial::Teresa => self.celestials.teresa.unlock_bits & (1u32 << 0u8) != 0,
            Celestial::Effarig => self.celestials.effarig.unlock_bits & (1u32 << 3u8) != 0,
            Celestial::Enslaved => self.celestials.enslaved.unlock_bits & (1u32 << 1u8) != 0,
            Celestial::V => self.celestials.v.unlock_bits & (1u32 << 0u8) != 0,
        }
    }

    /// Whether a celestial's Reality is running.
    pub fn is_in_celestial_reality(&self) -> (r: bool)
        ensures
            r == self.in_celestial_reality_spec(),
    {
        self.celestials.teresa.run || self.celestials.effarig.run
            || self.celestials.enslaved.run || self.celestials.v.run
    }

    /// Clear every celestial run flag (the start of every Reality reset).
    pub(crate) fn clear_celestial_runs(&mut self)
        ensures
            *final(self) == old(self).runs_cleared(),
    {
        self.celestials.teresa.run = false;
        self.celestials.effarig.run = false;
        self.celestials.enslaved.run = false;
        self.celestials.v.run = false;
    }

    /// The rewards of a Reality completed inside a celestial's run:
    /// Effarig's Reality stage inside Effarig's, the completion flag inside
    /// Enslaved's. (Teresa's best-antimatter record is kept with the
    /// amounts; V's run rewards come from its achievements.)
    pub fn celestial_reality_completion_hooks(&mut self)
        ensures
            *final(self) == ({
                let e = if old(self).celestials.effarig.run
                    && !old(self).celestials.effarig.has_unlock(self::effarig::EFFARIG_UNLOCK_REALITY) {
                    old(self).effarig_unlock_set(self::effarig::EFFARIG_UNLOCK_REALITY)
                } else {
                    *old(self)
                };
                if old(self).celestials.enslaved.run {
                    GameState {
                        celestials: CelestialsState {
                            enslaved: EnslavedState { completed: true, ..e.celestials.enslaved },
                            ..e.celestials
                        },
                        ..e
                    }
                } else {
                    e
                }
            }),
    {
        if self.celestials.effarig.run {
            self.effarig_complete_stage();
        }
        if self.celestials.enslaved.run {
            self.enslaved_complete_run();
        }
    }

    /// Whether the Celestials are available (after the first Reality).
    pub fn celestials_unlocked(&self) -> (r: bool)
        ensures
            r == (self.reality.realities > 0),
    {
        self.reality_unlocked()
    }

    /// Whether `cel`'s Reality can be entered: the Celestials are available
    /// and its run is unlocked.
    pub fn can_start_celestial_reality(&self, cel: Celestial) -> (r: bool)
        ensures
            r == self.can_start_celestial_reality_spec(cel),
    {
        if !self.celestials_unlocked() {
            return false;
        }
        match cel {
            Celestial::Teresa => self.teresa_run_unlocked(),
            Celestial::Effarig => self.effarig_run_unlocked(),
            Celestial::Enslaved => self.enslaved_run_unlocked(),
            Celestial::V => self.v_celestial_unlocked(),
        }
    }

    /// Enter `cel`'s Reality when allowed: every run flag is cleared, then
    /// `cel`'s is set. Returns whether it happened.
    pub fn start_celestial_reality(&mut self, cel: Celestial) -> (r: bool)
        ensures
            r == old(self).can_start_celestial_reality_spec(cel),
            !r ==> *final(self) == *old(self),
            r ==> *final(self) == old(self).runs_cleared().run_started(cel),
    {
        if !self.can_start_celestial_reality(cel) {
            return false;
        }
        self.clear_celestial_runs();
        match cel {
            Celestial::Teresa => self.celestials.teresa.run = true,
            Celestial::Effarig => self.celestials.effarig.run = true,
            Celestial::Enslaved => self.celestials.enslaved.run = true,
            Celestial::V => self.celestials.v.run = true,
        }
        true
    }

    /// The state with `cel`'s run flag set.
    pub open spec fn run_started(&self, cel: Celestial) -> GameState {
        GameState {
            celestials: match cel {
                Celestial::Teresa => CelestialsState {
                    teresa: TeresaState { run: true, ..self.celestials.teresa },
                    ..self.celestials
                },
                Celestial::Effarig => CelestialsState {
                    effarig: EffarigState { run: true, ..self.celestials.effarig },
                    ..self.celestials
                },
                Celestial::Enslaved => CelestialsState {
                    enslaved: EnslavedState { run: true, ..self.celestials.enslaved },
                    ..self.celestials
                },
                Celestial::V => CelestialsState {
                    v: VState { run: true, ..self.celestials.v },
                    ..self.celestials
                },
            },
            ..*self
        }
    }
}

} // verus!
