//! Imaginary Upgrades: ten rebuyables and fifteen one-time upgrades bought
//! with Imaginary Machines.
use vstd::prelude::*;
use crate::state::{GameState, RealityState};

verus! {

impl GameState {
    pub open spec fn has_imaginary_upgrade(&self, id: u8) -> bool {
        id < 32 && self.reality.imaginary_upgrade_bits & (1u32 << id) != 0
    }

    pub open spec fn imaginary_available_spec(&self, id: u8, measured_met: bool) -> bool {
        !self.has_imaginary_upgrade(id) && (
            if id == 15 || id == 17 || id == 18 || id == 20 {
                measured_met
            } else if id == 16 {
                self.laitela_max_allowed_spec() <= 6
            } else if id == 19 {
                self.requirement_checks.reality_max_studies <= 8 && measured_met
            } else if id == 21 {
                self.requirement_checks.reality_no_continuum && measured_met
            } else if id == 25 {
                self.celestials.laitela.run && self.laitela_max_allowed_spec() == 0
                    && self.dilation.studies@.contains(6u8)
            } else {
                false
            })
    }

    /// Whether one-time Imaginary Upgrade `id` is bought.
    pub fn imaginary_upgrade_bought(&self, id: u8) -> (r: bool)
        requires
            id < 32,
        ensures
            r == self.has_imaginary_upgrade(id),
    {
        self.reality.imaginary_upgrade_bits & (1u32 << id) != 0
    }

    /// Purchases of Imaginary rebuyable `id` (1–10).
    pub fn imaginary_rebuyable_count(&self, id: u8) -> (r: u32)
        requires
            1 <= id <= 10,
        ensures
            r == self.reality.imaginary_rebuyables[id - 1],
    {
        self.reality.imaginary_rebuyables[(id - 1) as usize]
    }

    /// Buy Imaginary rebuyable `id` (1–10) when `affordable` (the caller
    /// spends the Imaginary Machines). Returns whether it was bought.
    pub fn buy_imaginary_rebuyable(&mut self, id: u8, affordable: bool) -> (r: bool)
        requires
            1 <= id <= 10 ==> old(self).reality.imaginary_rebuyables[id - 1] < u32::MAX,
        ensures
            r == (1 <= id <= 10 && affordable),
            !r ==> *final(self) == *old(self),
            r ==> final(self).reality.imaginary_rebuyables@
                == old(self).reality.imaginary_rebuyables@.update(id - 1,
                    (old(self).reality.imaginary_rebuyables[id - 1] + 1) as u32),
            *final(self) == (GameState {
                reality: RealityState {
                    imaginary_rebuyables: final(self).reality.imaginary_rebuyables,
                    ..old(self).reality
                },
                ..*old(self)
            }),
    {
        if !(1 <= id && id <= 10) || !affordable {
            return false;
        }
        let i = (id - 1) as usize;
        self.reality.imaginary_rebuyables[i] = self.reality.imaginary_rebuyables[i] + 1;
        true
    }

    /// Whether one-time Imaginary Upgrade `id` can be bought: not yet bought
    /// and its requirement met. Upgrades 16 and 25 have purely discrete
    /// requirements (Lai'tela's destabilisation, her Reality, Dilation Study
    /// 6); for 15, 17, 18 and 20 the requirement is a measured amount, whose
    /// outcome `measured_met` gives; 19 and 21 combine both.
    pub fn imaginary_upgrade_available(&self, id: u8, measured_met: bool) -> (r: bool)
        ensures
            r == self.imaginary_available_spec(id, measured_met),
    {
        if id < 32 && self.imaginary_upgrade_bought(id) {
            return false;
        }
        if id == 15 || id == 17 || id == 18 || id == 20 {
            measured_met
        } else if id == 16 {
            self.laitela_max_allowed_dimension() <= 6
        } else if id == 19 {
            self.requirement_checks.reality_max_studies <= 8 && measured_met
        } else if id == 21 {
            self.requirement_checks.reality_no_continuum && measured_met
        } else if id == 25 {
            self.laitela_is_running() && self.laitela_max_allowed_dimension() == 0
                && self.dilation_study_bought(6)
        } else {
            false
        }
    }

    /// Buy one-time Imaginary Upgrade `id` when available and `affordable`.
    /// Returns whether it was bought.
    pub fn buy_imaginary_upgrade(&mut self, id: u8, measured_met: bool, affordable: bool) -> (r: bool)
        ensures
            r == (old(self).imaginary_available_spec(id, measured_met) && affordable),
            !r ==> *final(self) == *old(self),
            r ==> *final(self) == (GameState {
                reality: RealityState {
                    imaginary_upgrade_bits: old(self).reality.imaginary_upgrade_bits | (1u32 << id),
                    ..old(self).reality
                },
                ..*old(self)
            }),
    {
        if !self.imaginary_upgrade_available(id, measured_met) || !affordable {
            return false;
        }
        self.reality.imaginary_upgrade_bits = self.reality.imaginary_upgrade_bits | (1u32 << id);
        true
    }
}

} // verus!
