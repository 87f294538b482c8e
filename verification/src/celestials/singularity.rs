//! Singularities: condensed Dark Energy, with an adjustable cap.
use vstd::prelude::*;
use crate::state::GameState;
use crate::celestials::laitela::LaitelaState;

verus! {

/// The most cap increases allowed.
pub const MAX_CAP_INCREASES: u32 = 50;

impl GameState {
    /// Raise the Singularity cap one step (at most 50 steps).
    pub fn singularity_increase_cap(&mut self)
        ensures
            *final(self) == old(self).with_laitela(LaitelaState {
                singularity_cap_increases: if old(self).celestials.laitela.singularity_cap_increases < 50 {
                    (old(self).celestials.laitela.singularity_cap_increases + 1) as u32
                } else {
                    old(self).celestials.laitela.singularity_cap_increases
                },
                ..old(self).celestials.laitela
            }),
    {
        if self.celestials.laitela.singularity_cap_increases < MAX_CAP_INCREASES {
            self.celestials.laitela.singularity_cap_increases = self.celestials.laitela.singularity_cap_increases + 1;
        }
    }

    /// Lower the Singularity cap one step (not below 0).
    pub fn singularity_decrease_cap(&mut self)
        ensures
            *final(self) == old(self).with_laitela(LaitelaState {
                singularity_cap_increases: if old(self).celestials.laitela.singularity_cap_increases > 0 {
                    (old(self).celestials.laitela.singularity_cap_increases - 1) as u32
                } else {
                    0
                },
                ..old(self).celestials.laitela
            }),
    {
        if self.celestials.laitela.singularity_cap_increases > 0 {
            self.celestials.laitela.singularity_cap_increases = self.celestials.laitela.singularity_cap_increases - 1;
        }
    }
}

} // verus!
