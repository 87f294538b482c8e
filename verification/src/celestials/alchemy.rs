//! Glyph Alchemy: 21 resources — six base ones refined from glyphs, the rest
//! made by reactions — unlocked by Effarig's pet level.
use vstd::prelude::*;
use crate::state::GameState;
use crate::celestials::CelestialsState;
use crate::celestials::ra::RaState;

verus! {

/// One alchemy resource's reaction toggle.
pub struct AlchemyResource {
    /// Whether this resource's reaction is turned on.
    pub reaction: bool,
}

/// The number of alchemy resources.
/// Alchemy resource ids.
pub const POWER: usize = 0;
pub const INFINITY: usize = 1;
pub const TIME: usize = 2;
pub const REPLICATION: usize = 3;
pub const DILATION: usize = 4;
pub const CARDINALITY: usize = 5;
pub const ETERNITY: usize = 6;
pub const DIMENSIONALITY: usize = 7;
pub const INFLATION: usize = 8;
pub const ALTERNATION: usize = 9;
pub const EFFARIG: usize = 10;
pub const SYNERGISM: usize = 11;
pub const MOMENTUM: usize = 12;
pub const DECOHERENCE: usize = 13;
pub const EXPONENTIAL: usize = 14;
pub const FORCE: usize = 15;
pub const UNCOUNTABILITY: usize = 16;
pub const BOUNDLESS: usize = 17;
pub const MULTIVERSAL: usize = 18;
pub const UNPREDICTABILITY: usize = 19;
pub const REALITY: usize = 20;
pub const ALCHEMY_COUNT: usize = 21;

/// Whether resource `id` is a base resource (refined from glyphs): power,
/// infinity, time, replication, dilation and effarig.
pub open spec fn alchemy_base(id: usize) -> bool {
    id <= 4 || id == 10
}

/// The Effarig pet level that unlocks resource `id`.
pub open spec fn alchemy_level(id: usize) -> u32 {
    if id <= 4 { (id + 2) as u32 }
    else if id <= 9 { (id + 3) as u32 }
    else if id == 10 { 7 }
    else if id == 11 { 13 }
    else if id == 12 { 15 }
    else if id == 13 { 14 }
    else if id == 14 { 18 }
    else if id == 15 { 17 }
    else if id == 16 { 19 }
    else if id == 17 { 20 }
    else if id == 18 { 16 }
    else if id == 19 { 21 }
    else { 25 }
}

/// The refinement slot of base resource `id`.
pub open spec fn refinement_slot(id: usize) -> Option<usize> {
    if id <= 4 { Some(id) } else if id == 10 { Some(5usize) } else { None }
}

/// The refinement slot of base resource `id` (`None` for a reaction-made
/// resource).
pub fn refinement_index(id: usize) -> (r: Option<usize>)
    ensures
        r == refinement_slot(id),
{
    if id <= 4 {
        Some(id)
    } else if id == 10 {
        Some(5)
    } else {
        None
    }
}

impl GameState {
    pub open spec fn alchemy_resource_unlocked_spec(&self, id: usize) -> bool {
        self.ra_has(8) && self.ra_level_spec(1) >= alchemy_level(id)
    }

    /// Whether Glyph Alchemy is unlocked (Ra unlock 8).
    pub fn alchemy_unlocked(&self) -> (r: bool)
        ensures
            r == self.ra_has(8),
    {
        self.ra_unlock_active(8)
    }

    /// Whether resource `id` is unlocked: Alchemy unlocked and Effarig's pet
    /// at its level.
    pub fn alchemy_resource_unlocked(&self, id: usize) -> (r: bool)
        requires
            id < ALCHEMY_COUNT,
        ensures
            r == self.alchemy_resource_unlocked_spec(id),
    {
        self.alchemy_unlocked() && self.ra_pet_level(1) >= self.alchemy_unlocked_at(id)
    }

    /// Whether the Momentum resource is unlocked.
    pub fn alchemy_momentum_unlocked(&self) -> (r: bool)
        ensures
            r == self.alchemy_resource_unlocked_spec(MOMENTUM),
    {
        self.alchemy_resource_unlocked(MOMENTUM)
    }

    /// Whether resource `id` is a base resource.
    pub fn alchemy_is_base(&self, id: usize) -> (r: bool)
        requires
            id < ALCHEMY_COUNT,
        ensures
            r == alchemy_base(id),
    {
        id <= 4 || id == 10
    }

    /// The Effarig pet level that unlocks resource `id`.
    pub fn alchemy_unlocked_at(&self, id: usize) -> (r: u32)
        requires
            id < ALCHEMY_COUNT,
        ensures
            r == alchemy_level(id),
    {
        if id <= 4 { (id + 2) as u32 }
        else if id <= 9 { (id + 3) as u32 }
        else if id == 10 { 7 }
        else if id == 11 { 13 }
        else if id == 12 { 15 }
        else if id == 13 { 14 }
        else if id == 14 { 18 }
        else if id == 15 { 17 }
        else if id == 16 { 19 }
        else if id == 17 { 20 }
        else if id == 18 { 16 }
        else if id == 19 { 21 }
        else { 25 }
    }

    /// Toggle the reaction of reaction-made resource `id` once unlocked.
    /// Returns whether it was toggled.
    pub fn alchemy_toggle_reaction(&mut self, id: usize) -> (r: bool)
        requires
            id < ALCHEMY_COUNT,
        ensures
            r == (!alchemy_base(id) && old(self).alchemy_resource_unlocked_spec(id)),
            !r ==> *final(self) == *old(self),
            r ==> final(self).celestials.ra.alchemy@ == old(self).celestials.ra.alchemy@.update(id as int,
                AlchemyResource { reaction: !old(self).celestials.ra.alchemy[id as int].reaction }),
            *final(self) == old(self).with_ra(RaState { alchemy: final(self).celestials.ra.alchemy, ..old(self).celestials.ra }),
    {
        if self.alchemy_is_base(id) || !self.alchemy_resource_unlocked(id) {
            return false;
        }
        let was = self.celestials.ra.alchemy[id].reaction;
        self.celestials.ra.alchemy[id] = AlchemyResource { reaction: !was };
        true
    }
}

} // verus!
