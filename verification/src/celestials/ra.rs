//! Ra: four celestial pets that level up with Memories, granting unlocks,
//! Charged Infinity Upgrades, Remembrance and Glyph Alchemy.
use vstd::prelude::*;
use crate::state::GameState;
use crate::celestials::CelestialsState;
use crate::celestials::alchemy::AlchemyResource;
use crate::util::{popcount, count_ones};

verus! {

/// One pet's level and upgrade counters.
pub struct RaPet {
    pub level: u32,
    pub memory_upgrades: u32,
    pub chunk_upgrades: u32,
}

/// The saved state of this celestial.
pub struct RaState {
    pub pets: [RaPet; 4],
    pub unlock_bits: u32,
    pub run: bool,
    /// Bitset of charged Infinity-Upgrade ids.
    pub charged: u16,
    pub dis_charge: bool,
    /// Pet index with Remembrance active (−1 = none).
    pub pet_with_remembrance: i8,
    /// Per-resource alchemy reaction toggles.
    pub alchemy: [AlchemyResource; 21],
}

pub const PET_TERESA: usize = 0;
pub const PET_EFFARIG: usize = 1;
pub const PET_ENSLAVED: usize = 2;
pub const PET_V: usize = 3;
pub const PET_COUNT: usize = 4;
/// The highest pet level.
pub const RA_LEVEL_CAP: u32 = 25;
/// The number of Ra unlocks.
pub const RA_UNLOCK_COUNT: u8 = 28;
pub const RA_UNLOCK_CHARGED_INFINITY: u8 = 1;
pub const RA_UNLOCK_EFFARIG_MEMORIES: u8 = 4;
pub const RA_UNLOCK_GLYPH_ALCHEMY: u8 = 8;
pub const RA_UNLOCK_ENSLAVED_MEMORIES: u8 = 11;
pub const RA_UNLOCK_V_MEMORIES: u8 = 18;
pub const RA_UNLOCK_HARD_V: u8 = 24;

/// The pet whose level grants Ra unlock `id`: seven unlocks per pet.
pub open spec fn ra_unlock_pet(id: u8) -> usize {
    (id / 7) as usize
}

/// The pet level that grants Ra unlock `id`: 1, 2, 5, 10, 8, 15, 25 for each
/// pet's seven unlocks, except V's fourth and fifth, at 6 and 10.
pub open spec fn ra_unlock_level(id: u8) -> u32 {
    let k = id % 7;
    if id == 24 { 6 }
    else if id == 25 { 10 }
    else if k == 0 { 1 }
    else if k == 1 { 2 }
    else if k == 2 { 5 }
    else if k == 3 { 10 }
    else if k == 4 { 8 }
    else if k == 5 { 15 }
    else { 25 }
}

/// The pet level that grants Ra unlock `id`.
pub fn ra_unlock_required_level(id: u8) -> (r: u32)
    ensures
        r == ra_unlock_level(id),
{
    let k = id % 7;
    if id == 24 { 6 }
    else if id == 25 { 10 }
    else if k == 0 { 1 }
    else if k == 1 { 2 }
    else if k == 2 { 5 }
    else if k == 3 { 10 }
    else if k == 4 { 8 }
    else if k == 5 { 15 }
    else { 25 }
}

/// Whether `bits` holds unlock `id`.
pub open spec fn bit_set(bits: u32, id: u8) -> bool {
    id < 32 && bits & (1u32 << id) != 0
}

/// Whether pet `pet` is unlocked under the unlock bits `bits`.
pub open spec fn ra_pet_unlocked_under(bits: u32, pet: usize) -> bool {
    if pet == PET_TERESA { true }
    else if pet == PET_EFFARIG { bit_set(bits, RA_UNLOCK_EFFARIG_MEMORIES) }
    else if pet == PET_ENSLAVED { bit_set(bits, RA_UNLOCK_ENSLAVED_MEMORIES) }
    else if pet == PET_V { bit_set(bits, RA_UNLOCK_V_MEMORIES) }
    else { false }
}

/// Pet `pet`'s level under `bits` (0 while locked).
pub open spec fn ra_level_under(pets: Seq<RaPet>, bits: u32, pet: usize) -> u32 {
    if ra_pet_unlocked_under(bits, pet) { pets[pet as int].level } else { 0 }
}

/// The unlock bits after checking unlocks `0..n` in order against the pet
/// levels (an unlock granted early can unlock a pet checked later).
pub open spec fn ra_bits_after(pets: Seq<RaPet>, bits: u32, n: u8) -> u32
    decreases n,
{
    if n == 0 {
        bits
    } else {
        let prev = ra_bits_after(pets, bits, (n - 1) as u8);
        let id = (n - 1) as u8;
        if ra_level_under(pets, prev, ra_unlock_pet(id)) >= ra_unlock_level(id) {
            prev | (1u32 << id)
        } else {
            prev
        }
    }
}

/// Remembrance after it is set to `pet` from `current`: taken back (`-1`)
/// when `pet` already has it, else given to `pet`.
pub open spec fn remembrance_toggled(current: i8, pet: i8) -> i8 {
    if current == pet { -1i8 } else { pet }
}

impl GameState {
    pub open spec fn ra_unlocked_spec(&self) -> bool {
        self.v_st_spec() >= 36
    }

    pub open spec fn ra_has(&self, id: u8) -> bool {
        bit_set(self.celestials.ra.unlock_bits, id)
    }

    pub open spec fn ra_level_spec(&self, pet: usize) -> u32 {
        ra_level_under(self.celestials.ra.pets@, self.celestials.ra.unlock_bits, pet)
    }

    pub open spec fn ra_total_level_spec(&self) -> int {
        self.ra_level_spec(0) + self.ra_level_spec(1) + self.ra_level_spec(2) + self.ra_level_spec(3)
    }

    /// The state with the Ra field replaced.
    pub open spec fn with_ra(&self, ra: RaState) -> GameState {
        GameState { celestials: CelestialsState { ra, ..self.celestials }, ..*self }
    }

    /// The state after `ra_check_for_unlocks`.
    pub open spec fn ra_unlocks_checked(&self) -> GameState {
        if self.ra_unlocked_spec() {
            self.with_ra(RaState {
                unlock_bits: ra_bits_after(self.celestials.ra.pets@, self.celestials.ra.unlock_bits, 28),
                ..self.celestials.ra
            })
        } else {
            *self
        }
    }

    /// The state after `ra_level_up(pet, affordable)` succeeds.
    pub open spec fn ra_leveled(&self, pet: usize) -> GameState {
        self.with_ra(RaState {
            pets: spec_array_update_pets(self.celestials.ra.pets, pet as int, RaPet {
                level: (self.celestials.ra.pets[pet as int].level + 1) as u32,
                ..self.celestials.ra.pets[pet as int]
            }),
            ..self.celestials.ra
        }).ra_unlocks_checked()
    }

    pub open spec fn ra_can_level_spec(&self, pet: usize, affordable: bool) -> bool {
        pet < 4 && ra_pet_unlocked_under(self.celestials.ra.unlock_bits, pet)
            && self.celestials.ra.pets[pet as int].level < RA_LEVEL_CAP && affordable
    }

    /// The state after `k` successful level-ups of `pet`.
    pub open spec fn ra_after_level_ups(&self, pet: usize, k: nat) -> GameState
        decreases k,
    {
        if k == 0 { *self } else { self.ra_after_level_ups(pet, (k - 1) as nat).ra_leveled(pet) }
    }

    /// Whether Ra is unlocked (36 Space Theorems from V).
    pub fn ra_is_unlocked(&self) -> (r: bool)
        ensures
            r == self.ra_unlocked_spec(),
    {
        self.v_space_theorems_total() >= 36
    }

    /// Whether Ra's Reality is running.
    pub fn ra_is_running(&self) -> (r: bool)
        ensures
            r == self.celestials.ra.run,
    {
        self.celestials.ra.run
    }

    /// Whether Ra's Reality can be entered (Ra is unlocked).
    pub fn ra_run_unlocked(&self) -> (r: bool)
        ensures
            r == self.ra_unlocked_spec(),
    {
        self.ra_is_unlocked()
    }

    /// Whether Ra unlock `id` is held.
    pub fn ra_has_unlock(&self, id: u8) -> (r: bool)
        ensures
            r == self.ra_has(id),
    {
        id < 32 && self.celestials.ra.unlock_bits & (1u32 << id) != 0
    }

    /// Whether Ra unlock `id` is in effect (held).
    pub fn ra_unlock_active(&self, id: u8) -> (r: bool)
        ensures
            r == self.ra_has(id),
    {
        self.ra_has_unlock(id)
    }

    /// Whether pet `pet` is unlocked: Teresa always; Effarig, Enslaved and V
    /// through unlocks 4, 11 and 18.
    pub fn ra_pet_unlocked(&self, pet: usize) -> (r: bool)
        ensures
            r == ra_pet_unlocked_under(self.celestials.ra.unlock_bits, pet),
    {
        if pet == PET_TERESA {
            true
        } else if pet == PET_EFFARIG {
            self.ra_has_unlock(RA_UNLOCK_EFFARIG_MEMORIES)
        } else if pet == PET_ENSLAVED {
            self.ra_has_unlock(RA_UNLOCK_ENSLAVED_MEMORIES)
        } else if pet == PET_V {
            self.ra_has_unlock(RA_UNLOCK_V_MEMORIES)
        } else {
            false
        }
    }

    /// Pet `pet`'s level (0 while locked).
    pub fn ra_pet_level(&self, pet: usize) -> (r: u32)
        ensures
            r == self.ra_level_spec(pet),
    {
        if self.ra_pet_unlocked(pet) {
            self.celestials.ra.pets[pet].level
        } else {
            0
        }
    }

    /// The sum of the four pets' levels.
    pub fn ra_total_pet_level(&self) -> (r: u32)
        requires
            self.ra_total_level_spec() <= u32::MAX,
        ensures
            r == self.ra_total_level_spec(),
    {
        self.ra_pet_level(0) + self.ra_pet_level(1) + self.ra_pet_level(2) + self.ra_pet_level(3)
    }

    /// Whether pet `pet`'s Memory upgrade is at its cap (from 22 purchases
    /// its cost reaches half of the last level's Memory requirement).
    pub fn ra_memory_upgrade_capped(&self, pet: usize) -> (r: bool)
        requires
            pet < 4,
        ensures
            r == (self.celestials.ra.pets[pet as int].memory_upgrades >= 22),
    {
        self.celestials.ra.pets[pet].memory_upgrades >= 22
    }

    /// Whether pet `pet`'s Memory-Chunk upgrade is at its cap (from 11
    /// purchases).
    pub fn ra_chunk_upgrade_capped(&self, pet: usize) -> (r: bool)
        requires
            pet < 4,
        ensures
            r == (self.celestials.ra.pets[pet as int].chunk_upgrades >= 11),
    {
        self.celestials.ra.pets[pet].chunk_upgrades >= 11
    }

    /// Buy pet `pet`'s Memory upgrade when `affordable` and below its cap
    /// (the caller spends the Memories). Returns whether it was bought.
    pub fn ra_purchase_memory_upgrade(&mut self, pet: usize, affordable: bool) -> (r: bool)
        requires
            pet < 4,
        ensures
            r == (affordable && old(self).celestials.ra.pets[pet as int].memory_upgrades < 22),
            !r ==> *final(self) == *old(self),
            r ==> final(self).celestials.ra.pets@ == old(self).celestials.ra.pets@.update(pet as int, RaPet {
                memory_upgrades: (old(self).celestials.ra.pets[pet as int].memory_upgrades + 1) as u32,
                ..old(self).celestials.ra.pets[pet as int]
            }),
            *final(self) == old(self).with_ra(RaState { pets: final(self).celestials.ra.pets, ..old(self).celestials.ra }),
    {
        if !affordable || self.ra_memory_upgrade_capped(pet) {
            return false;
        }
        let p = &self.celestials.ra.pets[pet];
        let bumped = RaPet { memory_upgrades: p.memory_upgrades + 1, ..*p };
        self.celestials.ra.pets[pet] = bumped;
        true
    }

    /// Buy pet `pet`'s Memory-Chunk upgrade when `affordable` and below its
    /// cap. Returns whether it was bought.
    pub fn ra_purchase_chunk_upgrade(&mut self, pet: usize, affordable: bool) -> (r: bool)
        requires
            pet < 4,
        ensures
            r == (affordable && old(self).celestials.ra.pets[pet as int].chunk_upgrades < 11),
            !r ==> *final(self) == *old(self),
            r ==> final(self).celestials.ra.pets@ == old(self).celestials.ra.pets@.update(pet as int, RaPet {
                chunk_upgrades: (old(self).celestials.ra.pets[pet as int].chunk_upgrades + 1) as u32,
                ..old(self).celestials.ra.pets[pet as int]
            }),
            *final(self) == old(self).with_ra(RaState { pets: final(self).celestials.ra.pets, ..old(self).celestials.ra }),
    {
        if !affordable || self.ra_chunk_upgrade_capped(pet) {
            return false;
        }
        let p = &self.celestials.ra.pets[pet];
        let bumped = RaPet { chunk_upgrades: p.chunk_upgrades + 1, ..*p };
        self.celestials.ra.pets[pet] = bumped;
        true
    }

    /// Grant, in order, every Ra unlock whose pet has reached its level (once
    /// Ra is unlocked).
    pub(crate) fn ra_check_for_unlocks(&mut self)
        ensures
            *final(self) == old(self).ra_unlocks_checked(),
    {
        if !self.ra_is_unlocked() {
            return;
        }
        let mut id: u8 = 0;
        while id < RA_UNLOCK_COUNT
            invariant
                id <= 28,
                old(self).ra_unlocked_spec(),
                *self == old(self).with_ra(RaState {
                    unlock_bits: ra_bits_after(old(self).celestials.ra.pets@, old(self).celestials.ra.unlock_bits, id),
                    ..old(self).celestials.ra
                }),
            decreases 28 - id,
        {
            let pet = (id / 7) as usize;
            if self.ra_pet_level(pet) >= ra_unlock_required_level(id) {
                self.celestials.ra.unlock_bits = self.celestials.ra.unlock_bits | (1u32 << id);
            }
            id = id + 1;
        }
    }

    /// Level pet `pet` up when it is unlocked, below level 25, and
    /// `affordable` (its Memories cover the level's requirement; the caller
    /// spends them), then grant the unlocks it reaches. Returns whether it
    /// levelled.
    pub fn ra_level_up(&mut self, pet: usize, affordable: bool) -> (r: bool)
        ensures
            r == old(self).ra_can_level_spec(pet, affordable),
            !r ==> *final(self) == *old(self),
            r ==> *final(self) == old(self).ra_leveled(pet),
    {
        if pet >= PET_COUNT || !self.ra_pet_unlocked(pet) {
            return false;
        }
        let level = self.celestials.ra.pets[pet].level;
        if level >= RA_LEVEL_CAP || !affordable {
            return false;
        }
        let p = &self.celestials.ra.pets[pet];
        let leveled = RaPet { level: p.level + 1, ..*p };
        self.celestials.ra.pets[pet] = leveled;
        proof {
            assert(self.celestials.ra.pets == spec_array_update_pets(old(self).celestials.ra.pets, pet as int, leveled)) by {
                broadcast use vstd::array::group_array_axioms;
                assert(self.celestials.ra.pets =~= spec_array_update_pets(old(self).celestials.ra.pets, pet as int, leveled));
            }
        }
        self.ra_check_for_unlocks();
        true
    }

    /// Level pet `pet` up as many times as `affordable_levels` (the number
    /// of successive levels its Memories cover) allows. Returns the number
    /// of levels gained.
    pub fn ra_level_up_max(&mut self, pet: usize, affordable_levels: u32) -> (r: u32)
        ensures
            r <= affordable_levels,
            *final(self) == old(self).ra_after_level_ups(pet, r as nat),
            r < affordable_levels ==> !old(self).ra_after_level_ups(pet, r as nat).ra_can_level_spec(pet, true),
    {
        let mut count: u32 = 0;
        while count < affordable_levels
            invariant
                count <= affordable_levels,
                *self == old(self).ra_after_level_ups(pet, count as nat),
            decreases affordable_levels - count,
        {
            if !self.ra_level_up(pet, true) {
                return count;
            }
            count = count + 1;
        }
        count
    }

    /// Whether Remembrance is unlocked (20 total pet levels).
    pub fn ra_remembrance_unlocked(&self) -> (r: bool)
        ensures
            r == (self.ra_total_level_spec() >= 20),
    {
        let total: u64 = self.ra_pet_level(0) as u64 + self.ra_pet_level(1) as u64
            + self.ra_pet_level(2) as u64 + self.ra_pet_level(3) as u64;
        total >= 20
    }

    /// Give Remembrance to `pet`, or take it back when `pet` already has it.
    /// Returns whether Remembrance is unlocked.
    pub fn ra_set_remembrance(&mut self, pet: i8) -> (r: bool)
        ensures
            r == (old(self).ra_total_level_spec() >= 20),
            !r ==> *final(self) == *old(self),
            r ==> *final(self) == old(self).with_ra(RaState {
                pet_with_remembrance: remembrance_toggled(old(self).celestials.ra.pet_with_remembrance, pet),
                ..old(self).celestials.ra
            }),
    {
        if !self.ra_remembrance_unlocked() {
            return false;
        }
        self.celestials.ra.pet_with_remembrance =
            if self.celestials.ra.pet_with_remembrance == pet { -1 } else { pet };
        true
    }

    /// Charges for Infinity Upgrades: with unlock 1, one per two Teresa
    /// levels, at most 12.
    pub fn ra_total_charges(&self) -> (r: u32)
        ensures
            r == (if self.ra_has(RA_UNLOCK_CHARGED_INFINITY) {
                if self.ra_level_spec(0) / 2 <= 12 { self.ra_level_spec(0) / 2 } else { 12 }
            } else {
                0
            }),
    {
        if self.ra_unlock_active(RA_UNLOCK_CHARGED_INFINITY) {
            let half = self.ra_pet_level(PET_TERESA) / 2;
            if half <= 12 { half } else { 12 }
        } else {
            0
        }
    }

    /// Charges in use (Infinity Upgrades charged).
    pub fn ra_charges_used(&self) -> (r: u32)
        ensures
            r == popcount(self.celestials.ra.charged as u32),
    {
        count_ones(self.celestials.ra.charged as u32)
    }

    /// Charges left (never below 0).
    pub fn ra_charges_left(&self) -> (r: u32)
        ensures
            r == (if self.ra_has(RA_UNLOCK_CHARGED_INFINITY) {
                let total = if self.ra_level_spec(0) / 2 <= 12 { self.ra_level_spec(0) / 2 } else { 12 };
                if total >= popcount(self.celestials.ra.charged as u32) {
                    total - popcount(self.celestials.ra.charged as u32)
                } else {
                    0
                }
            } else {
                0
            }),
    {
        self.ra_total_charges().saturating_sub(self.ra_charges_used())
    }

    /// Whether Infinity Upgrade `id` is charged.
    pub fn ra_is_charged(&self, id: u8) -> (r: bool)
        requires
            id < 16,
        ensures
            r == (self.celestials.ra.charged & (1u16 << id) != 0),
    {
        self.celestials.ra.charged & (1u16 << id) != 0
    }

    /// Whether V's hard achievements are unlocked (Ra unlock 24).
    pub fn ra_hard_v_unlocked(&self) -> (r: bool)
        ensures
            r == self.ra_has(RA_UNLOCK_HARD_V),
    {
        self.ra_unlock_active(RA_UNLOCK_HARD_V)
    }

    /// Triad Studies available: one per six V levels once hard V is unlocked.
    pub fn ra_triad_study_count(&self) -> (r: u32)
        ensures
            r == (if self.ra_has(RA_UNLOCK_HARD_V) { self.ra_level_spec(3) / 6 } else { 0 }),
    {
        if self.ra_hard_v_unlocked() {
            self.ra_pet_level(PET_V) / 6
        } else {
            0
        }
    }
}

/// `pets` with entry `i` replaced.
pub open spec fn spec_array_update_pets(pets: [RaPet; 4], i: int, p: RaPet) -> [RaPet; 4] {
    vstd::array::spec_array_update(pets, i, p)
}

} // verus!
