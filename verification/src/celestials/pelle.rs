//! Pelle, the Doomed: dooming disables earlier mechanics; Armageddon,
//! Rifts, Strikes, Pelle Upgrades and the Galaxy Generator take their place.
use vstd::prelude::*;
use crate::state::GameState;
use crate::celestials::CelestialsState;
use crate::celestials::enslaved::EnslavedState;
use crate::celestials::ra::RaState;
use crate::dilation::DilationState;
use crate::util::str_equal;
use crate::glyphs::GlyphType;

verus! {

/// One Rift.
pub struct Rift {
    /// Whether the Rift is filling.
    pub active: bool,
}

/// The Galaxy Generator.
pub struct GalaxyGenerator {
    pub unlocked: bool,
    /// The current sacrifice phase.
    pub phase: u32,
    /// Whether a Rift sacrifice is under way.
    pub sacrifice_active: bool,
}

/// The saved state of this celestial.
pub struct PelleState {
    pub doomed: bool,
    /// One-time Pelle Upgrades (bit set of ids 0–22).
    pub upgrades: u32,
    /// The 5 Pelle rebuyables.
    pub rebuyables: [u32; 5],
    /// The 5 Galaxy-Generator rebuyables.
    pub gg_rebuyables: [u32; 5],
    pub rifts: [Rift; 5],
    /// Strike bits (ids 1–5).
    pub progress_bits: u32,
    pub galaxy_generator: GalaxyGenerator,
}

/// Rift indices.
pub const RIFT_VACUUM: usize = 0;
pub const RIFT_DECAY: usize = 1;
pub const RIFT_CHAOS: usize = 2;
pub const RIFT_RECURSION: usize = 3;
pub const RIFT_PARADOX: usize = 4;
/// The number of Rifts.
pub const RIFT_COUNT: usize = 5;

/// The purchase caps of the Pelle rebuyables.
pub open spec fn pelle_rebuyable_cap(id: int) -> u32 {
    if id == 0 { 44 } else if id == 1 { 35 } else if id == 2 { 26 } else if id == 3 { 21 } else { 9 }
}

/// The number of active Rifts among the first `n`.
pub open spec fn active_rifts(rifts: Seq<Rift>, n: int) -> int
    decreases n,
{
    if n <= 0 { 0 } else { active_rifts(rifts, n - 1) + (if rifts[n - 1].active { 1int } else { 0int }) }
}

impl GameState {
    pub open spec fn has_pelle_upgrade(&self, id: u32) -> bool {
        id < 32 && self.celestials.pelle.upgrades & (1u32 << id) != 0
    }

    pub open spec fn has_strike(&self, id: u32) -> bool {
        id < 32 && self.celestials.pelle.progress_bits & (1u32 << id) != 0
    }

    /// The state with the Pelle field replaced.
    pub open spec fn with_pelle(&self, p: PelleState) -> GameState {
        GameState { celestials: CelestialsState { pelle: p, ..self.celestials }, ..*self }
    }

    /// Whether Pelle is unlocked (Imaginary Upgrade 25).
    pub fn pelle_unlocked(&self) -> (r: bool)
        ensures
            r == self.has_imaginary_upgrade(25),
    {
        self.imaginary_upgrade_bought(25)
    }

    /// Whether the Reality is Doomed.
    pub fn is_doomed(&self) -> (r: bool)
        ensures
            r == self.celestials.pelle.doomed,
    {
        self.celestials.pelle.doomed
    }

    /// The type of the one glyph equippable while Doomed, once its special
    /// effect is unlocked (`chaos_milestone`: the Chaos Rift's first
    /// milestone); `None` outside Doom, before that, or with no glyph equipped.
    pub fn pelle_active_glyph_type(&self, chaos_milestone: bool) -> (r: Option<GlyphType>)
        ensures
            r == (if !self.celestials.pelle.doomed || !chaos_milestone
                || self.reality.glyphs.active@.len() == 0 {
                None
            } else {
                Some(self.reality.glyphs.active@[0].kind)
            }),
    {
        if !self.is_doomed() || !chaos_milestone {
            return None;
        }
        if self.reality.glyphs.active.len() == 0 {
            None
        } else {
            Some(self.reality.glyphs.active[0].kind)
        }
    }

    /// Whether Strike `id` (1–5) has been triggered.
    pub fn pelle_has_strike(&self, id: u32) -> (r: bool)
        requires
            id < 32,
        ensures
            r == self.has_strike(id),
    {
        self.celestials.pelle.progress_bits & (1u32 << id) != 0
    }

    /// Whether Pelle Upgrade `id` is bought.
    pub fn pelle_upgrade_bought(&self, id: u32) -> (r: bool)
        requires
            id < 32,
        ensures
            r == self.has_pelle_upgrade(id),
    {
        self.celestials.pelle.upgrades & (1u32 << id) != 0
    }

    /// Whether Pelle Upgrade `id` is in effect: bought, and Doomed.
    pub fn pelle_upgrade_applies(&self, id: u32) -> (r: bool)
        requires
            id < 32,
        ensures
            r == (self.celestials.pelle.doomed && self.has_pelle_upgrade(id)),
    {
        self.is_doomed() && self.pelle_upgrade_bought(id)
    }

    /// Whether `mechanic` is disabled by the doom. Nothing is before Dooming;
    /// afterwards glyphs come back with the Vacuum Rift's first milestone
    /// (`vacuum_milestone`), the AD 1–4, AD 5–8, Dimension Boost, Galaxy and
    /// Tickspeed autobuyers with Pelle Upgrades 0, 3, 1, 4 and 5, and every
    /// other mechanic stays disabled.
    pub fn pelle_is_disabled(&self, mechanic: &str, vacuum_milestone: bool) -> (r: bool)
        ensures
            r == (self.celestials.pelle.doomed && (
                if mechanic@ == "glyphs"@ {
                    !vacuum_milestone
                } else if mechanic@ == "antimatterDimAutobuyer1"@ || mechanic@ == "antimatterDimAutobuyer2"@
                    || mechanic@ == "antimatterDimAutobuyer3"@ || mechanic@ == "antimatterDimAutobuyer4"@ {
                    !self.has_pelle_upgrade(0)
                } else if mechanic@ == "antimatterDimAutobuyer5"@ || mechanic@ == "antimatterDimAutobuyer6"@
                    || mechanic@ == "antimatterDimAutobuyer7"@ || mechanic@ == "antimatterDimAutobuyer8"@ {
                    !self.has_pelle_upgrade(3)
                } else if mechanic@ == "dimBoostAutobuyer"@ {
                    !self.has_pelle_upgrade(1)
                } else if mechanic@ == "galaxyAutobuyer"@ {
                    !self.has_pelle_upgrade(4)
                } else if mechanic@ == "tickspeedAutobuyer"@ {
                    !self.has_pelle_upgrade(5)
                } else {
                    true
                })),
    {
        if !self.is_doomed() {
            return false;
        }
        if str_equal(mechanic, "glyphs") {
            !vacuum_milestone
        } else if str_equal(mechanic, "antimatterDimAutobuyer1") || str_equal(mechanic, "antimatterDimAutobuyer2")
            || str_equal(mechanic, "antimatterDimAutobuyer3") || str_equal(mechanic, "antimatterDimAutobuyer4") {
            !self.pelle_upgrade_bought(0)
        } else if str_equal(mechanic, "antimatterDimAutobuyer5") || str_equal(mechanic, "antimatterDimAutobuyer6")
            || str_equal(mechanic, "antimatterDimAutobuyer7") || str_equal(mechanic, "antimatterDimAutobuyer8") {
            !self.pelle_upgrade_bought(3)
        } else if str_equal(mechanic, "dimBoostAutobuyer") {
            !self.pelle_upgrade_bought(1)
        } else if str_equal(mechanic, "galaxyAutobuyer") {
            !self.pelle_upgrade_bought(4)
        } else if str_equal(mechanic, "tickspeedAutobuyer") {
            !self.pelle_upgrade_bought(5)
        } else {
            true
        }
    }

    /// Whether the autobuyer of AD tier `tier` (0-indexed) is disabled by the
    /// doom: tiers 0–3 come back with Pelle Upgrade 0, the rest with 3.
    pub fn pelle_ad_autobuyer_disabled(&self, tier: usize) -> (r: bool)
        ensures
            r == (self.celestials.pelle.doomed && !self.has_pelle_upgrade(if tier < 4 { 0u32 } else { 3u32 })),
    {
        if !self.is_doomed() {
            return false;
        }
        !self.pelle_upgrade_bought(if tier < 4 { 0 } else { 3 })
    }

    /// Doom the Reality (permanently) once Pelle is unlocked: the celestial
    /// runs end and achievement 181 is granted. Returns whether it happened.
    pub fn doom_reality(&mut self) -> (r: bool)
        ensures
            r == (old(self).has_imaginary_upgrade(25) && !old(self).celestials.pelle.doomed),
            !r ==> *final(self) == *old(self),
            r ==> *final(self) == (GameState {
                achievements: final(self).achievements,
                ..old(self).with_pelle(PelleState { doomed: true, ..old(self).celestials.pelle }).runs_cleared()
            }),
            r ==> final(self).achievements@ == old(self).achievements_with(181),
    {
        if !self.pelle_unlocked() || self.is_doomed() {
            return false;
        }
        self.celestials.pelle.doomed = true;
        self.clear_celestial_runs();
        self.unlock_achievement(181);
        true
    }

    /// Armageddon (Pelle's prestige): refused when it should `gain` Remnants
    /// but `can_gain` says none would come; otherwise Ra's charges, Enslaved's
    /// real-time storage and auto-store are cleared, the celestial runs end,
    /// and with Strike 5 a dilated run starts. Returns whether it happened.
    pub fn armageddon(&mut self, gain: bool, can_gain: bool) -> (r: bool)
        ensures
            r == (!gain || can_gain),
            !r ==> *final(self) == *old(self),
            r ==> *final(self) == old(self).armageddon_spec(),
    {
        if gain && !can_gain {
            return false;
        }
        self.armageddon_reset();
        true
    }

    /// Armageddon's reset (see `armageddon_spec`).
    fn armageddon_reset(&mut self)
        ensures
            *final(self) == old(self).armageddon_spec(),
    {
        let strike5 = self.pelle_has_strike(5);
        self.clear_celestial_runs();
        self.clear_ra_charges();
        self.stop_real_time_storage();
        if strike5 {
            self.start_dilation_flag();
        }
    }

    fn clear_ra_charges(&mut self)
        ensures
            *final(self) == old(self).with_ra(RaState { charged: 0, ..old(self).celestials.ra }),
    {
        self.celestials.ra.charged = 0;
    }

    fn stop_real_time_storage(&mut self)
        ensures
            *final(self) == old(self).with_enslaved(EnslavedState {
                is_storing_real: false,
                auto_store_real: false,
                ..old(self).celestials.enslaved
            }),
    {
        self.celestials.enslaved.is_storing_real = false;
        self.celestials.enslaved.auto_store_real = false;
    }

    pub(crate) fn start_dilation_flag(&mut self)
        ensures
            *final(self) == (GameState { dilation: DilationState { active: true, ..old(self).dilation }, ..*old(self) }),
    {
        self.dilation.active = true;
    }

    /// The state with the Enslaved field replaced.
    pub open spec fn with_enslaved(&self, e: EnslavedState) -> GameState {
        GameState { celestials: CelestialsState { enslaved: e, ..self.celestials }, ..*self }
    }

    /// The state after Armageddon's reset.
    pub open spec fn armageddon_spec(&self) -> GameState {
        let a = self.runs_cleared();
        let b = a.with_ra(RaState { charged: 0, ..a.celestials.ra });
        let c = b.with_enslaved(EnslavedState {
            is_storing_real: false,
            auto_store_real: false,
            ..b.celestials.enslaved
        });
        if self.has_strike(5) {
            GameState { dilation: DilationState { active: true, ..c.dilation }, ..c }
        } else {
            c
        }
    }

    /// Whether Rift `i` is unlocked (Strike `i + 1`).
    pub fn pelle_rift_unlocked(&self, i: usize) -> (r: bool)
        requires
            i < 31,
        ensures
            r == self.has_strike((i + 1) as u32),
    {
        self.pelle_has_strike((i + 1) as u32)
    }

    /// Start or stop filling Rift `i` (0–4), when it is unlocked; at most two
    /// Rifts fill at once, so starting a third is refused. Returns whether
    /// the toggle happened.
    pub fn pelle_toggle_rift(&mut self, i: usize) -> (r: bool)
        requires
            i < RIFT_COUNT,
        ensures
            r == (old(self).has_strike((i + 1) as u32)
                && (old(self).celestials.pelle.rifts[i as int].active
                    || active_rifts(old(self).celestials.pelle.rifts@, 5) < 2)),
            !r ==> *final(self) == *old(self),
            r ==> final(self).celestials.pelle.rifts@ == old(self).celestials.pelle.rifts@.update(
                i as int, Rift { active: !old(self).celestials.pelle.rifts[i as int].active }),
            *final(self) == old(self).with_pelle(PelleState {
                rifts: final(self).celestials.pelle.rifts,
                ..old(self).celestials.pelle
            }),
    {
        if !self.pelle_rift_unlocked(i) {
            return false;
        }
        let mut active: usize = 0;
        let mut j: usize = 0;
        while j < RIFT_COUNT
            invariant
                j <= RIFT_COUNT,
                active == active_rifts(self.celestials.pelle.rifts@, j as int),
                active <= j,
            decreases RIFT_COUNT - j,
        {
            if self.celestials.pelle.rifts[j].active {
                active = active + 1;
            }
            j = j + 1;
        }
        let was = self.celestials.pelle.rifts[i].active;
        if !was && active >= 2 {
            return false;
        }
        self.celestials.pelle.rifts[i] = Rift { active: !was };
        true
    }

    /// Buy Pelle rebuyable `id` (0–4) below its cap when `affordable` (the
    /// caller spends the Reality Shards). Returns whether it was bought.
    pub fn buy_pelle_rebuyable(&mut self, id: usize, affordable: bool) -> (r: bool)
        ensures
            r == (id < 5 && old(self).celestials.pelle.rebuyables[id as int] < pelle_rebuyable_cap(id as int)
                && affordable),
            !r ==> *final(self) == *old(self),
            r ==> final(self).celestials.pelle.rebuyables@ == old(self).celestials.pelle.rebuyables@.update(
                id as int, (old(self).celestials.pelle.rebuyables[id as int] + 1) as u32),
            *final(self) == old(self).with_pelle(PelleState {
                rebuyables: final(self).celestials.pelle.rebuyables,
                ..old(self).celestials.pelle
            }),
    {
        if id >= 5 {
            return false;
        }
        let cap: u32 = if id == 0 { 44 } else if id == 1 { 35 } else if id == 2 { 26 } else if id == 3 { 21 } else { 9 };
        if self.celestials.pelle.rebuyables[id] >= cap || !affordable {
            return false;
        }
        self.celestials.pelle.rebuyables[id] = self.celestials.pelle.rebuyables[id] + 1;
        true
    }

    /// Buy Pelle Upgrade `id` (0–22) while Doomed, when not yet bought and
    /// `affordable`. Returns whether it was bought.
    pub fn buy_pelle_upgrade(&mut self, id: u32, affordable: bool) -> (r: bool)
        requires
            old(self).celestials.pelle.doomed ==> id < 32,
        ensures
            r == (old(self).celestials.pelle.doomed && !old(self).has_pelle_upgrade(id) && id < 23 && affordable),
            !r ==> *final(self) == *old(self),
            r ==> *final(self) == old(self).with_pelle(PelleState {
                upgrades: old(self).celestials.pelle.upgrades | (1u32 << id),
                ..old(self).celestials.pelle
            }),
    {
        if !self.is_doomed() || self.pelle_upgrade_bought(id) || id >= 23 {
            return false;
        }
        if !affordable {
            return false;
        }
        self.celestials.pelle.upgrades = self.celestials.pelle.upgrades | (1u32 << id);
        true
    }

    /// Whether the Galaxy Generator is unlocked.
    pub fn galaxy_generator_unlocked(&self) -> (r: bool)
        ensures
            r == self.celestials.pelle.galaxy_generator.unlocked,
    {
        self.celestials.pelle.galaxy_generator.unlocked
    }

    /// Start the Galaxy Generator's Rift sacrifice.
    pub fn galaxy_generator_start_sacrifice(&mut self)
        ensures
            *final(self) == old(self).with_pelle(PelleState {
                galaxy_generator: GalaxyGenerator {
                    sacrifice_active: true,
                    ..old(self).celestials.pelle.galaxy_generator
                },
                ..old(self).celestials.pelle
            }),
    {
        self.celestials.pelle.galaxy_generator.sacrifice_active = true;
    }

    /// Unlock the Galaxy Generator for good (Recursion's last milestone).
    pub fn galaxy_generator_unlock(&mut self)
        ensures
            *final(self) == old(self).with_pelle(PelleState {
                galaxy_generator: GalaxyGenerator {
                    unlocked: true,
                    ..old(self).celestials.pelle.galaxy_generator
                },
                ..old(self).celestials.pelle
            }),
    {
        self.celestials.pelle.galaxy_generator.unlocked = true;
    }

    /// End the running Rift sacrifice once its Rift is drained: the next
    /// phase begins. Nothing happens when no sacrifice runs.
    pub fn galaxy_generator_finish_sacrifice(&mut self)
        requires
            old(self).celestials.pelle.galaxy_generator.phase < u32::MAX,
        ensures
            *final(self) == (if old(self).celestials.pelle.galaxy_generator.sacrifice_active {
                old(self).with_pelle(PelleState {
                    galaxy_generator: GalaxyGenerator {
                        sacrifice_active: false,
                        phase: (old(self).celestials.pelle.galaxy_generator.phase + 1) as u32,
                        ..old(self).celestials.pelle.galaxy_generator
                    },
                    ..old(self).celestials.pelle
                })
            } else {
                *old(self)
            }),
    {
        if self.celestials.pelle.galaxy_generator.sacrifice_active {
            self.celestials.pelle.galaxy_generator.sacrifice_active = false;
            self.celestials.pelle.galaxy_generator.phase = self.celestials.pelle.galaxy_generator.phase + 1;
        }
    }

    /// Trigger Strike `id` (1–5) while Doomed, the first time: Strikes 3, 4
    /// and 5 grant achievements 184, 185 and 187.
    pub fn pelle_trigger_strike(&mut self, id: u32)
        requires
            id < 32,
        ensures
            *final(self) == (if old(self).celestials.pelle.doomed && !old(self).has_strike(id) {
                GameState {
                    achievements: final(self).achievements,
                    ..old(self).with_pelle(PelleState {
                        progress_bits: old(self).celestials.pelle.progress_bits | (1u32 << id),
                        ..old(self).celestials.pelle
                    })
                }
            } else {
                *old(self)
            }),
            final(self).achievements@ == (if old(self).celestials.pelle.doomed && !old(self).has_strike(id)
                && 3 <= id <= 5 {
                old(self).achievements_with(if id == 3 { 184u16 } else if id == 4 { 185u16 } else { 187u16 })
            } else {
                old(self).achievements@
            }),
            !(3 <= id <= 5) ==> final(self).achievements == old(self).achievements,
    {
        if !self.is_doomed() || self.pelle_has_strike(id) {
            return;
        }
        self.celestials.pelle.progress_bits = self.celestials.pelle.progress_bits | (1u32 << id);
        if id == 3 {
            self.unlock_achievement(184);
        } else if id == 4 {
            self.unlock_achievement(185);
        } else if id == 5 {
            self.unlock_achievement(187);
        }
    }
}

} // verus!
