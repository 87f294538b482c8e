//! The game state held by the rules engine, and the membership queries that
//! every module shares (achievements, Time Studies, Perks, Reality Upgrades).
use vstd::prelude::*;
use crate::challenges::NormalChallengeState;
use crate::infinity_challenges::InfinityChallengeState;
use crate::dilation::DilationState;
use crate::glyphs::GlyphState;
use crate::celestials::CelestialsState;
use crate::infinity_dimensions::InfinityDimension;
use crate::util::vec_contains;

verus! {

/// `s` with `id` appended unless it already occurs.
pub open spec fn seq_with(s: Seq<u16>, id: u16) -> Seq<u16> {
    if s.contains(id) { s } else { s.push(id) }
}

/// `seq_with(s, id)` holds exactly what `s` holds, and `id`.
pub proof fn lemma_seq_with_contains(s: Seq<u16>, id: u16, x: u16)
    ensures
        seq_with(s, id).contains(x) == (s.contains(x) || x == id),
{
    if !s.contains(id) {
        let t = s.push(id);
        assert(t[s.len() as int] == id);
        if s.contains(x) {
            let k = choose|k: int| 0 <= k < s.len() && s[k] == x;
            assert(t[k] == x);
        }
        if t.contains(x) && x != id {
            let k = choose|k: int| 0 <= k < t.len() && t[k] == x;
            assert(k < s.len());
            assert(s[k] == x);
        }
    }
}

/// One autobuyer's purchase state (`Autobuyer.isBought`).
pub struct AutobuyerUnlock {
    pub is_bought: bool,
}

/// The purchase state of the autobuyers that challenge rewards unlock.
pub struct Autobuyers {
    /// The 1st–8th Antimatter Dimension autobuyers.
    pub dimensions: [AutobuyerUnlock; 8],
    /// The Tickspeed autobuyer.
    pub tickspeed: AutobuyerUnlock,
}

/// Player options that the rules read.
pub struct Options {
    /// "Automatically retry challenges": a completed challenge stays active.
    pub retry_challenge: bool,
}

/// The purchase counters of one Antimatter Dimension tier.
pub struct DimensionTier {
    /// Dimensions of this tier bought this run.
    pub bought: u64,
    /// Extra cost steps from Normal Challenge 9 / Infinity Challenge 5 bumps.
    pub cost_bumps: u64,
}

/// The purchase counters of Tickspeed upgrades.
pub struct TickspeedState {
    pub bought: u64,
    pub cost_bumps: u64,
}

/// Replicanti state that the rules read.
pub struct ReplicantiState {
    pub unlocked: bool,
    /// Replicanti Galaxies.
    pub galaxies: u32,
}

/// Flags for the "do X without Y" requirements of later upgrades.
pub struct RequirementChecks {
    pub infinity_no_sacrifice: bool,
    pub infinity_no_ad8: bool,
    pub eternity_only_ad8: bool,
    pub eternity_only_ad1: bool,
    pub eternity_no_ad1: bool,
    pub eternity_no_rg: bool,
    pub reality_no_eternities: bool,
    pub reality_no_continuum: bool,
    /// Most glyphs equipped at once this Reality.
    pub reality_max_glyphs: i32,
    /// Most Time Studies held at once this Reality.
    pub reality_max_studies: u32,
}

/// Black Hole state that the rules read.
pub struct BlackHoles {
    pub paused: bool,
}

/// The Reality layer.
pub struct RealityState {
    /// Realities performed.
    pub realities: u32,
    /// Equipped and stored glyphs.
    pub glyphs: GlyphState,
    /// Bought Reality Upgrades (bit `1 << id`).
    pub upgrade_bits: u32,
    /// Bought one-time Imaginary Upgrades (bit `1 << id`, ids 11–25).
    pub imaginary_upgrade_bits: u32,
    /// Purchase counts of the Imaginary rebuyables, ids 1–10.
    pub imaginary_rebuyables: [u32; 10],
}

/// The whole game state read and written by the rules engine.
pub struct GameState {
    /// Normal Challenge run state.
    pub challenge: NormalChallengeState,
    /// Infinity Challenge run state.
    pub infinity_challenge: InfinityChallengeState,
    /// Running Eternity Challenge (`0` = none).
    pub eternity_challenge_current: u8,
    /// The Eternity Challenge whose unlock study is held (`0` = none).
    pub eternity_challenge_unlocked: u8,
    /// Completions of EC1–EC12.
    pub eternity_challenges: [u16; 12],
    /// EC ids whose secondary unlock requirement was met before (bit `1 << id`).
    pub ec_requirement_bits: u32,
    /// Whether the first Big Crunch has happened (Challenges tab open).
    pub infinity_unlocked: bool,
    /// Whether Infinity is broken.
    pub broke_infinity: bool,
    /// Whether the first Eternity has happened.
    pub eternity_unlocked: bool,
    /// Dimension Boosts.
    pub dim_boosts: u32,
    /// Antimatter Galaxies.
    pub galaxies: u32,
    /// Infinities performed, as a whole count (saturating at `u64::MAX`).
    pub infinities: u64,
    /// Eternities performed, as a whole count (saturating at `u64::MAX`).
    pub eternities: u64,
    /// Infinities banked through Eternities (Time Study 191).
    pub infinities_banked: u64,
    /// Bought Infinity Upgrades (bit per `InfinityUpgrade`).
    pub infinity_upgrades: u32,
    /// Bought Break Infinity Upgrades (bit per upgrade).
    pub break_infinity_upgrades: u32,
    /// Break Infinity rebuyable purchase counts.
    pub infinity_rebuyables: [u32; 3],
    /// Bought one-time Eternity Upgrades (bit per `EternityUpgrade`).
    pub eternity_upgrades: u32,
    /// Purchases of the ×5 EP multiplier.
    pub epmult_upgrades: u32,
    /// Purchases of the ×2 IP multiplier.
    pub ip_mult_purchases: u32,
    /// Whether the one-time offline-IP upgrade is bought.
    pub ip_offline_bought: bool,
    /// Antimatter Dimension purchase counters.
    pub dimensions: [DimensionTier; 8],
    /// Infinity Dimension purchase and unlock state.
    pub infinity_dimensions: [InfinityDimension; 8],
    /// Tickspeed purchase counters.
    pub tickspeed: TickspeedState,
    /// Free tickspeed upgrades from Time Shards.
    pub total_tick_gained: u64,
    /// Infinity Dimension purchases left in EC8.
    pub eterc8_ids: u32,
    /// Replicanti purchases left in EC8.
    pub eterc8_repl: u32,
    /// The last-bought Antimatter Dimension tier, 1-indexed (Infinity Challenge 4).
    pub post_c4_tier: u8,
    /// Whether the Time Study tree is respecced on the next Eternity.
    pub respec: bool,
    /// Bought Time Study ids.
    pub time_studies: Vec<u16>,
    /// Bought Perk ids.
    pub perks: Vec<u16>,
    /// Unlocked achievement ids.
    pub achievements: Vec<u16>,
    /// Replicanti.
    pub replicanti: ReplicantiState,
    /// Requirement-tracking flags.
    pub requirement_checks: RequirementChecks,
    /// Black Holes.
    pub black_holes: BlackHoles,
    /// Autobuyer purchase state.
    pub autobuyers: Autobuyers,
    /// Player options.
    pub options: Options,
    /// Time Dilation.
    pub dilation: DilationState,
    /// The Reality layer.
    pub reality: RealityState,
    /// The Celestials.
    pub celestials: CelestialsState,
}

impl GameState {
    /// Whether achievement `id` is unlocked.
    pub open spec fn has_achievement(&self, id: u16) -> bool {
        self.achievements@.contains(id)
    }

    /// Whether Time Study `id` is bought.
    pub open spec fn has_time_study(&self, id: u16) -> bool {
        self.time_studies@.contains(id)
    }

    /// Whether Perk `id` is bought.
    pub open spec fn has_perk(&self, id: u16) -> bool {
        self.perks@.contains(id)
    }

    /// Whether Reality Upgrade `id` is bought.
    pub open spec fn has_reality_upgrade(&self, id: u32) -> bool {
        id < 32 && self.reality.upgrade_bits & (1u32 << id) != 0
    }

    /// `achievements` after unlocking `id`.
    pub open spec fn achievements_with(&self, id: u16) -> Seq<u16> {
        seq_with(self.achievements@, id)
    }

    /// Whether achievement `id` is unlocked.
    pub fn achievement_unlocked(&self, id: u16) -> (r: bool)
        ensures
            r == self.has_achievement(id),
    {
        vec_contains(&self.achievements, id)
    }

    /// Unlock achievement `id` (a no-op when it already is).
    pub fn unlock_achievement(&mut self, id: u16)
        ensures
            final(self).achievements@ == old(self).achievements_with(id),
            *final(self) == (GameState { achievements: final(self).achievements, ..*old(self) }),
    {
        if !self.achievement_unlocked(id) {
            self.achievements.push(id);
        }
    }

    /// Whether Time Study `id` is bought.
    pub fn time_study_bought(&self, id: u16) -> (r: bool)
        ensures
            r == self.has_time_study(id),
    {
        vec_contains(&self.time_studies, id)
    }

    /// Whether Perk `id` is bought.
    pub fn perk_bought(&self, id: u16) -> (r: bool)
        ensures
            r == self.has_perk(id),
    {
        vec_contains(&self.perks, id)
    }

    /// Whether Reality Upgrade `id` is bought.
    pub fn reality_upgrade_bought(&self, id: u32) -> (r: bool)
        ensures
            r == self.has_reality_upgrade(id),
    {
        id < 32 && self.reality.upgrade_bits & (1u32 << id) != 0
    }

    /// Whether the Reality layer has been reached (at least one Reality).
    pub fn reality_unlocked(&self) -> (r: bool)
        ensures
            r == (self.reality.realities > 0),
    {
        self.reality.realities > 0
    }
}

} // verus!
