//! The state of a fresh game.
use vstd::prelude::*;
use crate::state::{GameState, Autobuyers, Options, TickspeedState, ReplicantiState, RequirementChecks,
    BlackHoles, RealityState};
use crate::challenges::NormalChallengeState;
use crate::infinity_challenges::InfinityChallengeState;
use crate::dilation::DilationState;
use crate::glyphs::{Glyph, GlyphState};
use crate::celestials::CelestialsState;
use crate::celestials::teresa::TeresaState;
use crate::celestials::effarig::EffarigState;
use crate::celestials::enslaved::EnslavedState;
use crate::celestials::v::VState;
use crate::celestials::ra::{RaPet, RaState};
use crate::celestials::alchemy::AlchemyResource;
use crate::celestials::laitela::{LaitelaState, DarkMatterDimension};
use crate::celestials::pelle::{PelleState, Rift, GalaxyGenerator};
use crate::eternity::{cleared_dimensions, cleared_infinity_dimensions, uniform_autobuyers, new_dimensions,
    new_infinity_dimensions, new_autobuyers};

verus! {

/// The requirement flags of a fresh game: every "no/only" requirement still
/// met, no glyphs or studies held yet.
pub open spec fn fresh_requirement_checks() -> RequirementChecks {
    RequirementChecks {
        infinity_no_sacrifice: true,
        infinity_no_ad8: true,
        eternity_only_ad8: true,
        eternity_only_ad1: true,
        eternity_no_ad1: true,
        eternity_no_rg: true,
        reality_no_eternities: true,
        reality_no_continuum: true,
        reality_max_glyphs: 0,
        reality_max_studies: 0,
    }
}

/// Ra's four pets at the start: Teresa's at level 1.
pub open spec fn fresh_ra_pets() -> [RaPet; 4] {
    [
        RaPet { level: 1, memory_upgrades: 0, chunk_upgrades: 0 },
        RaPet { level: 1, memory_upgrades: 0, chunk_upgrades: 0 },
        RaPet { level: 1, memory_upgrades: 0, chunk_upgrades: 0 },
        RaPet { level: 1, memory_upgrades: 0, chunk_upgrades: 0 },
    ]
}

/// The celestials of a fresh game: nothing unlocked or running.
pub open spec fn fresh_celestials() -> CelestialsState {
    CelestialsState {
        teresa: TeresaState { unlock_bits: 0, run: false, perk_shop: [0u32, 0u32, 0u32, 0u32, 0u32] },
        effarig: EffarigState { unlock_bits: 0, run: false },
        enslaved: EnslavedState {
            is_storing: false,
            is_storing_real: false,
            auto_store_real: false,
            unlock_bits: 0,
            run: false,
            completed: false,
            tesseracts: 0,
        },
        v: VState {
            unlock_bits: 0,
            run: false,
            run_unlocks: [0u32, 0u32, 0u32, 0u32, 0u32, 0u32, 0u32, 0u32, 0u32],
            goal_reduction_steps: [0u32, 0u32, 0u32, 0u32, 0u32, 0u32, 0u32, 0u32, 0u32],
            st_spent: 0,
        },
        ra: RaState {
            pets: fresh_ra_pets(),
            unlock_bits: 0,
            run: false,
            charged: 0,
            dis_charge: false,
            pet_with_remembrance: -1i8,
            alchemy: fresh_alchemy(),
        },
        laitela: LaitelaState {
            singularity_cap_increases: 0,
            run: false,
            difficulty_tier: 0,
            dimensions: crate::celestials::laitela::cleared_dmds(),
            disable_continuum: false,
        },
        pelle: PelleState {
            doomed: false,
            upgrades: 0,
            rebuyables: [0u32, 0u32, 0u32, 0u32, 0u32],
            gg_rebuyables: [0u32, 0u32, 0u32, 0u32, 0u32],
            rifts: [Rift { active: false }, Rift { active: false }, Rift { active: false },
                Rift { active: false }, Rift { active: false }],
            progress_bits: 0,
            galaxy_generator: GalaxyGenerator { unlocked: false, phase: 0, sacrifice_active: false },
        },
    }
}

/// Every alchemy reaction off.
pub open spec fn fresh_alchemy() -> [AlchemyResource; 21] {
    [
        AlchemyResource { reaction: false }, AlchemyResource { reaction: false }, AlchemyResource { reaction: false },
        AlchemyResource { reaction: false }, AlchemyResource { reaction: false }, AlchemyResource { reaction: false },
        AlchemyResource { reaction: false }, AlchemyResource { reaction: false }, AlchemyResource { reaction: false },
        AlchemyResource { reaction: false }, AlchemyResource { reaction: false }, AlchemyResource { reaction: false },
        AlchemyResource { reaction: false }, AlchemyResource { reaction: false }, AlchemyResource { reaction: false },
        AlchemyResource { reaction: false }, AlchemyResource { reaction: false }, AlchemyResource { reaction: false },
        AlchemyResource { reaction: false }, AlchemyResource { reaction: false }, AlchemyResource { reaction: false },
    ]
}

/// A fresh game, its lists given (each empty; see `GameState::new`).
pub open spec fn fresh_game(
    achievements: Vec<u16>,
    time_studies: Vec<u16>,
    perks: Vec<u16>,
    dilation_studies: Vec<u8>,
    active: Vec<Glyph>,
    inventory: Vec<Glyph>,
) -> GameState {
    GameState {
        challenge: NormalChallengeState { current: 0, completed: 0 },
        infinity_challenge: InfinityChallengeState { current: 0, completed: 0 },
        eternity_challenge_current: 0,
        eternity_challenge_unlocked: 0,
        eternity_challenges: [0u16, 0u16, 0u16, 0u16, 0u16, 0u16, 0u16, 0u16, 0u16, 0u16, 0u16, 0u16],
        ec_requirement_bits: 0,
        infinity_unlocked: false,
        broke_infinity: false,
        eternity_unlocked: false,
        dim_boosts: 0,
        galaxies: 0,
        infinities: 0,
        eternities: 0,
        infinities_banked: 0,
        infinity_upgrades: 0,
        break_infinity_upgrades: 0,
        infinity_rebuyables: [0u32, 0u32, 0u32],
        eternity_upgrades: 0,
        epmult_upgrades: 0,
        ip_mult_purchases: 0,
        ip_offline_bought: false,
        dimensions: cleared_dimensions(),
        infinity_dimensions: cleared_infinity_dimensions(),
        tickspeed: TickspeedState { bought: 0, cost_bumps: 0 },
        total_tick_gained: 0,
        eterc8_ids: 50,
        eterc8_repl: 40,
        post_c4_tier: 0,
        respec: false,
        time_studies,
        perks,
        achievements,
        replicanti: ReplicantiState { unlocked: false, galaxies: 0 },
        requirement_checks: fresh_requirement_checks(),
        black_holes: BlackHoles { paused: false },
        autobuyers: uniform_autobuyers(false),
        options: Options { retry_challenge: false },
        dilation: DilationState {
            studies: dilation_studies,
            active: false,
            base_tachyon_galaxies: 0,
            upgrades: 0,
            rebuyables: [0u32, 0u32, 0u32],
        },
        reality: RealityState {
            realities: 0,
            glyphs: GlyphState { active, inventory, protected_rows: 2 },
            upgrade_bits: 0,
            imaginary_upgrade_bits: 0,
            imaginary_rebuyables: [0u32, 0u32, 0u32, 0u32, 0u32, 0u32, 0u32, 0u32, 0u32, 0u32],
        },
        celestials: fresh_celestials(),
    }
}

fn new_celestials() -> (r: CelestialsState)
    ensures
        r == fresh_celestials(),
{
    CelestialsState {
        teresa: TeresaState { unlock_bits: 0, run: false, perk_shop: [0, 0, 0, 0, 0] },
        effarig: EffarigState { unlock_bits: 0, run: false },
        enslaved: EnslavedState {
            is_storing: false,
            is_storing_real: false,
            auto_store_real: false,
            unlock_bits: 0,
            run: false,
            completed: false,
            tesseracts: 0,
        },
        v: VState {
            unlock_bits: 0,
            run: false,
            run_unlocks: [0, 0, 0, 0, 0, 0, 0, 0, 0],
            goal_reduction_steps: [0, 0, 0, 0, 0, 0, 0, 0, 0],
            st_spent: 0,
        },
        ra: RaState {
            pets: [
                RaPet { level: 1, memory_upgrades: 0, chunk_upgrades: 0 },
                RaPet { level: 1, memory_upgrades: 0, chunk_upgrades: 0 },
                RaPet { level: 1, memory_upgrades: 0, chunk_upgrades: 0 },
                RaPet { level: 1, memory_upgrades: 0, chunk_upgrades: 0 },
            ],
            unlock_bits: 0,
            run: false,
            charged: 0,
            dis_charge: false,
            pet_with_remembrance: -1,
            alchemy: [
                AlchemyResource { reaction: false }, AlchemyResource { reaction: false }, AlchemyResource { reaction: false },
                AlchemyResource { reaction: false }, AlchemyResource { reaction: false }, AlchemyResource { reaction: false },
                AlchemyResource { reaction: false }, AlchemyResource { reaction: false }, AlchemyResource { reaction: false },
                AlchemyResource { reaction: false }, AlchemyResource { reaction: false }, AlchemyResource { reaction: false },
                AlchemyResource { reaction: false }, AlchemyResource { reaction: false }, AlchemyResource { reaction: false },
                AlchemyResource { reaction: false }, AlchemyResource { reaction: false }, AlchemyResource { reaction: false },
                AlchemyResource { reaction: false }, AlchemyResource { reaction: false }, AlchemyResource { reaction: false },
            ],
        },
        laitela: LaitelaState {
            singularity_cap_increases: 0,
            run: false,
            difficulty_tier: 0,
            dimensions: [
                DarkMatterDimension { interval_upgrades: 0, power_dm_upgrades: 0, power_de_upgrades: 0, ascension_count: 0 },
                DarkMatterDimension { interval_upgrades: 0, power_dm_upgrades: 0, power_de_upgrades: 0, ascension_count: 0 },
                DarkMatterDimension { interval_upgrades: 0, power_dm_upgrades: 0, power_de_upgrades: 0, ascension_count: 0 },
                DarkMatterDimension { interval_upgrades: 0, power_dm_upgrades: 0, power_de_upgrades: 0, ascension_count: 0 },
            ],
            disable_continuum: false,
        },
        pelle: PelleState {
            doomed: false,
            upgrades: 0,
            rebuyables: [0, 0, 0, 0, 0],
            gg_rebuyables: [0, 0, 0, 0, 0],
            rifts: [Rift { active: false }, Rift { active: false }, Rift { active: false },
                Rift { active: false }, Rift { active: false }],
            progress_bits: 0,
            galaxy_generator: GalaxyGenerator { unlocked: false, phase: 0, sacrifice_active: false },
        },
    }
}

impl GameState {
    /// A fresh game: nothing bought, unlocked or running, every list empty,
    /// two protected glyph rows, EC8's 50 Infinity Dimension and 40
    /// Replicanti purchases, and Teresa's Ra pet at level 1.
    pub fn new() -> (r: GameState)
        ensures
            r == fresh_game(r.achievements, r.time_studies, r.perks, r.dilation.studies,
                r.reality.glyphs.active, r.reality.glyphs.inventory),
            r.achievements@ == Seq::<u16>::empty(),
            r.time_studies@ == Seq::<u16>::empty(),
            r.perks@ == Seq::<u16>::empty(),
            r.dilation.studies@ == Seq::<u8>::empty(),
            r.reality.glyphs.active@ == Seq::<Glyph>::empty(),
            r.reality.glyphs.inventory@ == Seq::<Glyph>::empty(),
    {
        GameState {
            challenge: NormalChallengeState { current: 0, completed: 0 },
            infinity_challenge: InfinityChallengeState { current: 0, completed: 0 },
            eternity_challenge_current: 0,
            eternity_challenge_unlocked: 0,
            eternity_challenges: [0, 0, 0, 0, 0, 0, 0, 0, 0, 0, 0, 0],
            ec_requirement_bits: 0,
            infinity_unlocked: false,
            broke_infinity: false,
            eternity_unlocked: false,
            dim_boosts: 0,
            galaxies: 0,
            infinities: 0,
            eternities: 0,
            infinities_banked: 0,
            infinity_upgrades: 0,
            break_infinity_upgrades: 0,
            infinity_rebuyables: [0, 0, 0],
            eternity_upgrades: 0,
            epmult_upgrades: 0,
            ip_mult_purchases: 0,
            ip_offline_bought: false,
            dimensions: new_dimensions(),
            infinity_dimensions: new_infinity_dimensions(),
            tickspeed: TickspeedState { bought: 0, cost_bumps: 0 },
            total_tick_gained: 0,
            eterc8_ids: 50,
            eterc8_repl: 40,
            post_c4_tier: 0,
            respec: false,
            time_studies: Vec::new(),
            perks: Vec::new(),
            achievements: Vec::new(),
            replicanti: ReplicantiState { unlocked: false, galaxies: 0 },
            requirement_checks: RequirementChecks {
                infinity_no_sacrifice: true,
                infinity_no_ad8: true,
                eternity_only_ad8: true,
                eternity_only_ad1: true,
                eternity_no_ad1: true,
                eternity_no_rg: true,
                reality_no_eternities: true,
                reality_no_continuum: true,
                reality_max_glyphs: 0,
                reality_max_studies: 0,
            },
            black_holes: BlackHoles { paused: false },
            autobuyers: new_autobuyers(false),
            options: Options { retry_challenge: false },
            dilation: DilationState {
                studies: Vec::new(),
                active: false,
                base_tachyon_galaxies: 0,
                upgrades: 0,
                rebuyables: [0, 0, 0],
            },
            reality: RealityState {
                realities: 0,
                glyphs: GlyphState { active: Vec::new(), inventory: Vec::new(), protected_rows: 2 },
                upgrade_bits: 0,
                imaginary_upgrade_bits: 0,
                imaginary_rebuyables: [0, 0, 0, 0, 0, 0, 0, 0, 0, 0],
            },
            celestials: new_celestials(),
        }
    }
}

} // verus!
