use ad_core::celestials::effarig::{
    EffarigStage, EFFARIG_UNLOCK_ADJUSTER, EFFARIG_UNLOCK_ETERNITY, EFFARIG_UNLOCK_INFINITY,
    EFFARIG_UNLOCK_REALITY, EFFARIG_UNLOCK_RUN,
};
use ad_core::celestials::enslaved::ENSLAVED_UNLOCK_RUN;
use ad_core::celestials::pelle::RIFT_VACUUM;
use ad_core::celestials::ra::{
    PET_EFFARIG, PET_TERESA, RA_UNLOCK_CHARGED_INFINITY, RA_UNLOCK_EFFARIG_MEMORIES,
    RA_UNLOCK_GLYPH_ALCHEMY, RA_UNLOCK_HARD_V,
};
use ad_core::celestials::v::V_UNLOCK_AUTO_AUTO_CLEAN;
use ad_core::celestials::teresa::{
    PERK_SHOP_AUTO_SPEED, PERK_SHOP_BULK_DILATION, PERK_SHOP_RM_MULT, TERESA_UNLOCK_SHOP,
};
use ad_core::celestials::Celestial;
use ad_core::GameState;

fn realitied_game() -> GameState {
    let mut game = GameState::new();
    game.reality.realities = 1;
    game
}

fn effarig_game() -> GameState {
    let mut game = realitied_game();
    // Teresa's effarig threshold (unlocks Effarig).
    game.celestials.teresa.unlock_bits |= 1 << 3;
    game
}

fn enslaved_game() -> GameState {
    let mut game = realitied_game();
    game.celestials.effarig.unlock_bits |= 1 << EFFARIG_UNLOCK_ETERNITY;
    game
}

fn pelle_game() -> GameState {
    let mut game = realitied_game();
    game.reality.imaginary_upgrade_bits |= 1 << 25;
    game
}

fn ra_game() -> GameState {
    let mut game = realitied_game();
    for i in 0..6 {
        game.celestials.v.run_unlocks[i] = 6;
    }
    assert!(game.v_space_theorems() >= 36);
    game
}

#[test]
fn buying_unlocks_spends_relic_shards() {
    let mut game = effarig_game();
    // 1e8 relic shards cover the 1e7 adjuster but not the 5e11 run unlock.
    assert!(game.effarig_buy_unlock(EFFARIG_UNLOCK_ADJUSTER, true));
    assert!(game.celestials.effarig.unlock_bought(EFFARIG_UNLOCK_ADJUSTER));
    assert!(!game.effarig_buy_unlock(EFFARIG_UNLOCK_RUN, false));
    assert!(!game.celestials.effarig.unlock_bought(EFFARIG_UNLOCK_RUN));
    // An unlock is bought once.
    assert!(!game.effarig_buy_unlock(EFFARIG_UNLOCK_ADJUSTER, true));
}

#[test]
fn stage_advances_with_unlock_bits() {
    let mut game = effarig_game();
    assert_eq!(game.effarig_current_stage(), EffarigStage::Infinity);
    game.celestials.effarig.unlock_bits |= 1 << EFFARIG_UNLOCK_INFINITY;
    assert_eq!(game.effarig_current_stage(), EffarigStage::Eternity);
    game.celestials.effarig.unlock_bits |= 1 << EFFARIG_UNLOCK_ETERNITY;
    assert_eq!(game.effarig_current_stage(), EffarigStage::Reality);
    game.celestials.effarig.unlock_bits |= 1 << EFFARIG_UNLOCK_REALITY;
    assert_eq!(game.effarig_current_stage(), EffarigStage::Completed);
}

#[test]
fn glyph_level_cap_by_stage() {
    let mut game = effarig_game();
    assert_eq!(game.effarig_glyph_level_cap(), 100);
    game.celestials.effarig.unlock_bits |= 1 << EFFARIG_UNLOCK_INFINITY;
    assert_eq!(game.effarig_glyph_level_cap(), 1500);
    game.celestials.effarig.unlock_bits |= 1 << EFFARIG_UNLOCK_ETERNITY;
    assert_eq!(game.effarig_glyph_level_cap(), 2000);
}

#[test]
fn infinity_stage_completion_unlocks_and_exits() {
    let mut game = effarig_game();
    game.celestials.effarig.run = true;
    game.effarig_on_big_crunch();
    assert!(game.celestials.effarig.unlock_bought(EFFARIG_UNLOCK_INFINITY));
    assert!(!game.celestials.effarig.run);
}

#[test]
fn run_unlock_needs_the_glyph_requirement() {
    let mut game = enslaved_game();
    // Twice the run price is stored, so the unlock is affordable.
    let missing = game.enslaved_run_requirement_met(0, false);
    assert!(!missing);
    assert!(!game.can_buy_enslaved_unlock(ENSLAVED_UNLOCK_RUN, true, missing));
    let met = game.enslaved_run_requirement_met(5000, true);
    assert!(met);
    assert!(game.can_buy_enslaved_unlock(ENSLAVED_UNLOCK_RUN, true, met));
    assert!(game.buy_enslaved_unlock(ENSLAVED_UNLOCK_RUN, true, met));
    assert!(game.enslaved_run_unlocked());
}

#[test]
fn entering_teresa_reality_sets_the_run_flag_and_clears_others() {
    let mut game = realitied_game();
    game.celestials.teresa.unlock_bits |= 1;
    game.celestials.v.run = true;
    assert!(game.start_celestial_reality(Celestial::Teresa));
    assert!(game.celestials.teresa.run);
    assert!(!game.celestials.v.run);
    assert!(game.is_in_celestial_reality());
}

#[test]
fn dooming_sets_the_flag() {
    let mut game = pelle_game();
    assert!(!game.is_doomed());
    assert!(game.doom_reality());
    assert!(game.is_doomed());
    assert!(!game.doom_reality());
}

#[test]
fn strikes_unlock_rifts() {
    let mut game = pelle_game();
    game.celestials.pelle.doomed = true;
    assert!(!game.pelle_rift_unlocked(RIFT_VACUUM));
    game.pelle_trigger_strike(1);
    assert!(game.pelle_rift_unlocked(RIFT_VACUUM));
    assert!(game.pelle_has_strike(1));
}

#[test]
fn ra_unlocks_at_36_space_theorems() {
    let game = ra_game();
    assert!(game.ra_is_unlocked());
    let locked = GameState::new();
    assert!(!locked.ra_is_unlocked());
}

#[test]
fn leveling_teresa_unlocks_effarig_memory() {
    let mut game = ra_game();
    // Enough memories for seven level-ups: Teresa goes from level 1 to 8.
    let gained = game.ra_level_up_max(PET_TERESA, 7);
    assert!(gained >= 7);
    assert!(game.ra_has_unlock(RA_UNLOCK_EFFARIG_MEMORIES));
    assert!(game.ra_pet_unlocked(PET_EFFARIG));
}

#[test]
fn total_charges_scale_with_teresa_level() {
    let mut game = ra_game();
    game.celestials.ra.unlock_bits |= 1 << RA_UNLOCK_CHARGED_INFINITY;
    game.celestials.ra.pets[PET_TERESA].level = 10;
    assert_eq!(game.ra_total_charges(), 5);
    game.celestials.ra.pets[PET_TERESA].level = 25;
    assert_eq!(game.ra_total_charges(), 12);
}

#[test]
fn remembrance_requires_total_level_20() {
    let mut game = ra_game();
    assert!(!game.ra_remembrance_unlocked());
    game.celestials.ra.unlock_bits |= 1 << RA_UNLOCK_EFFARIG_MEMORIES;
    game.celestials.ra.pets[PET_TERESA].level = 12;
    game.celestials.ra.pets[PET_EFFARIG].level = 8;
    assert!(game.ra_remembrance_unlocked());
    assert!(game.ra_set_remembrance(PET_TERESA as i8));
    assert_eq!(game.celestials.ra.pet_with_remembrance, PET_TERESA as i8);
}

#[test]
fn perk_shop_caps_and_effects() {
    let mut game = realitied_game();
    game.celestials.teresa.unlock_bits |= 1u32 << TERESA_UNLOCK_SHOP;
    // 1e9 Perk Points cover every purchase: rmMult reaches its 2048 cap after
    // 11 buys.
    assert_eq!(game.perk_shop_cost(PERK_SHOP_RM_MULT), 1);
    for _ in 0..20 {
        game.buy_perk_shop(PERK_SHOP_RM_MULT, true);
    }
    assert_eq!(game.perk_shop_bought(PERK_SHOP_RM_MULT), 11);
    assert!(game.perk_shop_capped(PERK_SHOP_RM_MULT));
    assert!(!game.perk_shop_can_buy(PERK_SHOP_RM_MULT, true));
}

#[test]
fn perk_shop_needs_the_shop_and_doubles_costs() {
    let mut game = realitied_game();
    assert!(!game.buy_perk_shop(PERK_SHOP_BULK_DILATION, true));
    game.celestials.teresa.unlock_bits |= 1u32 << TERESA_UNLOCK_SHOP;
    assert_eq!(game.perk_shop_cost(PERK_SHOP_BULK_DILATION), 100);
    assert!(!game.buy_perk_shop(PERK_SHOP_BULK_DILATION, false));
    assert!(game.buy_perk_shop(PERK_SHOP_BULK_DILATION, true));
    assert_eq!(game.perk_shop_cost(PERK_SHOP_BULK_DILATION), 200);
    for _ in 0..3 {
        assert!(game.buy_perk_shop(PERK_SHOP_BULK_DILATION, true));
    }
    // 100 · 2^4 = 1600: capped.
    assert!(game.perk_shop_capped(PERK_SHOP_BULK_DILATION));
    assert_eq!(game.perk_shop_bought(PERK_SHOP_BULK_DILATION), 4);
    assert_eq!(game.perk_shop_cost(PERK_SHOP_AUTO_SPEED), 1000);
}

#[test]
fn completing_a_celestial_reality_rewards_the_run() {
    let mut game = realitied_game();
    game.celestials.effarig.run = true;
    game.celestials.effarig.unlock_bits |= 1 << EFFARIG_UNLOCK_INFINITY;
    game.celestials.effarig.unlock_bits |= 1 << EFFARIG_UNLOCK_ETERNITY;
    game.celestial_reality_completion_hooks();
    assert_eq!(game.effarig_current_stage(), EffarigStage::Completed);
    assert!(!game.celestials.enslaved.completed);

    let mut game = enslaved_game();
    game.celestials.enslaved.run = true;
    game.celestial_reality_completion_hooks();
    assert!(game.celestials.enslaved.completed);
    assert!(!game.celestials.effarig.unlock_bought(EFFARIG_UNLOCK_REALITY));
}

#[test]
fn v_unlock_effects_depend_on_pelle_and_ra() {
    let mut game = realitied_game();
    game.celestials.v.unlock_bits |= 1 << V_UNLOCK_AUTO_AUTO_CLEAN;
    assert!(game.v_auto_auto_clean_applies());
    game.celestials.pelle.doomed = true;
    assert!(!game.v_auto_auto_clean_applies());
    assert!(!game.v_is_flipped());
    game.celestials.ra.unlock_bits |= 1 << RA_UNLOCK_HARD_V;
    assert!(game.v_is_flipped());
}

#[test]
fn momentum_unlocks_with_effarig_level() {
    let mut game = realitied_game();
    game.celestials.ra.unlock_bits |= 1 << RA_UNLOCK_GLYPH_ALCHEMY;
    game.celestials.ra.unlock_bits |= 1 << RA_UNLOCK_EFFARIG_MEMORIES;
    assert!(!game.alchemy_momentum_unlocked());
    game.celestials.ra.pets[PET_EFFARIG].level = 25;
    assert!(game.alchemy_momentum_unlocked());
}

#[test]
fn v_reduction_steps_per_achievement() {
    assert_eq!(GameState::v_reduction_step_size(5), 100);
    assert_eq!(GameState::v_reduction_step_size(7), 2);
    assert_eq!(GameState::v_reduction_step_size(0), 1);
}

#[test]
fn imaginary_upgrade_15_unlocks_laitela_and_seeds_dmd() {
    let mut game = realitied_game();
    // 1e10 iM covers it; huge antimatter without ID1 meets its requirement.
    assert!(game.imaginary_upgrade_available(15, true));
    assert!(game.buy_imaginary_upgrade(15, true, true));
    assert!(game.laitela_unlocked());
    assert!(game.dmd_unlocked(0));
    assert!(!game.imaginary_upgrade_available(15, true));
}

#[test]
fn pelle_rebuyable_respects_cap() {
    let mut game = pelle_game();
    game.celestials.pelle.doomed = true;
    game.celestials.pelle.rebuyables[4] = 9;
    assert!(!game.buy_pelle_rebuyable(4, true));
    game.celestials.pelle.rebuyables[4] = 8;
    assert!(game.buy_pelle_rebuyable(4, true));
    assert_eq!(game.celestials.pelle.rebuyables[4], 9);
}

#[test]
fn main_unlock_needs_all_six_conditions() {
    let mut game = realitied_game();
    assert!(!game.v_can_unlock_celestial(false));
    // 10000 Realities, 1e70 Eternities, 1e160 Infinities, 1e320 DT,
    // 1e320000 Replicanti and 1e60 RM: every condition met.
    assert!(game.v_can_unlock_celestial(true));
    assert!(game.v_unlock_celestial(true));
    assert!(game.v_celestial_unlocked());
    assert!(!game.v_can_unlock_celestial(true));
}

#[test]
fn annihilation_needs_unlock_and_dm() {
    let mut game = realitied_game();
    for id in 15..=18 {
        game.reality.imaginary_upgrade_bits |= 1u32 << id;
    }
    assert!(!game.annihilate(false, true));
    game.reality.imaginary_upgrade_bits |= 1u32 << 19;
    assert!(!game.annihilate(false, false));
    game.celestials.laitela.dimensions[0].interval_upgrades = 4;
    assert!(game.annihilate(false, true));
    assert_eq!(game.celestials.laitela.dimensions[0].interval_upgrades, 0);
}

#[test]
fn v_tab_shows_once_the_main_conditions_are_met() {
    let mut game = realitied_game();
    game.reality.realities = 10_000;
    // Neither V nor Enslaved unlocked, conditions not all met: hidden.
    assert!(!game.v_tab_available(false));
    // All six main conditions met: the unlock prompt shows.
    assert!(game.v_tab_available(true));
    assert!(game.v_unlock_celestial(true));
    assert!(game.v_tab_available(false));
}

#[test]
fn remembrance_toggled_twice_comes_back() {
    let mut game = ra_game();
    game.celestials.ra.unlock_bits |= 1 << RA_UNLOCK_EFFARIG_MEMORIES;
    game.celestials.ra.pets[PET_TERESA].level = 12;
    game.celestials.ra.pets[PET_EFFARIG].level = 8;
    game.celestials.ra.pet_with_remembrance = -1;
    assert!(game.ra_set_remembrance(PET_EFFARIG as i8));
    assert!(game.ra_set_remembrance(PET_EFFARIG as i8));
    assert_eq!(game.celestials.ra.pet_with_remembrance, -1);
    // From another pet, two calls end with none.
    game.celestials.ra.pet_with_remembrance = PET_TERESA as i8;
    assert!(game.ra_set_remembrance(PET_EFFARIG as i8));
    assert!(game.ra_set_remembrance(PET_EFFARIG as i8));
    assert_eq!(game.celestials.ra.pet_with_remembrance, -1);
}
