use ad_core::infinity_upgrades::{dim_pair_upgrade, InfinityUpgrade, ALL_INFINITY_UPGRADES};

#[test]
fn save_id_round_trips() {
    for u in ALL_INFINITY_UPGRADES {
        assert_eq!(InfinityUpgrade::from_save_id(u.save_id()), Some(u));
    }
    assert_eq!(InfinityUpgrade::from_save_id("nonexistent"), None);
}

use ad_core::GameState;

#[test]
fn column_prerequisites_gate_purchase() {
    let mut game = GameState::new();
    assert!(!game.can_buy_infinity_upgrade(InfinityUpgrade::Dim18Mult, true));
    assert!(game.buy_infinity_upgrade(InfinityUpgrade::TotalTimeMult, true));
    assert!(game.can_buy_infinity_upgrade(InfinityUpgrade::Dim18Mult, true));
    assert!(game.buy_infinity_upgrade(InfinityUpgrade::Dim18Mult, true));
    assert!(game.infinity_upgrade_bought(InfinityUpgrade::Dim18Mult));
}

#[test]
fn purchase_spends_ip_and_is_idempotent() {
    let mut game = GameState::new();
    assert!(game.buy_infinity_upgrade(InfinityUpgrade::Buy10Mult, true));
    assert!(!game.buy_infinity_upgrade(InfinityUpgrade::Buy10Mult, true));
}

#[test]
fn cannot_buy_without_enough_ip() {
    let game = GameState::new();
    assert!(!game.can_buy_infinity_upgrade(InfinityUpgrade::GalaxyBoost, false));
}

#[test]
fn reset_boost_and_galaxy_strength() {
    let mut game = GameState::new();
    assert_eq!(game.reset_boost_reduction(), 0);
    game.buy_infinity_upgrade(InfinityUpgrade::TotalTimeMult, true);
    game.buy_infinity_upgrade(InfinityUpgrade::Dim18Mult, true);
    game.buy_infinity_upgrade(InfinityUpgrade::Dim36Mult, true);
    game.buy_infinity_upgrade(InfinityUpgrade::ResetBoost, true);
    assert_eq!(game.reset_boost_reduction(), 9);
}

#[test]
fn skip_resets_raise_boosts_on_purchase() {
    let mut game = GameState::new();
    game.buy_infinity_upgrade(InfinityUpgrade::SkipReset1, true);
    assert_eq!(game.dim_boosts, 1);
    game.buy_infinity_upgrade(InfinityUpgrade::SkipReset2, true);
    assert_eq!(game.dim_boosts, 2);
    game.buy_infinity_upgrade(InfinityUpgrade::SkipReset3, true);
    game.buy_infinity_upgrade(InfinityUpgrade::SkipResetGalaxy, true);
    assert_eq!(game.dim_boosts, 4);
    assert_eq!(game.galaxies, 1);
}

#[test]
fn reset_boost_reduces_boost_and_galaxy_requirements() {
    let mut game = GameState::new();
    let boost_before = game.dim_boost_requirement().1;
    let galaxy_before = game.galaxy_requirement(0).unwrap();

    game.buy_infinity_upgrade(InfinityUpgrade::TotalTimeMult, true);
    game.buy_infinity_upgrade(InfinityUpgrade::Dim18Mult, true);
    game.buy_infinity_upgrade(InfinityUpgrade::Dim36Mult, true);
    game.buy_infinity_upgrade(InfinityUpgrade::ResetBoost, true);

    assert_eq!(game.dim_boost_requirement().1, boost_before - 9);
    assert_eq!(game.galaxy_requirement(0).unwrap(), galaxy_before - 9);
}

#[test]
fn skip_reset_galaxy_restores_boosts_and_galaxy_on_crunch() {
    let mut game = GameState::new();
    game.buy_infinity_upgrade(InfinityUpgrade::SkipReset1, true);
    game.buy_infinity_upgrade(InfinityUpgrade::SkipReset2, true);
    game.buy_infinity_upgrade(InfinityUpgrade::SkipReset3, true);
    game.buy_infinity_upgrade(InfinityUpgrade::SkipResetGalaxy, true);

    assert!(game.big_crunch(true));
    assert_eq!(game.dim_boosts, 4);
    assert_eq!(game.galaxies, 1);
}

#[test]
fn ip_mult_gated_on_achievement_41() {
    let mut game = GameState::new();
    assert!(!game.can_buy_ip_mult(true));
    game.unlock_achievement(41);
    assert!(game.can_buy_ip_mult(true));
}

#[test]
fn ip_mult_single_purchase_counts_and_stops_at_the_cap() {
    let mut game = GameState::new();
    game.unlock_achievement(41);
    assert!(game.buy_ip_mult(true));
    assert_eq!(game.ip_mult_purchases, 1);
    assert!(!game.buy_ip_mult(false));
    game.ip_mult_purchases = 3_299_999;
    assert!(game.ip_mult_capped());
    assert!(!game.buy_ip_mult(true));
    game.celestials.pelle.doomed = true;
    game.ip_mult_purchases = 0;
    assert!(!game.can_buy_ip_mult(true));
}

#[test]
fn ip_offline_purchase_needs_achievement_41_once() {
    let mut game = GameState::new();
    assert!(!game.buy_ip_offline(true));
    game.unlock_achievement(41);
    assert!(game.buy_ip_offline(true));
    assert!(game.ip_offline_bought);
    assert!(!game.buy_ip_offline(true));
}

#[test]
fn sixteen_upgrades_unlock_achievement_41() {
    let mut game = GameState::new();
    for u in ALL_INFINITY_UPGRADES {
        assert!(game.buy_infinity_upgrade(u, true));
    }
    assert!(game.achievement_unlocked(41));
}

#[test]
fn upgrade_bits_and_requirements_follow_the_grid() {
    assert_eq!(InfinityUpgrade::TotalTimeMult.bit(), 1);
    assert_eq!(InfinityUpgrade::SkipResetGalaxy.bit(), 1 << 15);
    assert_eq!(InfinityUpgrade::TotalTimeMult.required_upgrade(), None);
    assert_eq!(InfinityUpgrade::Dim18Mult.required_upgrade(), Some(InfinityUpgrade::TotalTimeMult));
    assert_eq!(InfinityUpgrade::SkipResetGalaxy.required_upgrade(), Some(InfinityUpgrade::SkipReset3));
}

#[test]
fn paired_dimension_upgrades_match_tiers() {
    assert_eq!(dim_pair_upgrade(0), Some(InfinityUpgrade::Dim18Mult));
    assert_eq!(dim_pair_upgrade(7), Some(InfinityUpgrade::Dim18Mult));
    assert_eq!(dim_pair_upgrade(1), Some(InfinityUpgrade::Dim27Mult));
    assert_eq!(dim_pair_upgrade(5), Some(InfinityUpgrade::Dim36Mult));
    assert_eq!(dim_pair_upgrade(4), Some(InfinityUpgrade::Dim45Mult));
    assert_eq!(dim_pair_upgrade(8), None);
}

#[test]
fn ip_mult_buy_max_spends_the_geometric_series() {
    let mut game = GameState::new();
    game.unlock_achievement(41);
    // 1500 IP: 10 + 100 + 1000 = 1110 buys exactly three.
    assert_eq!(game.buy_max_ip_mult(3, 0), 3);
    assert_eq!(game.ip_mult_purchases, 3);
    // Without achievement 41 nothing is bought.
    let mut locked = GameState::new();
    assert_eq!(locked.buy_max_ip_mult(3, 0), 0);
    assert_eq!(locked.ip_mult_purchases, 0);
}

#[test]
fn ip_mult_steepens_past_the_threshold_and_caps() {
    let mut game = GameState::new();
    game.unlock_achievement(41);
    game.ip_mult_purchases = 2_999_998;
    assert!(!game.ip_mult_has_increased_cost());
    game.ip_mult_purchases = 2_999_999;
    assert!(game.ip_mult_has_increased_cost());
    game.ip_mult_purchases = 3_299_999;
    assert!(game.ip_mult_capped());
    assert!(!game.can_buy_ip_mult(true));
    assert_eq!(game.buy_max_ip_mult(100, 100), 0);
}

#[test]
fn ip_mult_buy_max_crosses_the_threshold_in_one_call() {
    let mut game = GameState::new();
    game.unlock_achievement(41);
    // 1e3000025 IP: the whole ×10 regime, then two purchases at ×1e10.
    let bought = game.buy_max_ip_mult(5_000_000, 2);
    assert_eq!(bought, 2_999_999 + 2);
    assert!(game.ip_mult_purchases > 2_999_999);
    assert!(game.ip_mult_purchases < 3_300_000);
    // Past the cap nothing more.
    assert_eq!(game.buy_max_ip_mult(0, 1_000_000), 3_299_999 - 3_000_001);
    assert!(game.ip_mult_capped());
}
