use ad_core::GameState;

fn dilation_game() -> GameState {
    let mut game = GameState::new();
    game.dilation.studies.push(1);
    game
}

#[test]
fn dilation_study_gating() {
    let mut game = GameState::new();
    game.time_studies = vec![231];
    // EC11/EC12 not fully completed yet (20000 TT, 12900 reached).
    assert!(!game.can_buy_dilation_study(1, true, true, false));
    game.eternity_challenges[10] = 5;
    game.eternity_challenges[11] = 5;
    assert!(game.buy_dilation_study(1, true, true, false));
    assert!(game.dilation_unlocked());
    // The studies chain: 2 then 3, no skipping.
    assert!(!game.can_buy_dilation_study(3, true, true, false));
    assert!(game.buy_dilation_study(2, true, true, false));
    assert!(game.dilation_study_bought(2));
    assert!(!game.dilation_study_bought(3));
    assert!(game.buy_dilation_study(3, true, true, false));
    assert!(game.dilation_study_bought(3));
    // Bought once.
    assert!(!game.buy_dilation_study(3, true, true, false));
}

#[test]
fn galaxy_threshold_upgrade_resets_dt_and_tgs() {
    let mut game = dilation_game();
    game.dilation.base_tachyon_galaxies = 7;
    assert!(game.buy_dilation_upgrade(2, true));
    assert_eq!(game.dilation.base_tachyon_galaxies, 0);
    assert_eq!(game.dilation_rebuyable_count(2), 1);
}

#[test]
fn double_galaxies_upgrade() {
    let mut game = dilation_game();
    assert!(!game.dilation_upgrade_bought(4));
    assert!(game.buy_dilation_upgrade(4, true));
    assert!(game.dilation_upgrade_bought(4));
    assert!(!game.buy_dilation_upgrade(4, true));
}

#[test]
fn dilation_survives_eternity_but_run_ends() {
    let mut game = dilation_game();
    assert!(game.start_dilated_eternity(false, 0, 1));
    assert!(game.dilation.active);
    assert!(game.eternity(true, 0, 1));
    assert!(!game.dilation.active);
    assert!(game.dilation_unlocked());
}

#[test]
fn exiting_at_goal_rewards_tp() {
    let mut game = dilation_game();
    assert!(game.start_dilated_eternity(false, 0, 1));
    let eternities = game.eternities;
    // The peak IP reached 1.8e308: a rewarded Eternity ends the run.
    assert!(game.exit_dilation(true, 0, 1));
    assert!(!game.dilation.active);
    assert_eq!(game.eternities, eternities + 1);
}

#[test]
fn exiting_below_goal_gives_nothing() {
    let mut game = dilation_game();
    assert!(game.start_dilated_eternity(false, 0, 1));
    let eternities = game.eternities;
    assert!(game.exit_dilation(false, 0, 1));
    assert!(!game.dilation.active);
    assert_eq!(game.eternities, eternities);
    // Not running: nothing to exit.
    assert!(!game.exit_dilation(true, 0, 1));
}
