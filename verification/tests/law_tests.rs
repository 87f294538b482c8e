use ad_core::eternity_challenges::EcAutoComplete;
use ad_core::celestials::ra::PET_TERESA;
use ad_core::GameState;

#[test]
fn max_dim_boosts_buys_the_largest_affordable_bulk() {
    let mut game = GameState::new();
    game.dim_boosts = 4;
    // Each further boost on the 8th Dimension needs 15 more: 20, 35, 50, 65.
    let mut amounts = [0u64; 8];
    amounts[7] = 50;
    assert!(game.max_buy_dim_boosts(true, 8, &amounts));
    assert_eq!(game.dim_boosts, 7);
    // Nothing affordable: nothing bought.
    let mut poor = GameState::new();
    poor.dim_boosts = 4;
    assert!(!poor.max_buy_dim_boosts(true, 8, &[0u64; 8]));
    assert_eq!(poor.dim_boosts, 4);
}

#[test]
fn at_most_two_rifts_fill_at_once() {
    let mut game = GameState::new();
    game.reality.realities = 1;
    game.reality.imaginary_upgrade_bits |= 1 << 25;
    game.celestials.pelle.doomed = true;
    for strike in 1..=3 {
        game.pelle_trigger_strike(strike);
    }
    assert!(game.pelle_toggle_rift(0));
    assert!(game.pelle_toggle_rift(1));
    assert!(!game.pelle_toggle_rift(2));
    assert!(!game.celestials.pelle.rifts[2].active);
    // Stopping one frees a place.
    assert!(game.pelle_toggle_rift(0));
    assert!(game.pelle_toggle_rift(2));
}

#[test]
fn singularity_cap_increases_stop_at_fifty() {
    let mut game = GameState::new();
    for _ in 0..60 {
        game.singularity_increase_cap();
    }
    assert_eq!(game.celestials.laitela.singularity_cap_increases, 50);
    game.singularity_decrease_cap();
    assert_eq!(game.celestials.laitela.singularity_cap_increases, 49);
}

#[test]
fn ra_unlocks_are_kept_when_levels_rise() {
    let mut game = GameState::new();
    game.reality.realities = 1;
    for i in 0..6 {
        game.celestials.v.run_unlocks[i] = 6;
    }
    assert!(game.ra_level_up_max(PET_TERESA, 7) >= 7);
    let bits = game.celestials.ra.unlock_bits;
    assert!(game.ra_level_up(PET_TERESA, true));
    assert_eq!(game.celestials.ra.unlock_bits & bits, bits);
}

#[test]
fn ec_completions_never_pass_the_cap() {
    let mut game = GameState::new();
    game.eternity_challenges[0] = 5;
    game.eternity_challenge_current = 1;
    assert!(game.eternity(false, 5, 1));
    assert_eq!(game.eternity_challenge_completions(1), 5);
}

#[test]
fn ec_autocomplete_adds_what_it_reports() {
    let mut game = GameState::new();
    game.perks.push(60);
    game.eternity_challenges = [5, 2, 0, 5, 4, 0, 0, 0, 0, 0, 0, 0];
    let before: u32 = game.eternity_challenges.iter().map(|&c| c as u32).sum();
    let r = game.ec_auto_complete_tick(true, 9);
    assert_eq!(r, EcAutoComplete::Completed(9));
    let after: u32 = game.eternity_challenges.iter().map(|&c| c as u32).sum();
    assert_eq!(after, before + 9);
    // Filled in order: EC2 (+3), EC3 (+5), EC5 (+1).
    assert_eq!(game.eternity_challenges, [5, 5, 5, 5, 5, 0, 0, 0, 0, 0, 0, 0]);
    assert!(game.eternity_challenges.iter().all(|&c| c <= 5));
}
