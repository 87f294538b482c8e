use ad_core::eternity_challenges::{ec_study_cost, ec_study_prerequisites, EcAutoComplete};
use ad_core::GameState;

/// Enough Time Theorems, TS171 and 25000 Eternities: EC1's study is
/// affordable and its secondary requirement is met.
fn game_ready_for_ec1() -> GameState {
    let mut game = GameState::new();
    game.time_studies = vec![171];
    game.eternities = 25_000;
    game
}

#[test]
fn ec_study_needs_requirements() {
    let mut game = GameState::new();
    // No TS171 yet.
    assert!(!game.can_buy_ec_study(1, true, false));
    game.time_studies = vec![171];
    // Secondary requirement (20000 eternities) not met.
    assert!(!game.can_buy_ec_study(1, true, false));
    game.eternities = 25_000;
    assert!(game.buy_ec_study(1, true, true));
    assert_eq!(game.eternity_challenge_unlocked, 1);
    // Only one EC study at a time.
    assert!(!game.can_buy_ec_study(2, true, true));
}

#[test]
fn ec_requirement_waived_after_first_unlock() {
    let mut game = game_ready_for_ec1();
    assert!(game.buy_ec_study(1, true, true));
    game.respec_time_studies_now();
    assert_eq!(game.eternity_challenge_unlocked, 0);
    assert!(game.time_studies.is_empty());
    game.time_studies = vec![171];
    game.eternities = 0;
    // The requirement bit waives the secondary check.
    assert!(game.can_buy_ec_study(1, true, false));
}

#[test]
fn ec11_forbids_conflicting_paths() {
    let mut game = GameState::new();
    game.time_studies = vec![231, 72];
    assert!(!game.can_buy_ec_study(11, true, false));
    game.time_studies = vec![231, 71];
    assert!(game.can_buy_ec_study(11, true, false));
}

#[test]
fn ec1_allows_1000_completions_inside_enslaved() {
    let mut game = GameState::new();
    assert_eq!(game.ec_max_completions(1), 5);
    game.celestials.enslaved.run = true;
    assert_eq!(game.ec_max_completions(1), 1000);
    assert_eq!(game.ec_max_completions(2), 5);

    // Completions bank past 5 inside the run: the peak IP (1e4000) meets
    // the goals of the first eleven tiers (1e1800 × (1e200)^k, k ≤ 10).
    game.eternity_challenges[0] = 10;
    game.eternity_challenge_current = 1;
    assert!(game.eternity(false, 11, 1));
    assert_eq!(game.eternity_challenge_completions(1), 11);
}

#[test]
fn start_run_complete_ec() {
    let mut game = game_ready_for_ec1();
    assert!(game.buy_ec_study(1, true, true));
    assert!(game.start_eternity_challenge(1, false, 0, 1));
    assert!(game.ec_running(1));
    // Below EC1's goal the Eternity button is locked, even at 1.8e308 IP.
    assert!(!game.can_eternity(true, 0));

    // The peak IP reaches 1e1800, EC1's first goal.
    assert!(game.eternity(false, 1, 1));
    assert_eq!(game.eternity_challenge_completions(1), 1);
    assert_eq!(game.eternity_challenge_unlocked, 0);
    assert!(!game.any_ec_running());
    assert!(game.time_studies.is_empty());
}

#[test]
fn exit_ec_respecs_and_resets() {
    let mut game = game_ready_for_ec1();
    assert!(game.buy_ec_study(1, true, true));
    assert!(game.start_eternity_challenge(1, false, 0, 1));
    assert!(game.exit_eternity_challenge());
    assert!(!game.any_ec_running());
    assert!(!game.respec);
    assert!(game.time_studies.is_empty());
    assert_eq!(game.eternity_challenge_unlocked, 0);
    assert_eq!(game.eternity_challenge_completions(1), 0);
    // Nothing left to exit.
    assert!(!game.exit_eternity_challenge());
}

#[test]
fn ec4_infinity_limit_fails_on_crunch() {
    let mut game = GameState::new();
    game.time_studies = vec![143];
    // 2e8 banked Infinities meet EC4's secondary requirement.
    game.infinities_banked = 200_000_000;
    assert!(game.buy_ec_study(4, true, false));
    assert!(game.start_eternity_challenge(4, false, 0, 1));

    // 16 crunches are fine; the 17th violates the restriction.
    for _ in 0..16 {
        assert!(game.big_crunch(true));
        assert!(game.ec_running(4));
    }
    assert!(game.big_crunch(true));
    assert!(!game.ec_running(4));
    assert_eq!(game.eternity_challenge_completions(4), 0);
}

#[test]
fn eternity_button_uses_ec_goal() {
    let mut game = game_ready_for_ec1();
    game.buy_ec_study(1, true, true);
    game.start_eternity_challenge(1, false, 0, 1);
    // The peak IP is at 1.8e308, far below 1e1800: no EC goal met.
    assert!(!game.can_eternity(true, 0));
    assert!(!game.eternity(true, 0, 1));
    assert!(game.ec_running(1));
}

#[test]
fn ec_study_costs_follow_the_table() {
    assert_eq!(ec_study_cost(1), 30);
    assert_eq!(ec_study_cost(9), 415);
    assert_eq!(ec_study_cost(10), 550);
    assert_eq!(ec_study_cost(12), 1);
    assert_eq!(ec_study_cost(0), 0);
    assert_eq!(ec_study_cost(13), 0);
}

#[test]
fn ec_study_prerequisites_follow_the_tree() {
    assert_eq!(ec_study_prerequisites(1), vec![171]);
    assert_eq!(ec_study_prerequisites(4), vec![143]);
    assert_eq!(ec_study_prerequisites(12), vec![233, 234]);
    assert!(ec_study_prerequisites(0).is_empty());
}

#[test]
fn ec_autocomplete_completes_sequentially() {
    let mut game = GameState::new();
    // No PEC perk: nothing accrues or completes.
    assert_eq!(game.ec_auto_complete_tick(true, 1), EcAutoComplete::Inactive);
    assert_eq!(game.eternity_challenges, [0; 12]);

    // PEC1 (60 min): 2.5 hours covers two whole intervals (the completion
    // needs strictly more time than an interval left), so two ECs complete.
    game.perks.push(60);
    assert_eq!(game.ec_auto_complete_tick(true, 2), EcAutoComplete::Completed(2));
    assert_eq!(game.eternity_challenges[0], 2);

    // PEC3 drops the interval to 20 minutes: the next hour plus the 30 min
    // carried (four whole intervals) completes EC1 (5) and rolls into EC2.
    game.perks.push(62);
    assert_eq!(game.ec_auto_complete_tick(true, 4), EcAutoComplete::Completed(4));
    assert_eq!(game.eternity_challenges[0], 5);
    assert_eq!(game.eternity_challenges[1], 1);
    // Another hour (plus the 10 min carried) flows into EC2.
    assert_eq!(game.ec_auto_complete_tick(true, 3), EcAutoComplete::Completed(3));
    assert_eq!(game.eternity_challenges[1], 4);

    // Toggled off: the accumulator is held, no completions.
    assert_eq!(game.ec_auto_complete_tick(false, 3), EcAutoComplete::Held);
    assert_eq!(game.eternity_challenges[1], 4);
}

#[test]
fn ec_autocomplete_stops_when_every_challenge_is_full() {
    let mut game = GameState::new();
    game.perks.push(60);
    game.eternity_challenges = [5, 5, 5, 5, 5, 5, 5, 5, 5, 5, 3, 5];
    // Only two completions are missing: a long absence uses just those.
    assert_eq!(game.ec_auto_complete_tick(true, 1000), EcAutoComplete::Completed(2));
    assert_eq!(game.eternity_challenges, [5; 12]);
    assert_eq!(game.ec_auto_complete_tick(true, 7), EcAutoComplete::Completed(0));
}

#[test]
fn ra_instant_unlock_completes_every_challenge() {
    let mut game = GameState::new();
    game.perks.push(60);
    game.celestials.ra.unlock_bits |= 1 << 21;
    game.eternity_challenges[3] = 2;
    assert_eq!(game.ec_auto_complete_tick(true, 0), EcAutoComplete::Instant);
    assert_eq!(game.eternity_challenges, [5; 12]);
}

#[test]
fn failing_ec4_unlocks_the_challenge_failed_achievement() {
    let mut game = GameState::new();
    game.time_studies = vec![143];
    game.infinities_banked = 200_000_000;
    assert!(game.buy_ec_study(4, true, false));
    assert!(game.start_eternity_challenge(4, false, 0, 1));
    game.infinities = 16;
    assert!(!game.achievement_unlocked(114));
    assert!(game.big_crunch(true));
    assert!(!game.ec_running(4));
    assert!(game.achievement_unlocked(114));
    assert!(game.achievement_unlocked(21));
}

#[test]
fn ec_secondary_requirements_on_held_counts() {
    let mut game = GameState::new();
    // EC1: 20000 Eternities, +20000 per completion.
    game.eternities = 39_999;
    game.eternity_challenges[0] = 1;
    assert!(!game.ec_secondary_met(1, true));
    game.eternities = 40_000;
    assert!(game.ec_secondary_met(1, false));
    // EC2: 1300 free tickspeed upgrades, +150 per completion (at most 4 steps).
    game.eternity_challenges[1] = 5;
    game.total_tick_gained = 1899;
    assert!(!game.ec_secondary_met(2, true));
    game.total_tick_gained = 1900;
    assert!(game.ec_secondary_met(2, false));
    // EC4: Infinities and banked Infinities together, 1e8 + 2.5e7 per completion.
    game.eternity_challenges[3] = 2;
    game.infinities = 100_000_000;
    game.infinities_banked = 49_999_999;
    assert!(!game.ec_secondary_met(4, true));
    game.infinities_banked = 50_000_000;
    assert!(game.ec_secondary_met(4, false));
    // EC5: 160 Galaxies, +14 per completion.
    game.galaxies = 159;
    assert!(!game.ec_secondary_met(5, true));
    game.galaxies = 160;
    assert!(game.ec_secondary_met(5, false));
    // EC6: 40 Replicanti Galaxies, +5 per completion.
    game.eternity_challenges[5] = 3;
    game.replicanti.galaxies = 54;
    assert!(!game.ec_secondary_met(6, true));
    game.replicanti.galaxies = 55;
    assert!(game.ec_secondary_met(6, false));
    // EC3 and EC7–10 compare floating-point amounts: the caller's outcome.
    assert!(game.ec_secondary_met(3, true));
    assert!(!game.ec_secondary_met(9, false));
    // EC1 inside Enslaved's Reality keeps scaling past 4 completions.
    game.celestials.enslaved.run = true;
    game.eternity_challenges[0] = 10;
    game.eternities = 219_999;
    assert!(!game.ec_secondary_met(1, true));
    game.eternities = 220_000;
    assert!(game.ec_secondary_met(1, true));
}
