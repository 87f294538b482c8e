use ad_core::GameState;
use ad_core::infinity_challenges::infinity_challenge_unlock_exponent;

#[test]
fn ic_unlocks_at_max_am_this_eternity() {
    let game = GameState::new();
    assert!(!game.infinity_challenge_unlocked(1, 0));
    assert!(game.infinity_challenge_unlocked(1, 2000));
    assert!(!game.infinity_challenge_unlocked(2, 2000));
    assert!(game.infinity_challenges_unlocked(2000));
    assert!(!game.infinity_challenges_unlocked(1999));
}

#[test]
fn start_infinity_challenge_breaks_infinity_and_enters() {
    let mut game = GameState::new();
    assert!(!game.broke_infinity);
    assert!(game.start_infinity_challenge(1, 2000, false));
    assert!(game.infinity_challenge_running(1));
    assert!(game.broke_infinity);
    assert_eq!(game.challenge.current, 0);
}

#[test]
fn crunching_at_ic_goal_completes_it() {
    let mut game = GameState::new();
    game.start_infinity_challenge(3, 12000, false);
    assert!(game.infinity_challenge_running(3));

    // Below the challenge's goal no crunch happens.
    assert!(!game.big_crunch(false));

    assert!(game.big_crunch(true));
    assert!(game.infinity_challenge_completed(3));
    assert!(!game.any_infinity_challenge_running());
}

#[test]
fn retry_challenge_re_enters_ic_after_crunch() {
    let mut game = GameState::new();
    game.options.retry_challenge = true;
    game.start_infinity_challenge(3, 12000, false);
    assert!(game.infinity_challenge_running(3));

    assert!(game.big_crunch(true));
    assert!(game.infinity_challenge_completed(3));
    assert!(game.infinity_challenge_running(3));
    assert!(game.any_infinity_challenge_running());
}

#[test]
fn ic1_composes_normal_challenge_modifiers() {
    let mut game = GameState::new();
    game.start_infinity_challenge(1, 2000, false);
    assert!(game.challenge_running(2));
    assert!(game.challenge_running(8));
    assert!(!game.challenge_running(9));
    assert!(!game.challenge_running(12));
}

#[test]
fn ic7_disables_galaxies_and_boosts_dim_boost_power() {
    let mut game = GameState::new();
    game.start_infinity_challenge(7, 23000, false);
    assert!(!game.can_buy_galaxy(1_000_000_000, game.galaxy_requirement(0).unwrap()));
}

#[test]
fn ic_unlock_exponents_follow_the_table() {
    let expected = [2000u64, 11000, 12000, 14000, 18000, 22500, 23000, 28000];
    for (i, e) in expected.iter().enumerate() {
        assert_eq!(infinity_challenge_unlock_exponent(i as u8 + 1), *e);
    }
    assert_eq!(infinity_challenge_unlock_exponent(0), 0);
    assert_eq!(infinity_challenge_unlock_exponent(9), 0);
}

#[test]
fn starting_an_ic_inside_an_ec_unlocks_achievement_115() {
    let mut game = GameState::new();
    game.eternity_challenge_current = 2;
    assert!(game.start_infinity_challenge(1, 2000, false));
    assert!(game.achievement_unlocked(115));
    // Not restartable while running.
    assert!(!game.can_start_infinity_challenge(1, 2000));
}
