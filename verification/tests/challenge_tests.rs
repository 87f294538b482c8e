use ad_core::GameState;

fn amounts_with(tier: usize, amount: u64) -> [u64; 8] {
    let mut a = [0u64; 8];
    a[tier] = amount;
    a
}

#[test]
fn first_infinity_completes_nc1_and_unlocks_first_autobuyer() {
    let mut game = GameState::new();
    assert!(!game.challenge_completed(1));
    assert!(!game.autobuyers.dimensions[0].is_bought);

    assert!(game.big_crunch(true));

    assert!(game.challenge_completed(1));
    assert!(game.autobuyers.dimensions[0].is_bought);
}

#[test]
fn challenge_unlock_respects_infinities_threshold() {
    let mut game = GameState::new();
    assert!(!game.challenge_unlocked(2));

    game.infinity_unlocked = true;
    assert!(game.challenge_unlocked(2));
    assert!(!game.challenge_unlocked(10));
    game.infinities = 16;
    assert!(game.challenge_unlocked(10));
    assert!(game.challenge_unlocked(12));
}

#[test]
fn start_and_exit_challenge() {
    let mut game = GameState::new();
    game.infinity_unlocked = true;
    assert!(!game.can_start_challenge(1));
    assert!(game.start_challenge(2, false));
    assert!(game.challenge_running(2));
    assert!(game.any_challenge_running());

    assert!(game.exit_challenge(false));
    assert!(!game.any_challenge_running());
}

#[test]
fn completing_a_challenge_by_crunching_exits_and_rewards() {
    let mut game = GameState::new();
    game.infinity_unlocked = true;
    game.start_challenge(3, false);
    assert!(game.challenge_running(3));
    assert!(!game.autobuyers.dimensions[2].is_bought);

    assert!(game.big_crunch(true));

    assert!(game.challenge_completed(3));
    assert!(game.autobuyers.dimensions[2].is_bought);
    assert!(!game.any_challenge_running());
}

#[test]
fn retry_challenge_keeps_it_running_after_crunch() {
    let mut game = GameState::new();
    game.infinity_unlocked = true;
    game.options.retry_challenge = true;
    game.start_challenge(3, false);
    assert!(game.challenge_running(3));

    assert!(game.big_crunch(true));

    assert!(game.challenge_completed(3));
    assert!(game.autobuyers.dimensions[2].is_bought);
    assert!(game.challenge_running(3));
    assert!(game.any_challenge_running());
}

#[test]
fn starting_a_challenge_below_goal_does_not_reward() {
    let mut game = GameState::new();
    game.infinity_unlocked = true;
    game.infinities = 5;
    let infinities_before = game.infinities;

    assert!(game.start_challenge(2, false));
    assert_eq!(game.infinities, infinities_before);
    assert!(!game.challenge_completed(2));
}

#[test]
fn nc8_zeroes_boost_multiplier_and_caps_boosts() {
    let mut game = GameState::new();
    game.infinity_unlocked = true;
    game.start_challenge(8, false);
    assert_eq!(game.max_boosts(), Some(5));

    game.dim_boosts = 5;
    assert!(!game.can_dim_boost(true, 8, &amounts_with(7, 1_000_000)));
}

#[test]
fn nc8_disables_galaxies() {
    let mut game = GameState::new();
    game.infinity_unlocked = true;
    let requirement = game.galaxy_requirement(0).unwrap();
    assert!(game.can_buy_galaxy(1_000_000, requirement));

    game.start_challenge(8, false);
    let requirement = game.galaxy_requirement(0).unwrap();
    assert!(!game.can_buy_galaxy(1_000_000, requirement));
}

#[test]
fn nc10_limits_dimensions_to_six() {
    let mut game = GameState::new();
    game.infinity_unlocked = true;
    game.infinities = 16;
    game.start_challenge(10, false);
    game.dim_boosts = 4;

    assert_eq!(game.max_dimensions_unlockable(), 6);
    assert!(!game.can_unlock_new_dimension());
}

#[test]
fn nc10_modifies_galaxy_cost_and_tier() {
    let mut game = GameState::new();
    game.infinity_unlocked = true;
    game.infinities = 16;
    game.start_challenge(10, false);

    assert_eq!(game.galaxy_required_tier(), 5);
    assert_eq!(game.galaxy_requirement(0), Some(99));
    game.galaxies = 2;
    assert_eq!(game.galaxy_requirement(0), Some(99 + 2 * 90));
    assert!(game.can_buy_galaxy(1000, game.galaxy_requirement(0).unwrap()));
}

#[test]
fn nc10_dim_boost_requires_more_sixth_dimensions() {
    let mut game = GameState::new();
    game.infinity_unlocked = true;
    game.infinities = 16;
    game.start_challenge(10, false);

    assert_eq!(game.dim_boost_requirement(), (3, 20));
    game.dim_boosts = 2;
    assert_eq!(game.dim_boost_requirement(), (5, 20));
    game.dim_boosts = 3;
    assert_eq!(game.dim_boost_requirement(), (5, 40));
    game.dim_boosts = 4;
    assert_eq!(game.dim_boost_requirement(), (5, 60));
}

#[test]
fn starting_a_challenge_at_goal_credits_the_running_one() {
    let mut game = GameState::new();
    game.infinity_unlocked = true;
    game.start_challenge(2, false);
    // Switching to NC4 from the goal completes NC2 on the way.
    assert!(game.start_challenge(4, true));
    assert!(game.challenge_completed(2));
    assert!(game.challenge_running(4));
    assert_eq!(game.infinities, 1);
}

#[test]
fn normal_challenge_one_cannot_be_started_and_twelve_needs_sixteen_infinities() {
    let mut game = GameState::new();
    game.infinity_unlocked = true;
    assert!(!game.start_challenge(1, false));
    assert!(!game.start_challenge(12, false));
    game.infinities = 16;
    assert!(game.start_challenge(12, false));
    // Starting the running challenge again is refused.
    assert!(!game.start_challenge(12, false));
}

#[test]
fn galaxy_cost_mult_follows_nc10_and_ts42() {
    let mut game = GameState::new();
    assert_eq!(game.galaxy_cost_mult(), 60);
    game.time_studies.push(42);
    assert_eq!(game.galaxy_cost_mult(), 52);
    game.challenge.current = 10;
    assert_eq!(game.galaxy_cost_mult(), 90);
}

#[test]
fn boost_resets_clear_dimensions_unless_perk_30() {
    let mut game = GameState::new();
    game.dimensions[2].bought = 7;
    game.tickspeed.bought = 3;
    game.dim_boost_reset();
    assert_eq!(game.dimensions[2].bought, 0);
    assert_eq!(game.tickspeed.bought, 0);

    let mut kept = GameState::new();
    kept.perks.push(30);
    kept.dimensions[2].bought = 7;
    kept.dim_boost_reset();
    assert_eq!(kept.dimensions[2].bought, 7);
    kept.dim_boost_reset_forced();
    assert_eq!(kept.dimensions[2].bought, 0);
}
