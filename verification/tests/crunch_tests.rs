use ad_core::GameState;

#[test]
fn cannot_crunch_below_threshold() {
    let mut game = GameState::new();
    let before_infinities = game.infinities;
    assert!(!game.big_crunch(false));
    assert_eq!(game.infinities, before_infinities);
    assert!(!game.infinity_unlocked);
}

#[test]
fn crunch_at_threshold_resets_everything() {
    let mut game = GameState::new();
    game.dim_boosts = 6;
    game.galaxies = 3;
    game.tickspeed.bought = 50;
    game.dimensions[0].bought = 30;

    assert!(game.big_crunch(true));

    assert!(game.achievement_unlocked(21));
    assert_eq!(game.dim_boosts, 0);
    assert_eq!(game.galaxies, 0);
    assert_eq!(game.tickspeed.bought, 0);
    for tier in 0..8 {
        assert_eq!(game.dimensions[tier].bought, 0);
    }
    assert!(game.infinity_unlocked);
}

#[test]
fn infinity_unlocked_starts_false_and_persists_after_crunch() {
    let mut game = GameState::new();
    assert!(!game.infinity_unlocked);
    assert!(game.big_crunch(true));
    assert!(game.infinity_unlocked);
    assert!(game.big_crunch(true));
    assert!(game.infinity_unlocked);
}

#[test]
fn crunch_awards_one_ip_and_one_infinity() {
    let mut game = GameState::new();
    assert_eq!(game.gained_infinities(), 1);
    assert!(game.big_crunch(true));
    assert_eq!(game.infinities, 1);
}

#[test]
fn ip_and_infinities_accumulate_across_crunches() {
    let mut game = GameState::new();
    for expected in 1..=3u64 {
        assert!(game.big_crunch(true));
        assert_eq!(game.infinities, expected);
    }
}

#[test]
fn break_infinity_requires_maxed_big_crunch_interval() {
    let mut game = GameState::new();
    assert!(!game.can_break_infinity(false));
    assert!(!game.break_infinity(false));
    // NC12 completed, but the Big Crunch autobuyer is still at 150 s.
    game.challenge.completed |= 1 << 12;
    assert!(!game.can_break_infinity(false));
    // Upgraded to the 100 ms floor.
    assert!(game.can_break_infinity(true));
    assert!(game.break_infinity(true));
    assert!(game.broke_infinity);
    assert!(!game.can_break_infinity(true));
}

#[test]
fn broke_infinity_persists_across_crunch() {
    let mut game = GameState::new();
    game.broke_infinity = true;
    assert!(game.big_crunch(true));
    assert!(game.broke_infinity);
}

#[test]
fn time_study_32_multiplies_gained_infinities_by_boosts() {
    let mut game = GameState::new();
    game.dim_boosts = 7;
    assert_eq!(game.gained_infinities(), 1);
    game.time_studies.push(32);
    assert_eq!(game.gained_infinities(), 7);
    assert!(game.big_crunch(true));
    assert_eq!(game.infinities, 7);
}
