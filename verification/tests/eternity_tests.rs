use ad_core::GameState;
use ad_core::infinity_upgrades::ALL_INFINITY_UPGRADES;
use ad_core::eternity_milestones::{eternity_milestone, ETERNITY_MILESTONE_COUNT};

fn game_at_eternity_goal() -> GameState {
    let mut game = GameState::new();
    game.infinity_unlocked = true;
    game.broke_infinity = true;
    game.infinities = 1_000_000;
    game.dim_boosts = 20;
    game.galaxies = 5;
    game.replicanti.unlocked = true;
    game.replicanti.galaxies = 3;
    game
}

#[test]
fn cannot_eternity_below_goal() {
    let mut game = GameState::new();
    assert!(!game.can_eternity(false, 0));
    assert!(!game.eternity(false, 0, 1));
}

#[test]
fn eternity_at_goal_awards_ep_and_resets() {
    let mut game = game_at_eternity_goal();
    assert!(game.can_eternity(true, 0));
    assert!(game.eternity(true, 0, 1));

    assert_eq!(game.eternities, 1);
    assert!(game.eternity_unlocked);
    assert_eq!(game.infinities, 0);
    assert_eq!(game.dim_boosts, 0);
    assert_eq!(game.galaxies, 0);
    assert!(!game.broke_infinity);
    assert!(!game.replicanti.unlocked);
    assert_eq!(game.replicanti.galaxies, 0);
    assert!(!game.requirement_checks.reality_no_eternities);
}

#[test]
fn eternity_clears_challenges_and_upgrades_pre_milestones() {
    let mut game = game_at_eternity_goal();
    game.challenge.completed = 0b1111_1111_1110;
    game.infinity_challenge.completed = 0b1_1111_1110;
    game.infinity_upgrades = ALL_INFINITY_UPGRADES.iter().fold(0, |b, u| b | u.bit());
    game.infinity_rebuyables = [3, 2, 1];
    game.autobuyers.dimensions[0].is_bought = true;
    game.autobuyers.tickspeed.is_bought = true;

    assert!(game.eternity(true, 0, 1));

    assert_eq!(game.challenge.completed, 0);
    assert_eq!(game.infinity_challenge.completed, 0);
    assert_eq!(game.infinity_upgrades, 0);
    assert_eq!(game.infinity_rebuyables, [0, 0, 0]);
    assert!(!game.autobuyers.dimensions[0].is_bought);
    assert!(!game.autobuyers.tickspeed.is_bought);
}

#[test]
fn milestones_keep_autobuyers_upgrades_and_replicanti() {
    let mut game = game_at_eternity_goal();
    game.eternities = 10;

    assert!(game.eternity(true, 0, 1));

    assert!(game.challenge_completed(12));
    assert!(game.autobuyers.dimensions[0].is_bought);
    assert!(game.broke_infinity);
    assert_ne!(game.infinity_upgrades, 0);
    assert_eq!(game.dim_boosts, 4);
    assert_eq!(game.galaxies, 1);
    assert_ne!(game.break_infinity_upgrades, 0);
    assert_eq!(game.infinity_rebuyables, [8, 7, 10]);
    assert!(game.replicanti.unlocked);
    assert_eq!(game.eternities, 11);
}

#[test]
fn time_study_191_banks_five_percent_of_the_infinities() {
    let mut game = game_at_eternity_goal();
    game.time_studies.push(191);
    assert!(game.eternity(true, 0, 1));
    assert_eq!(game.infinities_banked, 50_000);
    // The respec box empties the tree on a real Eternity.
    let mut game = game_at_eternity_goal();
    game.time_studies.push(191);
    game.respec = true;
    assert!(game.eternity(true, 0, 1));
    assert!(game.time_studies.is_empty());
    assert!(!game.respec);
}

#[test]
fn eternity_milestones_table_follows_the_eternity_counts() {
    let first = eternity_milestone(0);
    assert_eq!(first.id, "autobuyerIPMult");
    assert_eq!(first.eternities, 1);
    let last = eternity_milestone(ETERNITY_MILESTONE_COUNT - 1);
    assert_eq!(last.id, "autoInfinities");
    assert_eq!(last.eternities, 1000);
    let mut game = GameState::new();
    game.eternities = 200;
    assert!(game.eternity_milestone_is_reached(&eternity_milestone(25)));
    assert!(!game.eternity_milestone_is_reached(&last));
}

#[test]
fn milestones_reached_by_eternity_count() {
    let mut game = GameState::new();
    assert!(!game.eternity_milestone_reached(1));
    game.eternities = 4;
    assert!(game.eternity_milestone_reached(4));
    assert!(!game.eternity_milestone_reached(5));
}

#[test]
fn spending_ip_does_not_revoke_eternity() {
    // The peak IP this Eternity reached the goal; the IP itself is spent.
    let game = game_at_eternity_goal();
    assert!(game.can_eternity(true, 0));
}
