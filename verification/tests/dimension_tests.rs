use ad_core::eternity_upgrades::EternityUpgrade;
use ad_core::dimensions::CostComparison;
use ad_core::GameState;

/// No other cost shares or straddles the source's.
const UNRELATED: [CostComparison; 8] =
    [CostComparison { same_exponent: false, cheaper: false, pricier: false }; 8];

fn game_with_id1_unlockable() -> GameState {
    let mut game = GameState::new();
    game.infinity_unlocked = true;
    game
}

#[test]
fn id1_requires_antimatter_and_ip_to_unlock() {
    let game = GameState::new();
    // 1e12 IP, but the 1e1100 antimatter requirement is not met yet.
    assert!(!game.can_unlock_infinity_dimension(0, 0, true));
    assert!(game.can_unlock_infinity_dimension(0, 1100, true));
    // Without the 1e8 IP, tier 1 stays locked.
    assert!(!game.can_unlock_infinity_dimension(0, 1100, false));
}

#[test]
fn buying_unlocks_then_purchases_in_tens() {
    let mut game = game_with_id1_unlockable();
    // The first buy unlocks.
    assert!(game.buy_infinity_dimension(0, 1100, true, true, 0));
    assert!(game.infinity_dimensions[0].is_unlocked);
    assert_eq!(game.infinity_dimensions[0].base_amount, 0);
    // The next buy grants 10.
    assert!(game.buy_infinity_dimension(0, 1100, true, true, 0));
    assert_eq!(game.infinity_dimensions[0].base_amount, 10);
    // Unaffordable: nothing bought.
    assert!(!game.buy_infinity_dimension(0, 1100, true, false, 0));
    assert_eq!(game.infinity_dimensions[0].base_amount, 10);
}

#[test]
fn buy_max_infinity_dimension_counts_purchases() {
    let mut game = game_with_id1_unlockable();
    assert!(game.unlock_infinity_dimension(0, 1100, true));
    assert_eq!(game.buy_max_infinity_dimension(0, 1100, true, 4, 0), 4);
    assert_eq!(game.infinity_dimensions[0].base_amount, 40);
    // In Enslaved's Reality each dimension can be bought once.
    let mut run = game_with_id1_unlockable();
    run.celestials.enslaved.run = true;
    assert!(run.unlock_infinity_dimension(0, 1100, true));
    assert_eq!(run.buy_max_infinity_dimension(0, 1100, true, 4, 0), 1);
    assert!(run.id_is_capped(0, 0));
}

#[test]
fn auto_ic_completes_unlocked_challenges() {
    let mut game = GameState::new();
    game.eternities = 7;
    // Peak antimatter 1e2500: IC1 (1e2000) is unlocked, IC2 (1e5000) is not.
    game.try_complete_infinity_challenges(2500);
    assert!(game.infinity_challenge_completed(1));
    assert!(!game.infinity_challenge_completed(2));
}

#[test]
fn auto_ic_requires_milestone() {
    let mut game = GameState::new();
    game.eternities = 6;
    game.try_complete_infinity_challenges(2500);
    assert!(!game.infinity_challenge_completed(1));
}

#[test]
fn auto_unlock_id_unlocks_reachable_tiers() {
    let mut game = GameState::new();
    game.eternities = 25;
    // 1e12 IP covers ID1's 1e8 requirement; peak antimatter 1e2000 reaches
    // ID1 and ID2 but not ID3 (1e2400).
    game.try_auto_unlock_infinity_dimensions(2000, true);
    assert!(game.infinity_dimensions[0].is_unlocked);
    assert!(game.infinity_dimensions[1].is_unlocked);
    assert!(!game.infinity_dimensions[2].is_unlocked);
}

#[test]
fn auto_unlock_id_stops_at_the_first_blocked_tier() {
    let mut game = GameState::new();
    game.eternities = 25;
    // Without the IP requirement of ID1 nothing unlocks, though the
    // antimatter would reach ID2.
    game.try_auto_unlock_infinity_dimensions(2000, false);
    assert!(!game.infinity_dimensions[0].is_unlocked);
    assert!(!game.infinity_dimensions[1].is_unlocked);
    // Below the milestone nothing happens.
    let mut early = GameState::new();
    early.eternities = 24;
    early.try_auto_unlock_infinity_dimensions(60000, true);
    assert!(!early.infinity_dimensions[0].is_unlocked);
}

#[test]
fn upgrades_cost_ep_and_apply_to_ids_and_tds() {
    let mut game = GameState::new();
    assert!(game.buy_eternity_upgrade(EternityUpgrade::IdMultEp, true));
    assert!(game.eternity_upgrade_bought(EternityUpgrade::IdMultEp));
    assert!(!game.buy_eternity_upgrade(EternityUpgrade::IdMultEp, true));
    assert!(!game.buy_eternity_upgrade(EternityUpgrade::TdMultTheorems, false));
    assert!(game.buy_eternity_upgrade(EternityUpgrade::TdMultTheorems, true));
    assert!(game.eternity_upgrade_bought(EternityUpgrade::TdMultTheorems));
}

#[test]
fn tesseracts_buy_and_raise_the_id_cap() {
    let mut game = GameState::new();
    // 1e20000000 IP covers the first Tesseract, but Enslaved is not done.
    assert!(!game.can_buy_tesseract(true));
    game.celestials.enslaved.completed = true;
    assert!(game.buy_tesseract(true));
    assert_eq!(game.celestials.enslaved.tesseracts, 1);
    // The next costs 1e40000000: unaffordable.
    assert!(!game.can_buy_tesseract(false));

    // One Tesseract raises the cap by 250e3 × 2^1 = 500e3: 2e6 + 5e5.
    let cap_increase = 500_000;
    game.infinity_dimensions[0].base_amount = 2_499_999 * 10;
    assert!(!game.id_is_capped(0, cap_increase));
    game.infinity_dimensions[0].base_amount = 2_500_000 * 10;
    assert!(game.id_is_capped(0, cap_increase));
    // Without Tesseracts the cap is 2e6.
    game.infinity_dimensions[0].base_amount = 2_000_000 * 10;
    assert!(game.id_is_capped(0, 0));
    assert!(!game.id_is_capped(7, 0));
}

#[test]
fn buy_max_stops_at_the_cap_and_ec8_allowance() {
    let mut game = game_with_id1_unlockable();
    assert!(game.unlock_infinity_dimension(0, 1100, true));
    game.infinity_dimensions[0].base_amount = 1_999_998 * 10;
    assert_eq!(game.buy_max_infinity_dimension(0, 1100, true, 10, 0), 2);
    assert!(game.id_is_capped(0, 0));
    assert_eq!(game.buy_max_infinity_dimension(0, 1100, true, 10, 0), 0);

    let mut ec8 = game_with_id1_unlockable();
    assert!(ec8.unlock_infinity_dimension(0, 1100, true));
    ec8.eternity_challenge_current = 8;
    ec8.eterc8_ids = 3;
    assert_eq!(ec8.buy_max_infinity_dimension(0, 1100, true, 10, 0), 3);
    assert_eq!(ec8.eterc8_ids, 0);
    assert_eq!(ec8.infinity_dimensions[0].base_amount, 30);
    // Locked and not unlockable: nothing.
    let mut locked = GameState::new();
    assert_eq!(locked.buy_max_infinity_dimension(1, 0, true, 10, 0), 0);
    assert!(!locked.infinity_dimensions[1].is_unlocked);
}

#[test]
fn buy_max_bulk_one_is_all_or_nothing() {
    let mut game = GameState::new();
    game.dimensions[0].bought = 10;
    // Enough for five single buys but not the whole group: nothing happens.
    assert_eq!(game.buy_max_dimension_bulk(0, 1, true, false, 0, &UNRELATED, false), 0);
    assert_eq!(game.dimensions[0].bought, 10);
    // The whole group affordable: it completes to the next multiple of ten.
    assert_eq!(game.buy_max_dimension_bulk(0, 1, true, true, 0, &UNRELATED, false), 10);
    assert_eq!(game.dimensions[0].bought, 20);
}

#[test]
fn buy_max_bulk_caps_group_count() {
    let mut game = GameState::new();
    // 1e9 antimatter affords the first group and three more.
    assert_eq!(game.buy_max_dimension_bulk(0, 2, true, true, 3, &UNRELATED, false), 20);
    assert_eq!(game.dimensions[0].bought, 20);
    assert!(game.achievement_unlocked(11));
}

#[test]
fn buy_max_unbounded_lands_on_group_boundary() {
    let mut game = GameState::new();
    game.dimensions[0].bought = 3;
    // 1e300 antimatter: the rest of the group and 29 more groups.
    let bought = game.buy_max_dimension(0, true, true, 29, &UNRELATED, false);
    assert_eq!(bought, 7 + 290);
    assert_eq!(game.dimensions[0].bought % 10, 0);
    assert_eq!(game.dimensions[0].bought, 300);
    // Unavailable: nothing.
    assert_eq!(game.buy_max_dimension(1, false, true, 29, &UNRELATED, false), 0);
}

#[test]
fn nc9_group_bumps_dimensions_and_tickspeed_of_equal_magnitude() {
    let mut game = GameState::new();
    game.challenge.current = 9;
    game.dimensions[0].bought = 9;
    let mut costs = UNRELATED;
    costs[0].same_exponent = true; // the source itself is never bumped
    costs[2].same_exponent = true;
    costs[5].same_exponent = true;
    assert!(game.buy_dimension(0, true, true, &costs, true));
    assert_eq!(game.dimensions[0].bought, 10);
    assert_eq!(game.dimensions[0].cost_bumps, 0);
    assert_eq!(game.dimensions[2].cost_bumps, 1);
    assert_eq!(game.dimensions[5].cost_bumps, 1);
    assert_eq!(game.dimensions[1].cost_bumps, 0);
    assert_eq!(game.tickspeed.cost_bumps, 1);
    // Not a group completion: no bumps.
    assert!(game.buy_dimension(0, true, true, &costs, true));
    assert_eq!(game.dimensions[2].cost_bumps, 1);
    assert_eq!(game.tickspeed.cost_bumps, 1);
}

#[test]
fn ic5_group_bumps_cheaper_or_pricier_by_tier() {
    let mut game = GameState::new();
    game.infinity_challenge.current = 5;
    let mut costs = UNRELATED;
    costs[0].cheaper = true;
    costs[6].pricier = true;
    costs[6].same_exponent = true;
    // A 3rd Dimension group (tiers 1–4) bumps the strictly cheaper ones.
    game.dimensions[2].bought = 3;
    assert_eq!(game.buy_until_10_dimension(2, true, 10, &costs, true), 7);
    assert_eq!(game.dimensions[0].cost_bumps, 1);
    assert_eq!(game.dimensions[6].cost_bumps, 0);
    // IC5 takes precedence over the Tickspeed rule.
    assert_eq!(game.tickspeed.cost_bumps, 0);
    // A 6th Dimension group (tiers 5–8) bumps the strictly pricier ones.
    assert_eq!(game.buy_max_dimension_bulk(5, 5, true, true, 4, &costs, false), 10);
    assert_eq!(game.dimensions[6].cost_bumps, 1);
    assert_eq!(game.dimensions[0].cost_bumps, 1);
}

#[test]
fn nc9_tickspeed_purchase_bumps_equal_magnitude_dimensions() {
    let mut game = GameState::new();
    let mut same = [false; 8];
    same[1] = true;
    same[7] = true;
    game.nc9_bump_same_cost_from_tickspeed(&same);
    assert_eq!(game.dimensions[1].cost_bumps, 1);
    assert_eq!(game.dimensions[7].cost_bumps, 1);
    assert_eq!(game.dimensions[0].cost_bumps, 0);
}

#[test]
fn outside_the_cost_challenges_groups_bump_nothing() {
    let mut game = GameState::new();
    let mut costs = UNRELATED;
    costs[3].same_exponent = true;
    costs[3].cheaper = true;
    assert_eq!(game.buy_max_dimension(0, true, true, 2, &costs, true), 30);
    assert_eq!(game.dimensions[3].cost_bumps, 0);
    assert_eq!(game.tickspeed.cost_bumps, 0);
}

#[test]
fn boost_requirement_for_an_empty_bulk_is_the_current_boost() {
    let mut game = GameState::new();
    // Zero more boosts at 0 boosts: 20 of the 3rd Dimension.
    assert_eq!(game.dim_boost_bulk_requirement(0), (2, 20));
    game.dim_boosts = 2;
    assert_eq!(game.dim_boost_bulk_requirement(0).0, 4);
}

#[test]
fn nc9_buy_max_goes_group_by_group() {
    let mut game = GameState::new();
    game.challenge.current = 9;
    let mut costs = UNRELATED;
    costs[1].same_exponent = true;
    // The current group, then each further group on its own with its bumps.
    assert_eq!(game.buy_max_dimension_bulk(0, 3, true, true, 5, &costs, false), 10);
    assert_eq!(game.dimensions[1].cost_bumps, 1);
    assert_eq!(game.buy_max_dimension_group(0, 2, true, &costs, false), 10);
    assert_eq!(game.dimensions[0].bought, 20);
    assert_eq!(game.dimensions[1].cost_bumps, 2);
    costs[1].same_exponent = false;
    costs[2].same_exponent = true;
    assert_eq!(game.buy_max_dimension_group(0, 1, true, &costs, false), 10);
    assert_eq!(game.dimensions[2].cost_bumps, 1);
    // No groups left, or the group unaffordable: nothing.
    assert_eq!(game.buy_max_dimension_group(0, 0, true, &costs, false), 0);
    assert_eq!(game.buy_max_dimension_group(0, 5, false, &costs, false), 0);
    assert_eq!(game.dimensions[0].bought, 30);
}
