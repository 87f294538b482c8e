use ad_core::glyph_uniformity::uniform_glyph_types;
use ad_core::glyphs::{permutation_index, xorshift32_update, Glyph, GlyphType};
use ad_core::GameState;

fn glyph(kind: GlyphType, level: u32, effects: u32) -> Glyph {
    Glyph { id: 1, idx: 0, kind, level, raw_level: level, effects }
}

#[test]
fn permutation_index_decodes_lehmer_codes() {
    assert_eq!(permutation_index(4, 0), vec![0, 1, 2, 3]);
    assert_eq!(permutation_index(4, 23), vec![3, 2, 1, 0]);
    // 4! wraps.
    assert_eq!(permutation_index(4, 24), vec![0, 1, 2, 3]);
    assert_eq!(permutation_index(5, 1), vec![0, 1, 2, 4, 3]);
}

#[test]
fn inventory_respects_protected_rows_and_capacity() {
    let mut game = GameState::new();
    // Default 2 protected rows: the first free slot is 20.
    game.add_glyph_to_inventory(glyph(GlyphType::Power, 1, 1 << 16));
    assert_eq!(game.reality.glyphs.inventory[0].idx, 20);
    assert_eq!(game.glyph_free_inventory_space(), 99);
}

#[test]
fn added_glyphs_get_fresh_ids_and_successive_slots() {
    let mut game = GameState::new();
    game.add_glyph_to_inventory(glyph(GlyphType::Power, 1, 1));
    game.add_glyph_to_inventory(glyph(GlyphType::Time, 2, 1));
    let inv = &game.reality.glyphs.inventory;
    assert_eq!(inv.len(), 2);
    assert_eq!((inv[0].id, inv[0].idx), (1, 20));
    assert_eq!((inv[1].id, inv[1].idx), (2, 21));
    assert_eq!(inv[1].kind, GlyphType::Time);
    assert_eq!(game.max_glyph_id(), 2);
    // A full inventory takes nothing.
    for _ in 0..98 {
        game.add_glyph_to_inventory(glyph(GlyphType::Power, 1, 1));
    }
    assert_eq!(game.glyph_free_inventory_space(), 0);
    assert_eq!(game.find_free_inventory_slot(), None);
    game.add_glyph_to_inventory(glyph(GlyphType::Power, 1, 1));
    assert_eq!(game.reality.glyphs.inventory.len(), 100);
}

#[test]
fn equip_and_respec_round_trip() {
    let mut game = GameState::new();
    game.eternity_unlocked = true;
    game.add_glyph_to_inventory(glyph(GlyphType::Power, 10, 1 << 16));
    let id = game.reality.glyphs.inventory[0].id;

    assert!(game.equip_glyph(id, 0, false));
    assert!(game.reality.glyphs.inventory.is_empty());
    assert_eq!(game.reality.glyphs.active.len(), 1);
    assert_eq!(game.requirement_checks.reality_max_glyphs, 1);
    // Slot occupied: a second equip into the same slot fails.
    game.add_glyph_to_inventory(glyph(GlyphType::Time, 5, 1));
    let id2 = game.reality.glyphs.inventory[0].id;
    assert_ne!(id2, id);
    assert!(!game.equip_glyph(id2, 0, false));
    // Slots beyond the cap (3 without RU9/24) fail.
    assert!(!game.equip_glyph(id2, 3, false));
    assert!(game.equip_glyph(id2, 1, false));
    assert_eq!(game.reality.glyphs.active.len(), 2);
}

#[test]
fn sacrifice_needs_ru19_and_accumulates() {
    let mut game = GameState::new();
    game.add_glyph_to_inventory(glyph(GlyphType::Power, 100, 1 << 16));
    let id = game.reality.glyphs.inventory[0].id;
    assert!(!game.can_sacrifice_glyphs());
    // Without RU19 the glyph is deleted.
    assert!(game.sacrifice_glyph(id));
    assert!(game.reality.glyphs.inventory.is_empty());
    // Nothing left to sacrifice under that id.
    assert!(!game.sacrifice_glyph(id));

    game.reality.upgrade_bits |= 1 << 19;
    assert!(game.can_sacrifice_glyphs());
    game.add_glyph_to_inventory(glyph(GlyphType::Power, 100, 1 << 16));
    let id = game.reality.glyphs.inventory[0].id;
    assert!(game.sacrifice_glyph(id));
    assert!(game.reality.glyphs.inventory.is_empty());
}

#[test]
fn xorshift_matches_js_semantics() {
    assert_eq!(xorshift32_update(1), 270_369);
    assert_eq!(xorshift32_update(270_369), 67_634_689);
    // Negative states keep working, bit for bit.
    let s = xorshift32_update(-12345);
    assert_eq!(s, xorshift32_update(-12345i32));
    let u = (-12345i32) as u32;
    let a = u ^ (u << 13);
    let b = a ^ (a >> 17);
    assert_eq!(s as u32, b ^ (b << 5));
}

#[test]
fn effect_bits_follow_the_type() {
    assert_eq!(GlyphType::Time.effect_bits(), vec![0, 1, 2, 3]);
    assert_eq!(GlyphType::Power.effect_bits(), vec![16, 17, 18, 19]);
    assert!(GlyphType::Companion.effect_bits().is_empty());
    assert_eq!(GlyphType::Infinity.primary_effect_bit(), Some(12));
    assert_eq!(GlyphType::Dilation.primary_effect_bit(), None);
}

#[test]
fn the_basic_choice_without_start_follows_the_seed() {
    let mut game = GameState::new();
    game.reality.realities = 0;
    // Index 0: the identity permutation.
    assert_eq!(game.glyph_index_without_start(7), 0);
    game.reality.realities = 3;
    // 3 × (7 mod 5 + 3) = 15; the 15th permutation of four starts with 2.
    assert_eq!(game.glyph_index_without_start(7), permutation_index(4, 15)[0]);
    assert_eq!(game.glyph_index_without_start(7), 2);
}

#[test]
fn unequipping_returns_glyphs_to_free_slots() {
    let mut game = GameState::new();
    game.eternity_unlocked = true;
    game.add_glyph_to_inventory(glyph(GlyphType::Power, 10, 1 << 16));
    game.add_glyph_to_inventory(glyph(GlyphType::Time, 5, 1));
    let (a, b) = (game.reality.glyphs.inventory[0].id, game.reality.glyphs.inventory[1].id);
    assert!(game.equip_glyph(a, 0, false));
    assert!(game.equip_glyph(b, 1, false));
    assert!(game.reality.glyphs.inventory.is_empty());
    game.unequip_all_glyphs();
    assert!(game.reality.glyphs.active.is_empty());
    let inv = &game.reality.glyphs.inventory;
    assert_eq!(inv.len(), 2);
    // The last equipped comes off first, into slot 20.
    assert_eq!((inv[0].id, inv[0].idx), (b, 20));
    assert_eq!((inv[1].id, inv[1].idx), (a, 21));
}

#[test]
fn unequipping_stops_when_the_inventory_is_full() {
    let mut game = GameState::new();
    game.eternity_unlocked = true;
    game.add_glyph_to_inventory(glyph(GlyphType::Power, 10, 1 << 16));
    let id = game.reality.glyphs.inventory[0].id;
    assert!(game.equip_glyph(id, 0, false));
    for _ in 0..100 {
        game.add_glyph_to_inventory(glyph(GlyphType::Time, 1, 1));
    }
    assert_eq!(game.glyph_free_inventory_space(), 0);
    game.unequip_all_glyphs();
    assert_eq!(game.reality.glyphs.active.len(), 1);
    assert_eq!(game.reality.glyphs.inventory.len(), 100);
}

#[test]
fn the_companion_is_left_out_of_active_effects() {
    let mut game = GameState::new();
    game.reality.glyphs.active.push(Glyph { id: 1, idx: 0, kind: GlyphType::Power, level: 1, raw_level: 1, effects: 1 });
    game.reality.glyphs.active.push(Glyph { id: 2, idx: 1, kind: GlyphType::Companion, level: 1, raw_level: 1, effects: 0 });
    game.reality.glyphs.active.push(Glyph { id: 3, idx: 2, kind: GlyphType::Time, level: 1, raw_level: 1, effects: 1 });
    let ids: Vec<u32> = game.active_glyphs_without_companion().iter().map(|g| g.id).collect();
    assert_eq!(ids, vec![1, 3]);
}

#[test]
fn doomed_glyph_slots_need_the_vacuum_milestone() {
    let mut game = GameState::new();
    game.reality.realities = 1;
    game.reality.imaginary_upgrade_bits |= 1 << 25;
    assert_eq!(game.glyph_active_slot_count(false), 3);
    game.celestials.pelle.doomed = true;
    assert_eq!(game.glyph_active_slot_count(false), 0);
    game.pelle_trigger_strike(1);
    // The Vacuum Rift filled to 1e10 reaches its first milestone (4%).
    assert_eq!(game.glyph_active_slot_count(true), 1);
    game.add_glyph_to_inventory(glyph(GlyphType::Power, 10, 1 << 16));
    let id = game.reality.glyphs.inventory[0].id;
    assert!(!game.equip_glyph(id, 0, false));
    assert!(!game.equip_glyph(id, 1, true));
    assert!(game.equip_glyph(id, 0, true));
}

fn offered() -> Vec<Glyph> {
    vec![
        glyph(GlyphType::Power, 10, 1),
        glyph(GlyphType::Infinity, 11, 2),
        glyph(GlyphType::Time, 12, 4),
        glyph(GlyphType::Replication, 13, 8),
    ]
}

#[test]
fn first_reality_grants_starting_and_companion_glyphs() {
    let mut game = GameState::new();
    let first = vec![glyph(GlyphType::Power, 1, 1 << 16), glyph(GlyphType::Companion, 1, (1 << 8) | (1 << 9))];
    assert_eq!(game.grant_glyphs_on_reality(&first, None, false, 7), None);
    let inv = &game.reality.glyphs.inventory;
    assert_eq!(inv.len(), 2);
    assert_eq!((inv[0].kind, inv[0].id, inv[0].idx), (GlyphType::Power, 1, 20));
    assert_eq!((inv[1].kind, inv[1].id, inv[1].idx), (GlyphType::Companion, 2, 21));
}

#[test]
fn start_perk_offers_four_choices() {
    let mut game = GameState::new();
    game.reality.realities = 5;
    game.perks.push(0);
    assert_eq!(game.glyph_choice_count(), 4);
    assert_eq!(game.grant_glyphs_on_reality(&offered(), Some(2), false, 7), Some(2));
    let got = &game.reality.glyphs.inventory[0];
    assert_eq!(got.kind, GlyphType::Time);
    assert_eq!(got.effects, 4);
    // Out of range: the last one.
    assert_eq!(game.grant_glyphs_on_reality(&offered(), Some(9), false, 7), Some(3));
    assert_eq!(game.reality.glyphs.inventory[1].kind, GlyphType::Replication);
}

#[test]
fn later_realities_grant_the_seeded_choice_or_sacrifice_it() {
    let mut game = GameState::new();
    game.reality.realities = 3;
    // 3 × (7 mod 5 + 3) = 15: the permutation starts with 2.
    assert_eq!(game.grant_glyphs_on_reality(&offered(), None, false, 7), Some(2));
    assert_eq!(game.reality.glyphs.inventory[0].kind, GlyphType::Time);
    // Sacrificed instead of stored.
    assert_eq!(game.grant_glyphs_on_reality(&offered(), None, true, 7), Some(2));
    assert_eq!(game.reality.glyphs.inventory.len(), 1);
}

#[test]
fn doomed_special_glyph_type_needs_the_chaos_milestone() {
    let mut game = GameState::new();
    game.reality.glyphs.active.push(glyph(GlyphType::Infinity, 10, 1));
    // Not Doomed: no special glyph effect.
    assert_eq!(game.pelle_active_glyph_type(true), None);
    game.celestials.pelle.doomed = true;
    assert_eq!(game.pelle_active_glyph_type(false), None);
    assert_eq!(game.pelle_active_glyph_type(true), Some(GlyphType::Infinity));
    game.reality.glyphs.active.clear();
    assert_eq!(game.pelle_active_glyph_type(true), None);
}

#[test]
fn uniform_glyph_types_leave_out_one_type_per_reality() {
    // Seeds and Reality counts of the reference glyph lists.
    assert_eq!(uniform_glyph_types(4_294_967_291, 1), vec![0, 1, 3, 4]);
    assert_eq!(uniform_glyph_types(987_654_321_012, 7), vec![0, 1, 2, 4]);
    assert_eq!(uniform_glyph_types(555_555_555, 20), vec![0, 1, 2, 4]);
    // Within a group of five Realities every basic type is left out once.
    let mut left_out: Vec<usize> = (1..=5)
        .map(|rc| {
            let types = uniform_glyph_types(12_345, rc);
            (0..5).find(|t| !types.contains(t)).unwrap()
        })
        .collect();
    left_out.sort();
    assert_eq!(left_out, vec![0, 1, 2, 3, 4]);
}

#[test]
fn uniform_glyph_effects_match_the_reference_lists() {
    let game = GameState::new();
    // The rolled effects the reference glyphs carried besides their uniform
    // effect; the results are the reference effect masks.
    assert_eq!(
        game.uniform_glyph_effects(4_294_967_291, 1, &vec![0, 0, 0, 1 << 4]),
        vec![196_608, 20_480, 1, 48]
    );
    assert_eq!(
        game.uniform_glyph_effects(987_654_321_012, 7, &vec![0, 0, 1 << 11, 0]),
        vec![589_824, 12_288, 3_072, 64]
    );
    assert_eq!(
        game.uniform_glyph_effects(555_555_555, 20, &vec![0, 0, 1 << 10, 0]),
        vec![589_824, 20_480, 3_072, 32]
    );
}

#[test]
fn uniform_glyph_effects_trim_overfull_glyphs() {
    let mut game = GameState::new();
    let rolled = vec![
        (1 << 16) | (1 << 18) | (1 << 19),
        (1 << 12) | (1 << 13) | (1 << 15),
        (1 << 8) | (1 << 9),
        1 << 6,
    ];
    // Two effects at most: the Power glyph drops effect 19 (its removable
    // effects are 18 and 19, the seed picks the second).
    assert_eq!(
        game.uniform_glyph_effects(987_654_321_012, 7, &rolled),
        vec![327_680, 12_288, 1_536, 64]
    );
    // Reality Upgrade 17 allows a third effect.
    game.reality.upgrade_bits |= 1 << 17;
    assert_eq!(
        game.uniform_glyph_effects(987_654_321_012, 7, &rolled),
        vec![851_968, 12_288, 1_792, 64]
    );
}
