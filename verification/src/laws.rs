//! Properties that span the library's operations: what a reset keeps, what
//! a purchase bounds, and what a decoding yields.
use vstd::prelude::*;
use vstd::multiset::Multiset;
use crate::state::{GameState, seq_with};
use crate::glyphs::{factorial, lehmer_decode, range_seq, glyph_type_save_id, GlyphType, Glyph, glyph_ids_distinct,
    lemma_max_id_bounds, unequipped, first_free_from, slot_taken};
use crate::eternity::ALL_NORMAL_CHALLENGES_COMPLETED;
use crate::eternity_challenges::{ec_banked_completions, ec_auto_filled, ec_room_before, sum_prefix};
use crate::celestials::pelle::{active_rifts, Rift};
use crate::celestials::ra::{ra_bits_after, RaPet, remembrance_toggled};
use crate::glyph_uniformity::{uniform_type_perm, uniform_slot, uniform_group};
use crate::galaxy::{boosts_after, clamp_u64};
use crate::celestials::teresa::{perk_shop_cost_at, perk_shop_cost_cap};
use crate::infinity_upgrades::{InfinityUpgrade, upgrade_bit, upgrade_index};

verus! {

/// Decoding an index below `k!` over `k` items yields each item exactly
/// once: a permutation of them.
pub proof fn lemma_lehmer_decode_is_permutation(ordered: Seq<usize>, index: int)
    requires
        0 <= index < factorial(ordered.len()),
    ensures
        lehmer_decode(ordered, index).to_multiset() == ordered.to_multiset(),
        lehmer_decode(ordered, index).len() == ordered.len(),
    decreases ordered.len(),
{
    broadcast use vstd::multiset::group_multiset_axioms;
    broadcast use vstd::seq_lib::group_to_multiset_ensures;
    if ordered.len() == 0 {
        assert(ordered.to_multiset() =~= Multiset::<usize>::empty());
        assert(lehmer_decode(ordered, index).to_multiset() =~= Multiset::<usize>::empty());
    } else {
        let n = ordered.len();
        let f = factorial((n - 1) as nat) as int;
        assert(factorial(n as nat) == n * factorial((n - 1) as nat));
        lemma_factorial_pos((n - 1) as nat);
        let div = index / f;
        let rem = index % f;
        assert(0 <= div < n) by {
            vstd::arithmetic::div_mod::lemma_multiply_divide_lt(index, f, n as int);
            vstd::arithmetic::div_mod::lemma_div_pos_is_pos(index, f);
        }
        assert(0 <= rem < f) by {
            vstd::arithmetic::div_mod::lemma_mod_bound(index, f);
        }
        let rest = ordered.remove(div);
        lemma_lehmer_decode_is_permutation(rest, rem);
        let d = lehmer_decode(ordered, index);
        assert(d == seq![ordered[div]] + lehmer_decode(rest, rem));
        vstd::seq_lib::lemma_multiset_commutative(seq![ordered[div]], lehmer_decode(rest, rem));
        vstd::seq_lib::to_multiset_remove(ordered, div);
        assert(seq![ordered[div]].to_multiset() =~= Multiset::<usize>::empty().insert(ordered[div])) by {
            vstd::seq_lib::to_multiset_build(Seq::<usize>::empty(), ordered[div]);
            assert(Seq::<usize>::empty().push(ordered[div]) =~= seq![ordered[div]]);
            assert(Seq::<usize>::empty().to_multiset() =~= Multiset::<usize>::empty());
        }
        assert(ordered.to_multiset().count(ordered[div]) > 0) by {
            vstd::seq_lib::to_multiset_contains(ordered, ordered[div]);
        }
        assert(d.to_multiset() =~= ordered.to_multiset());
    }
}

proof fn lemma_factorial_pos(n: nat)
    ensures
        factorial(n) >= 1,
    decreases n,
{
    if n > 0 {
        lemma_factorial_pos((n - 1) as nat);
        assert(n * factorial((n - 1) as nat) >= 1) by (nonlinear_arith)
            requires
                n >= 1,
                factorial((n - 1) as nat) >= 1,
        ;
    }
}

/// `permutation_index(len, i)` is a permutation of `0..len`, whatever `i`.
pub proof fn lemma_permutation_index_is_permutation(len: nat, lex_index: int)
    requires
        1 <= len,
    ensures
        lehmer_decode(range_seq(len), lex_index % (factorial(len) as int)).to_multiset()
            == range_seq(len).to_multiset(),
{
    lemma_factorial_pos(len);
    lemma_lehmer_decode_is_permutation(range_seq(len), lex_index % (factorial(len) as int));
}

/// Distinct glyph types have distinct save ids, so reading a save id back
/// gives the type it was written from.
pub proof fn lemma_glyph_type_save_id_injective(a: GlyphType, b: GlyphType)
    ensures
        glyph_type_save_id(a) == glyph_type_save_id(b) ==> a == b,
{
    reveal_strlit("power");
    reveal_strlit("infinity");
    reveal_strlit("replication");
    reveal_strlit("time");
    reveal_strlit("dilation");
    reveal_strlit("companion");
    if glyph_type_save_id(a) == glyph_type_save_id(b) && a != b {
        assert(glyph_type_save_id(a).len() != glyph_type_save_id(b).len()
            || glyph_type_save_id(a)[0] != glyph_type_save_id(b)[0]
            || glyph_type_save_id(a)[1] != glyph_type_save_id(b)[1]);
    }
}

/// Once unlocked, Infinity stays unlocked through any Big Crunch, and a
/// crunch at the goal unlocks it.
pub proof fn lemma_crunch_unlocks_infinity(s: GameState, at_goal: bool, entering_challenge: bool,
    achievements: Vec<u16>, studies: Vec<u16>)
    ensures
        s.crunch_reset_spec(at_goal, entering_challenge, achievements, studies).infinity_unlocked
            == (s.infinity_unlocked || at_goal),
{
    reveal(GameState::crunch_reset_spec);
}

/// A crunch that does not fail EC4 keeps Infinity broken (or not), and never
/// takes back a challenge completion.
pub proof fn lemma_crunch_keeps_break_and_completions(s: GameState, at_goal: bool, entering_challenge: bool,
    achievements: Vec<u16>, studies: Vec<u16>)
    requires
        !s.crunch_fails_ec4(at_goal),
    ensures
        ({
            let t = s.crunch_reset_spec(at_goal, entering_challenge, achievements, studies);
            &&& t.broke_infinity == s.broke_infinity
            &&& s.challenge.completed & t.challenge.completed == s.challenge.completed
            &&& s.infinity_challenge.completed & t.infinity_challenge.completed == s.infinity_challenge.completed
        }),
{
    reveal(GameState::crunch_reset_spec);
    let t = s.crunch_reset_spec(at_goal, entering_challenge, achievements, studies);
    let c = s.challenge.completed;
    let ic = s.infinity_challenge.completed;
    if at_goal {
        let h = s.completion_handled();
        if s.infinity_challenge.current != 0 {
            let k = s.infinity_challenge.current;
            if k <= 8 {
                assert(ic & (ic | (1u16 << k)) == ic) by (bit_vector);
            } else {
                assert(ic & ic == ic) by (bit_vector);
            }
            assert(c & c == c) by (bit_vector);
        } else {
            let id: u8 = if s.challenge.current == 0 { 1 } else { s.challenge.current };
            if 1 <= id <= 12 {
                assert(c & (c | (1u16 << id)) == c) by (bit_vector);
            } else {
                assert(c & c == c) by (bit_vector);
            }
            assert(ic & ic == ic) by (bit_vector);
        }
    } else {
        assert(c & c == c) by (bit_vector);
        assert(ic & ic == ic) by (bit_vector);
    }
}

/// A crunch that does not fail EC4 adds the gained Infinities at the goal
/// (saturating) and leaves the count alone below it.
pub proof fn lemma_crunch_counts_infinities(s: GameState, at_goal: bool, entering_challenge: bool,
    achievements: Vec<u16>, studies: Vec<u16>)
    requires
        !s.crunch_fails_ec4(at_goal),
    ensures
        s.crunch_reset_spec(at_goal, entering_challenge, achievements, studies).infinities
            == (if at_goal { s.infinities.saturating_add(s.gained_infinities_spec()) } else { s.infinities }),
{
    reveal(GameState::crunch_reset_spec);
}

/// The skip-reset upgrades never lower the Dimension Boosts or Galaxies.
pub proof fn lemma_skip_resets_only_raise(s: GameState)
    ensures
        s.skip_reset_target().0 >= s.dim_boosts,
        s.skip_reset_target().1 >= s.galaxies,
{
}

/// An Eternity's layer reset honours the milestones: with 2 Eternities every
/// Normal Challenge comes back completed with its autobuyer, with 4 the
/// Infinity Upgrades are kept and the run starts at 4 boosts and a Galaxy,
/// with 8 the Break Infinity Upgrades are kept too, with 10 Replicanti stays
/// unlocked; and the Infinities always go back to 0.
pub proof fn lemma_eternity_milestones_keep(s: GameState)
    ensures
        ({
            let t = s.eternity_reset_core_spec();
            &&& s.milestone(2) ==> t.challenge.completed == ALL_NORMAL_CHALLENGES_COMPLETED
                && t.autobuyers == crate::eternity::uniform_autobuyers(true)
            &&& s.milestone(4) ==> t.infinity_upgrades == crate::eternity::ALL_INFINITY_UPGRADE_BITS
                && t.dim_boosts == 4 && t.galaxies == 1
            &&& s.milestone(8) ==> t.break_infinity_upgrades == crate::eternity::ALL_BREAK_INFINITY_UPGRADE_BITS
            &&& t.replicanti.unlocked == s.milestone(10)
            &&& t.infinities == 0
            &&& t.challenge.current == 0 && t.infinity_challenge.current == 0
        }),
{
}

/// Banking an Eternity Challenge completion never passes the completion
/// cap and never loses a completion below it.
pub proof fn lemma_ec_banking_bounded(c: u16, maxc: u16, goals_met: u16, perk: bool)
    requires
        c <= maxc,
    ensures
        c <= ec_banked_completions(c, maxc, goals_met, perk) <= maxc,
        c < maxc ==> ec_banked_completions(c, maxc, goals_met, perk) > c,
{
}

/// Toggling a Rift never leaves more than two Rifts filling.
pub proof fn lemma_rift_toggle_keeps_two(rifts: Seq<Rift>, i: int)
    requires
        rifts.len() == 5,
        0 <= i < 5,
        active_rifts(rifts, 5) <= 2,
        rifts[i].active || active_rifts(rifts, 5) < 2,
    ensures
        active_rifts(rifts.update(i, Rift { active: !rifts[i].active }), 5) <= 2,
{
    lemma_active_rifts_update(rifts, i, Rift { active: !rifts[i].active }, 5);
}

proof fn lemma_active_rifts_update(rifts: Seq<Rift>, i: int, r: Rift, n: int)
    requires
        0 <= i < rifts.len(),
        0 <= n <= rifts.len(),
    ensures
        active_rifts(rifts.update(i, r), n) == active_rifts(rifts, n)
            + (if i < n { (if r.active { 1int } else { 0int }) - (if rifts[i].active { 1int } else { 0int }) } else { 0int }),
    decreases n,
{
    if n > 0 {
        lemma_active_rifts_update(rifts, i, r, n - 1);
    }
}

/// Checking Ra's unlocks never takes one away.
pub proof fn lemma_ra_unlocks_only_grow(pets: Seq<RaPet>, bits: u32, n: u8)
    ensures
        ra_bits_after(pets, bits, n) & bits == bits,
    decreases n,
{
    if n > 0 {
        lemma_ra_unlocks_only_grow(pets, bits, (n - 1) as u8);
        let prev = ra_bits_after(pets, bits, (n - 1) as u8);
        let id = (n - 1) as u8;
        assert((prev | (1u32 << id)) & bits == bits) by (bit_vector)
            requires
                prev & bits == bits,
        ;
    } else {
        assert(bits & bits == bits) by (bit_vector);
    }
}

/// In Normal Challenge 8 the Dimension Boosts never pass 5.
pub proof fn lemma_nc8_boost_cap(s: GameState, bulk: u32)
    requires
        s.challenge_running_spec(8),
        s.dim_boosts <= 5,
    ensures
        boosts_after(s, bulk) <= 5,
{
}

/// Equipping a glyph moves it from the inventory to the active list: the
/// number of glyphs held is unchanged.
pub proof fn lemma_equip_keeps_glyph_count(inventory: Seq<Glyph>, active: Seq<Glyph>, pos: int, g: Glyph)
    requires
        0 <= pos < inventory.len(),
    ensures
        inventory.remove(pos).len() + active.push(g).len() == inventory.len() + active.len(),
{
}

/// The Singularity cap steps stay within 0–50.
pub proof fn lemma_singularity_cap_bounded(n: u32)
    requires
        n <= 50,
    ensures
        (if n < 50 { n + 1 } else { n as int }) <= 50,
        (if n > 0 { n - 1 } else { 0int }) >= 0,
{
}

/// Once boosts no longer unlock Dimensions, a bulk of boosts that is
/// affordable stays affordable with fewer boosts: the requirement grows with
/// the bulk.
pub proof fn lemma_boost_affordability_downward(s: GameState, b1: int, b2: int, unlocked_dims: usize,
    amounts: [u64; 8])
    requires
        1 <= b1 <= b2,
        s.dim_boosts + 4 >= (if s.challenge_running_spec(10) { 6int } else { 8int }),
        s.boost_satisfied(b2, unlocked_dims, amounts),
    ensures
        s.boost_satisfied(b1, unlocked_dims, amounts),
{
    let t1 = s.dim_boosts + b1;
    let t2 = s.dim_boosts + b2;
    assert(s.boost_tier(t1) == s.boost_tier(t2));
    if s.eternity_challenge_current == 5 {
        let u1 = t1 - 1;
        let u2 = t2 - 1;
        assert(u1 * u1 * u1 <= u2 * u2 * u2) by (nonlinear_arith)
            requires
                0 <= u1 <= u2,
        ;
    }
    assert(s.boost_raw_amount(b1) <= s.boost_raw_amount(b2)) by (nonlinear_arith)
        requires
            s.boost_raw_amount(b1) == 20 + (if s.boost_tier(t1) == 6 && s.challenge_running_spec(10) {
                crate::galaxy::sat_sub(t1, 3) * (20 - ((if s.has_time_study(211) { 5int } else { 0int })
                    + (if s.has_time_study(222) { 2int } else { 0int })))
            } else if s.boost_tier(t1) == 8 {
                crate::galaxy::sat_sub(t1, 5) * (15 - ((if s.has_time_study(211) { 5int } else { 0int })
                    + (if s.has_time_study(222) { 2int } else { 0int })))
            } else {
                0
            }) + (if s.eternity_challenge_current == 5 { (t1 - 1) * (t1 - 1) * (t1 - 1) + (t1 - 1) } else { 0 }),
            s.boost_raw_amount(b2) == 20 + (if s.boost_tier(t2) == 6 && s.challenge_running_spec(10) {
                crate::galaxy::sat_sub(t2, 3) * (20 - ((if s.has_time_study(211) { 5int } else { 0int })
                    + (if s.has_time_study(222) { 2int } else { 0int })))
            } else if s.boost_tier(t2) == 8 {
                crate::galaxy::sat_sub(t2, 5) * (15 - ((if s.has_time_study(211) { 5int } else { 0int })
                    + (if s.has_time_study(222) { 2int } else { 0int })))
            } else {
                0
            }) + (if s.eternity_challenge_current == 5 { (t2 - 1) * (t2 - 1) * (t2 - 1) + (t2 - 1) } else { 0 }),
            s.boost_tier(t1) == s.boost_tier(t2),
            t1 <= t2,
            t1 >= 1,
            s.eternity_challenge_current == 5 ==> (t1 - 1) * (t1 - 1) * (t1 - 1) <= (t2 - 1) * (t2 - 1) * (t2 - 1),
    ;
}

/// "Max boosts" buys the largest affordable bulk up to its estimate: no
/// larger affordable bulk within the estimate is left.
pub proof fn lemma_max_boost_choice_is_largest(s: GameState, b: u32, other: u32, unlocked_dims: usize,
    amounts: [u64; 8])
    requires
        s.max_boost_choice(b, unlocked_dims, amounts),
        1 <= other <= s.max_boost_estimate(amounts),
        s.boost_satisfied(other as int, unlocked_dims, amounts),
        s.dim_boosts + 4 >= (if s.challenge_running_spec(10) { 6int } else { 8int }),
        b <= s.max_boost_estimate(amounts),
    ensures
        other <= b,
{
    if other > b && b != s.max_boost_estimate(amounts) {
        lemma_boost_affordability_downward(s, b + 1, other as int, unlocked_dims, amounts);
    }
}

/// A reward-free Eternity reset ends a dilated run but keeps the Dilation
/// studies; entering an Eternity Challenge keeps the run going.
pub proof fn lemma_eternity_ends_dilated_run(s: GameState, entering_ec: bool, studies: Vec<u16>)
    ensures
        s.eternity_full_reset_spec(entering_ec, studies).dilation.active == (s.dilation.active && entering_ec),
        s.eternity_full_reset_spec(entering_ec, studies).dilation.studies == s.dilation.studies,
        s.eternity_full_reset_spec(entering_ec, studies).eternity_challenge_current == 0,
{
}

/// Starting an Eternity Challenge leaves it running, whether or not an
/// Eternity came first.
pub proof fn lemma_ec_start_runs_it(s: GameState, id: u8, ip_at_limit: bool, ec_goals_met: u16,
    gained_eternities: u64, studies: Vec<u16>)
    ensures
        s.ec_started_spec(id, ip_at_limit, ec_goals_met, gained_eternities, studies).eternity_challenge_current == id,
{
}

/// Crediting a rewarded crunch keeps the running challenge going when
/// "retry challenges" is on, and leaves it otherwise.
pub proof fn lemma_retry_keeps_challenge(s: GameState)
    ensures
        s.options.retry_challenge ==> s.completion_handled().challenge.current == s.challenge.current
            && s.completion_handled().infinity_challenge.current == s.infinity_challenge.current,
        !s.options.retry_challenge ==> s.completion_handled().challenge.current == (if s.infinity_challenge.current != 0 {
                s.challenge.current
            } else {
                0
            })
            && s.completion_handled().infinity_challenge.current == 0,
{
}

/// A glyph added to the inventory takes an id no held glyph has: when the
/// ids of the equipped and stored glyphs are distinct, they stay distinct
/// with the added glyph stored under the id one past the largest.
pub proof fn lemma_added_glyph_id_is_fresh(s: GameState, glyph: Glyph, slot: u32)
    requires
        glyph_ids_distinct(s.reality.glyphs.active@ + s.reality.glyphs.inventory@),
        s.max_glyph_id_spec() < u32::MAX,
    ensures
        glyph_ids_distinct(s.reality.glyphs.active@ + s.reality.glyphs.inventory@.push(
            Glyph { id: (s.max_glyph_id_spec() + 1) as u32, idx: slot, ..glyph })),
{
    let a = s.reality.glyphs.active@;
    let inv = s.reality.glyphs.inventory@;
    let g = Glyph { id: (s.max_glyph_id_spec() + 1) as u32, idx: slot, ..glyph };
    lemma_max_id_bounds(a, a.len() as int);
    lemma_max_id_bounds(inv, inv.len() as int);
    let all = a + inv.push(g);
    assert(all == (a + inv).push(g));
    assert forall|i: int, j: int| 0 <= i < j < all.len() implies all[i].id != all[j].id by {
        if j == all.len() - 1 {
            if i < a.len() {
                assert(all[i] == a[i]);
            } else {
                assert(all[i] == inv[i - a.len()]);
            }
        } else {
            assert(all[i] == (a + inv)[i]);
            assert(all[j] == (a + inv)[j]);
        }
    }
}

/// A Perk-Shop entry reaches its cost cap after exactly 11 purchases for
/// the glyph-level and Reality-Machine entries, 4 for bulk Dilation and 2 for
/// the autobuyer speed.
pub proof fn lemma_perk_shop_purchase_limits(id: usize, bought: nat)
    requires
        id < 4,
    ensures
        perk_shop_cost_at(id, bought) >= perk_shop_cost_cap(id)
            <==> bought >= (if id == 2 { 4nat } else if id == 3 { 2nat } else { 11nat }),
    decreases bought,
{
    reveal_with_fuel(perk_shop_cost_at, 12);
    if bought > 11 {
        lemma_perk_shop_purchase_limits(id, (bought - 1) as nat);
    }
}

/// An Infinity Upgrade is bought once: with its bit set, buying it again is
/// refused whatever the Infinity Points.
pub proof fn lemma_infinity_upgrade_bought_once(s: GameState, u: InfinityUpgrade, affordable: bool)
    ensures
        !(GameState { infinity_upgrades: s.infinity_upgrades | upgrade_bit(u), ..s })
            .can_buy_infinity_upgrade_spec(u, affordable),
{
    let i = upgrade_index(u) as u32;
    let x = s.infinity_upgrades;
    assert(i < 16);
    assert(((x | (1u32 << i)) & (1u32 << i)) != 0) by (bit_vector)
        requires
            i < 16;
}

/// Taking the glyphs off loses none and makes none: the equipped and stored
/// glyphs together number as many as before.
pub proof fn lemma_unequip_keeps_glyph_count(active: Seq<Glyph>, inventory: Seq<Glyph>, protected: int)
    ensures
        unequipped(active, inventory, protected).0.len() + unequipped(active, inventory, protected).1.len()
            == active.len() + inventory.len(),
    decreases active.len(),
{
    if active.len() > 0 {
        match first_free_from(inventory, protected) {
            None => {},
            Some(slot) => {
                lemma_unequip_keeps_glyph_count(active.drop_last(),
                    inventory.push(Glyph { idx: slot, ..active.last() }), protected);
            },
        }
    }
}

/// A glyph taken off keeps its id: every id equipped or stored afterwards
/// was held before, and every id held before is held afterwards.
pub proof fn lemma_unequip_keeps_glyph_ids(active: Seq<Glyph>, inventory: Seq<Glyph>, protected: int, id: u32)
    ensures
        ((exists|j: int| 0 <= j < active.len() && active[j].id == id)
            || (exists|j: int| 0 <= j < inventory.len() && inventory[j].id == id))
        <==> ((exists|j: int| 0 <= j < unequipped(active, inventory, protected).0.len()
                && unequipped(active, inventory, protected).0[j].id == id)
            || (exists|j: int| 0 <= j < unequipped(active, inventory, protected).1.len()
                && unequipped(active, inventory, protected).1[j].id == id)),
    decreases active.len(),
{
    if active.len() > 0 {
        match first_free_from(inventory, protected) {
            None => {},
            Some(slot) => {
                let g = Glyph { idx: slot, ..active.last() };
                let a2 = active.drop_last();
                let i2 = inventory.push(g);
                lemma_unequip_keeps_glyph_ids(a2, i2, protected, id);
                let n = active.len() - 1;
                if exists|j: int| 0 <= j < active.len() && active[j].id == id {
                    let j = choose|j: int| 0 <= j < active.len() && active[j].id == id;
                    if j == n {
                        assert(i2[inventory.len() as int].id == id);
                    } else {
                        assert(a2[j].id == id);
                    }
                }
                if exists|j: int| 0 <= j < inventory.len() && inventory[j].id == id {
                    let j = choose|j: int| 0 <= j < inventory.len() && inventory[j].id == id;
                    assert(i2[j].id == id);
                }
                if exists|j: int| 0 <= j < a2.len() && a2[j].id == id {
                    let j = choose|j: int| 0 <= j < a2.len() && a2[j].id == id;
                    assert(active[j].id == id);
                }
                if exists|j: int| 0 <= j < i2.len() && i2[j].id == id {
                    let j = choose|j: int| 0 <= j < i2.len() && i2[j].id == id;
                    if j == inventory.len() {
                        assert(active[n].id == id);
                    } else {
                        assert(inventory[j].id == id);
                    }
                }
            },
        }
    }
}

/// Unlocking an achievement keeps every achievement already unlocked, adds
/// the new one, and lists each once when the list did.
pub proof fn lemma_achievements_only_grow(s: Seq<u16>, id: u16)
    ensures
        forall|a: u16| s.contains(a) ==> #[trigger] seq_with(s, id).contains(a),
        seq_with(s, id).contains(id),
        s.no_duplicates() ==> seq_with(s, id).no_duplicates(),
        seq_with(s, id).len() == s.len() + (if s.contains(id) { 0int } else { 1int }),
{
    if !s.contains(id) {
        assert forall|a: u16| s.contains(a) implies #[trigger] seq_with(s, id).contains(a) by {
            let j = choose|j: int| 0 <= j < s.len() && s[j] == a;
            assert(s.push(id)[j] == a);
        }
        assert(s.push(id)[s.len() as int] == id);
    }
}

/// The Dilation studies held form a chain: each but the first comes after
/// the one before it, and none is held twice.
pub open spec fn dilation_studies_chained(studies: Seq<u8>) -> bool {
    &&& studies.no_duplicates()
    &&& forall|i: int| 0 <= i < studies.len() ==> 1 <= #[trigger] studies[i] <= 6
        && (studies[i] == 1 || studies.contains((studies[i] - 1) as u8))
}

/// Buying a Dilation study keeps the held studies a chain: a study is only
/// bought after the one before it, and only once.
pub proof fn lemma_dilation_studies_stay_chained(s: GameState, id: u8, tt_affordable: bool, tt_requirement: bool,
    study6_requirement: bool)
    requires
        dilation_studies_chained(s.dilation.studies@),
        s.can_buy_dilation_study_spec(id, tt_affordable, tt_requirement, study6_requirement),
    ensures
        dilation_studies_chained(s.dilation.studies@.push(id)),
{
    let old_s = s.dilation.studies@;
    let new_s = old_s.push(id);
    assert forall|i: int| 0 <= i < new_s.len() implies 1 <= #[trigger] new_s[i] <= 6
        && (new_s[i] == 1 || new_s.contains((new_s[i] - 1) as u8)) by {
        if i < old_s.len() {
            assert(new_s[i] == old_s[i]);
            if old_s[i] != 1 {
                let j = choose|j: int| 0 <= j < old_s.len() && old_s[j] == (old_s[i] - 1) as u8;
                assert(new_s[j] == old_s[j]);
            }
        } else {
            assert(new_s[i] == id);
            if id != 1 {
                let prev = (id - 1) as u8;
                assert(old_s.contains(prev));
                let j = choose|j: int| 0 <= j < old_s.len() && old_s[j] == prev;
                assert(new_s[j] == old_s[j]);
            }
        }
    }
    assert(new_s.no_duplicates()) by {
        assert forall|i: int, j: int| 0 <= i < new_s.len() && 0 <= j < new_s.len() && i != j
            implies new_s[i] != new_s[j] by {
            if i < old_s.len() && j < old_s.len() {
                assert(new_s[i] == old_s[i] && new_s[j] == old_s[j]);
            } else if i < old_s.len() {
                assert(new_s[i] == old_s[i]);
                assert(!old_s.contains(id));
            } else {
                assert(new_s[j] == old_s[j]);
                assert(!old_s.contains(id));
            }
        }
    }
}

/// No two glyphs of `s` sit in the same slot.
pub open spec fn glyph_slots_distinct(s: Seq<Glyph>) -> bool {
    forall|i: int, j: int| 0 <= i < j < s.len() ==> s[i].idx != s[j].idx
}

/// The first free slot found from `t` on is free.
pub proof fn lemma_first_free_is_free(s: Seq<Glyph>, t: int)
    ensures
        first_free_from(s, t) matches Some(slot) ==> !slot_taken(s, slot) && t <= slot < 120,
    decreases 120 - t,
{
    if 0 <= t < 120 && slot_taken(s, t as u32) {
        lemma_first_free_is_free(s, t + 1);
    }
}

/// A glyph stored into a free slot keeps the stored glyphs in distinct
/// slots.
pub proof fn lemma_stored_glyph_slots_stay_distinct(inventory: Seq<Glyph>, g: Glyph, slot: u32)
    requires
        glyph_slots_distinct(inventory),
        !slot_taken(inventory, slot),
    ensures
        glyph_slots_distinct(inventory.push(Glyph { idx: slot, ..g })),
{
    let n = inventory.push(Glyph { idx: slot, ..g });
    assert forall|i: int, j: int| 0 <= i < j < n.len() implies n[i].idx != n[j].idx by {
        if j == inventory.len() {
            assert(n[i] == inventory[i]);
        } else {
            assert(n[i] == inventory[i] && n[j] == inventory[j]);
        }
    }
}

/// Taking the glyphs off keeps the stored glyphs in distinct slots.
pub proof fn lemma_unequip_keeps_slots_distinct(active: Seq<Glyph>, inventory: Seq<Glyph>, protected: int)
    requires
        glyph_slots_distinct(inventory),
    ensures
        glyph_slots_distinct(unequipped(active, inventory, protected).1),
    decreases active.len(),
{
    if active.len() > 0 {
        match first_free_from(inventory, protected) {
            None => {},
            Some(slot) => {
                lemma_first_free_is_free(inventory, protected);
                lemma_stored_glyph_slots_stay_distinct(inventory, active.last(), slot);
                lemma_unequip_keeps_slots_distinct(active.drop_last(),
                    inventory.push(Glyph { idx: slot, ..active.last() }), protected);
            },
        }
    }
}

/// A rewarded Eternity adds the gained Eternities (saturating), marks
/// Eternity unlocked, starts the Infinity count over, and keeps Infinity
/// unlocked.
pub proof fn lemma_eternity_counts_eternities(s: GameState, entering_ec: bool, ec_goals_met: u16,
    gained_eternities: u64, studies: Vec<u16>)
    ensures
        s.eternity_spec(entering_ec, ec_goals_met, gained_eternities, studies).eternities
            == s.eternities.saturating_add(gained_eternities),
        s.eternity_spec(entering_ec, ec_goals_met, gained_eternities, studies).eternity_unlocked,
        s.eternity_spec(entering_ec, ec_goals_met, gained_eternities, studies).infinities == 0,
        s.eternity_spec(entering_ec, ec_goals_met, gained_eternities, studies).infinity_unlocked
            == s.infinity_unlocked,
{
}


/// Auto-completion never lowers a challenge's completions, and never lifts
/// one that was at most 5 past 5.
pub proof fn lemma_ec_auto_fill_bounded(s: Seq<u16>, k: int, i: int)
    requires
        0 <= i < s.len(),
    ensures
        s[i] <= ec_auto_filled(s, k, i),
        s[i] <= 5 ==> ec_auto_filled(s, k, i) <= 5,
{
}

/// The completions missing from a prefix are never negative.
proof fn lemma_ec_room_before_nonneg(s: Seq<u16>, n: int)
    ensures
        0 <= ec_room_before(s, n),
    decreases n,
{
    if n > 0 {
        lemma_ec_room_before_nonneg(s, n - 1);
    }
}

/// Over the first `n` challenges, auto-completion adds the smaller of `k`
/// and the completions missing there.
proof fn lemma_ec_auto_fill_prefix_total(s: Seq<u16>, k: int, n: int)
    requires
        0 <= k,
        0 <= n <= s.len(),
    ensures
        sum_prefix(Seq::new(s.len(), |i: int| ec_auto_filled(s, k, i)), n)
            == sum_prefix(s, n) + (if k <= ec_room_before(s, n) { k } else { ec_room_before(s, n) }),
    decreases n,
{
    if n > 0 {
        lemma_ec_auto_fill_prefix_total(s, k, n - 1);
        lemma_ec_room_before_nonneg(s, n - 1);
    }
}

/// Auto-completion adds, summed over the challenges, exactly as many
/// completions as it reports: the whole intervals elapsed, or the completions
/// still missing if those are fewer.
pub proof fn lemma_ec_auto_complete_adds_reported(s: Seq<u16>, intervals: u64)
    requires
        s.len() == 12,
    ensures
        sum_prefix(Seq::new(12, |i: int| ec_auto_filled(s, intervals as int, i)), 12)
            == sum_prefix(s, 12) + (if intervals <= ec_room_before(s, 12) {
                intervals as int
            } else {
                ec_room_before(s, 12)
            }),
{
    lemma_ec_auto_fill_prefix_total(s, intervals as int, 12);
}


/// Setting Remembrance to the same pet twice restores it, when it was with
/// no pet or with that pet. (From another pet the first call moves it to
/// `pet` and the second takes it away.)
pub proof fn lemma_remembrance_toggle_twice(current: i8, pet: i8)
    requires
        current == -1 || current == pet,
    ensures
        remembrance_toggled(remembrance_toggled(current, pet), pet) == current,
{
}


/// Over each group of five Realities (Realities `5g + 1` to `5g + 5` of the
/// first 20), uniformity leaves out every basic type exactly once: each type
/// is offered in four of the five.
pub proof fn lemma_uniform_group_leaves_each_type_out_once(seed: u64, g: int)
    requires
        0 <= g < 4,
    ensures
        Seq::new(5, |k: int| uniform_type_perm(seed, (5 * g + k + 1) as u32)[uniform_slot((5 * g + k + 1) as u32)])
            .to_multiset() == range_seq(5).to_multiset(),
{
    let first = uniform_type_perm(seed, (5 * g + 1) as u32);
    let left_out = Seq::new(5, |k: int| uniform_type_perm(seed, (5 * g + k + 1) as u32)[uniform_slot((5 * g + k + 1) as u32)]);
    assert forall|k: int| 0 <= k < 5 implies #[trigger] left_out[k] == first[k] by {
        assert(uniform_group((5 * g + k + 1) as u32) == g);
        assert(uniform_group((5 * g + 1) as u32) == g);
        assert(uniform_slot((5 * g + k + 1) as u32) == k);
    }
    lemma_permutation_index_is_permutation(5, (31 + seed % 7) * g + seed % 1123);
    assert(first.to_multiset() == range_seq(5).to_multiset());
    assert(first.to_multiset().len() == 5) by {
        broadcast use vstd::seq_lib::group_to_multiset_ensures;
    }
    assert(first.len() == 5) by {
        broadcast use vstd::seq_lib::group_to_multiset_ensures;
    }
    assert(left_out =~= first);
}


/// Outside Normal Challenge 10 and EC5, below the remote-scaling start, the
/// next Galaxy needs 80 Dimensions plus 52 (Time Study 42) or 60 per Galaxy
/// held, plus `d² + d` for the `d = g − start + 1` Galaxies past the
/// distant-scaling start (100, +7 with Time Study 223, +1 per 2000 boosts
/// with Time Study 224, +5 per EC5 completion, plus the glyph bonus), less the
/// requirement reductions. The Galaxies below the start add only their linear
/// step: 150 Galaxies with no modifiers need 11732.
pub proof fn lemma_galaxy_requirement_formula(s: GameState, glyph_sac_power: u32)
    requires
        s.challenge.current != 10,
        s.infinity_challenge.current != 1,
        s.eternity_challenge_current != 5,
        s.galaxies < 800,
    ensures
        ({
            let g = s.galaxies as int;
            let mult: int = if s.has_time_study(42) { 52 } else { 60 };
            let start = 100 + (if s.has_time_study(223) { 7int } else { 0int })
                + (if s.has_time_study(224) { (s.dim_boosts / 2000) as int } else { 0int })
                + 5 * s.eternity_challenges[4] + glyph_sac_power;
            let d = g - start + 1;
            let raw = 80 + g * mult + (if d >= 1 { d * d + d } else { 0 });
            let red = s.requirement_reduction();
            s.galaxy_requirement_spec(glyph_sac_power) == Some((if raw >= red { raw - red } else { 0 }) as u64)
        }),
{
}

/// With 150 Galaxies and nothing else, the next Galaxy needs 11732: the
/// distant term counts only the 51 Galaxies from the scaling start on.
pub proof fn lemma_galaxy_requirement_at_150()
    ensures
        forall|s: GameState| s.galaxies == 150 && s.challenge.current == 0 && s.infinity_challenge.current == 0
            && s.eternity_challenge_current == 0 && s.eternity_challenges[4] == 0
            && !s.has_time_study(42) && !s.has_time_study(223) && !s.has_time_study(224)
            && s.requirement_reduction() == 0
            ==> #[trigger] s.galaxy_requirement_spec(0) == Some(11732u64),
{
    assert forall|s: GameState| s.galaxies == 150 && s.challenge.current == 0 && s.infinity_challenge.current == 0
        && s.eternity_challenge_current == 0 && s.eternity_challenges[4] == 0
        && !s.has_time_study(42) && !s.has_time_study(223) && !s.has_time_study(224)
        && s.requirement_reduction() == 0
        implies #[trigger] s.galaxy_requirement_spec(0) == Some(11732u64) by {
        lemma_galaxy_requirement_formula(s, 0);
        assert(51int * 51 + 51 == 2652);
        assert(150int * 60 == 9000);
        assert((s.dim_boosts / 2000) as int >= 0);
    }
}

/// A Big Crunch (one that does not fail EC4) leaves `min(RG, a + t)` of the
/// `RG` Replicanti Galaxies, where `a` is 1 with achievement 95 (when there
/// is one) and `t` is half of them, rounded down, with Time Study 33: with
/// Time Study 33 at least half stay.
pub proof fn lemma_crunch_keeps_replicanti_galaxies(s: GameState, at_goal: bool, entering_challenge: bool,
    achievements: Vec<u16>, studies: Vec<u16>)
    requires
        !s.crunch_fails_ec4(at_goal),
        achievements@.contains(95) == s.has_achievement(95),
    ensures
        ({
            let rg = s.replicanti.galaxies as int;
            let a: int = if s.has_achievement(95) && rg >= 1 { 1 } else { 0 };
            let t: int = if s.has_time_study(33) { rg / 2 } else { 0 };
            let after = s.crunch_reset_spec(at_goal, entering_challenge, achievements, studies);
            &&& after.replicanti.galaxies == (if a + t <= rg { a + t } else { rg })
            &&& s.has_time_study(33) ==> after.replicanti.galaxies >= rg / 2
        }),
{
    reveal(GameState::crunch_reset_spec);
}

/// Banking the running Eternity Challenge's completion on an Eternity: from
/// `c` completions of at most `m`, without the ECB perk (73) in effect the
/// challenge reaches exactly `min(c + 1, m)`, whatever goals were met; with
/// it, also every further tier whose goal is met, `max(min(c + 1, m),
/// min(goals_met, m))`. The other challenges keep their completions.
pub proof fn lemma_ec_banking_one_per_eternity(s: GameState, goals_met: u16, studies: Vec<u16>)
    requires
        1 <= s.eternity_challenge_current <= 12,
    ensures
        ({
            let i = s.eternity_challenge_current - 1;
            let c = s.eternity_challenges[i] as int;
            let m = s.ec_max_completions_spec(s.eternity_challenge_current) as int;
            let one = if c < m { c + 1 } else { m };
            let met = if (goals_met as int) < m { goals_met as int } else { m };
            let after = s.ec_banked_spec(goals_met, studies);
            &&& after.eternity_challenges[i] == (if !s.perk_applies_spec(73) {
                one
            } else if one < met {
                met
            } else {
                one
            })
            &&& forall|j: int| 0 <= j < 12 && j != i ==> after.eternity_challenges[j] == s.eternity_challenges[j]
        }),
{
    broadcast use vstd::array::group_array_axioms;
}

/// Outside Doom the Glyph slots are 3, plus one with Reality Upgrade 9 and
/// one with Reality Upgrade 24: buying either adds exactly one slot.
pub proof fn lemma_glyph_slots_per_upgrade(s: GameState, vacuum_milestone: bool)
    requires
        !s.celestials.pelle.doomed,
    ensures
        s.active_slot_count_spec(vacuum_milestone) == 3
            + (if s.reality.upgrade_bits & (1u32 << 9u32) != 0 { 1int } else { 0int })
            + (if s.reality.upgrade_bits & (1u32 << 24u32) != 0 { 1int } else { 0int }),
{
}

/// Outside Normal Challenge 10 and EC5, `bulk` more boosts at `b` boosts
/// need 20 Dimensions of tier `b + bulk + 3` while that is at most the 8th;
/// past it, 20 8th Dimensions plus, per boost past the fifth,
/// `15 − 5·[Time Study 211] − 2·[Time Study 222]`; less the requirement
/// reductions. So Time Study 211 lowers each scaled step by 5: at 10 boosts,
/// with only Time Study 211, the next boost needs 80 8th Dimensions.
pub proof fn lemma_boost_requirement_formula(s: GameState, bulk: int)
    requires
        s.challenge.current != 10,
        s.infinity_challenge.current != 1,
        s.eternity_challenge_current != 5,
        0 <= bulk,
    ensures
        ({
            let t = s.dim_boosts + bulk;
            let red = s.requirement_reduction();
            let step: int = 15 - (if s.has_time_study(211) { 5int } else { 0int })
                - (if s.has_time_study(222) { 2int } else { 0int });
            let raw = if t + 3 <= 8 { 20 } else { 20 + (t - 5) * step };
            s.boost_requirement_spec(bulk) == (
                (if t + 3 <= 8 { t + 2 } else { 7 }) as usize,
                clamp_u64(if raw >= red { raw - red } else { 0 }),
            )
        }),
{
    let t = s.dim_boosts + bulk;
    let discount = (if s.has_time_study(211) { 5int } else { 0int })
        + (if s.has_time_study(222) { 2int } else { 0int });
    let step: int = 15 - (if s.has_time_study(211) { 5int } else { 0int })
        - (if s.has_time_study(222) { 2int } else { 0int });
    assert(!s.challenge_running_spec(10));
    assert(s.boost_tier(t) == (if t + 3 <= 8 { t + 3 } else { 8 }));
    assert(step == 15 - discount);
    if t + 3 > 8 {
        assert(crate::galaxy::sat_sub(t, 5) == t - 5);
        assert(s.boost_raw_amount(bulk) == 20 + (t - 5) * step);
    } else {
        assert(s.boost_raw_amount(bulk) == 20 + (if t + 3 == 8 { crate::galaxy::sat_sub(t, 5) * (15 - discount) } else { 0 }));
        assert(s.boost_raw_amount(bulk) == 20);
    }
}

/// At 10 boosts with Time Study 211 only (no challenge, no reductions), the
/// next boost needs 80 8th Dimensions.
pub proof fn lemma_boost_requirement_with_ts211()
    ensures
        forall|s: GameState| s.dim_boosts == 10 && s.challenge.current == 0 && s.infinity_challenge.current == 0
            && s.eternity_challenge_current == 0 && s.has_time_study(211) && !s.has_time_study(222)
            && s.requirement_reduction() == 0
            ==> #[trigger] s.boost_requirement_spec(1) == (7usize, 80u64),
{
    assert forall|s: GameState| s.dim_boosts == 10 && s.challenge.current == 0 && s.infinity_challenge.current == 0
        && s.eternity_challenge_current == 0 && s.has_time_study(211) && !s.has_time_study(222)
        && s.requirement_reduction() == 0
        implies #[trigger] s.boost_requirement_spec(1) == (7usize, 80u64) by {
        lemma_boost_requirement_formula(s, 1);
    }
}

} // verus!
