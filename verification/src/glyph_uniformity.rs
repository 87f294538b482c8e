//! Glyph uniformity over the first 20 Realities: the four glyphs offered each
//! Reality cover four different basic types, and each gets one effect chosen
//! so that, group by group, every type's effects come round in turn. The
//! choices are driven by the initial seed alone; only the rolling of the
//! glyphs themselves is random.
use vstd::prelude::*;
use crate::state::GameState;
use crate::glyphs::{lehmer_decode, range_seq, factorial, permutation_index};
use crate::laws::lemma_permutation_index_is_permutation;
use crate::util::{popcount, count_ones};

verus! {

/// The group of five Realities that Reality `rc` (1–20) falls in.
pub open spec fn uniform_group(rc: u32) -> int {
    (rc - 1) / 5
}

/// The position of Reality `rc` within its group.
pub open spec fn uniform_slot(rc: u32) -> int {
    (rc - 1) % 5
}

/// The order in which the group of Reality `rc` leaves out one basic type
/// per Reality (indices into Power, Infinity, Replication, Time, Dilation).
pub open spec fn uniform_type_perm(seed: u64, rc: u32) -> Seq<usize> {
    lehmer_decode(range_seq(5),
        ((31 + seed % 7) * uniform_group(rc) + seed % 1123) % (factorial(5) as int))
}

/// The basic types of the four glyphs of Reality `rc`: every type but the
/// one its slot leaves out, in type order.
pub open spec fn uniform_types(seed: u64, rc: u32) -> Seq<usize> {
    range_seq(5).remove(uniform_type_perm(seed, rc)[uniform_slot(rc)] as int)
}

/// How many of the first `n` entries of `perm` differ from `t`: the number of
/// Realities of the group so far that offered type `t`.
pub open spec fn count_other(perm: Seq<usize>, t: usize, n: int) -> int
    decreases n,
{
    if n <= 0 { 0 } else { count_other(perm, t, n - 1) + (if perm[n - 1] != t { 1int } else { 0 }) }
}

/// The lowest effect bit of basic type `ty`.
pub open spec fn uniform_start_bit(ty: int) -> int {
    if ty == 0 { 16 } else if ty == 1 { 12 } else if ty == 2 { 8 } else if ty == 3 { 0 } else { 4 }
}

/// The primary effect bit of basic type `ty`, which every glyph of it has.
pub open spec fn uniform_primary_bit(ty: int) -> Option<u8> {
    if ty == 0 { Some(16u8) } else if ty == 1 { Some(12u8) } else if ty == 3 { Some(0u8) } else { None }
}

/// The effect bit Reality `rc` gives its glyph of basic type `ty`: the
/// type's effects in a seed-driven order, one further each time the group
/// has offered the type.
pub open spec fn uniform_effect_bit(seed: u64, rc: u32, ty: int) -> int {
    let order = lehmer_decode(range_seq(4),
        (5 * ty + (7 + seed % 5) * uniform_group(rc) + seed % 11) % (factorial(4) as int));
    uniform_start_bit(ty) + order[count_other(uniform_type_perm(seed, rc), ty as usize, uniform_slot(rc))]
}

/// The effect bits in the order they are dropped from an overfull glyph.
pub open spec fn ordered_generated_bits() -> Seq<u8> {
    seq![16u8, 12, 9, 0, 7, 17, 18, 19, 6, 15, 14, 3, 4, 10, 8, 2, 5, 13, 11, 1]
}

/// Whether bit `b` of `rolled` is set and may be dropped (not a primary
/// effect).
pub open spec fn removable(rolled: u32, b: u8) -> bool {
    rolled & (1u32 << b) != 0 && b != 0 && b != 12 && b != 16
}

/// The removable effects of `rolled`, in drop order.
pub open spec fn removable_bits(rolled: u32) -> Seq<u8> {
    ordered_generated_bits().filter(|b: u8| removable(rolled, b))
}

/// The effect mask of glyph `i` (0–3, of basic type `ty`) of Reality `rc`,
/// rolled with the effects `rolled`. Its uniform effect either replaces the
/// rolled ones or joins them, alternating with `seed + rc + i`; a mask with
/// more effects than allowed (2, 3 with Reality Upgrade 17) loses one of
/// the rolled removable effects, picked by `seed + rc`; the type's primary
/// effect is always kept.
pub open spec fn uniform_mask(seed: u64, rc: u32, i: int, rolled: u32, ru17: bool, ty: int) -> u32 {
    let bit = 1u32 << (uniform_effect_bit(seed, rc, ty) as u8);
    let joined = if (seed + rc + i) % 2 == 0 { bit } else { rolled | bit };
    let max_effects: nat = if ru17 { 3 } else { 2 };
    let rep = removable_bits(rolled);
    let trimmed = if popcount(joined) > max_effects && rep.len() > 0 {
        joined & !(1u32 << rep[(seed + rc) % (rep.len() as int)])
    } else {
        joined
    };
    match uniform_primary_bit(ty) {
        Some(p) => trimmed | (1u32 << p),
        None => trimmed,
    }
}

/// `count_other` counts at most `n`, and fewer when `t` occurs among the
/// first `n` entries.
proof fn lemma_count_other_bound(perm: Seq<usize>, t: usize, n: int, k: int)
    requires
        0 <= n,
    ensures
        0 <= count_other(perm, t, n) <= n,
        0 <= k < n && perm[k] == t ==> count_other(perm, t, n) <= n - 1,
    decreases n,
{
    if n > 0 {
        lemma_count_other_bound(perm, t, n - 1, k);
    }
}

/// The entries of a decoded permutation of `0..len` are below `len`, and
/// each `t < len` occurs.
proof fn lemma_perm_entries(len: nat, idx: int)
    requires
        1 <= len,
    ensures
        lehmer_decode(range_seq(len), idx % (factorial(len) as int)).len() == len,
        forall|j: int| 0 <= j < len ==> #[trigger] lehmer_decode(range_seq(len), idx % (factorial(len) as int))[j] < len,
        forall|t: usize| t < len ==> #[trigger] lehmer_decode(range_seq(len), idx % (factorial(len) as int)).contains(t),
{
    broadcast use vstd::seq_lib::group_to_multiset_ensures;
    lemma_permutation_index_is_permutation(len, idx);
    let p = lehmer_decode(range_seq(len), idx % (factorial(len) as int));
    let r = range_seq(len);
    assert(p.to_multiset().len() == r.to_multiset().len());
    assert(p.len() == len);
    assert forall|j: int| 0 <= j < len implies #[trigger] p[j] < len by {
        assert(p.contains(p[j]));
        assert(p.to_multiset().count(p[j]) > 0);
        assert(r.to_multiset().count(p[j]) > 0);
        assert(r.contains(p[j]));
    }
    assert forall|t: usize| t < len implies #[trigger] p.contains(t) by {
        assert(r[t as int] == t);
        assert(r.contains(t));
        assert(r.to_multiset().count(t) > 0);
        assert(p.to_multiset().count(t) > 0);
    }
}

/// The leave-out order of Reality `reality_count`'s group.
fn uniform_type_perm_of(initial_seed: u64, reality_count: u32) -> (r: Vec<usize>)
    requires
        1 <= reality_count <= 20,
    ensures
        r@ == uniform_type_perm(initial_seed, reality_count),
        r@.len() == 5,
        forall|j: int| 0 <= j < 5 ==> #[trigger] r@[j] < 5,
        forall|t: usize| t < 5 ==> #[trigger] r@.contains(t),
{
    let g: u64 = ((reality_count - 1) / 5) as u64;
    assert(g <= 3);
    assert((31 + initial_seed % 7) * g <= 111) by (nonlinear_arith)
        requires
            initial_seed % 7 < 7,
            g <= 3,
    ;
    let lex: u64 = (31 + initial_seed % 7) * g + initial_seed % 1123;
    let r = permutation_index(5, lex as i64);
    proof {
        lemma_perm_entries(5, lex as int);
    }
    r
}

/// The basic types (0 Power, 1 Infinity, 2 Replication, 3 Time, 4 Dilation)
/// of the four glyphs Reality `reality_count` (1–20) offers under uniformity.
pub fn uniform_glyph_types(initial_seed: u64, reality_count: u32) -> (r: Vec<usize>)
    requires
        1 <= reality_count <= 20,
    ensures
        r@ == uniform_types(initial_seed, reality_count),
        r@.len() == 4,
        forall|i: int| 0 <= i < 4 ==> #[trigger] r@[i] < 5,
{
    let perm = uniform_type_perm_of(initial_seed, reality_count);
    let slot: usize = ((reality_count - 1) % 5) as usize;
    let mut types: Vec<usize> = vec![0, 1, 2, 3, 4];
    assert(types@ =~= range_seq(5));
    let left_out = perm[slot];
    types.remove(left_out);
    types
}

/// The uniform effect bit Reality `reality_count` gives its glyph of basic
/// type `ty`.
fn uniform_effect_bit_of(initial_seed: u64, reality_count: u32, perm: &Vec<usize>, ty: usize) -> (r: u8)
    requires
        1 <= reality_count <= 20,
        perm@ == uniform_type_perm(initial_seed, reality_count),
        perm@.len() == 5,
        forall|t: usize| t < 5 ==> #[trigger] perm@.contains(t),
        ty < 5,
        ty != perm@[uniform_slot(reality_count)],
    ensures
        r == uniform_effect_bit(initial_seed, reality_count, ty as int),
        r < 20,
{
    let slot: usize = ((reality_count - 1) % 5) as usize;
    let mut seen: usize = 0;
    let mut j: usize = 0;
    while j < slot
        invariant
            slot == uniform_slot(reality_count),
            slot < 5,
            j <= slot,
            perm@.len() == 5,
            seen == count_other(perm@, ty, j as int),
            seen <= j,
        decreases slot - j,
    {
        if perm[j] != ty {
            seen = seen + 1;
        }
        j = j + 1;
    }
    proof {
        assert(perm@.contains(ty));
        let k = choose|k: int| 0 <= k < perm@.len() && perm@[k] == ty;
        assert(k != slot);
        lemma_count_other_bound(perm@, ty, slot as int, k);
    }
    assert(seen < 4);
    let g: u64 = ((reality_count - 1) / 5) as u64;
    assert(g <= 3);
    assert((7 + initial_seed % 5) * g <= 33) by (nonlinear_arith)
        requires
            initial_seed % 5 < 5,
            g <= 3,
    ;
    let lex: u64 = 5 * ty as u64 + (7 + initial_seed % 5) * g + initial_seed % 11;
    let order = permutation_index(4, lex as i64);
    proof {
        lemma_perm_entries(4, lex as int);
    }
    let start: u8 = if ty == 0 { 16 } else if ty == 1 { 12 } else if ty == 2 { 8 } else if ty == 3 { 0 } else { 4 };
    start + order[seen] as u8
}

/// The removable effects of `rolled`, in drop order.
fn removable_bits_of(rolled: u32) -> (r: Vec<u8>)
    ensures
        r@ == removable_bits(rolled),
        forall|j: int| 0 <= j < r@.len() ==> #[trigger] r@[j] < 20,
{
    let order: [u8; 20] = [16, 12, 9, 0, 7, 17, 18, 19, 6, 15, 14, 3, 4, 10, 8, 2, 5, 13, 11, 1];
    assert(order@ =~= ordered_generated_bits());
    assert(forall|j: int| 0 <= j < 20 ==> #[trigger] order@[j] < 20);
    let mut out: Vec<u8> = Vec::new();
    let mut k: usize = 0;
    while k < 20
        invariant
            k <= 20,
            order@ == ordered_generated_bits(),
            out@ == order@.take(k as int).filter(|b: u8| removable(rolled, b)),
            forall|j: int| 0 <= j < 20 ==> #[trigger] order@[j] < 20,
            forall|j: int| 0 <= j < out@.len() ==> #[trigger] out@[j] < 20,
        decreases 20 - k,
    {
        let b = order[k];
        proof {
            reveal(Seq::filter);
            assert(order@.take(k as int + 1).drop_last() =~= order@.take(k as int));
            assert(order@.take(k as int + 1).last() == b);
        }
        if rolled & (1u32 << b) != 0 && b != 0 && b != 12 && b != 16 {
            out.push(b);
        }
        k = k + 1;
    }
    assert(order@.take(20) =~= order@);
    out
}

impl GameState {
    /// The effect masks of the four glyphs Reality `reality_count` (1–20)
    /// offers under uniformity, `rolled` being the effects each glyph was
    /// rolled with (for the types of `uniform_glyph_types`, in order): see
    /// `uniform_mask`, with Reality Upgrade 17 allowing a third effect.
    pub fn uniform_glyph_effects(&self, initial_seed: u64, reality_count: u32, rolled: &Vec<u32>) -> (r: Vec<u32>)
        requires
            1 <= reality_count <= 20,
            rolled@.len() == 4,
        ensures
            r@.len() == 4,
            forall|i: int| 0 <= i < 4 ==> #[trigger] r@[i] == uniform_mask(initial_seed, reality_count, i,
                rolled@[i], self.has_reality_upgrade(17), uniform_types(initial_seed, reality_count)[i] as int),
    {
        let perm = uniform_type_perm_of(initial_seed, reality_count);
        let types = uniform_glyph_types(initial_seed, reality_count);
        let ru17 = self.reality_upgrade_bought(17);
        let max_effects: u32 = if ru17 { 3 } else { 2 };
        let ghost slot = uniform_slot(reality_count);
        let mut out: Vec<u32> = Vec::new();
        let mut i: usize = 0;
        while i < 4
            invariant
                1 <= reality_count <= 20,
                i <= 4,
                rolled@.len() == 4,
                perm@ == uniform_type_perm(initial_seed, reality_count),
                perm@.len() == 5,
                forall|t: usize| t < 5 ==> #[trigger] perm@.contains(t),
                forall|j: int| 0 <= j < 5 ==> #[trigger] perm@[j] < 5,
                types@ == uniform_types(initial_seed, reality_count),
                types@.len() == 4,
                forall|j: int| 0 <= j < 4 ==> #[trigger] types@[j] < 5,
                ru17 == self.has_reality_upgrade(17),
                max_effects == (if ru17 { 3u32 } else { 2u32 }),
                out@.len() == i,
                forall|j: int| 0 <= j < i ==> #[trigger] out@[j] == uniform_mask(initial_seed, reality_count, j,
                    rolled@[j], ru17, types@[j] as int),
            decreases 4 - i,
        {
            let ty = types[i];
            proof {
                broadcast use vstd::seq_lib::group_seq_properties;
                let left = perm@[uniform_slot(reality_count)];
                assert(range_seq(5)[left as int] == left);
                assert(types@ == range_seq(5).remove(left as int));
                assert(ty != left) by {
                    if (i as int) < left {
                        assert(types@[i as int] == range_seq(5)[i as int]);
                    } else {
                        assert(types@[i as int] == range_seq(5)[i as int + 1]);
                    }
                }
            }
            let b = uniform_effect_bit_of(initial_seed, reality_count, &perm, ty);
            let bit: u32 = 1u32 << b;
            let m = rolled[i];
            let parity = ((initial_seed as u128) + (reality_count as u128) + (i as u128)) % 2;
            let joined: u32 = if parity == 0 { bit } else { m | bit };
            let mut trimmed: u32 = joined;
            if count_ones(joined) > max_effects {
                let rep = removable_bits_of(m);
                if rep.len() > 0 {
                    let pick = (((initial_seed as u128) + (reality_count as u128)) % (rep.len() as u128)) as usize;
                    trimmed = joined & !(1u32 << rep[pick]);
                }
            }
            let masked: u32 = if ty == 0 {
                trimmed | (1u32 << 16u8)
            } else if ty == 1 {
                trimmed | (1u32 << 12u8)
            } else if ty == 3 {
                trimmed | (1u32 << 0u8)
            } else {
                trimmed
            };
            out.push(masked);
            i = i + 1;
        }
        out
    }
}

} // verus!
