//! Glyphs: equippable items granted on each Reality, their inventory slots,
//! equipping and sacrifice, and the Lehmer decoding that picks a Reality's
//! glyph without the START perk.
use vstd::prelude::*;
use crate::state::{GameState, RealityState, RequirementChecks};
use crate::util::str_equal;

verus! {

/// The glyph inventory's slots.
pub const GLYPH_TOTAL_SLOTS: u32 = 120;

/// The five basic glyph types plus the one-off companion.
#[derive(Clone, Copy, Debug, PartialEq, Eq, Structural)]
pub enum GlyphType {
    Power,
    Infinity,
    Replication,
    Time,
    Dilation,
    Companion,
}

/// A single glyph.
#[derive(Clone, Copy, Debug, PartialEq, Eq, Structural)]
pub struct Glyph {
    /// Unique id.
    pub id: u32,
    /// Slot index: inventory 0–119, active 0–4.
    pub idx: u32,
    /// Glyph type.
    pub kind: GlyphType,
    /// Effective level.
    pub level: u32,
    /// Pre-instability level.
    pub raw_level: u32,
    /// Effect bitmask.
    pub effects: u32,
}

/// Equipped and stored glyphs.
pub struct GlyphState {
    /// Equipped glyphs (`idx` = active slot).
    pub active: Vec<Glyph>,
    /// Inventory glyphs (`idx` = inventory slot).
    pub inventory: Vec<Glyph>,
    /// Protected inventory rows (the top `protected_rows × 10` slots).
    pub protected_rows: u32,
}

/// The save-string id of `t`.
pub open spec fn glyph_type_save_id(t: GlyphType) -> Seq<char> {
    match t {
        GlyphType::Power => "power"@,
        GlyphType::Infinity => "infinity"@,
        GlyphType::Replication => "replication"@,
        GlyphType::Time => "time"@,
        GlyphType::Dilation => "dilation"@,
        GlyphType::Companion => "companion"@,
    }
}

/// The index of `t` among the basic types (power, infinity, replication,
/// time, dilation); `None` for the companion.
pub open spec fn glyph_basic_index(t: GlyphType) -> Option<usize> {
    match t {
        GlyphType::Power => Some(0usize),
        GlyphType::Infinity => Some(1usize),
        GlyphType::Replication => Some(2usize),
        GlyphType::Time => Some(3usize),
        GlyphType::Dilation => Some(4usize),
        GlyphType::Companion => None,
    }
}

/// `n!`.
pub open spec fn factorial(n: nat) -> nat
    decreases n,
{
    if n == 0 { 1 } else { n * factorial((n - 1) as nat) }
}

/// `0, 1, …, n − 1`.
pub open spec fn range_seq(n: nat) -> Seq<usize> {
    Seq::new(n, |i: int| i as usize)
}

/// The Lehmer decoding of `index` over the items `ordered`: pick the item at
/// `index / (k − 1)!` (`k` items left), then decode the remainder over the
/// others.
pub open spec fn lehmer_decode(ordered: Seq<usize>, index: int) -> Seq<usize>
    decreases ordered.len(),
{
    if ordered.len() == 0 {
        Seq::empty()
    } else {
        let f = factorial((ordered.len() - 1) as nat) as int;
        let div = index / f;
        if 0 <= div < ordered.len() {
            seq![ordered[div]] + lehmer_decode(ordered.remove(div), index % f)
        } else {
            Seq::empty()
        }
    }
}

proof fn lemma_factorial_positive(n: nat)
    ensures
        factorial(n) >= 1,
    decreases n,
{
    if n > 0 {
        lemma_factorial_positive((n - 1) as nat);
        assert(n * factorial((n - 1) as nat) >= 1) by (nonlinear_arith)
            requires
                n >= 1,
                factorial((n - 1) as nat) >= 1,
        ;
    }
}

proof fn lemma_factorial_monotone(a: nat, b: nat)
    requires
        a <= b,
    ensures
        factorial(a) <= factorial(b),
    decreases b - a,
{
    if a < b {
        lemma_factorial_monotone(a, (b - 1) as nat);
        lemma_factorial_positive((b - 1) as nat);
        assert(factorial((b - 1) as nat) <= b * factorial((b - 1) as nat)) by (nonlinear_arith)
            requires
                b >= 1,
                factorial((b - 1) as nat) >= 1,
        ;
    }
}

proof fn lemma_factorial_4()
    ensures
        factorial(4) == 24,
{
    assert(factorial(0) == 1);
    assert(factorial(1) == 1);
    assert(factorial(2) == 2);
    assert(factorial(3) == 6);
    assert(factorial(4) == 24);
}

proof fn lemma_factorial_20()
    ensures
        factorial(20) == 2432902008176640000,
{
    lemma_factorial_4();
    assert(factorial(5) == 120);
    assert(factorial(6) == 720);
    assert(factorial(7) == 5040);
    assert(factorial(8) == 40320);
    assert(factorial(9) == 362880);
    assert(factorial(10) == 3628800);
    assert(factorial(11) == 39916800);
    assert(factorial(12) == 479001600);
    assert(factorial(13) == 6227020800);
    assert(factorial(14) == 87178291200);
    assert(factorial(15) == 1307674368000);
    assert(factorial(16) == 20922789888000);
    assert(factorial(17) == 355687428096000);
    assert(factorial(18) == 6402373705728000);
    assert(factorial(19) == 121645100408832000);
    assert(factorial(20) == 2432902008176640000);
}

/// The permutation of `0..len` with lexicographic index `lex_index` (taken
/// modulo `len!`), decoded from its Lehmer code.
pub fn permutation_index(len: usize, lex_index: i64) -> (r: Vec<usize>)
    requires
        1 <= len <= 20,
    ensures
        r@ == lehmer_decode(range_seq(len as nat), (lex_index as int) % (factorial(len as nat) as int)),
{
    let mut num_perm: u64 = 1;
    let mut n: usize = 1;
    proof {
        lemma_factorial_20();
        lemma_factorial_monotone(len as nat, 20);
    }
    while n <= len
        invariant
            1 <= n <= len + 1,
            len <= 20,
            num_perm == factorial((n - 1) as nat),
            factorial(len as nat) <= 2432902008176640000,
        decreases len + 1 - n,
    {
        proof {
            lemma_factorial_monotone(n as nat, len as nat);
        }
        assert(factorial(n as nat) == n * factorial((n - 1) as nat));
        assert(num_perm * (n as u64) == factorial(n as nat)) by (nonlinear_arith)
            requires
                num_perm == factorial((n - 1) as nat),
                factorial(n as nat) == n * factorial((n - 1) as nat),
        ;
        num_perm = num_perm * (n as u64);
        n = n + 1;
    }
    proof { lemma_factorial_positive(len as nat); }
    let np_i: i64 = num_perm as i64;
    let index0: i64 = lex_index.checked_rem_euclid(np_i).unwrap();
    let mut index: u64 = index0 as u64;
    assert(factorial(len as nat) == len * factorial((len - 1) as nat));
    proof { lemma_factorial_positive((len - 1) as nat); }
    let mut rem_order: u64 = num_perm / (len as u64);
    assert(rem_order == factorial((len - 1) as nat)) by {
        vstd::arithmetic::div_mod::lemma_div_multiples_vanish(factorial((len - 1) as nat) as int, len as int);
    }
    let mut ordered: Vec<usize> = Vec::new();
    let mut k: usize = 0;
    while k < len
        invariant
            k <= len,
            ordered@ == range_seq(k as nat),
        decreases len - k,
    {
        ordered.push(k);
        k = k + 1;
    }
    assert(ordered@ =~= range_seq(len as nat));
    let mut perm: Vec<usize> = Vec::new();
    while ordered.len() > 0
        invariant
            perm@ + lehmer_decode(ordered@, index as int)
                == lehmer_decode(range_seq(len as nat), (lex_index as int) % (factorial(len as nat) as int)),
            index < factorial(ordered.len() as nat),
            ordered.len() >= 1 ==> rem_order == factorial((ordered.len() - 1) as nat),
            ordered.len() <= len,
        decreases ordered.len(),
    {
        let ghost m = ordered.len();
        let ghost before = ordered@;
        proof {
            lemma_factorial_positive((m - 1) as nat);
            assert(factorial(m as nat) == m * factorial((m - 1) as nat));
            vstd::arithmetic::div_mod::lemma_multiply_divide_lt(index as int, rem_order as int, m as int);
        }
        let div = (index / rem_order) as usize;
        let rem = index % rem_order;
        let item = ordered.remove(div);
        proof {
            assert(lehmer_decode(before, index as int)
                == seq![item] + lehmer_decode(ordered@, rem as int));
            assert(perm@.push(item) + lehmer_decode(ordered@, rem as int)
                =~= perm@ + (seq![item] + lehmer_decode(ordered@, rem as int)));
        }
        perm.push(item);
        index = rem;
        if ordered.len() > 0 {
            let l = ordered.len() as u64;
            proof {
                lemma_factorial_positive((l - 1) as nat);
                assert(factorial(l as nat) == l * factorial((l - 1) as nat));
                vstd::arithmetic::div_mod::lemma_div_multiples_vanish(factorial((l - 1) as nat) as int, l as int);
            }
            rem_order = rem_order / l;
        }
    }
    assert(perm@ + lehmer_decode(ordered@, index as int) =~= perm@);
    perm
}

impl GlyphType {
    /// The save-string id.
    pub fn save_id(self) -> (r: &'static str)
        ensures
            r@ == glyph_type_save_id(self),
    {
        match self {
            GlyphType::Power => "power",
            GlyphType::Infinity => "infinity",
            GlyphType::Replication => "replication",
            GlyphType::Time => "time",
            GlyphType::Dilation => "dilation",
            GlyphType::Companion => "companion",
        }
    }

    /// The effect bits of glyphs of this type (none for the companion).
    pub fn effect_bits(self) -> (r: Vec<u8>)
        ensures
            r@ == glyph_effect_bits(self),
    {
        match self {
            GlyphType::Time => vec![0, 1, 2, 3],
            GlyphType::Dilation => vec![4, 5, 6, 7],
            GlyphType::Replication => vec![8, 9, 10, 11],
            GlyphType::Infinity => vec![12, 13, 14, 15],
            GlyphType::Power => vec![16, 17, 18, 19],
            GlyphType::Companion => Vec::new(),
        }
    }

    /// The effect every glyph of this type has, if the type has one: Time's
    /// speed, Infinity's power, Power's power.
    pub fn primary_effect_bit(self) -> (r: Option<u8>)
        ensures
            r == glyph_primary_effect_bit(self),
    {
        match self {
            GlyphType::Time => Some(0),
            GlyphType::Infinity => Some(12),
            GlyphType::Power => Some(16),
            _ => None,
        }
    }

    /// The type whose save-string id is `id`, if any.
    pub fn from_save_id(id: &str) -> (r: Option<GlyphType>)
        ensures
            r is Some ==> glyph_type_save_id(r->0) == id@,
            r is None ==> forall|t: GlyphType| glyph_type_save_id(t) != id@,
    {
        if str_equal(id, "power") {
            Some(GlyphType::Power)
        } else if str_equal(id, "infinity") {
            Some(GlyphType::Infinity)
        } else if str_equal(id, "replication") {
            Some(GlyphType::Replication)
        } else if str_equal(id, "time") {
            Some(GlyphType::Time)
        } else if str_equal(id, "dilation") {
            Some(GlyphType::Dilation)
        } else if str_equal(id, "companion") {
            Some(GlyphType::Companion)
        } else {
            assert forall|t: GlyphType| glyph_type_save_id(t) != id@ by {
                match t {
                    GlyphType::Power => {},
                    GlyphType::Infinity => {},
                    GlyphType::Replication => {},
                    GlyphType::Time => {},
                    GlyphType::Dilation => {},
                    GlyphType::Companion => {},
                }
            }
            None
        }
    }

    /// The index among the basic types; `None` for the companion.
    pub fn basic_index(self) -> (r: Option<usize>)
        ensures
            r == glyph_basic_index(self),
    {
        match self {
            GlyphType::Power => Some(0),
            GlyphType::Infinity => Some(1),
            GlyphType::Replication => Some(2),
            GlyphType::Time => Some(3),
            GlyphType::Dilation => Some(4),
            GlyphType::Companion => None,
        }
    }
}

/// The effect bits of a glyph type: four consecutive bits per basic type.
pub open spec fn glyph_effect_bits(t: GlyphType) -> Seq<u8> {
    match t {
        GlyphType::Time => seq![0u8, 1, 2, 3],
        GlyphType::Dilation => seq![4u8, 5, 6, 7],
        GlyphType::Replication => seq![8u8, 9, 10, 11],
        GlyphType::Infinity => seq![12u8, 13, 14, 15],
        GlyphType::Power => seq![16u8, 17, 18, 19],
        GlyphType::Companion => Seq::empty(),
    }
}

/// The effect that every glyph of a type carries, if any.
pub open spec fn glyph_primary_effect_bit(t: GlyphType) -> Option<u8> {
    match t {
        GlyphType::Time => Some(0u8),
        GlyphType::Infinity => Some(12u8),
        GlyphType::Power => Some(16u8),
        _ => None,
    }
}

/// One step of the glyph generator's xorshift: shift left 13, logical right
/// 17, left 5, each XORed in, on the 32-bit state.
pub open spec fn xorshift32_spec(s: u32) -> u32 {
    let a = s ^ (s << 13u32);
    let b = a ^ (a >> 17u32);
    b ^ (b << 5u32)
}

/// One step of the glyph generator's xorshift on its signed 32-bit state.
pub fn xorshift32_update(state: i32) -> (r: i32)
    ensures
        r as u32 == xorshift32_spec(state as u32),
{
    let s: u32 = state as u32;
    let a: u32 = s ^ (s << 13u32);
    let b: u32 = a ^ (a >> 17u32);
    let c: u32 = b ^ (b << 5u32);
    proof {
        assert(c as i32 as u32 == c) by (bit_vector);
    }
    c as i32
}

/// Whether `p` is the first position of a glyph with id `id` in `s`.
pub open spec fn is_first_with_id(s: Seq<Glyph>, id: u32, p: int) -> bool {
    &&& 0 <= p < s.len()
    &&& s[p].id == id
    &&& forall|j: int| 0 <= j < p ==> s[j].id != id
}

/// Whether some glyph in `s` has id `id`.
pub open spec fn has_glyph_id(s: Seq<Glyph>, id: u32) -> bool {
    exists|j: int| 0 <= j < s.len() && s[j].id == id
}

/// Whether some glyph in `s` sits in slot `slot`.
pub open spec fn slot_taken(s: Seq<Glyph>, slot: u32) -> bool {
    exists|j: int| 0 <= j < s.len() && s[j].idx == slot
}

/// The number of glyphs among the first `n` of `s` in slots `protected..`.
pub open spec fn unprotected_count(s: Seq<Glyph>, protected: int, n: int) -> int
    decreases n,
{
    if n <= 0 { 0 } else { unprotected_count(s, protected, n - 1) + (if s[n - 1].idx >= protected { 1int } else { 0int }) }
}

/// The number of non-companion glyphs among the first `n` of `s`.
pub open spec fn non_companion_count(s: Seq<Glyph>, n: int) -> int
    decreases n,
{
    if n <= 0 { 0 } else { non_companion_count(s, n - 1) + (if s[n - 1].kind != GlyphType::Companion { 1int } else { 0int }) }
}

proof fn lemma_unprotected_count_le(s: Seq<Glyph>, protected: int, n: int)
    requires
        0 <= n,
    ensures
        0 <= unprotected_count(s, protected, n) <= n,
    decreases n,
{
    if n > 0 {
        lemma_unprotected_count_le(s, protected, n - 1);
    }
}

proof fn lemma_unprotected_count_monotone(s: Seq<Glyph>, protected: int, a: int, b: int)
    requires
        0 <= a <= b,
    ensures
        unprotected_count(s, protected, a) <= unprotected_count(s, protected, b),
    decreases b - a,
{
    if a < b {
        lemma_unprotected_count_monotone(s, protected, a, b - 1);
    }
}

proof fn lemma_non_companion_count_le(s: Seq<Glyph>, n: int)
    requires
        0 <= n,
    ensures
        0 <= non_companion_count(s, n) <= n,
    decreases n,
{
    if n > 0 {
        lemma_non_companion_count_le(s, n - 1);
    }
}

/// The first slot from `t` up to 119 that no glyph of `s` sits in.
pub open spec fn first_free_from(s: Seq<Glyph>, t: int) -> Option<u32>
    decreases 120 - t,
{
    if t < 0 || t >= 120 {
        None
    } else if !slot_taken(s, t as u32) {
        Some(t as u32)
    } else {
        first_free_from(s, t + 1)
    }
}

/// The equipped and stored glyphs after taking the equipped ones off, last
/// first, each into the first free unprotected slot (from `protected` on),
/// until none is free.
pub open spec fn unequipped(active: Seq<Glyph>, inventory: Seq<Glyph>, protected: int) -> (Seq<Glyph>, Seq<Glyph>)
    decreases active.len(),
{
    if active.len() == 0 {
        (active, inventory)
    } else {
        match first_free_from(inventory, protected) {
            None => (active, inventory),
            Some(slot) => unequipped(active.drop_last(), inventory.push(Glyph { idx: slot, ..active.last() }), protected),
        }
    }
}

/// The largest glyph id among the first `n` of `s` (0 when there are none).
pub open spec fn max_id_prefix(s: Seq<Glyph>, n: int) -> u32
    decreases n,
{
    if n <= 0 {
        0
    } else {
        let m = max_id_prefix(s, n - 1);
        if s[n - 1].id > m { s[n - 1].id } else { m }
    }
}

/// The largest glyph id in `s` (0 when `s` is empty).
pub open spec fn max_id(s: Seq<Glyph>) -> u32 {
    max_id_prefix(s, s.len() as int)
}

/// Every glyph among the first `n` of `s` has an id of at most
/// `max_id_prefix(s, n)`.
pub proof fn lemma_max_id_bounds(s: Seq<Glyph>, n: int)
    requires
        0 <= n <= s.len(),
    ensures
        forall|j: int| 0 <= j < n ==> s[j].id <= max_id_prefix(s, n),
    decreases n,
{
    if n > 0 {
        lemma_max_id_bounds(s, n - 1);
    }
}

/// No two glyphs in `s` share an id.
pub open spec fn glyph_ids_distinct(s: Seq<Glyph>) -> bool {
    forall|i: int, j: int| 0 <= i < j < s.len() ==> s[i].id != s[j].id
}

/// `inventory` with `g` stored in the first free slot from `protected` on
/// under the id one past `max_id` (unchanged when no slot is free).
pub open spec fn stored_with(inventory: Seq<Glyph>, max_id: u32, protected: int, g: Glyph) -> Seq<Glyph> {
    match first_free_from(inventory, protected) {
        None => inventory,
        Some(slot) => inventory.push(Glyph { id: (max_id + 1) as u32, idx: slot, ..g }),
    }
}

/// The largest id after appending `g` is the larger of `g`'s id and the
/// largest before.
pub proof fn lemma_max_id_push(s: Seq<Glyph>, g: Glyph)
    ensures
        max_id(s.push(g)) == (if g.id > max_id(s) { g.id } else { max_id(s) }),
{
    lemma_max_id_prefix_push(s, g, s.len() as int);
}

proof fn lemma_max_id_prefix_push(s: Seq<Glyph>, g: Glyph, n: int)
    requires
        0 <= n <= s.len(),
    ensures
        max_id_prefix(s.push(g), n) == max_id_prefix(s, n),
    decreases n,
{
    if n > 0 {
        lemma_max_id_prefix_push(s, g, n - 1);
        assert(s.push(g)[n - 1] == s[n - 1]);
    }
}

/// The largest id in `v`: every glyph's id is at most it, and it is some
/// glyph's id unless it is 0.
fn max_id_in(v: &Vec<Glyph>) -> (r: u32)
    ensures
        r == max_id(v@),
        forall|j: int| 0 <= j < v@.len() ==> v@[j].id <= r,
        r == 0 || has_glyph_id(v@, r),
{
    let mut m: u32 = 0;
    let mut i: usize = 0;
    while i < v.len()
        invariant
            i <= v.len(),
            m == max_id_prefix(v@, i as int),
            forall|j: int| 0 <= j < i ==> v@[j].id <= m,
            m == 0 || exists|j: int| 0 <= j < i && v@[j].id == m,
        decreases v.len() - i,
    {
        if v[i].id > m {
            m = v[i].id;
        }
        i = i + 1;
    }
    m
}

/// The first position of a glyph with id `id` in `v`.
fn find_glyph(v: &Vec<Glyph>, id: u32) -> (r: Option<usize>)
    ensures
        r is Some ==> is_first_with_id(v@, id, r->0 as int),
        r is None ==> !has_glyph_id(v@, id),
{
    let mut i: usize = 0;
    while i < v.len()
        invariant
            i <= v.len(),
            forall|j: int| 0 <= j < i ==> v@[j].id != id,
        decreases v.len() - i,
    {
        if v[i].id == id {
            return Some(i);
        }
        i = i + 1;
    }
    None
}

/// Whether a glyph in `v` sits in slot `slot`.
fn slot_in_use(v: &Vec<Glyph>, slot: u32) -> (r: bool)
    ensures
        r == slot_taken(v@, slot),
{
    let mut i: usize = 0;
    while i < v.len()
        invariant
            i <= v.len(),
            forall|j: int| 0 <= j < i ==> v@[j].idx != slot,
        decreases v.len() - i,
    {
        if v[i].idx == slot {
            return true;
        }
        i = i + 1;
    }
    false
}

impl GameState {
    pub open spec fn active_slot_count_spec(&self, vacuum_milestone: bool) -> usize {
        if self.celestials.pelle.doomed {
            if vacuum_milestone { 1 } else { 0 }
        } else {
            (3 + (if self.has_reality_upgrade(9) { 1int } else { 0int })
                + (if self.has_reality_upgrade(24) { 1int } else { 0int })) as usize
        }
    }

    pub open spec fn inventory_space_spec(&self) -> int {
        let protected = self.reality.glyphs.protected_rows * 10;
        120 - protected - unprotected_count(self.reality.glyphs.inventory@, protected, self.reality.glyphs.inventory@.len() as int)
    }

    /// The state with the glyph lists replaced.
    pub open spec fn with_glyph_lists(&self, active: Vec<Glyph>, inventory: Vec<Glyph>) -> GameState {
        GameState {
            reality: RealityState {
                glyphs: GlyphState { active, inventory, ..self.reality.glyphs },
                ..self.reality
            },
            ..*self
        }
    }

    /// The largest glyph id held, equipped or in the inventory (0 if none).
    pub open spec fn max_glyph_id_spec(&self) -> u32 {
        let a = max_id(self.reality.glyphs.active@);
        let b = max_id(self.reality.glyphs.inventory@);
        if a >= b { a } else { b }
    }

    /// Whether `slot` is the first free unprotected inventory slot.
    pub open spec fn is_first_free_slot(&self, slot: u32) -> bool {
        let inv = self.reality.glyphs.inventory@;
        &&& self.reality.glyphs.protected_rows * 10 <= slot < GLYPH_TOTAL_SLOTS
        &&& !slot_taken(inv, slot)
        &&& forall|t: u32| self.reality.glyphs.protected_rows * 10 <= t < slot ==> #[trigger] slot_taken(inv, t)
    }

    /// Whether every unprotected inventory slot holds a glyph.
    pub open spec fn inventory_full(&self) -> bool {
        forall|t: u32| self.reality.glyphs.protected_rows * 10 <= t < GLYPH_TOTAL_SLOTS
            ==> #[trigger] slot_taken(self.reality.glyphs.inventory@, t)
    }

    /// The largest glyph id held, equipped or in the inventory (0 if none).
    pub fn max_glyph_id(&self) -> (r: u32)
        ensures
            r == self.max_glyph_id_spec(),
            forall|j: int| 0 <= j < self.reality.glyphs.active@.len() ==> self.reality.glyphs.active@[j].id <= r,
            forall|j: int| 0 <= j < self.reality.glyphs.inventory@.len()
                ==> self.reality.glyphs.inventory@[j].id <= r,
    {
        let a = max_id_in(&self.reality.glyphs.active);
        let b = max_id_in(&self.reality.glyphs.inventory);
        if a >= b { a } else { b }
    }

    /// The first free unprotected inventory slot, if any.
    pub fn find_free_inventory_slot(&self) -> (r: Option<u32>)
        requires
            self.reality.glyphs.protected_rows <= 12,
        ensures
            r is Some ==> self.is_first_free_slot(r->0),
            r is None ==> self.inventory_full(),
            r == first_free_from(self.reality.glyphs.inventory@, self.reality.glyphs.protected_rows * 10),
    {
        let protected = self.reality.glyphs.protected_rows * 10;
        let mut slot: u32 = protected;
        while slot < GLYPH_TOTAL_SLOTS
            invariant
                protected == self.reality.glyphs.protected_rows * 10,
                protected <= slot <= GLYPH_TOTAL_SLOTS,
                forall|t: u32| protected <= t < slot ==> #[trigger] slot_taken(self.reality.glyphs.inventory@, t),
                first_free_from(self.reality.glyphs.inventory@, protected as int)
                    == first_free_from(self.reality.glyphs.inventory@, slot as int),
            decreases GLYPH_TOTAL_SLOTS - slot,
        {
            if !slot_in_use(&self.reality.glyphs.inventory, slot) {
                return Some(slot);
            }
            slot = slot + 1;
        }
        None
    }

    /// Take every equipped glyph off, last first, into the first free
    /// unprotected inventory slot; a glyph with no free slot left stays
    /// equipped, with those before it.
    pub fn unequip_all_glyphs(&mut self)
        requires
            old(self).reality.glyphs.protected_rows <= 12,
        ensures
            (final(self).reality.glyphs.active@, final(self).reality.glyphs.inventory@)
                == unequipped(old(self).reality.glyphs.active@, old(self).reality.glyphs.inventory@,
                    old(self).reality.glyphs.protected_rows * 10),
            *final(self) == old(self).with_glyph_lists(final(self).reality.glyphs.active,
                final(self).reality.glyphs.inventory),
    {
        let ghost p = old(self).reality.glyphs.protected_rows * 10;
        let mut going = true;
        while going && self.reality.glyphs.active.len() > 0
            invariant
                self.reality.glyphs.protected_rows <= 12,
                p == self.reality.glyphs.protected_rows * 10,
                *self == old(self).with_glyph_lists(self.reality.glyphs.active, self.reality.glyphs.inventory),
                unequipped(self.reality.glyphs.active@, self.reality.glyphs.inventory@, p)
                    == unequipped(old(self).reality.glyphs.active@, old(self).reality.glyphs.inventory@, p),
                !going ==> unequipped(self.reality.glyphs.active@, self.reality.glyphs.inventory@, p)
                    == (self.reality.glyphs.active@, self.reality.glyphs.inventory@),
            decreases self.reality.glyphs.active@.len() + (if going { 1int } else { 0int }),
        {
            match self.find_free_inventory_slot() {
                None => {
                    going = false;
                },
                Some(slot) => {
                    let ghost a0 = self.reality.glyphs.active@;
                    let ghost i0 = self.reality.glyphs.inventory@;
                    let g = self.reality.glyphs.active.pop().unwrap();
                    let moved = Glyph { idx: slot, ..g };
                    self.reality.glyphs.inventory.push(moved);
                    proof {
                        assert(g == a0.last());
                        assert(self.reality.glyphs.active@ =~= a0.drop_last());
                        assert(self.reality.glyphs.inventory@ =~= i0.push(moved));
                    }
                },
            }
        }
    }

    /// Store `glyph` in the first free unprotected inventory slot under a
    /// fresh id, one past the largest id held; nothing happens when every
    /// unprotected slot is taken.
    pub fn add_glyph_to_inventory(&mut self, glyph: Glyph)
        requires
            old(self).reality.glyphs.protected_rows <= 12,
            old(self).max_glyph_id_spec() < u32::MAX,
        ensures
            old(self).inventory_full() ==> *final(self) == *old(self),
            !old(self).inventory_full() ==> exists|slot: u32| #[trigger] old(self).is_first_free_slot(slot)
                && final(self).reality.glyphs.inventory@ == old(self).reality.glyphs.inventory@.push(
                    Glyph { id: (old(self).max_glyph_id_spec() + 1) as u32, idx: slot, ..glyph }),
            *final(self) == old(self).with_glyph_lists(old(self).reality.glyphs.active,
                final(self).reality.glyphs.inventory),
            final(self).reality.glyphs.inventory@ == stored_with(old(self).reality.glyphs.inventory@,
                old(self).max_glyph_id_spec(), old(self).reality.glyphs.protected_rows * 10, glyph),
    {
        match self.find_free_inventory_slot() {
            None => {},
            Some(slot) => {
                let id = self.max_glyph_id() + 1;
                let g = Glyph { id, idx: slot, ..glyph };
                self.reality.glyphs.inventory.push(g);
            },
        }
    }

    /// Which of the offered glyphs a Reality grants: the chosen one (the first
    /// by default, the last when out of range) with the START perk, else
    /// the basic choice the seed makes (see `glyph_index_without_start`).
    pub open spec fn reality_glyph_index(&self, len: int, choice: Option<usize>, initial_seed: u64) -> int {
        if self.has_perk(0) {
            let c = match choice { Some(c) => c as int, None => 0 };
            if c < len - 1 { c } else { len - 1 }
        } else {
            lehmer_decode(range_seq(4), (self.reality.realities * (initial_seed % 5 + 3)) % 24)[0] as int
        }
    }

    /// Grant a Reality's glyphs from `glyphs`, the glyphs generated for it:
    /// on the first Reality both (the starting glyph and the companion) are
    /// stored; later, the one `reality_glyph_index` picks is stored, unless
    /// `sacrifice_choice` or a full inventory sends it to the sacrifice (or
    /// deletes it). Returns the index picked after the first Reality.
    pub fn grant_glyphs_on_reality(&mut self, glyphs: &Vec<Glyph>, choice: Option<usize>, sacrifice_choice: bool,
        initial_seed: u64) -> (r: Option<usize>)
        requires
            old(self).reality.glyphs.protected_rows <= 12,
            old(self).max_glyph_id_spec() + 2 <= u32::MAX,
            old(self).inventory_space_spec() >= 0,
            glyphs@.len() >= 1,
            old(self).reality.realities == 0 ==> glyphs@.len() >= 2,
            old(self).reality.realities != 0 && !old(self).has_perk(0) ==> glyphs@.len() >= 4,
        ensures
            *final(self) == old(self).with_glyph_lists(old(self).reality.glyphs.active,
                final(self).reality.glyphs.inventory),
            old(self).reality.realities == 0 ==> {
                let p = old(self).reality.glyphs.protected_rows * 10;
                let inv = old(self).reality.glyphs.inventory@;
                let m = old(self).max_glyph_id_spec();
                let m1 = if first_free_from(inv, p as int) is Some { (m + 1) as u32 } else { m };
                &&& r is None
                &&& final(self).reality.glyphs.inventory@
                    == stored_with(stored_with(inv, m, p as int, glyphs@[0]), m1, p as int, glyphs@[1])
            },
            old(self).reality.realities != 0 ==> {
                let i = old(self).reality_glyph_index(glyphs@.len() as int, choice, initial_seed);
                &&& r == Some(i as usize)
                &&& 0 <= i < glyphs@.len()
                &&& if sacrifice_choice || old(self).inventory_space_spec() == 0 {
                    *final(self) == *old(self)
                } else {
                    final(self).reality.glyphs.inventory@ == stored_with(old(self).reality.glyphs.inventory@,
                        old(self).max_glyph_id_spec(), old(self).reality.glyphs.protected_rows * 10, glyphs@[i])
                }
            },
    {
        if self.reality.realities == 0 {
            let ghost inv = self.reality.glyphs.inventory@;
            let ghost m = self.max_glyph_id_spec();
            let ghost p = self.reality.glyphs.protected_rows * 10;
            self.add_glyph_to_inventory(glyphs[0]);
            proof {
                let a = self.reality.glyphs.active@;
                lemma_max_id_bounds(a, a.len() as int);
                lemma_max_id_bounds(inv, inv.len() as int);
                match first_free_from(inv, p as int) {
                    None => {},
                    Some(slot) => {
                        let g = Glyph { id: (m + 1) as u32, idx: slot, ..glyphs@[0] };
                        lemma_max_id_push(inv, g);
                        assert(max_id(inv) <= m);
                        assert(max_id(a) <= m);
                    },
                }
            }
            self.add_glyph_to_inventory(glyphs[1]);
            return None;
        }
        let index: usize = if self.perk_bought(0) {
            let c: usize = match choice { Some(c) => c, None => 0 };
            if c < glyphs.len() - 1 { c } else { glyphs.len() - 1 }
        } else {
            self.glyph_index_without_start(initial_seed)
        };
        if sacrifice_choice || self.glyph_free_inventory_space() == 0 {
            return Some(index);
        }
        self.add_glyph_to_inventory(glyphs[index]);
        Some(index)
    }

    /// The basic glyph type index (0–3) a Reality without the START perk
    /// offers: the first item of the permutation of four at index
    /// `realities × (initial_seed mod 5 + 3)`.
    pub fn glyph_index_without_start(&self, initial_seed: u64) -> (r: usize)
        ensures
            r == lehmer_decode(range_seq(4), (self.reality.realities * (initial_seed % 5 + 3)) % 24)[0],
            r < 4,
    {
        let factor: u64 = initial_seed % 5 + 3;
        assert(factor <= 7);
        assert(self.reality.realities as u64 * factor <= 7 * 0xffff_ffffu64) by (nonlinear_arith)
            requires
                factor <= 7,
                self.reality.realities <= 0xffff_ffffu32;
        let lex: u64 = self.reality.realities as u64 * factor;
        let lex_i: i64 = lex as i64;
        let p = permutation_index(4, lex_i);
        proof {
            lemma_factorial_4();
            assert(lex_i as int == lex as int);
            crate::laws::lemma_lehmer_decode_is_permutation(range_seq(4), (lex as int) % 24);
            let d = lehmer_decode(range_seq(4), (lex as int) % 24);
            assert(d.to_multiset().count(d[0]) > 0) by {
                vstd::seq_lib::to_multiset_contains(d, d[0]);
            }
            assert(range_seq(4).to_multiset().count(d[0]) > 0);
            vstd::seq_lib::to_multiset_contains(range_seq(4), d[0]);
            assert(range_seq(4).contains(d[0]));
        }
        p[0]
    }

    /// The equipped glyphs other than the companion, in order.
    pub fn active_glyphs_without_companion(&self) -> (r: Vec<Glyph>)
        ensures
            r@ == self.reality.glyphs.active@.filter(|g: Glyph| g.kind != GlyphType::Companion),
    {
        let v = &self.reality.glyphs.active;
        let mut out: Vec<Glyph> = Vec::new();
        let mut i: usize = 0;
        while i < v.len()
            invariant
                i <= v.len(),
                out@ == v@.take(i as int).filter(|g: Glyph| g.kind != GlyphType::Companion),
            decreases v.len() - i,
        {
            proof {
                reveal(Seq::filter);
                assert(v@.take(i as int + 1).drop_last() =~= v@.take(i as int));
            }
            if v[i].kind != GlyphType::Companion {
                out.push(v[i]);
            }
            i = i + 1;
        }
        proof {
            assert(v@.take(v@.len() as int) =~= v@);
        }
        out
    }

    /// Glyph choices a Reality offers: 4 with the START perk (perk 0), else 1.
    pub fn glyph_choice_count(&self) -> (r: usize)
        ensures
            r == (if self.has_perk(0) { 4usize } else { 1usize }),
    {
        if self.perk_bought(0) { 4 } else { 1 }
    }

    /// Free unprotected inventory slots: 120 less the protected ones less
    /// the glyphs stored outside them.
    pub fn glyph_free_inventory_space(&self) -> (r: u32)
        requires
            self.inventory_space_spec() >= 0,
            self.reality.glyphs.protected_rows <= 12,
        ensures
            r == self.inventory_space_spec(),
    {
        let protected = self.reality.glyphs.protected_rows * 10;
        let inv = &self.reality.glyphs.inventory;
        let mut used: u32 = 0;
        let mut i: usize = 0;
        while i < inv.len()
            invariant
                i <= inv.len(),
                protected == self.reality.glyphs.protected_rows * 10,
                inv == &self.reality.glyphs.inventory,
                used == unprotected_count(inv@, protected as int, i as int),
                used <= i,
                120 - protected - unprotected_count(inv@, protected as int, inv@.len() as int) >= 0,
            decreases inv.len() - i,
        {
            proof {
                lemma_unprotected_count_le(inv@, protected as int, i as int);
                lemma_unprotected_count_monotone(inv@, protected as int, i as int + 1, inv@.len() as int);
            }
            if inv[i].idx >= protected {
                used = used + 1;
            }
            i = i + 1;
        }
        proof { lemma_unprotected_count_le(inv@, protected as int, inv@.len() as int); }
        GLYPH_TOTAL_SLOTS - protected - used
    }

    /// Equipped-glyph slots: 3, +1 with Reality Upgrade 9, +1 with 24; while
    /// Doomed, only 1, and that with `vacuum_milestone` (the Vacuum Rift's
    /// first milestone reached).
    pub fn glyph_active_slot_count(&self, vacuum_milestone: bool) -> (r: usize)
        ensures
            r == self.active_slot_count_spec(vacuum_milestone),
    {
        if self.is_doomed() {
            return if vacuum_milestone { 1 } else { 0 };
        }
        let mut n: usize = 3;
        if self.reality_upgrade_bought(9) {
            n = n + 1;
        }
        if self.reality_upgrade_bought(24) {
            n = n + 1;
        }
        n
    }

    pub open spec fn can_equip_spec(&self, id: u32, target_slot: u32, vacuum_milestone: bool) -> bool {
        &&& (target_slot as int) < self.active_slot_count_spec(vacuum_milestone)
        &&& !slot_taken(self.reality.glyphs.active@, target_slot)
        &&& has_glyph_id(self.reality.glyphs.inventory@, id)
    }

    /// Equip inventory glyph `id` into active slot `target_slot`: refused
    /// when the slot is out of range (see `glyph_active_slot_count`, given
    /// `vacuum_milestone`) or taken, or no such glyph is stored.
    /// The glyph (the first with that id) leaves the inventory for the
    /// active list, and the Reality's most-glyphs-equipped record is raised
    /// to the non-companion glyphs now equipped. Returns whether it happened.
    pub fn equip_glyph(&mut self, id: u32, target_slot: u32, vacuum_milestone: bool) -> (r: bool)
        requires
            old(self).reality.glyphs.active@.len() < 0x7fff_ffff,
        ensures
            r == old(self).can_equip_spec(id, target_slot, vacuum_milestone),
            !r ==> *final(self) == *old(self),
            r ==> exists|pos: int| #[trigger] is_first_with_id(old(self).reality.glyphs.inventory@, id, pos)
                && final(self).reality.glyphs.inventory@ == old(self).reality.glyphs.inventory@.remove(pos)
                && final(self).reality.glyphs.active@ == old(self).reality.glyphs.active@.push(
                    Glyph { idx: target_slot, ..old(self).reality.glyphs.inventory@[pos] }),
            r ==> final(self).requirement_checks.reality_max_glyphs == (if old(self).requirement_checks.reality_max_glyphs
                >= non_companion_count(final(self).reality.glyphs.active@, final(self).reality.glyphs.active@.len() as int) {
                old(self).requirement_checks.reality_max_glyphs
            } else {
                non_companion_count(final(self).reality.glyphs.active@, final(self).reality.glyphs.active@.len() as int) as i32
            }),
            r ==> *final(self) == (GameState {
                requirement_checks: RequirementChecks {
                    reality_max_glyphs: final(self).requirement_checks.reality_max_glyphs,
                    ..old(self).requirement_checks
                },
                ..old(self).with_glyph_lists(final(self).reality.glyphs.active, final(self).reality.glyphs.inventory)
            }),
    {
        if target_slot as usize >= self.glyph_active_slot_count(vacuum_milestone) {
            return false;
        }
        if slot_in_use(&self.reality.glyphs.active, target_slot) {
            return false;
        }
        let pos = match find_glyph(&self.reality.glyphs.inventory, id) {
            Some(p) => p,
            None => return false,
        };
        self.move_to_active(pos, target_slot);
        self.raise_max_glyphs();
        assert(is_first_with_id(old(self).reality.glyphs.inventory@, id, pos as int));
        true
    }

    /// Move inventory glyph `pos` into active slot `target_slot`.
    fn move_to_active(&mut self, pos: usize, target_slot: u32)
        requires
            pos < old(self).reality.glyphs.inventory@.len(),
        ensures
            final(self).reality.glyphs.inventory@ == old(self).reality.glyphs.inventory@.remove(pos as int),
            final(self).reality.glyphs.active@ == old(self).reality.glyphs.active@.push(
                Glyph { idx: target_slot, ..old(self).reality.glyphs.inventory@[pos as int] }),
            *final(self) == old(self).with_glyph_lists(final(self).reality.glyphs.active,
                final(self).reality.glyphs.inventory),
    {
        let g = self.reality.glyphs.inventory.remove(pos);
        self.reality.glyphs.active.push(Glyph { idx: target_slot, ..g });
    }

    /// The state with the most-glyphs-equipped record set to `v`.
    pub open spec fn with_max_glyphs(&self, v: i32) -> GameState {
        GameState {
            requirement_checks: RequirementChecks { reality_max_glyphs: v, ..self.requirement_checks },
            ..*self
        }
    }

    /// Raise the most-glyphs-equipped record to the non-companion glyphs
    /// equipped now.
    fn raise_max_glyphs(&mut self)
        requires
            old(self).reality.glyphs.active@.len() <= 0x7fff_ffff,
        ensures
            *final(self) == old(self).with_max_glyphs(if old(self).requirement_checks.reality_max_glyphs
                >= non_companion_count(old(self).reality.glyphs.active@, old(self).reality.glyphs.active@.len() as int) {
                old(self).requirement_checks.reality_max_glyphs
            } else {
                non_companion_count(old(self).reality.glyphs.active@, old(self).reality.glyphs.active@.len() as int) as i32
            }),
    {
        let count = self.count_equipped_non_companion();
        let current = self.requirement_checks.reality_max_glyphs;
        let v = if count > current { count } else { current };
        self.set_max_glyphs(v);
    }

    fn set_max_glyphs(&mut self, v: i32)
        ensures
            *final(self) == old(self).with_max_glyphs(v),
    {
        self.requirement_checks.reality_max_glyphs = v;
    }

    /// The equipped glyphs that are not the companion.
    fn count_equipped_non_companion(&self) -> (r: i32)
        requires
            self.reality.glyphs.active@.len() <= 0x7fff_ffff,
        ensures
            r == non_companion_count(self.reality.glyphs.active@, self.reality.glyphs.active@.len() as int),
    {
        let active = &self.reality.glyphs.active;
        let mut n: i32 = 0;
        let mut i: usize = 0;
        while i < active.len()
            invariant
                i <= active.len(),
                active.len() <= 0x7fff_ffff,
                active == &self.reality.glyphs.active,
                n == non_companion_count(active@, i as int),
                0 <= n <= i,
            decreases active.len() - i,
        {
            proof { lemma_non_companion_count_le(active@, i as int + 1); }
            if active[i].kind != GlyphType::Companion {
                n = n + 1;
            }
            i = i + 1;
        }
        n
    }

    pub open spec fn can_move_glyph_spec(&self, id: u32, target_slot: u32) -> bool {
        &&& target_slot < GLYPH_TOTAL_SLOTS
        &&& !slot_taken(self.reality.glyphs.inventory@, target_slot)
        &&& has_glyph_id(self.reality.glyphs.inventory@, id)
    }

    /// Move inventory glyph `id` (the first with that id) to the empty
    /// inventory slot `target_slot`. Returns whether it moved.
    pub fn move_glyph_to_slot(&mut self, id: u32, target_slot: u32) -> (r: bool)
        ensures
            r == old(self).can_move_glyph_spec(id, target_slot),
            !r ==> *final(self) == *old(self),
            r ==> exists|pos: int| #[trigger] is_first_with_id(old(self).reality.glyphs.inventory@, id, pos)
                && final(self).reality.glyphs.inventory@ == old(self).reality.glyphs.inventory@.update(pos,
                    Glyph { idx: target_slot, ..old(self).reality.glyphs.inventory@[pos] }),
            r ==> *final(self) == old(self).with_glyph_lists(old(self).reality.glyphs.active,
                final(self).reality.glyphs.inventory),
    {
        if target_slot >= GLYPH_TOTAL_SLOTS {
            return false;
        }
        if slot_in_use(&self.reality.glyphs.inventory, target_slot) {
            return false;
        }
        let pos = match find_glyph(&self.reality.glyphs.inventory, id) {
            Some(p) => p,
            None => return false,
        };
        let g = self.reality.glyphs.inventory[pos];
        self.reality.glyphs.inventory.set(pos, Glyph { idx: target_slot, ..g });
        assert(is_first_with_id(old(self).reality.glyphs.inventory@, id, pos as int));
        true
    }

    /// Whether glyph sacrifice is unlocked (Reality Upgrade 19).
    pub fn can_sacrifice_glyphs(&self) -> (r: bool)
        ensures
            r == self.has_reality_upgrade(19),
    {
        self.reality_upgrade_bought(19)
    }

    /// Sacrifice (or, before Reality Upgrade 19 and for the companion,
    /// simply delete) inventory glyph `id`, the first with that id: it
    /// leaves the inventory (the caller adds its sacrifice value). Returns
    /// whether such a glyph was stored.
    pub fn sacrifice_glyph(&mut self, id: u32) -> (r: bool)
        ensures
            r == has_glyph_id(old(self).reality.glyphs.inventory@, id),
            !r ==> *final(self) == *old(self),
            r ==> exists|pos: int| #[trigger] is_first_with_id(old(self).reality.glyphs.inventory@, id, pos)
                && final(self).reality.glyphs.inventory@ == old(self).reality.glyphs.inventory@.remove(pos),
            r ==> *final(self) == old(self).with_glyph_lists(old(self).reality.glyphs.active,
                final(self).reality.glyphs.inventory),
    {
        let pos = match find_glyph(&self.reality.glyphs.inventory, id) {
            Some(p) => p,
            None => return false,
        };
        self.reality.glyphs.inventory.remove(pos);
        assert(is_first_with_id(old(self).reality.glyphs.inventory@, id, pos as int));
        true
    }
}

} // verus!
