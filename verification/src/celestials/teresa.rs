//! Teresa: RM pouring thresholds, Teresa's Reality and the Perk Shop.
use vstd::prelude::*;
use crate::state::GameState;
use crate::celestials::CelestialsState;

verus! {

/// The saved state of this celestial.
pub struct TeresaState {
    /// Unlock bits (`unlockBits`).
    pub unlock_bits: u32,
    /// Whether Teresa's Reality is running.
    pub run: bool,
    /// Perk-Shop purchase counts, ids 0–4.
    pub perk_shop: [u32; 5],
}

/// Teresa's Reality unlock.
pub const TERESA_UNLOCK_RUN: u8 = 0;
/// Passive EP generation.
pub const TERESA_UNLOCK_EP_GEN: u8 = 1;
/// The Perk Shop.
pub const TERESA_UNLOCK_SHOP: u8 = 2;
/// Effarig.
pub const TERESA_UNLOCK_EFFARIG: u8 = 3;
/// Undo for glyph choices.
pub const TERESA_UNLOCK_UNDO: u8 = 4;
/// Start each Reality with Eternity Upgrades 1–6.
pub const TERESA_UNLOCK_START_EU: u8 = 5;

/// The Eternity-Upgrade bits 1–6.
pub const START_EU_BITS: u32 = 0x7E;

/// The power of ten of Reality Machines poured that grants Teresa unlock `id`
/// (1e14, 1e18, 1e21, 1e24, 1e10, 1e6).
pub open spec fn teresa_unlock_exponent(id: u8) -> u32 {
    if id == 0 { 14 }
    else if id == 1 { 18 }
    else if id == 2 { 21 }
    else if id == 3 { 24 }
    else if id == 4 { 10 }
    else { 6 }
}

/// The power of ten of Reality Machines poured that grants Teresa unlock `id`.
pub fn teresa_unlock_price_exponent(id: u8) -> (r: u32)
    requires
        id < 6,
    ensures
        r == teresa_unlock_exponent(id),
{
    if id == 0 { 14 }
    else if id == 1 { 18 }
    else if id == 2 { 21 }
    else if id == 3 { 24 }
    else if id == 4 { 10 }
    else { 6 }
}

impl TeresaState {
    /// Whether unlock `id` is held.
    pub open spec fn has_unlock(&self, id: u8) -> bool {
        id < 32 && self.unlock_bits & (1u32 << id) != 0
    }

    /// Whether unlock `id` is held.
    pub fn unlock_bought(&self, id: u8) -> (r: bool)
        ensures
            r == self.has_unlock(id),
    {
        id < 32 && self.unlock_bits & (1u32 << id) != 0
    }
}

/// Perk-Shop entry: the glyph-level multiplier.
pub const PERK_SHOP_GLYPH_LEVEL: usize = 0;
/// Perk-Shop entry: the Reality-Machine multiplier.
pub const PERK_SHOP_RM_MULT: usize = 1;
/// Perk-Shop entry: bulk Dilation upgrades.
pub const PERK_SHOP_BULK_DILATION: usize = 2;
/// Perk-Shop entry: faster milestone autobuyers.
pub const PERK_SHOP_AUTO_SPEED: usize = 3;
/// The number of Perk-Shop entries.
pub const PERK_SHOP_ENTRY_COUNT: usize = 4;

/// The Perk-Point cost of the first purchase of entry `id`.
pub open spec fn perk_shop_initial_cost(id: usize) -> nat {
    if id == PERK_SHOP_BULK_DILATION { 100 } else if id == PERK_SHOP_AUTO_SPEED { 1000 } else { 1 }
}

/// The cost at which entry `id` stops: it is capped once its cost reaches it.
pub open spec fn perk_shop_cost_cap(id: usize) -> nat {
    if id == PERK_SHOP_BULK_DILATION { 1600 } else if id == PERK_SHOP_AUTO_SPEED { 4000 } else { 2048 }
}

/// The cost of entry `id` after `bought` purchases: the initial cost
/// doubled per purchase.
pub open spec fn perk_shop_cost_at(id: usize, bought: nat) -> nat
    decreases bought,
{
    if bought == 0 { perk_shop_initial_cost(id) } else { 2 * perk_shop_cost_at(id, (bought - 1) as nat) }
}

/// Costs never fall with more purchases.
proof fn lemma_perk_shop_cost_monotone(id: usize, a: nat, b: nat)
    requires
        a <= b,
    ensures
        perk_shop_cost_at(id, a) <= perk_shop_cost_at(id, b),
    decreases b - a,
{
    if a < b {
        lemma_perk_shop_cost_monotone(id, a, (b - 1) as nat);
    }
}

/// `bits` with every Teresa unlock whose price `10^poured_exponent` covers set.
pub open spec fn teresa_bits_after(bits: u32, poured_exponent: u32, n: u8) -> u32
    decreases n,
{
    if n == 0 {
        bits
    } else {
        let prev = teresa_bits_after(bits, poured_exponent, (n - 1) as u8);
        if poured_exponent >= teresa_unlock_exponent((n - 1) as u8) {
            prev | (1u32 << ((n - 1) as u8))
        } else {
            prev
        }
    }
}

impl GameState {
    /// Whether Teresa's Reality is unlocked.
    pub fn teresa_run_unlocked(&self) -> (r: bool)
        ensures
            r == self.celestials.teresa.has_unlock(TERESA_UNLOCK_RUN),
    {
        self.celestials.teresa.unlock_bought(TERESA_UNLOCK_RUN)
    }

    /// Whether the Perk Shop is unlocked.
    pub fn teresa_shop_unlocked(&self) -> (r: bool)
        ensures
            r == self.celestials.teresa.has_unlock(TERESA_UNLOCK_SHOP),
    {
        self.celestials.teresa.unlock_bought(TERESA_UNLOCK_SHOP)
    }

    /// Whether Effarig is unlocked (Teresa's fourth unlock).
    pub fn teresa_effarig_unlocked(&self) -> (r: bool)
        ensures
            r == self.celestials.teresa.has_unlock(TERESA_UNLOCK_EFFARIG),
    {
        self.celestials.teresa.unlock_bought(TERESA_UNLOCK_EFFARIG)
    }

    /// With the start-EU unlock held, own Eternity Upgrades 1–6.
    pub(crate) fn apply_teresa_start_eu(&mut self)
        ensures
            *final(self) == (GameState {
                eternity_upgrades: if old(self).celestials.teresa.has_unlock(TERESA_UNLOCK_START_EU) {
                    old(self).eternity_upgrades | START_EU_BITS
                } else {
                    old(self).eternity_upgrades
                },
                ..*old(self)
            }),
    {
        if self.celestials.teresa.unlock_bought(TERESA_UNLOCK_START_EU) {
            self.eternity_upgrades = self.eternity_upgrades | START_EU_BITS;
        }
    }

    /// Grant every Teresa unlock whose price the Reality Machines poured (at
    /// least `10^poured_exponent`) cover, applying the start-EU unlock when it
    /// is newly granted.
    pub(crate) fn teresa_check_unlocks(&mut self, poured_exponent: u32)
        ensures
            final(self).celestials.teresa.unlock_bits
                == teresa_bits_after(old(self).celestials.teresa.unlock_bits, poured_exponent, 6),
            final(self).eternity_upgrades == (if poured_exponent >= 6
                && !old(self).celestials.teresa.has_unlock(TERESA_UNLOCK_START_EU) {
                old(self).eternity_upgrades | START_EU_BITS
            } else {
                old(self).eternity_upgrades
            }),
            *final(self) == (GameState {
                celestials: CelestialsState {
                    teresa: TeresaState {
                        unlock_bits: final(self).celestials.teresa.unlock_bits,
                        ..old(self).celestials.teresa
                    },
                    ..old(self).celestials
                },
                eternity_upgrades: final(self).eternity_upgrades,
                ..*old(self)
            }),
    {
        let mut id: u8 = 0;
        while id < 6
            invariant
                id <= 6,
                self.celestials.teresa.unlock_bits
                    == teresa_bits_after(old(self).celestials.teresa.unlock_bits, poured_exponent, id),
                self.eternity_upgrades == (if id > 5 && poured_exponent >= 6
                    && !old(self).celestials.teresa.has_unlock(TERESA_UNLOCK_START_EU) {
                    old(self).eternity_upgrades | START_EU_BITS
                } else {
                    old(self).eternity_upgrades
                }),
                id <= 5 ==> (self.celestials.teresa.has_unlock(TERESA_UNLOCK_START_EU)
                    == old(self).celestials.teresa.has_unlock(TERESA_UNLOCK_START_EU)),
                *self == (GameState {
                    celestials: CelestialsState {
                        teresa: TeresaState {
                            unlock_bits: self.celestials.teresa.unlock_bits,
                            ..old(self).celestials.teresa
                        },
                        ..old(self).celestials
                    },
                    eternity_upgrades: self.eternity_upgrades,
                    ..*old(self)
                }),
            decreases 6 - id,
        {
            let bits = self.celestials.teresa.unlock_bits;
            if !self.celestials.teresa.unlock_bought(id)
                && poured_exponent >= teresa_unlock_price_exponent(id) {
                self.celestials.teresa.unlock_bits = bits | (1u32 << id);
                if id == TERESA_UNLOCK_START_EU {
                    assert((bits | (1u32 << 5u8)) & (1u32 << 5u8) != 0) by (bit_vector);
                    self.apply_teresa_start_eu();
                }
            } else if poured_exponent >= teresa_unlock_price_exponent(id) {
                assert(bits | (1u32 << id) == bits) by (bit_vector)
                    requires
                        id < 32,
                        bits & (1u32 << id) != 0,
                ;
            }
            proof {
                if id < 5 {
                    let b2 = self.celestials.teresa.unlock_bits;
                    let b0 = old(self).celestials.teresa.unlock_bits;
                    assert((b2 & (1u32 << 5u8) != 0) == (bits & (1u32 << 5u8) != 0)) by (bit_vector)
                        requires
                            id < 5,
                            b2 == bits || b2 == bits | (1u32 << id),
                    ;
                }
            }
            id = id + 1;
        }
    }
}

impl GameState {
    /// Purchases of Perk-Shop entry `id`.
    pub open spec fn perk_shop_bought_spec(&self, id: usize) -> nat {
        self.celestials.teresa.perk_shop[id as int] as nat
    }

    /// Whether Perk-Shop entry `id` has reached its cost cap.
    pub open spec fn perk_shop_capped_spec(&self, id: usize) -> bool {
        perk_shop_cost_at(id, self.perk_shop_bought_spec(id)) >= perk_shop_cost_cap(id)
    }

    /// Purchases of Perk-Shop entry `id` (0–3).
    pub fn perk_shop_bought(&self, id: usize) -> (r: u32)
        requires
            id < PERK_SHOP_ENTRY_COUNT,
        ensures
            r == self.perk_shop_bought_spec(id),
    {
        self.celestials.teresa.perk_shop[id]
    }

    /// Whether Perk-Shop entry `id` (0–3) is capped: its cost has reached
    /// the cap.
    pub fn perk_shop_capped(&self, id: usize) -> (r: bool)
        requires
            id < PERK_SHOP_ENTRY_COUNT,
        ensures
            r == self.perk_shop_capped_spec(id),
    {
        let bought = self.celestials.teresa.perk_shop[id];
        let cap: u64 = if id == PERK_SHOP_BULK_DILATION { 1600 } else if id == PERK_SHOP_AUTO_SPEED { 4000 } else { 2048 };
        let mut cost: u64 = if id == PERK_SHOP_BULK_DILATION { 100 } else if id == PERK_SHOP_AUTO_SPEED { 1000 } else { 1 };
        let mut k: u32 = 0;
        while k < bought && cost < cap
            invariant
                id < PERK_SHOP_ENTRY_COUNT,
                k <= bought,
                bought == self.celestials.teresa.perk_shop[id as int],
                cap == perk_shop_cost_cap(id),
                cost == perk_shop_cost_at(id, k as nat),
                cost <= 2 * cap,
            decreases bought - k,
        {
            cost = cost * 2;
            k = k + 1;
        }
        proof {
            lemma_perk_shop_cost_monotone(id, k as nat, bought as nat);
        }
        cost >= cap
    }

    /// The Perk-Point cost of the next purchase of entry `id` (0–3), while it
    /// is not capped.
    pub fn perk_shop_cost(&self, id: usize) -> (r: u64)
        requires
            id < PERK_SHOP_ENTRY_COUNT,
            !self.perk_shop_capped_spec(id),
        ensures
            r == perk_shop_cost_at(id, self.perk_shop_bought_spec(id)),
    {
        let bought = self.celestials.teresa.perk_shop[id];
        let mut cost: u64 = if id == PERK_SHOP_BULK_DILATION { 100 } else if id == PERK_SHOP_AUTO_SPEED { 1000 } else { 1 };
        let mut k: u32 = 0;
        while k < bought
            invariant
                id < PERK_SHOP_ENTRY_COUNT,
                k <= bought,
                bought == self.celestials.teresa.perk_shop[id as int],
                cost == perk_shop_cost_at(id, k as nat),
                perk_shop_cost_at(id, bought as nat) < perk_shop_cost_cap(id),
            decreases bought - k,
        {
            proof {
                lemma_perk_shop_cost_monotone(id, (k + 1) as nat, bought as nat);
            }
            cost = cost * 2;
            k = k + 1;
        }
        cost
    }

    /// Whether Perk-Shop entry `id` can be bought: the shop unlocked, the
    /// entry below its cap, and `affordable` (the Perk Points cover its cost).
    pub fn perk_shop_can_buy(&self, id: usize, affordable: bool) -> (r: bool)
        requires
            id < PERK_SHOP_ENTRY_COUNT,
        ensures
            r == (self.celestials.teresa.has_unlock(TERESA_UNLOCK_SHOP) && !self.perk_shop_capped_spec(id)
                && affordable),
    {
        self.teresa_shop_unlocked() && !self.perk_shop_capped(id) && affordable
    }

    /// Buy one level of Perk-Shop entry `id` when it can be bought (the
    /// caller spends the Perk Points). Returns whether it happened.
    pub fn buy_perk_shop(&mut self, id: usize, affordable: bool) -> (r: bool)
        requires
            id < PERK_SHOP_ENTRY_COUNT,
        ensures
            r == (old(self).celestials.teresa.has_unlock(TERESA_UNLOCK_SHOP)
                && !old(self).perk_shop_capped_spec(id) && affordable),
            !r ==> *final(self) == *old(self),
            r ==> *final(self) == (GameState {
                celestials: CelestialsState {
                    teresa: TeresaState {
                        perk_shop: final(self).celestials.teresa.perk_shop,
                        ..old(self).celestials.teresa
                    },
                    ..old(self).celestials
                },
                ..*old(self)
            }),
            r ==> final(self).celestials.teresa.perk_shop@ == old(self).celestials.teresa.perk_shop@.update(
                id as int, (old(self).celestials.teresa.perk_shop[id as int] + 1) as u32),
    {
        if !self.perk_shop_can_buy(id, affordable) {
            return false;
        }
        proof {
            lemma_perk_shop_bought_below_cap(id, self.celestials.teresa.perk_shop[id as int] as nat);
        }
        self.celestials.teresa.perk_shop[id] = self.celestials.teresa.perk_shop[id] + 1;
        true
    }
}

/// An uncapped entry has fewer than 12 purchases.
proof fn lemma_perk_shop_bought_below_cap(id: usize, bought: nat)
    requires
        perk_shop_cost_at(id, bought) < perk_shop_cost_cap(id),
    ensures
        bought < 12,
{
    if bought >= 12 {
        lemma_perk_shop_cost_monotone(id, 12, bought);
        reveal_with_fuel(perk_shop_cost_at, 13);
    }
}

} // verus!
