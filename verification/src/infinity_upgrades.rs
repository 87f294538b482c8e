//! Infinity Upgrades: the 16-cell grid of one-shot upgrades bought with
//! Infinity Points, plus the bottom-row `ipMult` / `ipOffline` upgrades.
//!
//! The grid is four columns of four; each column is a chain bought top to
//! bottom (an upgrade requires the one directly above it).
use vstd::prelude::*;
use crate::state::GameState;
use crate::util::{str_equal, count_ones, popcount};

verus! {

/// The 16 grid upgrades, column-major (column 0 rows 0..4, column 1 rows 0..4, …).
#[derive(Clone, Copy, Debug, PartialEq, Eq, Structural)]
pub enum InfinityUpgrade {
    TotalTimeMult,
    Dim18Mult,
    Dim36Mult,
    ResetBoost,
    Buy10Mult,
    Dim27Mult,
    Dim45Mult,
    GalaxyBoost,
    ThisInfinityTimeMult,
    UnspentIpMult,
    DimboostMult,
    IpGen,
    SkipReset1,
    SkipReset2,
    SkipReset3,
    SkipResetGalaxy,
}

/// Number of grid upgrades.
pub const INFINITY_UPGRADE_COUNT: usize = 16;

/// All 16 upgrades in bit-index order.
pub const ALL_INFINITY_UPGRADES: [InfinityUpgrade; 16] = [
    InfinityUpgrade::TotalTimeMult,
    InfinityUpgrade::Dim18Mult,
    InfinityUpgrade::Dim36Mult,
    InfinityUpgrade::ResetBoost,
    InfinityUpgrade::Buy10Mult,
    InfinityUpgrade::Dim27Mult,
    InfinityUpgrade::Dim45Mult,
    InfinityUpgrade::GalaxyBoost,
    InfinityUpgrade::ThisInfinityTimeMult,
    InfinityUpgrade::UnspentIpMult,
    InfinityUpgrade::DimboostMult,
    InfinityUpgrade::IpGen,
    InfinityUpgrade::SkipReset1,
    InfinityUpgrade::SkipReset2,
    InfinityUpgrade::SkipReset3,
    InfinityUpgrade::SkipResetGalaxy,
];

/// Purchases of `ipMult` from which its cost sits in the steep ×1e10 regime.
pub const IP_MULT_PURCHASES_AT_INCREASE: u32 = 2_999_999;

/// Purchases of `ipMult` from which its next cost reaches the 1e6000000 cap:
/// the cost is `1e3000000 · 1e10^(p − 2999999)` there.
pub const IP_MULT_PURCHASES_AT_CAP: u32 = 3_299_999;

/// The bit index (position in the grid, column-major) of an upgrade.
pub open spec fn upgrade_index(u: InfinityUpgrade) -> int {
    match u {
        InfinityUpgrade::TotalTimeMult => 0,
        InfinityUpgrade::Dim18Mult => 1,
        InfinityUpgrade::Dim36Mult => 2,
        InfinityUpgrade::ResetBoost => 3,
        InfinityUpgrade::Buy10Mult => 4,
        InfinityUpgrade::Dim27Mult => 5,
        InfinityUpgrade::Dim45Mult => 6,
        InfinityUpgrade::GalaxyBoost => 7,
        InfinityUpgrade::ThisInfinityTimeMult => 8,
        InfinityUpgrade::UnspentIpMult => 9,
        InfinityUpgrade::DimboostMult => 10,
        InfinityUpgrade::IpGen => 11,
        InfinityUpgrade::SkipReset1 => 12,
        InfinityUpgrade::SkipReset2 => 13,
        InfinityUpgrade::SkipReset3 => 14,
        InfinityUpgrade::SkipResetGalaxy => 15,
    }
}

/// The upgrade at grid position `i` (column-major).
pub open spec fn upgrade_at(i: int) -> InfinityUpgrade {
    if i <= 0 { InfinityUpgrade::TotalTimeMult }
    else if i == 1 { InfinityUpgrade::Dim18Mult }
    else if i == 2 { InfinityUpgrade::Dim36Mult }
    else if i == 3 { InfinityUpgrade::ResetBoost }
    else if i == 4 { InfinityUpgrade::Buy10Mult }
    else if i == 5 { InfinityUpgrade::Dim27Mult }
    else if i == 6 { InfinityUpgrade::Dim45Mult }
    else if i == 7 { InfinityUpgrade::GalaxyBoost }
    else if i == 8 { InfinityUpgrade::ThisInfinityTimeMult }
    else if i == 9 { InfinityUpgrade::UnspentIpMult }
    else if i == 10 { InfinityUpgrade::DimboostMult }
    else if i == 11 { InfinityUpgrade::IpGen }
    else if i == 12 { InfinityUpgrade::SkipReset1 }
    else if i == 13 { InfinityUpgrade::SkipReset2 }
    else if i == 14 { InfinityUpgrade::SkipReset3 }
    else { InfinityUpgrade::SkipResetGalaxy }
}

/// The bitmask bit of an upgrade.
pub open spec fn upgrade_bit(u: InfinityUpgrade) -> u32 {
    1u32 << (upgrade_index(u) as u32)
}

/// The save id of an upgrade (the string stored in a save).
pub open spec fn upgrade_save_id(u: InfinityUpgrade) -> Seq<char> {
    match u {
        InfinityUpgrade::TotalTimeMult => "timeMult"@,
        InfinityUpgrade::Dim18Mult => "18Mult"@,
        InfinityUpgrade::Dim36Mult => "36Mult"@,
        InfinityUpgrade::ResetBoost => "resetBoost"@,
        InfinityUpgrade::Buy10Mult => "dimMult"@,
        InfinityUpgrade::Dim27Mult => "27Mult"@,
        InfinityUpgrade::Dim45Mult => "45Mult"@,
        InfinityUpgrade::GalaxyBoost => "galaxyBoost"@,
        InfinityUpgrade::ThisInfinityTimeMult => "timeMult2"@,
        InfinityUpgrade::UnspentIpMult => "unspentBonus"@,
        InfinityUpgrade::DimboostMult => "resetMult"@,
        InfinityUpgrade::IpGen => "passiveGen"@,
        InfinityUpgrade::SkipReset1 => "skipReset1"@,
        InfinityUpgrade::SkipReset2 => "skipReset2"@,
        InfinityUpgrade::SkipReset3 => "skipReset3"@,
        InfinityUpgrade::SkipResetGalaxy => "skipResetGalaxy"@,
    }
}

/// The upgrade directly above `u` in its column, if any.
pub open spec fn upgrade_requires(u: InfinityUpgrade) -> Option<InfinityUpgrade> {
    if upgrade_index(u) % 4 == 0 {
        None
    } else {
        Some(upgrade_at(upgrade_index(u) - 1))
    }
}

proof fn lemma_upgrade_at_index(u: InfinityUpgrade)
    ensures
        upgrade_at(upgrade_index(u)) == u,
        0 <= upgrade_index(u) < 16,
{
}

/// Distinct upgrades have distinct save ids.
pub proof fn lemma_save_id_injective(u1: InfinityUpgrade, u2: InfinityUpgrade)
    requires
        upgrade_save_id(u1) == upgrade_save_id(u2),
    ensures
        u1 == u2,
{
    reveal_strlit("timeMult");
    reveal_strlit("18Mult");
    reveal_strlit("36Mult");
    reveal_strlit("resetBoost");
    reveal_strlit("dimMult");
    reveal_strlit("27Mult");
    reveal_strlit("45Mult");
    reveal_strlit("galaxyBoost");
    reveal_strlit("timeMult2");
    reveal_strlit("unspentBonus");
    reveal_strlit("resetMult");
    reveal_strlit("passiveGen");
    reveal_strlit("skipReset1");
    reveal_strlit("skipReset2");
    reveal_strlit("skipReset3");
    reveal_strlit("skipResetGalaxy");
    let a = upgrade_save_id(u1);
    let b = upgrade_save_id(u2);
    assert(a.len() == b.len());
    assert(a[0] == b[0]);
    assert(a[a.len() - 1] == b[b.len() - 1]);
    if a.len() > 5 {
        assert(a[5] == b[5]);
    }
    if a.len() > 9 {
        assert(a[9] == b[9]);
    }
}

/// The paired-dimension upgrade that multiplies Antimatter Dimension `tier`
/// (0-indexed): 1st & 8th, 2nd & 7th, 3rd & 6th, 4th & 5th.
pub open spec fn dim_pair_upgrade_spec(tier: usize) -> Option<InfinityUpgrade> {
    if tier == 0 || tier == 7 { Some(InfinityUpgrade::Dim18Mult) }
    else if tier == 1 || tier == 6 { Some(InfinityUpgrade::Dim27Mult) }
    else if tier == 2 || tier == 5 { Some(InfinityUpgrade::Dim36Mult) }
    else if tier == 3 || tier == 4 { Some(InfinityUpgrade::Dim45Mult) }
    else { None }
}

/// The paired-dimension upgrade that multiplies Antimatter Dimension `tier`.
pub fn dim_pair_upgrade(tier: usize) -> (r: Option<InfinityUpgrade>)
    ensures
        r == dim_pair_upgrade_spec(tier),
{
    if tier == 0 || tier == 7 { Some(InfinityUpgrade::Dim18Mult) }
    else if tier == 1 || tier == 6 { Some(InfinityUpgrade::Dim27Mult) }
    else if tier == 2 || tier == 5 { Some(InfinityUpgrade::Dim36Mult) }
    else if tier == 3 || tier == 4 { Some(InfinityUpgrade::Dim45Mult) }
    else { None }
}

impl InfinityUpgrade {
    /// The upgrade at grid position `i` (column-major).
    pub fn from_index(i: usize) -> (r: InfinityUpgrade)
        requires
            i < 16,
        ensures
            r == upgrade_at(i as int),
            upgrade_index(r) == i,
    {
        if i == 0 { InfinityUpgrade::TotalTimeMult }
        else if i == 1 { InfinityUpgrade::Dim18Mult }
        else if i == 2 { InfinityUpgrade::Dim36Mult }
        else if i == 3 { InfinityUpgrade::ResetBoost }
        else if i == 4 { InfinityUpgrade::Buy10Mult }
        else if i == 5 { InfinityUpgrade::Dim27Mult }
        else if i == 6 { InfinityUpgrade::Dim45Mult }
        else if i == 7 { InfinityUpgrade::GalaxyBoost }
        else if i == 8 { InfinityUpgrade::ThisInfinityTimeMult }
        else if i == 9 { InfinityUpgrade::UnspentIpMult }
        else if i == 10 { InfinityUpgrade::DimboostMult }
        else if i == 11 { InfinityUpgrade::IpGen }
        else if i == 12 { InfinityUpgrade::SkipReset1 }
        else if i == 13 { InfinityUpgrade::SkipReset2 }
        else if i == 14 { InfinityUpgrade::SkipReset3 }
        else { InfinityUpgrade::SkipResetGalaxy }
    }

    /// The grid position of this upgrade.
    pub fn index(self) -> (r: usize)
        ensures
            r == upgrade_index(self),
    {
        match self {
            InfinityUpgrade::TotalTimeMult => 0,
            InfinityUpgrade::Dim18Mult => 1,
            InfinityUpgrade::Dim36Mult => 2,
            InfinityUpgrade::ResetBoost => 3,
            InfinityUpgrade::Buy10Mult => 4,
            InfinityUpgrade::Dim27Mult => 5,
            InfinityUpgrade::Dim45Mult => 6,
            InfinityUpgrade::GalaxyBoost => 7,
            InfinityUpgrade::ThisInfinityTimeMult => 8,
            InfinityUpgrade::UnspentIpMult => 9,
            InfinityUpgrade::DimboostMult => 10,
            InfinityUpgrade::IpGen => 11,
            InfinityUpgrade::SkipReset1 => 12,
            InfinityUpgrade::SkipReset2 => 13,
            InfinityUpgrade::SkipReset3 => 14,
            InfinityUpgrade::SkipResetGalaxy => 15,
        }
    }

    /// Bitmask bit for this upgrade.
    pub fn bit(self) -> (r: u32)
        ensures
            r == upgrade_bit(self),
    {
        let i = self.index();
        1u32 << (i as u32)
    }

    /// The save id (the string stored in the save's upgrade set).
    pub fn save_id(self) -> (r: &'static str)
        ensures
            r@ == upgrade_save_id(self),
    {
        match self {
            InfinityUpgrade::TotalTimeMult => "timeMult",
            InfinityUpgrade::Dim18Mult => "18Mult",
            InfinityUpgrade::Dim36Mult => "36Mult",
            InfinityUpgrade::ResetBoost => "resetBoost",
            InfinityUpgrade::Buy10Mult => "dimMult",
            InfinityUpgrade::Dim27Mult => "27Mult",
            InfinityUpgrade::Dim45Mult => "45Mult",
            InfinityUpgrade::GalaxyBoost => "galaxyBoost",
            InfinityUpgrade::ThisInfinityTimeMult => "timeMult2",
            InfinityUpgrade::UnspentIpMult => "unspentBonus",
            InfinityUpgrade::DimboostMult => "resetMult",
            InfinityUpgrade::IpGen => "passiveGen",
            InfinityUpgrade::SkipReset1 => "skipReset1",
            InfinityUpgrade::SkipReset2 => "skipReset2",
            InfinityUpgrade::SkipReset3 => "skipReset3",
            InfinityUpgrade::SkipResetGalaxy => "skipResetGalaxy",
        }
    }

    /// The upgrade directly above this one in its column, which must be owned
    /// first; `None` for the top of a column.
    pub fn required_upgrade(self) -> (r: Option<InfinityUpgrade>)
        ensures
            r == upgrade_requires(self),
    {
        let idx = self.index();
        if idx % 4 == 0 {
            None
        } else {
            Some(InfinityUpgrade::from_index(idx - 1))
        }
    }

    /// Resolve a save id to its upgrade.
    pub fn from_save_id(id: &str) -> (r: Option<InfinityUpgrade>)
        ensures
            forall|u: InfinityUpgrade| (r == Some(u)) <==> upgrade_save_id(u) == id@,
    {
        let mut i: usize = 0;
        while i < INFINITY_UPGRADE_COUNT
            invariant
                0 <= i <= 16,
                forall|j: int| 0 <= j < i ==> upgrade_save_id(#[trigger] upgrade_at(j)) != id@,
            decreases 16 - i,
        {
            let u = InfinityUpgrade::from_index(i);
            if str_equal(u.save_id(), id) {
                proof {
                    assert forall|w: InfinityUpgrade| (Some(u) == Some(w)) <==> upgrade_save_id(w) == id@ by {
                        if upgrade_save_id(w) == id@ {
                            lemma_save_id_injective(u, w);
                        }
                    }
                }
                return Some(u);
            }
            i = i + 1;
        }
        proof {
            assert forall|w: InfinityUpgrade| upgrade_save_id(w) != id@ by {
                lemma_upgrade_at_index(w);
                assert(upgrade_save_id(upgrade_at(upgrade_index(w))) != id@);
            }
        }
        None
    }
}

impl GameState {
    pub open spec fn has_infinity_upgrade(&self, u: InfinityUpgrade) -> bool {
        self.infinity_upgrades & upgrade_bit(u) != 0
    }

    pub open spec fn can_buy_infinity_upgrade_spec(&self, u: InfinityUpgrade, affordable: bool) -> bool {
        &&& !self.has_infinity_upgrade(u)
        &&& match upgrade_requires(u) {
            Some(req) => self.has_infinity_upgrade(req),
            None => true,
        }
        &&& affordable
    }

    /// Whether `upgrade` is owned.
    pub fn infinity_upgrade_bought(&self, upgrade: InfinityUpgrade) -> (r: bool)
        ensures
            r == self.has_infinity_upgrade(upgrade),
    {
        self.infinity_upgrades & upgrade.bit() != 0
    }

    /// Whether `upgrade` can be bought: not owned, its column prerequisite
    /// owned, and `affordable` (the Infinity Points cover its cost).
    pub fn can_buy_infinity_upgrade(&self, upgrade: InfinityUpgrade, affordable: bool) -> (r: bool)
        ensures
            r == self.can_buy_infinity_upgrade_spec(upgrade, affordable),
    {
        if self.infinity_upgrade_bought(upgrade) {
            return false;
        }
        match upgrade.required_upgrade() {
            Some(req) => {
                if !self.infinity_upgrade_bought(req) {
                    return false;
                }
            },
            None => {},
        }
        affordable
    }

    /// The requirement reduction from `resetBoost`: 9 once owned.
    pub fn reset_boost_reduction(&self) -> (r: u64)
        ensures
            r == (if self.has_infinity_upgrade(InfinityUpgrade::ResetBoost) { 9u64 } else { 0u64 }),
    {
        if self.infinity_upgrade_bought(InfinityUpgrade::ResetBoost) {
            9
        } else {
            0
        }
    }

    /// The Dimension Boosts (and Galaxies) that the skip-reset upgrades grant
    /// on top of `boosts` / `galaxies`, as `(boosts, galaxies)`.
    pub open spec fn skip_reset_target(&self) -> (u32, u32) {
        if self.in_antimatter_challenge_spec() {
            (self.dim_boosts, self.galaxies)
        } else if self.has_infinity_upgrade(InfinityUpgrade::SkipResetGalaxy) && self.dim_boosts < 4 {
            (4, if self.galaxies == 0 { 1 } else { self.galaxies })
        } else if self.has_infinity_upgrade(InfinityUpgrade::SkipReset3) && self.dim_boosts < 3 {
            (3, self.galaxies)
        } else if self.has_infinity_upgrade(InfinityUpgrade::SkipReset2) && self.dim_boosts < 2 {
            (2, self.galaxies)
        } else if self.has_infinity_upgrade(InfinityUpgrade::SkipReset1) && self.dim_boosts < 1 {
            (1, self.galaxies)
        } else {
            (self.dim_boosts, self.galaxies)
        }
    }

    /// Apply the skip-reset upgrades: raise the Dimension Boosts to the
    /// highest owned skip level (and give a first Galaxy for
    /// `skipResetGalaxy`). A no-op in an antimatter challenge, which always
    /// starts fresh. Only ever raises state.
    pub fn skip_resets_if_possible(&mut self)
        ensures
            (final(self).dim_boosts, final(self).galaxies) == old(self).skip_reset_target(),
            *final(self) == (GameState {
                dim_boosts: final(self).dim_boosts,
                galaxies: final(self).galaxies,
                ..*old(self)
            }),
    {
        if self.in_any_antimatter_challenge() {
            return;
        }
        if self.infinity_upgrade_bought(InfinityUpgrade::SkipResetGalaxy) && self.dim_boosts < 4 {
            self.dim_boosts = 4;
            if self.galaxies == 0 {
                self.galaxies = 1;
            }
        } else if self.infinity_upgrade_bought(InfinityUpgrade::SkipReset3) && self.dim_boosts < 3 {
            self.dim_boosts = 3;
        } else if self.infinity_upgrade_bought(InfinityUpgrade::SkipReset2) && self.dim_boosts < 2 {
            self.dim_boosts = 2;
        } else if self.infinity_upgrade_bought(InfinityUpgrade::SkipReset1) && self.dim_boosts < 1 {
            self.dim_boosts = 1;
        }
    }

    /// Buy `upgrade` when [`can_buy_infinity_upgrade`](Self::can_buy_infinity_upgrade)
    /// allows it (the caller spends its Infinity-Point cost). Owning 16
    /// Infinity and Break Infinity Upgrades together unlocks achievement 41;
    /// a skip-reset upgrade applies at once. Returns whether it was bought.
    pub fn buy_infinity_upgrade(&mut self, upgrade: InfinityUpgrade, affordable: bool) -> (r: bool)
        ensures
            r == old(self).can_buy_infinity_upgrade_spec(upgrade, affordable),
            !r ==> *final(self) == *old(self),
            r ==> final(self).infinity_upgrades == (old(self).infinity_upgrades | upgrade_bit(upgrade)),
            r ==> final(self).achievements@ == (if (popcount(final(self).infinity_upgrades) + popcount(old(self).break_infinity_upgrades)) >= 16 {
                old(self).achievements_with(41)
            } else {
                old(self).achievements@
            }),
            r ==> (final(self).dim_boosts, final(self).galaxies) == (if upgrade_index(upgrade) >= 12 {
                (GameState { infinity_upgrades: final(self).infinity_upgrades, ..*old(self) }).skip_reset_target()
            } else {
                (old(self).dim_boosts, old(self).galaxies)
            }),
            r ==> *final(self) == (GameState {
                infinity_upgrades: final(self).infinity_upgrades,
                achievements: final(self).achievements,
                dim_boosts: final(self).dim_boosts,
                galaxies: final(self).galaxies,
                ..*old(self)
            }),
    {
        if !self.can_buy_infinity_upgrade(upgrade, affordable) {
            return false;
        }
        self.infinity_upgrades = self.infinity_upgrades | upgrade.bit();
        if (count_ones(self.infinity_upgrades) as u64) + (count_ones(self.break_infinity_upgrades) as u64) >= 16 {
            self.unlock_achievement(41);
        }
        let idx = upgrade.index();
        if idx >= 12 {
            self.skip_resets_if_possible();
        }
        true
    }

    /// Whether the `ipMult` rebuyable has hit its cost cap of 1e6000000.
    pub fn ip_mult_capped(&self) -> (r: bool)
        ensures
            r == (self.ip_mult_purchases >= IP_MULT_PURCHASES_AT_CAP),
    {
        self.ip_mult_purchases >= IP_MULT_PURCHASES_AT_CAP
    }

    /// Whether an IP multiplier could be bought were it affordable.
    pub open spec fn can_buy_ip_mult_spec(&self) -> bool {
        !self.celestials.pelle.doomed && self.ip_mult_purchases < IP_MULT_PURCHASES_AT_CAP && self.has_achievement(41)
    }

    /// Whether an ×2 IP multiplier can be bought: not Doomed, not capped,
    /// achievement 41 unlocked, and `affordable` (the IP covers its cost).
    pub fn can_buy_ip_mult(&self, affordable: bool) -> (r: bool)
        ensures
            r == (!self.celestials.pelle.doomed && self.ip_mult_purchases < IP_MULT_PURCHASES_AT_CAP
                && affordable && self.has_achievement(41)),
    {
        !self.is_doomed() && !self.ip_mult_capped() && affordable && self.achievement_unlocked(41)
    }

    /// Buy one ×2 IP multiplier when allowed (the caller spends the IP and
    /// doubles the Big Crunch autobuyer's amount). Returns whether it was
    /// bought.
    pub fn buy_ip_mult(&mut self, affordable: bool) -> (r: bool)
        ensures
            r == (!old(self).celestials.pelle.doomed && old(self).ip_mult_purchases < IP_MULT_PURCHASES_AT_CAP
                && affordable && old(self).has_achievement(41)),
            !r ==> *final(self) == *old(self),
            r ==> *final(self) == (GameState {
                ip_mult_purchases: (old(self).ip_mult_purchases + 1) as u32,
                ..*old(self)
            }),
    {
        if !self.can_buy_ip_mult(affordable) {
            return false;
        }
        self.ip_mult_purchases = self.ip_mult_purchases + 1;
        true
    }

    /// Whether the one-time `ipOffline` upgrade can be bought: achievement 41
    /// unlocked, not yet owned, and `affordable` (1000 Infinity Points held).
    pub fn can_buy_ip_offline(&self, affordable: bool) -> (r: bool)
        ensures
            r == (!self.ip_offline_bought && self.has_achievement(41) && affordable),
    {
        !self.ip_offline_bought && self.achievement_unlocked(41) && affordable
    }

    /// Buy `ipOffline` when allowed (the caller spends its 1000 IP).
    pub fn buy_ip_offline(&mut self, affordable: bool) -> (r: bool)
        ensures
            r == (!old(self).ip_offline_bought && old(self).has_achievement(41) && affordable),
            *final(self) == (GameState { ip_offline_bought: old(self).ip_offline_bought || r, ..*old(self) }),
    {
        if !self.can_buy_ip_offline(affordable) {
            return false;
        }
        self.ip_offline_bought = true;
        true
    }

    /// Whether the IP multiplier's cost has steepened to ×1e10 per purchase.
    pub fn ip_mult_has_increased_cost(&self) -> (r: bool)
        ensures
            r == (self.ip_mult_purchases >= IP_MULT_PURCHASES_AT_INCREASE),
    {
        self.ip_mult_purchases >= IP_MULT_PURCHASES_AT_INCREASE
    }

    /// The IP-multiplier purchase count after buying as many as the IP
    /// affords: `below` purchases at ×10 costs up to the steepening, then
    /// `above` at ×1e10 costs up to the cap.
    pub open spec fn ip_mult_after_max(&self, below: u64, above: u64) -> int {
        let p0 = self.ip_mult_purchases as int;
        let p1 = if p0 < IP_MULT_PURCHASES_AT_INCREASE {
            let room = IP_MULT_PURCHASES_AT_INCREASE - p0;
            p0 + (if below < room { below as int } else { room })
        } else {
            p0
        };
        if p1 >= IP_MULT_PURCHASES_AT_INCREASE && p1 < IP_MULT_PURCHASES_AT_CAP {
            let room = IP_MULT_PURCHASES_AT_CAP - p1;
            p1 + (if above < room { above as int } else { room })
        } else {
            p1
        }
    }

    /// Buy as many ×2 IP multipliers as the IP affords, when one can be
    /// bought: `below` is how many the IP under the steepening cost covers
    /// (×10 per purchase), `above` how many the IP covers past it (×1e10 per
    /// purchase); the caller spends the IP. Returns the purchases made.
    pub fn buy_max_ip_mult(&mut self, below: u64, above: u64) -> (r: u64)
        ensures
            !old(self).can_buy_ip_mult_spec() ==> r == 0 && *final(self) == *old(self),
            old(self).can_buy_ip_mult_spec() ==> {
                &&& r == old(self).ip_mult_after_max(below, above) - old(self).ip_mult_purchases
                &&& *final(self) == (GameState {
                    ip_mult_purchases: old(self).ip_mult_after_max(below, above) as u32,
                    ..*old(self)
                })
            },
    {
        if !self.can_buy_ip_mult(true) {
            return 0;
        }
        let p0 = self.ip_mult_purchases;
        if self.ip_mult_purchases < IP_MULT_PURCHASES_AT_INCREASE {
            let room = (IP_MULT_PURCHASES_AT_INCREASE - self.ip_mult_purchases) as u64;
            let n: u64 = if below < room { below } else { room };
            self.ip_mult_purchases = self.ip_mult_purchases + n as u32;
        }
        if self.ip_mult_purchases >= IP_MULT_PURCHASES_AT_INCREASE && self.ip_mult_purchases < IP_MULT_PURCHASES_AT_CAP {
            let room = (IP_MULT_PURCHASES_AT_CAP - self.ip_mult_purchases) as u64;
            let n: u64 = if above < room { above } else { room };
            self.ip_mult_purchases = self.ip_mult_purchases + n as u32;
        }
        (self.ip_mult_purchases - p0) as u64
    }
}

} // verus!
