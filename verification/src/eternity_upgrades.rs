//! Eternity Upgrades: six one-time upgrades and the rebuyable ×5 Eternity
//! Point multiplier.
use vstd::prelude::*;
use crate::state::GameState;

verus! {

/// The six one-time Eternity Upgrades, ids 1–6.
#[derive(Clone, Copy, Debug, PartialEq, Eq, Structural)]
pub enum EternityUpgrade {
    IdMultEp,
    IdMultEternities,
    IdMultIcRecords,
    TdMultAchievements,
    TdMultTheorems,
    TdMultRealTime,
}

/// The id (1–6) of `u`.
pub open spec fn eternity_upgrade_id(u: EternityUpgrade) -> u8 {
    match u {
        EternityUpgrade::IdMultEp => 1,
        EternityUpgrade::IdMultEternities => 2,
        EternityUpgrade::IdMultIcRecords => 3,
        EternityUpgrade::TdMultAchievements => 4,
        EternityUpgrade::TdMultTheorems => 5,
        EternityUpgrade::TdMultRealTime => 6,
    }
}

/// The upgrade with id `id`, if any.
pub open spec fn eternity_upgrade_of(id: u8) -> Option<EternityUpgrade> {
    if id == 1 { Some(EternityUpgrade::IdMultEp) }
    else if id == 2 { Some(EternityUpgrade::IdMultEternities) }
    else if id == 3 { Some(EternityUpgrade::IdMultIcRecords) }
    else if id == 4 { Some(EternityUpgrade::TdMultAchievements) }
    else if id == 5 { Some(EternityUpgrade::TdMultTheorems) }
    else if id == 6 { Some(EternityUpgrade::TdMultRealTime) }
    else { None }
}

/// An id names the upgrade that has it, and only ids 1–6 name one.
pub proof fn lemma_eternity_upgrade_id_round_trip(u: EternityUpgrade, id: u8)
    ensures
        eternity_upgrade_of(eternity_upgrade_id(u)) == Some(u),
        eternity_upgrade_of(id) is Some <==> 1 <= id <= 6,
        eternity_upgrade_of(id) is Some ==> eternity_upgrade_id(eternity_upgrade_of(id)->0) == id,
{
}

impl EternityUpgrade {
    /// The upgrade's id, 1–6.
    pub fn id(self) -> (r: u8)
        ensures
            r == eternity_upgrade_id(self),
    {
        match self {
            EternityUpgrade::IdMultEp => 1,
            EternityUpgrade::IdMultEternities => 2,
            EternityUpgrade::IdMultIcRecords => 3,
            EternityUpgrade::TdMultAchievements => 4,
            EternityUpgrade::TdMultTheorems => 5,
            EternityUpgrade::TdMultRealTime => 6,
        }
    }

    /// The upgrade's bit in the bought-upgrades mask: `1 << (id − 1)`.
    pub fn bit(self) -> (r: u32)
        ensures
            r == 1u32 << ((eternity_upgrade_id(self) - 1) as u32),
    {
        let id = self.id();
        1u32 << ((id - 1) as u32)
    }

    /// The upgrade with id `id` (`None` outside 1–6).
    pub fn from_id(id: u8) -> (r: Option<EternityUpgrade>)
        ensures
            r == eternity_upgrade_of(id),
    {
        if id == 1 { Some(EternityUpgrade::IdMultEp) }
        else if id == 2 { Some(EternityUpgrade::IdMultEternities) }
        else if id == 3 { Some(EternityUpgrade::IdMultIcRecords) }
        else if id == 4 { Some(EternityUpgrade::TdMultAchievements) }
        else if id == 5 { Some(EternityUpgrade::TdMultTheorems) }
        else if id == 6 { Some(EternityUpgrade::TdMultRealTime) }
        else { None }
    }
}

impl GameState {
    pub open spec fn has_eternity_upgrade(&self, u: EternityUpgrade) -> bool {
        self.eternity_upgrades & (1u32 << ((eternity_upgrade_id(u) - 1) as u32)) != 0
    }

    /// Whether `upgrade` is bought.
    pub fn eternity_upgrade_bought(&self, upgrade: EternityUpgrade) -> (r: bool)
        ensures
            r == self.has_eternity_upgrade(upgrade),
    {
        self.eternity_upgrades & upgrade.bit() != 0
    }

    /// Whether `upgrade` can be bought: not yet bought and `affordable` (the
    /// Eternity Points cover its cost).
    pub fn can_buy_eternity_upgrade(&self, upgrade: EternityUpgrade, affordable: bool) -> (r: bool)
        ensures
            r == (!self.has_eternity_upgrade(upgrade) && affordable),
    {
        !self.eternity_upgrade_bought(upgrade) && affordable
    }

    /// Buy `upgrade` when allowed (the caller spends the Eternity Points).
    /// Returns whether it was bought.
    pub fn buy_eternity_upgrade(&mut self, upgrade: EternityUpgrade, affordable: bool) -> (r: bool)
        ensures
            r == (!old(self).has_eternity_upgrade(upgrade) && affordable),
            !r ==> *final(self) == *old(self),
            r ==> *final(self) == (GameState {
                eternity_upgrades: old(self).eternity_upgrades | (1u32 << ((eternity_upgrade_id(upgrade) - 1) as u32)),
                ..*old(self)
            }),
    {
        if !self.can_buy_eternity_upgrade(upgrade, affordable) {
            return false;
        }
        self.eternity_upgrades = self.eternity_upgrades | upgrade.bit();
        true
    }

    /// Buy one ×5 Eternity Point multiplier when `affordable`. Returns
    /// whether it was bought.
    pub fn buy_ep_mult(&mut self, affordable: bool) -> (r: bool)
        requires
            old(self).epmult_upgrades < u32::MAX,
        ensures
            r == affordable,
            !r ==> *final(self) == *old(self),
            r ==> *final(self) == (GameState {
                epmult_upgrades: (old(self).epmult_upgrades + 1) as u32,
                ..*old(self)
            }),
    {
        if !affordable {
            return false;
        }
        self.epmult_upgrades = self.epmult_upgrades + 1;
        true
    }

    /// Buy as many ×5 Eternity Point multipliers as the Eternity Points
    /// afford in turn (`affordable`, counted by the caller). Returns the
    /// number bought.
    pub fn buy_max_ep_mult(&mut self, affordable: u32) -> (r: u64)
        requires
            old(self).epmult_upgrades + affordable <= u32::MAX,
        ensures
            r == affordable,
            *final(self) == (GameState {
                epmult_upgrades: (old(self).epmult_upgrades + affordable) as u32,
                ..*old(self)
            }),
    {
        let mut count: u32 = 0;
        while count < affordable
            invariant
                count <= affordable,
                old(self).epmult_upgrades + affordable <= u32::MAX,
                *self == (GameState {
                    epmult_upgrades: (old(self).epmult_upgrades + count) as u32,
                    ..*old(self)
                }),
            decreases affordable - count,
        {
            self.buy_ep_mult(true);
            count = count + 1;
        }
        count as u64
    }
}

} // verus!
