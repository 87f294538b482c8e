//! Lai'tela: Dark Matter Dimensions, Annihilation, Singularities and her
//! destabilising Reality.
use vstd::prelude::*;
use crate::state::{GameState, RequirementChecks};
use crate::celestials::CelestialsState;

verus! {

/// The upgrade counters of one Dark Matter Dimension.
pub struct DarkMatterDimension {
    pub interval_upgrades: u32,
    pub power_dm_upgrades: u32,
    pub power_de_upgrades: u32,
    pub ascension_count: u32,
}

/// The saved state of this celestial.
pub struct LaitelaState {
    pub singularity_cap_increases: u32,
    pub run: bool,
    /// Destabilisation tier: each completed fast run disables one more
    /// Antimatter Dimension.
    pub difficulty_tier: u32,
    pub dimensions: [DarkMatterDimension; 4],
    /// Continuum toggle (inverted).
    pub disable_continuum: bool,
}

/// Which Dark-Matter-Dimension upgrade a purchase is for.
#[derive(Clone, Copy, Debug, PartialEq, Eq, Structural)]
pub enum DmdUpgrade {
    Interval,
    PowerDm,
    PowerDe,
}

/// Four Dark Matter Dimensions with no upgrades.
pub open spec fn cleared_dmds() -> [DarkMatterDimension; 4] {
    [
        DarkMatterDimension { interval_upgrades: 0, power_dm_upgrades: 0, power_de_upgrades: 0, ascension_count: 0 },
        DarkMatterDimension { interval_upgrades: 0, power_dm_upgrades: 0, power_de_upgrades: 0, ascension_count: 0 },
        DarkMatterDimension { interval_upgrades: 0, power_dm_upgrades: 0, power_de_upgrades: 0, ascension_count: 0 },
        DarkMatterDimension { interval_upgrades: 0, power_dm_upgrades: 0, power_de_upgrades: 0, ascension_count: 0 },
    ]
}

/// `d` with one more purchase of `kind`.
pub open spec fn dmd_bumped(d: DarkMatterDimension, kind: DmdUpgrade) -> DarkMatterDimension {
    match kind {
        DmdUpgrade::Interval => DarkMatterDimension { interval_upgrades: (d.interval_upgrades + 1) as u32, ..d },
        DmdUpgrade::PowerDm => DarkMatterDimension { power_dm_upgrades: (d.power_dm_upgrades + 1) as u32, ..d },
        DmdUpgrade::PowerDe => DarkMatterDimension { power_de_upgrades: (d.power_de_upgrades + 1) as u32, ..d },
    }
}

/// Whether `d`'s counter for `kind` can take one more purchase.
pub open spec fn dmd_counter_below_max(d: DarkMatterDimension, kind: DmdUpgrade) -> bool {
    match kind {
        DmdUpgrade::Interval => d.interval_upgrades < u32::MAX,
        DmdUpgrade::PowerDm => d.power_dm_upgrades < u32::MAX,
        DmdUpgrade::PowerDe => d.power_de_upgrades < u32::MAX,
    }
}

impl GameState {
    pub open spec fn laitela_max_allowed_spec(&self) -> u32 {
        if self.celestials.laitela.difficulty_tier >= 8 { 0 } else { (8 - self.celestials.laitela.difficulty_tier) as u32 }
    }

    /// The state with the Lai'tela field replaced.
    pub open spec fn with_laitela(&self, l: LaitelaState) -> GameState {
        GameState { celestials: CelestialsState { laitela: l, ..self.celestials }, ..*self }
    }

    /// Whether Lai'tela is unlocked (Imaginary Upgrade 15).
    pub fn laitela_unlocked(&self) -> (r: bool)
        ensures
            r == self.has_imaginary_upgrade(15),
    {
        self.imaginary_upgrade_bought(15)
    }

    /// Whether Lai'tela's Reality is running.
    pub fn laitela_is_running(&self) -> (r: bool)
        ensures
            r == self.celestials.laitela.run,
    {
        self.celestials.laitela.run
    }

    /// Whether Lai'tela's Reality can be entered (she is unlocked).
    pub fn laitela_run_unlocked(&self) -> (r: bool)
        ensures
            r == self.has_imaginary_upgrade(15),
    {
        self.laitela_unlocked()
    }

    /// The highest Antimatter Dimension usable in Lai'tela's Reality:
    /// `8 − difficulty tier`, never below 0.
    pub fn laitela_max_allowed_dimension(&self) -> (r: u32)
        ensures
            r == self.laitela_max_allowed_spec(),
    {
        8u32.saturating_sub(self.celestials.laitela.difficulty_tier)
    }

    /// Whether every Antimatter Dimension is disabled (fully destabilised).
    pub fn laitela_is_fully_destabilized(&self) -> (r: bool)
        ensures
            r == (self.laitela_max_allowed_spec() == 0),
    {
        self.laitela_max_allowed_dimension() == 0
    }

    /// Whether Antimatter Dimension `tier` (1-indexed) is disabled in
    /// Lai'tela's Reality.
    pub(crate) fn laitela_dimension_disabled(&self, tier: u32) -> (r: bool)
        ensures
            r == (self.celestials.laitela.run && tier > self.laitela_max_allowed_spec()),
    {
        self.celestials.laitela.run && tier > self.laitela_max_allowed_dimension()
    }

    /// Whether Dark Matter Dimension `tier` (0-indexed) is unlocked
    /// (Imaginary Upgrades 15–18).
    pub fn dmd_unlocked(&self, tier: usize) -> (r: bool)
        requires
            tier < 17,
        ensures
            r == self.has_imaginary_upgrade((tier + 15) as u8),
    {
        self.imaginary_upgrade_bought((tier as u8) + 15)
    }

    /// Whether a Dark Matter Dimension interval upgrade can be bought:
    /// `affordable` (the Dark Matter covers it) and the interval still above
    /// its 10 ms floor (`above_floor`).
    pub fn dmd_can_buy_interval(&self, affordable: bool, above_floor: bool) -> (r: bool)
        ensures
            r == (affordable && above_floor),
    {
        affordable && above_floor
    }

    /// One purchase of `kind` for Dark Matter Dimension `tier` when
    /// `allowed`. Returns whether it happened.
    fn dmd_buy(&mut self, tier: usize, kind: DmdUpgrade, allowed: bool) -> (r: bool)
        requires
            tier < 4,
            dmd_counter_below_max(old(self).celestials.laitela.dimensions[tier as int], kind),
        ensures
            r == allowed,
            !r ==> *final(self) == *old(self),
            r ==> final(self).celestials.laitela.dimensions@ == old(self).celestials.laitela.dimensions@.update(
                tier as int, dmd_bumped(old(self).celestials.laitela.dimensions[tier as int], kind)),
            *final(self) == old(self).with_laitela(LaitelaState {
                dimensions: final(self).celestials.laitela.dimensions,
                ..old(self).celestials.laitela
            }),
    {
        if !allowed {
            return false;
        }
        let d = &self.celestials.laitela.dimensions[tier];
        let bumped = match kind {
            DmdUpgrade::Interval => DarkMatterDimension { interval_upgrades: d.interval_upgrades + 1, ..*d },
            DmdUpgrade::PowerDm => DarkMatterDimension { power_dm_upgrades: d.power_dm_upgrades + 1, ..*d },
            DmdUpgrade::PowerDe => DarkMatterDimension { power_de_upgrades: d.power_de_upgrades + 1, ..*d },
        };
        self.celestials.laitela.dimensions[tier] = bumped;
        true
    }

    /// Buy an interval upgrade for Dark Matter Dimension `tier` when
    /// allowed (see `dmd_can_buy_interval`; the caller spends the Dark
    /// Matter). Returns whether it was bought.
    pub fn dmd_buy_interval(&mut self, tier: usize, affordable: bool, above_floor: bool) -> (r: bool)
        requires
            tier < 4,
            old(self).celestials.laitela.dimensions[tier as int].interval_upgrades < u32::MAX,
        ensures
            r == (affordable && above_floor),
            !r ==> *final(self) == *old(self),
            r ==> final(self).celestials.laitela.dimensions@ == old(self).celestials.laitela.dimensions@.update(
                tier as int, dmd_bumped(old(self).celestials.laitela.dimensions[tier as int], DmdUpgrade::Interval)),
            *final(self) == old(self).with_laitela(LaitelaState {
                dimensions: final(self).celestials.laitela.dimensions,
                ..old(self).celestials.laitela
            }),
    {
        let allowed = self.dmd_can_buy_interval(affordable, above_floor);
        self.dmd_buy(tier, DmdUpgrade::Interval, allowed)
    }

    /// Buy a Dark-Matter power upgrade for `tier` when `affordable`.
    pub fn dmd_buy_power_dm(&mut self, tier: usize, affordable: bool) -> (r: bool)
        requires
            tier < 4,
            old(self).celestials.laitela.dimensions[tier as int].power_dm_upgrades < u32::MAX,
        ensures
            r == affordable,
            !r ==> *final(self) == *old(self),
            r ==> final(self).celestials.laitela.dimensions@ == old(self).celestials.laitela.dimensions@.update(
                tier as int, dmd_bumped(old(self).celestials.laitela.dimensions[tier as int], DmdUpgrade::PowerDm)),
            *final(self) == old(self).with_laitela(LaitelaState {
                dimensions: final(self).celestials.laitela.dimensions,
                ..old(self).celestials.laitela
            }),
    {
        self.dmd_buy(tier, DmdUpgrade::PowerDm, affordable)
    }

    /// Buy a Dark-Energy power upgrade for `tier` when `affordable`.
    pub fn dmd_buy_power_de(&mut self, tier: usize, affordable: bool) -> (r: bool)
        requires
            tier < 4,
            old(self).celestials.laitela.dimensions[tier as int].power_de_upgrades < u32::MAX,
        ensures
            r == affordable,
            !r ==> *final(self) == *old(self),
            r ==> final(self).celestials.laitela.dimensions@ == old(self).celestials.laitela.dimensions@.update(
                tier as int, dmd_bumped(old(self).celestials.laitela.dimensions[tier as int], DmdUpgrade::PowerDe)),
            *final(self) == old(self).with_laitela(LaitelaState {
                dimensions: final(self).celestials.laitela.dimensions,
                ..old(self).celestials.laitela
            }),
    {
        self.dmd_buy(tier, DmdUpgrade::PowerDe, affordable)
    }

    /// Ascend Dark Matter Dimension `tier` once its interval is at the floor
    /// (`at_floor`). Returns whether it happened; the interval upgrades it
    /// then affords are bought one by one with `dmd_buy_interval`.
    pub fn dmd_ascend(&mut self, tier: usize, at_floor: bool) -> (r: bool)
        requires
            tier < 4,
            old(self).celestials.laitela.dimensions[tier as int].ascension_count < u32::MAX,
        ensures
            r == at_floor,
            !r ==> *final(self) == *old(self),
            r ==> final(self).celestials.laitela.dimensions@ == old(self).celestials.laitela.dimensions@.update(
                tier as int, DarkMatterDimension {
                    ascension_count: (old(self).celestials.laitela.dimensions[tier as int].ascension_count + 1) as u32,
                    ..old(self).celestials.laitela.dimensions[tier as int]
                }),
            *final(self) == old(self).with_laitela(LaitelaState {
                dimensions: final(self).celestials.laitela.dimensions,
                ..old(self).celestials.laitela
            }),
    {
        if !at_floor {
            return false;
        }
        let d = &self.celestials.laitela.dimensions[tier];
        let ascended = DarkMatterDimension { ascension_count: d.ascension_count + 1, ..*d };
        self.celestials.laitela.dimensions[tier] = ascended;
        true
    }

    /// The upgrades "max all" considers, in order: for each unlocked Dark
    /// Matter Dimension below `min(max_tier, 4)`, its interval, Dark-Matter
    /// power and Dark-Energy power upgrades.
    pub fn dmd_max_all_candidates(&self, max_tier: u32) -> (r: Vec<(usize, DmdUpgrade)>)
        ensures
            r@ == self.dmd_candidates_spec(if max_tier < 4 { max_tier as int } else { 4 }),
    {
        let limit: usize = if max_tier < 4 { max_tier as usize } else { 4 };
        let mut out: Vec<(usize, DmdUpgrade)> = Vec::new();
        let mut tier: usize = 0;
        while tier < limit
            invariant
                limit <= 4,
                tier <= limit,
                out@ == self.dmd_candidates_spec(tier as int),
            decreases limit - tier,
        {
            if self.dmd_unlocked(tier) {
                out.push((tier, DmdUpgrade::Interval));
                out.push((tier, DmdUpgrade::PowerDm));
                out.push((tier, DmdUpgrade::PowerDe));
            }
            tier = tier + 1;
        }
        out
    }

    /// The "max all" candidates of the first `n` tiers.
    pub open spec fn dmd_candidates_spec(&self, n: int) -> Seq<(usize, DmdUpgrade)>
        decreases n,
    {
        if n <= 0 {
            Seq::empty()
        } else {
            let prev = self.dmd_candidates_spec(n - 1);
            if self.has_imaginary_upgrade((n - 1 + 15) as u8) {
                prev.push(((n - 1) as usize, DmdUpgrade::Interval))
                    .push(((n - 1) as usize, DmdUpgrade::PowerDm))
                    .push(((n - 1) as usize, DmdUpgrade::PowerDe))
            } else {
                prev
            }
        }
    }

    /// Whether Annihilation is unlocked (Imaginary Upgrade 19).
    pub fn annihilation_unlocked(&self) -> (r: bool)
        ensures
            r == self.has_imaginary_upgrade(19),
    {
        self.imaginary_upgrade_bought(19)
    }

    /// Annihilate: unless `force`d, only once unlocked and `dm_reached`
    /// (Dark Matter at 1e60). Every Dark Matter Dimension loses its upgrades
    /// and ascensions (the caller raises the Dark Matter multiplier and
    /// resets the amounts). Returns whether it happened.
    pub fn annihilate(&mut self, force: bool, dm_reached: bool) -> (r: bool)
        ensures
            r == (force || (old(self).has_imaginary_upgrade(19) && dm_reached)),
            !r ==> *final(self) == *old(self),
            r ==> *final(self) == old(self).with_laitela(LaitelaState {
                dimensions: cleared_dmds(),
                ..old(self).celestials.laitela
            }),
    {
        if !force && !(self.annihilation_unlocked() && dm_reached) {
            return false;
        }
        self.celestials.laitela.dimensions = [
            DarkMatterDimension { interval_upgrades: 0, power_dm_upgrades: 0, power_de_upgrades: 0, ascension_count: 0 },
            DarkMatterDimension { interval_upgrades: 0, power_dm_upgrades: 0, power_de_upgrades: 0, ascension_count: 0 },
            DarkMatterDimension { interval_upgrades: 0, power_dm_upgrades: 0, power_de_upgrades: 0, ascension_count: 0 },
            DarkMatterDimension { interval_upgrades: 0, power_dm_upgrades: 0, power_de_upgrades: 0, ascension_count: 0 },
        ];
        true
    }

    /// Whether Continuum is unlocked: Imaginary Upgrade 15, and not disabled
    /// by the doom (it always is while Doomed).
    pub fn continuum_unlocked(&self) -> (r: bool)
        ensures
            r == (self.has_imaginary_upgrade(15) && !self.celestials.pelle.doomed),
    {
        proof {
            reveal_strlit("continuum");
            reveal_strlit("glyphs");
            reveal_strlit("antimatterDimAutobuyer1");
            reveal_strlit("antimatterDimAutobuyer2");
            reveal_strlit("antimatterDimAutobuyer3");
            reveal_strlit("antimatterDimAutobuyer4");
            reveal_strlit("antimatterDimAutobuyer5");
            reveal_strlit("antimatterDimAutobuyer6");
            reveal_strlit("antimatterDimAutobuyer7");
            reveal_strlit("antimatterDimAutobuyer8");
            reveal_strlit("dimBoostAutobuyer");
            reveal_strlit("galaxyAutobuyer");
            reveal_strlit("tickspeedAutobuyer");
            assert("continuum"@.len() == 9);
            assert("continuum"@ != "glyphs"@);
            assert("continuum"@ != "antimatterDimAutobuyer1"@);
            assert("continuum"@ != "antimatterDimAutobuyer2"@);
            assert("continuum"@ != "antimatterDimAutobuyer3"@);
            assert("continuum"@ != "antimatterDimAutobuyer4"@);
            assert("continuum"@ != "antimatterDimAutobuyer5"@);
            assert("continuum"@ != "antimatterDimAutobuyer6"@);
            assert("continuum"@ != "antimatterDimAutobuyer7"@);
            assert("continuum"@ != "antimatterDimAutobuyer8"@);
            assert("continuum"@ != "dimBoostAutobuyer"@);
            assert("continuum"@ != "galaxyAutobuyer"@);
            assert("continuum"@ != "tickspeedAutobuyer"@);
        }
        self.imaginary_upgrade_bought(15) && !self.pelle_is_disabled("continuum", false)
    }

    /// Whether Continuum is on.
    pub fn continuum_active(&self) -> (r: bool)
        ensures
            r == (self.has_imaginary_upgrade(15) && !self.celestials.pelle.doomed
                && !self.celestials.laitela.disable_continuum),
    {
        self.continuum_unlocked() && !self.celestials.laitela.disable_continuum
    }

    /// Turn Continuum on or off; turning it on spoils the "no Continuum"
    /// requirement of this Reality.
    pub fn set_continuum(&mut self, on: bool)
        ensures
            *final(self) == (GameState {
                requirement_checks: if on {
                    RequirementChecks { reality_no_continuum: false, ..old(self).requirement_checks }
                } else {
                    old(self).requirement_checks
                },
                ..old(self).with_laitela(LaitelaState { disable_continuum: !on, ..old(self).celestials.laitela })
            }),
    {
        self.celestials.laitela.disable_continuum = !on;
        if on {
            self.requirement_checks.reality_no_continuum = false;
        }
    }
}

} // verus!
