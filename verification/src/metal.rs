use vstd::prelude::*;

verus! {

/// The metals that a mine can yield.
#[derive(Clone, Copy, Debug, PartialEq, Eq, Structural)]
pub enum MetalType {
    Gold,
    Silver,
    Copper,
    Iron,
    Platinum,
}

impl MetalType {
    /// The efficiency, in percent, of a mine of this metal at level 1.
    pub open spec fn base_efficiency(self) -> nat {
        match self {
            MetalType::Iron => 80,
            MetalType::Copper => 75,
            MetalType::Silver => 60,
            MetalType::Gold => 45,
            MetalType::Platinum => 30,
        }
    }

    /// The most that one harvest of a mine of this metal yields at level 1.
    pub open spec fn base_capacity(self) -> nat {
        match self {
            MetalType::Iron => 1000,
            MetalType::Copper => 800,
            MetalType::Silver => 500,
            MetalType::Gold => 200,
            MetalType::Platinum => 100,
        }
    }

    /// What a mine of this metal produces per hour and upgrade level, before
    /// its efficiency is applied.
    pub open spec fn base_rate(self) -> nat {
        match self {
            MetalType::Iron => 50,
            MetalType::Copper => 40,
            MetalType::Silver => 25,
            MetalType::Gold => 10,
            MetalType::Platinum => 5,
        }
    }
}

/// One running total per metal.
#[derive(Clone, Copy, Debug, PartialEq, Eq, Structural)]
pub struct MetalTotals {
    pub gold: u64,
    pub silver: u64,
    pub copper: u64,
    pub iron: u64,
    pub platinum: u64,
}

impl MetalTotals {
    /// The total kept for `metal`.
    pub open spec fn of(self, metal: MetalType) -> u64 {
        match metal {
            MetalType::Gold => self.gold,
            MetalType::Silver => self.silver,
            MetalType::Copper => self.copper,
            MetalType::Iron => self.iron,
            MetalType::Platinum => self.platinum,
        }
    }

    /// These totals with the one for `metal` replaced by `total`.
    pub open spec fn with(self, metal: MetalType, total: u64) -> MetalTotals {
        match metal {
            MetalType::Gold => MetalTotals { gold: total, ..self },
            MetalType::Silver => MetalTotals { silver: total, ..self },
            MetalType::Copper => MetalTotals { copper: total, ..self },
            MetalType::Iron => MetalTotals { iron: total, ..self },
            MetalType::Platinum => MetalTotals { platinum: total, ..self },
        }
    }

    /// Totals that are all zero.
    pub open spec fn zero() -> MetalTotals {
        MetalTotals { gold: 0, silver: 0, copper: 0, iron: 0, platinum: 0 }
    }

    /// Totals that are all zero.
    pub fn new() -> (totals: MetalTotals)
        ensures
            totals == MetalTotals::zero(),
    {
        MetalTotals { gold: 0, silver: 0, copper: 0, iron: 0, platinum: 0 }
    }

    /// The total kept for `metal`.
    pub fn get(&self, metal: MetalType) -> (total: u64)
        ensures
            total == self.of(metal),
    {
        match metal {
            MetalType::Gold => self.gold,
            MetalType::Silver => self.silver,
            MetalType::Copper => self.copper,
            MetalType::Iron => self.iron,
            MetalType::Platinum => self.platinum,
        }
    }

    /// Adds `amount` to the total for `metal` and leaves the others as they are.
    pub fn add(&mut self, metal: MetalType, amount: u64)
        requires
            old(self).of(metal) + amount <= u64::MAX,
        ensures
            *final(self) == old(self).with(metal, (old(self).of(metal) + amount) as u64),
    {
        match metal {
            MetalType::Gold => { self.gold = self.gold + amount; },
            MetalType::Silver => { self.silver = self.silver + amount; },
            MetalType::Copper => { self.copper = self.copper + amount; },
            MetalType::Iron => { self.iron = self.iron + amount; },
            MetalType::Platinum => { self.platinum = self.platinum + amount; },
        }
    }
}

} // verus!
