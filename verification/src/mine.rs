use vstd::prelude::*;

use crate::address::Address;
use crate::error::ContractError;
use crate::metal::MetalType;
use crate::mining::MiningContract;

verus! {

/// The least number of seconds between two harvests of one mine, and the
/// length of the period that production is counted in.
pub const HARVEST_INTERVAL: u64 = 3600;

/// The highest upgrade level of a mine.
pub const MAX_UPGRADE_LEVEL: u32 = 10;

/// What one upgrade adds to a mine's efficiency.
pub const EFFICIENCY_PER_UPGRADE: u32 = 5;

/// A mine: it belongs to one account and accrues one metal over time.
#[derive(Debug, PartialEq, Eq)]
pub struct Mine {
    pub id: u32,
    pub owner: Address,
    pub metal_type: MetalType,
    /// Percentage applied to what the mine produces.
    pub efficiency: u32,
    /// The most that one harvest yields.
    pub capacity: u64,
    /// All that the mine has yielded so far.
    pub current_production: u64,
    pub start_time: u64,
    pub last_harvest: u64,
    pub upgrade_level: u32,
}

/// What a harvest hands out.
#[derive(Clone, Copy, Debug, PartialEq, Eq, Structural)]
pub struct MinedResource {
    pub metal_type: MetalType,
    pub amount: u64,
    pub mined_at: u64,
    /// The mine's efficiency when it was harvested.
    pub efficiency_bonus: u32,
}

/// A mine as a mathematical value.
pub struct MineView {
    pub id: u32,
    pub owner: Seq<char>,
    pub metal_type: MetalType,
    pub efficiency: u32,
    pub capacity: u64,
    pub current_production: u64,
    pub start_time: u64,
    pub last_harvest: u64,
    pub upgrade_level: u32,
}

impl View for Mine {
    type V = MineView;

    open spec fn view(&self) -> MineView {
        MineView {
            id: self.id,
            owner: self.owner@,
            metal_type: self.metal_type,
            efficiency: self.efficiency,
            capacity: self.capacity,
            current_production: self.current_production,
            start_time: self.start_time,
            last_harvest: self.last_harvest,
            upgrade_level: self.upgrade_level,
        }
    }
}

impl MineView {
    /// The mine that `owner` opens at time `now` under the number `id`.
    pub open spec fn fresh(id: u32, owner: Seq<char>, metal_type: MetalType, now: u64) -> MineView {
        MineView {
            id,
            owner,
            metal_type,
            efficiency: metal_type.base_efficiency() as u32,
            capacity: metal_type.base_capacity() as u64,
            current_production: 0,
            start_time: now,
            last_harvest: now,
            upgrade_level: 1,
        }
    }

    /// What holds of every mine that was opened with `fresh` and then only
    /// harvested and upgraded: its level lies between 1 and the highest, its
    /// efficiency and capacity are those of its metal raised once per level
    /// gained, and it was not harvested before it was opened.
    pub open spec fn wf(self) -> bool {
        &&& 1 <= self.upgrade_level <= MAX_UPGRADE_LEVEL
        &&& self.efficiency == self.metal_type.base_efficiency()
            + EFFICIENCY_PER_UPGRADE * (self.upgrade_level - 1)
        &&& self.capacity == self.metal_type.base_capacity()
            + (self.upgrade_level - 1) * (self.metal_type.base_capacity() / 10)
        &&& self.start_time <= self.last_harvest
    }

    /// The full hours from the last harvest to `now`; none where `now` lies
    /// before the last harvest.
    pub open spec fn hours_since_harvest(self, now: u64) -> int {
        if now < self.last_harvest {
            0
        } else {
            (now - self.last_harvest) / (HARVEST_INTERVAL as int)
        }
    }

    /// What the mine produces in an hour before its efficiency is applied.
    pub open spec fn hourly_production(self) -> int {
        self.metal_type.base_rate() * self.upgrade_level
    }

    /// What the mine has produced between the last harvest and `now`.
    pub open spec fn produced(self, now: u64) -> int {
        self.hourly_production() * self.hours_since_harvest(now) * self.efficiency / 100
    }

    /// What a harvest at `now` yields: the production, capped by the capacity.
    pub open spec fn harvest_yield(self, now: u64) -> int {
        if self.produced(now) > self.capacity {
            self.capacity as int
        } else {
            self.produced(now)
        }
    }

    /// What a harvest by `caller` at `now` returns.
    pub open spec fn harvest_outcome(self, caller: Seq<char>, now: u64) -> Result<
        MinedResource,
        ContractError,
    > {
        if caller != self.owner {
            Err(ContractError::Unauthorized)
        } else if now - self.last_harvest < HARVEST_INTERVAL {
            Err(ContractError::TooEarly)
        } else {
            Ok(
                MinedResource {
                    metal_type: self.metal_type,
                    amount: self.harvest_yield(now) as u64,
                    mined_at: now,
                    efficiency_bonus: self.efficiency,
                },
            )
        }
    }

    /// The mine after a harvest by `caller` at `now`: the yield is added to
    /// what it has produced and the harvest time is `now`; a refused harvest
    /// leaves it as it is.
    pub open spec fn after_harvest(self, caller: Seq<char>, now: u64) -> MineView {
        if self.harvest_outcome(caller, now) is Ok {
            MineView {
                current_production: (self.current_production + self.harvest_yield(now)) as u64,
                last_harvest: now,
                ..self
            }
        } else {
            self
        }
    }

    /// What an upgrade by `caller` returns.
    pub open spec fn upgrade_outcome(self, caller: Seq<char>) -> Result<(), ContractError> {
        if caller != self.owner {
            Err(ContractError::Unauthorized)
        } else if self.upgrade_level >= MAX_UPGRADE_LEVEL {
            Err(ContractError::MaxLevelReached)
        } else {
            Ok(())
        }
    }

    /// The mine after an upgrade by `caller`: one level higher, with more
    /// efficiency and a tenth of its metal's base capacity more; a refused
    /// upgrade leaves it as it is.
    pub open spec fn after_upgrade(self, caller: Seq<char>) -> MineView {
        if self.upgrade_outcome(caller) is Ok {
            MineView {
                upgrade_level: (self.upgrade_level + 1) as u32,
                efficiency: (self.efficiency + EFFICIENCY_PER_UPGRADE) as u32,
                capacity: (self.capacity + self.metal_type.base_capacity() / 10) as u64,
                ..self
            }
        } else {
            self
        }
    }
}

impl Clone for Mine {
    fn clone(&self) -> (copy: Mine)
        ensures
            copy@ == self@,
    {
        Mine {
            id: self.id,
            owner: self.owner.clone(),
            metal_type: self.metal_type,
            efficiency: self.efficiency,
            capacity: self.capacity,
            current_production: self.current_production,
            start_time: self.start_time,
            last_harvest: self.last_harvest,
            upgrade_level: self.upgrade_level,
        }
    }
}

impl Mine {
    /// Opens a mine of `metal_type` for `owner` at time `now`.
    pub fn new(id: u32, owner: Address, metal_type: MetalType, now: u64) -> (mine: Mine)
        ensures
            mine@ == MineView::fresh(id, owner@, metal_type, now),
            mine@.wf(),
    {
        Mine {
            id,
            owner,
            metal_type,
            efficiency: MiningContract::calculate_base_efficiency(&metal_type),
            capacity: MiningContract::calculate_base_capacity(&metal_type),
            current_production: 0,
            start_time: now,
            last_harvest: now,
            upgrade_level: 1,
        }
    }

    /// Opens the mine that follows `mines_so_far` mines: a mine of
    /// `metal_type` for `owner` at time `now`, numbered one higher.
    ///
    /// Only `owner` may do so: any other `caller` is refused.
    pub fn open(
        mines_so_far: u32,
        owner: Address,
        metal_type: MetalType,
        caller: &Address,
        now: u64,
    ) -> (result: Result<Mine, ContractError>)
        requires
            mines_so_far < u32::MAX,
        ensures
            caller@ != owner@ ==> result is Err && result->Err_0 == ContractError::Unauthorized,
            caller@ == owner@ ==> result is Ok && result->Ok_0@ == MineView::fresh(
                (mines_so_far + 1) as u32,
                owner@,
                metal_type,
                now,
            ),
    {
        if !caller.same(&owner) {
            return Err(ContractError::Unauthorized);
        }
        Ok(Mine::new(mines_so_far + 1, owner, metal_type, now))
    }

    /// Whether the mine is one that `MineView::wf` describes.
    pub fn is_well_formed(&self) -> (ok: bool)
        ensures
            ok == self@.wf(),
    {
        if self.upgrade_level < 1 || self.upgrade_level > MAX_UPGRADE_LEVEL {
            return false;
        }
        let steps: u32 = self.upgrade_level - 1;
        let base_capacity: u64 = MiningContract::calculate_base_capacity(&self.metal_type);
        let efficiency: u32 = MiningContract::calculate_base_efficiency(&self.metal_type)
            + EFFICIENCY_PER_UPGRADE * steps;
        assert(steps * (base_capacity / 10) <= 9 * 100) by (nonlinear_arith)
            requires
                0 <= steps <= 9,
                0 <= base_capacity / 10 <= 100,
        ;
        let capacity: u64 = base_capacity + (steps as u64) * (base_capacity / 10);
        self.efficiency == efficiency && self.capacity == capacity && self.start_time
            <= self.last_harvest
    }

    /// What a harvest at `now` would yield, were it granted.
    pub fn pending_yield(&self, now: u64) -> (amount: u64)
        ensures
            amount == self@.harvest_yield(now),
    {
        let hours: u64 = if now < self.last_harvest {
            0
        } else {
            (now - self.last_harvest) / HARVEST_INTERVAL
        };
        let hourly: u64 = MiningContract::calculate_production_rate(
            &self.metal_type,
            self.upgrade_level,
        );
        let efficiency: u32 = self.efficiency;
        assert(hourly <= 50 * 0xFFFF_FFFF) by (nonlinear_arith)
            requires
                hourly == self.metal_type.base_rate() * self.upgrade_level,
                0 <= self.metal_type.base_rate() <= 50,
                0 <= self.upgrade_level <= 0xFFFF_FFFF,
        ;
        assert(hourly * hours <= 0x40_0000_0000 * 0x20_0000_0000_0000) by (nonlinear_arith)
            requires
                0 <= hourly <= 0x40_0000_0000,
                0 <= hours <= 0x20_0000_0000_0000,
        ;
        assert(hourly * hours * efficiency <= 0x40_0000_0000 * 0x20_0000_0000_0000 * 0x1_0000_0000)
            by (nonlinear_arith)
            requires
                0 <= hourly * hours <= 0x40_0000_0000 * 0x20_0000_0000_0000,
                0 <= efficiency <= 0x1_0000_0000,
        ;
        let produced: u128 = (hourly as u128) * (hours as u128) * (efficiency as u128) / 100;
        if produced > self.capacity as u128 {
            self.capacity
        } else {
            produced as u64
        }
    }

    /// Harvests the mine for `caller` at time `now`.
    ///
    /// Only the owner may harvest, and only once a full hour has passed since
    /// the last harvest. The yield counts the full hours since then; what is
    /// left of a started hour is lost.
    pub fn harvest(&mut self, caller: &Address, now: u64) -> (result: Result<
        MinedResource,
        ContractError,
    >)
        requires
            old(self)@.harvest_outcome(caller@, now) is Ok ==> old(self).current_production + old(
                self,
            )@.harvest_yield(now) <= u64::MAX,
        ensures
            result == old(self)@.harvest_outcome(caller@, now),
            final(self)@ == old(self)@.after_harvest(caller@, now),
            old(self)@.wf() ==> final(self)@.wf(),
    {
        if !caller.same(&self.owner) {
            return Err(ContractError::Unauthorized);
        }
        if now < self.last_harvest || now - self.last_harvest < HARVEST_INTERVAL {
            return Err(ContractError::TooEarly);
        }
        let amount: u64 = self.pending_yield(now);
        self.current_production = self.current_production + amount;
        self.last_harvest = now;
        Ok(
            MinedResource {
                metal_type: self.metal_type,
                amount,
                mined_at: now,
                efficiency_bonus: self.efficiency,
            },
        )
    }

    /// Raises the mine by one level for `caller`.
    ///
    /// Only the owner may upgrade, and only below the highest level.
    pub fn upgrade(&mut self, caller: &Address) -> (result: Result<(), ContractError>)
        requires
            old(self)@.upgrade_outcome(caller@) is Ok ==> {
                &&& old(self).efficiency + EFFICIENCY_PER_UPGRADE <= u32::MAX
                &&& old(self).capacity + old(self).metal_type.base_capacity() / 10 <= u64::MAX
            },
        ensures
            result == old(self)@.upgrade_outcome(caller@),
            final(self)@ == old(self)@.after_upgrade(caller@),
            old(self)@.wf() ==> final(self)@.wf(),
    {
        if !caller.same(&self.owner) {
            return Err(ContractError::Unauthorized);
        }
        if self.upgrade_level >= MAX_UPGRADE_LEVEL {
            return Err(ContractError::MaxLevelReached);
        }
        proof {
            let level = self.upgrade_level as int;
            let step = self.metal_type.base_capacity() as int / 10;
            assert((level + 1 - 1) * step == (level - 1) * step + step) by (nonlinear_arith);
        }
        self.upgrade_level = self.upgrade_level + 1;
        self.efficiency = self.efficiency + EFFICIENCY_PER_UPGRADE;
        self.capacity = self.capacity + MiningContract::calculate_base_capacity(&self.metal_type)
            / 10;
        Ok(())
    }
}

} // verus!
