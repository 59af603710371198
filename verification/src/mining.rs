use vstd::prelude::*;

use crate::address::Address;
use crate::error::ContractError;
use crate::metal::{MetalTotals, MetalType};
use crate::mine::{Mine, MineView, MinedResource};

verus! {

/// The mines of all accounts, with the running total of each metal.
///
/// Mines are numbered from 1 in the order in which they were opened, and none
/// is ever removed.
pub struct MiningContract {
    mines: Vec<Mine>,
    totals: MetalTotals,
}

/// The mines and totals as a mathematical value. The mine with number `id`
/// stands at index `id - 1`.
pub struct MiningState {
    pub mines: Seq<MineView>,
    pub totals: MetalTotals,
}

/// What `mine` has added to the total of `metal`.
pub open spec fn share(mine: MineView, metal: MetalType) -> int {
    if mine.metal_type == metal {
        mine.current_production as int
    } else {
        0
    }
}

/// All that the mines of `metal` among `mines` have produced.
pub open spec fn total_production(mines: Seq<MineView>, metal: MetalType) -> int
    decreases mines.len(),
{
    if mines.len() == 0 {
        0
    } else {
        total_production(mines.drop_last(), metal) + share(mines.last(), metal)
    }
}

/// The numbers of the mines among `mines` that belong to `owner`, in the
/// order of `mines`.
pub open spec fn owned_ids(mines: Seq<MineView>, owner: Seq<char>) -> Seq<u32>
    decreases mines.len(),
{
    if mines.len() == 0 {
        Seq::empty()
    } else if mines.last().owner == owner {
        owned_ids(mines.drop_last(), owner).push(mines.last().id)
    } else {
        owned_ids(mines.drop_last(), owner)
    }
}

/// The mathematical values of `mines`, in their order.
pub open spec fn mine_views(mines: Seq<Mine>) -> Seq<MineView> {
    Seq::new(mines.len(), |i: int| mines[i]@)
}

/// The mathematical value of a mine that may be absent.
pub open spec fn optional_view(mine: Option<Mine>) -> Option<MineView> {
    match mine {
        Some(mine) => Some(mine@),
        None => None,
    }
}

impl MiningState {
    /// No mine and nothing produced.
    pub open spec fn empty() -> MiningState {
        MiningState { mines: Seq::empty(), totals: MetalTotals::zero() }
    }

    /// What holds of every state that is reached from the empty one: the
    /// mines carry the numbers 1, 2, ... in order, each is well formed, and
    /// the total of each metal is the sum of what its mines have produced.
    pub open spec fn wf(self) -> bool {
        &&& self.mines.len() <= u32::MAX
        &&& forall|i: int|
            0 <= i < self.mines.len() ==> (#[trigger] self.mines[i]).id == i + 1 && self.mines[i].wf()
        &&& forall|metal: MetalType|
            self.totals.of(metal) == #[trigger] total_production(self.mines, metal)
    }

    /// How many mines were opened.
    pub open spec fn mine_count(self) -> nat {
        self.mines.len()
    }

    /// The mine with number `id`, if there is one.
    pub open spec fn mine(self, id: u32) -> Option<MineView> {
        if 1 <= id <= self.mines.len() {
            Some(self.mines[id - 1])
        } else {
            None
        }
    }

    /// The numbers of the mines of `owner`, in the order in which they were
    /// opened.
    pub open spec fn mines_of(self, owner: Seq<char>) -> Seq<u32> {
        owned_ids(self.mines, owner)
    }

    /// All that was harvested of `metal`.
    pub open spec fn produced(self, metal: MetalType) -> u64 {
        self.totals.of(metal)
    }

    /// What `caller` is answered who opens a mine for `owner`: the next
    /// number, or a refusal where `caller` is not `owner`.
    pub open spec fn create_outcome(self, owner: Seq<char>, caller: Seq<char>) -> Result<
        u32,
        ContractError,
    > {
        if caller != owner {
            Err(ContractError::Unauthorized)
        } else {
            Ok((self.mines.len() + 1) as u32)
        }
    }

    /// The state after `caller` has asked at time `now` for a mine of
    /// `metal_type` for `owner`.
    pub open spec fn after_create(
        self,
        owner: Seq<char>,
        metal_type: MetalType,
        caller: Seq<char>,
        now: u64,
    ) -> MiningState {
        match self.create_outcome(owner, caller) {
            Ok(id) => MiningState {
                mines: self.mines.push(MineView::fresh(id, owner, metal_type, now)),
                ..self
            },
            Err(_) => self,
        }
    }

    /// What `caller` is answered who harvests the mine `id` at time `now`.
    pub open spec fn harvest_outcome(self, id: u32, caller: Seq<char>, now: u64) -> Result<
        MinedResource,
        ContractError,
    > {
        match self.mine(id) {
            Some(mine) => mine.harvest_outcome(caller, now),
            None => Err(ContractError::NotFound),
        }
    }

    /// The state after `caller` has asked at time `now` to harvest the mine
    /// `id`: where the harvest is granted, the mine is harvested and its yield
    /// added to the total of its metal.
    pub open spec fn after_harvest(self, id: u32, caller: Seq<char>, now: u64) -> MiningState {
        match self.harvest_outcome(id, caller, now) {
            Ok(receipt) => MiningState {
                mines: self.mines.update(id - 1, self.mines[id - 1].after_harvest(caller, now)),
                totals: self.totals.with(
                    receipt.metal_type,
                    (self.totals.of(receipt.metal_type) + receipt.amount) as u64,
                ),
            },
            Err(_) => self,
        }
    }

    /// What `caller` is answered who upgrades the mine `id`.
    pub open spec fn upgrade_outcome(self, id: u32, caller: Seq<char>) -> Result<
        (),
        ContractError,
    > {
        match self.mine(id) {
            Some(mine) => mine.upgrade_outcome(caller),
            None => Err(ContractError::NotFound),
        }
    }

    /// The state after `caller` has asked to upgrade the mine `id`.
    pub open spec fn after_upgrade(self, id: u32, caller: Seq<char>) -> MiningState {
        match self.upgrade_outcome(id, caller) {
            Ok(_) => MiningState {
                mines: self.mines.update(id - 1, self.mines[id - 1].after_upgrade(caller)),
                ..self
            },
            Err(_) => self,
        }
    }
}

/// Replacing one mine changes the total of a metal by the difference of the
/// two mines' shares.
pub proof fn lemma_total_after_update(
    mines: Seq<MineView>,
    index: int,
    mine: MineView,
    metal: MetalType,
)
    requires
        0 <= index < mines.len(),
    ensures
        total_production(mines.update(index, mine), metal) == total_production(mines, metal)
            - share(mines[index], metal) + share(mine, metal),
    decreases mines.len(),
{
    let updated = mines.update(index, mine);
    if index == mines.len() - 1 {
        assert(updated.drop_last() =~= mines.drop_last());
    } else {
        lemma_total_after_update(mines.drop_last(), index, mine, metal);
        assert(updated.drop_last() =~= mines.drop_last().update(index, mine));
    }
}

/// No mine has produced more than the total of its metal.
pub proof fn lemma_share_within_total(mines: Seq<MineView>, index: int, metal: MetalType)
    requires
        0 <= index < mines.len(),
    ensures
        0 <= share(mines[index], metal) <= total_production(mines, metal),
    decreases mines.len(),
{
    lemma_total_not_negative(mines.drop_last(), metal);
    if index < mines.len() - 1 {
        lemma_share_within_total(mines.drop_last(), index, metal);
    }
}

/// A total is never negative.
pub proof fn lemma_total_not_negative(mines: Seq<MineView>, metal: MetalType)
    ensures
        0 <= total_production(mines, metal),
    decreases mines.len(),
{
    if mines.len() > 0 {
        lemma_total_not_negative(mines.drop_last(), metal);
    }
}

/// Replacing a mine by one with the same number and owner changes no
/// account's list of mines.
pub proof fn lemma_owned_ids_after_update(
    mines: Seq<MineView>,
    index: int,
    mine: MineView,
    owner: Seq<char>,
)
    requires
        0 <= index < mines.len(),
        mine.id == mines[index].id,
        mine.owner == mines[index].owner,
    ensures
        owned_ids(mines.update(index, mine), owner) == owned_ids(mines, owner),
    decreases mines.len(),
{
    let updated = mines.update(index, mine);
    if index == mines.len() - 1 {
        assert(updated.drop_last() =~= mines.drop_last());
    } else {
        lemma_owned_ids_after_update(mines.drop_last(), index, mine, owner);
        assert(updated.drop_last() =~= mines.drop_last().update(index, mine));
    }
}

impl View for MiningContract {
    type V = MiningState;

    closed spec fn view(&self) -> MiningState {
        MiningState { mines: mine_views(self.mines@), totals: self.totals }
    }
}

impl MiningContract {
    /// A contract without mines.
    pub fn new() -> (contract: MiningContract)
        ensures
            contract@ == MiningState::empty(),
            contract@.wf(),
    {
        let contract = MiningContract { mines: Vec::new(), totals: MetalTotals::new() };
        assert(contract@.mines =~= Seq::empty());
        contract
    }

    /// Opens a mine of `metal_type` for `owner` at time `now` and returns its
    /// number, which is one more than the number of mines opened before.
    ///
    /// Only `owner` may do so: any other `caller` is refused.
    pub fn create_mine(
        &mut self,
        owner: Address,
        metal_type: MetalType,
        caller: &Address,
        now: u64,
    ) -> (result: Result<u32, ContractError>)
        requires
            old(self)@.wf(),
            old(self)@.mine_count() < u32::MAX,
        ensures
            final(self)@.wf(),
            result == old(self)@.create_outcome(owner@, caller@),
            final(self)@ == old(self)@.after_create(owner@, metal_type, caller@, now),
    {
        let mine = match Mine::open(self.mines.len() as u32, owner, metal_type, caller, now) {
            Ok(mine) => mine,
            Err(error) => {
                return Err(error);
            },
        };
        let id: u32 = mine.id;
        let ghost before = self@;
        let ghost opened = mine@;
        self.mines.push(mine);
        proof {
            let after = self@;
            assert(after.mines =~= before.mines.push(opened));
            assert(after.mines.drop_last() =~= before.mines);
            assert forall|metal: MetalType|
                after.totals.of(metal) == #[trigger] total_production(after.mines, metal) by {
                assert(share(after.mines.last(), metal) == 0);
                assert(total_production(before.mines, metal) == before.totals.of(metal));
            }
        }
        Ok(id)
    }

    /// The mine with number `mine_id`, if there is one.
    pub fn get_mine(&self, mine_id: u32) -> (mine: Option<Mine>)
        ensures
            optional_view(mine) == self@.mine(mine_id),
    {
        if mine_id == 0 || mine_id as usize > self.mines.len() {
            None
        } else {
            Some(self.mines[(mine_id - 1) as usize].clone())
        }
    }

    /// The numbers of the mines of `player`, in the order in which they were
    /// opened; none where `player` has no mine.
    pub fn get_player_mines(&self, player: Address) -> (ids: Vec<u32>)
        ensures
            ids@ == self@.mines_of(player@),
    {
        let mut ids: Vec<u32> = Vec::new();
        let mut index: usize = 0;
        while index < self.mines.len()
            invariant
                index <= self.mines.len(),
                ids@ == owned_ids(self@.mines.take(index as int), player@),
            decreases self.mines.len() - index,
        {
            proof {
                let next = self@.mines.take(index + 1);
                assert(next.drop_last() =~= self@.mines.take(index as int));
            }
            if self.mines[index].owner.same(&player) {
                ids.push(self.mines[index].id);
            }
            index = index + 1;
        }
        assert(self@.mines.take(index as int) =~= self@.mines);
        ids
    }

    /// Harvests the mine `mine_id` for `caller` at time `now`.
    ///
    /// The harvest is refused where there is no such mine, where `caller` is
    /// not its owner, and where less than an hour has passed since it was last
    /// harvested, in this order. Otherwise the mine yields what it has
    /// produced in the full hours since then, at most its capacity, and the
    /// yield is added to what the mine has produced and to the total of its
    /// metal.
    pub fn harvest_mine(&mut self, mine_id: u32, caller: &Address, now: u64) -> (result: Result<
        MinedResource,
        ContractError,
    >)
        requires
            old(self)@.wf(),
            old(self)@.harvest_outcome(mine_id, caller@, now) matches Ok(receipt) ==> old(
                self,
            )@.produced(receipt.metal_type) + receipt.amount <= u64::MAX,
        ensures
            final(self)@.wf(),
            result == old(self)@.harvest_outcome(mine_id, caller@, now),
            final(self)@ == old(self)@.after_harvest(mine_id, caller@, now),
    {
        if mine_id == 0 || mine_id as usize > self.mines.len() {
            return Err(ContractError::NotFound);
        }
        let index: usize = (mine_id - 1) as usize;
        let ghost before = self@;
        let mut mine: Mine = self.mines[index].clone();
        proof {
            lemma_share_within_total(before.mines, index as int, mine.metal_type);
        }
        match mine.harvest(caller, now) {
            Ok(receipt) => {
                let ghost harvested = mine@;
                self.mines.set(index, mine);
                self.totals.add(receipt.metal_type, receipt.amount);
                proof {
                    let after = self@;
                    assert(after.mines =~= before.mines.update(index as int, harvested));
                    assert forall|metal: MetalType|
                        after.totals.of(metal) == #[trigger] total_production(
                            after.mines,
                            metal,
                        ) by {
                        lemma_total_after_update(before.mines, index as int, harvested, metal);
                    }
                }
                Ok(receipt)
            },
            Err(error) => Err(error),
        }
    }

    /// Raises the mine `mine_id` by one level for `caller`.
    ///
    /// The upgrade is refused where there is no such mine, where `caller` is
    /// not its owner, and where the mine stands at the highest level, in this
    /// order.
    pub fn upgrade_mine(&mut self, mine_id: u32, caller: &Address) -> (result: Result<
        (),
        ContractError,
    >)
        requires
            old(self)@.wf(),
        ensures
            final(self)@.wf(),
            result == old(self)@.upgrade_outcome(mine_id, caller@),
            final(self)@ == old(self)@.after_upgrade(mine_id, caller@),
    {
        if mine_id == 0 || mine_id as usize > self.mines.len() {
            return Err(ContractError::NotFound);
        }
        let index: usize = (mine_id - 1) as usize;
        let ghost before = self@;
        let mut mine: Mine = self.mines[index].clone();
        proof {
            let level = mine.upgrade_level as int;
            let step = mine.metal_type.base_capacity() as int / 10;
            assert((level - 1) * step <= 9 * 100) by (nonlinear_arith)
                requires
                    0 <= level - 1 <= 9,
                    0 <= step <= 100,
            ;
        }
        match mine.upgrade(caller) {
            Ok(()) => {
                let ghost upgraded = mine@;
                self.mines.set(index, mine);
                proof {
                    let after = self@;
                    assert(after.mines =~= before.mines.update(index as int, upgraded));
                    assert forall|metal: MetalType|
                        after.totals.of(metal) == #[trigger] total_production(
                            after.mines,
                            metal,
                        ) by {
                        lemma_total_after_update(before.mines, index as int, upgraded, metal);
                    }
                }
                Ok(())
            },
            Err(error) => Err(error),
        }
    }

    /// All that was harvested of `metal_type`; zero where nothing was.
    pub fn get_global_production(&self, metal_type: MetalType) -> (total: u64)
        ensures
            total == self@.produced(metal_type),
    {
        self.totals.get(metal_type)
    }

    /// How many mines were opened.
    pub fn mine_count(&self) -> (count: usize)
        ensures
            count == self@.mine_count(),
    {
        self.mines.len()
    }

    /// The efficiency, in percent, that a mine of `metal_type` starts with.
    pub fn calculate_base_efficiency(metal_type: &MetalType) -> (efficiency: u32)
        ensures
            efficiency == metal_type.base_efficiency(),
    {
        match metal_type {
            MetalType::Iron => 80,
            MetalType::Copper => 75,
            MetalType::Silver => 60,
            MetalType::Gold => 45,
            MetalType::Platinum => 30,
        }
    }

    /// The capacity that a mine of `metal_type` starts with.
    pub fn calculate_base_capacity(metal_type: &MetalType) -> (capacity: u64)
        ensures
            capacity == metal_type.base_capacity(),
    {
        match metal_type {
            MetalType::Iron => 1000,
            MetalType::Copper => 800,
            MetalType::Silver => 500,
            MetalType::Gold => 200,
            MetalType::Platinum => 100,
        }
    }

    /// What a mine of `metal_type` at `upgrade_level` produces in an hour,
    /// before its efficiency is applied.
    pub fn calculate_production_rate(metal_type: &MetalType, upgrade_level: u32) -> (rate: u64)
        ensures
            rate == metal_type.base_rate() * upgrade_level,
    {
        let base_rate: u64 = match metal_type {
            MetalType::Iron => 50,
            MetalType::Copper => 40,
            MetalType::Silver => 25,
            MetalType::Gold => 10,
            MetalType::Platinum => 5,
        };
        assert(base_rate * upgrade_level <= 50 * 0xFFFF_FFFF) by (nonlinear_arith)
            requires
                0 <= base_rate <= 50,
                0 <= upgrade_level <= 0xFFFF_FFFF,
        ;
        base_rate * (upgrade_level as u64)
    }
}

} // verus!
