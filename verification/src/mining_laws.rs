//! What holds of the mines over any course of operations.

use vstd::prelude::*;

use crate::error::ContractError;
use crate::metal::MetalType;
use crate::mine::{
    Mine, MineView, EFFICIENCY_PER_UPGRADE, HARVEST_INTERVAL, MAX_UPGRADE_LEVEL,
};
use crate::mining::{
    lemma_owned_ids_after_update, lemma_share_within_total, lemma_total_after_update,
    optional_view, share, total_production, MiningState,
};

verus! {

/// One request to open a mine.
pub struct CreateRequest {
    pub owner: Seq<char>,
    pub metal_type: MetalType,
    pub caller: Seq<char>,
    pub now: u64,
}

/// The state after `requests` were served in their order.
pub open spec fn after_creates(state: MiningState, requests: Seq<CreateRequest>) -> MiningState
    decreases requests.len(),
{
    if requests.len() == 0 {
        state
    } else {
        let request = requests.last();
        after_creates(state, requests.drop_last()).after_create(
            request.owner,
            request.metal_type,
            request.caller,
            request.now,
        )
    }
}

/// How many of `requests` come from the owner that they name.
pub open spec fn granted(requests: Seq<CreateRequest>) -> nat
    decreases requests.len(),
{
    if requests.len() == 0 {
        0
    } else if requests.last().caller == requests.last().owner {
        granted(requests.drop_last()) + 1
    } else {
        granted(requests.drop_last())
    }
}

/// The mine `mine` after its owner has asked `times` times for an upgrade.
pub open spec fn after_upgrades(mine: MineView, times: nat) -> MineView
    decreases times,
{
    if times == 0 {
        mine
    } else {
        after_upgrades(mine, (times - 1) as nat).after_upgrade(mine.owner)
    }
}

/// Opening a mine keeps the state well formed. The owner is answered with
/// the number after the last one, the mine stands under that number as it was
/// opened, it is the last in its owner's list, and nothing else changes.
pub proof fn lemma_create(
    state: MiningState,
    owner: Seq<char>,
    metal_type: MetalType,
    caller: Seq<char>,
    now: u64,
)
    requires
        state.wf(),
        state.mine_count() < u32::MAX,
    ensures
        ({
            let after = state.after_create(owner, metal_type, caller, now);
            let id = (state.mine_count() + 1) as u32;
            &&& after.wf()
            &&& after.totals == state.totals
            &&& forall|other: u32| other != id ==> after.mine(other) == state.mine(other)
            &&& caller == owner ==> {
                &&& state.create_outcome(owner, caller) == Ok::<u32, ContractError>(id)
                &&& after.mine_count() == state.mine_count() + 1
                &&& after.mine(id) == Some(MineView::fresh(id, owner, metal_type, now))
                &&& after.mines_of(owner) == state.mines_of(owner).push(id)
                &&& forall|other: Seq<char>|
                    other != owner ==> after.mines_of(other) == state.mines_of(other)
            }
            &&& caller != owner ==> {
                &&& state.create_outcome(owner, caller) == Err::<u32, ContractError>(
                    ContractError::Unauthorized,
                )
                &&& after == state
            }
        }),
{
    let after = state.after_create(owner, metal_type, caller, now);
    if caller == owner {
        assert(after.mines.drop_last() =~= state.mines);
        assert forall|metal: MetalType|
            after.totals.of(metal) == #[trigger] total_production(after.mines, metal) by {
            assert(share(after.mines.last(), metal) == 0);
            assert(total_production(state.mines, metal) == state.totals.of(metal));
        }
    }
}

/// Whatever requests to open mines are served, and from whom: the request at
/// `index` is refused where it does not come from the owner, and is otherwise
/// answered with the number that follows the number of mines there were
/// before by as many as earlier requests were granted. So the numbers handed
/// out are positive, rise by one from one grant to the next, and the mine
/// stands under its number as it was opened.
pub proof fn lemma_created_ids_are_consecutive(
    state: MiningState,
    requests: Seq<CreateRequest>,
    index: int,
)
    requires
        state.wf(),
        state.mine_count() + requests.len() <= u32::MAX,
        0 <= index < requests.len(),
    ensures
        ({
            let request = requests[index];
            let before = after_creates(state, requests.take(index));
            let after = after_creates(state, requests.take(index + 1));
            let id = (state.mine_count() + granted(requests.take(index)) + 1) as u32;
            &&& before.wf()
            &&& after.wf()
            &&& granted(requests.take(index)) <= index
            &&& after == before.after_create(
                request.owner,
                request.metal_type,
                request.caller,
                request.now,
            )
            &&& request.caller == request.owner ==> {
                &&& before.create_outcome(request.owner, request.caller) == Ok::<
                    u32,
                    ContractError,
                >(id)
                &&& id >= 1
                &&& after.mine(id) == Some(
                    MineView::fresh(id, request.owner, request.metal_type, request.now),
                )
            }
            &&& request.caller != request.owner ==> {
                &&& before.create_outcome(request.owner, request.caller) == Err::<
                    u32,
                    ContractError,
                >(ContractError::Unauthorized)
                &&& after == before
            }
        }),
{
    let request = requests[index];
    let earlier = requests.take(index);
    let served = requests.take(index + 1);
    lemma_after_creates(state, earlier);
    assert(served.drop_last() =~= earlier);
    assert(served.last() == request);
    let before = after_creates(state, earlier);
    lemma_create(before, request.owner, request.metal_type, request.caller, request.now);
}

/// Serving requests to open mines keeps the state well formed, adds as many
/// mines as requests were granted, and leaves the mines that there were, and
/// all totals, as they are.
pub proof fn lemma_after_creates(state: MiningState, requests: Seq<CreateRequest>)
    requires
        state.wf(),
        state.mine_count() + requests.len() <= u32::MAX,
    ensures
        after_creates(state, requests).wf(),
        granted(requests) <= requests.len(),
        after_creates(state, requests).mine_count() == state.mine_count() + granted(requests),
        after_creates(state, requests).totals == state.totals,
        forall|id: u32|
            1 <= id <= state.mine_count() ==> after_creates(state, requests).mine(id)
                == state.mine(id),
    decreases requests.len(),
{
    if requests.len() > 0 {
        let request = requests.last();
        let before = after_creates(state, requests.drop_last());
        lemma_after_creates(state, requests.drop_last());
        lemma_create(before, request.owner, request.metal_type, request.caller, request.now);
    }
}

/// A harvest keeps the state well formed. Where it is granted, the mine's
/// production and the total of its metal rise by what the harvest yields, the
/// mine's harvest time is `now`, and nothing else changes: no other mine, no
/// other total, nobody's list of mines.
pub proof fn lemma_harvest(state: MiningState, id: u32, caller: Seq<char>, now: u64)
    requires
        state.wf(),
        state.harvest_outcome(id, caller, now) matches Ok(receipt) ==> state.produced(
            receipt.metal_type,
        ) + receipt.amount <= u64::MAX,
    ensures
        ({
            let after = state.after_harvest(id, caller, now);
            &&& after.wf()
            &&& after.mine_count() == state.mine_count()
            &&& forall|other: u32| other != id ==> after.mine(other) == state.mine(other)
            &&& forall|owner: Seq<char>| after.mines_of(owner) == state.mines_of(owner)
            &&& state.harvest_outcome(id, caller, now) matches Ok(receipt) ==> {
                &&& state.mine(id) matches Some(mine)
                &&& after.mine(id) matches Some(harvested)
                &&& receipt.amount == mine.harvest_yield(now)
                &&& receipt.metal_type == mine.metal_type
                &&& receipt.mined_at == now
                &&& receipt.efficiency_bonus == mine.efficiency
                &&& harvested.current_production == mine.current_production + receipt.amount
                &&& harvested.last_harvest == now
                &&& after.produced(mine.metal_type) == state.produced(mine.metal_type)
                    + receipt.amount
                &&& forall|metal: MetalType|
                    metal != mine.metal_type ==> after.produced(metal) == state.produced(metal)
            }
        }),
{
    let after = state.after_harvest(id, caller, now);
    if state.harvest_outcome(id, caller, now) is Ok {
        let index = id - 1;
        let mine = state.mines[index];
        let harvested = mine.after_harvest(caller, now);
        lemma_share_within_total(state.mines, index, mine.metal_type);
        assert forall|metal: MetalType|
            after.totals.of(metal) == #[trigger] total_production(after.mines, metal) by {
            lemma_total_after_update(state.mines, index, harvested, metal);
            assert(total_production(state.mines, metal) == state.totals.of(metal));
        }
        assert forall|owner: Seq<char>| after.mines_of(owner) == state.mines_of(owner) by {
            lemma_owned_ids_after_update(state.mines, index, harvested, owner);
        }
    }
}

/// An upgrade keeps the state well formed. Where it is granted, the mine
/// stands one level higher, with more efficiency and a tenth of its metal's
/// base capacity more, and nothing else changes.
pub proof fn lemma_upgrade(state: MiningState, id: u32, caller: Seq<char>)
    requires
        state.wf(),
    ensures
        ({
            let after = state.after_upgrade(id, caller);
            &&& after.wf()
            &&& after.mine_count() == state.mine_count()
            &&& after.totals == state.totals
            &&& forall|other: u32| other != id ==> after.mine(other) == state.mine(other)
            &&& forall|owner: Seq<char>| after.mines_of(owner) == state.mines_of(owner)
            &&& state.upgrade_outcome(id, caller) is Ok ==> {
                &&& state.mine(id) matches Some(mine)
                &&& after.mine(id) matches Some(upgraded)
                &&& upgraded.upgrade_level == mine.upgrade_level + 1
                &&& upgraded.efficiency == mine.efficiency + EFFICIENCY_PER_UPGRADE
                &&& upgraded.capacity == mine.capacity + mine.metal_type.base_capacity() / 10
                &&& upgraded.current_production == mine.current_production
                &&& upgraded.last_harvest == mine.last_harvest
            }
        }),
{
    let after = state.after_upgrade(id, caller);
    if state.upgrade_outcome(id, caller) is Ok {
        let index = id - 1;
        let mine = state.mines[index];
        let upgraded = mine.after_upgrade(caller);
        lemma_upgrade_keeps_wf(mine, caller);
        assert forall|metal: MetalType|
            after.totals.of(metal) == #[trigger] total_production(after.mines, metal) by {
            lemma_total_after_update(state.mines, index, upgraded, metal);
            assert(total_production(state.mines, metal) == state.totals.of(metal));
        }
        assert forall|owner: Seq<char>| after.mines_of(owner) == state.mines_of(owner) by {
            lemma_owned_ids_after_update(state.mines, index, upgraded, owner);
        }
    }
}

/// A well-formed mine is well formed after an upgrade, and where the upgrade
/// is granted its level, efficiency and capacity rise without wrapping.
pub proof fn lemma_upgrade_keeps_wf(mine: MineView, caller: Seq<char>)
    requires
        mine.wf(),
    ensures
        mine.after_upgrade(caller).wf(),
        mine.upgrade_outcome(caller) is Ok ==> {
            &&& mine.after_upgrade(caller).upgrade_level == mine.upgrade_level + 1
            &&& mine.after_upgrade(caller).efficiency == mine.efficiency + EFFICIENCY_PER_UPGRADE
            &&& mine.after_upgrade(caller).capacity == mine.capacity
                + mine.metal_type.base_capacity() / 10
        },
{
    let level = mine.upgrade_level as int;
    let step = mine.metal_type.base_capacity() as int / 10;
    assert((level - 1) * step <= 9 * 100) by (nonlinear_arith)
        requires
            0 <= level - 1 <= 9,
            0 <= step <= 100,
    ;
    assert((level + 1 - 1) * step == (level - 1) * step + step) by (nonlinear_arith);
}

/// A harvest that comes less than an hour after the last one is refused as
/// too early, and leaves the mine, every other mine and every total as they
/// are.
pub proof fn lemma_early_harvest_changes_nothing(
    state: MiningState,
    id: u32,
    caller: Seq<char>,
    now: u64,
)
    requires
        state.mine(id) matches Some(mine) && caller == mine.owner && now - mine.last_harvest
            < HARVEST_INTERVAL,
    ensures
        state.harvest_outcome(id, caller, now) == Err::<crate::mine::MinedResource, ContractError>(
            ContractError::TooEarly,
        ),
        state.after_harvest(id, caller, now) == state,
{
}

/// After a harvest was granted at time `now`, the next one is refused as too
/// early until a full hour after `now`, and the owner is granted it from then
/// on.
pub proof fn lemma_next_harvest_waits_an_hour(
    state: MiningState,
    id: u32,
    caller: Seq<char>,
    now: u64,
    later: u64,
)
    requires
        state.wf(),
        state.harvest_outcome(id, caller, now) is Ok,
    ensures
        ({
            let after = state.after_harvest(id, caller, now);
            &&& later - now < HARVEST_INTERVAL ==> after.harvest_outcome(id, caller, later) == Err::<
                crate::mine::MinedResource,
                ContractError,
            >(ContractError::TooEarly)
            &&& later - now >= HARVEST_INTERVAL ==> after.harvest_outcome(id, caller, later) is Ok
        }),
{
}

/// A refused operation changes nothing.
pub proof fn lemma_refusal_changes_nothing(
    state: MiningState,
    id: u32,
    owner: Seq<char>,
    metal_type: MetalType,
    caller: Seq<char>,
    now: u64,
)
    ensures
        state.create_outcome(owner, caller) is Err ==> state.after_create(
            owner,
            metal_type,
            caller,
            now,
        ) == state,
        state.harvest_outcome(id, caller, now) is Err ==> state.after_harvest(id, caller, now)
            == state,
        state.upgrade_outcome(id, caller) is Err ==> state.after_upgrade(id, caller) == state,
{
}

/// What a harvest yields never exceeds the mine's capacity and is never
/// negative, so a mine's production never falls.
pub proof fn lemma_yield_within_capacity(mine: MineView, now: u64)
    ensures
        0 <= mine.harvest_yield(now) <= mine.capacity,
{
    let hourly = mine.hourly_production();
    let hours = mine.hours_since_harvest(now);
    assert(0 <= hourly) by (nonlinear_arith)
        requires
            hourly == mine.metal_type.base_rate() * mine.upgrade_level,
            0 <= mine.metal_type.base_rate(),
            0 <= mine.upgrade_level,
    ;
    assert(0 <= hourly * hours * mine.efficiency) by (nonlinear_arith)
        requires
            0 <= hourly,
            0 <= hours,
            0 <= mine.efficiency,
    ;
}

/// A mine at level 1 that its owner upgrades `times` times stands at level
/// `1 + times` with five points of efficiency and a tenth of its metal's
/// base capacity more per upgrade, as long as that level is at most the
/// highest; from then on every upgrade is refused and the mine stays as it is.
pub proof fn lemma_upgrade_ladder(mine: MineView, times: nat)
    requires
        mine.wf(),
        mine.upgrade_level == 1,
    ensures
        ({
            let reached = after_upgrades(mine, times);
            let steps = if times <= MAX_UPGRADE_LEVEL - 1 {
                times as int
            } else {
                MAX_UPGRADE_LEVEL - 1
            };
            &&& reached.wf()
            &&& reached.upgrade_level == 1 + steps
            &&& reached.efficiency == mine.metal_type.base_efficiency() + EFFICIENCY_PER_UPGRADE
                * steps
            &&& reached.capacity == mine.metal_type.base_capacity() + steps * (
            mine.metal_type.base_capacity() / 10)
            &&& reached == MineView {
                upgrade_level: reached.upgrade_level,
                efficiency: reached.efficiency,
                capacity: reached.capacity,
                ..mine
            }
            &&& times >= MAX_UPGRADE_LEVEL - 1 ==> {
                &&& reached.upgrade_outcome(mine.owner) == Err::<(), ContractError>(
                    ContractError::MaxLevelReached,
                )
                &&& reached.after_upgrade(mine.owner) == reached
            }
            &&& times < MAX_UPGRADE_LEVEL - 1 ==> reached.upgrade_outcome(mine.owner) is Ok
        }),
    decreases times,
{
    if times > 0 {
        let before = after_upgrades(mine, (times - 1) as nat);
        lemma_upgrade_ladder(mine, (times - 1) as nat);
        lemma_upgrade_keeps_wf(before, mine.owner);
    }
}

/// Reading changes nothing and depends on nothing but the state: two answers
/// to one question in one state are the same.
pub proof fn lemma_reads_repeat(
    state: MiningState,
    id: u32,
    metal_type: MetalType,
    first_mine: Option<Mine>,
    second_mine: Option<Mine>,
    first_total: u64,
    second_total: u64,
)
    requires
        optional_view(first_mine) == state.mine(id),
        optional_view(second_mine) == state.mine(id),
        first_total == state.produced(metal_type),
        second_total == state.produced(metal_type),
    ensures
        optional_view(first_mine) == optional_view(second_mine),
        first_total == second_total,
{
}

} // verus!
