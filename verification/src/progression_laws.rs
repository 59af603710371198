//! What holds of the players over any course of operations.

use vstd::prelude::*;

use crate::error::ContractError;
use crate::player::{level_for, Player, PlayerView, ACTIVITY_WINDOW};
use crate::progression::{lemma_slot_is_unique, optional_view, PlayerState};

verus! {

/// A registration keeps the state well formed and leaves every other
/// address as it is. An address without a player gets one, at level 1 with
/// nothing to its name, and the count rises by one; an address with a player
/// is refused and nothing changes.
pub proof fn lemma_register(state: PlayerState, address: Seq<char>, username: Seq<char>, now: u64)
    requires
        state.wf(),
        state.count() < u32::MAX,
    ensures
        ({
            let after = state.after_register(address, username, now);
            &&& after.wf()
            &&& forall|other: Seq<char>|
                other != address ==> after.player(other) == state.player(other)
            &&& !state.has(address) ==> {
                &&& state.register_outcome(address) == Ok::<(), ContractError>(())
                &&& after.count() == state.count() + 1
                &&& after.player(address) == Some(PlayerView::fresh(address, username, now))
            }
            &&& state.has(address) ==> {
                &&& state.register_outcome(address) == Err::<(), ContractError>(
                    ContractError::AlreadyRegistered,
                )
                &&& after == state
            }
        }),
{
    let after = state.after_register(address, username, now);
    if !state.has(address) {
        let fresh = PlayerView::fresh(address, username, now);
        let last = state.players.len() as int;
        assert(after.players[last] == fresh);
        assert forall|i: int, j: int| 0 <= i < j < after.players.len() implies (
        #[trigger] after.players[i]).address != (#[trigger] after.players[j]).address by {
            if j == last {
                assert(state.players[i].address != address);
            } else {
                assert(state.players[i].address != state.players[j].address);
            }
        }
        assert forall|i: int| 0 <= i < after.players.len() implies (
        #[trigger] after.players[i]).level == level_for(after.players[i].experience as int) by {
            if i < last {
                assert(after.players[i] == state.players[i]);
            }
        }
        lemma_slot_is_unique(after, last);
        assert forall|other: Seq<char>| other != address implies after.player(other)
            == state.player(other) by {
            if state.has(other) {
                let slot = state.slot(other);
                assert(after.players[slot] == state.players[slot]);
                lemma_slot_is_unique(after, slot);
            } else if after.has(other) {
                let slot = after.slot(other);
                assert(state.players[slot] == after.players[slot]);
            }
        }
    }
}

/// Of two registrations of one address, the first succeeds where the address
/// had no player, the second is refused whatever name and time it brings, and
/// the count has risen by one and no more.
pub proof fn lemma_second_registration_is_refused(
    state: PlayerState,
    address: Seq<char>,
    first_name: Seq<char>,
    first_time: u64,
    second_name: Seq<char>,
    second_time: u64,
)
    requires
        state.wf(),
        state.count() < u32::MAX,
        !state.has(address),
    ensures
        ({
            let once = state.after_register(address, first_name, first_time);
            let twice = once.after_register(address, second_name, second_time);
            &&& state.register_outcome(address) == Ok::<(), ContractError>(())
            &&& once.register_outcome(address) == Err::<(), ContractError>(
                ContractError::AlreadyRegistered,
            )
            &&& twice == once
            &&& twice.count() == state.count() + 1
        }),
{
    lemma_register(state, address, first_name, first_time);
}

/// Replacing the player of an address by one of the same address, whose
/// level is what its experience earns, keeps the state well formed; the
/// address then has that player, and every other address is as it was.
pub proof fn lemma_with_player(state: PlayerState, address: Seq<char>, player: PlayerView)
    requires
        state.wf(),
        state.has(address),
        player.address == address,
        player.level == level_for(player.experience as int),
    ensures
        ({
            let after = state.with_player(address, player);
            &&& after.wf()
            &&& after.count() == state.count()
            &&& after.player(address) == Some(player)
            &&& forall|other: Seq<char>|
                other != address ==> after.player(other) == state.player(other)
        }),
{
    let after = state.with_player(address, player);
    let slot = state.slot(address);
    assert forall|i: int, j: int| 0 <= i < j < after.players.len() implies (
    #[trigger] after.players[i]).address != (#[trigger] after.players[j]).address by {
        assert(state.players[i].address != state.players[j].address);
    }
    assert forall|i: int| 0 <= i < after.players.len() implies (
    #[trigger] after.players[i]).level == level_for(after.players[i].experience as int) by {
        if i != slot {
            assert(after.players[i] == state.players[i]);
        }
    }
    lemma_slot_is_unique(after, slot);
    assert forall|other: Seq<char>| other != address implies after.player(other) == state.player(
        other,
    ) by {
        if state.has(other) {
            let at = state.slot(other);
            assert(after.players[at] == state.players[at]);
            lemma_slot_is_unique(after, at);
        } else if after.has(other) {
            let at = after.slot(other);
            assert(state.players[at].address == other);
        }
    }
}

/// A change to an address without a player is refused and changes nothing.
pub proof fn lemma_change_without_player(
    state: PlayerState,
    address: Seq<char>,
    gained: u64,
    mine_id: u32,
    amount: u64,
    now: u64,
)
    requires
        !state.has(address),
    ensures
        state.change_outcome(address) == Err::<(), ContractError>(ContractError::NotFound),
        state.after_experience(address, gained, now) == state,
        state.after_mine_added(address, mine_id, now) == state,
        state.after_mined(address, amount, now) == state,
        !state.is_active(address, now),
{
}

/// Whatever a player's level was: after a gain of experience it is the
/// higher of that level and the one that the experience earns, so it never
/// falls and is never less than the experience earns.
pub proof fn lemma_level_only_rises(player: PlayerView, gained: u64, now: u64)
    requires
        level_for(player.experience + gained) <= u32::MAX,
    ensures
        ({
            let after = player.after_experience(gained, now);
            &&& after.experience == player.experience + gained
            &&& after.level >= player.level
            &&& after.level >= level_for(after.experience as int)
            &&& after.level == player.level || after.level == level_for(after.experience as int)
            &&& after.last_activity == now
        }),
{
}

/// In a well-formed state a gain of experience raises the player's level to
/// one more than the full thousands of the experience, and never lowers it;
/// the state stays well formed and every other address is as it was.
pub proof fn lemma_level_follows_experience(
    state: PlayerState,
    address: Seq<char>,
    gained: u64,
    now: u64,
)
    requires
        state.wf(),
        state.player(address) matches Some(player) ==> level_for(player.experience + gained)
            <= u32::MAX,
    ensures
        ({
            let after = state.after_experience(address, gained, now);
            &&& after.wf()
            &&& after.count() == state.count()
            &&& forall|other: Seq<char>|
                other != address ==> after.player(other) == state.player(other)
            &&& state.player(address) matches Some(player) ==> {
                &&& state.change_outcome(address) == Ok::<(), ContractError>(())
                &&& after.player(address) == Some(player.after_experience(gained, now))
                &&& after.player(address)->0.experience == player.experience + gained
                &&& after.player(address)->0.level == (player.experience + gained) / 1000 + 1
                &&& after.player(address)->0.level >= player.level
            }
        }),
{
    if state.has(address) {
        let slot = state.slot(address);
        let player = state.players[slot];
        assert(player.level == level_for(player.experience as int));
        lemma_with_player(state, address, player.after_experience(gained, now));
    }
}

/// Adding a mine to a player's list puts it behind the others, whether or
/// not it is there already; the state stays well formed and every other
/// address is as it was.
pub proof fn lemma_mine_added(state: PlayerState, address: Seq<char>, mine_id: u32, now: u64)
    requires
        state.wf(),
    ensures
        ({
            let after = state.after_mine_added(address, mine_id, now);
            &&& after.wf()
            &&& after.count() == state.count()
            &&& forall|other: Seq<char>|
                other != address ==> after.player(other) == state.player(other)
            &&& state.player(address) matches Some(player) ==> {
                &&& after.player(address) == Some(player.after_mine_added(mine_id, now))
                &&& after.player(address)->0.active_mines == player.active_mines.push(mine_id)
            }
        }),
{
    if state.has(address) {
        let slot = state.slot(address);
        let player = state.players[slot];
        assert(player.level == level_for(player.experience as int));
        lemma_with_player(state, address, player.after_mine_added(mine_id, now));
    }
}

/// Recording a mined amount adds it to what the player has mined; the state
/// stays well formed and every other address is as it was.
pub proof fn lemma_mined(state: PlayerState, address: Seq<char>, amount: u64, now: u64)
    requires
        state.wf(),
        state.player(address) matches Some(player) ==> player.total_mined + amount <= u64::MAX,
    ensures
        ({
            let after = state.after_mined(address, amount, now);
            &&& after.wf()
            &&& after.count() == state.count()
            &&& forall|other: Seq<char>|
                other != address ==> after.player(other) == state.player(other)
            &&& state.player(address) matches Some(player) ==> {
                &&& after.player(address) == Some(player.after_mined(amount, now))
                &&& after.player(address)->0.total_mined == player.total_mined + amount
            }
        }),
{
    if state.has(address) {
        let slot = state.slot(address);
        let player = state.players[slot];
        assert(player.level == level_for(player.experience as int));
        lemma_with_player(state, address, player.after_mined(amount, now));
    }
}

/// Right after an action that changes a player, at the time of that action,
/// the player is active: after a registration that was granted, and after
/// experience, a mine or a mined amount was recorded for a player.
pub proof fn lemma_active_after_action(
    state: PlayerState,
    address: Seq<char>,
    username: Seq<char>,
    gained: u64,
    mine_id: u32,
    amount: u64,
    now: u64,
)
    requires
        state.wf(),
        state.count() < u32::MAX,
        state.player(address) matches Some(player) ==> {
            &&& level_for(player.experience + gained) <= u32::MAX
            &&& player.total_mined + amount <= u64::MAX
        },
    ensures
        !state.has(address) ==> state.after_register(address, username, now).is_active(
            address,
            now,
        ),
        state.has(address) ==> {
            &&& state.after_experience(address, gained, now).is_active(address, now)
            &&& state.after_mine_added(address, mine_id, now).is_active(address, now)
            &&& state.after_mined(address, amount, now).is_active(address, now)
        },
{
    lemma_register(state, address, username, now);
    lemma_level_follows_experience(state, address, gained, now);
    lemma_mine_added(state, address, mine_id, now);
    lemma_mined(state, address, amount, now);
}

/// A player is active for less than a day after the last action: at any time
/// from the last activity up to a day later, not included, the player is
/// active, and from a day later on the player is not.
pub proof fn lemma_active_for_a_day(state: PlayerState, address: Seq<char>, now: u64)
    requires
        state.player(address) matches Some(player) && player.last_activity <= now,
    ensures
        state.is_active(address, now) <==> now - state.player(address)->0.last_activity
            < ACTIVITY_WINDOW,
        now - state.player(address)->0.last_activity >= ACTIVITY_WINDOW ==> !state.is_active(
            address,
            now,
        ),
{
}

/// Reading changes nothing and depends on nothing but the state: two answers
/// to one question in one state are the same.
pub proof fn lemma_reads_repeat(
    state: PlayerState,
    address: Seq<char>,
    first_player: Option<Player>,
    second_player: Option<Player>,
    first_count: u32,
    second_count: u32,
)
    requires
        optional_view(first_player) == state.player(address),
        optional_view(second_player) == state.player(address),
        first_count == state.count(),
        second_count == state.count(),
    ensures
        optional_view(first_player) == optional_view(second_player),
        first_count == second_count,
{
}

} // verus!
