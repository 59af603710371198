use vstd::prelude::*;

use crate::address::Address;
use crate::error::ContractError;
use crate::player::{level_for, Player, PlayerView};

verus! {

/// The register of players, one for each address that was registered.
pub struct PlayerContract {
    players: Vec<Player>,
}

/// The register as a mathematical value: the players in the order in which
/// they were registered.
pub struct PlayerState {
    pub players: Seq<PlayerView>,
}

/// The mathematical values of `players`, in their order.
pub open spec fn player_views(players: Seq<Player>) -> Seq<PlayerView> {
    Seq::new(players.len(), |i: int| players[i]@)
}

/// The mathematical value of a player that may be absent.
pub open spec fn optional_view(player: Option<Player>) -> Option<PlayerView> {
    match player {
        Some(player) => Some(player@),
        None => None,
    }
}

impl PlayerState {
    /// No player.
    pub open spec fn empty() -> PlayerState {
        PlayerState { players: Seq::empty() }
    }

    /// What holds of every state that is reached from the empty one: no
    /// address is registered twice, and each player's level is the one that
    /// the experience earns.
    pub open spec fn wf(self) -> bool {
        &&& self.players.len() <= u32::MAX
        &&& forall|i: int, j: int|
            0 <= i < j < self.players.len() ==> (#[trigger] self.players[i]).address != (
            #[trigger] self.players[j]).address
        &&& forall|i: int|
            0 <= i < self.players.len() ==> (#[trigger] self.players[i]).level == level_for(
                self.players[i].experience as int,
            )
    }

    /// How many players are registered.
    pub open spec fn count(self) -> nat {
        self.players.len()
    }

    /// Whether a player is registered for `address`.
    pub open spec fn has(self, address: Seq<char>) -> bool {
        exists|i: int| 0 <= i < self.players.len() && (#[trigger] self.players[i]).address == address
    }

    /// Where the player of `address` stands, if one is registered.
    pub open spec fn slot(self, address: Seq<char>) -> int {
        choose|i: int| 0 <= i < self.players.len() && (#[trigger] self.players[i]).address == address
    }

    /// The player of `address`, if one is registered.
    pub open spec fn player(self, address: Seq<char>) -> Option<PlayerView> {
        if self.has(address) {
            Some(self.players[self.slot(address)])
        } else {
            None
        }
    }

    /// The state with the player of `address` replaced by `player`; the same
    /// state where no player is registered for `address`.
    pub open spec fn with_player(self, address: Seq<char>, player: PlayerView) -> PlayerState {
        if self.has(address) {
            PlayerState { players: self.players.update(self.slot(address), player) }
        } else {
            self
        }
    }

    /// What a change to the player of `address` is answered.
    pub open spec fn change_outcome(self, address: Seq<char>) -> Result<(), ContractError> {
        if self.has(address) {
            Ok(())
        } else {
            Err(ContractError::NotFound)
        }
    }

    /// What a registration of `address` is answered.
    pub open spec fn register_outcome(self, address: Seq<char>) -> Result<(), ContractError> {
        if self.has(address) {
            Err(ContractError::AlreadyRegistered)
        } else {
            Ok(())
        }
    }

    /// The state after a registration of `address` under `username` at time
    /// `now` was asked for.
    pub open spec fn after_register(self, address: Seq<char>, username: Seq<char>, now: u64)
        -> PlayerState {
        if self.has(address) {
            self
        } else {
            PlayerState { players: self.players.push(PlayerView::fresh(address, username, now)) }
        }
    }

    /// The state after the player of `address` was to gain `gained`
    /// experience at time `now`.
    pub open spec fn after_experience(self, address: Seq<char>, gained: u64, now: u64)
        -> PlayerState {
        self.with_player(address, self.players[self.slot(address)].after_experience(gained, now))
    }

    /// The state after the mine `mine_id` was to be added at time `now` to
    /// those of the player of `address`.
    pub open spec fn after_mine_added(self, address: Seq<char>, mine_id: u32, now: u64)
        -> PlayerState {
        self.with_player(address, self.players[self.slot(address)].after_mine_added(mine_id, now))
    }

    /// The state after `amount` was to be added at time `now` to what the
    /// player of `address` has mined.
    pub open spec fn after_mined(self, address: Seq<char>, amount: u64, now: u64) -> PlayerState {
        self.with_player(address, self.players[self.slot(address)].after_mined(amount, now))
    }

    /// Whether a player is registered for `address` and was last active less
    /// than a day before `now`.
    pub open spec fn is_active(self, address: Seq<char>, now: u64) -> bool {
        match self.player(address) {
            Some(player) => player.is_active(now),
            None => false,
        }
    }
}

/// Where no address is registered twice, the player of an address stands
/// where that address is found.
pub proof fn lemma_slot_is_unique(state: PlayerState, index: int)
    requires
        state.wf(),
        0 <= index < state.players.len(),
    ensures
        state.has(state.players[index].address),
        state.slot(state.players[index].address) == index,
        state.player(state.players[index].address) == Some(state.players[index]),
{
    let address = state.players[index].address;
    let slot = state.slot(address);
    assert(0 <= slot < state.players.len() && state.players[slot].address == address);
    if slot < index {
        assert(state.players[slot].address != state.players[index].address);
    } else if index < slot {
        assert(state.players[index].address != state.players[slot].address);
    }
}

impl View for PlayerContract {
    type V = PlayerState;

    closed spec fn view(&self) -> PlayerState {
        PlayerState { players: player_views(self.players@) }
    }
}

impl PlayerContract {
    /// A register without players.
    pub fn new() -> (contract: PlayerContract)
        ensures
            contract@ == PlayerState::empty(),
            contract@.wf(),
    {
        let contract = PlayerContract { players: Vec::new() };
        assert(contract@.players =~= Seq::empty());
        contract
    }

    /// Where the player of `address` stands, if one is registered.
    fn find(&self, address: &Address) -> (found: Option<usize>)
        requires
            self@.wf(),
        ensures
            match found {
                Some(index) => self@.has(address@) && index == self@.slot(address@),
                None => !self@.has(address@),
            },
    {
        let mut index: usize = 0;
        while index < self.players.len()
            invariant
                self@.wf(),
                index <= self.players.len(),
                forall|i: int| 0 <= i < index ==> (#[trigger] self@.players[i]).address != address@,
            decreases self.players.len() - index,
        {
            if self.players[index].address.same(address) {
                proof {
                    lemma_slot_is_unique(self@, index as int);
                }
                return Some(index);
            }
            index = index + 1;
        }
        None
    }

    /// Registers a player for `player` under `username` at time `now`.
    ///
    /// Anyone may register any address; an address that is registered
    /// already is refused.
    pub fn register_player(&mut self, player: Address, username: String, now: u64) -> (result:
        Result<(), ContractError>)
        requires
            old(self)@.wf(),
            old(self)@.count() < u32::MAX,
        ensures
            final(self)@.wf(),
            result == old(self)@.register_outcome(player@),
            final(self)@ == old(self)@.after_register(player@, username@, now),
    {
        if self.find(&player).is_some() {
            return Err(ContractError::AlreadyRegistered);
        }
        let ghost before = self@;
        let registered = Player::new(player, username, now);
        let ghost fresh = registered@;
        self.players.push(registered);
        proof {
            let after = self@;
            assert(after.players =~= before.players.push(fresh));
            assert forall|i: int, j: int| 0 <= i < j < after.players.len() implies (
            #[trigger] after.players[i]).address != (#[trigger] after.players[j]).address by {
                if j == before.players.len() {
                    assert(before.players[i].address != fresh.address);
                }
            }
        }
        Ok(())
    }

    /// The player of `player`, if one is registered.
    pub fn get_player(&self, player: Address) -> (found: Option<Player>)
        requires
            self@.wf(),
        ensures
            optional_view(found) == self@.player(player@),
    {
        match self.find(&player) {
            Some(index) => Some(self.players[index].clone()),
            None => None,
        }
    }

    /// Puts `player` where the player of its address stands.
    fn replace(&mut self, index: usize, player: Player)
        requires
            old(self)@.wf(),
            index < old(self)@.players.len(),
            player@.address == old(self)@.players[index as int].address,
            player@.level == level_for(player@.experience as int),
        ensures
            final(self)@.wf(),
            final(self)@ == old(self)@.with_player(player@.address, player@),
    {
        let ghost before = self@;
        let ghost replaced = player@;
        proof {
            lemma_slot_is_unique(before, index as int);
        }
        self.players.set(index, player);
        proof {
            let after = self@;
            assert(after.players =~= before.players.update(index as int, replaced));
            assert forall|i: int, j: int| 0 <= i < j < after.players.len() implies (
            #[trigger] after.players[i]).address != (#[trigger] after.players[j]).address by {
                assert(before.players[i].address != before.players[j].address);
            }
        }
    }

    /// Adds `exp_gained` to the experience of the player of `player` at time
    /// `now`, and raises the level to what the experience earns.
    ///
    /// Anyone may do so; an address without a player is refused.
    pub fn update_experience(&mut self, player: Address, exp_gained: u64, now: u64) -> (result:
        Result<(), ContractError>)
        requires
            old(self)@.wf(),
            old(self)@.player(player@) matches Some(found) ==> level_for(
                found.experience + exp_gained,
            ) <= u32::MAX,
        ensures
            final(self)@.wf(),
            result == old(self)@.change_outcome(player@),
            final(self)@ == old(self)@.after_experience(player@, exp_gained, now),
    {
        match self.find(&player) {
            Some(index) => {
                let mut changed: Player = self.players[index].clone();
                changed.gain_experience(exp_gained, now);
                self.replace(index, changed);
                Ok(())
            },
            None => Err(ContractError::NotFound),
        }
    }

    /// Adds the mine `mine_id` at time `now` to those of the player of
    /// `player`, whether or not it is among them and whoever owns it.
    ///
    /// Anyone may do so; an address without a player is refused.
    pub fn add_active_mine(&mut self, player: Address, mine_id: u32, now: u64) -> (result: Result<
        (),
        ContractError,
    >)
        requires
            old(self)@.wf(),
        ensures
            final(self)@.wf(),
            result == old(self)@.change_outcome(player@),
            final(self)@ == old(self)@.after_mine_added(player@, mine_id, now),
    {
        match self.find(&player) {
            Some(index) => {
                let mut changed: Player = self.players[index].clone();
                changed.add_mine(mine_id, now);
                self.replace(index, changed);
                Ok(())
            },
            None => Err(ContractError::NotFound),
        }
    }

    /// Adds `amount` at time `now` to what the player of `player` has mined.
    ///
    /// Anyone may do so; an address without a player is refused.
    pub fn update_total_mined(&mut self, player: Address, amount: u64, now: u64) -> (result:
        Result<(), ContractError>)
        requires
            old(self)@.wf(),
            old(self)@.player(player@) matches Some(found) ==> found.total_mined + amount
                <= u64::MAX,
        ensures
            final(self)@.wf(),
            result == old(self)@.change_outcome(player@),
            final(self)@ == old(self)@.after_mined(player@, amount, now),
    {
        match self.find(&player) {
            Some(index) => {
                let mut changed: Player = self.players[index].clone();
                changed.record_mined(amount, now);
                self.replace(index, changed);
                Ok(())
            },
            None => Err(ContractError::NotFound),
        }
    }

    /// How many players are registered.
    pub fn get_player_count(&self) -> (count: u32)
        requires
            self@.wf(),
        ensures
            count == self@.count(),
    {
        self.players.len() as u32
    }

    /// Whether a player is registered for `player` and was last active less
    /// than a day before `now`.
    pub fn is_player_active(&self, player: Address, now: u64) -> (active: bool)
        requires
            self@.wf(),
        ensures
            active == self@.is_active(player@, now),
    {
        match self.find(&player) {
            Some(index) => self.players[index].is_active(now),
            None => false,
        }
    }
}

} // verus!
