use vstd::prelude::*;

use crate::address::Address;

verus! {

/// The experience that each level above the first takes.
pub const EXPERIENCE_PER_LEVEL: u64 = 1000;

/// A player counts as active for this many seconds after the last action.
pub const ACTIVITY_WINDOW: u64 = 86400;

/// A player: the progress of one account.
#[derive(Debug, PartialEq, Eq)]
pub struct Player {
    pub address: Address,
    pub username: String,
    pub level: u32,
    pub experience: u64,
    pub total_mined: u64,
    /// The mines that the player works, in the order in which they were added.
    pub active_mines: Vec<u32>,
    /// When the player was registered or last changed.
    pub last_activity: u64,
}

/// A player as a mathematical value.
pub struct PlayerView {
    pub address: Seq<char>,
    pub username: Seq<char>,
    pub level: u32,
    pub experience: u64,
    pub total_mined: u64,
    pub active_mines: Seq<u32>,
    pub last_activity: u64,
}

impl View for Player {
    type V = PlayerView;

    open spec fn view(&self) -> PlayerView {
        PlayerView {
            address: self.address@,
            username: self.username@,
            level: self.level,
            experience: self.experience,
            total_mined: self.total_mined,
            active_mines: self.active_mines@,
            last_activity: self.last_activity,
        }
    }
}

/// The level that `experience` earns: one, and one more for each full
/// thousand.
pub open spec fn level_for(experience: int) -> int {
    experience / (EXPERIENCE_PER_LEVEL as int) + 1
}

impl PlayerView {
    /// The player that is registered at time `now` for `address`.
    pub open spec fn fresh(address: Seq<char>, username: Seq<char>, now: u64) -> PlayerView {
        PlayerView {
            address,
            username,
            level: 1,
            experience: 0,
            total_mined: 0,
            active_mines: Seq::empty(),
            last_activity: now,
        }
    }

    /// The player after gaining `gained` experience at time `now`: the level
    /// rises to what the experience earns and never falls.
    pub open spec fn after_experience(self, gained: u64, now: u64) -> PlayerView {
        let experience = self.experience + gained;
        PlayerView {
            experience: experience as u64,
            level: if level_for(experience) > self.level {
                level_for(experience) as u32
            } else {
                self.level
            },
            last_activity: now,
            ..self
        }
    }

    /// The player after the mine `mine_id` was added at time `now`.
    pub open spec fn after_mine_added(self, mine_id: u32, now: u64) -> PlayerView {
        PlayerView { active_mines: self.active_mines.push(mine_id), last_activity: now, ..self }
    }

    /// The player after `amount` was added at time `now` to what the player
    /// has mined.
    pub open spec fn after_mined(self, amount: u64, now: u64) -> PlayerView {
        PlayerView { total_mined: (self.total_mined + amount) as u64, last_activity: now, ..self }
    }

    /// Whether the player was last active less than a day before `now`.
    pub open spec fn is_active(self, now: u64) -> bool {
        now - self.last_activity < ACTIVITY_WINDOW
    }
}

impl Clone for Player {
    fn clone(&self) -> (copy: Player)
        ensures
            copy@ == self@,
    {
        let active_mines = self.active_mines.clone();
        assert(active_mines@ =~= self.active_mines@);
        Player {
            address: self.address.clone(),
            username: self.username.clone(),
            level: self.level,
            experience: self.experience,
            total_mined: self.total_mined,
            active_mines,
            last_activity: self.last_activity,
        }
    }
}

impl Player {
    /// Registers a player for `address` at time `now`: level 1, no
    /// experience, nothing mined and no mine.
    pub fn new(address: Address, username: String, now: u64) -> (player: Player)
        ensures
            player@ == PlayerView::fresh(address@, username@, now),
    {
        Player {
            address,
            username,
            level: 1,
            experience: 0,
            total_mined: 0,
            active_mines: Vec::new(),
            last_activity: now,
        }
    }

    /// Adds `gained` to the player's experience at time `now` and raises the
    /// level to what the experience earns, if that is higher.
    pub fn gain_experience(&mut self, gained: u64, now: u64)
        requires
            level_for(old(self).experience + gained) <= u32::MAX,
        ensures
            final(self)@ == old(self)@.after_experience(gained, now),
    {
        self.experience = self.experience + gained;
        self.last_activity = now;
        let earned: u64 = self.experience / EXPERIENCE_PER_LEVEL + 1;
        if earned > self.level as u64 {
            self.level = earned as u32;
        }
    }

    /// Adds the mine `mine_id` at time `now` to those that the player works,
    /// behind the others and whether or not it is among them already.
    pub fn add_mine(&mut self, mine_id: u32, now: u64)
        ensures
            final(self)@ == old(self)@.after_mine_added(mine_id, now),
    {
        self.active_mines.push(mine_id);
        self.last_activity = now;
    }

    /// Adds `amount` at time `now` to what the player has mined.
    pub fn record_mined(&mut self, amount: u64, now: u64)
        requires
            old(self).total_mined + amount <= u64::MAX,
        ensures
            final(self)@ == old(self)@.after_mined(amount, now),
    {
        self.total_mined = self.total_mined + amount;
        self.last_activity = now;
    }

    /// Whether the player was last active less than a day before `now`.
    pub fn is_active(&self, now: u64) -> (active: bool)
        ensures
            active == self@.is_active(now),
    {
        now < self.last_activity || now - self.last_activity < ACTIVITY_WINDOW
    }
}

} // verus!
