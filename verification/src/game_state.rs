//! A game: one pet and the time at which it was last looked after.

use crate::friend::{Friend, FriendRecord, FriendView, RecordError};
use vstd::prelude::*;

verus! {

/// A game as a mathematical value.
pub struct GameStateView {
    pub friend: FriendView,
    pub last_update_time: int,
}

/// All that is known of a game, as plain values: the form in which a game
/// is stored and read back.
#[derive(Debug)]
pub struct GameStateRecord {
    pub friend: FriendRecord,
    pub last_update_time: i64,
}

impl GameStateRecord {
    /// The game that the record describes, if its pet has no defect.
    pub open spec fn described(self) -> GameStateView {
        GameStateView {
            friend: self.friend.described(),
            last_update_time: self.last_update_time as int,
        }
    }
}

/// A game. It owns exactly one pet.
#[derive(Debug)]
pub struct GameState {
    friend: Friend,
    last_update_time: i64,
}

impl View for GameState {
    type V = GameStateView;

    closed spec fn view(&self) -> GameStateView {
        GameStateView { friend: self.friend@, last_update_time: self.last_update_time as int }
    }
}

impl GameStateView {
    /// The game after time has been advanced to `now`.
    pub open spec fn updated(self, now: int) -> GameStateView {
        GameStateView { friend: self.friend.updated(now), last_update_time: now }
    }
}

impl GameState {
    /// A game that starts at `now` with `friend`.
    pub fn new(friend: Friend, now: i64) -> (game: GameState)
        ensures
            game@ == (GameStateView { friend: friend@, last_update_time: now as int }),
    {
        GameState { friend, last_update_time: now }
    }

    /// Advances the game to the time `now`: the pet is updated and the time
    /// is noted.
    pub fn update(&mut self, now: i64)
        ensures
            final(self)@ == old(self)@.updated(now as int),
    {
        self.last_update_time = now;
        self.friend.update_state(now);
    }

    pub fn friend(&self) -> (friend: &Friend)
        ensures
            friend@ == self@.friend,
    {
        &self.friend
    }

    pub fn friend_mut(&mut self) -> (friend: &mut Friend)
        ensures
            friend@ == old(self)@.friend,
            final(self)@ == (GameStateView { friend: final(friend)@, ..old(self)@ }),
    {
        &mut self.friend
    }

    /// The time to which the game was last advanced.
    pub fn last_update_time(&self) -> (at: i64)
        ensures
            at == self@.last_update_time,
    {
        self.last_update_time
    }

    /// Puts `friend` in the place of the present pet. This is how a game
    /// goes on after its pet has died.
    pub fn replace_friend(&mut self, friend: Friend, now: i64)
        ensures
            final(self)@ == (GameStateView { friend: friend@, last_update_time: now as int }),
    {
        self.friend = friend;
        self.last_update_time = now;
    }

    /// Advances the game to `now` and hands out what is to be stored, so
    /// that what is stored tells of the pet as it is at `now`.
    pub fn store(&mut self, now: i64) -> (record: GameStateRecord)
        ensures
            final(self)@ == old(self)@.updated(now as int),
            record.described() == final(self)@,
            record.friend.defect() is None,
            record.friend.asleep == final(self)@.friend.asleep(),
    {
        self.update(now);
        GameStateRecord { friend: self.friend.to_record(), last_update_time: self.last_update_time }
    }

    /// The game that `record` describes, or what is wrong with the record
    /// of its pet.
    pub fn from_record(record: GameStateRecord) -> (restored: Result<GameState, RecordError>)
        ensures
            match restored {
                Ok(game) => record.friend.defect() is None && game@ == record.described(),
                Err(error) => record.friend.defect() == Some(error),
            },
    {
        let last_update_time = record.last_update_time;
        match Friend::from_record(record.friend) {
            Ok(friend) => Ok(GameState { friend, last_update_time }),
            Err(error) => Err(error),
        }
    }
}

} // verus!
