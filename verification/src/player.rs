//! Players: people on a roster, who belong to no company and reserve
//! nothing.

use vstd::prelude::*;

verus! {

/// A player as the store holds them.
#[derive(Debug)]
pub struct PlayerRow {
    pub player_id: i32,
    pub name: String,
    pub age: i32,
    pub wing: i32,
}

/// A request to enter a player.
#[derive(Debug)]
pub struct CreatePlayerReq {
    pub name: String,
    pub age: i32,
    pub wing: i32,
}

/// The player that a request enters under the number `player_id`.
pub open spec fn entered(req: CreatePlayerReq, player_id: i32) -> PlayerRow {
    PlayerRow { player_id, name: req.name, age: req.age, wing: req.wing }
}

/// The player that a request enters under the number that the store gave
/// it.
pub fn create_player(payload: &CreatePlayerReq, player_id: i32) -> (row: PlayerRow)
    ensures
        row == entered(*payload, player_id),
{
    PlayerRow { player_id, name: payload.name.clone(), age: payload.age, wing: payload.wing }
}

} // verus!
