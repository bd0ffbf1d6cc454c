//! The companion game's leaderboard model: players as the game's
//! service reports them, and the derived level each one is shown
//! with. Fetching the records happens outside the library.

use vstd::prelude::*;

verus! {

/// A player's displayed name.
#[derive(Debug, Clone)]
pub struct User {
    pub name: String,
}

/// One leaderboard record: the three upgrade levels the service
/// reports, and the total level derived from them.
#[derive(Debug)]
pub struct Player {
    pub auto_lvl: u32,
    pub regen_lvl: u32,
    pub stamina_lvl: u32,
    pub user: User,
    pub level: Option<u32>,
}

/// The total level a record is shown with: the sum of its three
/// upgrade levels.
pub open spec fn spec_level(player: Player) -> int {
    player.auto_lvl + player.regen_lvl + player.stamina_lvl
}

/// Fill in each record's total level. The sums must fit the level
/// type; the caller checks the records it fetched before calling.
pub fn assign_levels(players: Vec<Player>) -> (leveled: Vec<Player>)
    requires
        forall|i: int| 0 <= i < players@.len() ==> spec_level(players@[i]) <= u32::MAX,
    ensures
        leveled@.len() == players@.len(),
        forall|i: int|
            0 <= i < players@.len() ==> leveled@[i] == (Player {
                level: Some((spec_level(players@[i]) as u32)),
                ..players@[i]
            }),
{
    let ghost given = players@;
    let mut players = players;
    let mut i: usize = 0;
    while i < players.len()
        invariant
            i <= given.len(),
            players@.len() == given.len(),
            forall|j: int| i <= j < given.len() ==> players@[j] == given[j],
            forall|j: int|
                0 <= j < i ==> players@[j] == (Player {
                    level: Some((spec_level(given[j]) as u32)),
                    ..given[j]
                }),
            forall|j: int| 0 <= j < given.len() ==> spec_level(given[j]) <= u32::MAX,
        decreases given.len() - i,
    {
        let total = players[i].auto_lvl + players[i].regen_lvl + players[i].stamina_lvl;
        players[i].level = Some(total);
        i = i + 1;
    }
    players
}

} // verus!
