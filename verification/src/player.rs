//! The player record: what the contact tracker and the locomotion controller
//! remember about the player from one tick to the next.

use std::collections::HashSet;
use vstd::prelude::*;

verus! {

broadcast use vstd::std_specs::hash::group_hash_axioms;

/// The player's contact state.
///
/// `over_ladders` names the ladder zones that the player's body overlaps, by
/// the handle of each zone's entity. A handle is kept by value only: the
/// entity behind it may be gone from the world while its handle is still in
/// the set.
#[derive(Debug)]
pub struct Player {
    /// A foot ray hit solid ground in the last ground detection.
    pub on_ground: bool,
    /// The player is climbing.
    pub on_ladder: bool,
    /// Ladder zones that the player overlaps.
    pub over_ladders: HashSet<u64>,
}

/// A player record as a mathematical value.
pub struct PlayerState {
    pub on_ground: bool,
    pub on_ladder: bool,
    pub ladders: Set<u64>,
}

impl View for Player {
    type V = PlayerState;

    open spec fn view(&self) -> PlayerState {
        PlayerState {
            on_ground: self.on_ground,
            on_ladder: self.on_ladder,
            ladders: self.over_ladders@,
        }
    }
}

impl PlayerState {
    /// The state of a player that has just been spawned.
    pub open spec fn spawned() -> PlayerState {
        PlayerState { on_ground: false, on_ladder: false, ladders: Set::empty() }
    }

    /// A player climbs only while it overlaps a ladder. The locomotion
    /// controller leaves every player in such a state; between the contact
    /// tracker and the controller a climbing player may for a moment overlap
    /// none.
    pub open spec fn settled(self) -> bool {
        self.on_ladder ==> !self.ladders.is_empty()
    }
}

impl Player {
    /// A freshly spawned player: in the air, not climbing, on no ladder.
    pub fn new() -> (player: Player)
        ensures
            player@ == PlayerState::spawned(),
            player@.settled(),
    {
        Player { on_ground: false, on_ladder: false, over_ladders: HashSet::new() }
    }

    /// Whether the player overlaps the ladder zone `ladder`.
    pub fn is_over(&self, ladder: u64) -> (over: bool)
        ensures
            over == self@.ladders.contains(ladder),
    {
        self.over_ladders.contains(&ladder)
    }

    /// Whether the player overlaps any ladder zone.
    pub fn is_over_any_ladder(&self) -> (over: bool)
        ensures
            over == !self@.ladders.is_empty(),
    {
        !self.over_ladders.is_empty()
    }
}

impl Default for Player {
    fn default() -> (player: Player)
        ensures
            player@ == PlayerState::spawned(),
    {
        Player::new()
    }
}

} // verus!
