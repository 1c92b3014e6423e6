//! Locomotion controller: from the keys and the player's contact state to the
//! velocity that is asked for, and to whether the player climbs.

use crate::player::{Player, PlayerState};
use crate::velocity::{VelocityWrite, CLIMB_SPEED, JUMP_SPEED, RUN_SPEED};
use vstd::prelude::*;

verus! {

broadcast use vstd::std_specs::hash::group_hash_axioms;

/// The keys of one tick. The four directions say whether the key is held;
/// `jump` says whether the jump key went down in this very tick.
#[derive(Clone, Copy, Debug, PartialEq, Eq, Structural)]
pub struct InputState {
    pub left: bool,
    pub right: bool,
    pub up: bool,
    pub down: bool,
    pub jump: bool,
}

/// Two opposite keys as a direction: 1, -1, or 0 where both or neither is
/// held.
pub open spec fn axis(forward: bool, backward: bool) -> int {
    (if forward {
        1int
    } else {
        0int
    }) - (if backward {
        1int
    } else {
        0int
    })
}

/// The horizontal speed that the keys ask for.
pub open spec fn run_speed(input: InputState) -> i32 {
    (axis(input.right, input.left) * RUN_SPEED) as i32
}

/// The vertical speed that the keys ask for on a ladder.
pub open spec fn climb_speed(input: InputState) -> i32 {
    (axis(input.up, input.down) * CLIMB_SPEED) as i32
}

/// The player jumps in this tick: the jump key went down while it stood on
/// ground or climbed.
pub open spec fn jumps(state: PlayerState, input: InputState) -> bool {
    (state.on_ground || state.on_ladder) && input.jump
}

/// The vertical speed that the controller sets, if it sets one: the jump
/// speed where the player jumps, else the climbing speed where it climbs.
/// Off the ladder and without a jump the vertical speed is left to gravity.
pub open spec fn vertical_speed(state: PlayerState, input: InputState) -> Option<i32> {
    if jumps(state, input) {
        Some(JUMP_SPEED)
    } else if state.on_ladder {
        Some(climb_speed(input))
    } else {
        None
    }
}

/// What the controller asks of the player's velocity.
pub open spec fn movement_write(state: PlayerState, input: InputState) -> VelocityWrite {
    VelocityWrite { horizontal: Some(run_speed(input)), vertical: vertical_speed(state, input) }
}

/// Whether the player climbs after the tick. Over no ladder it does not.
/// Over a ladder, a held up or down key makes it climb; without one it goes
/// on climbing unless it jumped.
pub open spec fn climbs_next(state: PlayerState, input: InputState) -> bool {
    if state.ladders.is_empty() {
        false
    } else if input.up || input.down {
        true
    } else {
        state.on_ladder && !jumps(state, input)
    }
}

/// The player's state after the controller ran.
pub open spec fn after_movement(state: PlayerState, input: InputState) -> PlayerState {
    PlayerState { on_ladder: climbs_next(state, input), ..state }
}

/// Runs the controller for one tick.
///
/// The horizontal speed follows the left and right keys. A climbing player's
/// vertical speed follows the up and down keys. A jump from the ground or from
/// a ladder sets the jump speed and ends the climb, and is judged by the state
/// before this call. Last, whether the player climbs is settled for the next
/// tick from the ladder zones it overlaps now.
pub fn movement(player: &mut Player, input: InputState) -> (write: VelocityWrite)
    ensures
        final(player)@ == after_movement(old(player)@, input),
        write == movement_write(old(player)@, input),
        final(player)@.settled(),
{
    let right: i32 = if input.right {
        1
    } else {
        0
    };
    let left: i32 = if input.left {
        1
    } else {
        0
    };
    let horizontal: i32 = (right - left) * RUN_SPEED;
    let mut vertical: Option<i32> = None;
    if player.on_ladder {
        let up: i32 = if input.up {
            1
        } else {
            0
        };
        let down: i32 = if input.down {
            1
        } else {
            0
        };
        vertical = Some((up - down) * CLIMB_SPEED);
    }
    if (player.on_ground || player.on_ladder) && input.jump {
        vertical = Some(JUMP_SPEED);
        player.on_ladder = false;
    }
    if player.over_ladders.is_empty() {
        player.on_ladder = false;
    } else if input.up || input.down {
        player.on_ladder = true;
    }
    VelocityWrite { horizontal: Some(horizontal), vertical }
}

/// Left and right cancel: with both keys or neither the player stands still,
/// with one it runs at the running speed in that key's direction.
pub proof fn lemma_run_speed_by_keys(input: InputState)
    ensures
        input.right == input.left ==> run_speed(input) == 0,
        input.right && !input.left ==> run_speed(input) == 100,
        input.left && !input.right ==> run_speed(input) == -100,
        movement_write(PlayerState::spawned(), input).horizontal == Some(run_speed(input)),
{
}

/// Climbing takes a ladder and a direction. Over no ladder the player does
/// not climb after the tick, whatever the keys. Over a ladder with up or down
/// held it does. With neither held it never starts to climb, and it goes on
/// as it was unless a jump ended the climb. A climb begins only over a ladder
/// and with up or down held.
pub proof fn lemma_climbing_needs_ladder_and_direction(state: PlayerState, input: InputState)
    ensures
        state.ladders.is_empty() ==> !after_movement(state, input).on_ladder,
        !state.ladders.is_empty() && (input.up || input.down) ==> after_movement(
            state,
            input,
        ).on_ladder,
        !input.up && !input.down && after_movement(state, input).on_ladder ==> state.on_ladder,
        !state.on_ladder && after_movement(state, input).on_ladder ==> !state.ladders.is_empty()
            && (input.up || input.down),
        !state.ladders.is_empty() && !input.up && !input.down && !(state.on_ladder && input.jump)
            ==> after_movement(state, input).on_ladder == state.on_ladder,
{
}

/// A jump sets the jump speed, from the ground and from a ladder alike, and
/// ends the climb unless the player is over a ladder with up or down held,
/// which makes it climb again at once.
pub proof fn lemma_jump_overrides_climbing(state: PlayerState, input: InputState)
    requires
        state.on_ground || state.on_ladder,
        input.jump,
    ensures
        movement_write(state, input).vertical == Some(200i32),
        state.ladders.is_empty() || (!input.up && !input.down) ==> !after_movement(
            state,
            input,
        ).on_ladder,
{
}

/// Without a jump a climbing player moves as the up and down keys say, and a
/// player that does not climb is left to gravity.
pub proof fn lemma_vertical_speed_without_jump(state: PlayerState, input: InputState)
    requires
        !jumps(state, input),
    ensures
        state.on_ladder && input.up == input.down ==> movement_write(state, input).vertical
            == Some(0i32),
        state.on_ladder && input.up && !input.down ==> movement_write(state, input).vertical
            == Some(100i32),
        state.on_ladder && input.down && !input.up ==> movement_write(state, input).vertical
            == Some(-100i32),
        !state.on_ladder ==> movement_write(state, input).vertical is None,
{
}

/// After the controller ran, a player that climbs overlaps a ladder.
pub proof fn lemma_movement_settles(state: PlayerState, input: InputState)
    ensures
        after_movement(state, input).settled(),
{
}

} // verus!
