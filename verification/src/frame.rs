//! One tick of the player: the stages in their fixed order.
//!
//! The physics engine steps first and leaves its ray answers and contact
//! reports. Then the contact tracker runs, ground before contacts, and the
//! locomotion controller after it. Where two stages set the same component of
//! the velocity, the later stage's value stands.

use crate::contact::{
    after_contacts, after_rays, ground_detection, ladder_and_pad_detection, pad_touched,
    pad_write, Contact,
};
use crate::locomotion::{
    after_movement, movement, movement_write, run_speed, vertical_speed, InputState,
};
use crate::player::{Player, PlayerState};
use crate::velocity::{Velocity, VelocityWrite};
use vstd::prelude::*;

verus! {

/// The player's state when the controller runs: after the rays and the
/// contacts of the tick.
pub open spec fn contact_state(
    state: PlayerState,
    entity: u64,
    right_hit: bool,
    left_hit: bool,
    contacts: Seq<Contact>,
) -> PlayerState {
    after_contacts(after_rays(state, right_hit, left_hit), entity, contacts)
}

/// The player's state after a whole tick.
pub open spec fn after_tick(
    state: PlayerState,
    entity: u64,
    right_hit: bool,
    left_hit: bool,
    contacts: Seq<Contact>,
    input: InputState,
) -> PlayerState {
    after_movement(contact_state(state, entity, right_hit, left_hit, contacts), input)
}

/// What a whole tick asks of the player's velocity: the pad's write, then the
/// controller's.
pub open spec fn tick_write(
    state: PlayerState,
    entity: u64,
    right_hit: bool,
    left_hit: bool,
    contacts: Seq<Contact>,
    input: InputState,
) -> VelocityWrite {
    pad_write(entity, contacts).followed_by(
        movement_write(contact_state(state, entity, right_hit, left_hit, contacts), input),
    )
}

/// Runs one tick for the player whose entity is `entity`: ground detection
/// from the two ray answers, the contacts in the order of delivery, then the
/// controller. Returns what is to be written to the player's velocity.
pub fn tick(
    player: &mut Player,
    entity: u64,
    right_hit: bool,
    left_hit: bool,
    contacts: &Vec<Contact>,
    input: InputState,
) -> (write: VelocityWrite)
    ensures
        final(player)@ == after_tick(old(player)@, entity, right_hit, left_hit, contacts@, input),
        write == tick_write(old(player)@, entity, right_hit, left_hit, contacts@, input),
        final(player)@.settled(),
{
    ground_detection(player, right_hit, left_hit);
    let bounce: VelocityWrite = ladder_and_pad_detection(player, entity, contacts);
    let steer: VelocityWrite = movement(player, input);
    bounce.chain(steer)
}

/// Runs one tick for the player of the world, if the world has one. In a
/// world without a player the tick does nothing and asks for nothing.
///
/// In the contract `present@` is the player's state before the call and
/// `final(present)@` its state after it.
pub fn tick_if_present(
    player: Option<&mut Player>,
    entity: u64,
    right_hit: bool,
    left_hit: bool,
    contacts: &Vec<Contact>,
    input: InputState,
) -> (write: Option<VelocityWrite>)
    ensures
        match player {
            Some(present) => {
                &&& final(present)@ == after_tick(
                    present@,
                    entity,
                    right_hit,
                    left_hit,
                    contacts@,
                    input,
                )
                &&& write == Some(
                    tick_write(present@, entity, right_hit, left_hit, contacts@, input),
                )
                &&& final(present)@.settled()
            },
            None => write is None,
        },
{
    match player {
        Some(present) => Some(tick(present, entity, right_hit, left_hit, contacts, input)),
        None => None,
    }
}

/// Ground contact is taken anew each tick: after a tick the player stands on
/// ground exactly if a foot ray hit in this tick, whatever it stood on
/// before.
pub proof fn lemma_ground_is_not_sticky(
    state: PlayerState,
    entity: u64,
    right_hit: bool,
    left_hit: bool,
    contacts: Seq<Contact>,
    input: InputState,
)
    ensures
        after_rays(state, right_hit, left_hit).on_ground == (right_hit || left_hit),
        after_tick(state, entity, right_hit, left_hit, contacts, input).on_ground == (right_hit
            || left_hit),
        !right_hit && !left_hit ==> !after_tick(
            state,
            entity,
            right_hit,
            left_hit,
            contacts,
            input,
        ).on_ground,
{
}

/// Within a tick the controller writes after the pad. Where the controller
/// sets a vertical speed, by a jump or on a ladder, that speed stands, pad or
/// no pad. Where it sets none, a touched pad's speed stands, whatever the
/// velocity was before the tick.
pub proof fn lemma_later_write_stands(
    state: PlayerState,
    entity: u64,
    right_hit: bool,
    left_hit: bool,
    contacts: Seq<Contact>,
    input: InputState,
    before: Velocity,
)
    ensures
        ({
            let at_movement = contact_state(state, entity, right_hit, left_hit, contacts);
            let write = tick_write(state, entity, right_hit, left_hit, contacts, input);
            &&& write.applied_to(before).x == run_speed(input)
            &&& vertical_speed(at_movement, input) is Some ==> write.vertical == vertical_speed(
                at_movement,
                input,
            )
            &&& vertical_speed(at_movement, input) is None && pad_touched(entity, contacts)
                ==> write.applied_to(before).y == 350
            &&& vertical_speed(at_movement, input) is None && !pad_touched(entity, contacts)
                ==> write.applied_to(before).y == before.y
        }),
{
}

/// A tick leaves the player settled: it climbs only over a ladder.
pub proof fn lemma_tick_settles(
    state: PlayerState,
    entity: u64,
    right_hit: bool,
    left_hit: bool,
    contacts: Seq<Contact>,
    input: InputState,
)
    ensures
        after_tick(state, entity, right_hit, left_hit, contacts, input).settled(),
{
}

} // verus!
