//! Contact tracker: keeps the player's ground contact and the set of ladder
//! zones it overlaps up to date with what the physics engine reports.

use crate::player::{Player, PlayerState};
use crate::tiles::{CollisionDescriptor, Role};
use crate::velocity::{Velocity, VelocityWrite, PAD_SPEED};
use vstd::prelude::*;

verus! {

broadcast use vstd::std_specs::hash::group_hash_axioms;

/// Where the right foot ray starts, right of the body's centre.
pub const RIGHT_FOOT_X_TENTHS: i32 = 90;

/// Where the left foot ray starts, left of the body's centre.
pub const LEFT_FOOT_X_TENTHS: i32 = -90;

/// Where both foot rays start, below the body's centre: a tenth of a pixel
/// under the player's box.
pub const FOOT_Y_TENTHS: i32 = -121;

/// How far down a foot ray looks.
pub const FOOT_RAY_Y_TENTHS: i32 = -20;

/// One side of a contact: the handle of the body's entity and the tag that
/// the entity carries at the time of the report.
#[derive(Clone, Copy, Debug, PartialEq, Eq, Structural)]
pub struct Body {
    pub entity: u64,
    pub role: Role,
}

/// A report that two bodies began or stopped touching.
#[derive(Clone, Copy, Debug, PartialEq, Eq, Structural)]
pub enum Contact {
    Started(Body, Body),
    Stopped(Body, Body),
}

/// A ray cast from the player's body, in tenths of a pixel and relative to the
/// body's centre.
#[derive(Clone, Copy, Debug, PartialEq, Eq, Structural)]
pub struct FootRay {
    /// Where the ray starts.
    pub origin_x_tenths: i32,
    pub origin_y_tenths: i32,
    /// Direction and reach of the ray.
    pub ray_x_tenths: i32,
    pub ray_y_tenths: i32,
    /// The ray is answered by solid geometry only.
    pub solid: bool,
}

impl FootRay {
    /// The ray under the right foot: from 9 px right of and 12.1 px below the
    /// centre, 2 px straight down.
    pub open spec fn right() -> FootRay {
        FootRay {
            origin_x_tenths: RIGHT_FOOT_X_TENTHS,
            origin_y_tenths: FOOT_Y_TENTHS,
            ray_x_tenths: 0,
            ray_y_tenths: FOOT_RAY_Y_TENTHS,
            solid: true,
        }
    }

    /// The ray under the left foot: the right one mirrored.
    pub open spec fn left() -> FootRay {
        FootRay {
            origin_x_tenths: LEFT_FOOT_X_TENTHS,
            origin_y_tenths: FOOT_Y_TENTHS,
            ray_x_tenths: 0,
            ray_y_tenths: FOOT_RAY_Y_TENTHS,
            solid: true,
        }
    }
}

impl Contact {
    /// The body named first.
    pub open spec fn first(self) -> Body {
        match self {
            Contact::Started(a, _) => a,
            Contact::Stopped(a, _) => a,
        }
    }

    /// The body named second.
    pub open spec fn second(self) -> Body {
        match self {
            Contact::Started(_, b) => b,
            Contact::Stopped(_, b) => b,
        }
    }

    /// The one body that is looked at when the contact is handled for
    /// `player`: the second where the first is the player, else the first
    /// where the second is the player. `None` where the player takes no part.
    pub open spec fn met_by(self, player: u64) -> Option<Body> {
        if self.first().entity == player {
            Some(self.second())
        } else if self.second().entity == player {
            Some(self.first())
        } else {
            None
        }
    }

    /// The player begins to touch the ladder zone `ladder`.
    pub open spec fn enters_ladder(self, player: u64, ladder: u64) -> bool {
        self is Started && self.met_by(player) == Some(Body { entity: ladder, role: Role::Ladder })
    }

    /// The player stops touching the ladder zone `ladder`.
    pub open spec fn leaves_ladder(self, player: u64, ladder: u64) -> bool {
        self is Stopped && self.met_by(player) == Some(Body { entity: ladder, role: Role::Ladder })
    }

    /// The player begins to touch a jump pad.
    pub open spec fn touches_pad(self, player: u64) -> bool {
        self is Started && match self.met_by(player) {
            Some(other) => other.role == Role::Pad,
            None => false,
        }
    }

    /// The body that the player met in this contact, if the player is one of
    /// the two.
    pub fn partner_of(&self, player: u64) -> (other: Option<Body>)
        ensures
            other == self.met_by(player),
    {
        let (a, b): (Body, Body) = match self {
            Contact::Started(a, b) => (*a, *b),
            Contact::Stopped(a, b) => (*a, *b),
        };
        if a.entity == player {
            Some(b)
        } else if b.entity == player {
            Some(a)
        } else {
            None
        }
    }

    /// Whether the contact is the beginning of a touch.
    pub fn is_start(&self) -> (start: bool)
        ensures
            start == (*self is Started),
    {
        match self {
            Contact::Started(_, _) => true,
            Contact::Stopped(_, _) => false,
        }
    }
}

/// The ladder zones overlapped after one contact.
pub open spec fn ladders_after_contact(ladders: Set<u64>, player: u64, contact: Contact) -> Set<
    u64,
> {
    match contact.met_by(player) {
        Some(other) => if other.role == Role::Ladder {
            if contact is Started {
                ladders.insert(other.entity)
            } else {
                ladders.remove(other.entity)
            }
        } else {
            ladders
        },
        None => ladders,
    }
}

/// The ladder zones overlapped after a batch of contacts, taken in the order
/// of delivery.
pub open spec fn ladders_after(ladders: Set<u64>, player: u64, contacts: Seq<Contact>) -> Set<u64>
    decreases contacts.len(),
{
    if contacts.len() == 0 {
        ladders
    } else {
        ladders_after_contact(
            ladders_after(ladders, player, contacts.drop_last()),
            player,
            contacts.last(),
        )
    }
}

/// Some contact of the batch is the player beginning to touch a jump pad.
pub open spec fn pad_touched(player: u64, contacts: Seq<Contact>) -> bool {
    exists|i: int| 0 <= i < contacts.len() && (#[trigger] contacts[i]).touches_pad(player)
}

/// What a batch of contacts asks of the player's velocity: the pad speed
/// upward where a pad was touched, nothing else.
pub open spec fn pad_write(player: u64, contacts: Seq<Contact>) -> VelocityWrite {
    if pad_touched(player, contacts) {
        VelocityWrite::lift(PAD_SPEED)
    } else {
        VelocityWrite::keep()
    }
}

/// The player's state after a batch of contacts.
pub open spec fn after_contacts(state: PlayerState, player: u64, contacts: Seq<Contact>)
    -> PlayerState {
    PlayerState { ladders: ladders_after(state.ladders, player, contacts), ..state }
}

/// The player's state after the two foot rays were cast.
pub open spec fn after_rays(state: PlayerState, right_hit: bool, left_hit: bool) -> PlayerState {
    PlayerState { on_ground: right_hit || left_hit, ..state }
}

/// The two rays that are cast each tick to look for ground under the player,
/// the right one first.
pub fn foot_rays() -> (rays: (FootRay, FootRay))
    ensures
        rays.0 == FootRay::right(),
        rays.1 == FootRay::left(),
{
    (
        FootRay {
            origin_x_tenths: RIGHT_FOOT_X_TENTHS,
            origin_y_tenths: FOOT_Y_TENTHS,
            ray_x_tenths: 0,
            ray_y_tenths: FOOT_RAY_Y_TENTHS,
            solid: true,
        },
        FootRay {
            origin_x_tenths: LEFT_FOOT_X_TENTHS,
            origin_y_tenths: FOOT_Y_TENTHS,
            ray_x_tenths: 0,
            ray_y_tenths: FOOT_RAY_Y_TENTHS,
            solid: true,
        },
    )
}

/// Takes the answers of the two foot rays. The player stands on ground
/// exactly if one of them hit; what it stood on a tick ago is forgotten.
pub fn ground_detection(player: &mut Player, right_hit: bool, left_hit: bool)
    ensures
        final(player)@ == after_rays(old(player)@, right_hit, left_hit),
        final(player)@.on_ground == (right_hit || left_hit),
{
    player.on_ground = right_hit || left_hit;
}

/// Handles the contacts of one tick for the player whose entity is `entity`,
/// in the order of delivery.
///
/// A ladder zone that the player begins to touch joins the overlap set, one
/// that it stops touching leaves it; a zone that is not in the set is left
/// without complaint. A jump pad that the player begins to touch asks for the
/// pad speed upward, each time anew. Contacts between other bodies, and
/// bodies with another tag, change nothing.
pub fn ladder_and_pad_detection(player: &mut Player, entity: u64, contacts: &Vec<Contact>) -> (write:
    VelocityWrite)
    ensures
        final(player)@ == after_contacts(old(player)@, entity, contacts@),
        write == pad_write(entity, contacts@),
{
    let mut bounce: bool = false;
    let mut i: usize = 0;
    while i < contacts.len()
        invariant
            0 <= i <= contacts.len(),
            player.on_ground == old(player).on_ground,
            player.on_ladder == old(player).on_ladder,
            player.over_ladders@ == ladders_after(
                old(player).over_ladders@,
                entity,
                contacts@.take(i as int),
            ),
            bounce == pad_touched(entity, contacts@.take(i as int)),
        decreases contacts.len() - i,
    {
        let contact: Contact = contacts[i];
        proof {
            let before = contacts@.take(i as int);
            let upto = contacts@.take(i + 1);
            assert(upto.drop_last() =~= before);
            assert(upto.last() == contact);
            if pad_touched(entity, before) {
                let k = choose|k: int| 0 <= k < before.len() && (#[trigger] before[k]).touches_pad(entity);
                assert(upto[k].touches_pad(entity));
            }
            if contact.touches_pad(entity) {
                assert(upto[i as int].touches_pad(entity));
            }
            if pad_touched(entity, upto) {
                let k = choose|k: int| 0 <= k < upto.len() && (#[trigger] upto[k]).touches_pad(entity);
                if k < i {
                    assert(before[k].touches_pad(entity));
                }
            }
        }
        match contact.partner_of(entity) {
            Some(other) => {
                match other.role {
                    Role::Ladder => {
                        if contact.is_start() {
                            player.over_ladders.insert(other.entity);
                        } else {
                            player.over_ladders.remove(&other.entity);
                        }
                    },
                    Role::Pad => {
                        if contact.is_start() {
                            bounce = true;
                        }
                    },
                    _ => {},
                }
            },
            None => {},
        }
        i = i + 1;
    }
    proof {
        assert(contacts@.take(contacts.len() as int) =~= contacts@);
    }
    if bounce {
        VelocityWrite::vertical_only(PAD_SPEED)
    } else {
        VelocityWrite::nothing()
    }
}

/// The contact is the player beginning or ceasing to touch the ladder zone
/// `ladder`.
pub open spec fn concerns_ladder(contact: Contact, player: u64, ladder: u64) -> bool {
    contact.enters_ladder(player, ladder) || contact.leaves_ladder(player, ladder)
}

/// One contact changes the overlap set by the one zone it concerns, if it
/// concerns one: every other zone is in the set after it exactly if it was
/// before.
pub proof fn lemma_contact_touches_one_ladder(
    ladders: Set<u64>,
    player: u64,
    contact: Contact,
    ladder: u64,
)
    ensures
        contact.enters_ladder(player, ladder) ==> ladders_after_contact(
            ladders,
            player,
            contact,
        ).contains(ladder),
        contact.leaves_ladder(player, ladder) ==> !ladders_after_contact(
            ladders,
            player,
            contact,
        ).contains(ladder),
        !concerns_ladder(contact, player, ladder) ==> (ladders_after_contact(
            ladders,
            player,
            contact,
        ).contains(ladder) <==> ladders.contains(ladder)),
{
}

/// Ceasing to touch a ladder zone that is not in the overlap set changes
/// nothing.
pub proof fn lemma_leaving_unknown_ladder_changes_nothing(
    ladders: Set<u64>,
    player: u64,
    contact: Contact,
    ladder: u64,
)
    requires
        contact.leaves_ladder(player, ladder),
        !ladders.contains(ladder),
    ensures
        ladders_after_contact(ladders, player, contact) == ladders,
{
    assert(ladders_after_contact(ladders, player, contact) =~= ladders);
}

/// Whether a ladder zone is overlapped after a batch of contacts is decided
/// by the last contact of the batch that concerns it: the zone is in the set
/// exactly if that contact was the beginning of a touch.
pub proof fn lemma_last_contact_decides(
    ladders: Set<u64>,
    player: u64,
    contacts: Seq<Contact>,
    ladder: u64,
    last: int,
)
    requires
        0 <= last < contacts.len(),
        concerns_ladder(contacts[last], player, ladder),
        forall|j: int|
            last < j < contacts.len() ==> !concerns_ladder(#[trigger] contacts[j], player, ladder),
    ensures
        ladders_after(ladders, player, contacts).contains(ladder) <==> contacts[last].enters_ladder(
            player,
            ladder,
        ),
    decreases contacts.len(),
{
    let shorter = contacts.drop_last();
    lemma_contact_touches_one_ladder(
        ladders_after(ladders, player, shorter),
        player,
        contacts.last(),
        ladder,
    );
    if last < contacts.len() - 1 {
        assert(shorter[last] == contacts[last]);
        assert forall|j: int| last < j < shorter.len() implies !concerns_ladder(
            #[trigger] shorter[j],
            player,
            ladder,
        ) by {
            assert(shorter[j] == contacts[j]);
        }
        lemma_last_contact_decides(ladders, player, shorter, ladder, last);
    }
}

/// A ladder zone that no contact of a batch concerns is overlapped after the
/// batch exactly if it was before.
pub proof fn lemma_unconcerned_ladder_stays(
    ladders: Set<u64>,
    player: u64,
    contacts: Seq<Contact>,
    ladder: u64,
)
    requires
        forall|j: int|
            0 <= j < contacts.len() ==> !concerns_ladder(#[trigger] contacts[j], player, ladder),
    ensures
        ladders_after(ladders, player, contacts).contains(ladder) <==> ladders.contains(ladder),
    decreases contacts.len(),
{
    if contacts.len() > 0 {
        let shorter = contacts.drop_last();
        lemma_contact_touches_one_ladder(
            ladders_after(ladders, player, shorter),
            player,
            contacts.last(),
            ladder,
        );
        assert forall|j: int| 0 <= j < shorter.len() implies !concerns_ladder(
            #[trigger] shorter[j],
            player,
            ladder,
        ) by {
            assert(shorter[j] == contacts[j]);
        }
        lemma_unconcerned_ladder_stays(ladders, player, shorter, ladder);
    }
}

/// Two batches handled one after the other leave what the two as one batch
/// leave: the overlap set, and whether a pad was touched.
pub proof fn lemma_batches_join(
    ladders: Set<u64>,
    player: u64,
    earlier: Seq<Contact>,
    later: Seq<Contact>,
)
    ensures
        ladders_after(ladders_after(ladders, player, earlier), player, later) == ladders_after(
            ladders,
            player,
            earlier + later,
        ),
        pad_touched(player, earlier + later) <==> pad_touched(player, earlier) || pad_touched(
            player,
            later,
        ),
    decreases later.len(),
{
    let joined = earlier + later;
    if later.len() == 0 {
        assert(joined =~= earlier);
    } else {
        assert(joined.drop_last() =~= earlier + later.drop_last());
        assert(joined.last() == later.last());
        lemma_batches_join(ladders, player, earlier, later.drop_last());
    }
    if pad_touched(player, earlier) {
        let k = choose|k: int| 0 <= k < earlier.len() && (#[trigger] earlier[k]).touches_pad(player);
        assert(joined[k].touches_pad(player));
    }
    if pad_touched(player, later) {
        let k = choose|k: int| 0 <= k < later.len() && (#[trigger] later[k]).touches_pad(player);
        assert(joined[earlier.len() + k].touches_pad(player));
    }
    if pad_touched(player, joined) {
        let k = choose|k: int| 0 <= k < joined.len() && (#[trigger] joined[k]).touches_pad(player);
        if k < earlier.len() {
            assert(earlier[k].touches_pad(player));
        } else {
            assert(later[k - earlier.len()].touches_pad(player));
        }
    }
}

/// The foot rays start a tenth of a pixel under the player's box, within its
/// width, and look straight down.
pub proof fn lemma_foot_rays_start_under_the_body()
    ensures
        FootRay::right().origin_y_tenths == FootRay::left().origin_y_tenths,
        FootRay::right().origin_y_tenths == -(10 * CollisionDescriptor::player().shape.half_height)
            - 1,
        0 < FootRay::right().origin_x_tenths < 10 * CollisionDescriptor::player().shape.half_width,
        FootRay::left().origin_x_tenths == -FootRay::right().origin_x_tenths,
        FootRay::right().ray_x_tenths == 0 && FootRay::right().ray_y_tenths < 0,
        FootRay::left().ray_x_tenths == 0 && FootRay::left().ray_y_tenths < 0,
{
}

/// The overlap set after three contacts, written out.
proof fn lemma_three_contacts(ladders: Set<u64>, player: u64, a: Contact, b: Contact, c: Contact)
    ensures
        ladders_after(ladders, player, seq![a, b, c]) == ladders_after_contact(
            ladders_after_contact(ladders_after_contact(ladders, player, a), player, b),
            player,
            c,
        ),
{
    let three = seq![a, b, c];
    let two = seq![a, b];
    let one = seq![a];
    assert(three.drop_last() =~= two);
    assert(two.drop_last() =~= one);
    assert(one.drop_last() =~= Seq::<Contact>::empty());
    assert(three.last() == c);
    assert(two.last() == b);
    assert(one.last() == a);
    reveal_with_fuel(ladders_after, 4);
}

/// Entering two different ladder zones and leaving the first of them leaves
/// the second overlapped and the first not, in whichever of the three orders
/// the contacts come in which the first zone is entered before it is left.
/// From an empty overlap set the result is the second zone alone.
pub proof fn lemma_enter_two_leave_one(
    ladders: Set<u64>,
    player: u64,
    one: u64,
    other: u64,
    enter_one: Contact,
    enter_other: Contact,
    leave_one: Contact,
)
    requires
        one != other,
        enter_one.enters_ladder(player, one),
        enter_other.enters_ladder(player, other),
        leave_one.leaves_ladder(player, one),
    ensures
        ladders_after(ladders, player, seq![enter_one, enter_other, leave_one]) == ladders.remove(
            one,
        ).insert(other),
        ladders_after(ladders, player, seq![enter_one, leave_one, enter_other]) == ladders.remove(
            one,
        ).insert(other),
        ladders_after(ladders, player, seq![enter_other, enter_one, leave_one]) == ladders.remove(
            one,
        ).insert(other),
        ladders == Set::<u64>::empty() ==> ladders.remove(one).insert(other) == set![other],
{
    let wanted = ladders.remove(one).insert(other);
    lemma_three_contacts(ladders, player, enter_one, enter_other, leave_one);
    lemma_three_contacts(ladders, player, enter_one, leave_one, enter_other);
    lemma_three_contacts(ladders, player, enter_other, enter_one, leave_one);
    assert(ladders.insert(one).insert(other).remove(one) =~= wanted);
    assert(ladders.insert(one).remove(one).insert(other) =~= wanted);
    assert(ladders.insert(other).insert(one).remove(one) =~= wanted);
    if ladders == Set::<u64>::empty() {
        assert(wanted =~= set![other]);
    }
}

/// A batch in which the player begins to touch a jump pad sets the vertical
/// speed to the pad speed, whatever the velocity was, and leaves the
/// horizontal speed alone.
pub proof fn lemma_pad_sets_pad_speed(
    player: u64,
    contacts: Seq<Contact>,
    touch: int,
    before: Velocity,
)
    requires
        0 <= touch < contacts.len(),
        contacts[touch].touches_pad(player),
    ensures
        pad_write(player, contacts) == VelocityWrite::lift(PAD_SPEED),
        pad_write(player, contacts).applied_to(before).y == 350,
        pad_write(player, contacts).applied_to(before).x == before.x,
{
}

/// A batch in which the player touches no jump pad leaves the velocity alone.
pub proof fn lemma_no_pad_no_write(player: u64, contacts: Seq<Contact>, before: Velocity)
    requires
        forall|i: int| 0 <= i < contacts.len() ==> !(#[trigger] contacts[i]).touches_pad(player),
    ensures
        pad_write(player, contacts) == VelocityWrite::keep(),
        pad_write(player, contacts).applied_to(before) == before,
{
}

} // verus!
