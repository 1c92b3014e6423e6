use platformer::contact::{
    foot_rays, ground_detection, ladder_and_pad_detection, Body, Contact, FootRay,
};
use platformer::player::Player;
use platformer::tiles::Role;
use platformer::velocity::{Velocity, VelocityWrite};
use std::collections::HashSet;

const PLAYER: u64 = 100;
const LADDER_A: u64 = 1;
const LADDER_B: u64 = 2;
const PAD: u64 = 3;
const WALL: u64 = 4;

fn player_body() -> Body {
    Body { entity: PLAYER, role: Role::Untagged }
}

fn ladder(entity: u64) -> Body {
    Body { entity, role: Role::Ladder }
}

fn pad() -> Body {
    Body { entity: PAD, role: Role::Pad }
}

fn begin(other: Body) -> Contact {
    Contact::Started(player_body(), other)
}

fn end(other: Body) -> Contact {
    Contact::Stopped(player_body(), other)
}

fn set(ids: &[u64]) -> HashSet<u64> {
    ids.iter().copied().collect()
}

fn nothing() -> VelocityWrite {
    VelocityWrite { horizontal: None, vertical: None }
}

fn bounce() -> VelocityWrite {
    VelocityWrite { horizontal: None, vertical: Some(350) }
}

#[test]
fn new_player_is_in_the_air_on_no_ladder() {
    let player = Player::new();
    assert!(!player.on_ground);
    assert!(!player.on_ladder);
    assert!(player.over_ladders.is_empty());
    assert!(!player.is_over_any_ladder());
    let other = Player::default();
    assert!(!other.on_ground && !other.on_ladder && other.over_ladders.is_empty());
}

#[test]
fn foot_rays_start_under_the_feet_and_look_down() {
    let (right, left) = foot_rays();
    assert_eq!(
        right,
        FootRay {
            origin_x_tenths: 90,
            origin_y_tenths: -121,
            ray_x_tenths: 0,
            ray_y_tenths: -20,
            solid: true
        }
    );
    assert_eq!(
        left,
        FootRay {
            origin_x_tenths: -90,
            origin_y_tenths: -121,
            ray_x_tenths: 0,
            ray_y_tenths: -20,
            solid: true
        }
    );
}

#[test]
fn ground_is_lost_when_no_ray_hits() {
    let mut player = Player::new();
    player.on_ground = true;
    ground_detection(&mut player, false, false);
    assert!(!player.on_ground);
}

#[test]
fn ground_is_found_by_either_ray() {
    let mut player = Player::new();
    ground_detection(&mut player, true, false);
    assert!(player.on_ground);
    ground_detection(&mut player, false, true);
    assert!(player.on_ground);
    ground_detection(&mut player, true, true);
    assert!(player.on_ground);
    ground_detection(&mut player, false, false);
    assert!(!player.on_ground);
}

#[test]
fn ground_detection_leaves_ladders_alone() {
    let mut player = Player::new();
    player.on_ladder = true;
    player.over_ladders.insert(LADDER_A);
    ground_detection(&mut player, true, false);
    assert!(player.on_ladder);
    assert_eq!(player.over_ladders, set(&[LADDER_A]));
}

#[test]
fn enter_a_enter_b_leave_a_leaves_b() {
    let mut player = Player::new();
    let events = vec![begin(ladder(LADDER_A)), begin(ladder(LADDER_B)), end(ladder(LADDER_A))];
    let write = ladder_and_pad_detection(&mut player, PLAYER, &events);
    assert_eq!(player.over_ladders, set(&[LADDER_B]));
    assert_eq!(write, nothing());
}

#[test]
fn enter_a_leave_a_enter_b_leaves_b() {
    let mut player = Player::new();
    let events = vec![begin(ladder(LADDER_A)), end(ladder(LADDER_A)), begin(ladder(LADDER_B))];
    ladder_and_pad_detection(&mut player, PLAYER, &events);
    assert_eq!(player.over_ladders, set(&[LADDER_B]));
}

#[test]
fn enter_b_enter_a_leave_a_leaves_b() {
    let mut player = Player::new();
    let events = vec![begin(ladder(LADDER_B)), begin(ladder(LADDER_A)), end(ladder(LADDER_A))];
    ladder_and_pad_detection(&mut player, PLAYER, &events);
    assert_eq!(player.over_ladders, set(&[LADDER_B]));
}

#[test]
fn leaving_before_entering_keeps_the_ladder() {
    let mut player = Player::new();
    let events = vec![end(ladder(LADDER_A)), begin(ladder(LADDER_A)), begin(ladder(LADDER_B))];
    ladder_and_pad_detection(&mut player, PLAYER, &events);
    assert_eq!(player.over_ladders, set(&[LADDER_A, LADDER_B]));
}

#[test]
fn leaving_an_unknown_ladder_changes_nothing() {
    let mut player = Player::new();
    player.over_ladders.insert(LADDER_B);
    let events = vec![end(ladder(LADDER_A)), end(ladder(77))];
    let write = ladder_and_pad_detection(&mut player, PLAYER, &events);
    assert_eq!(player.over_ladders, set(&[LADDER_B]));
    assert_eq!(write, nothing());
}

#[test]
fn entering_a_ladder_twice_counts_once() {
    let mut player = Player::new();
    let events = vec![begin(ladder(LADDER_A)), begin(ladder(LADDER_A)), end(ladder(LADDER_A))];
    ladder_and_pad_detection(&mut player, PLAYER, &events);
    assert!(player.over_ladders.is_empty());
}

#[test]
fn ladders_carry_over_between_batches() {
    let mut player = Player::new();
    ladder_and_pad_detection(&mut player, PLAYER, &vec![begin(ladder(LADDER_A))]);
    assert!(player.is_over(LADDER_A));
    assert!(player.is_over_any_ladder());
    ladder_and_pad_detection(&mut player, PLAYER, &vec![begin(ladder(LADDER_B))]);
    assert_eq!(player.over_ladders, set(&[LADDER_A, LADDER_B]));
    ladder_and_pad_detection(&mut player, PLAYER, &Vec::new());
    assert_eq!(player.over_ladders, set(&[LADDER_A, LADDER_B]));
    ladder_and_pad_detection(&mut player, PLAYER, &vec![end(ladder(LADDER_A))]);
    assert!(!player.is_over(LADDER_A));
    assert!(player.is_over(LADDER_B));
}

#[test]
fn player_may_be_named_second() {
    let mut player = Player::new();
    let events = vec![
        Contact::Started(ladder(LADDER_A), player_body()),
        Contact::Started(ladder(LADDER_B), player_body()),
        Contact::Stopped(ladder(LADDER_A), player_body()),
        Contact::Started(pad(), player_body()),
    ];
    let write = ladder_and_pad_detection(&mut player, PLAYER, &events);
    assert_eq!(player.over_ladders, set(&[LADDER_B]));
    assert_eq!(write, bounce());
}

#[test]
fn contacts_between_others_are_ignored() {
    let mut player = Player::new();
    let stranger = Body { entity: 55, role: Role::Untagged };
    let events = vec![
        Contact::Started(stranger, ladder(LADDER_A)),
        Contact::Started(pad(), stranger),
        Contact::Stopped(stranger, ladder(LADDER_B)),
    ];
    player.over_ladders.insert(LADDER_B);
    let write = ladder_and_pad_detection(&mut player, PLAYER, &events);
    assert_eq!(player.over_ladders, set(&[LADDER_B]));
    assert_eq!(write, nothing());
}

#[test]
fn walls_and_untagged_bodies_change_nothing() {
    let mut player = Player::new();
    let wall = Body { entity: WALL, role: Role::Wall };
    let plain = Body { entity: 9, role: Role::Untagged };
    let events = vec![begin(wall), begin(plain), end(wall), end(plain)];
    let write = ladder_and_pad_detection(&mut player, PLAYER, &events);
    assert!(player.over_ladders.is_empty());
    assert_eq!(write, nothing());
}

#[test]
fn only_the_tag_makes_a_ladder() {
    let mut player = Player::new();
    player.over_ladders.insert(LADDER_A);
    let untagged_now = Body { entity: LADDER_A, role: Role::Untagged };
    ladder_and_pad_detection(&mut player, PLAYER, &vec![end(untagged_now)]);
    assert_eq!(player.over_ladders, set(&[LADDER_A]));
}

#[test]
fn pad_touch_asks_for_pad_speed() {
    let mut player = Player::new();
    let write = ladder_and_pad_detection(&mut player, PLAYER, &vec![begin(pad())]);
    assert_eq!(write, bounce());
    assert_eq!(write.vertical, Some(350));
    assert_eq!(write.horizontal, None);
    assert!(player.over_ladders.is_empty());
}

#[test]
fn pad_speed_overrides_what_was_there() {
    let mut player = Player::new();
    let write = ladder_and_pad_detection(&mut player, PLAYER, &vec![begin(pad())]);
    assert_eq!(write.apply(Velocity { x: 100, y: 200 }), Velocity { x: 100, y: 350 });
    assert_eq!(write.apply(Velocity { x: -100, y: -900 }), Velocity { x: -100, y: 350 });
    assert_eq!(write.apply(Velocity { x: 0, y: 1000 }), Velocity { x: 0, y: 350 });
}

#[test]
fn several_pad_touches_ask_for_the_same_speed() {
    let mut player = Player::new();
    let other_pad = Body { entity: 33, role: Role::Pad };
    let events = vec![begin(pad()), begin(other_pad), begin(pad())];
    let write = ladder_and_pad_detection(&mut player, PLAYER, &events);
    assert_eq!(write, bounce());
}

#[test]
fn leaving_a_pad_asks_for_nothing() {
    let mut player = Player::new();
    let write = ladder_and_pad_detection(&mut player, PLAYER, &vec![end(pad())]);
    assert_eq!(write, nothing());
}

#[test]
fn contacts_leave_ground_and_climb_flags_alone() {
    let mut player = Player::new();
    player.on_ground = true;
    player.on_ladder = true;
    player.over_ladders.insert(LADDER_A);
    ladder_and_pad_detection(&mut player, PLAYER, &vec![end(ladder(LADDER_A)), begin(pad())]);
    assert!(player.on_ground);
    assert!(player.on_ladder);
    assert!(player.over_ladders.is_empty());
}

#[test]
fn contact_reads_its_sides() {
    let c = begin(ladder(LADDER_A));
    assert!(c.is_start());
    assert_eq!(c.partner_of(PLAYER), Some(ladder(LADDER_A)));
    assert_eq!(c.partner_of(LADDER_A), Some(player_body()));
    assert_eq!(c.partner_of(12345), None);
    let d = Contact::Stopped(pad(), player_body());
    assert!(!d.is_start());
    assert_eq!(d.partner_of(PLAYER), Some(pad()));
}

#[test]
fn the_first_side_is_taken_when_both_are_the_player() {
    let twin = Body { entity: PLAYER, role: Role::Ladder };
    let c = Contact::Started(player_body(), twin);
    assert_eq!(c.partner_of(PLAYER), Some(twin));
    let d = Contact::Started(twin, player_body());
    assert_eq!(d.partner_of(PLAYER), Some(player_body()));
}

#[test]
fn two_batches_leave_what_one_batch_leaves() {
    let earlier = vec![begin(ladder(LADDER_A)), begin(pad()), begin(ladder(LADDER_B))];
    let later = vec![end(ladder(LADDER_A)), end(pad()), begin(ladder(7))];
    let mut split = Player::new();
    let first = ladder_and_pad_detection(&mut split, PLAYER, &earlier);
    let second = ladder_and_pad_detection(&mut split, PLAYER, &later);
    let mut joined = Player::new();
    let all: Vec<Contact> = earlier.iter().chain(later.iter()).copied().collect();
    let whole = ladder_and_pad_detection(&mut joined, PLAYER, &all);
    assert_eq!(split.over_ladders, joined.over_ladders);
    assert_eq!(joined.over_ladders, set(&[LADDER_B, 7]));
    assert_eq!(first.chain(second), whole);
    assert_eq!(whole, bounce());
}

#[test]
fn foot_rays_start_just_under_the_player_box() {
    let shape = platformer::tiles::player_descriptor().shape;
    let (right, left) = foot_rays();
    for ray in [right, left] {
        assert_eq!(ray.origin_y_tenths, -(10 * shape.half_height as i32) - 1);
        assert!(ray.origin_x_tenths.unsigned_abs() < 10 * shape.half_width);
        assert_eq!(ray.ray_x_tenths, 0);
        assert!(ray.ray_y_tenths < 0);
        assert!(ray.solid);
    }
    assert_eq!(left.origin_x_tenths, -right.origin_x_tenths);
}
