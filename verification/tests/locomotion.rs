use platformer::locomotion::{movement, InputState};
use platformer::player::Player;
use platformer::velocity::{CLIMB_SPEED, JUMP_SPEED, PAD_SPEED, RUN_SPEED};

fn keys() -> InputState {
    InputState { left: false, right: false, up: false, down: false, jump: false }
}

fn player(on_ground: bool, on_ladder: bool, ladders: &[u64]) -> Player {
    let mut p = Player::new();
    p.on_ground = on_ground;
    p.on_ladder = on_ladder;
    for id in ladders {
        p.over_ladders.insert(*id);
    }
    p
}

#[test]
fn speeds_are_as_documented() {
    assert_eq!(RUN_SPEED, 100);
    assert_eq!(CLIMB_SPEED, 100);
    assert_eq!(JUMP_SPEED, 200);
    assert_eq!(PAD_SPEED, 350);
}

#[test]
fn left_and_right_together_cancel() {
    let mut p = Player::new();
    let write = movement(&mut p, InputState { left: true, right: true, ..keys() });
    assert_eq!(write.horizontal, Some(0));
}

#[test]
fn right_alone_runs_right() {
    let mut p = Player::new();
    let write = movement(&mut p, InputState { right: true, ..keys() });
    assert_eq!(write.horizontal, Some(100));
}

#[test]
fn left_alone_runs_left() {
    let mut p = Player::new();
    let write = movement(&mut p, InputState { left: true, ..keys() });
    assert_eq!(write.horizontal, Some(-100));
}

#[test]
fn no_key_stands_still_and_leaves_gravity_alone() {
    let mut p = Player::new();
    let write = movement(&mut p, keys());
    assert_eq!(write.horizontal, Some(0));
    assert_eq!(write.vertical, None);
}

#[test]
fn over_a_ladder_without_direction_nothing_engages() {
    let mut p = player(false, false, &[1]);
    let write = movement(&mut p, keys());
    assert!(!p.on_ladder);
    assert_eq!(write.vertical, None);
}

#[test]
fn over_a_ladder_without_direction_climbing_goes_on() {
    let mut p = player(false, true, &[1]);
    let write = movement(&mut p, keys());
    assert!(p.on_ladder);
    assert_eq!(write.vertical, Some(0));
}

#[test]
fn over_no_ladder_climbing_ends_whatever_the_keys() {
    for up in [false, true] {
        for down in [false, true] {
            for jump in [false, true] {
                let mut p = player(false, true, &[]);
                movement(&mut p, InputState { up, down, jump, ..keys() });
                assert!(!p.on_ladder);
                let mut q = player(true, false, &[]);
                movement(&mut q, InputState { up, down, jump, ..keys() });
                assert!(!q.on_ladder);
            }
        }
    }
}

#[test]
fn up_or_down_over_a_ladder_engages() {
    let mut p = player(false, false, &[1]);
    let write = movement(&mut p, InputState { up: true, ..keys() });
    assert!(p.on_ladder);
    assert_eq!(write.vertical, None);
    let mut q = player(true, false, &[1, 2]);
    movement(&mut q, InputState { down: true, ..keys() });
    assert!(q.on_ladder);
}

#[test]
fn climbing_follows_up_and_down() {
    let mut p = player(false, true, &[1]);
    assert_eq!(movement(&mut p, InputState { up: true, ..keys() }).vertical, Some(100));
    assert_eq!(movement(&mut p, InputState { down: true, ..keys() }).vertical, Some(-100));
    assert_eq!(movement(&mut p, InputState { up: true, down: true, ..keys() }).vertical, Some(0));
    assert!(p.on_ladder);
}

#[test]
fn jump_from_a_ladder_sets_jump_speed_and_ends_the_climb() {
    let mut p = player(false, true, &[]);
    let write = movement(&mut p, InputState { jump: true, ..keys() });
    assert_eq!(write.vertical, Some(200));
    assert!(!p.on_ladder);
}

#[test]
fn jump_from_a_ladder_zone_ends_the_climb_too() {
    let mut p = player(false, true, &[5]);
    let write = movement(&mut p, InputState { jump: true, ..keys() });
    assert_eq!(write.vertical, Some(200));
    assert!(!p.on_ladder);
    assert!(p.over_ladders.contains(&5));
}

#[test]
fn jump_with_a_direction_held_over_a_ladder_climbs_again() {
    let mut p = player(false, true, &[5]);
    let write = movement(&mut p, InputState { jump: true, up: true, ..keys() });
    assert_eq!(write.vertical, Some(200));
    assert!(p.on_ladder);
}

#[test]
fn jump_from_the_ground() {
    let mut p = player(true, false, &[]);
    let write = movement(&mut p, InputState { jump: true, right: true, ..keys() });
    assert_eq!(write.vertical, Some(200));
    assert_eq!(write.horizontal, Some(100));
    assert!(p.on_ground);
    assert!(!p.on_ladder);
}

#[test]
fn no_jump_in_mid_air() {
    let mut p = player(false, false, &[]);
    let write = movement(&mut p, InputState { jump: true, ..keys() });
    assert_eq!(write.vertical, None);
}

#[test]
fn movement_leaves_ground_and_ladders_alone() {
    let mut p = player(true, true, &[1, 2]);
    movement(&mut p, InputState { left: true, up: true, jump: true, ..keys() });
    assert!(p.on_ground);
    assert_eq!(p.over_ladders.len(), 2);
    assert!(p.over_ladders.contains(&1) && p.over_ladders.contains(&2));
}

#[test]
fn after_movement_a_climber_is_over_a_ladder() {
    for on_ground in [false, true] {
        for on_ladder in [false, true] {
            for over in [false, true] {
                for bits in 0..32u8 {
                    let ladders: &[u64] = if over { &[9] } else { &[] };
                    let mut p = player(on_ground, on_ladder, ladders);
                    let input = InputState {
                        left: bits & 1 != 0,
                        right: bits & 2 != 0,
                        up: bits & 4 != 0,
                        down: bits & 8 != 0,
                        jump: bits & 16 != 0,
                    };
                    movement(&mut p, input);
                    assert!(!p.on_ladder || !p.over_ladders.is_empty());
                }
            }
        }
    }
}
