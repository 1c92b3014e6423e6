use platformer::phase::{
    pause_physics_during_load, setup, GameState, LevelEvent, SetupPlan, TimeScale,
};

#[test]
fn setup_spawns_one_camera_and_one_world_root() {
    assert_eq!(setup(), SetupPlan { cameras: 1, world_roots: 1 });
}

#[test]
fn loading_ends_in_play_with_the_setup() {
    let (next, plan) = GameState::AssetLoading.assets_ready();
    assert_eq!(next, GameState::Playing);
    assert_eq!(plan, Some(SetupPlan { cameras: 1, world_roots: 1 }));
}

#[test]
fn play_is_not_set_up_again() {
    let (next, plan) = GameState::Playing.assets_ready();
    assert_eq!(next, GameState::Playing);
    assert_eq!(plan, None);
    let (first, _) = GameState::AssetLoading.assets_ready();
    let (second, again) = first.assets_ready();
    assert_eq!(second, GameState::Playing);
    assert_eq!(again, None);
}

#[test]
fn spawn_freezes_physics() {
    assert_eq!(
        pause_physics_during_load(&vec![LevelEvent::SpawnTriggered]),
        Some(TimeScale::Frozen)
    );
}

#[test]
fn transform_resumes_physics() {
    assert_eq!(
        pause_physics_during_load(&vec![LevelEvent::Transformed]),
        Some(TimeScale::Running)
    );
}

#[test]
fn the_last_deciding_event_wins() {
    let trigger = LevelEvent::SpawnTriggered;
    let spawned = LevelEvent::Spawned;
    let placed = LevelEvent::Transformed;
    let gone = LevelEvent::Despawned;
    assert_eq!(
        pause_physics_during_load(&vec![trigger, spawned, placed]),
        Some(TimeScale::Running)
    );
    assert_eq!(
        pause_physics_during_load(&vec![placed, gone, trigger, spawned]),
        Some(TimeScale::Frozen)
    );
    assert_eq!(
        pause_physics_during_load(&vec![trigger, placed, spawned, gone]),
        Some(TimeScale::Running)
    );
}

#[test]
fn other_events_leave_the_clock_alone() {
    assert_eq!(pause_physics_during_load(&Vec::new()), None);
    assert_eq!(pause_physics_during_load(&vec![LevelEvent::Spawned]), None);
    assert_eq!(
        pause_physics_during_load(&vec![LevelEvent::Despawned, LevelEvent::Spawned]),
        None
    );
}

#[test]
fn time_scale_factors_are_zero_and_one() {
    assert_eq!(TimeScale::Frozen.factor(), 0);
    assert_eq!(TimeScale::Running.factor(), 1);
}
