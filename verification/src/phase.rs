//! Phases of the game, and the physics clock while a level is put together.

use vstd::prelude::*;

verus! {

/// Phase of the game. Play begins once, when the assets are loaded, and does
/// not end.
#[derive(Clone, Copy, Debug, PartialEq, Eq, Hash, Structural)]
pub enum GameState {
    AssetLoading,
    Playing,
}

/// What is spawned on entering play.
#[derive(Clone, Copy, Debug, PartialEq, Eq, Structural)]
pub struct SetupPlan {
    pub cameras: u32,
    pub world_roots: u32,
}

/// What the map loader reports of a level.
#[derive(Clone, Copy, Debug, PartialEq, Eq, Structural)]
pub enum LevelEvent {
    /// The level is about to be spawned.
    SpawnTriggered,
    /// The level's objects exist.
    Spawned,
    /// The level's objects stand where they belong.
    Transformed,
    /// The level is gone.
    Despawned,
}

/// Pace of the physics clock.
#[derive(Clone, Copy, Debug, PartialEq, Eq, Structural)]
pub enum TimeScale {
    /// The simulation stands still.
    Frozen,
    /// The simulation runs at its normal pace.
    Running,
}

impl SetupPlan {
    /// One camera and one world root.
    pub open spec fn one_of_each() -> SetupPlan {
        SetupPlan { cameras: 1, world_roots: 1 }
    }
}

impl GameState {
    /// The phase after the assets were reported ready.
    pub open spec fn when_ready(self) -> GameState {
        GameState::Playing
    }

    /// What is to be spawned when the assets are reported ready: the setup
    /// on leaving the loading phase, nothing in play.
    pub open spec fn setup_when_ready(self) -> Option<SetupPlan> {
        match self {
            GameState::AssetLoading => Some(SetupPlan::one_of_each()),
            GameState::Playing => None,
        }
    }

    /// Takes the report that the assets are ready. Gives the next phase, and
    /// the setup to run where play is entered by this report.
    pub fn assets_ready(self) -> (next: (GameState, Option<SetupPlan>))
        ensures
            next.0 == self.when_ready(),
            next.1 == self.setup_when_ready(),
    {
        match self {
            GameState::AssetLoading => (GameState::Playing, Some(setup())),
            GameState::Playing => (GameState::Playing, None),
        }
    }
}

impl TimeScale {
    /// The factor that the physics clock is multiplied by.
    pub open spec fn spec_factor(self) -> u32 {
        match self {
            TimeScale::Frozen => 0,
            TimeScale::Running => 1,
        }
    }

    /// The factor that the physics clock is multiplied by.
    #[verifier::when_used_as_spec(spec_factor)]
    pub fn factor(self) -> (factor: u32)
        ensures
            factor == self.spec_factor(),
    {
        match self {
            TimeScale::Frozen => 0,
            TimeScale::Running => 1,
        }
    }
}

impl LevelEvent {
    /// The pace that this event sets: the clock stops when a spawn is
    /// triggered and runs again when the level is in place. The other events
    /// leave it alone.
    pub open spec fn sets_scale(self) -> Option<TimeScale> {
        match self {
            LevelEvent::SpawnTriggered => Some(TimeScale::Frozen),
            LevelEvent::Transformed => Some(TimeScale::Running),
            _ => None,
        }
    }
}

/// The pace that a batch of level events leaves the clock at: what the last
/// event that sets one sets. `None` where no event of the batch sets one.
pub open spec fn scale_set_by(events: Seq<LevelEvent>) -> Option<TimeScale>
    decreases events.len(),
{
    if events.len() == 0 {
        None
    } else {
        match events.last().sets_scale() {
            Some(scale) => Some(scale),
            None => scale_set_by(events.drop_last()),
        }
    }
}

/// The setup of the world on entering play: exactly one camera and one world
/// root.
pub fn setup() -> (plan: SetupPlan)
    ensures
        plan == SetupPlan::one_of_each(),
{
    SetupPlan { cameras: 1, world_roots: 1 }
}

/// Takes the level events of one tick, in the order of delivery, and says
/// what the physics clock is to be set to, if anything. Physics is frozen
/// from the moment a level starts to spawn until its objects are in place.
pub fn pause_physics_during_load(events: &Vec<LevelEvent>) -> (scale: Option<TimeScale>)
    ensures
        scale == scale_set_by(events@),
{
    let mut scale: Option<TimeScale> = None;
    let mut i: usize = 0;
    while i < events.len()
        invariant
            0 <= i <= events.len(),
            scale == scale_set_by(events@.take(i as int)),
        decreases events.len() - i,
    {
        proof {
            assert(events@.take(i + 1).drop_last() =~= events@.take(i as int));
        }
        match events[i] {
            LevelEvent::SpawnTriggered => {
                scale = Some(TimeScale::Frozen);
            },
            LevelEvent::Transformed => {
                scale = Some(TimeScale::Running);
            },
            _ => {},
        }
        i = i + 1;
    }
    proof {
        assert(events@.take(events.len() as int) =~= events@);
    }
    scale
}

/// Play is entered once: after the first report that the assets are ready,
/// the game is in play whatever the phase was, and no later report asks for
/// the setup again.
pub proof fn lemma_play_is_entered_once(state: GameState)
    ensures
        state.when_ready() == GameState::Playing,
        state.when_ready().when_ready() == GameState::Playing,
        state.when_ready().setup_when_ready() is None,
        state == GameState::AssetLoading ==> state.setup_when_ready() == Some(
            SetupPlan::one_of_each(),
        ),
{
}

/// A batch of level events sets the clock as its last deciding event does:
/// with an event at `last` that sets a pace and none after it that sets one,
/// the batch sets that pace.
pub proof fn lemma_last_level_event_decides(events: Seq<LevelEvent>, last: int)
    requires
        0 <= last < events.len(),
        events[last].sets_scale() is Some,
        forall|j: int| last < j < events.len() ==> (#[trigger] events[j]).sets_scale() is None,
    ensures
        scale_set_by(events) == events[last].sets_scale(),
    decreases events.len(),
{
    if last == events.len() - 1 {
    } else {
        let shorter = events.drop_last();
        assert(shorter[last] == events[last]);
        assert forall|j: int| last < j < shorter.len() implies (#[trigger] shorter[j]).sets_scale()
            is None by {
            assert(shorter[j] == events[j]);
        }
        lemma_last_level_event_decides(shorter, last);
    }
}

/// A batch without an event that sets a pace leaves the clock alone.
pub proof fn lemma_idle_level_events_set_nothing(events: Seq<LevelEvent>)
    requires
        forall|j: int| 0 <= j < events.len() ==> (#[trigger] events[j]).sets_scale() is None,
    ensures
        scale_set_by(events) is None,
    decreases events.len(),
{
    if events.len() > 0 {
        let shorter = events.drop_last();
        assert forall|j: int| 0 <= j < shorter.len() implies (#[trigger] shorter[j]).sets_scale()
            is None by {
            assert(shorter[j] == events[j]);
        }
        lemma_idle_level_events_set_nothing(shorter);
    }
}

} // verus!
