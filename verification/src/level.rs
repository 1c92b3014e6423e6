//! Level geometry builder: from the cells and entities of a parsed map to the
//! world objects that stand for them.

use crate::tiles::{
    classify, player_descriptor, CollisionDescriptor, Role, TileKind,
};
use vstd::prelude::*;

verus! {

/// An entity instance of the map, as far as the rules tell entities apart.
#[derive(Clone, Copy, Debug, PartialEq, Eq, Structural)]
pub enum MapEntity {
    /// The player's spawn point.
    Player,
    /// Any other entity.
    Other,
}

/// What a world object is given besides its picture and its place.
#[derive(Clone, Copy, Debug, PartialEq, Eq, Structural)]
pub struct WorldObject {
    /// Its collider.
    pub collision: CollisionDescriptor,
    /// Its tag.
    pub role: Role,
    /// It is the player: it gets a velocity and a player record of its own.
    pub player: bool,
}

impl WorldObject {
    /// The object that stands for a cell with the code `code`.
    pub open spec fn of_cell(code: int) -> WorldObject {
        WorldObject {
            collision: CollisionDescriptor::of_code(code),
            role: TileKind::of_code(code).role(),
            player: false,
        }
    }

    /// The object that stands for an entity instance. The player gets the
    /// player's collider, a velocity and a player record; another entity
    /// gets the inert collider.
    pub open spec fn of_entity(entity: MapEntity) -> WorldObject {
        match entity {
            MapEntity::Player => WorldObject {
                collision: CollisionDescriptor::player(),
                role: Role::Untagged,
                player: true,
            },
            MapEntity::Other => WorldObject {
                collision: CollisionDescriptor::inert(),
                role: Role::Untagged,
                player: false,
            },
        }
    }
}

/// The objects of a level: one for each cell, in the order of the cells, then
/// one for each entity instance, in their order.
pub open spec fn level_objects(cells: Seq<i32>, entities: Seq<MapEntity>) -> Seq<WorldObject> {
    Seq::new(
        cells.len() + entities.len(),
        |i: int|
            if i < cells.len() {
                WorldObject::of_cell(cells[i] as int)
            } else {
                WorldObject::of_entity(entities[i - cells.len()])
            },
    )
}

/// The world object of one int-grid cell.
pub fn spawn_cell(code: i32) -> (object: WorldObject)
    ensures
        object == WorldObject::of_cell(code as int),
{
    WorldObject { collision: classify(code), role: TileKind::from_code(code).tag(), player: false }
}

/// The world object of one entity instance.
pub fn spawn_entity(entity: MapEntity) -> (object: WorldObject)
    ensures
        object == WorldObject::of_entity(entity),
{
    match entity {
        MapEntity::Player => WorldObject {
            collision: player_descriptor(),
            role: Role::Untagged,
            player: true,
        },
        MapEntity::Other => WorldObject {
            collision: TileKind::Empty.descriptor(),
            role: Role::Untagged,
            player: false,
        },
    }
}

/// Builds the objects of a level from its cells and entity instances. Every
/// cell and every entity gets one; none is refused.
pub fn build_level(cells: &Vec<i32>, entities: &Vec<MapEntity>) -> (objects: Vec<WorldObject>)
    ensures
        objects@ == level_objects(cells@, entities@),
{
    let mut objects: Vec<WorldObject> = Vec::new();
    let mut i: usize = 0;
    while i < cells.len()
        invariant
            0 <= i <= cells.len(),
            objects@.len() == i,
            forall|k: int| 0 <= k < i ==> objects@[k] == WorldObject::of_cell(cells@[k] as int),
        decreases cells.len() - i,
    {
        objects.push(spawn_cell(cells[i]));
        i = i + 1;
    }
    let mut j: usize = 0;
    while j < entities.len()
        invariant
            0 <= j <= entities.len(),
            objects@.len() == cells.len() + j,
            forall|k: int|
                0 <= k < cells.len() ==> objects@[k] == WorldObject::of_cell(cells@[k] as int),
            forall|k: int|
                0 <= k < j ==> objects@[cells.len() + k] == WorldObject::of_entity(entities@[k]),
        decreases entities.len() - j,
    {
        objects.push(spawn_entity(entities[j]));
        j = j + 1;
    }
    proof {
        let wanted = level_objects(cells@, entities@);
        assert(objects@.len() == wanted.len());
        assert forall|k: int| 0 <= k < objects@.len() implies objects@[k] == wanted[k] by {
            if k >= cells.len() {
                assert(objects@[cells.len() + (k - cells.len())] == WorldObject::of_entity(
                    entities@[k - cells.len()],
                ));
            }
        }
        assert(objects@ =~= wanted);
    }
    objects
}

/// A level has as many objects as it has cells and entities, and the objects
/// that are the player are those of the map's player entities, no others.
pub proof fn lemma_players_are_the_player_entities(
    cells: Seq<i32>,
    entities: Seq<MapEntity>,
    i: int,
)
    requires
        0 <= i < cells.len() + entities.len(),
    ensures
        level_objects(cells, entities).len() == cells.len() + entities.len(),
        level_objects(cells, entities)[i].player <==> i >= cells.len() && entities[i - cells.len()]
            == MapEntity::Player,
        i < cells.len() ==> level_objects(cells, entities)[i].collision
            == CollisionDescriptor::of_code(cells[i] as int),
{
}

} // verus!
