//! Tile classifier: from a cell code, or from the fact that an entity is the
//! player, to the collider that the physics engine is asked for.

use vstd::prelude::*;

verus! {

/// Cell code of a wall tile.
pub const WALL_CODE: i32 = 1;

/// Cell code of a ladder tile.
pub const LADDER_CODE: i32 = 2;

/// Cell code of a jump-pad tile.
pub const PAD_CODE: i32 = 3;

/// Friction of a wall surface, in thousandths.
pub const WALL_FRICTION_PERMILLE: u32 = 100;

/// What an int-grid cell is, as far as the rules care.
#[derive(Clone, Copy, Debug, PartialEq, Eq, Structural)]
pub enum TileKind {
    Wall,
    Ladder,
    Pad,
    Empty,
}

/// How a body takes part in the physics simulation.
#[derive(Clone, Copy, Debug, PartialEq, Eq, Structural)]
pub enum BodyKind {
    /// Never moves; others bounce off it.
    Static,
    /// Reports overlap and pushes nothing back.
    Sensor,
    /// Moved by forces and by its velocity.
    Dynamic,
}

/// Surface friction of a collider.
#[derive(Clone, Copy, Debug, PartialEq, Eq, Structural)]
pub enum Friction {
    /// Whatever the physics engine uses when nothing is asked for.
    EngineDefault,
    /// A coefficient in thousandths: `Permille(100)` is 0.1.
    Permille(u32),
}

/// An axis-aligned box, given by half its width and half its height.
#[derive(Clone, Copy, Debug, PartialEq, Eq, Structural)]
pub struct BoxShape {
    pub half_width: u32,
    pub half_height: u32,
}

/// Everything the physics engine is told about one body.
#[derive(Clone, Copy, Debug, PartialEq, Eq, Structural)]
pub struct CollisionDescriptor {
    pub shape: BoxShape,
    pub body: BodyKind,
    pub friction: Friction,
    pub rotation_locked: bool,
}

/// The tag a piece of level geometry carries, by which a contact with it is
/// told apart from the others.
#[derive(Clone, Copy, Debug, PartialEq, Eq, Structural)]
pub enum Role {
    Wall,
    Ladder,
    Pad,
    Untagged,
}

impl TileKind {
    /// The kind that a cell code stands for. Every code has one: a code
    /// without a meaning of its own is `Empty`.
    pub open spec fn of_code(code: int) -> TileKind {
        if code == WALL_CODE {
            TileKind::Wall
        } else if code == LADDER_CODE {
            TileKind::Ladder
        } else if code == PAD_CODE {
            TileKind::Pad
        } else {
            TileKind::Empty
        }
    }

    /// The collider of a tile of this kind.
    pub open spec fn collider(self) -> CollisionDescriptor {
        match self {
            TileKind::Wall => CollisionDescriptor {
                shape: BoxShape { half_width: 9, half_height: 9 },
                body: BodyKind::Static,
                friction: Friction::Permille(WALL_FRICTION_PERMILLE),
                rotation_locked: false,
            },
            TileKind::Ladder => CollisionDescriptor {
                shape: BoxShape { half_width: 9, half_height: 9 },
                body: BodyKind::Sensor,
                friction: Friction::EngineDefault,
                rotation_locked: false,
            },
            TileKind::Pad => CollisionDescriptor {
                shape: BoxShape { half_width: 9, half_height: 5 },
                body: BodyKind::Sensor,
                friction: Friction::EngineDefault,
                rotation_locked: false,
            },
            TileKind::Empty => CollisionDescriptor::inert(),
        }
    }

    /// The tag of a tile of this kind.
    pub open spec fn role(self) -> Role {
        match self {
            TileKind::Wall => Role::Wall,
            TileKind::Ladder => Role::Ladder,
            TileKind::Pad => Role::Pad,
            TileKind::Empty => Role::Untagged,
        }
    }

    /// Reads a cell code. No code is refused.
    pub fn from_code(code: i32) -> (kind: TileKind)
        ensures
            kind == TileKind::of_code(code as int),
    {
        if code == WALL_CODE {
            TileKind::Wall
        } else if code == LADDER_CODE {
            TileKind::Ladder
        } else if code == PAD_CODE {
            TileKind::Pad
        } else {
            TileKind::Empty
        }
    }

    /// The collider that a tile of this kind is given.
    pub fn descriptor(self) -> (descriptor: CollisionDescriptor)
        ensures
            descriptor == self.collider(),
    {
        match self {
            TileKind::Wall => CollisionDescriptor {
                shape: BoxShape { half_width: 9, half_height: 9 },
                body: BodyKind::Static,
                friction: Friction::Permille(WALL_FRICTION_PERMILLE),
                rotation_locked: false,
            },
            TileKind::Ladder => CollisionDescriptor {
                shape: BoxShape { half_width: 9, half_height: 9 },
                body: BodyKind::Sensor,
                friction: Friction::EngineDefault,
                rotation_locked: false,
            },
            TileKind::Pad => CollisionDescriptor {
                shape: BoxShape { half_width: 9, half_height: 5 },
                body: BodyKind::Sensor,
                friction: Friction::EngineDefault,
                rotation_locked: false,
            },
            TileKind::Empty => CollisionDescriptor {
                shape: BoxShape { half_width: 0, half_height: 0 },
                body: BodyKind::Static,
                friction: Friction::EngineDefault,
                rotation_locked: false,
            },
        }
    }

    /// The tag that a tile of this kind is given.
    pub fn tag(self) -> (role: Role)
        ensures
            role == self.role(),
    {
        match self {
            TileKind::Wall => Role::Wall,
            TileKind::Ladder => Role::Ladder,
            TileKind::Pad => Role::Pad,
            TileKind::Empty => Role::Untagged,
        }
    }
}

impl CollisionDescriptor {
    /// The collider of a cell that means nothing: a box without extent that
    /// never moves.
    pub open spec fn inert() -> CollisionDescriptor {
        CollisionDescriptor {
            shape: BoxShape { half_width: 0, half_height: 0 },
            body: BodyKind::Static,
            friction: Friction::EngineDefault,
            rotation_locked: false,
        }
    }

    /// The collider of the player: a 20 by 24 box that the simulation moves
    /// and never turns.
    pub open spec fn player() -> CollisionDescriptor {
        CollisionDescriptor {
            shape: BoxShape { half_width: 10, half_height: 12 },
            body: BodyKind::Dynamic,
            friction: Friction::EngineDefault,
            rotation_locked: true,
        }
    }

    /// The collider of the cell code `code`, as a table:
    ///
    /// | code  | half extents | body   | friction | rotation |
    /// |-------|--------------|--------|----------|----------|
    /// | 1     | 9 x 9        | static | 0.1      | free     |
    /// | 2     | 9 x 9        | sensor | default  | free     |
    /// | 3     | 9 x 5        | sensor | default  | free     |
    /// | other | 0 x 0        | static | default  | free     |
    pub open spec fn of_code(code: int) -> CollisionDescriptor {
        TileKind::of_code(code).collider()
    }
}

/// The collider of an int-grid cell. Every code is answered; one that no tile
/// uses gets the inert collider.
pub fn classify(code: i32) -> (descriptor: CollisionDescriptor)
    ensures
        descriptor == CollisionDescriptor::of_code(code as int),
{
    TileKind::from_code(code).descriptor()
}

/// The collider of the player entity.
pub fn player_descriptor() -> (descriptor: CollisionDescriptor)
    ensures
        descriptor == CollisionDescriptor::player(),
{
    CollisionDescriptor {
        shape: BoxShape { half_width: 10, half_height: 12 },
        body: BodyKind::Dynamic,
        friction: Friction::EngineDefault,
        rotation_locked: true,
    }
}

} // verus!
