//! The game scene: two player balls, four fixed obstacle pieces and one goal
//! sensor, with the cardinality invariant that the win check relies on.
//!
//! The entity store and the physics world own the live copies of these values
//! during play; this module owns their meaning: which entities exist, with
//! which collider sizes, material constants and poses, and that nothing but a
//! player's force accumulator ever changes.

use vstd::prelude::*;
use crate::geometry::Vec2I;
use crate::input::{binding_of, InputBinding};
use crate::motion::ExternalForce;

verus! {

/// Radius of a player ball's circular collider, in world units.
pub const PLAYER_RADIUS: i64 = 32;

/// Radius of the goal sensor's circular collider, in world units.
pub const GOAL_RADIUS: i64 = 28;

/// Restitution coefficient of every body, in thousandths: a perfectly elastic
/// bounce.
pub const RESTITUTION_MILLI: i64 = 1000;

/// Linear damping coefficient of a player body, in thousandths.
pub const LINEAR_DAMPING_MILLI: i64 = 600;

/// Angular damping coefficient of a player body, in thousandths.
pub const ANGULAR_DAMPING_MILLI: i64 = 300;

/// Magnitude of each triangle vertex coordinate of a piece's collider, in
/// world units: the vertices are `(-23, -23)`, `(-23, 23)` and `(23, -23)`.
pub const PIECE_VERTEX: i64 = 23;

/// Corner rounding radius of a piece's collider, in thousandths of a unit.
pub const PIECE_ROUNDING_MILLI: i64 = 50;

/// A player ball: a dynamic body with a circular collider, an external-force
/// accumulator overwritten each frame, and the device binding matching its
/// identity.
#[derive(Clone, Copy, PartialEq, Eq, Structural, Debug)]
pub struct Player {
    /// Identity, 0 or 1; disambiguates control scheme and sprite.
    pub id: usize,
    /// Center of the ball, owned by the physics world during play.
    pub pos: Vec2I,
    /// Collider radius, always [`PLAYER_RADIUS`].
    pub radius: i64,
    /// The force accumulator the next integration step consumes.
    pub force: ExternalForce,
    /// Restitution in thousandths, always [`RESTITUTION_MILLI`].
    pub restitution_milli: i64,
    /// Linear damping in thousandths, always [`LINEAR_DAMPING_MILLI`].
    pub linear_damping_milli: i64,
    /// Angular damping in thousandths, always [`ANGULAR_DAMPING_MILLI`].
    pub angular_damping_milli: i64,
    /// The devices this player is bound to.
    pub binding: InputBinding,
}

impl Player {
    /// A valid player: identity 0 or 1, in-world position, and the constants
    /// every player is spawned with.
    pub open spec fn wf(self) -> bool {
        &&& self.id <= 1
        &&& self.pos.wf()
        &&& self.radius == PLAYER_RADIUS
        &&& self.restitution_milli == RESTITUTION_MILLI
        &&& self.linear_damping_milli == LINEAR_DAMPING_MILLI
        &&& self.angular_damping_milli == ANGULAR_DAMPING_MILLI
        &&& self.binding == binding_of(self.id)
    }
}

/// A fixed obstacle piece: a static body with a rounded-triangle collider,
/// immutable after creation.
#[derive(Clone, Copy, PartialEq, Eq, Structural, Debug)]
pub struct Piece {
    /// Center of the piece; never changes during play.
    pub pos: Vec2I,
    /// Rotation about the piece's center, in quarter turns (0 to 3).
    pub quarter_turns: u8,
    /// Restitution in thousandths, always [`RESTITUTION_MILLI`].
    pub restitution_milli: i64,
}

impl Piece {
    /// A valid piece: in-world position, a rotation below a full turn, and
    /// the restitution every piece is spawned with.
    pub open spec fn wf(self) -> bool {
        self.pos.wf() && self.quarter_turns < 4 && self.restitution_milli == RESTITUTION_MILLI
    }
}

/// The goal: a single static sensor with a circular collider. It detects
/// overlap but produces no physical collision response.
#[derive(Clone, Copy, PartialEq, Eq, Structural, Debug)]
pub struct Goal {
    /// Center of the sensor; never changes during play.
    pub pos: Vec2I,
    /// Collider radius, always [`GOAL_RADIUS`].
    pub radius: i64,
}

impl Goal {
    /// A valid goal: in-world position and the goal's radius.
    pub open spec fn wf(self) -> bool {
        self.pos.wf() && self.radius == GOAL_RADIUS
    }
}

/// The whole scene. Holding the goal as a plain field makes the "exactly one
/// goal" invariant structural: a scene cannot be formed with zero or two.
pub struct Scene {
    /// The player balls, in identity order.
    pub players: Vec<Player>,
    /// The obstacle pieces.
    pub pieces: Vec<Piece>,
    /// The one goal sensor.
    pub goal: Goal,
}

impl Scene {
    /// The scene invariant: exactly two players, with identities 0 and 1 in
    /// order, exactly four valid pieces, and a valid goal.
    pub open spec fn wf(self) -> bool {
        &&& self.players@.len() == 2
        &&& forall|i: int| 0 <= i < 2 ==> (#[trigger] self.players@[i]).wf()
        &&& self.players@[0].id == 0
        &&& self.players@[1].id == 1
        &&& self.pieces@.len() == 4
        &&& forall|i: int| 0 <= i < 4 ==> (#[trigger] self.pieces@[i]).wf()
        &&& self.goal.wf()
    }
}

/// Spawn position of the player with identity `id`: player 0 starts at
/// `(-100, 0)`, player 1 at `(100, 0)`.
pub open spec fn player_start(id: usize) -> Vec2I {
    if id == 0 {
        Vec2I { x: -100i64, y: 0i64 }
    } else {
        Vec2I { x: 100, y: 0 }
    }
}

/// The pose of piece `i` of the initial scene: position and rotation in
/// quarter turns.
pub open spec fn piece_pose(i: int) -> (Vec2I, u8) {
    if i == 0 {
        (Vec2I { x: 150, y: 150 }, 0u8)
    } else if i == 1 {
        (Vec2I { x: -350i64, y: 50i64 }, 1u8)
    } else if i == 2 {
        (Vec2I { x: -150i64, y: -200i64 }, 2u8)
    } else {
        (Vec2I { x: 200i64, y: -50i64 }, 3u8)
    }
}

/// Position of the goal sensor.
pub open spec fn goal_position() -> Vec2I {
    Vec2I { x: 450i64, y: -300i64 }
}

/// Builds the player with identity `id` at `location`: collider radius 32, a
/// dynamic body with zero initial force, restitution 1, damping 0.6 / 0.3,
/// and the device binding belonging to `id`.
pub fn spawn_players(id: usize, location: Vec2I) -> (p: Player)
    requires
        id <= 1,
        location.wf(),
    ensures
        p.wf(),
        p.id == id,
        p.pos == location,
        p.force.is_zero(),
{
    Player {
        id,
        pos: location,
        radius: PLAYER_RADIUS,
        force: ExternalForce::zero(),
        restitution_milli: RESTITUTION_MILLI,
        linear_damping_milli: LINEAR_DAMPING_MILLI,
        angular_damping_milli: ANGULAR_DAMPING_MILLI,
        binding: crate::input::binding_for(id),
    }
}

/// Builds a fixed obstacle piece at `location`, rotated by `quarter_turns`
/// quarter turns: a static body with restitution 1.
pub fn spawn_pieces(location: Vec2I, quarter_turns: u8) -> (p: Piece)
    requires
        location.wf(),
        quarter_turns < 4,
    ensures
        p.wf(),
        p.pos == location,
        p.quarter_turns == quarter_turns,
{
    Piece { pos: location, quarter_turns, restitution_milli: RESTITUTION_MILLI }
}

/// Builds the initial scene: the two players at their start positions with
/// zero force, the four pieces at their fixed poses, and the goal sensor.
pub fn setup() -> (s: Scene)
    ensures
        s.wf(),
        forall|i: int|
            0 <= i < 2 ==> (#[trigger] s.players@[i]).pos == player_start(i as usize)
                && s.players@[i].force.is_zero(),
        forall|i: int|
            0 <= i < 4 ==> (#[trigger] s.pieces@[i]).pos == piece_pose(i).0
                && s.pieces@[i].quarter_turns == piece_pose(i).1,
        s.goal.pos == goal_position(),
        s.goal.radius == GOAL_RADIUS,
{
    let mut players: Vec<Player> = Vec::new();
    players.push(spawn_players(0, Vec2I::new(-100, 0)));
    players.push(spawn_players(1, Vec2I::new(100, 0)));

    let mut pieces: Vec<Piece> = Vec::new();
    pieces.push(spawn_pieces(Vec2I::new(150, 150), 0));
    pieces.push(spawn_pieces(Vec2I::new(-350, 50), 1));
    pieces.push(spawn_pieces(Vec2I::new(-150, -200), 2));
    pieces.push(spawn_pieces(Vec2I::new(200, -50), 3));

    let goal = Goal { pos: Vec2I::new(450, -300), radius: GOAL_RADIUS };

    Scene { players, pieces, goal }
}

} // verus!
