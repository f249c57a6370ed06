//! The three per-frame systems of the game loop.
//!
//! Each frame the scheduler runs, in order: input resolution (outside this
//! crate), [`movement`], the physics integration step (outside this crate),
//! then [`win_condition`] and [`collision_sounds`] as read-only queries over
//! the post-step world. None of the three keeps state between frames.

use vstd::prelude::*;
use crate::input::AxisPair;
use crate::motion::{frame_force, movement_force, ExternalForce};
use crate::scene::{Player, Scene};

verus! {

/// `post` is `pre` with the force accumulator replaced by `f` and every other
/// field unchanged.
pub open spec fn force_written(pre: Player, post: Player, f: ExternalForce) -> bool {
    post == (Player { force: f, ..pre })
}

/// The movement step as a relation between the scene before and after it: the
/// players are unchanged but for their force accumulators, each of which is
/// overwritten with this frame's force, and the pieces and the goal are
/// untouched.
pub open spec fn movement_rel(
    pre: Scene,
    post: Scene,
    inputs: Seq<AxisPair>,
    delta_ms: u32,
) -> bool {
    &&& post.players@.len() == pre.players@.len()
    &&& forall|i: int|
        0 <= i < pre.players@.len() ==> force_written(
            pre.players@[i],
            #[trigger] post.players@[i],
            frame_force(inputs[i], delta_ms),
        )
    &&& post.pieces@ == pre.pieces@
    &&& post.goal == pre.goal
}

/// The movement system: for every player, overwrite the stored external force
/// with `axis * MOVE_FORCE * delta_seconds` (torque zero), from that player's
/// resolved input alone. Nothing else in the scene changes; in particular the
/// previously stored force does not enter the new one.
pub fn movement(scene: &mut Scene, inputs: &Vec<AxisPair>, delta_ms: u32)
    requires
        inputs@.len() == old(scene).players@.len(),
        forall|i: int| 0 <= i < inputs@.len() ==> (#[trigger] inputs@[i]).in_range(),
    ensures
        movement_rel(*old(scene), *final(scene), inputs@, delta_ms),
        old(scene).wf() ==> final(scene).wf(),
{
    let n = scene.players.len();
    let mut updated: Vec<Player> = Vec::new();
    let mut k: usize = 0;
    while k < n
        invariant
            n == scene.players@.len(),
            inputs@.len() == n,
            forall|i: int| 0 <= i < n ==> (#[trigger] inputs@[i]).in_range(),
            *scene == *old(scene),
            k <= n,
            updated@.len() == k,
            forall|i: int|
                0 <= i < k ==> force_written(
                    scene.players@[i],
                    #[trigger] updated@[i],
                    frame_force(inputs@[i], delta_ms),
                ),
        decreases n - k,
    {
        let p = scene.players[k];
        let f = movement_force(inputs[k], delta_ms);
        updated.push(Player { force: f, ..p });
        k = k + 1;
    }
    scene.players = updated;
}

/// The model's own answer to the goal intersection query: whether the goal
/// sensor's circle and player `i`'s collider circle currently overlap. A
/// player whose collider center sits at the goal center overlaps it; one
/// farther away than the sum of the two radii does not.
pub fn goal_overlap(scene: &Scene, i: usize) -> (r: bool)
    requires
        scene.wf(),
        i < scene.players@.len(),
    ensures
        r == crate::geometry::circles_overlap(
            scene.goal.pos,
            scene.goal.radius,
            scene.players@[i as int].pos,
            scene.players@[i as int].radius,
        ),
{
    let p = scene.players[i];
    crate::geometry::circles_overlap_check(scene.goal.pos, scene.goal.radius, p.pos, p.radius)
}

/// The winning identities among the first `n` players: those whose goal
/// intersection query confirmed an overlap, in player order.
pub open spec fn winning_ids(
    players: Seq<Player>,
    results: Seq<Option<bool>>,
    n: int,
) -> Seq<usize>
    decreases n,
{
    if n <= 0 {
        Seq::empty()
    } else {
        winning_ids(players, results, n - 1) + if results[n - 1] == Some(true) {
            seq![players[n - 1].id]
        } else {
            Seq::empty()
        }
    }
}

/// The win-condition system: `intersections[i]` is the physics world's answer
/// to whether the goal sensor and player `i`'s collider currently intersect —
/// confirmed (`Some(true)`), denied (`Some(false)`), or not yet known
/// (`None`, the world not stepped or the pair not tracked). Exactly the
/// players with a confirmed overlap win this frame, in player order; an
/// unknown answer never does. The scene is read only, and no winner is
/// remembered: a player still overlapping on the next frame is named again,
/// a deliberate absence of any game-over state.
pub fn win_condition(scene: &Scene, intersections: &Vec<Option<bool>>) -> (winners: Vec<
    usize,
>)
    requires
        intersections@.len() == scene.players@.len(),
    ensures
        winners@ == winning_ids(
            scene.players@,
            intersections@,
            scene.players@.len() as int,
        ),
{
    let n = scene.players.len();
    let mut winners: Vec<usize> = Vec::new();
    let mut k: usize = 0;
    while k < n
        invariant
            n == scene.players@.len(),
            intersections@.len() == n,
            k <= n,
            winners@ == winning_ids(scene.players@, intersections@, k as int),
        decreases n - k,
    {
        let hit = match intersections[k] {
            Some(b) => b,
            None => false,
        };
        if hit {
            winners.push(scene.players[k].id);
        }
        k = k + 1;
    }
    winners
}

/// One contact pair tracked by the physics world, reduced to what the
/// feedback system reads: how many of its contact points are active.
#[derive(Clone, Copy, PartialEq, Eq, Structural, Debug)]
pub struct ContactPair {
    /// Number of active contact points; zero for a pair that merely overlaps
    /// in the broad phase.
    pub active_points: u32,
}

impl ContactPair {
    /// The pair is active: the bodies touch with at least one active contact
    /// point.
    pub open spec fn is_active(self) -> bool {
        self.active_points > 0
    }

    /// Whether the pair reports any active contact point.
    pub fn has_any_active_contacts(&self) -> (r: bool)
        ensures
            r == self.is_active(),
    {
        self.active_points > 0
    }
}

/// Some tracked pair is active this frame.
pub open spec fn any_active(pairs: Seq<ContactPair>) -> bool {
    exists|i: int| 0 <= i < pairs.len() && (#[trigger] pairs[i]).is_active()
}

/// The collision-feedback system: scan this frame's tracked contact pairs and
/// decide the cue. The cue plays exactly once in a frame with at least one
/// active pair — however many pairs are active — and not at all in a frame
/// with none. No state survives the frame: sustained contact retriggers the
/// cue on every frame, by design.
pub fn collision_sounds(pairs: &Vec<ContactPair>) -> (play_cue: bool)
    ensures
        play_cue == any_active(pairs@),
{
    let n = pairs.len();
    let mut just_collided = false;
    let mut k: usize = 0;
    while k < n
        invariant
            n == pairs@.len(),
            k <= n,
            just_collided == any_active(pairs@.take(k as int)),
        decreases n - k,
    {
        if pairs[k].has_any_active_contacts() {
            just_collided = true;
        }
        proof {
            assert(pairs@.take(k + 1 as int) =~= pairs@.take(k as int).push(pairs@[k as int]));
            if pairs@[k as int].is_active() {
                assert(pairs@.take(k + 1 as int)[k as int].is_active());
            } else if any_active(pairs@.take(k as int)) {
                let i = choose|i: int|
                    0 <= i < pairs@.take(k as int).len() && (#[trigger] pairs@.take(
                        k as int,
                    )[i]).is_active();
                assert(pairs@.take(k + 1 as int)[i].is_active());
            } else {
                assert(forall|i: int|
                    0 <= i < k + 1 ==> !(#[trigger] pairs@.take(k + 1 as int)[i]).is_active());
            }
        }
        k = k + 1;
    }
    proof {
        assert(pairs@.take(n as int) =~= pairs@);
    }
    just_collided
}

} // verus!
