//! Frame-to-frame laws of the game loop.
//!
//! A run is modelled as a trace of scenes, consecutive entries linked by one
//! whole frame: the movement system writing this frame's forces
//! ([`movement_rel`]), then the physics world advancing the dynamic bodies
//! ([`advance_rel`]). The lemmas here state what holds of every such trace:
//! forces never accumulate, zero input keeps a zero force, obstacles and the
//! goal never move, and the scene's cardinality invariant survives the run.

use vstd::prelude::*;
use crate::input::AxisPair;
use crate::motion::{frame_force, lemma_frame_force_exact};
use crate::scene::{Player, Scene};
use crate::systems::{movement_rel, winning_ids};

verus! {

/// What one physics integration step may do to the scene: move the dynamic
/// player bodies (keeping them inside the world), and nothing else. Fixed
/// bodies and the sensor are never integrated, so the pieces and the goal
/// stay; a player's identity, collider, material constants, binding and
/// stored force are data the step does not touch.
pub open spec fn advance_rel(pre: Scene, post: Scene) -> bool {
    &&& post.players@.len() == pre.players@.len()
    &&& forall|i: int|
        0 <= i < pre.players@.len() ==> #[trigger] post.players@[i] == (Player {
            pos: post.players@[i].pos,
            ..pre.players@[i]
        }) && post.players@[i].pos.wf()
    &&& post.pieces@ == pre.pieces@
    &&& post.goal == pre.goal
}

/// One whole frame: the movement system writes the frame's forces, then the
/// physics world advances the dynamic bodies.
pub open spec fn frame_rel(pre: Scene, post: Scene, inputs: Seq<AxisPair>, delta_ms: u32) -> bool {
    exists|mid: Scene|
        #[trigger] movement_rel(pre, mid, inputs, delta_ms) && advance_rel(mid, post)
}

/// A trace of scenes linked by whole frames, with `inputs[k]` and `dts[k]`
/// the resolved inputs and elapsed milliseconds of the frame from `trace[k]`
/// to `trace[k + 1]`.
pub open spec fn frames_linked(
    trace: Seq<Scene>,
    inputs: Seq<Seq<AxisPair>>,
    dts: Seq<u32>,
) -> bool {
    &&& trace.len() >= 1
    &&& inputs.len() == trace.len() - 1
    &&& dts.len() == trace.len() - 1
    &&& forall|k: int|
        1 <= k < trace.len() ==> #[trigger] frame_rel(
            trace[k - 1],
            trace[k],
            inputs[k - 1],
            dts[k - 1],
        )
}

/// The force written by a frame is a function of that frame's input and
/// elapsed time alone: two movement steps with the same inputs and the same
/// elapsed time write the same forces, however the stored forces (or anything
/// else about the players) differed beforehand. Forces are overwritten, never
/// accumulated.
pub proof fn lemma_force_overwrites(
    pre1: Scene,
    post1: Scene,
    pre2: Scene,
    post2: Scene,
    inputs: Seq<AxisPair>,
    delta_ms: u32,
)
    requires
        movement_rel(pre1, post1, inputs, delta_ms),
        movement_rel(pre2, post2, inputs, delta_ms),
        pre1.players@.len() == pre2.players@.len(),
    ensures
        forall|i: int|
            0 <= i < pre1.players@.len() ==> (#[trigger] post1.players@[i]).force
                == post2.players@[i].force,
{
}

/// Zero input yields the zero force, whatever the elapsed time.
pub proof fn lemma_zero_axis_zero_force(axis: AxisPair, delta_ms: u32)
    requires
        axis.is_zero(),
    ensures
        frame_force(axis, delta_ms).is_zero(),
{
    lemma_frame_force_exact(axis, delta_ms);
    assert(axis.x * crate::motion::MOVE_FORCE * delta_ms == 0) by (nonlinear_arith)
        requires
            axis.x == 0,
    ;
    assert(axis.y * crate::motion::MOVE_FORCE * delta_ms == 0) by (nonlinear_arith)
        requires
            axis.y == 0,
    ;
}

/// Zero-input idempotence: in a run whose every frame resolves every player's
/// movement vector to zero, every player's stored force is zero in every
/// scene after the first — regardless of the forces the run started with.
pub proof fn lemma_zero_input_zero_forces(
    trace: Seq<Scene>,
    inputs: Seq<Seq<AxisPair>>,
    dts: Seq<u32>,
)
    requires
        frames_linked(trace, inputs, dts),
        forall|k: int| 0 <= k < inputs.len() ==> (#[trigger] inputs[k]).len() == trace[k].players@.len(),
        forall|k: int, i: int|
            0 <= k < inputs.len() && 0 <= i < inputs[k].len() ==> (#[trigger] inputs[k][i]).is_zero(),
    ensures
        forall|k: int, i: int|
            1 <= k < trace.len() && 0 <= i < trace[k].players@.len()
                ==> (#[trigger] trace[k].players@[i]).force.is_zero(),
{
    assert forall|k: int, i: int|
        1 <= k < trace.len() && 0 <= i < trace[k].players@.len() implies (#[trigger] trace[k].players@[i]).force.is_zero() by {
        assert(frame_rel(trace[k - 1], trace[k], inputs[k - 1], dts[k - 1]));
        let mid = choose|mid: Scene|
            #[trigger] movement_rel(trace[k - 1], mid, inputs[k - 1], dts[k - 1]) && advance_rel(
                mid,
                trace[k],
            );
        if inputs[k - 1].len() > i {
            lemma_zero_axis_zero_force(inputs[k - 1][i], dts[k - 1]);
        }
        assert(trace[k].players@[i].force == mid.players@[i].force);
    }
}

/// Obstacle and goal immobility: in every frame of a run, the pieces — their
/// positions and rotations — and the goal are exactly what they were at the
/// start. Neither the movement system nor the integration step ever touches
/// a fixed body or the sensor.
pub proof fn lemma_obstacles_immobile(
    trace: Seq<Scene>,
    inputs: Seq<Seq<AxisPair>>,
    dts: Seq<u32>,
    k: int,
)
    requires
        frames_linked(trace, inputs, dts),
        0 <= k < trace.len(),
    ensures
        trace[k].pieces@ == trace[0].pieces@,
        trace[k].goal == trace[0].goal,
    decreases k,
{
    if k > 0 {
        lemma_obstacles_immobile(trace, inputs, dts, k - 1);
        assert(frame_rel(trace[k - 1], trace[k], inputs[k - 1], dts[k - 1]));
        let mid = choose|mid: Scene|
            #[trigger] movement_rel(trace[k - 1], mid, inputs[k - 1], dts[k - 1]) && advance_rel(
                mid,
                trace[k],
            );
    }
}

/// Scene cardinality throughout the run: a run that starts from a
/// well-formed scene — exactly two players with identities 0 and 1, exactly
/// four pieces, one goal — is well-formed in every frame.
pub proof fn lemma_cardinality_invariant(
    trace: Seq<Scene>,
    inputs: Seq<Seq<AxisPair>>,
    dts: Seq<u32>,
    k: int,
)
    requires
        frames_linked(trace, inputs, dts),
        trace[0].wf(),
        0 <= k < trace.len(),
    ensures
        trace[k].wf(),
    decreases k,
{
    if k > 0 {
        lemma_cardinality_invariant(trace, inputs, dts, k - 1);
        assert(frame_rel(trace[k - 1], trace[k], inputs[k - 1], dts[k - 1]));
        let mid = choose|mid: Scene|
            #[trigger] movement_rel(trace[k - 1], mid, inputs[k - 1], dts[k - 1]) && advance_rel(
                mid,
                trace[k],
            );
        assert forall|i: int| 0 <= i < 2 implies (#[trigger] trace[k].players@[i]).wf() by {
            assert(trace[k - 1].players@[i].wf());
            assert(mid.players@[i] == (Player {
                force: frame_force(inputs[k - 1][i], dts[k - 1]),
                ..trace[k - 1].players@[i]
            }));
        }
    }
}

/// A single winner per intersecting frame: in a frame whose query confirms
/// the goal overlap for exactly one of the two players, exactly one winner is
/// named, and it is that player's identity.
pub proof fn lemma_single_winner(players: Seq<Player>, results: Seq<Option<bool>>, w: int)
    requires
        players.len() == 2,
        results.len() == 2,
        0 <= w < 2,
        results[w] == Some(true),
        forall|i: int| 0 <= i < 2 && i != w ==> #[trigger] results[i] != Some(true),
    ensures
        winning_ids(players, results, 2) =~= seq![players[w].id],
{
    assert(winning_ids(players, results, 0) =~= Seq::<usize>::empty());
    if w == 0 {
        assert(results[1] != Some(true));
        assert(winning_ids(players, results, 1) =~= seq![players[0].id]);
    } else {
        assert(results[0] != Some(true));
        assert(winning_ids(players, results, 1) =~= Seq::<usize>::empty());
    }
}

} // verus!
