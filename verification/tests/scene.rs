use rolling_game::geometry::Vec2I;
use rolling_game::input::{binding_for, AxisPair, KeyboardScheme};
use rolling_game::motion::ExternalForce;
use rolling_game::scene::{
    setup, spawn_pieces, spawn_players, ANGULAR_DAMPING_MILLI, GOAL_RADIUS, LINEAR_DAMPING_MILLI,
    PLAYER_RADIUS, RESTITUTION_MILLI,
};
use rolling_game::systems::movement;

#[test]
fn scene_cardinality() {
    // Exactly two players with identities 0 and 1, four pieces, one goal.
    let s = setup();
    assert_eq!(s.players.len(), 2);
    assert_eq!(s.players[0].id, 0);
    assert_eq!(s.players[1].id, 1);
    assert_eq!(s.pieces.len(), 4);
    assert_eq!(s.goal.pos, Vec2I { x: 450, y: -300 });
    assert_eq!(s.goal.radius, GOAL_RADIUS);
}

#[test]
fn players_start_opposed() {
    let s = setup();
    assert_eq!(s.players[0].pos, Vec2I { x: -100, y: 0 });
    assert_eq!(s.players[1].pos, Vec2I { x: 100, y: 0 });
    assert_eq!(s.players[0].force, ExternalForce { force_x: 0, force_y: 0, torque: 0 });
    assert_eq!(s.players[1].force, ExternalForce { force_x: 0, force_y: 0, torque: 0 });
}

#[test]
fn pieces_at_their_poses() {
    // The four pieces stand at their fixed positions, each rotated one more
    // quarter turn than the last.
    let s = setup();
    let expect = [
        (Vec2I { x: 150, y: 150 }, 0u8),
        (Vec2I { x: -350, y: 50 }, 1u8),
        (Vec2I { x: -150, y: -200 }, 2u8),
        (Vec2I { x: 200, y: -50 }, 3u8),
    ];
    for i in 0..4 {
        assert_eq!(s.pieces[i].pos, expect[i].0);
        assert_eq!(s.pieces[i].quarter_turns, expect[i].1);
        assert_eq!(s.pieces[i].restitution_milli, RESTITUTION_MILLI);
    }
}

#[test]
fn spawned_player_components() {
    let p = spawn_players(0, Vec2I { x: -100, y: 0 });
    assert_eq!(p.radius, PLAYER_RADIUS);
    assert_eq!(p.restitution_milli, RESTITUTION_MILLI);
    assert_eq!(p.linear_damping_milli, LINEAR_DAMPING_MILLI);
    assert_eq!(p.angular_damping_milli, ANGULAR_DAMPING_MILLI);
    assert_eq!(p.force, ExternalForce { force_x: 0, force_y: 0, torque: 0 });
}

#[test]
fn player_bindings_follow_identity() {
    // Player 0 steers with W/A/S/D, player 1 with the arrow keys; each is
    // bound to the gamepad sharing its identity.
    let b0 = binding_for(0);
    assert_eq!(b0.gamepad_id, 0);
    assert_eq!(b0.keyboard, KeyboardScheme::Wasd);
    let b1 = binding_for(1);
    assert_eq!(b1.gamepad_id, 1);
    assert_eq!(b1.keyboard, KeyboardScheme::ArrowKeys);
    let s = setup();
    assert_eq!(s.players[0].binding, b0);
    assert_eq!(s.players[1].binding, b1);
}

#[test]
fn spawned_piece_components() {
    let p = spawn_pieces(Vec2I { x: 150, y: 150 }, 0);
    assert_eq!(p.pos, Vec2I { x: 150, y: 150 });
    assert_eq!(p.quarter_turns, 0);
    assert_eq!(p.restitution_milli, RESTITUTION_MILLI);
}

#[test]
fn obstacles_never_move() {
    // Across several simulated frames the pieces and the goal stay exactly
    // at their spawn-time poses.
    let mut s = setup();
    let spawn_pieces_copy = s.pieces.clone();
    let spawn_goal = s.goal;
    let frames = [
        (vec![AxisPair { x: 1000, y: 0 }, AxisPair { x: -1000, y: 0 }], 16u32),
        (vec![AxisPair { x: 0, y: 1000 }, AxisPair { x: 0, y: 0 }], 33u32),
        (vec![AxisPair { x: -600, y: -800 }, AxisPair { x: 600, y: 800 }], 8u32),
    ];
    for (inputs, dt) in frames {
        movement(&mut s, &inputs, dt);
        assert_eq!(s.pieces, spawn_pieces_copy);
        assert_eq!(s.goal, spawn_goal);
    }
}
