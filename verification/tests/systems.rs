use rolling_game::geometry::{circles_overlap_check, Vec2I};
use rolling_game::input::AxisPair;
use rolling_game::motion::{movement_force, ExternalForce, FORCE_SCALE, MOVE_FORCE};
use rolling_game::scene::{setup, GOAL_RADIUS, PLAYER_RADIUS};
use rolling_game::systems::{collision_sounds, goal_overlap, movement, win_condition, ContactPair};

#[test]
fn force_formula_example() {
    // A full right deflection for a 16 ms frame: 1 * 1500 * 0.016 = 24 force
    // units, exactly, held in millionths.
    let f = movement_force(AxisPair { x: 1000, y: 0 }, 16);
    assert_eq!(f.force_x, 24 * FORCE_SCALE);
    assert_eq!(f.force_y, 0);
    assert_eq!(f.torque, 0);
}

#[test]
fn force_formula_negative_axis() {
    let f = movement_force(AxisPair { x: -1000, y: 500 }, 10);
    assert_eq!(f.force_x, -15000000);
    assert_eq!(f.force_y, 7500000);
    assert_eq!(f.torque, 0);
}

#[test]
fn force_zero_delta() {
    // A paused or first frame: zero elapsed time yields zero force.
    let f = movement_force(AxisPair { x: 1000, y: 0 }, 0);
    assert_eq!(f, ExternalForce { force_x: 0, force_y: 0, torque: 0 });
}

#[test]
fn force_zero_axis() {
    // The resolution of an absent or idle binding is the zero pair, and it
    // yields the zero force whatever the elapsed time.
    let f = movement_force(AxisPair::zero(), 123456);
    assert_eq!(f, ExternalForce { force_x: 0, force_y: 0, torque: 0 });
}

#[test]
fn force_largest_frame() {
    // The formula is exact even for an absurdly long frame.
    let f = movement_force(AxisPair { x: 1000, y: 0 }, u32::MAX);
    assert_eq!(f.force_x, 1000 * MOVE_FORCE * (u32::MAX as i64));
    assert_eq!(f.force_y, 0);
}

#[test]
fn movement_overwrites_previous_force() {
    // Two frames: a push, then idle input. The stored force after the second
    // frame is zero — nothing of the first frame's force survives.
    let mut s = setup();
    let push = vec![AxisPair { x: 1000, y: 0 }, AxisPair { x: 0, y: -1000 }];
    movement(&mut s, &push, 16);
    assert_eq!(s.players[0].force.force_x, 24000000);
    assert_eq!(s.players[1].force.force_y, -24000000);
    let idle = vec![AxisPair { x: 0, y: 0 }, AxisPair { x: 0, y: 0 }];
    movement(&mut s, &idle, 16);
    assert_eq!(s.players[0].force, ExternalForce { force_x: 0, force_y: 0, torque: 0 });
    assert_eq!(s.players[1].force, ExternalForce { force_x: 0, force_y: 0, torque: 0 });
}

#[test]
fn movement_touches_only_forces() {
    let mut s = setup();
    let before_players: Vec<_> = s.players.clone();
    let before_pieces: Vec<_> = s.pieces.clone();
    let before_goal = s.goal;
    let push = vec![AxisPair { x: 300, y: 400 }, AxisPair { x: -300, y: 400 }];
    movement(&mut s, &push, 16);
    for i in 0..2 {
        assert_eq!(s.players[i].id, before_players[i].id);
        assert_eq!(s.players[i].pos, before_players[i].pos);
        assert_eq!(s.players[i].radius, before_players[i].radius);
        assert_eq!(s.players[i].binding, before_players[i].binding);
    }
    assert_eq!(s.pieces, before_pieces);
    assert_eq!(s.goal, before_goal);
}

#[test]
fn win_query_true_at_goal_center() {
    // A player body whose collider center sits exactly at the goal center
    // overlaps the goal sensor.
    let mut s = setup();
    s.players[0].pos = s.goal.pos;
    assert!(goal_overlap(&s, 0));
}

#[test]
fn win_query_false_far_away() {
    // Both players start farther from the goal center than the sum of the
    // radii, so neither overlaps it.
    let s = setup();
    assert!(!goal_overlap(&s, 0));
    assert!(!goal_overlap(&s, 1));
}

#[test]
fn win_query_touching_boundary() {
    // Centers exactly the sum of the radii apart still count as overlapping;
    // one unit farther does not.
    let a = Vec2I { x: 0, y: 0 };
    let touching = Vec2I { x: GOAL_RADIUS + PLAYER_RADIUS, y: 0 };
    assert!(circles_overlap_check(a, GOAL_RADIUS, touching, PLAYER_RADIUS));
    let apart = Vec2I { x: GOAL_RADIUS + PLAYER_RADIUS + 1, y: 0 };
    assert!(!circles_overlap_check(a, GOAL_RADIUS, apart, PLAYER_RADIUS));
}

#[test]
fn single_winner_per_frame() {
    // Player 0 intersects the goal, player 1 does not: exactly one win, for
    // identity 0.
    let s = setup();
    let winners = win_condition(&s, &vec![Some(true), Some(false)]);
    assert_eq!(winners, vec![0]);
}

#[test]
fn unknown_query_is_no_win() {
    // An unavailable query result (world not yet stepped, pair not tracked)
    // never triggers a win.
    let s = setup();
    let winners = win_condition(&s, &vec![None, None]);
    assert!(winners.is_empty());
    let winners = win_condition(&s, &vec![None, Some(false)]);
    assert!(winners.is_empty());
}

#[test]
fn both_players_can_win_same_frame() {
    let s = setup();
    let winners = win_condition(&s, &vec![Some(true), Some(true)]);
    assert_eq!(winners, vec![0, 1]);
}

#[test]
fn second_player_wins() {
    let s = setup();
    let winners = win_condition(&s, &vec![Some(false), Some(true)]);
    assert_eq!(winners, vec![1]);
}

#[test]
fn contact_triggers_one_cue() {
    // One active pair: the cue fires, once for the whole frame.
    let pairs = vec![ContactPair { active_points: 1 }];
    assert!(collision_sounds(&pairs));
}

#[test]
fn many_contacts_still_one_cue() {
    // However many pairs are active, the frame's decision is a single cue.
    let pairs = vec![
        ContactPair { active_points: 2 },
        ContactPair { active_points: 0 },
        ContactPair { active_points: 7 },
    ];
    assert!(collision_sounds(&pairs));
}

#[test]
fn no_active_contact_no_cue() {
    assert!(!collision_sounds(&vec![]));
    // Broad-phase-only pairs (zero active points) do not count as touching.
    let pairs = vec![ContactPair { active_points: 0 }, ContactPair { active_points: 0 }];
    assert!(!collision_sounds(&pairs));
}
