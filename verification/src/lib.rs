//! Core model of a minimal two-player, physics-driven steering game.
//!
//! Two players each steer a ball around four fixed obstacle pieces toward a
//! single shared goal; the first ball to overlap the goal sensor wins. The
//! engine-facing work (rendering, device polling, rigid-body integration,
//! audio playback) lives outside this crate; what stands here is the decision
//! core that runs once per frame:
//!
//! * translating a resolved movement axis and the frame's elapsed time into
//!   the external force written onto a player's body ([`systems::movement`]),
//! * deciding which players have won from the goal-overlap query results
//!   ([`systems::win_condition`]),
//! * deciding whether the frame triggers the collision cue
//!   ([`systems::collision_sounds`]),
//! * and the scene itself, with its cardinality invariant
//!   ([`scene::Scene`], [`scene::setup`]).
//!
//! All quantities are fixed-point integers: positions in whole world units,
//! movement axes in thousandths of the unit interval, elapsed time in
//! milliseconds, forces in millionths of a force unit. The scales are chosen
//! so that every formula in the contracts is exact integer arithmetic.

pub mod geometry;
pub mod input;
pub mod motion;
pub mod scene;
pub mod systems;
pub mod laws;
