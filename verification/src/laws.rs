//! Laws of the simulation, each proved for every input.
use vstd::prelude::*;
use crate::geometry::Rect;
use crate::player::{resting_height, Body, JUMP_FORCE, MOVE_SPEED};
use crate::world::{Input, Scene};

verus! {

/// The overlap test does not depend on the order of the two boxes.
pub proof fn lemma_overlap_symmetric(a: Rect, b: Rect)
    ensures
        a.overlaps(b) == b.overlaps(a),
{
}

/// Boxes that only touch do not overlap: where a side of one lies on the
/// opposite side of the other, the overlap test fails.
pub proof fn lemma_touching_is_not_overlap(a: Rect, b: Rect)
    requires
        a.min_y() == b.max_y() || a.max_y() == b.min_y() || a.min_x() == b.max_x() || a.max_x()
            == b.min_x(),
    ensures
        !a.overlaps(b),
{
}

/// A player at rest on a platform touches it from above and does not overlap
/// it.
pub proof fn lemma_resting_player_is_clear(b: Body, r: Rect)
    ensures
        !b.landed_on(r).hits(r),
{
}

/// The airborne flag is raised by a jump and by nothing else, and lowered by
/// a landing and by nothing else.
pub proof fn lemma_airborne_transitions(
    b: Body,
    platforms: Seq<Rect>,
    left: bool,
    right: bool,
    pressed: bool,
    dt: int,
)
    ensures
        b.moved(left, right, dt).airborne == b.airborne,
        b.integrated(dt).airborne == b.airborne,
        b.resolved(platforms).airborne == (b.airborne && !(b.vy < 0 && b.on_platform(
            platforms,
        ))),
        b.jumped(platforms, pressed).airborne == (b.airborne || (pressed && b.on_platform(
            platforms,
        ))),
{
}

/// The jump changes the player only if the key went down while the player's
/// box overlapped a platform; then it sets the vertical velocity to the jump
/// impulse and raises the airborne flag. In every other case, a key press in
/// mid-air among them, the player stays as it is.
pub proof fn lemma_jump_needs_platform(b: Body, platforms: Seq<Rect>, pressed: bool)
    ensures
        !(pressed && b.on_platform(platforms)) ==> b.jumped(platforms, pressed) == b,
        pressed && b.on_platform(platforms) ==> b.jumped(platforms, pressed) == (Body {
            vy: JUMP_FORCE as int,
            airborne: true,
            ..b
        }),
{
}

/// The player after `n` frames of `dt` ticks each with the same keys held,
/// gravity left aside.
pub open spec fn moved_for(b: Body, left: bool, right: bool, dt: int, n: nat) -> Body
    decreases n,
{
    if n == 0 {
        b
    } else {
        moved_for(b, left, right, dt, (n - 1) as nat).moved(left, right, dt)
    }
}

/// Horizontal movement only adds up: after `n` frames of `dt` ticks with the
/// right key held the player is `n * MOVE_SPEED * dt` further right, and
/// nothing else about it has changed.
pub proof fn lemma_movement_is_additive(b: Body, dt: int, n: nat)
    ensures
        moved_for(b, false, true, dt, n) == (Body { x: b.x + n * MOVE_SPEED * dt, ..b }),
    decreases n,
{
    let speed = MOVE_SPEED as int;
    if n > 0 {
        lemma_movement_is_additive(b, dt, (n - 1) as nat);
        assert((n - 1) * speed * dt + speed * dt == n * speed * dt) by (nonlinear_arith);
    } else {
        assert(n * speed * dt == 0) by (nonlinear_arith)
            requires
                n == 0,
        ;
    }
}

/// Landing is idempotent: resolving the landing a second time, with nothing
/// in between, leaves the player where the first time put it.
pub proof fn lemma_landing_is_idempotent(b: Body, platforms: Seq<Rect>)
    ensures
        b.resolved(platforms).resolved(platforms) == b.resolved(platforms),
{
}

/// Landing either leaves the player as it is, or puts it at rest on top of
/// the last platform that it overlapped while falling: at the resting height
/// of that platform, with no vertical velocity and the airborne flag down.
pub proof fn lemma_landing_outcome(b: Body, platforms: Seq<Rect>)
    ensures
        !(b.vy < 0 && b.on_platform(platforms)) ==> b.resolved(platforms) == b,
        b.vy < 0 && b.on_platform(platforms) ==> exists|i: int|
            b.is_last_hit(platforms, i) && b.resolved(platforms) == (Body {
                y: resting_height(platforms[i]),
                vy: 0,
                airborne: false,
                ..b
            }),
{
    if b.vy < 0 && b.on_platform(platforms) {
        lemma_last_hit_exists(b, platforms, 0);
        let i = choose|i: int| b.is_last_hit(platforms, i);
        assert(b.is_last_hit(platforms, i));
    }
}

/// If the player overlaps one of the boxes from index `n` on, one of them is
/// the last that it overlaps.
proof fn lemma_last_hit_exists(b: Body, platforms: Seq<Rect>, n: int)
    requires
        0 <= n <= platforms.len(),
        exists|i: int| n <= i < platforms.len() && b.hits(#[trigger] platforms[i]),
    ensures
        exists|i: int| n <= i < platforms.len() && b.is_last_hit(platforms, i),
    decreases platforms.len() - n,
{
    if exists|i: int| n + 1 <= i < platforms.len() && b.hits(#[trigger] platforms[i]) {
        lemma_last_hit_exists(b, platforms, n + 1);
    } else {
        assert(b.is_last_hit(platforms, n));
    }
}

/// The scene after `n` frames of `dt` ticks each with the same keys.
pub open spec fn stepped_for(s: Scene, input: Input, dt: int, n: nat) -> Scene
    decreases n,
{
    if n == 0 {
        s
    } else {
        stepped_for(s, input, dt, (n - 1) as nat).stepped(input, dt)
    }
}

/// Whole frames keep the law of horizontal movement: a player without
/// horizontal velocity, with the right key held for `n` frames of `dt` ticks,
/// ends `n * MOVE_SPEED * dt` further right, whatever gravity, landings and
/// jumps did to it on the way.
pub proof fn lemma_frames_move_additively(s: Scene, input: Input, dt: int, n: nat)
    requires
        s.body.vx == 0,
        input.right,
        !input.left,
    ensures
        stepped_for(s, input, dt, n).body.x == s.body.x + n * MOVE_SPEED * dt,
        stepped_for(s, input, dt, n).body.vx == 0,
        stepped_for(s, input, dt, n).platforms == s.platforms,
    decreases n,
{
    let speed = MOVE_SPEED as int;
    if n > 0 {
        lemma_frames_move_additively(s, input, dt, (n - 1) as nat);
        let before = stepped_for(s, input, dt, (n - 1) as nat);
        let moved = before.after_movement(input, dt);
        assert(moved.integrated(dt).x == moved.x) by (nonlinear_arith)
            requires
                moved.vx == 0,
                moved.integrated(dt).x == moved.x + moved.vx * dt,
        ;
        assert((n - 1) * speed * dt + speed * dt == n * speed * dt) by (nonlinear_arith);
    } else {
        assert(n * speed * dt == 0) by (nonlinear_arith)
            requires
                n == 0,
        ;
    }
}

} // verus!
