//! The player: its state, and the rules that move it within one frame.
use vstd::prelude::*;
use crate::geometry::{fits, Aabb, Rect, Vector};

verus! {

/// Change of vertical velocity per tick, in units per tick (20.8 pixels per
/// second squared, downwards).
pub const GRAVITY: i64 = -208;

/// Vertical velocity right after a jump, in units per tick (10000 pixels per
/// second).
pub const JUMP_FORCE: i64 = 100_000_000;

/// Horizontal speed while a movement key is held, in units per tick (100
/// pixels per second).
pub const MOVE_SPEED: i64 = 1_000_000;

/// Height of the ground line (100 pixels below the origin).
pub const GROUND_LEVEL: i64 = -1_000_000_000;

/// Half of the side of the player's square box (25 pixels).
pub const PLAYER_HALF_SIZE: i64 = 250_000_000;

/// The player as mathematics sees it: position, velocity and the airborne
/// flag, with unbounded integers.
pub struct Body {
    pub x: int,
    pub y: int,
    pub vx: int,
    pub vy: int,
    pub airborne: bool,
}

/// The distance covered horizontally in `dt` ticks with the given keys held.
/// Holding both keys cancels out.
pub open spec fn horizontal_shift(left: bool, right: bool, dt: int) -> int {
    (if right { MOVE_SPEED * dt } else { 0 }) - (if left { MOVE_SPEED * dt } else { 0 })
}

/// The box of a player whose centre is at (`x`, `y`).
pub open spec fn player_rect(x: int, y: int) -> Rect {
    Rect { cx: x, cy: y, hx: PLAYER_HALF_SIZE as int, hy: PLAYER_HALF_SIZE as int }
}

/// The height at which a player rests on top of the box `r`.
pub open spec fn resting_height(r: Rect) -> int {
    r.top() + PLAYER_HALF_SIZE
}

impl Body {
    /// Every coordinate can be stored in an `i64`.
    pub open spec fn representable(self) -> bool {
        fits(self.x) && fits(self.y) && fits(self.vx) && fits(self.vy)
    }

    /// The player's box.
    pub open spec fn bounds(self) -> Rect {
        player_rect(self.x, self.y)
    }

    /// The player's box overlaps `r`.
    pub open spec fn hits(self, r: Rect) -> bool {
        self.bounds().overlaps(r)
    }

    /// Horizontal movement: the position changes by a constant speed times
    /// the time step; nothing else changes.
    pub open spec fn moved(self, left: bool, right: bool, dt: int) -> Body {
        Body { x: self.x + horizontal_shift(left, right, dt), ..self }
    }

    /// Gravity changes the vertical velocity first; the position then
    /// advances by the new velocity.
    pub open spec fn integrated(self, dt: int) -> Body {
        let vy = self.vy + GRAVITY * dt;
        Body { x: self.x + self.vx * dt, y: self.y + vy * dt, vy: vy, ..self }
    }

    /// The player at rest on top of `r`.
    pub open spec fn landed_on(self, r: Rect) -> Body {
        Body { y: resting_height(r), vy: 0, airborne: false, ..self }
    }

    /// `platforms[i]` is the last box in the sequence that the player's box
    /// overlaps.
    pub open spec fn is_last_hit(self, platforms: Seq<Rect>, i: int) -> bool {
        &&& 0 <= i < platforms.len()
        &&& self.hits(platforms[i])
        &&& forall|j: int| i < j < platforms.len() ==> !self.hits(#[trigger] platforms[j])
    }

    /// The player's box overlaps one of the boxes.
    pub open spec fn on_platform(self, platforms: Seq<Rect>) -> bool {
        exists|i: int| 0 <= i < platforms.len() && self.hits(#[trigger] platforms[i])
    }

    /// Landing: a falling player that overlaps a platform comes to rest on
    /// top of one. Each platform is tested against the player as it was
    /// before landing, and there is no priority among them: where the player
    /// overlaps several, the last of the sequence decides.
    pub open spec fn resolved(self, platforms: Seq<Rect>) -> Body {
        if self.vy < 0 && self.on_platform(platforms) {
            self.landed_on(platforms[choose|i: int| self.is_last_hit(platforms, i)])
        } else {
            self
        }
    }

    /// One frame of gravity: integration, then landing.
    pub open spec fn fallen(self, platforms: Seq<Rect>, dt: int) -> Body {
        self.integrated(dt).resolved(platforms)
    }

    /// Jumping: a key press takes effect only while the player's box
    /// overlaps a platform.
    pub open spec fn jumped(self, platforms: Seq<Rect>, pressed: bool) -> Body {
        if pressed && self.on_platform(platforms) {
            Body { vy: JUMP_FORCE as int, airborne: true, ..self }
        } else {
            self
        }
    }
}

/// A static platform: the centre of its box and its half-extents.
#[derive(Clone, Copy, Debug, PartialEq, Eq, Structural)]
pub struct Platform {
    pub position: Vector,
    pub half_extents: Vector,
}

impl View for Platform {
    type V = Rect;

    open spec fn view(&self) -> Rect {
        Rect {
            cx: self.position.x as int,
            cy: self.position.y as int,
            hx: self.half_extents.x as int,
            hy: self.half_extents.y as int,
        }
    }
}

/// The boxes of a sequence of platforms, in the same order.
pub open spec fn rects(platforms: Seq<Platform>) -> Seq<Rect> {
    Seq::new(platforms.len(), |i: int| platforms[i]@)
}

/// Every platform of the sequence is valid.
pub open spec fn all_valid(platforms: Seq<Platform>) -> bool {
    forall|i: int| 0 <= i < platforms.len() ==> (#[trigger] platforms[i]).valid()
}

impl Platform {
    /// A platform is valid when the height at which the player rests on it
    /// can be stored.
    pub open spec fn valid(self) -> bool {
        fits(resting_height(self@))
    }

    /// A platform with its centre at `position`.
    pub fn new(position: Vector, half_extents: Vector) -> (p: Platform)
        ensures
            p.position == position,
            p.half_extents == half_extents,
    {
        Platform { position, half_extents }
    }

    /// The platform's box.
    pub fn bounds(&self) -> (b: Aabb)
        ensures
            b@ == self@,
    {
        Aabb { center: self.position, half_extents: self.half_extents }
    }

    /// Whether the platform is valid.
    pub fn is_valid(&self) -> (ok: bool)
        ensures
            ok == self.valid(),
    {
        let h: i128 = self.position.y as i128 + self.half_extents.y as i128
            + PLAYER_HALF_SIZE as i128;
        in_range(h)
    }

    /// The height at which the player rests on this platform.
    pub fn resting_height(&self) -> (h: i64)
        requires
            self.valid(),
        ensures
            h == resting_height(self@),
    {
        let h: i128 = self.position.y as i128 + self.half_extents.y as i128
            + PLAYER_HALF_SIZE as i128;
        h as i64
    }
}

/// Whether a player centred at `player` overlaps `platform`.
pub fn check_collision(player: &Vector, platform: &Platform) -> (hit: bool)
    ensures
        hit == player_rect(player.x as int, player.y as int).overlaps(platform@),
{
    let size = Vector { x: PLAYER_HALF_SIZE, y: PLAYER_HALF_SIZE };
    let player_box = Aabb { center: *player, half_extents: size };
    player_box.overlaps(&platform.bounds())
}

/// The player.
#[derive(Clone, Copy, Debug, PartialEq, Eq, Structural)]
pub struct Player {
    pub position: Vector,
    pub velocity: Vector,
    pub is_jumping: bool,
}

impl View for Player {
    type V = Body;

    open spec fn view(&self) -> Body {
        Body {
            x: self.position.x as int,
            y: self.position.y as int,
            vx: self.velocity.x as int,
            vy: self.velocity.y as int,
            airborne: self.is_jumping,
        }
    }
}

/// A product of a factor of at most 65 bits and one of 32 bits stays far
/// inside 128 bits.
proof fn lemma_product_bound(a: int, b: int)
    requires
        -0x1_0000_0000_0000_0000 <= a <= 0x1_0000_0000_0000_0000,
        0 <= b <= 0x1_0000_0000,
    ensures
        -0x1_0000_0000_0000_0000_0000_0000 <= a * b <= 0x1_0000_0000_0000_0000_0000_0000,
{
    assert(-0x1_0000_0000_0000_0000_0000_0000 <= a * b <= 0x1_0000_0000_0000_0000_0000_0000)
        by (nonlinear_arith)
        requires
            -0x1_0000_0000_0000_0000 <= a <= 0x1_0000_0000_0000_0000,
            0 <= b <= 0x1_0000_0000,
    ;
}

/// Whether a 128-bit value can be stored in an `i64`.
fn in_range(n: i128) -> (ok: bool)
    ensures
        ok == fits(n as int),
{
    i64::MIN as i128 <= n && n <= i64::MAX as i128
}

impl Player {
    /// A player at rest at `position`.
    pub fn new(position: Vector) -> (p: Player)
        ensures
            p.position == position,
            p.velocity == (Vector { x: 0, y: 0 }),
            !p.is_jumping,
    {
        Player { position, velocity: Vector { x: 0, y: 0 }, is_jumping: false }
    }

    /// The player's box.
    pub fn bounds(&self) -> (b: Aabb)
        ensures
            b@ == self@.bounds(),
    {
        Aabb {
            center: self.position,
            half_extents: Vector { x: PLAYER_HALF_SIZE, y: PLAYER_HALF_SIZE },
        }
    }

    /// The horizontal position after movement, in 128 bits.
    fn moved_x(&self, left: bool, right: bool, dt: u32) -> (x: i128)
        ensures
            x == self@.moved(left, right, dt as int).x,
    {
        proof {
            lemma_product_bound(MOVE_SPEED as int, dt as int);
        }
        let step: i128 = MOVE_SPEED as i128 * dt as i128;
        let mut x: i128 = self.position.x as i128;
        if right {
            x = x + step;
        }
        if left {
            x = x - step;
        }
        x
    }

    /// Whether the position after `player_movement` can be stored.
    pub fn can_move(&self, left: bool, right: bool, dt: u32) -> (ok: bool)
        ensures
            ok == self@.moved(left, right, dt as int).representable(),
    {
        in_range(self.moved_x(left, right, dt))
    }

    /// Horizontal movement for one frame of `dt` ticks.
    pub fn player_movement(&mut self, left: bool, right: bool, dt: u32)
        requires
            old(self)@.moved(left, right, dt as int).representable(),
        ensures
            final(self)@ == old(self)@.moved(left, right, dt as int),
    {
        self.position.x = self.moved_x(left, right, dt) as i64;
    }

    /// Vertical velocity and position after gravity and motion, in 128 bits:
    /// the velocity, then the two coordinates.
    fn integrated_parts(&self, dt: u32) -> (r: (i128, i128, i128))
        ensures
            r.0 == self@.integrated(dt as int).vy,
            r.1 == self@.integrated(dt as int).x,
            r.2 == self@.integrated(dt as int).y,
    {
        proof {
            lemma_product_bound(GRAVITY as int, dt as int);
        }
        let vy: i128 = self.velocity.y as i128 + GRAVITY as i128 * dt as i128;
        proof {
            lemma_product_bound(self.velocity.x as int, dt as int);
            lemma_product_bound(vy as int, dt as int);
        }
        let x: i128 = self.position.x as i128 + self.velocity.x as i128 * dt as i128;
        let y: i128 = self.position.y as i128 + vy * dt as i128;
        (vy, x, y)
    }

    /// Whether velocity and position after `integrate` can be stored.
    pub fn can_integrate(&self, dt: u32) -> (ok: bool)
        ensures
            ok == self@.integrated(dt as int).representable(),
    {
        let (vy, x, y) = self.integrated_parts(dt);
        in_range(vy) && in_range(x) && in_range(y)
    }

    /// Gravity and motion for one frame of `dt` ticks: gravity changes the
    /// vertical velocity, then the position advances by the new velocity.
    pub fn integrate(&mut self, dt: u32)
        requires
            old(self)@.integrated(dt as int).representable(),
        ensures
            final(self)@ == old(self)@.integrated(dt as int),
    {
        let (vy, x, y) = self.integrated_parts(dt);
        self.velocity.y = vy as i64;
        self.position.x = x as i64;
        self.position.y = y as i64;
    }

    /// Landing. Every platform is tested, in order, against the player as it
    /// is on entry; a falling player is put on top of each platform that it
    /// overlaps, so the last of them decides, and stops falling.
    pub fn resolve_landing(&mut self, platforms: &Vec<Platform>)
        requires
            all_valid(platforms@),
        ensures
            final(self)@ == old(self)@.resolved(rects(platforms@)),
    {
        let ghost start = self@;
        let ghost boxes = rects(platforms@);
        let ghost mut landing: Option<int> = None;
        let falling = self.velocity.y < 0;
        let center = self.position;
        let mut i: usize = 0;
        while i < platforms.len()
            invariant
                i <= platforms.len(),
                boxes == rects(platforms@),
                all_valid(platforms@),
                falling == (start.vy < 0),
                center.x == start.x,
                center.y == start.y,
                match landing {
                    None => self@ == start && (falling ==> forall|j: int|
                        0 <= j < i ==> !start.hits(#[trigger] boxes[j])),
                    Some(k) => {
                        &&& falling
                        &&& 0 <= k < i
                        &&& start.hits(boxes[k])
                        &&& forall|j: int| k < j < i ==> !start.hits(#[trigger] boxes[j])
                        &&& self@ == start.landed_on(boxes[k])
                    },
                },
            decreases platforms.len() - i,
        {
            let platform = &platforms[i];
            assert(platform@ == boxes[i as int]);
            if check_collision(&center, platform) {
                if falling {
                    self.position.y = platform.resting_height();
                    self.velocity.y = 0;
                    self.is_jumping = false;
                    proof {
                        landing = Some(i as int);
                    }
                }
            }
            i = i + 1;
        }
        proof {
            lemma_resolved_by_last_hit(start, boxes, landing);
        }
    }

    /// Gravity for one frame: integration, then landing.
    pub fn apply_gravity(&mut self, platforms: &Vec<Platform>, dt: u32)
        requires
            old(self)@.integrated(dt as int).representable(),
            all_valid(platforms@),
        ensures
            final(self)@ == old(self)@.fallen(rects(platforms@), dt as int),
    {
        self.integrate(dt);
        self.resolve_landing(platforms);
    }

    /// Whether the player's box overlaps a platform.
    pub fn on_platform(&self, platforms: &Vec<Platform>) -> (found: bool)
        ensures
            found == self@.on_platform(rects(platforms@)),
    {
        let ghost boxes = rects(platforms@);
        let mut i: usize = 0;
        while i < platforms.len()
            invariant
                i <= platforms.len(),
                boxes == rects(platforms@),
                forall|j: int| 0 <= j < i ==> !self@.hits(#[trigger] boxes[j]),
            decreases platforms.len() - i,
        {
            assert(platforms[i as int]@ == boxes[i as int]);
            if check_collision(&self.position, &platforms[i]) {
                return true;
            }
            i = i + 1;
        }
        false
    }

    /// Jumping. `pressed` says that the jump key went down in this frame.
    pub fn jump(&mut self, platforms: &Vec<Platform>, pressed: bool)
        ensures
            final(self)@ == old(self)@.jumped(rects(platforms@), pressed),
    {
        let can_jump = self.on_platform(platforms);
        if pressed && can_jump {
            self.velocity.y = JUMP_FORCE;
            self.is_jumping = true;
        }
    }

    /// Whether the player's centre is at or below the ground line. The ground
    /// line does not stop the player.
    pub fn ground_collision(&self) -> (below: bool)
        ensures
            below == (self@.y <= GROUND_LEVEL),
    {
        self.position.y <= GROUND_LEVEL
    }
}

/// What the landing loop has found agrees with `Body::resolved`: the last
/// platform hit is unique.
proof fn lemma_resolved_by_last_hit(b: Body, boxes: Seq<Rect>, landing: Option<int>)
    requires
        match landing {
            None => b.vy < 0 ==> forall|j: int|
                0 <= j < boxes.len() ==> !b.hits(#[trigger] boxes[j]),
            Some(k) => b.vy < 0 && b.is_last_hit(boxes, k),
        },
    ensures
        b.resolved(boxes) == match landing {
            None => b,
            Some(k) => b.landed_on(boxes[k]),
        },
{
    match landing {
        None => {},
        Some(k) => {
            assert(b.hits(boxes[k]));
            assert(b.on_platform(boxes));
            let c = choose|i: int| b.is_last_hit(boxes, i);
            assert(b.is_last_hit(boxes, c));
            if c < k {
                assert(!b.hits(boxes[k]));
            }
            if k < c {
                assert(!b.hits(boxes[c]));
            }
        },
    }
}

} // verus!
