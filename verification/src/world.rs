//! The whole scene: one player and its platforms, advanced frame by frame.
use vstd::prelude::*;
use crate::geometry::{Rect, Vector};
use crate::player::{all_valid, rects, Body, Platform, Player, GROUND_LEVEL};

verus! {

/// The keys as one frame sees them: `left` and `right` are held, `jump` went
/// down in this frame.
#[derive(Clone, Copy, Debug, PartialEq, Eq, Structural)]
pub struct Input {
    pub left: bool,
    pub right: bool,
    pub jump: bool,
}

/// The scene as mathematics sees it.
pub struct Scene {
    pub body: Body,
    pub platforms: Seq<Rect>,
}

impl Scene {
    /// The player after horizontal movement, the first stage of a frame.
    pub open spec fn after_movement(self, input: Input, dt: int) -> Body {
        self.body.moved(input.left, input.right, dt)
    }

    /// Every value that the frame computes can be stored.
    pub open spec fn steppable(self, input: Input, dt: int) -> bool {
        &&& self.after_movement(input, dt).representable()
        &&& self.after_movement(input, dt).integrated(dt).representable()
    }

    /// One frame: horizontal movement, then gravity and landing, then the
    /// jump. The platforms never change.
    pub open spec fn stepped(self, input: Input, dt: int) -> Scene {
        Scene {
            body: self.after_movement(input, dt).fallen(self.platforms, dt).jumped(
                self.platforms,
                input.jump,
            ),
            platforms: self.platforms,
        }
    }
}

/// The scene at the start of a run: the player at rest on the ground line,
/// two platforms on top of each other below it and one up to the right.
pub open spec fn initial_scene() -> Scene {
    Scene {
        body: Body { x: 0, y: GROUND_LEVEL as int, vx: 0, vy: 0, airborne: false },
        platforms: seq![
            Rect { cx: 0, cy: -1_500_000_000, hx: 1_000_000_000, hy: 100_000_000 },
            Rect { cx: 0, cy: -1_500_000_000, hx: 1_000_000_000, hy: 100_000_000 },
            Rect { cx: 2_000_000_000, cy: -500_000_000, hx: 1_000_000_000, hy: 100_000_000 },
        ],
    }
}

/// One player and the platforms it can land on.
#[derive(Debug)]
pub struct World {
    pub player: Player,
    pub platforms: Vec<Platform>,
}

impl View for World {
    type V = Scene;

    open spec fn view(&self) -> Scene {
        Scene { body: self.player@, platforms: rects(self.platforms@) }
    }
}

impl Clone for World {
    fn clone(&self) -> (w: World)
        ensures
            w.player == self.player,
            w.platforms@ == self.platforms@,
    {
        let mut platforms: Vec<Platform> = Vec::new();
        let mut i: usize = 0;
        while i < self.platforms.len()
            invariant
                i <= self.platforms.len(),
                platforms@ == self.platforms@.take(i as int),
            decreases self.platforms.len() - i,
        {
            platforms.push(self.platforms[i]);
            assert(self.platforms@.take(i + 1) == self.platforms@.take(i as int).push(
                self.platforms@[i as int],
            ));
            i = i + 1;
        }
        assert(self.platforms@.take(i as int) == self.platforms@);
        World { player: self.player, platforms }
    }
}

impl World {
    /// Every platform is valid.
    pub open spec fn wf(self) -> bool {
        all_valid(self.platforms@)
    }

    /// The scene at the start of a run.
    pub fn setup() -> (w: World)
        ensures
            w.wf(),
            w@ == initial_scene(),
    {
        let half = Vector { x: 1_000_000_000, y: 100_000_000 };
        let low = Platform { position: Vector { x: 0, y: -1_500_000_000 }, half_extents: half };
        let high = Platform {
            position: Vector { x: 2_000_000_000, y: -500_000_000 },
            half_extents: half,
        };
        let mut platforms: Vec<Platform> = Vec::new();
        platforms.push(low);
        platforms.push(low);
        platforms.push(high);
        let player = Player {
            position: Vector { x: 0, y: GROUND_LEVEL },
            velocity: Vector { x: 0, y: 0 },
            is_jumping: false,
        };
        let w = World { player, platforms };
        assert(w@.platforms =~= initial_scene().platforms);
        w
    }

    /// A scene of the caller's own, or `None` if one of the platforms is not
    /// valid.
    pub fn from_parts(player: Player, platforms: Vec<Platform>) -> (w: Option<World>)
        ensures
            w.is_some() == all_valid(platforms@),
            w matches Some(world) ==> world.wf() && world.player == player && world.platforms
                == platforms,
    {
        let mut i: usize = 0;
        while i < platforms.len()
            invariant
                i <= platforms.len(),
                forall|j: int| 0 <= j < i ==> (#[trigger] platforms@[j]).valid(),
            decreases platforms.len() - i,
        {
            if !platforms[i].is_valid() {
                return None;
            }
            i = i + 1;
        }
        Some(World { player, platforms })
    }

    /// Whether `step` can store every value it computes for this frame.
    pub fn can_step(&self, input: Input, dt: u32) -> (ok: bool)
        ensures
            ok == self@.steppable(input, dt as int),
    {
        let mut probe = self.player;
        if !probe.can_move(input.left, input.right, dt) {
            return false;
        }
        probe.player_movement(input.left, input.right, dt);
        probe.can_integrate(dt)
    }

    /// One frame of `dt` ticks.
    pub fn step(&mut self, input: Input, dt: u32)
        requires
            old(self).wf(),
            old(self)@.steppable(input, dt as int),
        ensures
            final(self).wf(),
            final(self).platforms == old(self).platforms,
            final(self)@ == old(self)@.stepped(input, dt as int),
    {
        self.player.player_movement(input.left, input.right, dt);
        self.player.apply_gravity(&self.platforms, dt);
        self.player.jump(&self.platforms, input.jump);
    }

    /// One frame of `dt` ticks where every value can be stored; otherwise the
    /// scene stays as it is and the result is `false`.
    pub fn try_step(&mut self, input: Input, dt: u32) -> (done: bool)
        requires
            old(self).wf(),
        ensures
            final(self).wf(),
            final(self).platforms == old(self).platforms,
            done == old(self)@.steppable(input, dt as int),
            done ==> final(self)@ == old(self)@.stepped(input, dt as int),
            !done ==> *final(self) == *old(self),
    {
        if self.can_step(input, dt) {
            self.step(input, dt);
            true
        } else {
            false
        }
    }
}

} // verus!
