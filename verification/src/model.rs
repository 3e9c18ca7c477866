//! The animation state machine: one orbit is a sequence of rings, each ring
//! one full sweep of a shape at a fixed radial offset. The machine advances
//! once per frame and re-rolls colors, sizes and speeds at ring and orbit
//! boundaries.
//!
//! Radial lengths (`distance_step2`, `current_distance2`, `max_distance2`)
//! are stored doubled, in half-units, so that the ring step — half of the
//! current radius — stays an exact integer.

use vstd::prelude::*;
use crate::color::{IntColor, is_mix_of};
use crate::rng::rand_u32_in;

verus! {

/// The phase of the animation, one per frame's worth of work.
#[derive(Clone, Copy, Debug, PartialEq, Eq, Structural)]
pub enum AppState {
    /// The freshly constructed model; treated like any unexpected phase and
    /// sent to `Clear`.
    Initialize,
    /// The frame that wipes the canvas; moves on unconditionally.
    Clear,
    /// A ring is sweeping: the sweep counter advances every frame.
    Update,
    /// A whole orbit is done: reset position, re-roll base color and shape,
    /// then wait.
    NewOrbit,
    /// A ring is done: step outward and re-roll the ring's color, size and
    /// speed, or finish the orbit when the ceiling is passed.
    Reset,
    /// Idle until the advance key starts the next sweep.
    Wait,
}

/// The outline drawn for an orbit, picked once per orbit.
#[derive(Clone, Copy, Debug, PartialEq, Eq, Structural)]
pub enum Shape {
    Square,
    Circle,
    IsoTriangle,
}

/// The ceiling on `current_distance2` (in half-units): an orbit that steps
/// past it is complete.
pub const MAX_DISTANCE2: u32 = 1200;

/// The whole mutable animation state, advanced in place once per frame.
#[derive(Clone, Copy, Debug)]
pub struct Model {
    pub app_state: AppState,
    /// Size of the current shape, re-rolled per ring, uniform in `[10, 40)`.
    pub radius: u32,
    /// Outward step per completed ring, in half-units: equals `radius`,
    /// i.e. half the radius in whole units.
    pub distance_step2: u32,
    /// Current radial offset in half-units; starts an orbit at `4 * radius`
    /// (twice the radius in whole units) and grows by `distance_step2` per
    /// ring.
    pub current_distance2: u32,
    /// Frames elapsed in the current ring's sweep.
    pub orbit_step: u32,
    /// Frames a full sweep takes, re-rolled per ring, uniform in `[80, 250)`.
    pub max_orbit_step: u32,
    /// The ceiling at which an orbit is complete; always [`MAX_DISTANCE2`].
    pub max_distance2: u32,
    /// The color the current ring is stroked with: a mix of
    /// `current_mix_color`, re-rolled per ring.
    pub current_color: IntColor,
    /// The base color the ring colors are jittered around, re-rolled per
    /// orbit.
    pub current_mix_color: IntColor,
    /// The orbit's outline, re-rolled per orbit.
    pub shape: Shape,
}

impl Model {
    /// Well-formedness: field ranges, the ties between `radius` and the ring
    /// step and between phase and counters — everything a constructed model
    /// satisfies and every frame preserves.
    pub open spec fn wf(self) -> bool {
        &&& 10 <= self.radius < 40
        &&& self.distance_step2 == self.radius
        &&& 80 <= self.max_orbit_step < 250
        &&& self.max_distance2 == MAX_DISTANCE2
        &&& self.current_color.wf()
        &&& self.current_mix_color.wf()
        &&& (self.app_state is Wait ==> self.orbit_step == 0)
        &&& ((self.app_state is Initialize || self.app_state is Clear || self.app_state is Update)
            ==> self.orbit_step <= self.max_orbit_step)
        &&& self.orbit_step <= self.max_orbit_step + 1
        &&& (!(self.app_state is NewOrbit) ==> self.current_distance2 <= self.max_distance2)
        &&& self.current_distance2 <= self.max_distance2 + self.distance_step2
    }

    /// Executable check of [`Model::wf`], for hosts that build a model by
    /// hand and owe `update` a well-formed one.
    pub fn check_wf(&self) -> (b: bool)
        ensures
            b == self.wf(),
    {
        let phase_ok: bool = match self.app_state {
            AppState::Wait => self.orbit_step == 0,
            AppState::Initialize | AppState::Clear | AppState::Update =>
                self.orbit_step <= self.max_orbit_step,
            _ => true,
        };
        let distance_ok: bool = match self.app_state {
            AppState::NewOrbit => true,
            _ => self.current_distance2 <= self.max_distance2,
        };
        10 <= self.radius && self.radius < 40
            && self.distance_step2 == self.radius
            && 80 <= self.max_orbit_step && self.max_orbit_step < 250
            && self.max_distance2 == MAX_DISTANCE2
            && self.current_color.r <= 255 && self.current_color.g <= 255
            && self.current_color.b <= 255
            && self.current_mix_color.r <= 255 && self.current_mix_color.g <= 255
            && self.current_mix_color.b <= 255
            && phase_ok
            && self.orbit_step <= self.max_orbit_step + 1
            && distance_ok
            && self.current_distance2 <= self.max_distance2 + self.distance_step2
    }

    /// Frames for a full sweep: uniform in `[80, 250)`.
    pub fn rand_max_orbit_step() -> (n: u32)
        ensures
            80 <= n < 250,
    {
        rand_u32_in(80, 250)
    }

    /// A shape size: uniform in `[10, 40)`.
    pub fn rand_radius() -> (n: u32)
        ensures
            10 <= n < 40,
    {
        rand_u32_in(10, 40)
    }

    /// A shape drawn uniformly from the three variants.
    pub fn rand_shape() -> Shape {
        shape_of_index(rand_u32_in(0, 3))
    }

    /// A fresh model in the given phase: position and counters at an orbit's
    /// start, ring size and speed rolled, the draw color mixed from the
    /// given base color.
    pub fn new(app_state: AppState, mix_color: IntColor) -> (m: Model)
        requires
            mix_color.wf(),
        ensures
            m.wf(),
            m.app_state == app_state,
            m.orbit_step == 0,
            m.max_distance2 == MAX_DISTANCE2,
            m.current_mix_color == mix_color,
            is_mix_of(m.current_color, mix_color),
            m.distance_step2 == m.radius,
            m.current_distance2 == 4 * m.radius,
    {
        let radius = Model::rand_radius();
        Model {
            app_state,
            radius,
            distance_step2: radius,
            current_distance2: 4 * radius,
            orbit_step: 0,
            max_orbit_step: Model::rand_max_orbit_step(),
            max_distance2: MAX_DISTANCE2,
            current_color: mix_color.new_mix_color(),
            current_mix_color: mix_color,
            shape: Model::rand_shape(),
        }
    }
}

/// The shape picked for a uniform index in `[0, 3)`; anything else falls
/// back to a circle.
pub open spec fn spec_shape_of_index(n: int) -> Shape {
    if n == 1 {
        Shape::Square
    } else if n == 2 {
        Shape::IsoTriangle
    } else {
        Shape::Circle
    }
}

/// Executable form of [`spec_shape_of_index`].
pub fn shape_of_index(n: u32) -> (s: Shape)
    ensures
        s == spec_shape_of_index(n as int),
{
    match n {
        0 => Shape::Circle,
        1 => Shape::Square,
        2 => Shape::IsoTriangle,
        _ => Shape::Circle,
    }
}

/// The per-phase action and transition of one frame, before the restart
/// override: `post` is a possible successor of `pre` when the advance key is
/// `space_down`. Re-rolled fields are pinned only to their ranges (or, for a
/// color, to being a mix of the base); everything else is exact.
pub open spec fn step_state(pre: Model, post: Model, space_down: bool) -> bool {
    match pre.app_state {
        AppState::Clear => post == (Model { app_state: AppState::Update, ..pre }),
        AppState::Update => {
            if pre.orbit_step + 1 > pre.max_orbit_step {
                post == (Model {
                    app_state: AppState::Reset,
                    orbit_step: (pre.orbit_step + 1) as u32,
                    ..pre
                })
            } else {
                post == (Model { orbit_step: (pre.orbit_step + 1) as u32, ..pre })
            }
        },
        AppState::Reset => {
            let stepped = pre.current_distance2 + pre.distance_step2;
            if stepped > pre.max_distance2 {
                post == (Model {
                    app_state: AppState::NewOrbit,
                    current_distance2: stepped as u32,
                    ..pre
                })
            } else {
                // a new ring: color, speed and size re-rolled, the ring step
                // recomputed from the new radius
                &&& post.app_state is Update
                &&& post.orbit_step == 0
                &&& post.current_distance2 == stepped
                &&& post.current_color.wf()
                &&& is_mix_of(post.current_color, pre.current_mix_color)
                &&& 80 <= post.max_orbit_step < 250
                &&& 10 <= post.radius < 40
                &&& post.distance_step2 == post.radius
                &&& post.current_mix_color == pre.current_mix_color
                &&& post.shape == pre.shape
                &&& post.max_distance2 == pre.max_distance2
            }
        },
        AppState::NewOrbit => {
            // a new orbit: position reset, base color and shape re-rolled
            &&& post.app_state is Wait
            &&& post.orbit_step == 0
            &&& post.current_distance2 == 4 * pre.radius
            &&& post.current_mix_color.wf()
            &&& post.current_color.wf()
            &&& is_mix_of(post.current_color, post.current_mix_color)
            &&& post.radius == pre.radius
            &&& post.distance_step2 == pre.distance_step2
            &&& post.max_orbit_step == pre.max_orbit_step
            &&& post.max_distance2 == pre.max_distance2
        },
        AppState::Wait => {
            if space_down {
                post == (Model { app_state: AppState::Clear, ..pre })
            } else {
                post == pre
            }
        },
        AppState::Initialize => post == (Model { app_state: AppState::Clear, ..pre }),
    }
}

/// One full frame: the per-phase step, then the restart override — when the
/// restart key is down the phase is forced to `NewOrbit`, whatever the
/// per-phase step chose.
pub open spec fn step(pre: Model, post: Model, space_down: bool, c_down: bool) -> bool {
    exists|mid: Model|
        step_state(pre, mid, space_down) && post == (if c_down {
            Model { app_state: AppState::NewOrbit, ..mid }
        } else {
            mid
        })
}

/// Advance the animation by one frame. `space_down` and `c_down` say whether
/// the advance key and the restart key are held this frame.
pub fn update(model: &mut Model, space_down: bool, c_down: bool)
    requires
        old(model).wf(),
    ensures
        final(model).wf(),
        step(*old(model), *final(model), space_down, c_down),
        c_down ==> final(model).app_state is NewOrbit,
{
    match model.app_state {
        AppState::Clear => {
            model.app_state = AppState::Update;
        },
        AppState::Update => {
            model.orbit_step = model.orbit_step + 1;
            if model.orbit_step > model.max_orbit_step {
                model.app_state = AppState::Reset;
            }
        },
        AppState::Reset => {
            model.current_distance2 = model.current_distance2 + model.distance_step2;
            if model.current_distance2 > model.max_distance2 {
                model.app_state = AppState::NewOrbit;
            } else {
                model.orbit_step = 0;
                model.current_color = model.current_mix_color.new_mix_color();
                model.max_orbit_step = Model::rand_max_orbit_step();
                model.radius = Model::rand_radius();
                model.distance_step2 = model.radius;
                model.app_state = AppState::Update;
            }
        },
        AppState::NewOrbit => {
            model.orbit_step = 0;
            model.current_distance2 = 4 * model.radius;
            model.current_mix_color = IntColor::rand();
            model.current_color = model.current_mix_color.new_mix_color();
            model.shape = Model::rand_shape();
            model.app_state = AppState::Wait;
        },
        AppState::Wait => {
            if space_down {
                model.app_state = AppState::Clear;
            }
        },
        AppState::Initialize => {
            model.app_state = AppState::Clear;
        },
    }

    let ghost mid = *model;

    if c_down {
        model.app_state = AppState::NewOrbit;
    }

    proof {
        assert(step_state(*old(model), mid, space_down));
    }
}

/// Within a ring the radial offset is constant: a frame spent sweeping
/// (`Update`) never moves the shape. Across rings it strictly grows: the
/// frame that completes a ring (`Reset`) pushes the offset outward by
/// exactly the ring step in force at that ring's start.
pub proof fn lemma_ring_distance(pre: Model, post: Model, space_down: bool, c_down: bool)
    requires
        pre.wf(),
        step(pre, post, space_down, c_down),
    ensures
        pre.app_state is Update ==> post.current_distance2 == pre.current_distance2,
        pre.app_state is Reset ==> {
            &&& post.current_distance2 == pre.current_distance2 + pre.distance_step2
            &&& post.current_distance2 > pre.current_distance2
        },
{
    let mid = choose|mid: Model|
        step_state(pre, mid, space_down) && post == (if c_down {
            (Model { app_state: AppState::NewOrbit, ..mid })
        } else {
            mid
        });
    assert(step_state(pre, mid, space_down));
}

/// From `Wait` with the advance key held, one frame reaches `Clear`; the
/// frame after that reaches `Update` with the sweep counter at zero, ready
/// for a fresh sweep.
pub proof fn lemma_wait_advance(pre: Model, mid: Model, post: Model, space_down: bool)
    requires
        pre.wf(),
        pre.app_state is Wait,
        step(pre, mid, true, false),
        step(mid, post, space_down, false),
    ensures
        mid.app_state is Clear,
        post.app_state is Update,
        post.orbit_step == 0,
{
    assert(step_state(pre, mid, true));
    assert(step_state(mid, post, space_down));
}

/// The restart key forces `NewOrbit` from any state; the following frame
/// zeroes the sweep counter and pulls the radial offset back to the orbit's
/// start, twice the current radius (four of its half-units).
pub proof fn lemma_restart(pre: Model, mid: Model, post: Model, space1: bool, space2: bool)
    requires
        pre.wf(),
        step(pre, mid, space1, true),
        step(mid, post, space2, false),
    ensures
        mid.app_state is NewOrbit,
        post.app_state is Wait,
        post.orbit_step == 0,
        post.current_distance2 == 4 * mid.radius,
{
    let m1 = choose|m: Model|
        step_state(pre, m, space1) && mid == (Model { app_state: AppState::NewOrbit, ..m });
    assert(step_state(pre, m1, space1));
    assert(step_state(mid, post, space2));
}

} // verus!
