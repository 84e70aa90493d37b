use vstd::prelude::*;
use crate::component::{Actor, AppState, Building, IsOnFloor, Velocity};
use crate::config::{Config, BOUND};
use crate::field::{building_translation, recycled, reset_building_oob, scrolled};
use crate::geometry::Rect;
use crate::laws::{lemma_field_stays_in_limits, lemma_presses_keep_position};
use crate::system::{
    after_gravity, after_outcome, after_presses, apply_velocity, collision_detection, detect,
    gravity, handle_presses, landed, loose_condition, resume_on_click, square_landing,
};

verus! {

/// The whole simulated scene.
#[derive(Debug)]
pub struct World {
    pub actor: Actor,
    pub buildings: Vec<Building>,
    pub state: AppState,
}

/// The `i`-th building of the starting layout: spaced by the gap leftward from
/// the upper limit, at the top of the offset range, a little wider than the
/// gap so that neighbours touch.
pub open spec fn initial_building(cfg: Config, i: int) -> Building {
    Building {
        body: Rect {
            x: (cfg.upper_limit - cfg.gap * (i + 1)) as i64,
            y: (cfg.horizon + cfg.height_offset_range) as i64,
            half_width: (cfg.gap / 2 + 1) as i64,
            half_height: cfg.base_half_height,
        },
    }
}

/// The actor at the start of a session: at rest, airborne, just above the
/// highest building top.
pub open spec fn initial_actor(cfg: Config) -> Actor {
    Actor {
        body: Rect {
            x: 0,
            y: (cfg.horizon + cfg.height_offset_range + cfg.base_half_height
                + cfg.square_half_size) as i64,
            half_width: cfg.square_half_size,
            half_height: cfg.square_half_size,
        },
        velocity: Velocity(0),
        on_floor: IsOnFloor(false),
    }
}

/// A building the field may hold.
pub open spec fn building_ok(cfg: Config, b: Building) -> bool {
    &&& 0 < b.body.half_width <= BOUND
    &&& b.body.half_height == cfg.base_half_height
    &&& cfg.lower_limit <= b.body.x <= cfg.upper_limit
    &&& cfg.horizon - cfg.height_offset_range <= b.body.y <= cfg.horizon + cfg.height_offset_range
}

/// The actor after gravity and integration over `dt`.
pub open spec fn moved(actor: Actor, cfg: Config, dt: int) -> Actor {
    let v = after_gravity(actor, cfg.gravity as int, dt);
    Actor {
        body: Rect { y: (actor.body.y + v * dt) as i64, ..actor.body },
        velocity: Velocity(v as i64),
        ..actor
    }
}

/// Gravity and integration over `dt` stay within `i64`.
pub open spec fn motion_fits(actor: Actor, cfg: Config, dt: int) -> bool {
    let v = after_gravity(actor, cfg.gravity as int, dt);
    &&& i64::MIN <= v <= i64::MAX
    &&& -BOUND * 4 <= actor.body.y + v * dt <= BOUND * 4
}

impl World {
    pub open spec fn wf(self, cfg: Config) -> bool {
        &&& cfg.wf()
        &&& self.buildings@.len() == cfg.count
        &&& forall|i: int|
            0 <= i < self.buildings@.len() ==> building_ok(cfg, #[trigger] self.buildings@[i])
        &&& self.actor.body.half_width == cfg.square_half_size
        &&& self.actor.body.half_height == cfg.square_half_size
    }
}

/// Places the actor and the buildings at their starting positions.
pub fn start_position_setup(world: &mut World, cfg: &Config)
    requires
        cfg.wf(),
        old(world).buildings@.len() == cfg.count,
    ensures
        final(world).actor == initial_actor(*cfg),
        final(world).state == old(world).state,
        final(world).buildings@.len() == cfg.count,
        forall|i: int|
            0 <= i < cfg.count ==> #[trigger] final(world).buildings@[i] == initial_building(
                *cfg,
                i,
            ),
        final(world).wf(*cfg),
{
    world.actor = Actor {
        body: Rect {
            x: 0,
            y: cfg.horizon + cfg.height_offset_range + cfg.base_half_height + cfg.square_half_size,
            half_width: cfg.square_half_size,
            half_height: cfg.square_half_size,
        },
        velocity: Velocity(0),
        on_floor: IsOnFloor(false),
    };
    let mut start: i64 = cfg.upper_limit - cfg.gap;
    let mut i: usize = 0;
    while i < world.buildings.len()
        invariant
            cfg.wf(),
            i <= world.buildings@.len(),
            world.buildings@.len() == cfg.count,
            start == cfg.upper_limit - cfg.gap * (i + 1),
            world.actor == initial_actor(*cfg),
            world.state == old(world).state,
            forall|j: int| 0 <= j < i ==> #[trigger] world.buildings@[j] == initial_building(*cfg, j),
            forall|j: int| 0 <= j < i ==> building_ok(*cfg, #[trigger] world.buildings@[j]),
        decreases world.buildings@.len() - i,
    {
        proof {
            let (g, k, c) = (cfg.gap as int, i as int, cfg.count as int);
            assert(g * (k + 1) <= g * c && g * (k + 2) == g * (k + 1) + g) by (nonlinear_arith)
                requires
                    0 < g,
                    0 <= k < c,
            ;
        }
        let b = Building {
            body: Rect {
                x: start,
                y: cfg.horizon + cfg.height_offset_range,
                half_width: cfg.gap / 2 + 1,
                half_height: cfg.base_half_height,
            },
        };
        world.buildings.set(i, b);
        start = start - cfg.gap;
        i = i + 1;
    }
}

/// Builds the scene for a valid configuration: the pool of buildings and the
/// actor, at their starting positions, with the session running.
pub fn setup(cfg: &Config) -> (w: World)
    requires
        cfg.wf(),
    ensures
        w.wf(*cfg),
        w.state == AppState::InGame,
        w.actor == initial_actor(*cfg),
        forall|i: int| 0 <= i < cfg.count ==> #[trigger] w.buildings@[i] == initial_building(*cfg, i),
{
    let placeholder = Building { body: Rect { x: 0, y: 0, half_width: 1, half_height: 1 } };
    let mut buildings: Vec<Building> = Vec::new();
    let mut i: usize = 0;
    while i < cfg.count
        invariant
            i <= cfg.count,
            buildings@.len() == i,
        decreases cfg.count - i,
    {
        buildings.push(placeholder);
        i = i + 1;
    }
    let mut w = World {
        actor: Actor { body: placeholder.body, velocity: Velocity(0), on_floor: IsOnFloor(false) },
        buildings,
        state: AppState::InGame,
    };
    start_position_setup(&mut w, cfg);
    w
}

/// One fixed tick. While paused, a press resumes the session from the start
/// positions, and nothing else happens. While running: the buildings scroll
/// and recycle, gravity then velocity act on the actor, the collision is
/// detected once and handed to the landing resolver and then to the outcome
/// evaluator; a Left collision pauses the session and ends the tick, else
/// every press of this tick is handled, each once.
pub fn run_tick(world: &mut World, cfg: &Config, dt: i64, presses: usize)
    requires
        old(world).wf(*cfg),
        0 <= dt,
        cfg.scroll_speed * dt <= BOUND,
        old(world).state == AppState::InGame ==> motion_fits(old(world).actor, *cfg, dt as int),
    ensures
        final(world).wf(*cfg),
        old(world).state == AppState::Paused && presses == 0 ==> *final(world) == *old(world),
        old(world).state == AppState::Paused && presses > 0 ==> {
            &&& final(world).state == AppState::InGame
            &&& final(world).actor == initial_actor(*cfg)
            &&& forall|i: int|
                0 <= i < cfg.count ==> #[trigger] final(world).buildings@[i] == initial_building(
                    *cfg,
                    i,
                )
        },
        old(world).state == AppState::InGame ==> {
            let mv = moved(old(world).actor, *cfg, dt as int);
            let info = detect(mv.body, final(world).buildings@, cfg.landing_tolerance as int);
            &&& forall|i: int|
                0 <= i < cfg.count ==> recycled(
                    *cfg,
                    scrolled(old(world).buildings@[i], cfg.scroll_speed * dt),
                    #[trigger] final(world).buildings@[i],
                )
            &&& final(world).state == after_outcome(AppState::InGame, info)
            &&& final(world).state == AppState::Paused ==> final(world).actor == landed(mv, info)
            &&& final(world).state == AppState::InGame ==> final(world).actor == after_presses(
                landed(mv, info),
                *cfg,
                presses as nat,
            )
        },
{
    if world.state == AppState::Paused {
        if presses > 0 {
            resume_on_click(&mut world.state);
            start_position_setup(world, cfg);
        }
        return;
    }
    proof {
        let (s, t) = (cfg.scroll_speed as int, dt as int);
        assert(0 <= s * t) by (nonlinear_arith)
            requires
                0 <= s,
                0 <= t,
        ;
    }
    let ghost before = world.buildings@;
    building_translation(&mut world.buildings, cfg, dt);
    let ghost mid = world.buildings@;
    reset_building_oob(&mut world.buildings, cfg);
    proof {
        assert forall|i: int| 0 <= i < world.buildings@.len() implies building_ok(
            *cfg,
            #[trigger] world.buildings@[i],
        ) by {
            assert(building_ok(*cfg, before[i]));
            lemma_field_stays_in_limits(
                *cfg,
                before[i],
                cfg.scroll_speed * dt,
                world.buildings@[i],
            );
        }
    }
    gravity(&mut world.actor, cfg, dt);
    apply_velocity(&mut world.actor, dt);
    let info = collision_detection(&world.actor.body, &world.buildings, cfg.landing_tolerance);
    proof {
        lemma_detect_from_pool(
            world.actor.body,
            world.buildings@,
            cfg.landing_tolerance as int,
            0,
            *cfg,
        );
    }
    let info = square_landing(info, &mut world.actor);
    loose_condition(info, &mut world.state);
    if world.state == AppState::Paused {
        return;
    }
    proof {
        lemma_presses_keep_position(world.actor, *cfg, presses as nat);
    }
    handle_presses(&mut world.actor, cfg, presses);
}

/// A detected collision names one of the pool's buildings.
proof fn lemma_detect_from_pool(a: Rect, obs: Seq<Building>, tol: int, i: int, cfg: Config)
    requires
        0 <= i,
        forall|j: int| 0 <= j < obs.len() ==> building_ok(cfg, #[trigger] obs[j]),
    ensures
        crate::system::detect_from(a, obs, tol, i) matches Some((_, b)) ==> exists|j: int|
            0 <= j < obs.len() && b == (#[trigger] obs[j]).body,
    decreases obs.len() - i,
{
    if i < obs.len() {
        lemma_detect_from_pool(a, obs, tol, i + 1, cfg);
    }
}

} // verus!
