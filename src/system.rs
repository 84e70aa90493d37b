use vstd::prelude::*;
use crate::component::{Actor, AppState, Building, IsOnFloor, Velocity};
use crate::config::Config;
use crate::geometry::{classify, collide, Collision, Rect};

verus! {

/// This tick's collision: the classification and the building's rectangle.
pub type CollisionInfo = Option<(Collision, Rect)>;

/// What the detector reports scanning the buildings from index `i` on: the
/// first building the actor overlaps at its true position (with that
/// classification), or else that it lands on when lowered by `tol` (as Top).
pub open spec fn detect_from(a: Rect, obs: Seq<Building>, tol: int, i: int) -> CollisionInfo
    decreases obs.len() - i,
{
    if i < 0 || i >= obs.len() {
        None
    } else {
        let b = obs[i].body;
        if classify(a, 0, b) is Some {
            Some((classify(a, 0, b)->0, b))
        } else if classify(a, tol, b) == Some(Collision::Top) {
            Some((Collision::Top, b))
        } else {
            detect_from(a, obs, tol, i + 1)
        }
    }
}

/// The collision the detector reports for `a` against the whole pool.
pub open spec fn detect(a: Rect, obs: Seq<Building>, tol: int) -> CollisionInfo {
    detect_from(a, obs, tol, 0)
}

/// Tests the actor against every building, true position first, then lowered
/// by the landing tolerance (which only ever yields Top); the first building
/// that qualifies ends the scan.
pub fn collision_detection(actor: &Rect, buildings: &Vec<Building>, tolerance: i64) -> (r:
    CollisionInfo)
    ensures
        r == detect(*actor, buildings@, tolerance as int),
{
    let mut i: usize = 0;
    while i < buildings.len()
        invariant
            i <= buildings@.len(),
            detect(*actor, buildings@, tolerance as int) == detect_from(
                *actor,
                buildings@,
                tolerance as int,
                i as int,
            ),
        decreases buildings@.len() - i,
    {
        let b = buildings[i].body;
        match collide(actor, 0, &b) {
            Some(c) => {
                return Some((c, b));
            },
            None => {
                if let Some(Collision::Top) = collide(actor, tolerance, &b) {
                    return Some((Collision::Top, b));
                }
            },
        }
        i = i + 1;
    }
    None
}

/// Where the actor rests on top of `b`.
pub open spec fn rest_height(a: Rect, b: Rect) -> int {
    a.half_height + b.half_height + b.y
}

/// The actor after landing resolution on `info`.
pub open spec fn landed(actor: Actor, info: CollisionInfo) -> Actor {
    if actor.velocity.0 > 0 {
        actor
    } else {
        match info {
            Some((Collision::Top, b)) => Actor {
                body: Rect { y: rest_height(actor.body, b) as i64, ..actor.body },
                velocity: Velocity(0),
                on_floor: IsOnFloor(true),
            },
            Some(_) => actor,
            None => Actor { on_floor: IsOnFloor(false), ..actor },
        }
    }
}

/// Resolves a landing: while not rising, a Top collision snaps the actor onto
/// the building and stops it, and no collision clears floor contact. Hands the
/// collision on unchanged.
pub fn square_landing(info: CollisionInfo, actor: &mut Actor) -> (r: CollisionInfo)
    requires
        match info {
            Some((Collision::Top, b)) => i64::MIN <= rest_height(old(actor).body, b) <= i64::MAX,
            _ => true,
        },
    ensures
        r == info,
        *final(actor) == landed(*old(actor), info),
{
    if actor.velocity.0 <= 0 {
        match info {
            Some((Collision::Top, b)) => {
                actor.on_floor = IsOnFloor(true);
                actor.velocity = Velocity(0);
                let top = actor.body.half_height as i128 + b.half_height as i128 + b.y as i128;
                actor.body.y = top as i64;
            },
            Some(_) => {},
            None => {
                actor.on_floor = IsOnFloor(false);
            },
        }
    }
    info
}

/// The session state after the outcome of `info`.
pub open spec fn after_outcome(state: AppState, info: CollisionInfo) -> AppState {
    match info {
        Some((Collision::Left, _)) => AppState::Paused,
        _ => state,
    }
}

/// A Left collision ends the run: the session pauses.
pub fn loose_condition(info: CollisionInfo, state: &mut AppState)
    ensures
        *final(state) == after_outcome(*old(state), info),
{
    if let Some((Collision::Left, _)) = info {
        *state = AppState::Paused;
    }
}

/// The velocity after gravity has acted for `dt`.
pub open spec fn after_gravity(actor: Actor, g: int, dt: int) -> int {
    if actor.on_floor.0 {
        actor.velocity.0 as int
    } else {
        actor.velocity.0 + g * dt
    }
}

/// Accelerates an airborne actor by `gravity * dt`; an actor on the floor keeps its velocity.
pub fn gravity(actor: &mut Actor, cfg: &Config, dt: i64)
    requires
        i64::MIN <= after_gravity(*old(actor), cfg.gravity as int, dt as int) <= i64::MAX,
    ensures
        final(actor).velocity.0 == after_gravity(*old(actor), cfg.gravity as int, dt as int),
        final(actor).body == old(actor).body,
        final(actor).on_floor == old(actor).on_floor,
{
    if !actor.on_floor.0 {
        proof {
            let (g, t) = (cfg.gravity as int, dt as int);
            assert(i64::MIN * i64::MAX <= g * t <= i64::MIN * i64::MIN) by (nonlinear_arith)
                requires
                    i64::MIN <= g <= i64::MAX,
                    i64::MIN <= t <= i64::MAX,
            ;
        }
        let v = actor.velocity.0 as i128 + cfg.gravity as i128 * dt as i128;
        actor.velocity = Velocity(v as i64);
    }
}

/// Moves the actor vertically by `velocity * dt`.
pub fn apply_velocity(actor: &mut Actor, dt: i64)
    requires
        i64::MIN <= old(actor).body.y + old(actor).velocity.0 * dt <= i64::MAX,
    ensures
        final(actor).body.y == old(actor).body.y + old(actor).velocity.0 * dt,
        final(actor).body.x == old(actor).body.x,
        final(actor).body.half_width == old(actor).body.half_width,
        final(actor).body.half_height == old(actor).body.half_height,
        final(actor).velocity == old(actor).velocity,
        final(actor).on_floor == old(actor).on_floor,
{
    proof {
        let (v, t) = (actor.velocity.0 as int, dt as int);
        assert(i64::MIN * i64::MAX <= v * t <= i64::MIN * i64::MIN) by (nonlinear_arith)
            requires
                i64::MIN <= v <= i64::MAX,
                i64::MIN <= t <= i64::MAX,
        ;
    }
    let y = actor.body.y as i128 + actor.velocity.0 as i128 * dt as i128;
    actor.body.y = y as i64;
}

/// The actor after one press of the jump button.
pub open spec fn after_press(actor: Actor, cfg: Config) -> Actor {
    if actor.on_floor.0 {
        Actor { velocity: Velocity(cfg.jump_force), on_floor: IsOnFloor(false), ..actor }
    } else if actor.velocity.0 > cfg.fastfall_force {
        Actor { velocity: Velocity(cfg.fastfall_force), ..actor }
    } else {
        actor
    }
}

/// One press: a grounded actor jumps; an airborne one falls at the fast-fall
/// velocity unless it already falls faster.
pub fn jump_or_fastfall_on_click(actor: &mut Actor, cfg: &Config)
    ensures
        *final(actor) == after_press(*old(actor), *cfg),
{
    if actor.on_floor.0 {
        actor.velocity = Velocity(cfg.jump_force);
        actor.on_floor = IsOnFloor(false);
    } else if actor.velocity.0 > cfg.fastfall_force {
        actor.velocity = Velocity(cfg.fastfall_force);
    }
}

/// The actor after `n` presses, one after the other.
pub open spec fn after_presses(actor: Actor, cfg: Config, n: nat) -> Actor
    decreases n,
{
    if n == 0 {
        actor
    } else {
        after_press(after_presses(actor, cfg, (n - 1) as nat), cfg)
    }
}

/// Handles every press queued this tick, each one once.
pub fn handle_presses(actor: &mut Actor, cfg: &Config, presses: usize)
    ensures
        *final(actor) == after_presses(*old(actor), *cfg, presses as nat),
{
    let mut i: usize = 0;
    while i < presses
        invariant
            i <= presses,
            *actor == after_presses(*old(actor), *cfg, i as nat),
        decreases presses - i,
    {
        jump_or_fastfall_on_click(actor, cfg);
        i = i + 1;
    }
}

/// A press while paused resumes the session; while running it changes nothing.
pub fn resume_on_click(state: &mut AppState)
    ensures
        *final(state) == AppState::InGame,
{
    *state = AppState::InGame;
}

} // verus!
