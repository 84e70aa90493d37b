use vstd::prelude::*;
use crate::component::Building;
use crate::config::{Config, BOUND};
use crate::component::{Actor, AppState};
use crate::geometry::{classify, Collision, Rect};
use crate::field::{recycled, scrolled};
use crate::system::{
    after_gravity, after_outcome, after_presses, detect, detect_from, landed, rest_height,
};

verus! {

/// After a building has been scrolled left by a non-negative step and then
/// recycled, its x lies between the lower and the upper limit again, provided
/// it did before.
pub proof fn lemma_field_stays_in_limits(cfg: Config, b: Building, shift: int, new: Building)
    requires
        cfg.wf(),
        0 <= shift <= BOUND,
        cfg.lower_limit <= b.body.x <= cfg.upper_limit,
        recycled(cfg, scrolled(b, shift), new),
    ensures
        cfg.lower_limit <= new.body.x <= cfg.upper_limit,
{
}

/// Presses change only the velocity and the floor flag: however many there
/// are, the actor's rectangle stays where it is.
pub proof fn lemma_presses_keep_position(actor: Actor, cfg: Config, n: nat)
    ensures
        after_presses(actor, cfg, n).body == actor.body,
    decreases n,
{
    if n > 0 {
        lemma_presses_keep_position(actor, cfg, (n - 1) as nat);
    }
}

/// Recycling acts once per crossing: a building that was just recycled is
/// left alone by a second recycling in the same tick.
pub proof fn lemma_recycle_once(cfg: Config, old: Building, mid: Building, new: Building)
    requires
        cfg.wf(),
        recycled(cfg, old, mid),
        recycled(cfg, mid, new),
    ensures
        new == mid,
        old.body.x < cfg.lower_limit ==> mid.body.x == cfg.upper_limit,
{
}

/// Gravity changes the velocity exactly when the actor is airborne (for a
/// non-zero step); on the floor the velocity is kept.
pub proof fn lemma_gravity_only_airborne(actor: Actor, g: int, dt: int)
    requires
        g * dt != 0,
    ensures
        after_gravity(actor, g, dt) == actor.velocity.0 <==> actor.on_floor.0,
{
}

/// A Top collision while not rising puts the actor exactly on the building's
/// upper face, stopped and on the floor.
pub proof fn lemma_landing_snap_exact(actor: Actor, b: Rect)
    requires
        actor.velocity.0 <= 0,
        i64::MIN <= rest_height(actor.body, b) <= i64::MAX,
    ensures
        landed(actor, Some((Collision::Top, b))).body.y == actor.body.half_height
            + b.half_height + b.y,
        landed(actor, Some((Collision::Top, b))).velocity.0 == 0,
        landed(actor, Some((Collision::Top, b))).on_floor.0,
{
}

/// The lowered retest only ever yields Top: any other classification the
/// detector reports is that of the actor at its true position.
pub proof fn lemma_tolerance_only_top(a: Rect, obs: Seq<Building>, tol: int)
    ensures
        detect(a, obs, tol) matches Some((c, b)) ==> (c != Collision::Top ==> classify(a, 0, b)
            == Some(c)),
{
    lemma_tolerance_only_top_from(a, obs, tol, 0);
}

proof fn lemma_tolerance_only_top_from(a: Rect, obs: Seq<Building>, tol: int, i: int)
    ensures
        detect_from(a, obs, tol, i) matches Some((c, b)) ==> (c != Collision::Top ==> classify(
            a,
            0,
            b,
        ) == Some(c)),
    decreases obs.len() - i,
{
    if 0 <= i < obs.len() {
        lemma_tolerance_only_top_from(a, obs, tol, i + 1);
    }
}

/// A Left collision pauses a running session, whatever the actor's velocity:
/// landing resolution hands the collision on as it came.
pub proof fn lemma_left_collision_pauses(actor: Actor, b: Rect)
    ensures
        after_outcome(AppState::InGame, Some((Collision::Left, b))) == AppState::Paused,
        landed(actor, Some((Collision::Left, b))) == actor,
{
}

/// Presses are handled one by one: `n` presses followed by `m` more act as
/// `n + m` presses.
pub proof fn lemma_presses_compose(actor: Actor, cfg: Config, n: nat, m: nat)
    ensures
        after_presses(after_presses(actor, cfg, n), cfg, m) == after_presses(actor, cfg, n + m),
    decreases m,
{
    if m > 0 {
        lemma_presses_compose(actor, cfg, n, (m - 1) as nat);
        assert((n + m - 1) as nat == n + (m - 1) as nat);
    }
}

} // verus!
