use vstd::prelude::*;
use crate::component::Building;
use crate::config::Config;
use crate::geometry::Rect;

verus! {

/// `b` moved left by `shift`.
pub open spec fn scrolled(b: Building, shift: int) -> Building {
    Building { body: Rect { x: (b.body.x - shift) as i64, ..b.body } }
}

/// Whether `new` is what recycling may make of `old`: a building left of the
/// lower limit reappears at the upper limit with its height kept, a vertical
/// offset of at most the configured range from the horizon and a half width in
/// the configured range; any other building is left as it is.
pub open spec fn recycled(cfg: Config, old: Building, new: Building) -> bool {
    if old.body.x < cfg.lower_limit {
        &&& new.body.x == cfg.upper_limit
        &&& new.body.half_height == old.body.half_height
        &&& cfg.horizon - cfg.height_offset_range <= new.body.y <= cfg.horizon
            + cfg.height_offset_range
        &&& cfg.half_width_min <= new.body.half_width <= cfg.half_width_max
    } else {
        new == old
    }
}

/// Scrolls every building left by `scroll_speed * dt`.
pub fn building_translation(buildings: &mut Vec<Building>, cfg: &Config, dt: i64)
    requires
        forall|i: int|
            0 <= i < old(buildings)@.len() ==> i64::MIN <= #[trigger] old(buildings)@[i].body.x
                - cfg.scroll_speed * dt <= i64::MAX,
    ensures
        final(buildings)@.len() == old(buildings)@.len(),
        forall|i: int|
            0 <= i < old(buildings)@.len() ==> final(buildings)@[i] == scrolled(
                old(buildings)@[i],
                cfg.scroll_speed * dt,
            ),
{
    proof {
        let (s, t) = (cfg.scroll_speed as int, dt as int);
        assert(i64::MIN * i64::MAX <= s * t <= i64::MIN * i64::MIN) by (nonlinear_arith)
            requires
                i64::MIN <= s <= i64::MAX,
                i64::MIN <= t <= i64::MAX,
        ;
    }
    let shift = cfg.scroll_speed as i128 * dt as i128;
    let mut i: usize = 0;
    while i < buildings.len()
        invariant
            i <= buildings@.len(),
            buildings@.len() == old(buildings)@.len(),
            shift == cfg.scroll_speed * dt,
            forall|j: int|
                0 <= j < old(buildings)@.len() ==> i64::MIN <= #[trigger] old(buildings)@[j].body.x - shift
                    <= i64::MAX,
            forall|j: int| 0 <= j < i ==> buildings@[j] == scrolled(old(buildings)@[j], shift as int),
            forall|j: int| i <= j < buildings@.len() ==> buildings@[j] == old(buildings)@[j],
        decreases buildings@.len() - i,
    {
        let mut b = buildings[i];
        b.body.x = (b.body.x as i128 - shift) as i64;
        buildings.set(i, b);
        i = i + 1;
    }
}

/// Puts `b` back at the upper limit with the given vertical offset from the
/// horizon and half width; its height is kept.
pub fn respawn(b: &mut Building, cfg: &Config, y_offset: i64, half_width: i64)
    requires
        cfg.magnitudes_ok(),
        -cfg.height_offset_range <= y_offset <= cfg.height_offset_range,
    ensures
        *final(b) == (Building {
            body: Rect {
                x: cfg.upper_limit,
                y: (cfg.horizon + y_offset) as i64,
                half_width,
                half_height: old(b).body.half_height,
            },
        }),
{
    b.body.x = cfg.upper_limit;
    b.body.y = cfg.horizon + y_offset;
    b.body.half_width = half_width;
}

/// Relies on `rand::thread_rng` and `rand::Rng::gen_range` (rand 0.8): a
/// uniform draw from the inclusive range `lo..=hi`. `gen_range` panics only on
/// an empty range, which `requires` rules out; `thread_rng` panics only where
/// the operating system's entropy source cannot seed it.
#[verifier::external_body]
fn draw_between(lo: i64, hi: i64) -> (r: i64)
    requires
        lo <= hi,
    ensures
        lo <= r <= hi,
{
    rand::Rng::gen_range(&mut rand::thread_rng(), lo..=hi)
}

/// Recycles every building left of the lower limit, with a fresh random
/// vertical offset and half width.
pub fn reset_building_oob(buildings: &mut Vec<Building>, cfg: &Config)
    requires
        cfg.wf(),
    ensures
        final(buildings)@.len() == old(buildings)@.len(),
        forall|i: int|
            0 <= i < old(buildings)@.len() ==> recycled(
                *cfg,
                old(buildings)@[i],
                final(buildings)@[i],
            ),
{
    let mut i: usize = 0;
    while i < buildings.len()
        invariant
            cfg.wf(),
            i <= buildings@.len(),
            buildings@.len() == old(buildings)@.len(),
            forall|j: int| 0 <= j < i ==> recycled(*cfg, old(buildings)@[j], buildings@[j]),
            forall|j: int| i <= j < buildings@.len() ==> buildings@[j] == old(buildings)@[j],
        decreases buildings@.len() - i,
    {
        if buildings[i].body.x < cfg.lower_limit {
            let y_offset = draw_between(-cfg.height_offset_range, cfg.height_offset_range);
            let half_width = draw_between(cfg.half_width_min, cfg.half_width_max);
            let mut b = buildings[i];
            respawn(&mut b, cfg, y_offset, half_width);
            buildings.set(i, b);
        }
        i = i + 1;
    }
}

} // verus!
