use vstd::prelude::*;

verus! {

/// Largest magnitude any configured value may have; it keeps every sum and
/// product the simulation forms well inside `i64`.
pub const BOUND: i64 = 1_000_000_000_000;

/// The constants the host configures once, before the tick loop starts.
#[derive(Clone, Copy, Debug, PartialEq, Eq, Structural)]
pub struct Config {
    /// Horizontal distance the buildings travel per unit of time.
    pub scroll_speed: i64,
    /// Vertical acceleration (negative: downward).
    pub gravity: i64,
    /// Upward velocity a jump sets.
    pub jump_force: i64,
    /// Downward velocity a fast fall sets (negative).
    pub fastfall_force: i64,
    /// How far below its true position the actor is retested for a landing.
    pub landing_tolerance: i64,
    /// Horizontal spacing of the buildings at start.
    pub gap: i64,
    /// Number of buildings in the pool.
    pub count: usize,
    /// Smallest half width a recycled building may get.
    pub half_width_min: i64,
    /// Largest half width a recycled building may get.
    pub half_width_max: i64,
    /// Largest vertical offset of a recycled building from the horizon.
    pub height_offset_range: i64,
    /// Vertical reference line of the buildings.
    pub horizon: i64,
    /// Where a recycled building reappears.
    pub upper_limit: i64,
    /// Below this x a building is recycled.
    pub lower_limit: i64,
    /// Half height of every building.
    pub base_half_height: i64,
    /// Half extent of the square actor.
    pub square_half_size: i64,
}

/// Why a configuration was refused.
#[derive(Clone, Copy, Debug, PartialEq, Eq, Structural)]
pub enum ConfigError {
    /// A value lies beyond `BOUND` (or the pool is larger than `BOUND`).
    Magnitude,
    /// A size is not positive, the width range is empty or the offset range negative.
    Dimension,
    /// The gap is not positive, the pool is empty, or the initial layout
    /// does not fit between the limits.
    Spacing,
    /// Scroll speed, gravity, jump or fast-fall force, or tolerance has the wrong sign.
    Motion,
}

pub open spec fn within(v: i64) -> bool {
    -BOUND <= v <= BOUND
}

impl Config {
    pub open spec fn magnitudes_ok(self) -> bool {
        &&& within(self.scroll_speed)
        &&& within(self.gravity)
        &&& within(self.jump_force)
        &&& within(self.fastfall_force)
        &&& within(self.landing_tolerance)
        &&& within(self.gap)
        &&& self.count <= BOUND
        &&& within(self.half_width_min)
        &&& within(self.half_width_max)
        &&& within(self.height_offset_range)
        &&& within(self.horizon)
        &&& within(self.upper_limit)
        &&& within(self.lower_limit)
        &&& within(self.base_half_height)
        &&& within(self.square_half_size)
    }

    pub open spec fn dimensions_ok(self) -> bool {
        &&& self.square_half_size > 0
        &&& self.base_half_height > 0
        &&& 0 < self.half_width_min <= self.half_width_max
        &&& self.height_offset_range >= 0
    }

    pub open spec fn spacing_ok(self) -> bool {
        &&& self.gap > 0
        &&& self.count > 0
        &&& self.lower_limit < self.upper_limit
        &&& self.upper_limit - self.gap * self.count >= self.lower_limit
    }

    pub open spec fn motion_ok(self) -> bool {
        &&& self.scroll_speed >= 0
        &&& self.gravity < 0
        &&& self.jump_force > 0
        &&& self.fastfall_force < 0
        &&& self.landing_tolerance >= 0
    }

    /// A configuration the simulation can run on.
    pub open spec fn wf(self) -> bool {
        &&& self.magnitudes_ok()
        &&& self.dimensions_ok()
        &&& self.spacing_ok()
        &&& self.motion_ok()
    }

    /// Validates the configuration once, before the loop starts.
    pub fn validate(&self) -> (r: Result<(), ConfigError>)
        ensures
            r is Ok <==> self.wf(),
            r == Err::<(), _>(ConfigError::Magnitude) <==> !self.magnitudes_ok(),
            r == Err::<(), _>(ConfigError::Dimension) <==> self.magnitudes_ok()
                && !self.dimensions_ok(),
            r == Err::<(), _>(ConfigError::Spacing) <==> self.magnitudes_ok()
                && self.dimensions_ok() && !self.spacing_ok(),
            r == Err::<(), _>(ConfigError::Motion) <==> self.magnitudes_ok()
                && self.dimensions_ok() && self.spacing_ok() && !self.motion_ok(),
    {
        if !(within_exec(self.scroll_speed) && within_exec(self.gravity) && within_exec(
            self.jump_force,
        ) && within_exec(self.fastfall_force) && within_exec(self.landing_tolerance)
            && within_exec(self.gap) && self.count as u64 <= BOUND as u64 && within_exec(
            self.half_width_min,
        ) && within_exec(self.half_width_max) && within_exec(self.height_offset_range)
            && within_exec(self.horizon) && within_exec(self.upper_limit) && within_exec(
            self.lower_limit,
        ) && within_exec(self.base_half_height) && within_exec(self.square_half_size)) {
            return Err(ConfigError::Magnitude);
        }
        if !(self.square_half_size > 0 && self.base_half_height > 0 && 0 < self.half_width_min
            && self.half_width_min <= self.half_width_max && self.height_offset_range >= 0) {
            return Err(ConfigError::Dimension);
        }
        if !(self.gap > 0 && self.count > 0 && self.lower_limit < self.upper_limit) {
            return Err(ConfigError::Spacing);
        }
        proof {
            let (g, c) = (self.gap as int, self.count as int);
            assert(0 < g * c <= BOUND * BOUND) by (nonlinear_arith)
                requires
                    0 < g <= BOUND,
                    0 < c <= BOUND,
            ;
        }
        let span = self.gap as i128 * self.count as i128;
        if (self.upper_limit as i128) - span < self.lower_limit as i128 {
            return Err(ConfigError::Spacing);
        }
        if !(self.scroll_speed >= 0 && self.gravity < 0 && self.jump_force > 0
            && self.fastfall_force < 0 && self.landing_tolerance >= 0) {
            return Err(ConfigError::Motion);
        }
        Ok(())
    }
}

fn within_exec(v: i64) -> (r: bool)
    ensures
        r == within(v),
{
    -BOUND <= v && v <= BOUND
}

} // verus!
