use square_runner::{
    apply_velocity, building_translation, collide, collision_detection, gravity, handle_presses,
    jump_or_fastfall_on_click, loose_condition, reset_building_oob, resume_on_click, respawn,
    run_tick, setup, square_landing, start_position_setup, Actor, AppState, Building, Collision,
    Config, ConfigError, IsOnFloor, Rect, Velocity, BOUND,
};

fn cfg() -> Config {
    Config {
        scroll_speed: 5,
        gravity: -2,
        jump_force: 600,
        fastfall_force: -900,
        landing_tolerance: 10,
        gap: 100,
        count: 30,
        half_width_min: 40,
        half_width_max: 60,
        height_offset_range: 50,
        horizon: 0,
        upper_limit: 1500,
        lower_limit: -1500,
        base_half_height: 200,
        square_half_size: 10,
    }
}

fn rect(x: i64, y: i64, half_width: i64, half_height: i64) -> Rect {
    Rect { x, y, half_width, half_height }
}

fn actor(y: i64, velocity: i64, on_floor: bool) -> Actor {
    Actor { body: rect(0, y, 10, 10), velocity: Velocity(velocity), on_floor: IsOnFloor(on_floor) }
}

#[test]
fn validate_accepts_a_sound_configuration() {
    assert_eq!(cfg().validate(), Ok(()));
}

#[test]
fn validate_names_each_fault() {
    let mut c = cfg();
    c.gravity = -BOUND - 1;
    assert_eq!(c.validate(), Err(ConfigError::Magnitude));
    let mut c = cfg();
    c.square_half_size = 0;
    assert_eq!(c.validate(), Err(ConfigError::Dimension));
    let mut c = cfg();
    c.half_width_max = 39;
    assert_eq!(c.validate(), Err(ConfigError::Dimension));
    let mut c = cfg();
    c.gap = 0;
    assert_eq!(c.validate(), Err(ConfigError::Spacing));
    let mut c = cfg();
    c.count = 31;
    assert_eq!(c.validate(), Err(ConfigError::Spacing));
    let mut c = cfg();
    c.gravity = 0;
    assert_eq!(c.validate(), Err(ConfigError::Motion));
    let mut c = cfg();
    c.fastfall_force = 1;
    assert_eq!(c.validate(), Err(ConfigError::Motion));
}

#[test]
fn collide_classifies_by_smallest_depth() {
    let b = rect(0, 0, 50, 50);
    assert_eq!(collide(&rect(0, 55, 10, 10), 0, &b), Some(Collision::Top));
    assert_eq!(collide(&rect(0, -55, 10, 10), 0, &b), Some(Collision::Bottom));
    assert_eq!(collide(&rect(-55, 0, 10, 10), 0, &b), Some(Collision::Left));
    assert_eq!(collide(&rect(55, 0, 10, 10), 0, &b), Some(Collision::Right));
    assert_eq!(collide(&rect(0, 60, 10, 10), 0, &b), None);
    assert_eq!(collide(&rect(0, 60, 10, 10), 3, &b), Some(Collision::Top));
    assert_eq!(collide(&rect(200, 0, 10, 10), 0, &b), None);
}

#[test]
fn detection_uses_the_tolerance_only_for_landing() {
    let buildings = vec![Building { body: rect(0, 0, 50, 50) }];
    // Hovering 5 above the top: a landing within the tolerance of 10.
    let r = collision_detection(&rect(0, 65, 10, 10), &buildings, 10);
    assert_eq!(r, Some((Collision::Top, buildings[0].body)));
    // Hovering 15 above: out of reach.
    assert_eq!(collision_detection(&rect(0, 75, 10, 10), &buildings, 10), None);
    // Just short of the left face: the lowered box would not hit it either way.
    assert_eq!(collision_detection(&rect(-61, 0, 10, 10), &buildings, 10), None);
}

#[test]
fn detection_stops_at_the_first_building() {
    let buildings = vec![
        Building { body: rect(0, 0, 50, 50) },
        Building { body: rect(20, 0, 50, 50) },
    ];
    let r = collision_detection(&rect(-55, 0, 10, 10), &buildings, 10);
    assert_eq!(r, Some((Collision::Left, buildings[0].body)));
    let r = collision_detection(&rect(70, 0, 10, 10), &buildings, 0);
    assert_eq!(r, Some((Collision::Right, buildings[1].body)));
}

#[test]
fn landing_snaps_exactly_onto_the_top() {
    let b = rect(7, 30, 50, 200);
    let mut a = actor(238, -40, false);
    let r = square_landing(Some((Collision::Top, b)), &mut a);
    assert_eq!(r, Some((Collision::Top, b)));
    assert_eq!(a.body.y, 10 + 200 + 30);
    assert_eq!(a.velocity, Velocity(0));
    assert_eq!(a.on_floor, IsOnFloor(true));
}

#[test]
fn landing_ignores_a_rising_actor() {
    let b = rect(7, 30, 50, 200);
    let mut a = actor(238, 40, true);
    square_landing(Some((Collision::Top, b)), &mut a);
    assert_eq!(a, actor(238, 40, true));
    square_landing(None, &mut a);
    assert_eq!(a, actor(238, 40, true));
}

#[test]
fn falling_without_collision_leaves_the_floor() {
    let mut a = actor(100, 0, true);
    assert_eq!(square_landing(None, &mut a), None);
    assert_eq!(a, actor(100, 0, false));
    let mut a = actor(100, -3, true);
    square_landing(Some((Collision::Left, rect(0, 0, 5, 5))), &mut a);
    assert_eq!(a, actor(100, -3, true));
}

#[test]
fn left_collision_pauses_whatever_the_velocity() {
    let b = rect(0, 0, 5, 5);
    for v in [-50, 0, 50] {
        let mut a = actor(0, v, false);
        let mut state = AppState::InGame;
        let info = square_landing(Some((Collision::Left, b)), &mut a);
        loose_condition(info, &mut state);
        assert_eq!(state, AppState::Paused);
    }
    let mut state = AppState::InGame;
    loose_condition(Some((Collision::Top, b)), &mut state);
    assert_eq!(state, AppState::InGame);
    loose_condition(None, &mut state);
    assert_eq!(state, AppState::InGame);
}

#[test]
fn gravity_acts_only_on_an_airborne_actor() {
    let c = cfg();
    let mut a = actor(100, 7, true);
    gravity(&mut a, &c, 3);
    assert_eq!(a.velocity, Velocity(7));
    let mut a = actor(100, 7, false);
    gravity(&mut a, &c, 3);
    assert_eq!(a.velocity, Velocity(1));
    assert_eq!(a.body.y, 100);
}

// One time unit is one tick of 1/240 s and one length unit is 1/57600 of a
// world unit, so a velocity of -500 per second is -120000 units per tick and a
// gravity of -1500 per second squared is -1500 units per tick squared.
#[test]
fn one_semi_implicit_euler_tick() {
    let mut c = cfg();
    c.gravity = -1500;
    let mut a = actor(0, -120000, false);
    gravity(&mut a, &c, 1);
    apply_velocity(&mut a, 1);
    // -506.25 per second and -2.109375 world units.
    assert_eq!(a.velocity, Velocity(-121500));
    assert_eq!(a.body.y, -121500);
    assert_eq!(a.velocity.0 as f64 * 240.0 / 57600.0, -506.25);
    assert_eq!(a.body.y as f64 / 57600.0, -2.109375);
}

#[test]
fn apply_velocity_integrates_position() {
    let mut a = actor(100, -7, false);
    apply_velocity(&mut a, 3);
    assert_eq!(a.body.y, 79);
    assert_eq!(a.velocity, Velocity(-7));
}

#[test]
fn jump_from_the_floor() {
    let mut a = actor(100, 0, true);
    jump_or_fastfall_on_click(&mut a, &cfg());
    assert_eq!(a.velocity, Velocity(600));
    assert_eq!(a.on_floor, IsOnFloor(false));
    assert_eq!(a.body.y, 100);
}

#[test]
fn fast_fall_in_the_air() {
    let mut a = actor(100, 20, false);
    jump_or_fastfall_on_click(&mut a, &cfg());
    assert_eq!(a.velocity, Velocity(-900));
    let mut a = actor(100, -1000, false);
    jump_or_fastfall_on_click(&mut a, &cfg());
    assert_eq!(a.velocity, Velocity(-1000));
}

#[test]
fn each_press_counts() {
    let mut once = actor(100, 0, true);
    handle_presses(&mut once, &cfg(), 1);
    assert_eq!(once.velocity, Velocity(600));
    let mut twice = actor(100, 0, true);
    handle_presses(&mut twice, &cfg(), 2);
    assert_eq!(twice.velocity, Velocity(-900));
    assert_eq!(twice.on_floor, IsOnFloor(false));
    let mut none = actor(100, 0, true);
    handle_presses(&mut none, &cfg(), 0);
    assert_eq!(none, actor(100, 0, true));
}

#[test]
fn resume_is_idempotent() {
    let mut s = AppState::Paused;
    resume_on_click(&mut s);
    assert_eq!(s, AppState::InGame);
    resume_on_click(&mut s);
    assert_eq!(s, AppState::InGame);
}

#[test]
fn respawn_places_at_the_upper_limit() {
    let mut b = Building { body: rect(-1600, 3, 45, 200) };
    respawn(&mut b, &cfg(), -20, 55);
    assert_eq!(b.body, rect(1500, -20, 55, 200));
}

#[test]
fn recycling_a_building_past_the_lower_limit() {
    let c = cfg();
    let mut buildings = vec![
        Building { body: rect(-1600, 3, 45, 200) },
        Building { body: rect(-1500, 3, 45, 200) },
    ];
    reset_building_oob(&mut buildings, &c);
    let b = buildings[0].body;
    assert_eq!(b.x, 1500);
    assert_eq!(b.half_height, 200);
    assert!(-50 <= b.y && b.y <= 50);
    assert!(40 <= b.half_width && b.half_width <= 60);
    assert_eq!(buildings[1].body, rect(-1500, 3, 45, 200));
    let again = buildings.clone();
    reset_building_oob(&mut buildings, &c);
    assert_eq!(buildings, again);
}

#[test]
fn recycled_buildings_get_varied_draws() {
    let c = cfg();
    let mut buildings = vec![Building { body: rect(-1600, 3, 45, 200) }; 40];
    reset_building_oob(&mut buildings, &c);
    assert!(buildings.iter().any(|b| b.body.y != -50));
    assert!(buildings.iter().any(|b| b.body.half_width != 40));
}

#[test]
fn buildings_stay_within_the_limits() {
    let c = cfg();
    let w = setup(&c);
    let mut buildings = w.buildings.clone();
    for _ in 0..2000 {
        building_translation(&mut buildings, &c, 1);
        reset_building_oob(&mut buildings, &c);
        for b in &buildings {
            assert!(-1500 <= b.body.x && b.body.x <= 1500);
        }
    }
}

#[test]
fn setup_lays_out_the_pool() {
    let c = cfg();
    let w = setup(&c);
    assert_eq!(w.state, AppState::InGame);
    assert_eq!(w.buildings.len(), 30);
    assert_eq!(w.buildings[0].body, rect(1400, 50, 51, 200));
    assert_eq!(w.buildings[29].body, rect(-1500, 50, 51, 200));
    assert_eq!(w.actor, actor(260, 0, false));
}

#[test]
fn start_position_resets_the_actor() {
    let c = cfg();
    let mut w = setup(&c);
    w.actor = actor(-700, -30, true);
    w.buildings[3].body.x = 12;
    start_position_setup(&mut w, &c);
    assert_eq!(w.actor, actor(260, 0, false));
    assert_eq!(w.buildings[3].body, rect(1100, 50, 51, 200));
}

#[test]
fn a_tick_lands_the_actor() {
    let c = cfg();
    let mut w = setup(&c);
    run_tick(&mut w, &c, 1, 0);
    assert_eq!(w.state, AppState::InGame);
    assert_eq!(w.buildings[0].body.x, 1395);
    assert_eq!(w.actor, actor(260, 0, true));
    run_tick(&mut w, &c, 1, 1);
    assert_eq!(w.actor, actor(260, 600, false));
}

#[test]
fn a_tick_with_a_left_hit_pauses_and_skips_input() {
    let c = cfg();
    let mut w = setup(&c);
    w.actor = Actor { body: rect(40, 100, 10, 10), velocity: Velocity(0), on_floor: IsOnFloor(true) };
    run_tick(&mut w, &c, 1, 1);
    assert_eq!(w.state, AppState::Paused);
    assert_eq!(w.actor.velocity, Velocity(0));
    let before = w.buildings.clone();
    run_tick(&mut w, &c, 1, 0);
    assert_eq!(w.state, AppState::Paused);
    assert_eq!(w.buildings, before);
    run_tick(&mut w, &c, 1, 1);
    assert_eq!(w.state, AppState::InGame);
    assert_eq!(w.actor, actor(260, 0, false));
    assert_eq!(w.buildings[0].body, rect(1400, 50, 51, 200));
}
