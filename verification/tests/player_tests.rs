use innocent_heart::geometry::{Direction, Vector};
use innocent_heart::player::{
    airborne_height, snap_down, snap_up, Input, Player, PlayerState, AIR_TIME_LIMIT, DEATH_DELAY, GRAVITY,
    GRAVITY_SPEED_STEP, GRAVITY_TIME_STEP, PLAYER_JUMP_FORCE, PLAYER_WALK_STEP,
};
use innocent_heart::tilemap::TilePos;
use innocent_heart::timer::Timer;
use innocent_heart::weapon::WeaponKind;

const U: i64 = 1_000_000;

fn floor(cols: std::ops::Range<u32>, row: u32) -> Vec<TilePos> {
    cols.map(|col| TilePos { col, row }).collect()
}

fn standing_at(col: i64, row: i64) -> Player {
    Player::new(Vector { x: 32 * U * col, y: 32 * U * row })
}

fn keys() -> Input {
    Input::none()
}

#[test]
fn the_constants_of_motion() {
    assert_eq!(PLAYER_JUMP_FORCE, 44 * U);
    assert_eq!(PLAYER_WALK_STEP, 4 * U);
    assert_eq!(GRAVITY, 9_810_000);
    assert_eq!(GRAVITY_TIME_STEP, 240_000);
    // gravity times the time step
    assert_eq!(GRAVITY_SPEED_STEP as i128 * 1_000_000, GRAVITY as i128 * GRAVITY_TIME_STEP as i128);
    assert_eq!(DEATH_DELAY, 2_000_000_000);
}

#[test]
fn a_new_player_stands_and_faces_right() {
    let p = standing_at(2, 2);
    assert_eq!(p.position, Vector { x: 64 * U, y: 64 * U });
    assert_eq!(p.velocity, Vector { x: 0, y: 0 });
    assert_eq!(p.direction, Direction::Right);
    assert!(p.grounded && p.live && !p.walk && !p.jump);
    assert_eq!(p.fall_time, 0);
    assert_eq!(p.jump_start_y, 0);
    assert_eq!(p.state(), PlayerState::Grounded);
    assert!(p.can_step());
}

#[test]
fn no_input_for_one_tick_changes_nothing() {
    let walls = floor(0..10, 1);
    let mut p = standing_at(2, 2);
    let mut timer = Timer::new(DEATH_DELAY);
    assert_eq!(p.steer(keys()), None);
    p.resolve_walls(&walls, &mut timer);
    assert_eq!(p, standing_at(2, 2));
    assert_eq!(p.position, Vector { x: 64 * U, y: 64 * U });
    assert!(p.grounded);
    assert_eq!(timer, Timer::new(DEATH_DELAY));
}

#[test]
fn walking_keys_turn_and_move_the_player() {
    let walls = floor(0..10, 1);
    let mut timer = Timer::new(DEATH_DELAY);
    let mut p = standing_at(2, 2);
    p.steer(Input { right: true, ..keys() });
    assert!(p.walk);
    assert_eq!(p.direction, Direction::Right);
    p.resolve_walls(&walls, &mut timer);
    assert_eq!(p.position, Vector { x: 68 * U, y: 64 * U });
    assert!(!p.walk && p.grounded);

    p.steer(Input { left: true, ..keys() });
    assert_eq!(p.direction, Direction::Left);
    p.resolve_walls(&walls, &mut timer);
    p.steer(Input { left: true, right: true, ..keys() });
    assert_eq!(p.direction, Direction::Left);
    p.resolve_walls(&walls, &mut timer);
    assert_eq!(p.position, Vector { x: 60 * U, y: 64 * U });
    // without a key the player stays
    p.steer(keys());
    p.resolve_walls(&walls, &mut timer);
    assert_eq!(p.position, Vector { x: 60 * U, y: 64 * U });
}

#[test]
fn a_wall_at_the_side_stops_the_step() {
    let mut walls = floor(0..10, 1);
    walls.push(TilePos { col: 4, row: 2 });
    let mut timer = Timer::new(DEATH_DELAY);
    // the wall's left edge is at 112; the player's right edge at 96 + 16
    let mut p = standing_at(3, 2);
    p.steer(Input { right: true, ..keys() });
    p.resolve_walls(&walls, &mut timer);
    assert_eq!(p.position, Vector { x: 96 * U, y: 64 * U });
    assert!(!p.walk);
    assert!(p.grounded);
    // and away from the wall the step is free
    p.steer(Input { left: true, ..keys() });
    p.resolve_walls(&walls, &mut timer);
    assert_eq!(p.position.x, 92 * U);
}

#[test]
fn a_step_that_just_reaches_a_wall_is_taken() {
    let mut walls = floor(0..10, 1);
    walls.push(TilePos { col: 4, row: 2 });
    let mut timer = Timer::new(DEATH_DELAY);
    let mut p = Player::new(Vector { x: 92 * U, y: 64 * U });
    p.steer(Input { right: true, ..keys() });
    p.resolve_walls(&walls, &mut timer);
    assert_eq!(p.position.x, 96 * U);
}

#[test]
fn a_jump_starts_with_the_jump_force() {
    let mut p = standing_at(2, 2);
    let wanted = p.steer(Input { jump: true, ..keys() });
    assert_eq!(wanted, None);
    assert!(!p.grounded && p.jump);
    assert_eq!(p.velocity.y, 44 * U);
    assert_eq!(p.jump_start_y, 64 * U);
    assert_eq!(p.fall_time, 0);
    assert_eq!(p.state(), PlayerState::Jumping);
    // the key does nothing in the air
    let before = p;
    p.steer(Input { jump: true, ..keys() });
    assert_eq!(p, before);
}

#[test]
fn the_first_tick_of_a_jump() {
    let walls = floor(0..10, 1);
    let mut timer = Timer::new(DEATH_DELAY);
    let mut p = standing_at(2, 2);
    p.steer(Input { jump: true, ..keys() });
    p.resolve_walls(&walls, &mut timer);
    // y = 64 + 44 * 0.24 - 0.5 * 9.81 * 0.24 * 0.24
    assert_eq!(p.position.y, 64 * U + 10_560_000 - 282_528);
    assert_eq!(p.velocity.y, 44 * U - 2_354_400);
    assert_eq!(p.fall_time, 240_000);
    assert!(!p.grounded);
}

#[test]
fn a_jump_passes_its_peak_after_nineteen_ticks() {
    let walls = floor(0..10, 1);
    let mut timer = Timer::new(DEATH_DELAY);
    let mut p = standing_at(2, 2);
    p.steer(Input { jump: true, ..keys() });
    for tick in 1..=18 {
        p.resolve_walls(&walls, &mut timer);
        assert!(p.velocity.y > 0, "still rising after {} ticks", tick);
        assert_eq!(p.velocity.y, 44 * U - 2_354_400 * tick);
    }
    p.resolve_walls(&walls, &mut timer);
    assert!(p.velocity.y < 0);
    assert_eq!(p.velocity.y, 44 * U - 2_354_400 * 19);
    // 19 * 0.24 > 44 / 9.81 > 18 * 0.24
    assert!(19 * 240_000 * GRAVITY > 44 * U * U);
    assert!(18 * 240_000 * GRAVITY < 44 * U * U);
}

#[test]
fn a_jump_comes_down_where_it_began() {
    let walls = floor(0..10, 1);
    let mut timer = Timer::new(DEATH_DELAY);
    let mut p = standing_at(2, 2);
    p.steer(Input { jump: true, ..keys() });
    let mut ticks = 0;
    let mut highest = p.position.y;
    while !p.grounded {
        p.resolve_walls(&walls, &mut timer);
        highest = highest.max(p.position.y);
        ticks += 1;
        assert!(ticks < 100);
    }
    assert_eq!(p.position, Vector { x: 64 * U, y: 64 * U });
    assert_eq!(p.velocity.y, 0);
    assert_eq!(p.state(), PlayerState::Grounded);
    // 44 * t = 0.5 * 9.81 * t * t at t = 8.97, that is in the 38th tick
    assert_eq!(ticks, 38);
    // the peak at 18 or 19 ticks: 64 + 10.56 * 19 - 0.282528 * 361
    assert_eq!(highest, 64 * U + 10_560_000 * 19 - 282_528 * 361);
    assert!(p.live);
}

#[test]
fn the_height_in_the_air_follows_the_formula() {
    assert_eq!(airborne_height(0, true, 0), 0);
    assert_eq!(airborne_height(5, false, 0), 5);
    assert_eq!(airborne_height(64 * U, true, 240_000), 64 * U + 10_560_000 - 282_528);
    assert_eq!(airborne_height(64 * U, false, 240_000), 64 * U - 282_528);
    // one whole unit of time: 44 up, 4.905 down
    assert_eq!(airborne_height(0, true, 1_000_000), 44 * U - 4_905_000);
    // fractions of a millionth are dropped from each term
    assert_eq!(airborne_height(0, true, 1), 44);
    assert_eq!(airborne_height(0, false, 1_000), -4);
    assert_eq!(airborne_height(0, false, 999), -4);
    assert_eq!(airborne_height(-7, false, 452), -8);
    let t = AIR_TIME_LIMIT + GRAVITY_TIME_STEP;
    let expected = (44_000_000i128 * t as i128) / 1_000_000 - (9_810_000i128 * t as i128 * t as i128) / 2_000_000_000_000;
    assert_eq!(airborne_height(0, true, t) as i128, expected);
}

#[test]
fn snapping_to_tile_boundaries() {
    assert_eq!(snap_up(0), 0);
    assert_eq!(snap_up(64 * U), 64 * U);
    assert_eq!(snap_up(64 * U + 1), 96 * U);
    assert_eq!(snap_up(64 * U - 1), 64 * U);
    assert_eq!(snap_up(1), 32 * U);
    // just below zero the remainder is negative, and the body is put on
    // top of the ground row
    assert_eq!(snap_up(-1), 32 * U);
    assert_eq!(snap_up(-5_300_000), 32 * U);
    assert_eq!(snap_up(-32 * U), -32 * U);
    assert_eq!(snap_up(-40 * U), 0);
    assert_eq!(snap_down(0), 0);
    assert_eq!(snap_down(64 * U), 64 * U);
    assert_eq!(snap_down(64 * U + 1), 64 * U);
    assert_eq!(snap_down(96 * U - 1), 64 * U);
    assert_eq!(snap_down(-1), 0);
    assert_eq!(snap_down(-40 * U), -32 * U);
}

#[test]
fn walking_off_a_ledge_starts_a_fall() {
    // ground under columns 0 to 3 only
    let walls = floor(0..4, 1);
    let mut timer = Timer::new(DEATH_DELAY);
    // at x = 124 the step leads to 128: the box 112..144 has left the
    // ground, which ends at 112
    let mut p = Player::new(Vector { x: 124 * U, y: 64 * U });
    p.steer(Input { right: true, ..keys() });
    p.resolve_walls(&walls, &mut timer);
    assert_eq!(p.position.x, 128 * U);
    assert!(!p.grounded);
    assert!(!p.jump);
    assert_eq!(p.jump_start_y, 64 * U);
    assert_eq!(p.state(), PlayerState::Falling);
    // the fall began in the same tick
    assert_eq!(p.fall_time, 240_000);
    assert_eq!(p.velocity.y, -2_354_400);
    assert_eq!(p.position.y, 64 * U - 282_528);
}

#[test]
fn a_step_that_keeps_a_foot_on_the_ground_does_not_fall() {
    let walls = floor(0..4, 1);
    let mut timer = Timer::new(DEATH_DELAY);
    let mut p = Player::new(Vector { x: 120 * U, y: 64 * U });
    p.steer(Input { right: true, ..keys() });
    p.resolve_walls(&walls, &mut timer);
    assert_eq!(p.position, Vector { x: 124 * U, y: 64 * U });
    assert!(p.grounded);
}

#[test]
fn a_fall_lands_on_top_of_the_wall() {
    let walls = floor(0..10, 1);
    let mut timer = Timer::new(DEATH_DELAY);
    // falling from three tiles up
    let mut p = Player {
        grounded: false,
        jump_start_y: 160 * U,
        ..Player::new(Vector { x: 64 * U, y: 160 * U })
    };
    let mut ticks = 0;
    while !p.grounded {
        let before = p.position.y;
        p.resolve_walls(&walls, &mut timer);
        assert!(p.grounded || p.position.y < before);
        ticks += 1;
        assert!(ticks < 100);
    }
    // the wall's top edge is at 48: the player's bottom edge rests on it
    assert_eq!(p.position.y - 16 * U, 32 * U + 16 * U);
    assert_eq!(p.velocity.y, 0);
    assert!(p.live);
    // 0.282528 * n * n > 96 first at n = 19
    assert_eq!(ticks, 19);
}

#[test]
fn a_jump_bumps_its_head() {
    let mut walls = floor(0..10, 1);
    // a ceiling two tiles above the player's head
    walls.push(TilePos { col: 2, row: 5 });
    let mut timer = Timer::new(DEATH_DELAY);
    let mut p = standing_at(2, 2);
    p.steer(Input { jump: true, ..keys() });
    let mut ticks = 0;
    while p.jump {
        p.resolve_walls(&walls, &mut timer);
        ticks += 1;
        assert!(ticks < 100);
    }
    // the ceiling's lower edge is at 144; its tile is entered at 128 < y
    assert_eq!(p.position.y, 128 * U);
    assert_eq!(p.velocity.y, 0);
    assert_eq!(p.fall_time, 0);
    assert_eq!(p.jump_start_y, 128 * U);
    assert!(!p.grounded);
    assert_eq!(p.state(), PlayerState::Falling);
    // from there it falls back to the ground
    while !p.grounded {
        p.resolve_walls(&walls, &mut timer);
        ticks += 1;
        assert!(ticks < 100);
    }
    assert_eq!(p.position, Vector { x: 64 * U, y: 64 * U });
}

#[test]
fn a_fall_below_zero_kills() {
    let walls: Vec<TilePos> = Vec::new();
    let mut timer = Timer::new(DEATH_DELAY);
    timer.tick(500);
    let mut p = Player { grounded: false, jump_start_y: 1 * U, ..Player::new(Vector { x: 0, y: 1 * U }) };
    p.resolve_walls(&walls, &mut timer);
    assert!(p.live);
    assert_eq!(timer.elapsed, 500);
    p.resolve_walls(&walls, &mut timer);
    // 1 - 0.282528 * 4 < 0
    assert_eq!(p.position.y, 1 * U - 282_528 * 4);
    assert!(!p.live);
    assert_eq!(p.state(), PlayerState::Dead);
    assert_eq!(timer, Timer::new(DEATH_DELAY));
    // the body falls on, and the timer is left alone
    timer.tick(700);
    p.resolve_walls(&walls, &mut timer);
    assert_eq!(p.position.y, 1 * U - 282_528 * 9);
    assert_eq!(timer.elapsed, 700);
}

#[test]
fn a_dead_player_takes_no_input() {
    let mut p = standing_at(2, 2);
    let mut timer = Timer::new(DEATH_DELAY);
    p.die(&mut timer);
    let dead = p;
    let all = Input { left: true, right: true, jump: true, fire: true, ice: true, thunder: true, sword: true };
    assert_eq!(p.steer(all), None);
    assert_eq!(p, dead);
    assert_eq!(p.steer(Input { right: true, ..keys() }), None);
    assert_eq!(p, dead);
}

#[test]
fn dying_starts_the_death_timer_anew() {
    let mut p = standing_at(2, 2);
    let mut timer = Timer::new(DEATH_DELAY);
    timer.tick(DEATH_DELAY);
    p.die(&mut timer);
    assert!(!p.live);
    assert_eq!(timer, Timer::new(2_000_000_000));
}

#[test]
fn weapon_keys_in_their_order() {
    let mut p = standing_at(2, 2);
    assert_eq!(p.steer(Input { fire: true, ice: true, thunder: true, sword: true, ..keys() }), Some(WeaponKind::Fire));
    assert_eq!(p.steer(Input { ice: true, thunder: true, sword: true, ..keys() }), Some(WeaponKind::Ice));
    assert_eq!(p.steer(Input { thunder: true, sword: true, ..keys() }), Some(WeaponKind::Thunder));
    assert_eq!(p.steer(Input { sword: true, ..keys() }), Some(WeaponKind::Sword));
    assert_eq!(Input { sword: true, ..keys() }.weapon(), Some(WeaponKind::Sword));
    assert_eq!(keys().weapon(), None);
}

#[test]
fn the_limits_of_a_step() {
    let mut p = standing_at(2, 2);
    assert!(p.can_step());
    p.fall_time = AIR_TIME_LIMIT;
    assert!(p.can_step());
    p.fall_time = AIR_TIME_LIMIT + 1;
    assert!(!p.can_step());
    p.fall_time = 0;
    p.position.x = i64::MAX;
    assert!(!p.can_step());
}

#[test]
fn a_grounded_player_keeps_a_wall_beneath() {
    // walk to and fro over a floor with a hole, jump and fall: whenever
    // the player is grounded, one unit below it overlaps a wall
    let mut walls = floor(0..6, 1);
    walls.extend(floor(8..12, 1));
    walls.extend(floor(14..40, 1));
    walls.extend(floor(0..40, 0));
    let mut timer = Timer::new(DEATH_DELAY);
    let mut p = standing_at(2, 2);
    let supported = |p: &Player| {
        walls.iter().any(|w| {
            let c = w.to_center();
            (p.position.x - c.x).abs() < 32 * U && (p.position.y - U - c.y).abs() < 32 * U
        })
    };
    for tick in 0..400 {
        let input = Input { right: tick % 90 < 60, left: tick % 90 >= 60, jump: tick % 37 == 0, ..keys() };
        p.steer(input);
        let was_grounded = p.grounded;
        p.resolve_walls(&walls, &mut timer);
        if p.grounded {
            assert!(supported(&p), "no wall beneath at tick {}", tick);
        }
        if was_grounded && !p.grounded {
            // left the ground without a jump: nothing was beneath the step
            assert!(!supported(&Player { position: Vector { x: p.position.x, y: p.jump_start_y }, ..p }));
        }
    }
    assert!(p.live);
}
