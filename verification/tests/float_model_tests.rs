//! The rules of the player among the walls, written once more in floating
//! point with every wall looked at in turn, and held against the library
//! over long runs of keys.

use innocent_heart::consts::{STAGE1_MAP, STAGE2_MAP};
use innocent_heart::geometry::{Direction, Vector};
use innocent_heart::player::{Input, Player, DEATH_DELAY};
use innocent_heart::tilemap::{TileMap, TilePos};
use innocent_heart::timer::Timer;

#[derive(Clone, Copy, Debug, PartialEq)]
enum Hit {
    Left,
    Right,
    Top,
    Bottom,
    Inside,
}

fn collide(a: (f32, f32), a_size: f32, b: (f32, f32), b_size: f32) -> Option<Hit> {
    let (a_min_x, a_max_x) = (a.0 - a_size / 2., a.0 + a_size / 2.);
    let (a_min_y, a_max_y) = (a.1 - a_size / 2., a.1 + a_size / 2.);
    let (b_min_x, b_max_x) = (b.0 - b_size / 2., b.0 + b_size / 2.);
    let (b_min_y, b_max_y) = (b.1 - b_size / 2., b.1 + b_size / 2.);
    if a_min_x < b_max_x && a_max_x > b_min_x && a_min_y < b_max_y && a_max_y > b_min_y {
        let (x_hit, x_depth) = if a_min_x < b_min_x && a_max_x > b_min_x && a_max_x < b_max_x {
            (Hit::Left, b_min_x - a_max_x)
        } else if a_min_x > b_min_x && a_min_x < b_max_x && a_max_x > b_max_x {
            (Hit::Right, a_min_x - b_max_x)
        } else {
            (Hit::Inside, -f32::INFINITY)
        };
        let (y_hit, y_depth) = if a_min_y < b_min_y && a_max_y > b_min_y && a_max_y < b_max_y {
            (Hit::Bottom, b_min_y - a_max_y)
        } else if a_min_y > b_min_y && a_min_y < b_max_y && a_max_y > b_max_y {
            (Hit::Top, a_min_y - b_max_y)
        } else {
            (Hit::Inside, -f32::INFINITY)
        };
        if y_depth.abs() < x_depth.abs() {
            Some(y_hit)
        } else {
            Some(x_hit)
        }
    } else {
        None
    }
}

#[derive(Clone, Copy, Debug)]
struct FloatPlayer {
    x: f32,
    y: f32,
    speed: f32,
    left: bool,
    walk: bool,
    grounded: bool,
    live: bool,
    jump: bool,
    fall_time: f32,
    jump_start_y: f32,
}

fn float_steer(p: &mut FloatPlayer, input: Input) {
    if !p.live {
        return;
    }
    if input.left {
        p.left = true;
        p.walk = true;
    } else if input.right {
        p.left = false;
        p.walk = true;
    }
    if p.grounded && input.jump {
        p.grounded = false;
        p.speed = 44.;
        p.jump = true;
        p.jump_start_y = p.y;
        p.fall_time = 0.;
    }
}

fn float_walls(p: &mut FloatPlayer, walls: &[(f32, f32)]) {
    let mut next = (p.x, p.y);
    if p.walk {
        next.0 = if p.left { p.x - 4. } else { p.x + 4. };
        if p.grounded {
            let probe = (next.0, p.y - 1.);
            let mut fall = true;
            for wall in walls {
                if collide(probe, 32., *wall, 32.).is_some() {
                    fall = false;
                }
            }
            if fall {
                p.grounded = false;
                p.jump = false;
                p.jump_start_y = p.y;
                p.fall_time = 0.;
            }
        }
    }
    for wall in walls {
        if let Some(Hit::Left | Hit::Right) = collide(next, 32., *wall, 32.) {
            next.0 = p.x;
        }
    }
    if p.walk {
        p.x = next.0;
        p.walk = false;
    }
    if p.grounded {
        return;
    }
    p.speed -= 9.81 * 0.24;
    p.fall_time += 0.24;
    let t = p.fall_time;
    next.1 = if p.jump {
        p.jump_start_y + 44. * t - 0.5 * 9.81 * t * t
    } else {
        p.jump_start_y - 0.5 * 9.81 * t * t
    };
    let falling = p.speed < 0.;
    let rising = p.speed > 0.;
    for wall in walls {
        if let Some(hit) = collide(next, 32., *wall, 32.) {
            if falling && hit != Hit::Bottom {
                p.grounded = true;
                p.speed = 0.;
                if next.1 % 32. != 0. {
                    next.1 = next.1 + (32. - next.1 % 32.);
                }
            }
            if rising && hit != Hit::Top {
                p.speed = 0.;
                p.jump = false;
                p.fall_time = 0.;
                if next.1 % 32. != 0. {
                    next.1 = next.1 - next.1 % 32.;
                }
                p.jump_start_y = next.1;
            }
        }
    }
    p.y = next.1;
    if p.y < 0. && p.live {
        p.live = false;
    }
}

struct Keys(u64);

impl Keys {
    fn next(&mut self) -> u64 {
        self.0 = self.0.wrapping_mul(6364136223846793005).wrapping_add(1442695040888963407);
        self.0 >> 33
    }
}

fn run(map: &[&str], seed: u64, ticks: usize) -> usize {
    let walls: Vec<TilePos> = TileMap::decode(map).walls();
    let float_walls_list: Vec<(f32, f32)> =
        walls.iter().map(|w| (32. * w.col as f32, 32. * w.row as f32)).collect();
    let mut timer = Timer::new(DEATH_DELAY);
    let mut player = Player::new(Vector { x: 64_000_000, y: 64_000_000 });
    let mut model = FloatPlayer {
        x: 64.,
        y: 64.,
        speed: 0.,
        left: false,
        walk: false,
        grounded: true,
        live: true,
        jump: false,
        fall_time: 0.,
        jump_start_y: 0.,
    };
    let mut keys = Keys(seed);
    let mut held = Input::none();
    let mut jumps = 0;
    for tick in 0..ticks {
        if tick % 16 == 0 {
            // mostly to the right, so that the whole stage is walked
            let way = keys.next() % 8;
            held.right = way < 5;
            held.left = way == 5 || way == 6;
        }
        let input = Input { jump: keys.next() % 6 == 0, ..held };
        player.steer(input);
        float_steer(&mut model, input);
        if !player.can_step() {
            break;
        }
        player.resolve_walls(&walls, &mut timer);
        float_walls(&mut model, &float_walls_list);

        assert_eq!(player.grounded, model.grounded, "grounded at tick {}", tick);
        assert_eq!(player.live, model.live, "live at tick {}", tick);
        assert_eq!(player.jump, model.jump, "jump at tick {}", tick);
        assert_eq!(player.direction == Direction::Left, model.left, "direction at tick {}", tick);
        let x = player.position.x as f64 / 1e6;
        let y = player.position.y as f64 / 1e6;
        assert!((x - model.x as f64).abs() < 1e-3, "x at tick {}: {} and {}", tick, x, model.x);
        assert!((y - model.y as f64).abs() < 2e-2, "y at tick {}: {} and {}", tick, y, model.y);
        if player.jump && player.fall_time == 240_000 {
            jumps += 1;
        }
        if !player.live {
            break;
        }
    }
    jumps
}

#[test]
fn the_integer_rules_agree_with_floating_point_on_the_first_stage() {
    let mut jumps = 0;
    for seed in 1..=40 {
        jumps += run(&STAGE1_MAP, seed, 1_500);
    }
    assert!(jumps > 100);
}

#[test]
fn the_integer_rules_agree_with_floating_point_on_the_second_stage() {
    let mut jumps = 0;
    for seed in 100..=140 {
        jumps += run(&STAGE2_MAP, seed, 1_500);
    }
    assert!(jumps > 100);
}

#[test]
fn the_integer_rules_agree_with_floating_point_in_a_shaft() {
    // walls close on both sides and steps to climb
    let map = [
        "CCCCCCCCCCCC",
        "CAAAAAAAAAAC",
        "CAAAAAACAAAC",
        "CAAAACAAAAAC",
        "CAACAAAAACAC",
        "CAAAAAAAAAAC",
        "CCCCCCCCCCCC",
    ];
    for seed in 200..=260 {
        run(&map, seed, 2_000);
    }
}
