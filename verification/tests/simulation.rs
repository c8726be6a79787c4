use simulator::raster::draw_circle;
use simulator::world::Ball;
use simulator::world::Rgb;
use simulator::world::Vec2;
use simulator::world::World;

fn plain_ball(pos: Vec2, vel: Vec2) -> Ball {
    Ball {
        pos,
        vel,
        color: Rgb { r: 0, g: 0, b: 0 },
    }
}

#[test]
fn world_new_is_empty_800_by_600() {
    let w = World::new();
    assert_eq!(w.size, Vec2 { x: 8000, y: 6000 });
    assert_eq!(w.balls.len(), 0);
}

#[test]
fn tick_grows_by_one_each_time() {
    let mut w = World::new();
    for n in 1..=10 {
        w.tick();
        assert_eq!(w.balls.len(), n);
    }
}

#[test]
fn hundred_ticks_yield_hundred_bounded_balls() {
    let mut w = World::new();
    for _ in 0..100 {
        w.tick();
    }
    assert_eq!(w.balls.len(), 100);
    // The bounds never change after construction.
    assert_eq!(w.size, Vec2 { x: 8000, y: 6000 });
    for b in &w.balls {
        // Spawn position is inside the world and per-axis speed at most 50;
        // gravity adds 8 per tick, so after 100 ticks speed stays below 900
        // and no coordinate can have moved further than 100 * 900.
        assert!(b.vel.x.abs() <= 900);
        assert!(b.vel.y.abs() <= 900);
        assert!(b.pos.x.abs() <= 100_000);
        assert!(b.pos.y.abs() <= 100_000);
    }
}

#[test]
fn tick_reflects_out_of_bounds_ball_then_integrates() {
    let mut w = World {
        size: Vec2 { x: 8000, y: 6000 },
        balls: vec![plain_ball(Vec2 { x: -50, y: 100 }, Vec2 { x: 30, y: 20 })],
    };
    w.tick();
    assert_eq!(w.balls.len(), 2);
    let b = &w.balls[0];
    // pos.x < 0, so vel.x flips to -30 before the position moves.
    assert_eq!(b.pos, Vec2 { x: -80, y: 120 });
    assert_eq!(b.vel, Vec2 { x: -30, y: 28 });
}

#[test]
fn update_vel_flips_sign_only_outside_bounds() {
    let size = Vec2 { x: 8000, y: 6000 };

    let mut inside = plain_ball(Vec2 { x: 400, y: 300 }, Vec2 { x: 17, y: -23 });
    inside.update_vel(&size);
    assert_eq!(inside.vel, Vec2 { x: 17, y: -23 });
    assert_eq!(inside.pos, Vec2 { x: 400, y: 300 });

    let mut past_right = plain_ball(Vec2 { x: 8001, y: 300 }, Vec2 { x: 17, y: -23 });
    past_right.update_vel(&size);
    assert_eq!(past_right.vel, Vec2 { x: -17, y: -23 });

    let mut past_both = plain_ball(Vec2 { x: -1, y: 6001 }, Vec2 { x: 17, y: -23 });
    past_both.update_vel(&size);
    assert_eq!(past_both.vel, Vec2 { x: -17, y: 23 });

    // The boundary itself does not reflect: only strictly outside does.
    let mut on_edge = plain_ball(Vec2 { x: 0, y: 6000 }, Vec2 { x: 17, y: -23 });
    on_edge.update_vel(&size);
    assert_eq!(on_edge.vel, Vec2 { x: 17, y: -23 });
}

#[test]
fn integration_uses_pre_gravity_velocity() {
    let mut b = plain_ball(Vec2 { x: 100, y: 200 }, Vec2 { x: 30, y: -40 });
    b.tick();
    // Position moves by the old velocity; only then does gravity raise vel.y.
    assert_eq!(b.pos, Vec2 { x: 130, y: 160 });
    assert_eq!(b.vel, Vec2 { x: 30, y: -32 });
}

#[test]
fn integration_saturates_at_the_i64_ends() {
    let mut b = plain_ball(Vec2 { x: i64::MAX - 5, y: 0 }, Vec2 { x: 100, y: 0 });
    b.tick();
    assert_eq!(b.pos.x, i64::MAX);
    assert_eq!(b.vel.y, 8);
}

#[test]
fn random_spawn_stays_in_bounds() {
    let size = Vec2 { x: 8000, y: 6000 };
    for _ in 0..50 {
        let b = Ball::random(size);
        assert!(0 <= b.pos.x && b.pos.x < 8000);
        assert!(0 <= b.pos.y && b.pos.y < 6000);
        assert!(-50 <= b.vel.x && b.vel.x <= 50);
        assert!(-50 <= b.vel.y && b.vel.y <= 50);
    }
}

#[test]
fn ball_new_keeps_position_and_velocity() {
    let b = Ball::new(Vec2 { x: 12, y: -34 }, Vec2 { x: 5, y: 6 });
    assert_eq!(b.pos, Vec2 { x: 12, y: -34 });
    assert_eq!(b.vel, Vec2 { x: 5, y: 6 });
}

#[test]
fn unit_radius_circle_is_a_single_pixel() {
    // Radius 1.0 (10 fixed-point units): of the candidate offsets
    // {-1, 0} x {-1, 0}, only (0, 0) satisfies dx*dx + dy*dy < 1.
    let batch = draw_circle(Rgb { r: 1, g: 2, b: 3 }, (0, 0), 10);
    assert_eq!(batch.points, vec![(0, 0)]);
    assert_eq!(batch.color, Rgb { r: 1, g: 2, b: 3 });
}

#[test]
fn four_pixel_radius_circle_shape() {
    let batch = draw_circle(Rgb { r: 0, g: 0, b: 0 }, (10, 20), 40);
    assert_eq!(batch.points.len(), 45);
    assert!(batch.points.contains(&(10, 20)));
    assert!(batch.points.contains(&(13, 22)));
    assert!(batch.points.contains(&(10, 17)));
    // dx*dx + dy*dy == 16 is excluded, and so is dx == -4 outright.
    assert!(!batch.points.contains(&(14, 20)));
    assert!(!batch.points.contains(&(6, 20)));
    // No pixel appears twice.
    let mut seen = batch.points.clone();
    seen.sort();
    seen.dedup();
    assert_eq!(seen.len(), 45);
}

#[test]
fn ball_draw_centers_batch_at_pixel_position() {
    let b = Ball {
        pos: Vec2 { x: 795, y: -12 },
        vel: Vec2 { x: 0, y: 0 },
        color: Rgb { r: 9, g: 8, b: 7 },
    };
    // 795 tenths of a pixel is pixel 79; -12 tenths is pixel -1.
    let batch = b.draw();
    assert_eq!(batch.color, Rgb { r: 9, g: 8, b: 7 });
    assert_eq!(batch.points.len(), 45);
    assert!(batch.points.contains(&(79, -1)));
    assert!(batch.points.contains(&(82, 1)));
    assert!(!batch.points.contains(&(83, -1)));
}

#[test]
fn world_draw_yields_one_batch_per_ball() {
    let mut red = plain_ball(Vec2 { x: 100, y: 100 }, Vec2 { x: 0, y: 0 });
    red.color = Rgb { r: 255, g: 0, b: 0 };
    let mut blue = plain_ball(Vec2 { x: 4000, y: 3000 }, Vec2 { x: 0, y: 0 });
    blue.color = Rgb { r: 0, g: 0, b: 255 };
    let w = World {
        size: Vec2 { x: 8000, y: 6000 },
        balls: vec![red, blue],
    };
    let batches = w.draw();
    assert_eq!(batches.len(), 2);
    assert_eq!(batches[0].color, Rgb { r: 255, g: 0, b: 0 });
    assert_eq!(batches[1].color, Rgb { r: 0, g: 0, b: 255 });
    assert!(batches[0].points.contains(&(10, 10)));
    assert!(batches[1].points.contains(&(400, 300)));
}

#[test]
fn empty_world_draws_nothing() {
    let w = World::new();
    assert_eq!(w.draw().len(), 0);
}
