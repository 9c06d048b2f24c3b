use minions::{
    contact, draw_spawn_x, spawn_x, Clock, MinionPlugin, Point, Steer, World, BULLET_SPEED,
    MINIONS_SPEED, MINION_CAP, MINION_TOP, PLAYER_SPEED,
};

const STILL: Steer = Steer { up: false, down: false, right: false, left: false };

fn pt(x: i64, y: i64) -> Point {
    Point { x, y }
}

#[test]
fn fire_once_makes_one_bullet_that_climbs() {
    let mut w = World::new();
    let id = w.shoot();
    assert_eq!(id, Some(1));
    assert_eq!(w.bullets.len(), 1);
    assert_eq!(w.bullets[0].pos, pt(0, 0));
    assert_eq!(w.bullets[0].speed, BULLET_SPEED);
    assert_eq!(BULLET_SPEED, 250);
    w.integrate(1000);
    assert_eq!(w.bullets[0].pos, pt(0, 250_000));
}

#[test]
fn minion_descends_and_is_culled_below_the_floor() {
    let mut w = World::new();
    assert_eq!(w.spawn_minion(-123_000), Some(1));
    assert_eq!(w.minions[0].pos, pt(-123_000, MINION_TOP));
    assert_eq!(w.minions[0].speed, MINIONS_SPEED);
    w.integrate(4000);
    assert_eq!(w.minions[0].pos.y, 100_000);
    w.cull();
    w.apply_removals();
    assert_eq!(w.minions.len(), 1);
    w.integrate(6667);
    assert_eq!(w.minions[0].pos.y, -400_025);
    w.cull();
    assert!(w.minions[0].marked);
    w.apply_removals();
    assert_eq!(w.minions.len(), 0);
}

#[test]
fn close_bullet_kills_minion_once() {
    let mut w = World::new();
    w.player.as_mut().unwrap().body.pos = pt(-500_000, 0);
    w.spawn_minion(0);
    w.minions[0].pos = pt(0, 0);
    w.spawn_bullet(pt(0, 3000));
    let kills = w.bullet_minion_sweep();
    assert_eq!(kills, vec![(1, 2)]);
    assert!(w.minions[0].marked);
    assert!(w.bullets[0].marked);
    w.apply_removals();
    assert_eq!(w.minions.len(), 0);
    assert_eq!(w.bullets.len(), 0);
}

#[test]
fn minion_at_sixty_misses_the_player() {
    let mut w = World::new();
    w.spawn_minion(0);
    w.minions[0].pos = pt(0, 60_000);
    assert!(w.minion_player_sweep().is_empty());
    assert!(!w.game_over);
    w.apply_removals();
    assert!(w.player.is_some());
    assert_eq!(w.minions.len(), 1);
}

#[test]
fn minion_at_fifty_reaches_the_player() {
    let mut w = World::new();
    w.spawn_minion(0);
    w.minions[0].pos = pt(0, 50_000);
    assert_eq!(w.minion_player_sweep(), vec![(1, 0)]);
    assert!(w.game_over);
    w.apply_removals();
    assert!(w.player.is_none());
    assert_eq!(w.minions.len(), 0);
    // the latch never resets
    assert!(w.minion_player_sweep().is_empty());
    assert!(w.game_over);
}

#[test]
fn sixteenth_minion_is_refused() {
    let mut w = World::new();
    for i in 0..15 {
        assert!(w.spawn_minion(i * 1000).is_some());
    }
    assert_eq!(w.minions.len(), MINION_CAP);
    assert_eq!(w.spawn_minion(0), None);
    assert_eq!(w.minions.len(), 15);
}

#[test]
fn spawner_never_exceeds_cap_over_many_frames() {
    let mut w = World::new();
    for _ in 0..200 {
        w.spawn_on_tick(2000, 0);
        assert!(w.minions.len() <= 15);
    }
    assert_eq!(w.minions.len(), 15);
}

#[test]
fn bullet_above_ceiling_is_removed() {
    let mut w = World::new();
    w.spawn_bullet(pt(0, 300_000));
    w.spawn_bullet(pt(0, 300_001));
    w.cull();
    w.apply_removals();
    assert_eq!(w.bullets.len(), 1);
    assert_eq!(w.bullets[0].pos.y, 300_000);
}

#[test]
fn contact_is_symmetric_and_sweep_order_free() {
    let a = pt(1000, -2000);
    let b = pt(-7000, 4000);
    for reach in [0, 9_999, 10_000, 10_001, 30_000] {
        assert_eq!(contact(a, b, reach), contact(b, a, reach));
    }
    let mut w = World::new();
    w.spawn_minion(0);
    w.minions[0].pos = pt(0, 0);
    w.spawn_bullet(pt(20_000, 20_000));
    w.spawn_bullet(pt(29_999, 0));
    w.spawn_bullet(pt(30_000, 0));
    w.bullet_minion_sweep();
    let marks: Vec<bool> = w.bullets.iter().map(|b| b.marked).collect();
    assert_eq!(marks, vec![true, true, false]);
    assert!(w.minions[0].marked);
}

#[test]
fn contact_boundary_is_strict() {
    assert!(!contact(pt(0, 0), pt(3000, 4000), 5000));
    assert!(contact(pt(0, 0), pt(3000, 3999), 5000));
    assert!(contact(pt(0, 0), pt(0, 3000), 30_000));
}

#[test]
fn second_removal_changes_nothing() {
    let mut w = World::new();
    w.spawn_bullet(pt(0, 0));
    w.spawn_bullet(pt(0, 1000));
    w.mark_for_removal(1);
    w.apply_removals();
    let once: Vec<u64> = w.bullets.iter().map(|b| b.id).collect();
    assert_eq!(once, vec![2]);
    w.apply_removals();
    let twice: Vec<u64> = w.bullets.iter().map(|b| b.id).collect();
    assert_eq!(once, twice);
    assert!(w.player.is_some());
}

#[test]
fn marking_unknown_id_is_a_no_op() {
    let mut w = World::new();
    w.spawn_bullet(pt(0, 0));
    w.mark_for_removal(99);
    w.apply_removals();
    assert_eq!(w.bullets.len(), 1);
}

#[test]
fn marking_the_player_id_leaves_it() {
    let mut w = World::new();
    w.mark_for_removal(0);
    w.apply_removals();
    assert!(w.player.is_some());
    assert!(!w.game_over);
    assert_eq!(w.shoot(), Some(1));
}

#[test]
fn one_bullet_may_take_two_minions() {
    let mut w = World::new();
    w.spawn_minion(0);
    w.spawn_minion(0);
    w.minions[0].pos = pt(-10_000, 0);
    w.minions[1].pos = pt(10_000, 0);
    w.spawn_bullet(pt(0, 0));
    let kills = w.bullet_minion_sweep();
    assert_eq!(kills, vec![(1, 3), (2, 3)]);
    w.apply_removals();
    assert_eq!(w.minions.len(), 0);
    assert_eq!(w.bullets.len(), 0);
}

#[test]
fn clock_fires_every_two_seconds_and_keeps_remainder() {
    let mut c = Clock::new(2000);
    assert!(!c.tick(1500));
    assert_eq!(c.elapsed_ms, 1500);
    assert!(c.tick(700));
    assert_eq!(c.elapsed_ms, 200);
    assert!(c.tick(5000));
    assert_eq!(c.elapsed_ms, 1200);
    let z = Clock::new(0);
    assert_eq!(z.interval_ms, 1);
}

#[test]
fn plugin_waits_for_timer_and_room() {
    let mut p = MinionPlugin::new();
    assert!(!p.ready(1999, 0));
    assert!(p.ready(1, 14));
    assert!(!p.ready(2000, 15));
}

#[test]
fn player_moves_one_direction_by_priority() {
    let mut w = World::new();
    let all = Steer { up: true, down: true, right: true, left: true };
    w.move_player(all, 100);
    assert_eq!(w.player.unwrap().body.pos, pt(0, 20_000));
    let right_left = Steer { up: false, down: false, right: true, left: true };
    w.move_player(right_left, 500);
    assert_eq!(w.player.unwrap().body.pos, pt(100_000, 20_000));
    assert_eq!(PLAYER_SPEED, 200);
}

#[test]
fn player_stops_at_the_edge() {
    let mut w = World::new();
    let up = Steer { up: true, down: false, right: false, left: false };
    w.player.as_mut().unwrap().body.pos = pt(0, 300_000);
    w.move_player(up, 100);
    assert_eq!(w.player.unwrap().body.pos, pt(0, 300_000));
    let up_left = Steer { up: true, down: false, right: false, left: true };
    w.move_player(up_left, 100);
    assert_eq!(w.player.unwrap().body.pos, pt(-20_000, 300_000));
    w.player.as_mut().unwrap().body.pos = pt(299_000, 299_000);
    w.move_player(up, 100);
    assert_eq!(w.player.unwrap().body.pos, pt(299_000, 300_000));
    let right = Steer { up: false, down: false, right: true, left: false };
    w.player.as_mut().unwrap().body.pos = pt(590_000, 0);
    w.move_player(right, 500);
    assert_eq!(w.player.unwrap().body.pos, pt(600_000, 0));
    let down = Steer { up: false, down: true, right: false, left: false };
    w.player.as_mut().unwrap().body.pos = pt(0, -299_000);
    w.move_player(down, 500);
    assert_eq!(w.player.unwrap().body.pos, pt(0, -300_000));
    let left = Steer { up: false, down: false, right: false, left: true };
    w.player.as_mut().unwrap().body.pos = pt(-599_999, 0);
    w.move_player(left, 16);
    assert_eq!(w.player.unwrap().body.pos, pt(-600_000, 0));
}

#[test]
fn spawn_x_applies_sign_and_scale() {
    assert_eq!(spawn_x(600, true), -600_000);
    assert_eq!(spawn_x(600, false), 600_000);
    assert_eq!(spawn_x(0, true), 0);
    assert_eq!(spawn_x(42, false), 42_000);
}

#[test]
fn drawn_spawn_positions_vary_within_the_field() {
    let mut seen = Vec::new();
    for _ in 0..300 {
        let x = draw_spawn_x();
        assert!((-600_000..=600_000).contains(&x));
        assert_eq!(x % 1000, 0);
        seen.push(x);
    }
    assert!(seen.iter().any(|&x| x < 0));
    assert!(seen.iter().any(|&x| x > 0));
    assert!(seen.iter().any(|&x| x != 600_000 && x != -600_000));
}

#[test]
fn step_runs_a_whole_frame() {
    let mut w = World::new();
    let cues = w.step(1000, STILL, true, 5000);
    assert!(cues.shot);
    assert!(cues.kills.is_empty());
    assert!(!cues.game_over);
    assert_eq!(w.minions.len(), 0);
    assert_eq!(w.bullets.len(), 1);
    assert_eq!(w.bullets[0].pos, pt(0, 250_000));
    let cues = w.step(1000, STILL, false, 5000);
    assert!(!cues.shot);
    assert_eq!(w.minions.len(), 1);
    assert_eq!(w.minions[0].pos, pt(5000, 400_000 - 75 * 1000));
    assert_eq!(w.bullets.len(), 0);
}

#[test]
fn step_reports_game_over() {
    let mut w = World::new();
    w.spawn_minion(0);
    w.minions[0].pos = pt(0, 40_000);
    w.spawn_minion(0);
    w.minions[1].pos = pt(10_000, -40_000);
    let cues = w.step(0, STILL, false, 0);
    assert_eq!(cues.crashes, vec![(1, 0), (2, 0)]);
    assert!(cues.game_over);
    assert!(w.game_over);
    assert!(w.player.is_none());
    let cues = w.step(16, STILL, true, 0);
    assert!(!cues.shot);
    assert!(cues.crashes.is_empty());
    assert!(!cues.game_over);
    assert!(w.game_over);
}

#[test]
fn step_reports_kills() {
    let mut w = World::new();
    w.player.as_mut().unwrap().body.pos = pt(-500_000, 0);
    w.spawn_minion(0);
    w.minions[0].pos = pt(0, 100_000);
    w.spawn_bullet(pt(0, 90_000));
    let cues = w.step(0, STILL, false, 0);
    assert_eq!(cues.kills, vec![(1, 2)]);
    assert!(cues.crashes.is_empty());
    assert!(w.minions.is_empty());
    assert!(w.bullets.is_empty());
    assert!(w.player.is_some());
}
