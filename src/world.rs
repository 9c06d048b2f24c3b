use vstd::prelude::*;

use crate::body::{
    advance, advanced, all_wf, contact_pairs, drop_marked, hit_by, ids_increasing, lemma_hits_by_position, lemma_survivors_from, ids_below, mark_hits, mark_in,
    mark_out, marked_hits, marked_id, marked_out, pairs_in_contact, survivors, touches_any, Body,
    MAX_STEP_MS,
};
use crate::clock::{carried, fires, Clock};
use crate::geometry::{
    Point, BULLET_CEILING, BULLET_RADIUS, BULLET_SPEED, MINIONS_SPEED, MINION_FLOOR, MINION_RADIUS,
    MINION_TOP, PLAYER_RADIUS, PLAYER_SPEED, X_LIMIT, Y_LIMIT,
};

verus! {

/// Most minions alive at once.
pub const MINION_CAP: usize = 15;

/// Milliseconds between two minion spawn attempts.
pub const SPAWN_INTERVAL_MS: u64 = 2000;

/// Health the player starts with.
pub const PLAYER_HEALTH: i32 = 100;

/// Contact distance between a minion and a bullet.
pub const MINION_BULLET_REACH: i64 = MINION_RADIUS + BULLET_RADIUS;

/// Contact distance between a minion and the player.
pub const MINION_PLAYER_REACH: i64 = MINION_RADIUS + PLAYER_RADIUS;

/// The player's ship.
#[derive(Clone, Copy, Debug, PartialEq, Eq, Structural)]
pub struct Player {
    pub health: i32,
    pub body: Body,
}

/// Directions held down this frame.
#[derive(Clone, Copy, Debug, PartialEq, Eq, Structural)]
pub struct Steer {
    pub up: bool,
    pub down: bool,
    pub right: bool,
    pub left: bool,
}

/// The region the player moves in: `[-X_LIMIT, X_LIMIT]` by
/// `[-Y_LIMIT, Y_LIMIT]`.
pub open spec fn in_region(p: Point) -> bool {
    -X_LIMIT <= p.x <= X_LIMIT && -Y_LIMIT <= p.y <= Y_LIMIT
}

pub open spec fn at_most(v: int, hi: int) -> int {
    if v > hi {
        hi
    } else {
        v
    }
}

pub open spec fn at_least(v: int, lo: int) -> int {
    if v < lo {
        lo
    } else {
        v
    }
}

/// Where a ship at `p` ends up after one frame of `steer`: it moves `step`
/// along the first held direction (up, down, right, left) in which it has
/// not yet reached the edge of its region, and stops at that edge.
pub open spec fn steered(p: Point, steer: Steer, step: int) -> Point {
    if steer.up && p.y < Y_LIMIT {
        Point { x: p.x, y: at_most(p.y + step, Y_LIMIT as int) as i64 }
    } else if steer.down && p.y > -Y_LIMIT {
        Point { x: p.x, y: at_least(p.y - step, -Y_LIMIT) as i64 }
    } else if steer.right && p.x < X_LIMIT {
        Point { x: at_most(p.x + step, X_LIMIT as int) as i64, y: p.y }
    } else if steer.left && p.x > -X_LIMIT {
        Point { x: at_least(p.x - step, -X_LIMIT) as i64, y: p.y }
    } else {
        p
    }
}

/// The player's body, as a sequence of zero or one bodies.
pub open spec fn player_bodies(p: Option<Player>) -> Seq<Body> {
    match p {
        Some(pl) => seq![pl.body],
        None => Seq::empty(),
    }
}

/// The abstract state of a world: its entities, the next fresh identity,
/// the game-over latch, and the spawner's timer.
pub struct Scene {
    pub player: Option<Player>,
    pub bullets: Seq<Body>,
    pub minions: Seq<Body>,
    pub next_id: u64,
    pub game_over: bool,
    pub elapsed_ms: u64,
    pub interval_ms: u64,
}

/// The minion spawn phase: the timer advances by `dt`; when it fires, below
/// the cap and with identities left, a minion appears at `x` on the top edge.
pub open spec fn spawned(s: Scene, dt: u64, x: i64) -> Scene {
    let go = fires(s.elapsed_ms as int, s.interval_ms as int, dt as int) && s.minions.len()
        < MINION_CAP && s.next_id < u64::MAX;
    let elapsed = carried(s.elapsed_ms as int, s.interval_ms as int, dt as int) as u64;
    if go {
        Scene {
            minions: s.minions.push(
                Body { id: s.next_id, pos: Point { x, y: MINION_TOP }, speed: MINIONS_SPEED, marked: false },
            ),
            next_id: (s.next_id + 1) as u64,
            elapsed_ms: elapsed,
            ..s
        }
    } else {
        Scene { elapsed_ms: elapsed, ..s }
    }
}

/// The fire phase: while the player is present and identities are left, a
/// bullet appears at the player's position.
pub open spec fn fired(s: Scene) -> Scene {
    if s.player is Some && s.next_id < u64::MAX {
        Scene {
            bullets: s.bullets.push(
                Body { id: s.next_id, pos: s.player->0.body.pos, speed: BULLET_SPEED, marked: false },
            ),
            next_id: (s.next_id + 1) as u64,
            ..s
        }
    } else {
        s
    }
}

/// The player's move phase.
pub open spec fn steered_scene(s: Scene, steer: Steer, dt: u64) -> Scene {
    match s.player {
        Some(p) => Scene {
            player: Some(
                Player {
                    health: p.health,
                    body: Body {
                        id: p.body.id,
                        pos: steered(p.body.pos, steer, PLAYER_SPEED * dt),
                        speed: p.body.speed,
                        marked: p.body.marked,
                    },
                },
            ),
            ..s
        },
        None => s,
    }
}

/// The motion phase: bullets up, minions down.
pub open spec fn moved(s: Scene, dt: u64) -> Scene {
    Scene {
        bullets: advanced(s.bullets, true, dt as int),
        minions: advanced(s.minions, false, dt as int),
        ..s
    }
}

/// The culling phase.
pub open spec fn culled(s: Scene) -> Scene {
    Scene {
        bullets: marked_out(s.bullets, true, BULLET_CEILING as int),
        minions: marked_out(s.minions, false, MINION_FLOOR as int),
        ..s
    }
}

/// The bullet-minion sweep.
pub open spec fn bullet_swept(s: Scene) -> Scene {
    Scene {
        bullets: marked_hits(s.bullets, s.minions, MINION_BULLET_REACH as int),
        minions: marked_hits(s.minions, s.bullets, MINION_BULLET_REACH as int),
        ..s
    }
}

/// Whether a minion touches the player.
pub open spec fn player_hit(s: Scene) -> bool {
    s.player is Some && hit_by(s.player->0.body, s.minions, MINION_PLAYER_REACH as int)
}

/// The minion-player sweep.
pub open spec fn player_swept(s: Scene) -> Scene {
    Scene {
        minions: marked_hits(s.minions, player_bodies(s.player), MINION_PLAYER_REACH as int),
        player: match s.player {
            Some(p) => Some(
                Player { health: p.health, body: p.body.with_mark(p.body.marked || player_hit(s)) },
            ),
            None => None,
        },
        game_over: s.game_over || player_hit(s),
        ..s
    }
}

/// The removal phase.
pub open spec fn removed(s: Scene) -> Scene {
    Scene {
        bullets: survivors(s.bullets),
        minions: survivors(s.minions),
        player: player_kept(s.player),
        ..s
    }
}

/// The world just before the collision sweeps of a frame.
pub open spec fn before_sweeps(s: Scene, dt: u64, steer: Steer, fire: bool, x: i64) -> Scene {
    let spawned = spawned(s, dt, x);
    let armed = if fire { fired(spawned) } else { spawned };
    culled(moved(steered_scene(armed, steer, dt), dt))
}

/// A whole frame.
pub open spec fn frame(s: Scene, dt: u64, steer: Steer, fire: bool, x: i64) -> Scene {
    removed(player_swept(bullet_swept(before_sweeps(s, dt, steer, fire, x))))
}

/// The player after the removals: gone when marked.
pub open spec fn player_kept(p: Option<Player>) -> Option<Player> {
    match p {
        Some(pl) => if pl.body.marked { None } else { Some(pl) },
        None => None,
    }
}

/// The minion spawner: a repeating timer that lets one minion appear each
/// time it fires while fewer than the cap are alive.
pub struct MinionPlugin {
    pub timer: Clock,
}

impl MinionPlugin {
    pub open spec fn wf(self) -> bool {
        self.timer.wf()
    }

    /// A spawner that fires every two seconds.
    pub fn new() -> (s: MinionPlugin)
        ensures
            s.wf(),
            s.timer.interval_ms == SPAWN_INTERVAL_MS,
            s.timer.elapsed_ms == 0,
    {
        MinionPlugin { timer: Clock::new(SPAWN_INTERVAL_MS) }
    }

    /// Advances the timer by `dt_ms`; returns whether a minion may appear now,
    /// with `live` minions alive.
    pub fn ready(&mut self, dt_ms: u64, live: usize) -> (go: bool)
        requires
            old(self).wf(),
        ensures
            final(self).wf(),
            final(self).timer.interval_ms == old(self).timer.interval_ms,
            final(self).timer.elapsed_ms == carried(
                old(self).timer.elapsed_ms as int,
                old(self).timer.interval_ms as int,
                dt_ms as int,
            ),
            go == (fires(
                old(self).timer.elapsed_ms as int,
                old(self).timer.interval_ms as int,
                dt_ms as int,
            ) && live < MINION_CAP),
    {
        let fired = self.timer.tick(dt_ms);
        fired && live < MINION_CAP
    }
}

/// What one frame asks the presentation layer to play or show.
pub struct Cues {
    /// A bullet was fired.
    pub shot: bool,
    /// Identities `(minion, bullet)` of each minion-bullet contact.
    pub kills: Vec<(u64, u64)>,
    /// Identities `(minion, player)` of each minion-player contact.
    pub crashes: Vec<(u64, u64)>,
    /// Game over was latched this frame: the terminal text is shown once.
    pub game_over: bool,
}

/// The whole simulation state: the player (until a minion reaches it), the
/// bullets and minions in play, the next fresh identity, the spawner, and
/// the game-over latch.
pub struct World {
    pub player: Option<Player>,
    pub bullets: Vec<Body>,
    pub minions: Vec<Body>,
    pub next_id: u64,
    pub spawner: MinionPlugin,
    pub game_over: bool,
}

impl View for World {
    type V = Scene;

    open spec fn view(&self) -> Scene {
        Scene {
            player: self.player,
            bullets: self.bullets@,
            minions: self.minions@,
            next_id: self.next_id,
            game_over: self.game_over,
            elapsed_ms: self.spawner.timer.elapsed_ms,
            interval_ms: self.spawner.timer.interval_ms,
        }
    }
}

impl World {
    pub open spec fn wf(self) -> bool {
        &&& all_wf(self.bullets@)
        &&& all_wf(self.minions@)
        &&& all_wf(player_bodies(self.player))
        &&& self.minions@.len() <= MINION_CAP
        &&& ids_below(self.bullets@, self.next_id as int)
        &&& ids_below(self.minions@, self.next_id as int)
        &&& ids_increasing(self.bullets@)
        &&& ids_increasing(self.minions@)
        &&& ids_below(player_bodies(self.player), self.next_id as int)
        &&& self.spawner.wf()
        &&& self.player is Some ==> in_region(self.player->0.body.pos)
        &&& self.game_over == (self.player is None || self.player->0.body.marked)
    }

    /// The starting state: the player alone at the centre.
    pub fn new() -> (w: World)
        ensures
            w.wf(),
            w.player == Some(
                Player {
                    health: PLAYER_HEALTH,
                    body: Body { id: 0, pos: Point { x: 0, y: 0 }, speed: PLAYER_SPEED, marked: false },
                },
            ),
            w.bullets@.len() == 0,
            w.minions@.len() == 0,
            w.next_id == 1,
            !w.game_over,
            w.spawner.timer.interval_ms == SPAWN_INTERVAL_MS,
            w.spawner.timer.elapsed_ms == 0,
    {
        let body = Body { id: 0, pos: Point { x: 0, y: 0 }, speed: PLAYER_SPEED, marked: false };
        World {
            player: Some(Player { health: PLAYER_HEALTH, body }),
            bullets: Vec::new(),
            minions: Vec::new(),
            next_id: 1,
            spawner: MinionPlugin::new(),
            game_over: false,
        }
    }

    /// Adds a bullet at `pos` moving up; returns its identity, or `None` once
    /// identities are exhausted.
    pub fn spawn_bullet(&mut self, pos: Point) -> (id: Option<u64>)
        requires
            old(self).wf(),
            pos.in_bounds(),
        ensures
            final(self).wf(),
            old(self).next_id == u64::MAX ==> id is None && *final(self) == *old(self),
            old(self).next_id < u64::MAX ==> {
                &&& id == Some(old(self).next_id)
                &&& final(self).bullets@ == old(self).bullets@.push(
                    Body { id: old(self).next_id, pos, speed: BULLET_SPEED, marked: false },
                )
                &&& final(self).next_id == old(self).next_id + 1
                &&& final(self).minions == old(self).minions
                &&& final(self).player == old(self).player
                &&& final(self).game_over == old(self).game_over
                &&& final(self).spawner == old(self).spawner
            },
    {
        if self.next_id == u64::MAX {
            return None;
        }
        let id = self.next_id;
        self.bullets.push(Body { id, pos, speed: BULLET_SPEED, marked: false });
        self.next_id = id + 1;
        Some(id)
    }
    /// Adds a minion at horizontal position `x` on the top edge, moving down.
    /// Refused (`None`, nothing changes) when the cap is reached or the
    /// identities are exhausted; otherwise returns the new identity.
    pub fn spawn_minion(&mut self, x: i64) -> (id: Option<u64>)
        requires
            old(self).wf(),
            -X_LIMIT <= x <= X_LIMIT,
        ensures
            final(self).wf(),
            final(self).minions@.len() <= MINION_CAP,
            (old(self).minions@.len() >= MINION_CAP || old(self).next_id == u64::MAX) ==> id is None
                && *final(self) == *old(self),
            (old(self).minions@.len() < MINION_CAP && old(self).next_id < u64::MAX) ==> {
                &&& id == Some(old(self).next_id)
                &&& final(self).minions@ == old(self).minions@.push(
                    Body {
                        id: old(self).next_id,
                        pos: Point { x, y: MINION_TOP },
                        speed: MINIONS_SPEED,
                        marked: false,
                    },
                )
                &&& final(self).next_id == old(self).next_id + 1
                &&& final(self).bullets == old(self).bullets
                &&& final(self).player == old(self).player
                &&& final(self).game_over == old(self).game_over
                &&& final(self).spawner == old(self).spawner
            },
    {
        if self.minions.len() >= MINION_CAP || self.next_id == u64::MAX {
            return None;
        }
        let id = self.next_id;
        self.minions.push(
            Body { id, pos: Point { x, y: MINION_TOP }, speed: MINIONS_SPEED, marked: false },
        );
        self.next_id = id + 1;
        Some(id)
    }

    /// Advances the spawner's timer by `dt_ms` and, when it fires while
    /// fewer than the cap are alive, adds a minion at `x` on the top edge.
    pub fn spawn_on_tick(&mut self, dt_ms: u64, x: i64) -> (id: Option<u64>)
        requires
            old(self).wf(),
            -X_LIMIT <= x <= X_LIMIT,
        ensures
            final(self)@ == spawned(old(self)@, dt_ms, x),
            final(self).wf(),
            final(self).minions@.len() <= MINION_CAP,
            final(self).spawner.timer.interval_ms == old(self).spawner.timer.interval_ms,
            final(self).bullets == old(self).bullets,
            final(self).player == old(self).player,
            final(self).game_over == old(self).game_over,
            ({
                let go = fires(
                    old(self).spawner.timer.elapsed_ms as int,
                    old(self).spawner.timer.interval_ms as int,
                    dt_ms as int,
                ) && old(self).minions@.len() < MINION_CAP && old(self).next_id < u64::MAX;
                &&& go ==> id == Some(old(self).next_id) && final(self).minions@
                    == old(self).minions@.push(
                    Body {
                        id: old(self).next_id,
                        pos: Point { x, y: MINION_TOP },
                        speed: MINIONS_SPEED,
                        marked: false,
                    },
                ) && final(self).next_id == old(self).next_id + 1
                &&& !go ==> id is None && final(self).minions == old(self).minions
                    && final(self).next_id == old(self).next_id
            }),
    {
        let live = self.minions.len();
        if self.spawner.ready(dt_ms, live) {
            self.spawn_minion(x)
        } else {
            None
        }
    }

    /// Marks the bullet or minion whose identity is `id` for removal at the
    /// end of the frame; an unknown identity changes nothing. The player is
    /// left alone: it leaves only when a minion reaches it, which latches
    /// game over.
    pub fn mark_for_removal(&mut self, id: u64)
        requires
            old(self).wf(),
        ensures
            final(self).wf(),
            final(self).bullets@ == marked_id(old(self).bullets@, id),
            final(self).minions@ == marked_id(old(self).minions@, id),
            final(self).player == old(self).player,
            final(self).next_id == old(self).next_id,
            final(self).game_over == old(self).game_over,
            final(self).spawner == old(self).spawner,
    {
        mark_in(&mut self.bullets, id);
        mark_in(&mut self.minions, id);
    }

    /// Fires: while the player is present, adds one bullet at its position.
    pub fn shoot(&mut self) -> (id: Option<u64>)
        requires
            old(self).wf(),
        ensures
            final(self)@ == fired(old(self)@),
            final(self).wf(),
            (old(self).player is Some && old(self).next_id < u64::MAX) ==> {
                &&& id == Some(old(self).next_id)
                &&& final(self).bullets@ == old(self).bullets@.push(
                    Body {
                        id: old(self).next_id,
                        pos: old(self).player->0.body.pos,
                        speed: BULLET_SPEED,
                        marked: false,
                    },
                )
                &&& final(self).next_id == old(self).next_id + 1
                &&& final(self).minions == old(self).minions
                &&& final(self).player == old(self).player
                &&& final(self).game_over == old(self).game_over
                &&& final(self).spawner == old(self).spawner
            },
            !(old(self).player is Some && old(self).next_id < u64::MAX) ==> id is None
                && *final(self) == *old(self),
    {
        match self.player {
            Some(p) => {
                assert(player_bodies(self.player)[0] == p.body);
                self.spawn_bullet(p.body.pos)
            },
            None => None,
        }
    }

    /// Moves the player one frame of `steer` at its speed over `dt_ms`.
    pub fn move_player(&mut self, steer: Steer, dt_ms: u64)
        requires
            old(self).wf(),
            dt_ms <= MAX_STEP_MS,
        ensures
            final(self)@ == steered_scene(old(self)@, steer, dt_ms),
            final(self).wf(),
            final(self).player is Some <==> old(self).player is Some,
            final(self).player is Some ==> {
                let (p0, p1) = (old(self).player->0, final(self).player->0);
                &&& p1.body.pos == steered(p0.body.pos, steer, PLAYER_SPEED * dt_ms)
                &&& in_region(p1.body.pos)
                &&& p1.body.id == p0.body.id
                &&& p1.body.speed == p0.body.speed
                &&& p1.body.marked == p0.body.marked
                &&& p1.health == p0.health
            },
            final(self).bullets == old(self).bullets,
            final(self).minions == old(self).minions,
            final(self).next_id == old(self).next_id,
            final(self).game_over == old(self).game_over,
            final(self).spawner == old(self).spawner,
    {
        if let Some(p) = self.player {
            assert(player_bodies(self.player)[0] == p.body);
            let mut p = p;
            let step: i64 = PLAYER_SPEED * dt_ms as i64;
            let pos = p.body.pos;
            let pos = if steer.up && pos.y < Y_LIMIT {
                let y = pos.y + step;
                Point { x: pos.x, y: if y > Y_LIMIT { Y_LIMIT } else { y } }
            } else if steer.down && pos.y > -Y_LIMIT {
                let y = pos.y - step;
                Point { x: pos.x, y: if y < -Y_LIMIT { -Y_LIMIT } else { y } }
            } else if steer.right && pos.x < X_LIMIT {
                let x = pos.x + step;
                Point { x: if x > X_LIMIT { X_LIMIT } else { x }, y: pos.y }
            } else if steer.left && pos.x > -X_LIMIT {
                let x = pos.x - step;
                Point { x: if x < -X_LIMIT { -X_LIMIT } else { x }, y: pos.y }
            } else {
                pos
            };
            p.body.pos = pos;
            self.player = Some(p);
            assert(player_bodies(self.player)[0] == p.body);
        }
    }

    /// Moves every bullet up and every minion down by its speed over `dt_ms`.
    pub fn integrate(&mut self, dt_ms: u64)
        requires
            old(self).wf(),
            dt_ms <= MAX_STEP_MS,
        ensures
            final(self)@ == moved(old(self)@, dt_ms),
            final(self).wf(),
            final(self).bullets@ == advanced(old(self).bullets@, true, dt_ms as int),
            final(self).minions@ == advanced(old(self).minions@, false, dt_ms as int),
            final(self).player == old(self).player,
            final(self).next_id == old(self).next_id,
            final(self).game_over == old(self).game_over,
            final(self).spawner == old(self).spawner,
    {
        advance(&mut self.bullets, true, dt_ms);
        advance(&mut self.minions, false, dt_ms);
    }

    /// Marks the bullets above the top edge and the minions below the bottom
    /// edge. The player is never culled.
    pub fn cull(&mut self)
        requires
            old(self).wf(),
        ensures
            final(self)@ == culled(old(self)@),
            final(self).wf(),
            final(self).bullets@ == marked_out(old(self).bullets@, true, BULLET_CEILING as int),
            final(self).minions@ == marked_out(old(self).minions@, false, MINION_FLOOR as int),
            final(self).player == old(self).player,
            final(self).next_id == old(self).next_id,
            final(self).game_over == old(self).game_over,
            final(self).spawner == old(self).spawner,
    {
        mark_out(&mut self.bullets, true, BULLET_CEILING);
        mark_out(&mut self.minions, false, MINION_FLOOR);
    }

    /// Removes every marked bullet, minion and player; nothing else changes.
    pub fn apply_removals(&mut self)
        requires
            old(self).wf(),
        ensures
            final(self)@ == removed(old(self)@),
            final(self).wf(),
            final(self).bullets@ == survivors(old(self).bullets@),
            final(self).minions@ == survivors(old(self).minions@),
            player_bodies(final(self).player) == survivors(player_bodies(old(self).player)),
            final(self).player == player_kept(old(self).player),
            final(self).next_id == old(self).next_id,
            final(self).game_over == old(self).game_over,
            final(self).spawner == old(self).spawner,
    {
        drop_marked(&mut self.bullets);
        drop_marked(&mut self.minions);
        if let Some(p) = self.player {
            if p.body.marked {
                self.player = None;
            }
        }
        proof {
            lemma_survivors_from(old(self).bullets@);
            lemma_survivors_from(old(self).minions@);
            reveal_with_fuel(Seq::filter, 2);
            let s = player_bodies(old(self).player);
            if s.len() == 1 {
                assert(s.drop_last() =~= Seq::<Body>::empty());
            }
            assert(player_bodies(self.player) =~= survivors(player_bodies(old(self).player)));
        }
    }
    /// Bullet-minion sweep: marks every minion that touches a bullet and every
    /// bullet that touches a minion; returns the identities `(minion, bullet)`
    /// of each touching pair, one kill cue each. A bullet within reach of two
    /// minions takes both.
    pub fn bullet_minion_sweep(&mut self) -> (kills: Vec<(u64, u64)>)
        requires
            old(self).wf(),
        ensures
            final(self)@ == bullet_swept(old(self)@),
            final(self).wf(),
            kills@ == contact_pairs(old(self).minions@, old(self).bullets@, MINION_BULLET_REACH as int),
            final(self).minions@ == marked_hits(
                old(self).minions@,
                old(self).bullets@,
                MINION_BULLET_REACH as int,
            ),
            final(self).bullets@ == marked_hits(
                old(self).bullets@,
                old(self).minions@,
                MINION_BULLET_REACH as int,
            ),
            final(self).player == old(self).player,
            final(self).next_id == old(self).next_id,
            final(self).game_over == old(self).game_over,
            final(self).spawner == old(self).spawner,
    {
        let kills = pairs_in_contact(&self.minions, &self.bullets, MINION_BULLET_REACH);
        mark_hits(&mut self.bullets, &self.minions, MINION_BULLET_REACH);
        let ghost marked_bullets = self.bullets@;
        mark_hits(&mut self.minions, &self.bullets, MINION_BULLET_REACH);
        proof {
            lemma_hits_by_position(
                old(self).minions@,
                marked_bullets,
                old(self).bullets@,
                MINION_BULLET_REACH as int,
            );
        }
        kills
    }

    /// Minion-player sweep: a minion that touches the player marks both and
    /// latches game over. Returns the identities `(minion, player)` of each
    /// touching pair, one game-over cue each.
    pub fn minion_player_sweep(&mut self) -> (crashes: Vec<(u64, u64)>)
        requires
            old(self).wf(),
        ensures
            final(self)@ == player_swept(old(self)@),
            final(self).wf(),
            crashes@ == contact_pairs(
                old(self).minions@,
                player_bodies(old(self).player),
                MINION_PLAYER_REACH as int,
            ),
            final(self).minions@ == marked_hits(
                old(self).minions@,
                player_bodies(old(self).player),
                MINION_PLAYER_REACH as int,
            ),
            player_bodies(final(self).player) == marked_hits(
                player_bodies(old(self).player),
                old(self).minions@,
                MINION_PLAYER_REACH as int,
            ),
            final(self).player is Some <==> old(self).player is Some,
            final(self).player is Some ==> final(self).player->0.health == old(self).player->0.health,
            final(self).game_over == (old(self).game_over || player_hit(old(self)@)),
            final(self).bullets == old(self).bullets,
            final(self).next_id == old(self).next_id,
            final(self).spawner == old(self).spawner,
    {
        match self.player {
            None => {
                assert(self.minions@ =~= marked_hits(
                    self.minions@,
                    player_bodies(self.player),
                    MINION_PLAYER_REACH as int,
                ));
                assert(player_bodies(self.player) =~= marked_hits(
                    player_bodies(self.player),
                    self.minions@,
                    MINION_PLAYER_REACH as int,
                ));
                let crashes = pairs_in_contact(&self.minions, &Vec::new(), MINION_PLAYER_REACH);
                crashes
            },
            Some(p) => {
                assert(player_bodies(self.player)[0] == p.body);
                let hit = touches_any(p.body, &self.minions, MINION_PLAYER_REACH);
                let mut pv: Vec<Body> = Vec::new();
                pv.push(p.body);
                assert(pv@ =~= player_bodies(self.player));
                let crashes = pairs_in_contact(&self.minions, &pv, MINION_PLAYER_REACH);
                mark_hits(&mut self.minions, &pv, MINION_PLAYER_REACH);
                if hit {
                    let mut p = p;
                    p.body.marked = true;
                    self.player = Some(p);
                    self.game_over = true;
                }
                assert(player_bodies(self.player) =~= marked_hits(
                    player_bodies(old(self).player),
                    old(self).minions@,
                    MINION_PLAYER_REACH as int,
                ));
                crashes
            },
        }
    }
    /// Runs one frame of `dt_ms` milliseconds, in this order: the spawner's
    /// timer (a minion at `spawn_x` when it fires below the cap), a bullet
    /// when `fire` holds, the player's move, the motion of bullets and
    /// minions, culling, the two collision sweeps, and the removals.
    pub fn step(&mut self, dt_ms: u64, steer: Steer, fire: bool, spawn_x: i64) -> (cues: Cues)
        requires
            old(self).wf(),
            dt_ms <= MAX_STEP_MS,
            -X_LIMIT <= spawn_x <= X_LIMIT,
        ensures
            final(self)@ == frame(old(self)@, dt_ms, steer, fire, spawn_x),
            cues.kills@ == contact_pairs(
                before_sweeps(old(self)@, dt_ms, steer, fire, spawn_x).minions,
                before_sweeps(old(self)@, dt_ms, steer, fire, spawn_x).bullets,
                MINION_BULLET_REACH as int,
            ),
            cues.crashes@ == contact_pairs(
                bullet_swept(before_sweeps(old(self)@, dt_ms, steer, fire, spawn_x)).minions,
                player_bodies(bullet_swept(before_sweeps(old(self)@, dt_ms, steer, fire, spawn_x)).player),
                MINION_PLAYER_REACH as int,
            ),
            cues.game_over == (!old(self).game_over && player_hit(
                bullet_swept(before_sweeps(old(self)@, dt_ms, steer, fire, spawn_x)),
            )),
            final(self).wf(),
            final(self).minions@.len() <= MINION_CAP,
            forall|i: int|
                0 <= i < final(self).bullets@.len() ==> (#[trigger] final(self).bullets@[i]).pos.y
                    <= BULLET_CEILING && !final(self).bullets@[i].marked,
            forall|i: int|
                0 <= i < final(self).minions@.len() ==> (#[trigger] final(self).minions@[i]).pos.y
                    >= MINION_FLOOR && !final(self).minions@[i].marked,
            cues.shot == (fire && old(self).player is Some),
            final(self).game_over == (old(self).game_over || cues.game_over),
            cues.game_over ==> final(self).player is None,
            old(self).player is None ==> final(self).player is None && !cues.game_over,
    {
        self.spawn_on_tick(dt_ms, spawn_x);
        let shot = fire && self.player.is_some();
        if fire {
            self.shoot();
        }
        self.move_player(steer, dt_ms);
        self.integrate(dt_ms);
        self.cull();
        let ghost culled = *self;
        let kills = self.bullet_minion_sweep();
        let ghost swept = *self;
        let latched = self.game_over;
        let crashes = self.minion_player_sweep();
        let game_over = self.game_over && !latched;
        proof {
            // culled bodies stay marked through the sweeps
            assert forall|i: int| 0 <= i < self.bullets@.len() && culled.bullets@[i].pos.y > BULLET_CEILING
                implies #[trigger] self.bullets@[i].marked by {}
            assert forall|i: int| 0 <= i < self.minions@.len() && culled.minions@[i].pos.y < MINION_FLOOR
                implies #[trigger] self.minions@[i].marked by {
                assert(swept.minions@[i].marked);
            }
            if game_over {
                assert(player_bodies(self.player)[0].marked);
            }
        }
        let ghost before = *self;
        self.apply_removals();
        proof {
            lemma_survivors_from(before.bullets@);
            lemma_survivors_from(before.minions@);
            assert forall|i: int| 0 <= i < self.bullets@.len() implies (#[trigger] self.bullets@[i]).pos.y
                <= BULLET_CEILING by {
                let j = choose|j: int| 0 <= j < before.bullets@.len() && before.bullets@[j] == self.bullets@[i];
            }
            assert forall|i: int| 0 <= i < self.minions@.len() implies (#[trigger] self.minions@[i]).pos.y
                >= MINION_FLOOR by {
                let j = choose|j: int| 0 <= j < before.minions@.len() && before.minions@[j] == self.minions@[i];
            }
        }
        Cues { shot, kills, crashes, game_over }
    }
}

} // verus!
