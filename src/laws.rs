use vstd::prelude::*;

use crate::body::{lemma_survivors_from, marked_hits, marked_out, survivors, Body};
use crate::body::MAX_STEP_MS;
use crate::clock::fires;
use crate::geometry::{MINIONS_SPEED, MINION_TOP};
use crate::world::{moved, removed, spawned, Scene, MINION_CAP};
use crate::geometry::{dist_sq, touching, Point, BULLET_CEILING, MINION_FLOOR};

verus! {

/// Once culled and removed, no bullet above the top edge is left.
pub proof fn lemma_culled_bullets_gone(bullets: Seq<Body>)
    ensures
        forall|i: int|
            0 <= i < survivors(marked_out(bullets, true, BULLET_CEILING as int)).len()
                ==> (#[trigger] survivors(marked_out(bullets, true, BULLET_CEILING as int))[i]).pos.y
                <= BULLET_CEILING,
{
    let culled = marked_out(bullets, true, BULLET_CEILING as int);
    lemma_survivors_from(culled);
    assert forall|i: int| 0 <= i < survivors(culled).len() implies (
    #[trigger] survivors(culled)[i]).pos.y <= BULLET_CEILING by {
        let j = choose|j: int| 0 <= j < culled.len() && culled[j] == survivors(culled)[i];
    }
}

/// Once culled and removed, no minion below the bottom edge is left.
pub proof fn lemma_culled_minions_gone(minions: Seq<Body>)
    ensures
        forall|i: int|
            0 <= i < survivors(marked_out(minions, false, MINION_FLOOR as int)).len()
                ==> (#[trigger] survivors(marked_out(minions, false, MINION_FLOOR as int))[i]).pos.y
                >= MINION_FLOOR,
{
    let culled = marked_out(minions, false, MINION_FLOOR as int);
    lemma_survivors_from(culled);
    assert forall|i: int| 0 <= i < survivors(culled).len() implies (
    #[trigger] survivors(culled)[i]).pos.y >= MINION_FLOOR by {
        let j = choose|j: int| 0 <= j < culled.len() && culled[j] == survivors(culled)[i];
    }
}

/// Contact does not depend on which of the two bodies is asked about.
pub proof fn lemma_contact_symmetric(a: Point, b: Point, reach: int)
    ensures
        touching(a, b, reach) == touching(b, a, reach),
{
    assert(dist_sq(a, b) == dist_sq(b, a)) by (nonlinear_arith);
}

/// The marks that a sweep with `outer` in the outer loop and `inner` in the
/// inner loop leaves on the bodies of `inner`.
pub open spec fn marked_from_outer(outer: Seq<Body>, inner: Seq<Body>, reach: int) -> Seq<Body> {
    Seq::new(
        inner.len(),
        |i: int|
            if exists|j: int| 0 <= j < outer.len() && touching(#[trigger] outer[j].pos, inner[i].pos, reach) {
                inner[i].with_mark(true)
            } else {
                inner[i]
            },
    )
}

/// A collision sweep marks the same bodies whichever population it walks in
/// its outer loop: the marks on each side are those of the other order.
pub proof fn lemma_sweep_order_free(minions: Seq<Body>, bullets: Seq<Body>, reach: int)
    ensures
        marked_hits(minions, bullets, reach) == marked_from_outer(bullets, minions, reach),
        marked_hits(bullets, minions, reach) == marked_from_outer(minions, bullets, reach),
{
    assert forall|a: Point, b: Point| touching(a, b, reach) == #[trigger] touching(b, a, reach) by {
        lemma_contact_symmetric(a, b, reach);
    }
    assert(marked_hits(minions, bullets, reach) =~= marked_from_outer(bullets, minions, reach));
    assert(marked_hits(bullets, minions, reach) =~= marked_from_outer(minions, bullets, reach));
}

/// Removing from a sequence with no marked body changes nothing.
pub proof fn lemma_nothing_marked_kept(bs: Seq<Body>)
    requires
        forall|i: int| 0 <= i < bs.len() ==> !(#[trigger] bs[i]).marked,
    ensures
        survivors(bs) == bs,
    decreases bs.len(),
{
    reveal(Seq::filter);
    if bs.len() > 0 {
        lemma_nothing_marked_kept(bs.drop_last());
        assert(bs.drop_last().push(bs.last()) =~= bs);
    }
}

/// Applying the removals a second time, with no new marks, changes nothing.
pub proof fn lemma_removals_idempotent(bs: Seq<Body>)
    ensures
        survivors(survivors(bs)) == survivors(bs),
{
    lemma_survivors_from(bs);
    lemma_nothing_marked_kept(survivors(bs));
}

/// Applying the removals to a world twice in a row, with no new marks in
/// between, leaves it as the first application did.
pub proof fn lemma_apply_removals_idempotent(s: Scene)
    ensures
        removed(removed(s)) == removed(s),
{
    lemma_removals_idempotent(s.bullets);
    lemma_removals_idempotent(s.minions);
}

/// Right after the spawn phase no more than the cap of minions is alive.
pub proof fn lemma_spawn_respects_cap(s: Scene, dt: u64, x: i64)
    requires
        s.minions.len() <= MINION_CAP,
    ensures
        spawned(s, dt, x).minions.len() <= MINION_CAP,
        s.minions.len() == MINION_CAP ==> spawned(s, dt, x).minions == s.minions,
{
}

/// A minion that appears when the spawner fires starts at `x` on the top
/// edge and, after `t` milliseconds of motion, has descended by its speed
/// times `t`.
pub proof fn lemma_new_minion_descends(s: Scene, dt: u64, x: i64, t: u64)
    requires
        s.interval_ms > 0,
        fires(s.elapsed_ms as int, s.interval_ms as int, dt as int),
        s.minions.len() < MINION_CAP,
        s.next_id < u64::MAX,
        t <= MAX_STEP_MS,
    ensures
        ({
            let m = moved(spawned(s, dt, x), t).minions.last();
            &&& m.id == s.next_id
            &&& m.pos == Point { x, y: (MINION_TOP - MINIONS_SPEED * t) as i64 }
            &&& m.speed == MINIONS_SPEED
            &&& !m.marked
        }),
{
}

} // verus!
