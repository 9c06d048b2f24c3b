use vstd::prelude::*;

use crate::geometry::{bounded, contact, touching, Point, COORD_BOUND};

verus! {

/// Largest speed a body may have, in units per second.
pub const MAX_SPEED: i64 = 1000;

/// Longest frame that the motion step accepts, in milliseconds.
pub const MAX_STEP_MS: u64 = 1_000_000;

/// A moving entity: a stable identity, a position, a scalar speed, and
/// whether it has been marked for removal at the end of the frame.
#[derive(Clone, Copy, Debug, PartialEq, Eq, Structural)]
pub struct Body {
    pub id: u64,
    pub pos: Point,
    pub speed: i64,
    pub marked: bool,
}

impl Body {
    pub open spec fn wf(self) -> bool {
        self.pos.in_bounds() && 0 <= self.speed <= MAX_SPEED
    }

    pub open spec fn with_mark(self, m: bool) -> Body {
        Body { id: self.id, pos: self.pos, speed: self.speed, marked: m }
    }

    pub open spec fn with_y(self, y: int) -> Body {
        Body { id: self.id, pos: Point { x: self.pos.x, y: y as i64 }, speed: self.speed, marked: self.marked }
    }
}

pub open spec fn all_wf(bs: Seq<Body>) -> bool {
    forall|i: int| 0 <= i < bs.len() ==> (#[trigger] bs[i]).wf()
}

pub open spec fn ids_below(bs: Seq<Body>, bound: int) -> bool {
    forall|i: int| 0 <= i < bs.len() ==> (#[trigger] bs[i]).id < bound
}

/// Identities strictly increase along the sequence, so none repeats.
pub open spec fn ids_increasing(bs: Seq<Body>) -> bool {
    forall|i: int, j: int| 0 <= i < j < bs.len() ==> (#[trigger] bs[i]).id < (#[trigger] bs[j]).id
}

/// Marks each body whose identity is `id`.
pub open spec fn marked_id(bs: Seq<Body>, id: u64) -> Seq<Body> {
    Seq::new(bs.len(), |i: int| if bs[i].id == id { bs[i].with_mark(true) } else { bs[i] })
}

/// Moves each body vertically by its speed times `dt_ms`, upwards when `up`
/// holds and downwards otherwise, staying inside the coordinate bound.
pub open spec fn advanced(bs: Seq<Body>, up: bool, dt_ms: int) -> Seq<Body> {
    Seq::new(
        bs.len(),
        |i: int|
            bs[i].with_y(
                bounded(
                    if up {
                        bs[i].pos.y + bs[i].speed * dt_ms
                    } else {
                        bs[i].pos.y - bs[i].speed * dt_ms
                    },
                ),
            ),
    )
}

/// Marks each body above `limit` (when `above`) or below it (otherwise).
pub open spec fn marked_out(bs: Seq<Body>, above: bool, limit: int) -> Seq<Body> {
    Seq::new(
        bs.len(),
        |i: int|
            if (above && bs[i].pos.y > limit) || (!above && bs[i].pos.y < limit) {
                bs[i].with_mark(true)
            } else {
                bs[i]
            },
    )
}

/// Whether the body `b` touches some body of `others`.
pub open spec fn hit_by(b: Body, others: Seq<Body>, reach: int) -> bool {
    exists|j: int| 0 <= j < others.len() && touching(b.pos, #[trigger] others[j].pos, reach)
}

/// Marks each body of `xs` that touches some body of `ys`.
pub open spec fn marked_hits(xs: Seq<Body>, ys: Seq<Body>, reach: int) -> Seq<Body> {
    Seq::new(
        xs.len(),
        |i: int| if hit_by(xs[i], ys, reach) { xs[i].with_mark(true) } else { xs[i] },
    )
}

pub open spec fn is_live(b: Body) -> bool {
    !b.marked
}

/// The bodies that are not marked, in their order.
pub open spec fn survivors(bs: Seq<Body>) -> Seq<Body> {
    bs.filter(live())
}

pub open spec fn live() -> spec_fn(Body) -> bool {
    |b: Body| is_live(b)
}

/// The survivors are unmarked bodies taken from the given sequence.
pub proof fn lemma_survivors_from(bs: Seq<Body>)
    ensures
        forall|i: int|
            0 <= i < survivors(bs).len() ==> bs.contains(#[trigger] survivors(bs)[i])
                && !survivors(bs)[i].marked,
        forall|bound: int| ids_below(bs, bound) ==> ids_below(survivors(bs), bound),
        all_wf(bs) ==> all_wf(survivors(bs)),
        ids_increasing(bs) ==> ids_increasing(survivors(bs)),
{
    let sv = survivors(bs);
    if ids_increasing(bs) {
        lemma_survivors_increasing(bs);
    }
    assert forall|i: int| 0 <= i < sv.len() implies bs.contains(#[trigger] sv[i]) && !sv[i].marked by {
        assert(sv.contains(sv[i]));
        bs.lemma_filter_contains_rev(live(), sv[i]);
        bs.lemma_filter_pred(live(), i);
    }
}

/// The pairs of identities `(x, y)` of bodies that touch, with `x` from `xs`
/// and `y` from `ys`, row by row.
pub open spec fn contact_pairs(xs: Seq<Body>, ys: Seq<Body>, reach: int) -> Seq<(u64, u64)>
    decreases xs.len(),
{
    if xs.len() == 0 {
        Seq::empty()
    } else {
        contact_pairs(xs.drop_last(), ys, reach) + row_pairs(xs.last(), ys, reach)
    }
}

/// The pairs `(x.id, y)` for the bodies `y` of `ys` that touch `x`.
pub open spec fn row_pairs(x: Body, ys: Seq<Body>, reach: int) -> Seq<(u64, u64)>
    decreases ys.len(),
{
    if ys.len() == 0 {
        Seq::empty()
    } else if touching(x.pos, ys.last().pos, reach) {
        row_pairs(x, ys.drop_last(), reach).push((x.id, ys.last().id))
    } else {
        row_pairs(x, ys.drop_last(), reach)
    }
}

/// Marks every body whose identity is `id`.
pub fn mark_in(bs: &mut Vec<Body>, id: u64)
    ensures
        final(bs)@ == marked_id(old(bs)@, id),
{
    let ghost start = bs@;
    let mut i: usize = 0;
    while i < bs.len()
        invariant
            0 <= i <= bs.len(),
            bs@.len() == start.len(),
            forall|k: int| 0 <= k < i ==> bs@[k] == marked_id(start, id)[k],
            forall|k: int| i <= k < bs@.len() ==> bs@[k] == start[k],
        decreases bs.len() - i,
    {
        if bs[i].id == id {
            let mut b = bs[i];
            b.marked = true;
            bs.set(i, b);
        }
        i += 1;
    }
    assert(bs@ =~= marked_id(start, id));
}

/// Moves every body by its speed over `dt_ms`: upwards when `up` holds.
pub fn advance(bs: &mut Vec<Body>, up: bool, dt_ms: u64)
    requires
        all_wf(old(bs)@),
        dt_ms <= MAX_STEP_MS,
    ensures
        final(bs)@ == advanced(old(bs)@, up, dt_ms as int),
        all_wf(final(bs)@),
{
    let ghost start = bs@;
    let mut i: usize = 0;
    while i < bs.len()
        invariant
            0 <= i <= bs.len(),
            dt_ms <= MAX_STEP_MS,
            bs@.len() == start.len(),
            all_wf(start),
            forall|k: int| 0 <= k < i ==> bs@[k] == advanced(start, up, dt_ms as int)[k],
            forall|k: int| i <= k < bs@.len() ==> bs@[k] == start[k],
        decreases bs.len() - i,
    {
        let mut b = bs[i];
        assert(start[i as int].wf());
        assert(0 <= b.speed * dt_ms <= 1_000_000_000) by (nonlinear_arith)
            requires
                0 <= b.speed <= 1000,
                dt_ms <= 1_000_000,
        ;
        let d: i64 = b.speed * (dt_ms as i64);
        let y: i64 = if up { b.pos.y + d } else { b.pos.y - d };
        let y: i64 = if y > COORD_BOUND {
            COORD_BOUND
        } else if y < -COORD_BOUND {
            -COORD_BOUND
        } else {
            y
        };
        b.pos.y = y;
        bs.set(i, b);
        i += 1;
    }
    assert(bs@ =~= advanced(start, up, dt_ms as int));
}

/// Marks every body above `limit` (when `above`) or below it (otherwise).
pub fn mark_out(bs: &mut Vec<Body>, above: bool, limit: i64)
    ensures
        final(bs)@ == marked_out(old(bs)@, above, limit as int),
{
    let ghost start = bs@;
    let mut i: usize = 0;
    while i < bs.len()
        invariant
            0 <= i <= bs.len(),
            bs@.len() == start.len(),
            forall|k: int| 0 <= k < i ==> bs@[k] == marked_out(start, above, limit as int)[k],
            forall|k: int| i <= k < bs@.len() ==> bs@[k] == start[k],
        decreases bs.len() - i,
    {
        let b = bs[i];
        if (above && b.pos.y > limit) || (!above && b.pos.y < limit) {
            let mut b = b;
            b.marked = true;
            bs.set(i, b);
        }
        i += 1;
    }
    assert(bs@ =~= marked_out(start, above, limit as int));
}

/// Drops the marked bodies, keeping the order of the others.
pub fn drop_marked(bs: &mut Vec<Body>)
    ensures
        final(bs)@ == survivors(old(bs)@),
{
    let ghost start = bs@;
    let mut kept: Vec<Body> = Vec::new();
    let mut i: usize = 0;
    while i < bs.len()
        invariant
            0 <= i <= bs.len(),
            bs@ == start,
            kept@ == survivors(start.take(i as int)),
        decreases bs.len() - i,
    {
        let b = bs[i];
        proof {
            reveal(Seq::filter);
            assert(start.take(i as int + 1).drop_last() =~= start.take(i as int));
        }
        if !b.marked {
            kept.push(b);
        }
        i += 1;
    }
    assert(start.take(start.len() as int) =~= start);
    *bs = kept;
}

/// Whether the body `b` is closer than `reach` to some body of `ys`.
pub fn touches_any(b: Body, ys: &Vec<Body>, reach: i64) -> (r: bool)
    requires
        b.wf(),
        all_wf(ys@),
        0 <= reach <= COORD_BOUND,
    ensures
        r == hit_by(b, ys@, reach as int),
{
    let mut j: usize = 0;
    while j < ys.len()
        invariant
            0 <= j <= ys.len(),
            b.wf(),
            all_wf(ys@),
            0 <= reach <= COORD_BOUND,
            forall|k: int| 0 <= k < j ==> !touching(b.pos, #[trigger] ys@[k].pos, reach as int),
        decreases ys.len() - j,
    {
        assert(ys@[j as int].wf());
        if contact(b.pos, ys[j].pos, reach) {
            return true;
        }
        j += 1;
    }
    false
}

/// Marks each body of `xs` that is closer than `reach` to a body of `ys`.
pub fn mark_hits(xs: &mut Vec<Body>, ys: &Vec<Body>, reach: i64)
    requires
        all_wf(old(xs)@),
        all_wf(ys@),
        0 <= reach <= COORD_BOUND,
    ensures
        final(xs)@ == marked_hits(old(xs)@, ys@, reach as int),
{
    let ghost start = xs@;
    let mut i: usize = 0;
    while i < xs.len()
        invariant
            0 <= i <= xs.len(),
            all_wf(start),
            all_wf(ys@),
            0 <= reach <= COORD_BOUND,
            xs@.len() == start.len(),
            forall|k: int| 0 <= k < i ==> xs@[k] == marked_hits(start, ys@, reach as int)[k],
            forall|k: int| i <= k < xs@.len() ==> xs@[k] == start[k],
        decreases xs.len() - i,
    {
        let b = xs[i];
        assert(start[i as int].wf());
        if touches_any(b, ys, reach) {
            let mut b = b;
            b.marked = true;
            xs.set(i, b);
        }
        i += 1;
    }
    assert(xs@ =~= marked_hits(start, ys@, reach as int));
}

/// The identities of the touching pairs, `xs` in the outer sweep.
pub fn pairs_in_contact(xs: &Vec<Body>, ys: &Vec<Body>, reach: i64) -> (r: Vec<(u64, u64)>)
    requires
        all_wf(xs@),
        all_wf(ys@),
        0 <= reach <= COORD_BOUND,
    ensures
        r@ == contact_pairs(xs@, ys@, reach as int),
{
    let mut out: Vec<(u64, u64)> = Vec::new();
    let mut i: usize = 0;
    while i < xs.len()
        invariant
            0 <= i <= xs.len(),
            all_wf(xs@),
            all_wf(ys@),
            0 <= reach <= COORD_BOUND,
            out@ == contact_pairs(xs@.take(i as int), ys@, reach as int),
        decreases xs.len() - i,
    {
        let x = xs[i];
        assert(xs@[i as int].wf());
        let ghost before = out@;
        let mut j: usize = 0;
        while j < ys.len()
            invariant
                0 <= i < xs.len(),
                0 <= j <= ys.len(),
                x == xs@[i as int],
                x.wf(),
                all_wf(ys@),
                0 <= reach <= COORD_BOUND,
                out@ == before + row_pairs(x, ys@.take(j as int), reach as int),
            decreases ys.len() - j,
        {
            let y = ys[j];
            assert(ys@[j as int].wf());
            assert(ys@.take(j as int + 1).drop_last() =~= ys@.take(j as int));
            if contact(x.pos, y.pos, reach) {
                out.push((x.id, y.id));
                assert(out@ =~= before + row_pairs(x, ys@.take(j as int + 1), reach as int));
            }
            j += 1;
        }
        assert(ys@.take(ys@.len() as int) =~= ys@);
        assert(xs@.take(i as int + 1).drop_last() =~= xs@.take(i as int));
        i += 1;
    }
    assert(xs@.take(xs@.len() as int) =~= xs@);
    out
}

proof fn lemma_survivors_increasing(bs: Seq<Body>)
    requires
        ids_increasing(bs),
    ensures
        ids_increasing(survivors(bs)),
    decreases bs.len(),
{
    reveal(Seq::filter);
    if bs.len() > 0 {
        let rest = bs.drop_last();
        lemma_survivors_increasing(rest);
        let sr = survivors(rest);
        assert forall|i: int| 0 <= i < sr.len() implies (#[trigger] sr[i]).id < bs.last().id by {
            assert(sr.contains(sr[i]));
            rest.lemma_filter_contains_rev(live(), sr[i]);
        }
    }
}

/// Marking by contact looks at the positions of the other bodies only.
pub proof fn lemma_hits_by_position(xs: Seq<Body>, ys: Seq<Body>, zs: Seq<Body>, reach: int)
    requires
        ys.len() == zs.len(),
        forall|j: int| 0 <= j < ys.len() ==> (#[trigger] ys[j]).pos == zs[j].pos,
    ensures
        marked_hits(xs, ys, reach) == marked_hits(xs, zs, reach),
{
    assert forall|i: int| 0 <= i < xs.len() implies hit_by(xs[i], ys, reach) == hit_by(
        xs[i],
        zs,
        reach,
    ) by {
        if hit_by(xs[i], ys, reach) {
            let j = choose|j: int| 0 <= j < ys.len() && touching(xs[i].pos, #[trigger] ys[j].pos, reach);
            assert(touching(xs[i].pos, zs[j].pos, reach));
        }
        if hit_by(xs[i], zs, reach) {
            let j = choose|j: int| 0 <= j < zs.len() && touching(xs[i].pos, #[trigger] zs[j].pos, reach);
            assert(touching(xs[i].pos, ys[j].pos, reach));
        }
    }
    assert(marked_hits(xs, ys, reach) =~= marked_hits(xs, zs, reach));
}

} // verus!
