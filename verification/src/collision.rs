//! The collision and spawn engine: ship-asteroid overlap, bullet-asteroid
//! overlap resolved in order, scoring, asteroid splitting, and bullet
//! expiry. The deterministic part of one frame's resolution is specified by
//! `resolve_all`; only a child's cosmetic spin and color are random.
//!
//! Overlap is tested on the positions as stored: two entities hugging
//! opposite edges of the torus are not considered close, on purpose.

use vstd::prelude::*;

verus! {

use crate::entities::{asteroid_wf, bullet_wf, Asteroid, Bullet, ColorPalette, Ship};
use crate::geom::{dist2, distance2, div_trunc, norm2, rot_quarter_ccw, rot_quarter_cw, scale_to,
    scale_x_spec, scale_y_spec, Vec2};
use crate::level::{max_speed_spec, speed_factor, speed_factor_spec};
use crate::rng::{rand_between, rand_centered};
use crate::{BULLET_TTL, MAX_LEVEL, MAX_SIZE, SCORE_MULTIPLIER, SHIP_MARGIN};
use vstd::arithmetic::div_mod::{lemma_div_is_ordered, lemma_div_multiples_vanish,
    lemma_div_pos_is_pos};

/// The ship collides with `a`: centers closer than the asteroid's size plus
/// the ship margin.
pub open spec fn ship_hit(ship: Ship, a: Asteroid) -> bool {
    dist2(a.pos, ship.pos) < (a.size + SHIP_MARGIN) * (a.size + SHIP_MARGIN)
}

/// Some asteroid collides with the ship.
pub open spec fn any_ship_hit(ship: Ship, asts: Seq<Asteroid>) -> bool {
    exists|i: int| 0 <= i < asts.len() && ship_hit(ship, #[trigger] asts[i])
}

/// Bullet `b` hits `a`: the bullet is not yet consumed and lies within the
/// asteroid's size.
pub open spec fn bullet_hits(a: Asteroid, b: Bullet) -> bool {
    !b.collided && dist2(a.pos, b.pos) < a.size * a.size
}

/// Index of the first bullet at or after `j` that hits `a`; the sequence
/// length when none does.
pub open spec fn first_hit_from(a: Asteroid, bs: Seq<Bullet>, j: int) -> int
    decreases bs.len() - j,
{
    if j < 0 || j >= bs.len() {
        bs.len() as int
    } else if bullet_hits(a, bs[j]) {
        j
    } else {
        first_hit_from(a, bs, j + 1)
    }
}

/// The first hit is a hit, and nothing before it hits.
pub proof fn lemma_first_hit_props(a: Asteroid, bs: Seq<Bullet>, j: int)
    requires
        0 <= j <= bs.len(),
    ensures
        j <= first_hit_from(a, bs, j) <= bs.len(),
        first_hit_from(a, bs, j) < bs.len() ==> bullet_hits(a, bs[first_hit_from(a, bs, j)]),
        forall|k: int| j <= k < first_hit_from(a, bs, j) ==> !bullet_hits(a, #[trigger] bs[k]),
    decreases bs.len() - j,
{
    if j < bs.len() && !bullet_hits(a, bs[j]) {
        lemma_first_hit_props(a, bs, j + 1);
    }
}

/// A bullet after it is consumed by a collision.
pub open spec fn consume(b: Bullet) -> Bullet {
    Bullet { collided: true, ..b }
}

/// What a split determines of one child asteroid: the parent's position,
/// four fifths of its size, one fewer side, and a velocity obtained from
/// the bullet's velocity turned a quarter and rescaled to the level's
/// initial speed. Spin and color are drawn at random and not pinned here.
pub struct ChildTemplate {
    pub pos: Vec2,
    pub vel_x: int,
    pub vel_y: int,
    pub size: int,
    pub sides: int,
}

/// First child of a split: the bullet's velocity turned clockwise.
pub open spec fn child1_of(a: Asteroid, b: Bullet, level: int) -> ChildTemplate {
    ChildTemplate {
        pos: a.pos,
        vel_x: scale_x_spec(b.vel.y as int, -b.vel.x as int, speed_factor_spec(level)),
        vel_y: scale_y_spec(b.vel.y as int, -b.vel.x as int, speed_factor_spec(level)),
        size: a.size * 4 / 5,
        sides: a.sides - 1,
    }
}

/// Second child of a split: the bullet's velocity turned counterclockwise.
pub open spec fn child2_of(a: Asteroid, b: Bullet, level: int) -> ChildTemplate {
    ChildTemplate {
        pos: a.pos,
        vel_x: scale_x_spec(-b.vel.y as int, b.vel.x as int, speed_factor_spec(level)),
        vel_y: scale_y_spec(-b.vel.y as int, b.vel.x as int, speed_factor_spec(level)),
        size: a.size * 4 / 5,
        sides: a.sides - 1,
    }
}

/// The evolving state of the bullet pass: bullets with their consumed
/// flags, the asteroids that survived so far, the templates of the children
/// spawned so far, and the score gained so far.
pub struct HitState {
    pub bullets: Seq<Bullet>,
    pub survivors: Seq<Asteroid>,
    pub children: Seq<ChildTemplate>,
    pub gained: int,
}

/// Resolve one asteroid against the bullets: the first live bullet within
/// its size consumes both and scores `sides` times the multiplier; a parent
/// with more than three sides leaves two children; an asteroid no bullet
/// hits survives unchanged.
pub open spec fn resolve_one(st: HitState, a: Asteroid, level: int) -> HitState {
    let j = first_hit_from(a, st.bullets, 0);
    if j < st.bullets.len() {
        HitState {
            bullets: st.bullets.update(j, consume(st.bullets[j])),
            survivors: st.survivors,
            children: if a.sides > 3 {
                st.children.push(child1_of(a, st.bullets[j], level)).push(
                    child2_of(a, st.bullets[j], level),
                )
            } else {
                st.children
            },
            gained: st.gained + a.sides * (SCORE_MULTIPLIER as int),
        }
    } else {
        HitState {
            bullets: st.bullets,
            survivors: st.survivors.push(a),
            children: st.children,
            gained: st.gained,
        }
    }
}

/// The bullet pass after the first `i` asteroids, in order.
pub open spec fn resolve_upto(asts: Seq<Asteroid>, bs: Seq<Bullet>, level: int, i: int) -> HitState
    decreases i,
{
    if i <= 0 {
        HitState { bullets: bs, survivors: Seq::empty(), children: Seq::empty(), gained: 0 }
    } else {
        resolve_one(resolve_upto(asts, bs, level, i - 1), asts[i - 1], level)
    }
}

/// The full bullet pass over the whole asteroid field.
pub open spec fn resolve_all(asts: Seq<Asteroid>, bs: Seq<Bullet>, level: int) -> HitState {
    resolve_upto(asts, bs, level, asts.len() as int)
}

/// The splitting rule, as one resolution step shows it: an asteroid a
/// bullet destroys leaves exactly two children when it has more than three
/// sides — each with one fewer side and four fifths the size — and none
/// when it has exactly three; either way it does not survive. An asteroid
/// no bullet hits survives and spawns nothing.
pub proof fn lemma_split_counts(st: HitState, a: Asteroid, level: int)
    requires
        3 <= a.sides,
    ensures
        first_hit_from(a, st.bullets, 0) < st.bullets.len() && a.sides > 3 ==> {
            let r = resolve_one(st, a, level);
            r.children.len() == st.children.len() + 2 && r.survivors == st.survivors
                && r.children[r.children.len() - 2].sides == a.sides - 1
                && r.children[r.children.len() - 1].sides == a.sides - 1
                && r.children[r.children.len() - 2].size == a.size * 4 / 5
                && r.children[r.children.len() - 1].size == a.size * 4 / 5
        },
        first_hit_from(a, st.bullets, 0) < st.bullets.len() && a.sides == 3 ==> {
            let r = resolve_one(st, a, level);
            r.children == st.children && r.survivors == st.survivors
        },
        first_hit_from(a, st.bullets, 0) >= st.bullets.len() ==> {
            let r = resolve_one(st, a, level);
            r.children == st.children && r.survivors == st.survivors.push(a)
        },
{
}

/// Saturating addition on the score: the sum, capped at the largest `u64`.
pub open spec fn sat_add_u64(a: int, b: int) -> int {
    if a + b <= u64::MAX {
        a + b
    } else {
        u64::MAX as int
    }
}

/// A bullet still live at `now`: not consumed and no older than the
/// time-to-live.
pub open spec fn bullet_live(b: Bullet, now: int) -> bool {
    !b.collided && now - b.shot_at <= BULLET_TTL
}

/// Drop every bullet that has been consumed or whose age exceeds the
/// time-to-live; the others stay, in order.
#[verifier::loop_isolation(false)]
pub fn expire_bullets(bullets: &mut Vec<Bullet>, now: u64)
    requires
        forall|i: int| 0 <= i < old(bullets)@.len() ==> (#[trigger] old(bullets)@[i]).shot_at
            <= now,
        forall|i: int| 0 <= i < old(bullets)@.len() ==> bullet_wf(#[trigger] old(bullets)@[i]),
    ensures
        final(bullets)@ == old(bullets)@.filter(|b: Bullet| bullet_live(b, now as int)),
        forall|k: int| 0 <= k < final(bullets)@.len() ==> bullet_wf(#[trigger] final(bullets)@[k]),
        forall|k: int|
            0 <= k < final(bullets)@.len() ==> (#[trigger] final(bullets)@[k]).shot_at <= now,
{
    let ghost pred = |b: Bullet| bullet_live(b, now as int);
    let mut kept: Vec<Bullet> = Vec::new();
    let n = bullets.len();
    let mut i: usize = 0;
    while i < n
        invariant
            i <= n,
            n == bullets@.len(),
            kept@ == bullets@.take(i as int).filter(pred),
            forall|k: int| 0 <= k < kept@.len() ==> bullet_wf(#[trigger] kept@[k]),
            forall|k: int| 0 <= k < kept@.len() ==> (#[trigger] kept@[k]).shot_at <= now,
        decreases n - i,
    {
        let b = bullets[i];
        proof {
            reveal(Seq::filter);
            assert(bullets@.take(i as int + 1).drop_last() =~= bullets@.take(i as int));
            assert(bullets@.take(i as int + 1).last() == b);
        }
        if !b.collided && now - b.shot_at <= BULLET_TTL {
            kept.push(b);
            proof {
                assert(bullet_live(b, now as int));
                assert(kept@ =~= bullets@.take(i as int + 1).filter(pred));
                assert(kept@[kept@.len() - 1] == bullets@[i as int]);
            }
        } else {
            proof {
                assert(!bullet_live(b, now as int));
                assert(kept@ =~= bullets@.take(i as int + 1).filter(pred));
            }
        }
        i = i + 1;
    }
    proof {
        assert(bullets@.take(n as int) =~= bullets@);
    }
    *bullets = kept;
}

/// Does any asteroid touch the ship this frame? The first overlap found
/// settles it; nothing is mutated.
#[verifier::loop_isolation(false)]
pub fn ship_collided(ship: &Ship, asteroids: &Vec<Asteroid>, level: u32) -> (hit: bool)
    requires
        1 <= level <= MAX_LEVEL,
        forall|i: int| 0 <= i < asteroids@.len() ==> asteroid_wf(#[trigger] asteroids@[i],
            level as int),
        crate::entities::pos_in_field(ship.pos),
    ensures
        hit == any_ship_hit(*ship, asteroids@),
{
    let n = asteroids.len();
    let mut i: usize = 0;
    while i < n
        invariant
            i <= n,
            n == asteroids@.len(),
            forall|k: int| 0 <= k < i ==> !ship_hit(*ship, #[trigger] asteroids@[k]),
        decreases n - i,
    {
        let a = asteroids[i];
        let t = a.size + SHIP_MARGIN;
        proof {
            assert(0 <= t * t <= 2_000_000_000_000_000_000) by (nonlinear_arith)
                requires
                    0 <= t <= MAX_SIZE + SHIP_MARGIN,
            ;
        }
        let d = distance2(a.pos, ship.pos);
        if d < t * t {
            proof {
                assert(ship_hit(*ship, asteroids@[i as int]));
            }
            return true;
        }
        i = i + 1;
    }
    false
}

/// A child asteroid realizes its template: the pinned fields agree, the
/// consumed flag is clear, and the random spin is within its range.
pub open spec fn matches_template(c: Asteroid, t: ChildTemplate) -> bool {
    &&& c.pos == t.pos
    &&& c.vel.x == t.vel_x
    &&& c.vel.y == t.vel_y
    &&& c.size == t.size
    &&& c.sides == t.sides
    &&& !c.collided
    &&& c.rot < 360_000
    &&& -2000 <= c.rot_speed <= 2000
}

/// The first live bullet within the asteroid's size, scanning in order.
#[verifier::loop_isolation(false)]
fn find_hit(a: &Asteroid, bullets: &Vec<Bullet>) -> (r: Option<usize>)
    requires
        crate::entities::pos_in_field(a.pos),
        0 <= a.size <= MAX_SIZE,
        forall|i: int| 0 <= i < bullets@.len() ==> bullet_wf(#[trigger] bullets@[i]),
    ensures
        match r {
            Some(j) => j < bullets@.len() && j == first_hit_from(*a, bullets@, 0),
            None => first_hit_from(*a, bullets@, 0) == bullets@.len(),
        },
{
    let n = bullets.len();
    let mut i: usize = 0;
    while i < n
        invariant
            i <= n,
            n == bullets@.len(),
            forall|k: int| 0 <= k < i ==> !bullet_hits(*a, #[trigger] bullets@[k]),
        decreases n - i,
    {
        let b = bullets[i];
        if !b.collided {
            proof {
                assert(0 <= a.size * a.size <= 1_000_000_000_000) by (nonlinear_arith)
                    requires
                        0 <= a.size <= MAX_SIZE,
                ;
            }
            let d = distance2(a.pos, b.pos);
            if d < a.size * a.size {
                proof {
                    lemma_first_hit_props(*a, bullets@, 0);
                    let f = first_hit_from(*a, bullets@, 0);
                    assert(bullet_hits(*a, bullets@[i as int]));
                    if f < i as int {
                        assert(!bullet_hits(*a, bullets@[f]));
                    }
                    if f > i as int {
                        assert(!bullet_hits(*a, bullets@[i as int]));
                    }
                }
                return Some(i);
            }
        }
        i = i + 1;
    }
    proof {
        lemma_first_hit_props(*a, bullets@, 0);
        let f = first_hit_from(*a, bullets@, 0);
        if f < n as int {
            assert(!bullet_hits(*a, bullets@[f]));
        }
    }
    None
}

/// Resolve every bullet-asteroid overlap of one frame, exactly as
/// `resolve_all` specifies: asteroids are scanned in order; the first live
/// bullet within an asteroid's size consumes both and scores the asteroid's
/// sides times the multiplier (the score saturates at the largest `u64`);
/// a destroyed asteroid with more than three sides leaves two children with
/// random spin and color; survivors keep their order and the children are
/// appended after them.
#[verifier::loop_isolation(false)]
pub fn resolve_bullets(
    asteroids: &mut Vec<Asteroid>,
    bullets: &mut Vec<Bullet>,
    score: &mut u64,
    level: u32,
    palette: &ColorPalette,
)
    requires
        1 <= level <= MAX_LEVEL,
        forall|i: int| 0 <= i < old(asteroids)@.len() ==> asteroid_wf(
            #[trigger] old(asteroids)@[i],
            level as int,
        ),
        forall|i: int| 0 <= i < old(asteroids)@.len() ==> !(#[trigger] old(asteroids)@[i]).collided,
        forall|i: int| 0 <= i < old(bullets)@.len() ==> bullet_wf(#[trigger] old(bullets)@[i]),
        1 <= palette.asteroid_colors@.len() <= 0xFFFF_FFFF,
    ensures
        final(bullets)@ == resolve_all(old(asteroids)@, old(bullets)@, level as int).bullets,
        *final(score) as int == sat_add_u64(
            *old(score) as int,
            resolve_all(old(asteroids)@, old(bullets)@, level as int).gained,
        ),
        *final(score) >= *old(score),
        final(asteroids)@.len() == resolve_all(
            old(asteroids)@,
            old(bullets)@,
            level as int,
        ).survivors.len() + resolve_all(old(asteroids)@, old(bullets)@, level as int).children.len(),
        forall|i: int|
            0 <= i < resolve_all(old(asteroids)@, old(bullets)@, level as int).survivors.len()
                ==> #[trigger] final(asteroids)@[i] == resolve_all(
                old(asteroids)@,
                old(bullets)@,
                level as int,
            ).survivors[i],
        forall|i: int|
            resolve_all(old(asteroids)@, old(bullets)@, level as int).survivors.len() <= i < final(asteroids)@.len() ==> matches_template(
                #[trigger] final(asteroids)@[i],
                resolve_all(old(asteroids)@, old(bullets)@, level as int).children[i - resolve_all(
                    old(asteroids)@,
                    old(bullets)@,
                    level as int,
                ).survivors.len()],
            ),
        forall|i: int| 0 <= i < final(asteroids)@.len() ==> asteroid_wf(
            #[trigger] final(asteroids)@[i],
            level as int,
        ),
        forall|i: int| 0 <= i < final(asteroids)@.len() ==> !(#[trigger] final(asteroids)@[i]).collided,
        forall|i: int| 0 <= i < final(bullets)@.len() ==> bullet_wf(#[trigger] final(bullets)@[i]),
        final(bullets)@.len() == old(bullets)@.len(),
        forall|i: int|
            0 <= i < final(bullets)@.len() ==> (#[trigger] final(bullets)@[i]).pos == old(bullets)@[i].pos && final(bullets)@[i].vel == old(bullets)@[i].vel && final(bullets)@[i].shot_at == old(bullets)@[i].shot_at,
{
    let ghost asts0 = asteroids@;
    let ghost bs0 = bullets@;
    let ghost lvl = level as int;
    let ghost score0 = *score as int;
    let sf = speed_factor(level);
    let mut survivors: Vec<Asteroid> = Vec::new();
    let mut children: Vec<Asteroid> = Vec::new();
    let n = asteroids.len();
    let mut i: usize = 0;
    while i < n
        invariant
            i <= n,
            n == asteroids@.len(),
            asteroids@ == asts0,
            bullets@ == resolve_upto(asts0, bs0, lvl, i as int).bullets,
            bullets@.len() == bs0.len(),
            forall|k: int|
                0 <= k < bullets@.len() ==> (#[trigger] bullets@[k]).pos == bs0[k].pos
                    && bullets@[k].vel == bs0[k].vel && bullets@[k].shot_at == bs0[k].shot_at,
            forall|k: int| 0 <= k < bullets@.len() ==> bullet_wf(#[trigger] bullets@[k]),
            survivors@ == resolve_upto(asts0, bs0, lvl, i as int).survivors,
            forall|k: int| 0 <= k < survivors@.len() ==> asteroid_wf(#[trigger] survivors@[k], lvl)
                && !survivors@[k].collided,
            0 <= resolve_upto(asts0, bs0, lvl, i as int).gained,
            *score as int == sat_add_u64(score0, resolve_upto(asts0, bs0, lvl, i as int).gained),
            *score >= score0,
            children@.len() == resolve_upto(asts0, bs0, lvl, i as int).children.len(),
            forall|k: int| 0 <= k < children@.len() ==> matches_template(
                #[trigger] children@[k],
                resolve_upto(asts0, bs0, lvl, i as int).children[k],
            ),
            forall|k: int| 0 <= k < children@.len() ==> asteroid_wf(#[trigger] children@[k], lvl),
        decreases n - i,
    {
        let a = asteroids[i];
        let ghost st = resolve_upto(asts0, bs0, lvl, i as int);
        proof {
            assert(resolve_upto(asts0, bs0, lvl, i as int + 1) == resolve_one(
                st,
                asts0[i as int],
                lvl,
            ));
        }
        match find_hit(&a, bullets) {
            Some(j) => {
                let b0 = bullets[j];
                let mut bc = b0;
                bc.collided = true;
                bullets[j] = bc;
                proof {
                    assert(bc == consume(b0));
                    assert(bullets@ =~= st.bullets.update(j as int, consume(st.bullets[j as int])));
                }
                let points: u64 = (a.sides as u64) * SCORE_MULTIPLIER;
                if *score <= u64::MAX - points {
                    *score = *score + points;
                } else {
                    *score = u64::MAX;
                }
                if a.sides > 3 {
                    let v1 = scale_to(rot_quarter_cw(b0.vel), sf);
                    let v2 = scale_to(rot_quarter_ccw(b0.vel), sf);
                    let sz = div_trunc(a.size * 4, 5);
                    proof {
                        lemma_div_pos_is_pos(a.size as int * 4, 5);
                        lemma_div_is_ordered(a.size as int * 4, a.size as int * 5, 5);
                        lemma_div_multiples_vanish(a.size as int, 5);
                        assert((5 * (a.size as int)) == a.size as int * 5);
                        crate::level::lemma_speed_factor_within_cap(lvl);
                        assert(norm2(v1) <= max_speed_spec(lvl) * max_speed_spec(lvl)
                            && norm2(v2) <= max_speed_spec(lvl) * max_speed_spec(lvl))
                            by (nonlinear_arith)
                            requires
                                norm2(v1) <= (sf as int) * (sf as int),
                                norm2(v2) <= (sf as int) * (sf as int),
                                0 <= sf as int <= max_speed_spec(lvl),
                        ;
                    }
                    let rot1 = rand_between(0, 359_999);
                    let rs1 = rand_centered(2000);
                    let col1 = crate::level::random_asteroid_color(palette);
                    let c1 = Asteroid {
                        pos: a.pos,
                        vel: v1,
                        rot: rot1,
                        rot_speed: rs1 as i32,
                        size: sz,
                        sides: a.sides - 1,
                        collided: false,
                        color: col1,
                    };
                    children.push(c1);
                    let rot2 = rand_between(0, 359_999);
                    let rs2 = rand_centered(2000);
                    let col2 = crate::level::random_asteroid_color(palette);
                    let c2 = Asteroid {
                        pos: a.pos,
                        vel: v2,
                        rot: rot2,
                        rot_speed: rs2 as i32,
                        size: sz,
                        sides: a.sides - 1,
                        collided: false,
                        color: col2,
                    };
                    children.push(c2);
                    proof {
                        assert(matches_template(c1, child1_of(asts0[i as int], b0, lvl)));
                        assert(matches_template(c2, child2_of(asts0[i as int], b0, lvl)));
                    }
                }
            },
            None => {
                survivors.push(a);
            },
        }
        i = i + 1;
    }
    proof {
        assert(resolve_upto(asts0, bs0, lvl, n as int) == resolve_all(asts0, bs0, lvl));
    }
    survivors.append(&mut children);
    *asteroids = survivors;
    proof {
        let r = resolve_all(asts0, bs0, lvl);
        assert(forall|i: int|
            0 <= i < r.survivors.len() ==> #[trigger] asteroids@[i] == r.survivors[i]);
    }
}

} // verus!
