//! Steering for enemies: each one computes a separation vector away from
//! nearby peers once per update, and blends it with class-specific seek
//! behavior toward the player.

use vstd::prelude::*;

use crate::mathx::{div_trunc, div_trunc_i64, lemma_div_trunc_abs_le, UNIT};
use crate::vec2::{dist_sq_spec, in_bounds, move_towards_spec, unit_or_zero_spec, Vec2i,
    COORD_LIMIT};

verus! {

/// Upper bound on speeds, separation gains and similar rates, so that the
/// velocity arithmetic cannot overflow.
pub const RATE_LIMIT: i64 = 0x10_0000;

/// Velocities handed to the steering step stay within this bound; one step
/// keeps the result inside the coordinate bound.
pub const VEL_LIMIT: i64 = 0x0800_0000;

/// Longest simulation step, in milliseconds.
pub const MAX_TICK_MS: u64 = 60_000;

/// How an enemy relates to the player: melee enemies always close in;
/// ranged enemies hold once they are at least `max_range` away.
#[derive(Clone, Copy, Debug, PartialEq, Eq, Structural)]
pub enum EnemyClass {
    Melee,
    Ranged { max_range: i64 },
}

/// Per-enemy flocking state: the detection radius, the gain applied to the
/// cached separation vector, and the vector itself (scaled by `UNIT`),
/// recomputed by `update_separations` and read every movement step.
#[derive(Clone, Copy, Debug, PartialEq, Eq, Structural)]
pub struct Boid {
    pub detection_range: i64,
    pub separation: Vec2i,
    pub separation_gain: i64,
}

/// A boid the steering functions accept: bounded range and gain, and a
/// cached separation no longer than a unit vector.
pub open spec fn boid_wf(b: Boid) -> bool {
    &&& 0 <= b.detection_range <= COORD_LIMIT
    &&& 0 <= b.separation_gain <= RATE_LIMIT
    &&& -UNIT <= b.separation.x <= UNIT
    &&& -UNIT <= b.separation.y <= UNIT
}

impl Boid {
    /// The defaults enemies spawn with.
    pub fn new() -> (r: Boid)
        ensures
            r == (Boid {
                detection_range: 20,
                separation: Vec2i { x: 0, y: 0 },
                separation_gain: 64,
            }),
            boid_wf(r),
    {
        Boid { detection_range: 20, separation: Vec2i { x: 0, y: 0 }, separation_gain: 64 }
    }
}

/// Whether `other` repels `me`: strictly within the detection range, but
/// not at the very same position (a coincident peer has no direction to
/// push toward and is discarded).
pub open spec fn repels(me: Vec2i, other: Vec2i, range: int) -> bool {
    0 < dist_sq_spec(me, other) < range * range
}

/// The unit vector pointing from `other` away toward `me`, scaled by
/// `UNIT`; zero for a coincident peer.
pub open spec fn repulsion(me: Vec2i, other: Vec2i) -> Vec2i {
    unit_or_zero_spec(Vec2i { x: (me.x - other.x) as i64, y: (me.y - other.y) as i64 })
}

/// How many of `peers` repel `me`.
pub open spec fn repel_count(me: Vec2i, peers: Seq<Vec2i>, range: int) -> int
    decreases peers.len(),
{
    if peers.len() == 0 {
        0
    } else {
        repel_count(me, peers.drop_last(), range) + if repels(me, peers.last(), range) {
            1int
        } else {
            0int
        }
    }
}

/// Sum of the x components of the repulsions from the peers that repel `me`.
pub open spec fn repel_sum_x(me: Vec2i, peers: Seq<Vec2i>, range: int) -> int
    decreases peers.len(),
{
    if peers.len() == 0 {
        0
    } else {
        repel_sum_x(me, peers.drop_last(), range) + if repels(me, peers.last(), range) {
            repulsion(me, peers.last()).x as int
        } else {
            0int
        }
    }
}

/// Sum of the y components of the repulsions from the peers that repel `me`.
pub open spec fn repel_sum_y(me: Vec2i, peers: Seq<Vec2i>, range: int) -> int
    decreases peers.len(),
{
    if peers.len() == 0 {
        0
    } else {
        repel_sum_y(me, peers.drop_last(), range) + if repels(me, peers.last(), range) {
            repulsion(me, peers.last()).y as int
        } else {
            0int
        }
    }
}

/// The separation vector of `me` among `peers`: the average of the unit
/// repulsions from all peers within the detection range, zero when no peer
/// qualifies.
pub open spec fn separation_spec(me: Vec2i, peers: Seq<Vec2i>, range: int) -> Vec2i {
    let c = repel_count(me, peers, range);
    if c == 0 {
        (Vec2i { x: 0, y: 0 })
    } else {
        (Vec2i {
            x: div_trunc(repel_sum_x(me, peers, range), c) as i64,
            y: div_trunc(repel_sum_y(me, peers, range), c) as i64,
        })
    }
}

impl Boid {
    /// The separation vector of an enemy at `me` among the snapshot
    /// `peers` of all enemy positions (the enemy itself may be in the
    /// snapshot; being coincident with `me`, it is discarded).
    pub fn calculate_separation(&self, me: Vec2i, peers: &Vec<Vec2i>) -> (r: Vec2i)
        requires
            in_bounds(me),
            forall|i: int| 0 <= i < peers@.len() ==> in_bounds(#[trigger] peers@[i]),
            0 <= self.detection_range <= COORD_LIMIT,
            peers@.len() <= 0x100_0000,
        ensures
            r == separation_spec(me, peers@, self.detection_range as int),
            -UNIT <= r.x <= UNIT,
            -UNIT <= r.y <= UNIT,
    {
        let range = self.detection_range;
        proof {
            assert((range as u64) * (range as u64) <= 0x1000_0000_0000_0000u64)
                by (nonlinear_arith)
                requires
                    0 <= range <= 0x2000_0000i64,
            ;
        }
        let range_sq: u64 = (range as u64) * (range as u64);
        let ghost grange = range as int;
        let mut count: i64 = 0;
        let mut sum_x: i64 = 0;
        let mut sum_y: i64 = 0;
        let mut i: usize = 0;
        while i < peers.len()
            invariant
                0 <= i <= peers@.len(),
                peers@.len() <= 0x100_0000,
                in_bounds(me),
                forall|j: int| 0 <= j < peers@.len() ==> in_bounds(#[trigger] peers@[j]),
                0 <= grange <= COORD_LIMIT,
                range_sq == grange * grange,
                count == repel_count(me, peers@.take(i as int), grange),
                sum_x == repel_sum_x(me, peers@.take(i as int), grange),
                sum_y == repel_sum_y(me, peers@.take(i as int), grange),
                0 <= count <= i,
                -count * UNIT <= sum_x <= count * UNIT,
                -count * UNIT <= sum_y <= count * UNIT,
            decreases peers@.len() - i,
        {
            let peer = peers[i];
            let dsq: u64 = me.dist_sq(peer);
            proof {
                crate::mathx::lemma_take_step(peers@, i as int);
            }
            if 0 < dsq && dsq < range_sq {
                let repel = me.sub(peer).unit_or_zero();
                count = count + 1;
                sum_x = sum_x + repel.x;
                sum_y = sum_y + repel.y;
            }
            i = i + 1;
        }
        proof {
            assert(peers@.take(peers@.len() as int) =~= peers@);
        }
        if count == 0 {
            Vec2i { x: 0, y: 0 }
        } else {
            proof {
                lemma_div_trunc_abs_le(sum_x as int, count as int, UNIT as int);
                lemma_div_trunc_abs_le(sum_y as int, count as int, UNIT as int);
            }
            Vec2i {
                x: div_trunc_i64(sum_x, count),
                y: div_trunc_i64(sum_y, count),
            }
        }
    }

    /// Recomputes and stores the separation vector.
    pub fn update_separation(&mut self, me: Vec2i, peers: &Vec<Vec2i>)
        requires
            in_bounds(me),
            forall|i: int| 0 <= i < peers@.len() ==> in_bounds(#[trigger] peers@[i]),
            0 <= old(self).detection_range <= COORD_LIMIT,
            peers@.len() <= 0x100_0000,
        ensures
            final(self).separation == separation_spec(
                me,
                peers@,
                old(self).detection_range as int,
            ),
            final(self).detection_range == old(self).detection_range,
            final(self).separation_gain == old(self).separation_gain,
            -UNIT <= final(self).separation.x <= UNIT,
            -UNIT <= final(self).separation.y <= UNIT,
    {
        let sep = self.calculate_separation(me, peers);
        self.separation = sep;
    }
}

/// The velocity after the separation vector (scaled by `UNIT`) has pushed
/// for `dt_ms`: each component gains `sep * gain * dt_ms / 1_000_000`
/// (`UNIT` for the vector scale, 1000 for milliseconds).
pub open spec fn separation_push(vel: Vec2i, sep: Vec2i, gain: int, dt_ms: int) -> Vec2i {
    (Vec2i {
        x: (vel.x + div_trunc(sep.x * gain * dt_ms, 1_000_000)) as i64,
        y: (vel.y + div_trunc(sep.y * gain * dt_ms, 1_000_000)) as i64,
    })
}

/// The velocity an enemy seeks: the unit direction from `me` to the player
/// at full `speed`.
pub open spec fn desired_velocity(me: Vec2i, player: Vec2i, speed: int) -> Vec2i {
    let dir = unit_or_zero_spec(Vec2i { x: (player.x - me.x) as i64, y: (player.y - me.y) as i64 });
    (Vec2i {
        x: div_trunc(dir.x * speed, UNIT as int) as i64,
        y: div_trunc(dir.y * speed, UNIT as int) as i64,
    })
}

/// The acceleration cap of one movement step: `2 * speed * dt`.
pub open spec fn seek_step(speed: int, dt_ms: int) -> int {
    2 * speed * dt_ms / 1000
}

/// One movement step of an enemy: the separation push always applies; the
/// seek toward the player applies for a melee enemy always, and for a
/// ranged enemy only strictly within its maximum range.
pub open spec fn steer_spec(
    vel: Vec2i,
    me: Vec2i,
    player: Vec2i,
    class: EnemyClass,
    sep: Vec2i,
    gain: int,
    speed: int,
    dt_ms: int,
) -> Vec2i {
    let pushed = separation_push(vel, sep, gain, dt_ms);
    let sought = move_towards_spec(
        pushed,
        desired_velocity(me, player, speed),
        seek_step(speed, dt_ms),
    );
    match class {
        EnemyClass::Melee => sought,
        EnemyClass::Ranged { max_range } => {
            if dist_sq_spec(me, player) < max_range * max_range {
                sought
            } else {
                pushed
            }
        },
    }
}

/// A class whose range the arithmetic can hold.
pub open spec fn class_wf(class: EnemyClass) -> bool {
    match class {
        EnemyClass::Melee => true,
        EnemyClass::Ranged { max_range } => 0 <= max_range <= COORD_LIMIT,
    }
}

/// One movement step of an enemy's velocity, from the cached boid state.
pub fn steer(
    vel: Vec2i,
    me: Vec2i,
    player: Vec2i,
    class: EnemyClass,
    boid: &Boid,
    speed: i64,
    dt_ms: u64,
) -> (r: Vec2i)
    requires
        -VEL_LIMIT <= vel.x <= VEL_LIMIT,
        -VEL_LIMIT <= vel.y <= VEL_LIMIT,
        in_bounds(me),
        in_bounds(player),
        boid_wf(*boid),
        class_wf(class),
        0 <= speed <= RATE_LIMIT,
        dt_ms <= MAX_TICK_MS,
    ensures
        r == steer_spec(
            vel,
            me,
            player,
            class,
            boid.separation,
            boid.separation_gain as int,
            speed as int,
            dt_ms as int,
        ),
        in_bounds(r),
{
    let sep = boid.separation;
    let gain = boid.separation_gain;
    proof {
        assert(-1_048_576_000 <= sep.x * gain <= 1_048_576_000 && -1_048_576_000 <= sep.y * gain
            <= 1_048_576_000) by (nonlinear_arith)
            requires
                -1000i64 <= sep.x <= 1000i64,
                -1000i64 <= sep.y <= 1000i64,
                0 <= gain <= 0x10_0000i64,
        ;
        assert(-62_914_560_000_000 <= (sep.x * gain) * (dt_ms as int) <= 62_914_560_000_000
            && -62_914_560_000_000 <= (sep.y * gain) * (dt_ms as int) <= 62_914_560_000_000)
            by (nonlinear_arith)
            requires
                -1_048_576_000 <= sep.x * gain <= 1_048_576_000,
                -1_048_576_000 <= sep.y * gain <= 1_048_576_000,
                0 <= dt_ms <= 60_000u64,
        ;
        crate::mathx::lemma_div_trunc_abs_le(
            sep.x * gain * (dt_ms as int),
            1_000_000,
            62_914_560,
        );
        crate::mathx::lemma_div_trunc_abs_le(
            sep.y * gain * (dt_ms as int),
            1_000_000,
            62_914_560,
        );
    }
    let push_x: i64 = div_trunc_i64(sep.x * gain * (dt_ms as i64), 1_000_000);
    let push_y: i64 = div_trunc_i64(sep.y * gain * (dt_ms as i64), 1_000_000);
    let pushed = Vec2i { x: vel.x + push_x, y: vel.y + push_y };
    let seek = match class {
        EnemyClass::Melee => true,
        EnemyClass::Ranged { max_range } => {
            proof {
                assert((max_range as u64) * (max_range as u64) <= 0x1000_0000_0000_0000u64)
                    by (nonlinear_arith)
                    requires
                        0 <= max_range <= 0x2000_0000i64,
                ;
            }
            me.dist_sq(player) < (max_range as u64) * (max_range as u64)
        },
    };
    if seek {
        let dir = player.sub(me).unit_or_zero();
        proof {
            assert(-(speed * 1000) <= dir.x * speed <= speed * 1000
                && -(speed * 1000) <= dir.y * speed <= speed * 1000)
                by (nonlinear_arith)
                requires
                    -1000i64 <= dir.x <= 1000i64,
                    -1000i64 <= dir.y <= 1000i64,
                    0 <= speed <= 0x10_0000i64,
            ;
            crate::mathx::lemma_div_trunc_abs_le(dir.x * speed, UNIT as int, speed as int);
            crate::mathx::lemma_div_trunc_abs_le(dir.y * speed, UNIT as int, speed as int);
        }
        let desired = Vec2i {
            x: div_trunc_i64(dir.x * speed, UNIT),
            y: div_trunc_i64(dir.y * speed, UNIT),
        };
        proof {
            assert(0 <= 2 * speed * (dt_ms as int) <= 126_000_000_000) by (nonlinear_arith)
                requires
                    0 <= speed <= 0x10_0000i64,
                    0 <= dt_ms <= 60_000u64,
            ;
            vstd::arithmetic::div_mod::lemma_div_is_ordered(
                2 * speed * (dt_ms as int),
                126_000_000_000,
                1000,
            );
            vstd::arithmetic::div_mod::lemma_div_pos_is_pos(2 * speed * (dt_ms as int), 1000);
        }
        let step: i64 = 2 * speed * (dt_ms as i64) / 1000;
        pushed.move_towards(desired, step)
    } else {
        pushed
    }
}

/// How often the flock recomputes separation vectors: every tick, or at a
/// fixed interval in milliseconds.
#[derive(Clone, Copy, Debug, PartialEq, Eq, Structural)]
pub enum SeparationUpdateRate {
    PerFrame,
    EveryMs { interval_ms: u64 },
}

/// The accumulator that gates interval-based separation updates. It grows
/// by at most one tick per call and shrinks by the interval each time the
/// scan fires, so it stays far below its bound whenever the interval is no
/// longer than a session.
#[derive(Clone, Copy, Debug, PartialEq, Eq, Structural)]
pub struct SeparationClock {
    pub acc_ms: u64,
}

impl SeparationClock {
    pub fn new() -> (r: SeparationClock)
        ensures
            r == (SeparationClock { acc_ms: 0 }),
    {
        SeparationClock { acc_ms: 0 }
    }

    /// Advances the accumulator and decides whether the separation scan is
    /// due this tick: always for per-frame updates; for interval updates,
    /// exactly when the accumulated time crosses the interval, which is
    /// then subtracted so the cadence keeps its phase.
    pub fn tick(&mut self, rate: SeparationUpdateRate, dt_ms: u64) -> (due: bool)
        requires
            dt_ms <= MAX_TICK_MS,
            old(self).acc_ms <= 0x1_0000_0000,
        ensures
            match rate {
                SeparationUpdateRate::PerFrame => {
                    &&& due
                    &&& final(self).acc_ms == old(self).acc_ms
                },
                SeparationUpdateRate::EveryMs { interval_ms } => {
                    &&& due == (old(self).acc_ms + dt_ms > interval_ms)
                    &&& (due ==> final(self).acc_ms == old(self).acc_ms + dt_ms - interval_ms)
                    &&& (!due ==> final(self).acc_ms == old(self).acc_ms + dt_ms)
                },
            },
    {
        match rate {
            SeparationUpdateRate::PerFrame => true,
            SeparationUpdateRate::EveryMs { interval_ms } => {
                let acc = self.acc_ms + dt_ms;
                if acc > interval_ms {
                    self.acc_ms = acc - interval_ms;
                    true
                } else {
                    self.acc_ms = acc;
                    false
                }
            },
        }
    }
}

/// Recomputes every boid's separation vector from one snapshot of all enemy
/// positions, as the per-tick flock update does.
pub fn update_separations(boids: &mut Vec<Boid>, positions: &Vec<Vec2i>)
    requires
        old(boids)@.len() == positions@.len(),
        positions@.len() <= 0x100_0000,
        forall|i: int| 0 <= i < positions@.len() ==> in_bounds(#[trigger] positions@[i]),
        forall|i: int| 0 <= i < old(boids)@.len() ==> boid_wf(#[trigger] old(boids)@[i]),
    ensures
        final(boids)@.len() == old(boids)@.len(),
        forall|i: int| 0 <= i < final(boids)@.len() ==> #[trigger] final(boids)@[i] == (Boid {
            separation: separation_spec(
                positions@[i],
                positions@,
                old(boids)@[i].detection_range as int,
            ),
            ..old(boids)@[i]
        }),
        forall|i: int| 0 <= i < final(boids)@.len() ==> boid_wf(#[trigger] final(boids)@[i]),
{
    let n = boids.len();
    let mut i: usize = 0;
    while i < n
        invariant
            n == boids@.len() == positions@.len(),
            positions@.len() <= 0x100_0000,
            0 <= i <= n,
            forall|j: int| 0 <= j < positions@.len() ==> in_bounds(#[trigger] positions@[j]),
            forall|j: int| 0 <= j < n ==> boid_wf(#[trigger] old(boids)@[j]),
            forall|j: int| i <= j < n ==> #[trigger] boids@[j] == old(boids)@[j],
            forall|j: int| 0 <= j < i ==> #[trigger] boids@[j] == (Boid {
                separation: separation_spec(
                    positions@[j],
                    positions@,
                    old(boids)@[j].detection_range as int,
                ),
                ..old(boids)@[j]
            }),
            forall|j: int| 0 <= j < i ==> boid_wf(#[trigger] boids@[j]),
        decreases n - i,
    {
        let me = positions[i];
        let boid = &boids[i];
        let sep = boid.calculate_separation(me, positions);
        let updated = Boid {
            detection_range: boid.detection_range,
            separation: sep,
            separation_gain: boid.separation_gain,
        };
        boids.set(i, updated);
        i = i + 1;
    }
}

/// The movement state of one enemy, as the flock movement step reads and
/// writes it.
#[derive(Clone, Copy, Debug, PartialEq, Eq, Structural)]
pub struct EnemyMotion {
    pub pos: Vec2i,
    pub vel: Vec2i,
    pub class: EnemyClass,
    pub speed: i64,
}

/// An enemy the movement step accepts.
pub open spec fn motion_wf(e: EnemyMotion) -> bool {
    &&& in_bounds(e.pos)
    &&& -VEL_LIMIT <= e.vel.x <= VEL_LIMIT
    &&& -VEL_LIMIT <= e.vel.y <= VEL_LIMIT
    &&& class_wf(e.class)
    &&& 0 <= e.speed <= RATE_LIMIT
}

/// One movement tick of the whole flock: every enemy's velocity takes its
/// cached separation push and its class's seek toward the player; nothing
/// else about an enemy changes.
pub fn steer_flock(enemies: &mut Vec<EnemyMotion>, boids: &Vec<Boid>, player: Vec2i, dt_ms: u64)
    requires
        old(enemies)@.len() == boids@.len(),
        forall|i: int| 0 <= i < old(enemies)@.len() ==> motion_wf(#[trigger] old(enemies)@[i]),
        forall|i: int| 0 <= i < boids@.len() ==> boid_wf(#[trigger] boids@[i]),
        in_bounds(player),
        dt_ms <= MAX_TICK_MS,
    ensures
        final(enemies)@.len() == old(enemies)@.len(),
        forall|i: int|
            0 <= i < final(enemies)@.len() ==> #[trigger] final(enemies)@[i] == (EnemyMotion {
                vel: steer_spec(
                    old(enemies)@[i].vel,
                    old(enemies)@[i].pos,
                    player,
                    old(enemies)@[i].class,
                    boids@[i].separation,
                    boids@[i].separation_gain as int,
                    old(enemies)@[i].speed as int,
                    dt_ms as int,
                ),
                ..old(enemies)@[i]
            }),
        forall|i: int| 0 <= i < final(enemies)@.len() ==> in_bounds(
            (#[trigger] final(enemies)@[i]).vel,
        ),
{
    let n = enemies.len();
    let mut i: usize = 0;
    while i < n
        invariant
            n == enemies@.len() == old(enemies)@.len() == boids@.len(),
            0 <= i <= n,
            forall|j: int| 0 <= j < n ==> motion_wf(#[trigger] old(enemies)@[j]),
            forall|j: int| 0 <= j < n ==> boid_wf(#[trigger] boids@[j]),
            in_bounds(player),
            dt_ms <= MAX_TICK_MS,
            forall|j: int| i <= j < n ==> #[trigger] enemies@[j] == old(enemies)@[j],
            forall|j: int|
                0 <= j < i ==> #[trigger] enemies@[j] == (EnemyMotion {
                    vel: steer_spec(
                        old(enemies)@[j].vel,
                        old(enemies)@[j].pos,
                        player,
                        old(enemies)@[j].class,
                        boids@[j].separation,
                        boids@[j].separation_gain as int,
                        old(enemies)@[j].speed as int,
                        dt_ms as int,
                    ),
                    ..old(enemies)@[j]
                }),
            forall|j: int| 0 <= j < i ==> in_bounds((#[trigger] enemies@[j]).vel),
        decreases n - i,
    {
        let e = enemies[i];
        let vel = steer(e.vel, e.pos, player, e.class, &boids[i], e.speed, dt_ms);
        enemies.set(i, EnemyMotion { pos: e.pos, vel, class: e.class, speed: e.speed });
        i = i + 1;
    }
}

/// A ranged enemy at or beyond its maximum range gets no seek term: its
/// velocity changes by the separation push alone.
pub proof fn lemma_ranged_no_seek(
    vel: Vec2i,
    me: Vec2i,
    player: Vec2i,
    max_range: i64,
    sep: Vec2i,
    gain: int,
    speed: int,
    dt_ms: int,
)
    requires
        dist_sq_spec(me, player) >= max_range * max_range,
    ensures
        steer_spec(
            vel,
            me,
            player,
            EnemyClass::Ranged { max_range },
            sep,
            gain,
            speed,
            dt_ms,
        ) == separation_push(vel, sep, gain, dt_ms),
{
}

/// No peer in detection range: the separation vector is exactly zero.
pub proof fn lemma_separation_zero_without_peers(me: Vec2i, peers: Seq<Vec2i>, range: int)
    requires
        forall|i: int| 0 <= i < peers.len() ==> !repels(me, #[trigger] peers[i], range),
    ensures
        separation_spec(me, peers, range) == (Vec2i { x: 0, y: 0 }),
    decreases peers.len(),
{
    if peers.len() > 0 {
        assert(forall|i: int|
            0 <= i < peers.drop_last().len() ==> !repels(me, #[trigger] peers.drop_last()[i],
            range));
        lemma_separation_zero_without_peers(me, peers.drop_last(), range);
        assert(!repels(me, peers.last(), range));
    }
}

/// A peer at exactly the same position is excluded: appending it to the
/// snapshot leaves the separation vector (and the peer count behind it)
/// unchanged, so a coincident pair pushes nothing into the velocities.
pub proof fn lemma_coincident_peer_excluded(me: Vec2i, peers: Seq<Vec2i>, p: Vec2i, range: int)
    requires
        dist_sq_spec(me, p) == 0,
    ensures
        separation_spec(me, peers.push(p), range) == separation_spec(me, peers, range),
        repel_count(me, peers.push(p), range) == repel_count(me, peers, range),
{
    assert(peers.push(p).drop_last() =~= peers);
    assert(peers.push(p).last() == p);
    assert(!repels(me, p, range));
}

} // verus!
