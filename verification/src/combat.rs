//! Combat resolution: overlapping hitboxes drain health once per tick,
//! successful applications emit hit events, the first tick at or below zero
//! health marks the entity dead exactly once, and queued knockback is
//! consumed the tick it is processed.

use vstd::prelude::*;

use crate::mathx::{div_trunc, div_trunc_i64, UNIT};
use crate::steering::RATE_LIMIT;
use crate::vec2::{unit_or_zero_spec, Vec2i, COORD_LIMIT};

verus! {

/// Health magnitudes stay within this bound.
pub const HEALTH_LIMIT: i64 = 0x100_0000_0000;

/// A single hitbox deals at most this much damage.
pub const DAMAGE_LIMIT: i64 = 0x10_0000;

/// At most this many hitboxes can overlap one hurtbox in a tick.
pub const MAX_CONTACTS: usize = 0x1000;

/// One damage-dealing overlap a hurtbox sees this tick: how much it drains
/// and where it came from (for knockback direction and effect placement).
#[derive(Clone, Copy, Debug, PartialEq, Eq, Structural)]
pub struct HitboxContact {
    pub damage: i64,
    pub source: Vec2i,
}

/// A hit event emitted for one successful damage application.
#[derive(Clone, Copy, Debug, PartialEq, Eq, Structural)]
pub struct HitEvent {
    pub damage: i64,
    pub source: Vec2i,
}

/// The combat state every character carries: integer health, the death
/// mark, and whether an invulnerability window is attached.
#[derive(Clone, Copy, Debug, PartialEq, Eq, Structural)]
pub struct Vitals {
    pub health: i64,
    pub dead: bool,
    pub iframes: bool,
}

/// A combat state the pipeline accepts: bounded health, and positive
/// health as long as the entity is alive (health is clamped at creation and
/// the entity is marked dead the moment it reaches zero).
pub open spec fn vitals_wf(v: Vitals) -> bool {
    &&& -HEALTH_LIMIT <= v.health <= HEALTH_LIMIT
    &&& !v.dead ==> v.health >= 1
}

/// A contact list the pipeline accepts: nonnegative bounded damage values.
pub open spec fn contacts_wf(s: Seq<HitboxContact>) -> bool {
    forall|i: int| 0 <= i < s.len() ==> 0 <= (#[trigger] s[i]).damage <= DAMAGE_LIMIT
}

/// Total damage of all overlapping hitboxes.
pub open spec fn total_damage(s: Seq<HitboxContact>) -> int
    decreases s.len(),
{
    if s.len() == 0 {
        0
    } else {
        total_damage(s.drop_last()) + s.last().damage
    }
}

/// Whether damage intake is skipped entirely: the entity is already dead,
/// or an iframe marker is attached.
pub open spec fn damage_blocked(v: Vitals) -> bool {
    v.dead || v.iframes
}

/// The combat state after one tick of overlaps: unchanged when blocked;
/// otherwise health drops by the damage total, and the entity is marked
/// dead the first time health reaches zero or below.
pub open spec fn damage_next(v: Vitals, s: Seq<HitboxContact>) -> Vitals {
    if damage_blocked(v) {
        v
    } else {
        let h = v.health - total_damage(s);
        (Vitals { health: h as i64, dead: h <= 0, iframes: v.iframes })
    }
}

/// Whether this tick of overlaps kills the entity: it was alive and
/// unblocked, and the damage total brings health to zero or below. This is
/// the one tick that emits a death event.
pub open spec fn death_now(v: Vitals, s: Seq<HitboxContact>) -> bool {
    !damage_blocked(v) && v.health - total_damage(s) <= 0
}

proof fn lemma_total_damage_bounds(s: Seq<HitboxContact>)
    requires
        contacts_wf(s),
    ensures
        0 <= total_damage(s) <= s.len() * DAMAGE_LIMIT,
    decreases s.len(),
{
    if s.len() > 0 {
        assert(contacts_wf(s.drop_last()));
        lemma_total_damage_bounds(s.drop_last());
        assert(s.len() * DAMAGE_LIMIT == s.drop_last().len() * DAMAGE_LIMIT + DAMAGE_LIMIT)
            by (nonlinear_arith)
            requires
                s.len() >= 1,
                s.drop_last().len() == s.len() - 1,
        ;
    }
}

/// Applies one tick of overlapping hitboxes to a character: subtracts each
/// hitbox's damage once, emits one hit event per successful application,
/// and reports whether the entity died this very tick.
pub fn apply_damage_tick(vitals: &mut Vitals, contacts: &Vec<HitboxContact>) -> (r: (
    Vec<HitEvent>,
    bool,
))
    requires
        vitals_wf(*old(vitals)),
        contacts_wf(contacts@),
        contacts@.len() <= MAX_CONTACTS,
    ensures
        *final(vitals) == damage_next(*old(vitals), contacts@),
        vitals_wf(*final(vitals)),
        r.1 == death_now(*old(vitals), contacts@),
        damage_blocked(*old(vitals)) ==> r.0@.len() == 0,
        !damage_blocked(*old(vitals)) ==> r.0@.len() == contacts@.len(),
        forall|i: int| 0 <= i < r.0@.len() ==> #[trigger] r.0@[i] == (HitEvent {
            damage: contacts@[i].damage,
            source: contacts@[i].source,
        }),
{
    if self_blocked(vitals) {
        return (Vec::new(), false);
    }
    let mut hits: Vec<HitEvent> = Vec::new();
    let mut total: i64 = 0;
    let mut i: usize = 0;
    while i < contacts.len()
        invariant
            0 <= i <= contacts@.len(),
            contacts@.len() <= MAX_CONTACTS,
            contacts_wf(contacts@),
            total == total_damage(contacts@.take(i as int)),
            0 <= total <= i * DAMAGE_LIMIT,
            hits@.len() == i,
            forall|j: int| 0 <= j < i ==> #[trigger] hits@[j] == (HitEvent {
                damage: contacts@[j].damage,
                source: contacts@[j].source,
            }),
        decreases contacts@.len() - i,
    {
        let c = contacts[i];
        proof {
            crate::mathx::lemma_take_step(contacts@, i as int);
        }
        total = total + c.damage;
        hits.push(HitEvent { damage: c.damage, source: c.source });
        i = i + 1;
    }
    proof {
        assert(contacts@.take(contacts@.len() as int) =~= contacts@);
    }
    let new_health = self_drain(vitals, total);
    let died = new_health <= 0;
    vitals.health = new_health;
    if died {
        vitals.dead = true;
    }
    (hits, died)
}

/// Resolves one combat tick for the whole enemy population: entity `i`
/// takes its overlapping hitboxes `overlaps[i]`, its hit events are
/// collected per entity, and the flag `died[i]` says whether this tick
/// killed it — the one tick its death event goes out.
pub fn enemies_take_damage(vitals: &mut Vec<Vitals>, overlaps: &Vec<Vec<HitboxContact>>) -> (r: (
    Vec<Vec<HitEvent>>,
    Vec<bool>,
))
    requires
        old(vitals)@.len() == overlaps@.len(),
        forall|i: int| 0 <= i < old(vitals)@.len() ==> vitals_wf(#[trigger] old(vitals)@[i]),
        forall|i: int|
            0 <= i < overlaps@.len() ==> contacts_wf((#[trigger] overlaps@[i])@)
                && overlaps@[i]@.len() <= MAX_CONTACTS,
    ensures
        final(vitals)@.len() == old(vitals)@.len(),
        r.0@.len() == old(vitals)@.len(),
        r.1@.len() == old(vitals)@.len(),
        forall|i: int|
            0 <= i < old(vitals)@.len() ==> #[trigger] final(vitals)@[i] == damage_next(
                old(vitals)@[i],
                overlaps@[i]@,
            ),
        forall|i: int| 0 <= i < old(vitals)@.len() ==> vitals_wf(#[trigger] final(vitals)@[i]),
        forall|i: int|
            0 <= i < old(vitals)@.len() ==> #[trigger] r.1@[i] == death_now(
                old(vitals)@[i],
                overlaps@[i]@,
            ),
        forall|i: int|
            0 <= i < old(vitals)@.len() ==> (damage_blocked(old(vitals)@[i]) ==> (
            #[trigger] r.0@[i])@.len() == 0) && (!damage_blocked(old(vitals)@[i])
                ==> r.0@[i]@.len() == overlaps@[i]@.len()),
{
    let n = vitals.len();
    let mut all_hits: Vec<Vec<HitEvent>> = Vec::new();
    let mut died: Vec<bool> = Vec::new();
    let mut i: usize = 0;
    while i < n
        invariant
            n == vitals@.len() == old(vitals)@.len() == overlaps@.len(),
            0 <= i <= n,
            forall|j: int| 0 <= j < n ==> vitals_wf(#[trigger] old(vitals)@[j]),
            forall|j: int|
                0 <= j < n ==> contacts_wf((#[trigger] overlaps@[j])@) && overlaps@[j]@.len()
                    <= MAX_CONTACTS,
            forall|j: int| i <= j < n ==> #[trigger] vitals@[j] == old(vitals)@[j],
            all_hits@.len() == i,
            died@.len() == i,
            forall|j: int|
                0 <= j < i ==> #[trigger] vitals@[j] == damage_next(
                    old(vitals)@[j],
                    overlaps@[j]@,
                ),
            forall|j: int| 0 <= j < i ==> vitals_wf(#[trigger] vitals@[j]),
            forall|j: int|
                0 <= j < i ==> #[trigger] died@[j] == death_now(old(vitals)@[j], overlaps@[j]@),
            forall|j: int|
                0 <= j < i ==> (damage_blocked(old(vitals)@[j]) ==> (
                #[trigger] all_hits@[j])@.len() == 0) && (!damage_blocked(old(vitals)@[j])
                    ==> all_hits@[j]@.len() == overlaps@[j]@.len()),
        decreases n - i,
    {
        let mut v = vitals[i];
        let (hits, dead_now) = apply_damage_tick(&mut v, &overlaps[i]);
        vitals.set(i, v);
        all_hits.push(hits);
        died.push(dead_now);
        i = i + 1;
    }
    (all_hits, died)
}

/// Reads whether damage intake is skipped for this entity.
fn self_blocked(vitals: &Vitals) -> (r: bool)
    ensures
        r == damage_blocked(*vitals),
{
    vitals.dead || vitals.iframes
}

/// Health after draining `total`, in bounds by the size limits.
fn self_drain(vitals: &Vitals, total: i64) -> (r: i64)
    requires
        vitals_wf(*vitals),
        0 <= total <= MAX_CONTACTS * DAMAGE_LIMIT,
    ensures
        r == vitals.health - total,
{
    vitals.health - total
}

/// Unblocked overlap drains health by exactly the damage total, strictly
/// when any overlapping hitbox deals damage.
pub proof fn lemma_damage_drains_health(v: Vitals, s: Seq<HitboxContact>)
    requires
        vitals_wf(v),
        contacts_wf(s),
        s.len() <= MAX_CONTACTS,
        !v.dead,
        !v.iframes,
    ensures
        damage_next(v, s).health == v.health - total_damage(s),
        total_damage(s) > 0 ==> damage_next(v, s).health < v.health,
{
    lemma_total_damage_bounds(s);
}

/// While an iframe marker is attached, health never changes, whatever
/// overlaps: the whole tick of damage intake is skipped.
pub proof fn lemma_iframes_block_damage(v: Vitals, s: Seq<HitboxContact>)
    requires
        v.iframes,
    ensures
        damage_next(v, s) == v,
        !death_now(v, s),
{
}

/// An entity dies exactly once: a killing tick marks it dead, a dead entity
/// never reports death again, and death is reported exactly on the first
/// tick health reaches zero, however many simultaneous contacts caused it.
pub proof fn lemma_death_exactly_once(v: Vitals, s1: Seq<HitboxContact>, s2: Seq<HitboxContact>)
    requires
        vitals_wf(v),
        contacts_wf(s1),
        contacts_wf(s2),
        s1.len() <= MAX_CONTACTS,
        s2.len() <= MAX_CONTACTS,
    ensures
        death_now(v, s1) ==> damage_next(v, s1).dead,
        damage_next(v, s1).dead ==> !death_now(damage_next(v, s1), s2),
        !(death_now(v, s1) && death_now(damage_next(v, s1), s2)),
        v.dead ==> !death_now(v, s1),
        death_now(v, s1) ==> damage_next(v, s1).health <= 0 && !v.dead,
{
    lemma_total_damage_bounds(s1);
    lemma_total_damage_bounds(s2);
}

/// Ticks a running dash: while the dash timer runs the character keeps its
/// iframe marker; the tick in which the timer completes removes the dash
/// and the marker with it.
pub fn dash_tick(vitals: &mut Vitals, dash: &mut Option<crate::timer::TickTimer>, dt_ms: u64)
    requires
        match *old(dash) {
            Some(t) => crate::timer::timer_wf(t) && t.mode == crate::timer::TimerMode::Once,
            None => true,
        },
        dt_ms <= crate::steering::MAX_TICK_MS,
    ensures
        old(dash).is_none() ==> *final(dash) == *old(dash) && *final(vitals) == *old(vitals),
        match *old(dash) {
            Some(t) => {
                let ticked = crate::timer::tick_spec(t, dt_ms as int);
                if ticked.elapsed_ms >= ticked.duration_ms {
                    final(dash).is_none() && *final(vitals) == (Vitals {
                        iframes: false,
                        ..*old(vitals)
                    })
                } else {
                    *final(dash) == Some(ticked) && *final(vitals) == *old(vitals)
                }
            },
            None => true,
        },
{
    match dash {
        Some(t) => {
            t.tick(dt_ms);
            if t.finished() {
                *dash = None;
                vitals.iframes = false;
            }
        },
        None => {},
    }
}

/// A contact-start pair the physics layer reports, by entity identity.
#[derive(Clone, Copy, Debug, PartialEq, Eq, Structural)]
pub struct ContactPair {
    pub a: u64,
    pub b: u64,
}

/// A registered damage-dealing hitbox: its entity identity, its damage,
/// and where it stands.
#[derive(Clone, Copy, Debug, PartialEq, Eq, Structural)]
pub struct HitboxInfo {
    pub id: u64,
    pub damage: i64,
    pub pos: Vec2i,
}

/// The first registered hitbox with the given identity, if any.
pub open spec fn find_hitbox(hbs: Seq<HitboxInfo>, id: u64) -> Option<HitboxInfo>
    decreases hbs.len(),
{
    if hbs.len() == 0 {
        None
    } else if hbs.first().id == id {
        Some(hbs.first())
    } else {
        find_hitbox(hbs.drop_first(), id)
    }
}

/// The entity the player touched in a contact pair, if the player is one
/// of the two.
pub open spec fn contact_partner(c: ContactPair, player: u64) -> Option<u64> {
    if c.a == player {
        Some(c.b)
    } else if c.b == player {
        Some(c.a)
    } else {
        None
    }
}

/// The player hits that one tick of contact events produces: one per
/// contact that involves the player and whose partner is a registered
/// hitbox, carrying that hitbox's damage and position. A contact without
/// the player, or whose partner was already removed this tick, is silently
/// skipped.
pub open spec fn player_hits_spec(
    contacts: Seq<ContactPair>,
    player: u64,
    hbs: Seq<HitboxInfo>,
) -> Seq<HitEvent>
    decreases contacts.len(),
{
    if contacts.len() == 0 {
        Seq::empty()
    } else {
        let prefix = player_hits_spec(contacts.drop_last(), player, hbs);
        match contact_partner(contacts.last(), player) {
            Some(other) => match find_hitbox(hbs, other) {
                Some(hb) => prefix.push(HitEvent { damage: hb.damage, source: hb.pos }),
                None => prefix,
            },
            None => prefix,
        }
    }
}

/// Looks a hitbox up by entity identity.
fn lookup_hitbox(hbs: &Vec<HitboxInfo>, id: u64) -> (r: Option<HitboxInfo>)
    ensures
        r == find_hitbox(hbs@, id),
{
    let mut j: usize = 0;
    proof {
        assert(hbs@.skip(0) =~= hbs@);
    }
    while j < hbs.len()
        invariant
            0 <= j <= hbs@.len(),
            find_hitbox(hbs@, id) == find_hitbox(hbs@.skip(j as int), id),
        decreases hbs@.len() - j,
    {
        proof {
            assert(hbs@.skip(j as int).first() == hbs@[j as int]);
            assert(hbs@.skip(j as int).drop_first() =~= hbs@.skip(j as int + 1));
        }
        if hbs[j].id == id {
            return Some(hbs[j]);
        }
        j = j + 1;
    }
    proof {
        assert(hbs@.skip(hbs@.len() as int).len() == 0);
    }
    None
}

/// Turns the contact-start events of one tick into player hits: each
/// contact that involves the player and a registered enemy hitbox yields
/// one hit with that hitbox's damage and position; the rest are skipped
/// without error.
pub fn player_hits(contacts: &Vec<ContactPair>, player: u64, hbs: &Vec<HitboxInfo>) -> (r: Vec<
    HitEvent,
>)
    ensures
        r@ == player_hits_spec(contacts@, player, hbs@),
{
    let mut hits: Vec<HitEvent> = Vec::new();
    let mut i: usize = 0;
    while i < contacts.len()
        invariant
            0 <= i <= contacts@.len(),
            hits@ == player_hits_spec(contacts@.take(i as int), player, hbs@),
        decreases contacts@.len() - i,
    {
        let c = contacts[i];
        proof {
            crate::mathx::lemma_take_step(contacts@, i as int);
        }
        let partner: Option<u64> = if c.a == player {
            Some(c.b)
        } else if c.b == player {
            Some(c.a)
        } else {
            None
        };
        match partner {
            Some(other) => {
                match lookup_hitbox(hbs, other) {
                    Some(hb) => {
                        hits.push(HitEvent { damage: hb.damage, source: hb.pos });
                    },
                    None => {},
                }
            },
            None => {},
        }
        i = i + 1;
    }
    proof {
        assert(contacts@.take(contacts@.len() as int) =~= contacts@);
    }
    hits
}

/// The overlaps that a list of hit events stands for, one per event.
pub open spec fn contacts_of(hits: Seq<HitEvent>) -> Seq<HitboxContact> {
    hits.map_values(|h: HitEvent| HitboxContact { damage: h.damage, source: h.source })
}

/// Applies the player-hit events of one tick: the player's health drops by
/// each event's damage through the same damage pipeline as every hurtbox
/// (so iframes and death behave identically), and an unblocked tick with
/// any hit queues one knockback impulse pointing from the last hit's
/// source away toward the player. Returns the queued impulse and whether
/// this tick killed the player.
pub fn player_take_hits(
    vitals: &mut Vitals,
    hits: &Vec<HitEvent>,
    player_pos: Vec2i,
    strength: i64,
) -> (r: (Option<Knockback>, bool))
    requires
        vitals_wf(*old(vitals)),
        contacts_wf(contacts_of(hits@)),
        hits@.len() <= MAX_CONTACTS,
        crate::vec2::in_bounds(player_pos),
        forall|i: int| 0 <= i < hits@.len() ==> crate::vec2::in_bounds((#[trigger] hits@[i]).source),
        0 <= strength <= RATE_LIMIT,
    ensures
        *final(vitals) == damage_next(*old(vitals), contacts_of(hits@)),
        vitals_wf(*final(vitals)),
        r.1 == death_now(*old(vitals), contacts_of(hits@)),
        r.0 == if !damage_blocked(*old(vitals)) && hits@.len() > 0 {
            Some(
                Knockback {
                    dir: (Vec2i {
                        x: (player_pos.x - hits@.last().source.x) as i64,
                        y: (player_pos.y - hits@.last().source.y) as i64,
                    }),
                    strength,
                },
            )
        } else {
            None::<Knockback>
        },
{
    let ghost mapped = contacts_of(hits@);
    let mut contacts: Vec<HitboxContact> = Vec::new();
    let mut i: usize = 0;
    while i < hits.len()
        invariant
            0 <= i <= hits@.len(),
            contacts@.len() == i,
            forall|j: int|
                0 <= j < i ==> #[trigger] contacts@[j] == (HitboxContact {
                    damage: hits@[j].damage,
                    source: hits@[j].source,
                }),
        decreases hits@.len() - i,
    {
        let h = hits[i];
        contacts.push(HitboxContact { damage: h.damage, source: h.source });
        i = i + 1;
    }
    proof {
        assert(contacts@ =~= mapped);
    }
    let blocked = self_blocked(vitals);
    let (_, died) = apply_damage_tick(vitals, &contacts);
    if !blocked && hits.len() > 0 {
        let last = hits[hits.len() - 1];
        let dir = player_pos.sub(last.source);
        (Some(Knockback { dir, strength }), died)
    } else {
        (None, died)
    }
}

/// A queued knockback impulse: a direction away from the damage source and
/// a strength.
#[derive(Clone, Copy, Debug, PartialEq, Eq, Structural)]
pub struct Knockback {
    pub dir: Vec2i,
    pub strength: i64,
}

/// The velocity a knockback imposes: the unit direction (zero when the
/// source coincides with the target) times the strength.
pub open spec fn knockback_velocity(kb: Knockback) -> Vec2i {
    let u = unit_or_zero_spec(kb.dir);
    (Vec2i {
        x: div_trunc(u.x * kb.strength, UNIT as int) as i64,
        y: div_trunc(u.y * kb.strength, UNIT as int) as i64,
    })
}

/// Consumes a queued knockback: when one is pending it overrides the
/// velocity outright for this tick and the queue empties — each impulse is
/// applied exactly once; with no impulse pending the velocity stands.
pub fn take_knockback(slot: &mut Option<Knockback>, vel: Vec2i) -> (r: Vec2i)
    requires
        match *old(slot) {
            Some(kb) => {
                &&& -(2 * COORD_LIMIT) <= kb.dir.x <= 2 * COORD_LIMIT
                &&& -(2 * COORD_LIMIT) <= kb.dir.y <= 2 * COORD_LIMIT
                &&& 0 <= kb.strength <= RATE_LIMIT
            },
            None => true,
        },
    ensures
        final(slot).is_none(),
        r == match *old(slot) {
            Some(kb) => knockback_velocity(kb),
            None => vel,
        },
        match *old(slot) {
            Some(kb) => -RATE_LIMIT <= r.x <= RATE_LIMIT && -RATE_LIMIT <= r.y <= RATE_LIMIT,
            None => r == vel,
        },
{
    let taken = slot.take();
    match taken {
        Some(kb) => {
            let u = kb.dir.unit_or_zero();
            proof {
                assert(-(kb.strength * 1000) <= u.x * kb.strength <= kb.strength * 1000
                    && -(kb.strength * 1000) <= u.y * kb.strength <= kb.strength * 1000)
                    by (nonlinear_arith)
                    requires
                        -1000i64 <= u.x <= 1000i64,
                        -1000i64 <= u.y <= 1000i64,
                        0 <= kb.strength <= 0x10_0000i64,
                ;
                crate::mathx::lemma_div_trunc_abs_le(
                    u.x * kb.strength,
                    UNIT as int,
                    kb.strength as int,
                );
                crate::mathx::lemma_div_trunc_abs_le(
                    u.y * kb.strength,
                    UNIT as int,
                    kb.strength as int,
                );
            }
            Vec2i {
                x: div_trunc_i64(u.x * kb.strength, UNIT),
                y: div_trunc_i64(u.y * kb.strength, UNIT),
            }
        },
        None => vel,
    }
}

} // verus!
